use rust_os::interrupts::{
    breakpoint_handler, completed_event, forward_key, keyboard_handler, load_idt, timer_handler,
    DecodedKey,
    Handler, InterruptIndex, KeyboardDecoder, TrapVectorTable, PIC_1_OFFSET, PIC_2_OFFSET,
    TABLE_LEN,
};
use rust_os::printing::{Color, Screen};

fn row_text(screen: &Screen, row: usize, len: usize) -> Vec<u8> {
    (0..len).map(|col| screen.buffer[2 * (row * 80 + col)]).collect()
}

#[test]
fn interrupt_lines_lie_in_the_master_range() {
    assert_eq!(InterruptIndex::Timer.as_u8(), 32);
    assert_eq!(InterruptIndex::Keyboard.as_u8(), 33);
    assert_eq!(InterruptIndex::Timer.as_usize(), 32);
    assert_eq!(InterruptIndex::Keyboard.as_usize(), 33);
    assert_eq!(PIC_1_OFFSET, 32);
    assert_eq!(PIC_2_OFFSET, PIC_1_OFFSET + 8);
}

#[test]
fn table_holds_exactly_the_recognized_traps() {
    let table = load_idt();
    assert_eq!(table.entries.len(), TABLE_LEN);
    for i in 0..TABLE_LEN {
        let expected = match i {
            3 => Some(Handler::Breakpoint),
            32 => Some(Handler::Timer),
            33 => Some(Handler::Keyboard),
            _ => None,
        };
        assert_eq!(table.handler(i), expected);
    }
}

#[test]
fn table_construction_gives_the_same_table_again() {
    let first = load_idt();
    let mut second = load_idt();
    assert_eq!(first.entries, second.entries);
    second.set_handler(3, Handler::Breakpoint);
    second.set_handler(32, Handler::Timer);
    second.set_handler(33, Handler::Keyboard);
    assert_eq!(first.entries, second.entries);
}

#[test]
fn new_table_has_no_handler_and_set_handler_touches_one_entry() {
    let mut table = TrapVectorTable::new();
    assert!(table.entries.iter().all(|e| e.is_none()));
    table.set_handler(255, Handler::Timer);
    assert_eq!(table.handler(255), Some(Handler::Timer));
    assert_eq!(table.entries.iter().filter(|e| e.is_some()).count(), 1);
}

#[test]
fn timer_tick_writes_a_dot_and_acknowledges_the_timer() {
    let mut screen = Screen::new(Color::Red, Color::Black);
    let ack = timer_handler(&mut screen);
    assert_eq!(ack, InterruptIndex::Timer);
    assert_eq!(row_text(&screen, 0, 1), b".".to_vec());
    assert_eq!((screen.row, screen.col), (0, 1));
}

#[test]
fn printable_scancode_writes_one_character() {
    let mut screen = Screen::new(Color::Red, Color::Black);
    let mut decoder = KeyboardDecoder::new();
    let ack = keyboard_handler(&mut screen, &mut decoder, 0x1e);
    assert_eq!(ack, InterruptIndex::Keyboard);
    assert_eq!((screen.row, screen.col), (0, 1));
    assert_eq!(screen.buffer[0], b'a');
    assert_eq!(screen.buffer[1], 0x04);
    assert!(screen.buffer[2..].iter().all(|b| *b == 0));
}

#[test]
fn first_byte_of_a_sequence_writes_nothing_and_is_remembered() {
    let mut screen = Screen::new(Color::Red, Color::Black);
    let mut decoder = KeyboardDecoder::new();
    let ack = keyboard_handler(&mut screen, &mut decoder, 0xe0);
    assert_eq!(ack, InterruptIndex::Keyboard);
    assert_eq!((screen.row, screen.col), (0, 0));
    assert!(screen.buffer.iter().all(|b| *b == 0));
    let ack = keyboard_handler(&mut screen, &mut decoder, 0x48);
    assert_eq!(ack, InterruptIndex::Keyboard);
    let name = format!("{:?}", pc_keyboard::KeyCode::ArrowUp);
    assert_eq!(name, "ArrowUp");
    assert_eq!(row_text(&screen, 0, name.len()), name.as_bytes().to_vec());
    assert_eq!((screen.row, screen.col), (0, name.len()));
}

#[test]
fn key_release_and_unknown_scancode_write_nothing() {
    let mut screen = Screen::new(Color::Red, Color::Black);
    let mut decoder = KeyboardDecoder::new();
    assert_eq!(keyboard_handler(&mut screen, &mut decoder, 0x9e), InterruptIndex::Keyboard);
    assert_eq!(keyboard_handler(&mut screen, &mut decoder, 0x7f), InterruptIndex::Keyboard);
    assert_eq!((screen.row, screen.col), (0, 0));
    assert!(screen.buffer.iter().all(|b| *b == 0));
}

#[test]
fn decoder_keeps_the_shift_key_in_mind() {
    let mut decoder = KeyboardDecoder::new();
    assert_eq!(decoder.decode(0x1e), Some(DecodedKey::Unicode('a')));
    assert_eq!(decoder.decode(0x2a), None);
    assert_eq!(decoder.decode(0x1e), Some(DecodedKey::Unicode('A')));
    assert_eq!(decoder.decode(0xaa), None);
    assert_eq!(decoder.decode(0x1e), Some(DecodedKey::Unicode('a')));
    assert_eq!(decoder.decode(0x3b), Some(DecodedKey::RawKey(String::from("F1"))));
}

#[test]
fn forwarded_keys_reach_the_console() {
    let mut screen = Screen::new(Color::Red, Color::Black);
    forward_key(&mut screen, &None);
    assert_eq!((screen.row, screen.col), (0, 0));
    forward_key(&mut screen, &Some(DecodedKey::Unicode('\n')));
    assert_eq!((screen.row, screen.col), (1, 0));
    forward_key(&mut screen, &Some(DecodedKey::Unicode('q')));
    assert_eq!(row_text(&screen, 1, 1), b"q".to_vec());
    forward_key(&mut screen, &Some(DecodedKey::Unicode('\u{e9}')));
    assert_eq!(row_text(&screen, 1, 3), vec![b'q', 0xc3, 0xa9]);
    forward_key(&mut screen, &Some(DecodedKey::RawKey(String::from("Home"))));
    assert_eq!(row_text(&screen, 1, 7), vec![b'q', 0xc3, 0xa9, b'H', b'o', b'm', b'e']);
    assert_eq!((screen.row, screen.col), (1, 7));
}

#[test]
fn breakpoint_reports_the_interrupted_context() {
    let mut screen = Screen::new(Color::Red, Color::Black);
    breakpoint_handler(&mut screen, "rip: 0x1000");
    assert_eq!(row_text(&screen, 0, 17), b"Hit a breakpoint!".to_vec());
    assert_eq!(row_text(&screen, 1, 24), b"Stack frame: rip: 0x1000".to_vec());
    assert_eq!((screen.row, screen.col), (2, 0));
}

#[test]
fn prefix_is_held_for_one_byte_only() {
    let mut fresh = KeyboardDecoder::new();
    let alone = fresh.decode(0x48);
    assert!(alone.is_some());

    let mut decoder = KeyboardDecoder::new();
    assert_eq!(decoder.decode(0xe0), None);
    assert_eq!(decoder.decode(0x48), Some(DecodedKey::RawKey(String::from("ArrowUp"))));
    assert_eq!(decoder.decode(0x48), alone);

    let mut twice = KeyboardDecoder::new();
    assert_eq!(twice.decode(0xe0), None);
    assert_eq!(twice.decode(0xe0), None);
    assert_eq!(twice.decode(0x48), alone);
}

#[test]
fn only_a_completed_event_is_passed_on() {
    assert_eq!(completed_event(Err(pc_keyboard::Error::UnknownKeyCode)), None);
    assert_eq!(completed_event(Err(pc_keyboard::Error::ParityError)), None);
    assert_eq!(completed_event(Ok(None)), None);
    let event = pc_keyboard::KeyEvent::new(pc_keyboard::KeyCode::A, pc_keyboard::KeyState::Down);
    assert_eq!(completed_event(Ok(Some(event.clone()))), Some(event));
}

#[test]
fn rejected_byte_writes_nothing_and_is_acknowledged() {
    let mut outside = pc_keyboard::Keyboard::new(
        pc_keyboard::layouts::Us104Key,
        pc_keyboard::ScancodeSet1,
        pc_keyboard::HandleControl::Ignore,
    );
    assert!(outside.add_byte(0x7f).is_err());

    let mut screen = Screen::new(Color::Red, Color::Black);
    let mut decoder = KeyboardDecoder::new();
    assert_eq!(decoder.decode(0x7f), None);
    assert_eq!(keyboard_handler(&mut screen, &mut decoder, 0x7f), InterruptIndex::Keyboard);
    assert_eq!((screen.row, screen.col), (0, 0));
    assert!(screen.buffer.iter().all(|b| *b == 0));
    assert_eq!(keyboard_handler(&mut screen, &mut decoder, 0x1e), InterruptIndex::Keyboard);
    assert_eq!(screen.buffer[0], b'a');
}

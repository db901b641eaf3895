//! Trap dispatch: the trap vector table, the handlers of the recognized traps and the
//! interrupt lines that they acknowledge.

use vstd::prelude::*;
use vstd::string::StringSliceAdditionalSpecFns;
use crate::printing::{Console, Screen, LINE_FEED};
use pc_keyboard::layouts::Us104Key;
use pc_keyboard::{Error, HandleControl, KeyEvent, Keyboard, ScancodeSet1};

verus! {

/// First trap number of the master controller, which serves the eight numbers from it on.
pub const PIC_1_OFFSET: u8 = 32;

/// First trap number of the slave controller, right after the master's range.
pub const PIC_2_OFFSET: u8 = 40;

/// Trap number of the breakpoint exception.
pub const BREAKPOINT_VECTOR: usize = 3;

/// Number of entries of the trap vector table.
pub const TABLE_LEN: usize = 256;

/// The I/O port from which a scancode is read.
pub const KEYBOARD_PORT: u16 = 0x60;

/// The hardware interrupts that the kernel serves, each with its controller line.
#[derive(Clone, Copy, Debug, PartialEq, Eq, Structural)]
pub enum InterruptIndex {
    Timer,
    Keyboard,
}

impl InterruptIndex {
    /// The trap number on which the interrupt arrives.
    pub open spec fn vector(self) -> u8 {
        match self {
            InterruptIndex::Timer => PIC_1_OFFSET,
            InterruptIndex::Keyboard => (PIC_1_OFFSET + 1) as u8,
        }
    }

    /// Returns the trap number of the interrupt, which lies in the master controller's range.
    pub fn as_u8(self) -> (n: u8)
        ensures
            n == self.vector(),
            PIC_1_OFFSET <= n < PIC_2_OFFSET,
    {
        match self {
            InterruptIndex::Timer => PIC_1_OFFSET,
            InterruptIndex::Keyboard => PIC_1_OFFSET + 1,
        }
    }

    /// Returns the trap number of the interrupt as an index into the trap vector table.
    pub fn as_usize(self) -> (n: usize)
        ensures
            n == self.vector(),
            n < TABLE_LEN,
    {
        match self {
            InterruptIndex::Timer => 32,
            InterruptIndex::Keyboard => 33,
        }
    }
}

/// The handlers that can stand in the trap vector table.
#[derive(Clone, Copy, Debug, PartialEq, Eq, Structural)]
pub enum Handler {
    Breakpoint,
    Timer,
    Keyboard,
}

/// The entry that the kernel installs for a trap number: a handler for the breakpoint
/// exception, the timer and the keyboard, and nothing for every other number.
pub open spec fn recognized_entry(index: int) -> Option<Handler> {
    if index == BREAKPOINT_VECTOR {
        Some(Handler::Breakpoint)
    } else if index == InterruptIndex::Timer.vector() {
        Some(Handler::Timer)
    } else if index == InterruptIndex::Keyboard.vector() {
        Some(Handler::Keyboard)
    } else {
        None
    }
}

/// A table after the kernel's three handlers were installed in it.
pub open spec fn installed(entries: Seq<Option<Handler>>) -> Seq<Option<Handler>> {
    entries.update(BREAKPOINT_VECTOR as int, Some(Handler::Breakpoint)).update(
        InterruptIndex::Timer.vector() as int,
        Some(Handler::Timer),
    ).update(InterruptIndex::Keyboard.vector() as int, Some(Handler::Keyboard))
}

/// The table in which no trap number has a handler.
pub open spec fn empty_table() -> Seq<Option<Handler>> {
    Seq::new(TABLE_LEN as nat, |i: int| None)
}

/// The trap vector table: for each of the 256 trap numbers the handler installed for it,
/// if there is one.
pub struct TrapVectorTable {
    pub entries: Vec<Option<Handler>>,
}

impl View for TrapVectorTable {
    type V = Seq<Option<Handler>>;

    open spec fn view(&self) -> Seq<Option<Handler>> {
        self.entries@
    }
}

impl TrapVectorTable {
    /// The table has one entry for each trap number.
    pub open spec fn wf(&self) -> bool {
        self.entries@.len() == TABLE_LEN
    }

    /// A table without any handler.
    pub fn new() -> (table: TrapVectorTable)
        ensures
            table.wf(),
            table@ == empty_table(),
    {
        let mut entries: Vec<Option<Handler>> = Vec::new();
        while entries.len() < TABLE_LEN
            invariant
                entries@.len() <= TABLE_LEN,
                forall|i: int| 0 <= i < entries@.len() ==> entries@[i] == None::<Handler>,
            decreases TABLE_LEN - entries@.len(),
        {
            entries.push(None);
        }
        assert(entries@ =~= empty_table());
        TrapVectorTable { entries }
    }

    /// Installs `handler` for the trap number `index` and leaves the other entries alone.
    pub fn set_handler(&mut self, index: usize, handler: Handler)
        requires
            old(self).wf(),
            index < TABLE_LEN,
        ensures
            final(self).wf(),
            final(self)@ == old(self)@.update(index as int, Some(handler)),
    {
        self.entries[index] = Some(handler);
    }

    /// Returns the handler installed for the trap number `index`, if there is one.
    pub fn handler(&self, index: usize) -> (entry: Option<Handler>)
        requires
            self.wf(),
            index < TABLE_LEN,
        ensures
            entry == self@[index as int],
    {
        self.entries[index]
    }
}

/// Builds the trap vector table that the kernel activates at boot: the breakpoint, timer and
/// keyboard handlers stand at their trap numbers, and every other entry is absent.
pub fn load_idt() -> (table: TrapVectorTable)
    ensures
        table.wf(),
        table@ == installed(empty_table()),
        forall|i: int| 0 <= i < TABLE_LEN ==> table@[i] == recognized_entry(i),
{
    let mut table = TrapVectorTable::new();
    table.set_handler(BREAKPOINT_VECTOR, Handler::Breakpoint);
    table.set_handler(InterruptIndex::Timer.as_usize(), Handler::Timer);
    table.set_handler(InterruptIndex::Keyboard.as_usize(), Handler::Keyboard);
    table
}

/// Building the table is deterministic and idempotent: the construction always gives the
/// table of the recognized entries, and installing the handlers once more, in a table that
/// has them, changes nothing.
pub proof fn construction_is_idempotent(entries: Seq<Option<Handler>>)
    requires
        entries.len() == TABLE_LEN,
    ensures
        installed(installed(entries)) == installed(entries),
        installed(empty_table()) == Seq::new(TABLE_LEN as nat, |i: int| recognized_entry(i)),
        forall|i: int|
            0 <= i < TABLE_LEN && recognized_entry(i).is_some() ==> installed(entries)[i]
                == recognized_entry(i),
        forall|i: int|
            0 <= i < TABLE_LEN && recognized_entry(i).is_none() ==> installed(entries)[i]
                == entries[i],
{
    assert(installed(installed(entries)) =~= installed(entries));
    assert(installed(empty_table()) =~= Seq::new(TABLE_LEN as nat, |i: int| recognized_entry(i)));
}

/// `KeyEvent` of pc_keyboard: a key and whether it went down or up. It is handed from one
/// decoding step to the next and never read here.
#[verifier::external_type_specification]
#[verifier::external_body]
pub struct ExKeyEvent(KeyEvent);

/// `Error` of pc_keyboard: why the decoder rejected a byte. The handler drops it unread.
#[verifier::external_type_specification]
#[verifier::external_body]
pub struct ExError(Error);

/// A key as the decoder resolves it.
#[derive(Clone, Debug, PartialEq, Eq)]
pub enum DecodedKey {
    /// A key that stands for a character.
    Unicode(char),
    /// A key without a character, by its symbolic name.
    RawKey(String),
}

/// The state of the scancode decoder: what it has seen of a sequence of several bytes, and
/// which modifier keys are held. It is a `Keyboard` of pc_keyboard, whose content is not
/// visible to the proofs.
#[verifier::external_body]
pub struct KeyboardDecoder {
    keyboard: Keyboard<Us104Key, ScancodeSet1>,
}

/// The scancode byte that announces a sequence of two bytes.
pub const EXTENDED_PREFIX: u8 = 0xE0;

/// The bytes that the decoder holds of a sequence that it has not seen the end of: none,
/// or the prefix of a sequence of two bytes.
pub uninterp spec fn pending_bytes(decoder: KeyboardDecoder) -> Seq<u8>;

/// The modifier keys as the decoder holds them, each one held or not, in this order: left
/// shift, right shift, left control, right control, num lock, caps lock, right alt.
pub uninterp spec fn held_modifiers(decoder: KeyboardDecoder) -> Seq<bool>;

/// What scancode set 1 makes of a byte, given what the decoder holds of a sequence: an
/// error, nothing yet, or the event of a key that went down or up.
pub uninterp spec fn scanned_event(pending: Seq<u8>, byte: u8) -> Result<Option<KeyEvent>, Error>;

/// The key that the US layout with 104 keys resolves a key event to under the given
/// modifier keys, if the event stands for a key.
pub uninterp spec fn resolved_key(modifiers: Seq<bool>, event: KeyEvent) -> Option<DecodedKey>;

/// The modifier keys of a new decoder: num lock is on, and no other key is held.
pub open spec fn initial_modifiers() -> Seq<bool> {
    seq![false, false, false, false, true, false, false]
}

/// The key event that a decoding step completed: none where the byte was rejected, and none
/// where it only started a sequence.
pub open spec fn event_in(step: Result<Option<KeyEvent>, Error>) -> Option<KeyEvent> {
    match step {
        Ok(Some(event)) => Some(event),
        _ => None,
    }
}

/// The key that a scancode byte gives, from what the decoder holds of a sequence and the
/// modifier keys: the key of the event that the byte completes, and none where it completes
/// no event.
pub open spec fn decoded_key(pending: Seq<u8>, modifiers: Seq<bool>, byte: u8)
    -> Option<DecodedKey> {
    match event_in(scanned_event(pending, byte)) {
        Some(event) => resolved_key(modifiers, event),
        None => None,
    }
}

/// The byte only starts a sequence: the decoder holds nothing and the byte is the prefix.
pub open spec fn starts_sequence(pending: Seq<u8>, byte: u8) -> bool {
    pending.len() == 0 && byte == EXTENDED_PREFIX
}

/// What the decoder holds after a byte: the byte itself where it starts a sequence, and
/// nothing after any other byte, which either stands alone or ends the sequence.
pub open spec fn next_pending(pending: Seq<u8>, byte: u8) -> Seq<u8> {
    if starts_sequence(pending, byte) {
        seq![byte]
    } else {
        Seq::empty()
    }
}

/// `Keyboard::new` of pc_keyboard, for the US layout with 104 keys and scancode set 1,
/// with no special treatment of the control keys. The new decoder is at the start of a
/// sequence, with num lock on and no other modifier key held.
#[verifier::external_body]
fn new_keyboard() -> (decoder: KeyboardDecoder)
    ensures
        pending_bytes(decoder) == Seq::<u8>::empty(),
        held_modifiers(decoder) == initial_modifiers(),
{
    KeyboardDecoder { keyboard: Keyboard::new(Us104Key, ScancodeSet1, HandleControl::Ignore) }
}

/// `Keyboard::add_byte` of pc_keyboard: takes one scancode byte into the decoder. With
/// scancode set 1 the prefix byte, at the start of a sequence, is kept and gives no event;
/// after any other byte the decoder is at the start of a sequence again. The result depends
/// on what the decoder held of a sequence and on the byte alone, and the modifier keys stay
/// as they are.
#[verifier::external_body]
fn add_byte(decoder: &mut KeyboardDecoder, byte: u8) -> (event: Result<Option<KeyEvent>, Error>)
    ensures
        event == scanned_event(pending_bytes(*old(decoder)), byte),
        held_modifiers(*final(decoder)) == held_modifiers(*old(decoder)),
        pending_bytes(*final(decoder)) == next_pending(pending_bytes(*old(decoder)), byte),
        starts_sequence(pending_bytes(*old(decoder)), byte) ==> (event is Ok && event->Ok_0 is None),
{
    decoder.keyboard.add_byte(byte)
}

/// `Keyboard::process_keyevent` of pc_keyboard: resolves a key event to a key, if it stands
/// for one. A key without a character comes back under its debug name. The result depends
/// on the modifier keys that the decoder held and on the event alone. The call leaves alone
/// what the decoder holds of a sequence; nothing is claimed of the modifier keys after it.
#[verifier::external_body]
fn process_keyevent(decoder: &mut KeyboardDecoder, event: KeyEvent) -> (key: Option<DecodedKey>)
    ensures
        key == resolved_key(held_modifiers(*old(decoder)), event),
        pending_bytes(*final(decoder)) == pending_bytes(*old(decoder)),
{
    match decoder.keyboard.process_keyevent(event) {
        Some(pc_keyboard::DecodedKey::Unicode(character)) => Some(DecodedKey::Unicode(character)),
        Some(pc_keyboard::DecodedKey::RawKey(code)) => Some(DecodedKey::RawKey(format!("{:?}", code))),
        None => None,
    }
}

/// `String::from` of std for a character: the string that holds this one character.
#[verifier::external_body]
fn char_to_string(character: char) -> (text: String)
    ensures
        text@ == seq![character],
{
    String::from(character)
}

/// Picks the key event out of a decoding step. A byte that the decoder rejected gives none,
/// and so does a byte that completed no event.
pub fn completed_event(step: Result<Option<KeyEvent>, Error>) -> (event: Option<KeyEvent>)
    ensures
        event == event_in(step),
{
    match step {
        Ok(Some(event)) => Some(event),
        _ => None,
    }
}

impl KeyboardDecoder {
    /// A decoder that has seen no byte yet.
    pub fn new() -> (decoder: KeyboardDecoder)
        ensures
            pending_bytes(decoder) == Seq::<u8>::empty(),
            held_modifiers(decoder) == initial_modifiers(),
    {
        new_keyboard()
    }

    /// Feeds one scancode byte to the decoder and returns the key that it completes. A byte
    /// that the decoder rejects, that only starts a sequence, or whose key event stands for
    /// no key, gives nothing. The decoder keeps the prefix of a sequence of two bytes until
    /// the next byte, and nothing after any other byte.
    pub fn decode(&mut self, scancode: u8) -> (key: Option<DecodedKey>)
        ensures
            key == decoded_key(pending_bytes(*old(self)), held_modifiers(*old(self)), scancode),
            pending_bytes(*final(self)) == next_pending(pending_bytes(*old(self)), scancode),
            starts_sequence(pending_bytes(*old(self)), scancode) ==> key is None && held_modifiers(
                *final(self),
            ) == held_modifiers(*old(self)),
            event_in(scanned_event(pending_bytes(*old(self)), scancode)) is None ==> key is None
                && held_modifiers(*final(self)) == held_modifiers(*old(self)),
    {
        let step = add_byte(self, scancode);
        match completed_event(step) {
            Some(event) => process_keyevent(self, event),
            None => None,
        }
    }
}

/// The display after a decoded key was forwarded to it: a character is written as one byte
/// where it has an ASCII code and as its UTF-8 encoding otherwise, a key without a character
/// is written by its name, and no key leaves the display as it is.
pub open spec fn key_written(s: Console, key: Option<DecodedKey>) -> Console {
    match key {
        None => s,
        Some(DecodedKey::Unicode(character)) => if character <= '\u{7f}' {
            s.write_char(character as u8)
        } else {
            s.write_bytes(vstd::utf8::encode_utf8(seq![character]))
        },
        Some(DecodedKey::RawKey(name)) => s.write_bytes(vstd::utf8::encode_utf8(name@)),
    }
}

/// Forwards what the decoder made of a scancode to the console.
pub fn forward_key(screen: &mut Screen, key: &Option<DecodedKey>)
    requires
        old(screen).wf(),
    ensures
        final(screen).wf(),
        final(screen)@ == key_written(old(screen)@, *key),
{
    match key {
        None => {},
        Some(DecodedKey::Unicode(character)) => {
            if *character <= '\u{7f}' {
                screen.print_char(*character as u8);
            } else {
                let text = char_to_string(*character);
                screen.print_string(text.as_str());
            }
        },
        Some(DecodedKey::RawKey(name)) => {
            screen.print_string(name.as_str());
        },
    }
}

/// Serves a breakpoint exception: reports it on the console together with the interrupted
/// context, given as text. No controller line is acknowledged for it.
pub fn breakpoint_handler(screen: &mut Screen, stack_frame: &str)
    requires
        old(screen).wf(),
    ensures
        final(screen).wf(),
        final(screen)@ == old(screen)@.write_bytes("Hit a breakpoint!\n".spec_bytes()).write_bytes(
            "Stack frame: ".spec_bytes(),
        ).write_bytes(stack_frame.spec_bytes()).write_char(LINE_FEED),
{
    screen.print_string("Hit a breakpoint!\n");
    screen.print_string("Stack frame: ");
    screen.print_string(stack_frame);
    screen.print_char(LINE_FEED);
}

/// Serves a timer tick: writes one dot to the console. Returns the line to acknowledge,
/// which is the timer's.
pub fn timer_handler(screen: &mut Screen) -> (ack: InterruptIndex)
    requires
        old(screen).wf(),
    ensures
        final(screen).wf(),
        final(screen)@ == old(screen)@.write_char(0x2e),
        ack == InterruptIndex::Timer,
{
    screen.print_char(0x2e);
    InterruptIndex::Timer
}

/// Serves a keyboard interrupt for the scancode byte read from the keyboard: feeds the byte
/// to the decoder and forwards the key that it completes, if any, to the console. A byte
/// that the decoder rejects, or that completes no key event, writes nothing. Returns the
/// line to acknowledge, which is the keyboard's whatever the decoder made of the byte.
pub fn keyboard_handler(screen: &mut Screen, decoder: &mut KeyboardDecoder, scancode: u8) -> (ack:
    InterruptIndex)
    requires
        old(screen).wf(),
    ensures
        final(screen).wf(),
        ack == InterruptIndex::Keyboard,
        final(screen)@ == key_written(
            old(screen)@,
            decoded_key(pending_bytes(*old(decoder)), held_modifiers(*old(decoder)), scancode),
        ),
        event_in(scanned_event(pending_bytes(*old(decoder)), scancode)) is None ==> final(screen)@
            == old(screen)@ && held_modifiers(*final(decoder)) == held_modifiers(*old(decoder)),
        pending_bytes(*final(decoder)) == next_pending(pending_bytes(*old(decoder)), scancode),
        starts_sequence(pending_bytes(*old(decoder)), scancode) ==> final(screen)@ == old(screen)@
            && held_modifiers(*final(decoder)) == held_modifiers(*old(decoder)),
{
    let key = decoder.decode(scancode);
    forward_key(screen, &key);
    InterruptIndex::Keyboard
}

} // verus!

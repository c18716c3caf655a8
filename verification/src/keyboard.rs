//! Decoding of what the keyboard sends.
//!
//! The keyboard delivers scancodes byte by byte. The `pc-keyboard` crate
//! turns them into key events and, with the layout of a US keyboard and the
//! modifier keys it has seen so far, into characters. What a byte yields
//! depends on the bytes and the key events that the decoder has taken before,
//! and on nothing else: the contracts name the decoder's two answers by what
//! it has taken, and say in full what is done with them.
use vstd::prelude::*;

verus! {

#[verifier::external_type_specification]
#[verifier::external_body]
pub struct ExKeyEvent(pc_keyboard::KeyEvent);

#[verifier::external_type_specification]
#[verifier::external_body]
pub struct ExKeyboardError(pc_keyboard::Error);

/// A key press as the decoder reports it: a character, or, for a key that
/// has none, the name of the key.
#[derive(Debug, Clone, PartialEq, Eq)]
pub enum DecodedKey {
    Unicode(char),
    RawKey(String),
}

impl DecodedKey {
    /// The text that is shown for the key: the character itself, or the name
    /// of the key.
    pub open spec fn text(self) -> Seq<char> {
        match self {
            DecodedKey::Unicode(character) => seq![character],
            DecodedKey::RawKey(name) => name@,
        }
    }

    /// The text that is shown for the key.
    pub fn to_text(&self) -> (text: String)
        ensures
            text@ == self.text(),
    {
        match self {
            DecodedKey::Unicode(character) => char_to_string(*character),
            DecodedKey::RawKey(name) => name.clone(),
        }
    }
}

/// The scancode decoder: scancode set 1, US layout with 104 keys, control
/// characters not mapped.
#[verifier::external_body]
pub struct Decoder {
    keyboard: pc_keyboard::Keyboard<pc_keyboard::layouts::Us104Key, pc_keyboard::ScancodeSet1>,
}

/// The scancode bytes that the decoder has taken since it was made, oldest
/// first.
pub uninterp spec fn scancodes_taken(decoder: Decoder) -> Seq<u8>;

/// The key events that the decoder has turned into keys since it was made,
/// oldest first.
pub uninterp spec fn events_taken(decoder: Decoder) -> Seq<pc_keyboard::KeyEvent>;

/// What `Keyboard::add_byte` answers to `byte` once it has taken the bytes
/// `taken`.
pub uninterp spec fn add_byte_result(taken: Seq<u8>, byte: u8) -> Result<
    Option<pc_keyboard::KeyEvent>,
    pc_keyboard::Error,
>;

/// What `Keyboard::process_keyevent` makes of `event` once it has taken the
/// events `taken`.
pub uninterp spec fn process_keyevent_result(
    taken: Seq<pc_keyboard::KeyEvent>,
    event: pc_keyboard::KeyEvent,
) -> Option<DecodedKey>;

/// The key event that a scancode byte completes, if it completes one. An
/// error of the decoder counts as no event.
pub open spec fn completed_event(decoder: Decoder, byte: u8) -> Option<pc_keyboard::KeyEvent> {
    match add_byte_result(scancodes_taken(decoder), byte) {
        Ok(Some(event)) => Some(event),
        _ => None,
    }
}

/// The key press that feeding `byte` to `decoder` yields: what the decoder
/// makes of the key event that the byte completes, and nothing where the byte
/// completes no event or the decoder reports an error.
pub open spec fn spec_feed(decoder: Decoder, byte: u8) -> Option<DecodedKey> {
    match completed_event(decoder, byte) {
        Some(event) => process_keyevent_result(events_taken(decoder), event),
        None => None,
    }
}

/// The key events that `decoder` has taken once `byte` was fed to it: one
/// more where the byte completes an event.
pub open spec fn events_after_feed(decoder: Decoder, byte: u8) -> Seq<pc_keyboard::KeyEvent> {
    match completed_event(decoder, byte) {
        Some(event) => events_taken(decoder).push(event),
        None => events_taken(decoder),
    }
}

/// `Keyboard::new` with `ScancodeSet1::new()`, `layouts::Us104Key` and
/// `HandleControl::Ignore`: a decoder that has taken nothing.
#[verifier::external_body]
fn keyboard_new() -> (decoder: Decoder)
    ensures
        scancodes_taken(decoder) == Seq::<u8>::empty(),
        events_taken(decoder) == Seq::<pc_keyboard::KeyEvent>::empty(),
{
    Decoder {
        keyboard: pc_keyboard::Keyboard::new(
            pc_keyboard::ScancodeSet1::new(),
            pc_keyboard::layouts::Us104Key,
            pc_keyboard::HandleControl::Ignore,
        ),
    }
}

/// `Keyboard::add_byte`: takes one scancode byte. The answer is that of the
/// scancode state machine, which the bytes taken before and this byte fix;
/// the call changes nothing else in the decoder.
#[verifier::external_body]
fn keyboard_add_byte(decoder: &mut Decoder, byte: u8) -> (answer: Result<
    Option<pc_keyboard::KeyEvent>,
    pc_keyboard::Error,
>)
    ensures
        answer == add_byte_result(scancodes_taken(*old(decoder)), byte),
        scancodes_taken(*final(decoder)) == scancodes_taken(*old(decoder)).push(byte),
        events_taken(*final(decoder)) == events_taken(*old(decoder)),
{
    decoder.keyboard.add_byte(byte)
}

/// `Keyboard::process_keyevent`: turns a key event into a key press, if it is
/// one. A key without a character is handed on by its name, the `Debug` form
/// of its `KeyCode`. The answer is fixed by the layout, by the modifier keys
/// among the events taken before, and by this event; the call changes nothing
/// in the scancode state machine.
#[verifier::external_body]
fn keyboard_process_keyevent(decoder: &mut Decoder, event: pc_keyboard::KeyEvent) -> (key: Option<
    DecodedKey,
>)
    ensures
        key == process_keyevent_result(events_taken(*old(decoder)), event),
        events_taken(*final(decoder)) == events_taken(*old(decoder)).push(event),
        scancodes_taken(*final(decoder)) == scancodes_taken(*old(decoder)),
{
    match decoder.keyboard.process_keyevent(event) {
        Some(pc_keyboard::DecodedKey::Unicode(character)) => Some(DecodedKey::Unicode(character)),
        Some(pc_keyboard::DecodedKey::RawKey(code)) => Some(
            DecodedKey::RawKey(format!("{:?}", code)),
        ),
        None => None,
    }
}

/// `char::to_string`: the string that holds the one character.
#[verifier::external_body]
fn char_to_string(character: char) -> (text: String)
    ensures
        text@ == seq![character],
{
    character.to_string()
}

impl Decoder {
    /// A decoder that has seen no byte yet.
    pub fn new() -> (decoder: Decoder)
        ensures
            scancodes_taken(decoder) == Seq::<u8>::empty(),
            events_taken(decoder) == Seq::<pc_keyboard::KeyEvent>::empty(),
    {
        keyboard_new()
    }

    /// Takes one scancode byte and returns the key press that it completes,
    /// if it completes one. A byte that does not fit what came before is
    /// dropped without a trace. The decoder has taken the byte afterwards,
    /// and the key event that the byte completed, if any.
    pub fn feed(&mut self, byte: u8) -> (key: Option<DecodedKey>)
        ensures
            key == spec_feed(*old(self), byte),
            scancodes_taken(*final(self)) == scancodes_taken(*old(self)).push(byte),
            events_taken(*final(self)) == events_after_feed(*old(self), byte),
    {
        match keyboard_add_byte(self, byte) {
            Ok(Some(event)) => keyboard_process_keyevent(self, event),
            _ => None,
        }
    }
}

} // verus!

//! The external stateful scancode decoder.
//!
//! This kernel core does not implement scancode tables: it feeds raw bytes
//! from the keyboard port to `pc_keyboard`'s decoder and consumes the
//! decoded key events. The decoder is stateful (extended keys arrive as
//! multi-byte sequences), so nothing is assumed about any single outcome;
//! the verified handler takes whatever text comes back and writes it to
//! the console.
use vstd::prelude::*;

verus! {

/// Holds `pc_keyboard`'s decoder for the US-104 layout and scancode set 1.
/// The decoder's generic parameters carry outside trait bounds, so the
/// type cannot be declared to the verifier directly; it is kept opaque in
/// this field instead and reached only through the wrappers below.
#[verifier::external_body]
pub struct KeyDecoder {
    inner: pc_keyboard::Keyboard<pc_keyboard::layouts::Us104Key, pc_keyboard::ScancodeSet1>,
}

#[verifier::external_type_specification]
#[verifier::external_body]
pub struct ExKeyEvent(pc_keyboard::KeyEvent);

/// Relies on `pc_keyboard::Keyboard::new`: a fresh decoder for the US-104
/// layout and scancode set 1, with control keys passed through unchanged.
#[verifier::external_body]
pub(crate) fn new_decoder() -> KeyDecoder {
    KeyDecoder {
        inner: pc_keyboard::Keyboard::new(
            pc_keyboard::ScancodeSet1::new(),
            pc_keyboard::layouts::Us104Key,
            pc_keyboard::HandleControl::Ignore,
        ),
    }
}

/// Relies on `pc_keyboard::Keyboard::add_byte`: advances the decoder's
/// multi-byte state machine by one raw scancode byte and yields a key
/// event when one is complete. A malformed sequence is reported as an
/// error, which this kernel treats the same as no event.
#[verifier::external_body]
pub(crate) fn decoder_add_byte(decoder: &mut KeyDecoder, scancode: u8) -> (r: Option<
    pc_keyboard::KeyEvent,
>) {
    match decoder.inner.add_byte(scancode) {
        Ok(event) => event,
        Err(_) => None,
    }
}

/// Relies on `pc_keyboard::Keyboard::process_keyevent`: applies the layout
/// and the decoder's modifier state to a complete key event. A key with a
/// Unicode meaning becomes that character's text; any other key becomes
/// its name, the textual placeholder shown for non-printable keys; a key
/// transition with no output (a release, a bare modifier) becomes nothing.
#[verifier::external_body]
pub(crate) fn decoder_process_keyevent(
    decoder: &mut KeyDecoder,
    event: pc_keyboard::KeyEvent,
) -> (r: Option<String>) {
    match decoder.inner.process_keyevent(event) {
        Some(pc_keyboard::DecodedKey::Unicode(c)) => Some(format!("{}", c)),
        Some(pc_keyboard::DecodedKey::RawKey(key)) => Some(format!("{:?}", key)),
        None => None,
    }
}

} // verus!

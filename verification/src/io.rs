//! Console buffers: the text the front end prints, and the bytes that travel
//! between the host and the keyboard and display devices.

use vstd::prelude::*;
use vstd::utf8::{decode_utf8, valid_utf8};
use vstd::string::StringExecFns;
use std::collections::VecDeque;
use crate::text::{decode_lossy, lossy_text, utf8_text};

verus! {

/// Text waiting to be shown by the front end.
pub struct PrintBuffer(pub String);

impl View for PrintBuffer {
    type V = Seq<char>;

    open spec fn view(&self) -> Seq<char> {
        self.0@
    }
}

/// Bytes handed to [`PrintBuffer::write`] that are not UTF-8.
#[derive(Debug, PartialEq, Eq, Structural, Clone, Copy)]
pub struct InvalidText;

impl PrintBuffer {
    /// An empty buffer.
    pub fn new() -> (buffer: Self)
        ensures
            buffer@ == Seq::<char>::empty(),
    {
        PrintBuffer(String::new())
    }

    /// Hands out everything written so far and leaves the buffer empty.
    pub fn take(&mut self) -> (text: String)
        ensures
            text@ == old(self)@,
            final(self)@ == Seq::<char>::empty(),
    {
        let mut text = String::new();
        core::mem::swap(&mut self.0, &mut text);
        text
    }

    /// Appends `buf` when it is UTF-8 and reports how many bytes were taken;
    /// other input is refused and leaves the buffer as it was.
    pub fn write(&mut self, buf: &[u8]) -> (r: Result<usize, InvalidText>)
        ensures
            valid_utf8(buf@) ==> r == Ok::<usize, InvalidText>(buf@.len() as usize) && final(self)@
                == old(self)@ + decode_utf8(buf@),
            !valid_utf8(buf@) ==> r is Err && final(self)@ == old(self)@,
    {
        match utf8_text(buf) {
            Some(s) => {
                self.0.append(s);
                Ok(buf.len())
            },
            None => Err(InvalidText),
        }
    }

    /// Nothing is held back, so there is nothing to flush.
    pub fn flush(&mut self)
        ensures
            final(self)@ == old(self)@,
    {
    }
}

/// Why keyboard input is refused.
#[derive(Debug, PartialEq, Eq, Structural, Clone, Copy)]
pub enum InputError {
    /// The input is not exactly one byte long.
    InvalidInput,
}

impl InputError {
    /// The text shown to the user.
    pub open spec fn message_text(&self) -> Seq<char> {
        "more than one byte was sent at once"@
    }

    /// The text shown to the user.
    pub fn message(&self) -> (s: String)
        ensures
            s@ == self.message_text(),
    {
        String::from_str("more than one byte was sent at once")
    }
}

/// Drops the key presses that no run has read.
pub fn clear_input(buffer: &mut VecDeque<u8>)
    ensures
        final(buffer)@ == Seq::<u8>::empty(),
{
    buffer.clear();
}

/// Hands out what the display has shown, read as UTF-8 with malformed
/// bytes replaced, and empties the display.
pub fn get_and_clear_output(buffer: &mut Vec<u8>) -> (text: String)
    ensures
        text@ == lossy_text(old(buffer)@),
        valid_utf8(old(buffer)@) ==> text@ == decode_utf8(old(buffer)@),
        final(buffer)@ == Seq::<u8>::empty(),
{
    let text = decode_lossy(buffer.as_slice());
    buffer.clear();
    text
}

/// Empties the display.
pub fn clear_output(buffer: &mut Vec<u8>)
    ensures
        final(buffer)@ == Seq::<u8>::empty(),
{
    buffer.clear();
}

} // verus!

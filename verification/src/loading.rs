//! What is decided about an object file before it reaches the simulator:
//! which of the two encodings its bytes are in, and whether the program
//! stays out of the reserved parts of memory.

use vstd::prelude::*;
use vstd::string::StringExecFns;
use vstd::utf8::{decode_utf8, valid_utf8};
use crate::diag::Diagnostic;
use crate::machine::{IO_START, USER_START};
use crate::text::utf8_text;

verus! {

/// The bytes of an object file, by the encoding they are to be read in.
#[derive(Debug)]
pub enum ObjEncoding {
    /// The text encoding: the bytes are UTF-8 and this is what they say.
    Text(String),
    /// The binary encoding: the bytes as they came.
    Binary(Vec<u8>),
}

/// Chooses the encoding to read an object file in. The text encoding is
/// tried on everything that is UTF-8; only other input is taken for
/// binary.
pub fn object_encoding(bytes: Vec<u8>) -> (r: ObjEncoding)
    ensures
        valid_utf8(bytes@) ==> (r matches ObjEncoding::Text(s) && s@ == decode_utf8(bytes@)),
        !valid_utf8(bytes@) ==> r == ObjEncoding::Binary(bytes),
{
    let text = match utf8_text(bytes.as_slice()) {
        Some(s) => Some(String::from_str(s)),
        None => None,
    };
    match text {
        Some(s) => ObjEncoding::Text(s),
        None => ObjEncoding::Binary(bytes),
    }
}

/// Why a program cannot be loaded.
#[derive(Debug, PartialEq, Eq, Structural, Clone, Copy)]
pub enum LoadError {
    /// The program defines a word in the operating system's part of memory
    /// or among the device registers.
    OverlapWithReserved,
}

impl LoadError {
    /// The text shown to the user.
    pub open spec fn message_text(&self) -> Seq<char> {
        "object file overlaps with reserved memory"@
    }

    /// The text shown to the user.
    pub fn message(&self) -> (s: String)
        ensures
            s@ == self.message_text(),
    {
        String::from_str("object file overlaps with reserved memory")
    }
}

/// The diagnostic for a file that is to be loaded and is no object file in
/// either encoding.
pub fn malformed_report(filename: Option<String>) -> (d: Diagnostic)
    ensures
        d.message@ == "malformed object file"@,
        d.filename == filename,
        d.source is None,
        d.span is None,
        d.help is None,
        d.include_name_in_msg,
{
    Diagnostic::io(String::from_str("malformed object file"), filename)
}

/// The diagnostic for a file that is to be linked and is no object file in
/// either encoding.
pub fn undecodable_report(filename: Option<String>) -> (d: Diagnostic)
    ensures
        d.message@ == "cannot deserialize object file"@,
        d.filename == filename,
        d.source is None,
        d.span is None,
        d.help is None,
        d.include_name_in_msg,
{
    Diagnostic::io(String::from_str("cannot deserialize object file"), filename)
}

/// Whether an address lies in memory that is reserved for the operating
/// system or for devices.
pub open spec fn reserved(addr: u16) -> bool {
    addr < USER_START || addr >= IO_START
}

/// Whether a program defines a word at a reserved address.
pub open spec fn touches_reserved(words: Seq<(u16, Option<u16>)>) -> bool {
    exists|i: int| 0 <= i < words.len() && reserved(#[trigger] words[i].0)
}

/// Checks the addresses that a program defines. A program that reaches into
/// reserved memory is refused, unless privilege is ignored.
pub fn check_load(words: &Vec<(u16, Option<u16>)>, ignore_privilege: bool) -> (r: Result<
    (),
    LoadError,
>)
    ensures
        r is Err <==> !ignore_privilege && touches_reserved(words@),
        r matches Err(e) ==> e == LoadError::OverlapWithReserved,
{
    if ignore_privilege {
        return Ok(());
    }
    let n = words.len();
    let mut i: usize = 0;
    while i < n
        invariant
            n == words@.len(),
            i <= n,
            !ignore_privilege,
            forall|k: int| 0 <= k < i ==> !reserved(#[trigger] words@[k].0),
        decreases n - i,
    {
        let addr = words[i].0;
        if addr < USER_START || addr >= IO_START {
            assert(reserved(words@[i as int].0));
            return Err(LoadError::OverlapWithReserved);
        }
        i += 1;
    }
    Ok(())
}

} // verus!

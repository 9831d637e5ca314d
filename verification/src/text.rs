//! Diagnostic text: the placeholder buffer that a driver writes a log into, and
//! the message that is made of what it wrote.

use vstd::prelude::*;
use vstd::utf8::{decode_utf8, valid_utf8};

verus! {

/// The byte that fills a log buffer before the driver writes into it.
pub const PLACEHOLDER: u8 = 0x20;

/// A log buffer of `len` placeholder bytes.
pub open spec fn blank(len: nat) -> Seq<u8> {
    Seq::new(len, |i: int| PLACEHOLDER)
}

/// Allocates a buffer of exactly `len` bytes, each a space.
pub fn whitespace_buffer(len: usize) -> (buffer: Vec<u8>)
    ensures
        buffer@ == blank(len as nat),
{
    let mut buffer: Vec<u8> = Vec::with_capacity(len);
    let mut filled: usize = 0;
    while filled < len
        invariant
            filled <= len,
            buffer@ == blank(filled as nat),
        decreases len - filled,
    {
        buffer.push(PLACEHOLDER);
        filled = filled + 1;
        assert(buffer@ =~= blank(filled as nat));
    }
    buffer
}

/// The capacity of the buffer for a log whose length the driver gave as
/// `reported`: that length, or nothing where it is negative.
pub open spec fn log_capacity(reported: i32) -> i32 {
    if reported < 0 {
        0i32
    } else {
        reported
    }
}

/// The capacity of the buffer for a log whose length the driver gave as
/// `reported`.
pub fn capacity_for(reported: i32) -> (capacity: i32)
    ensures
        capacity == log_capacity(reported),
{
    if reported < 0 {
        0
    } else {
        reported
    }
}

/// What is known of the text made of a log, however its bytes read: a log
/// that is valid UTF-8 reads as it stands, and a log that holds a byte gives
/// a text that holds a character.
pub open spec fn speaks_for(text: Seq<char>, log: Seq<u8>) -> bool {
    &&& valid_utf8(log) ==> text == decode_utf8(log)
    &&& log.len() > 0 ==> text.len() > 0
}

/// The text that `String::from_utf8_lossy` makes of `bytes`.
pub uninterp spec fn lossy_text(bytes: Seq<u8>) -> Seq<char>;

/// Calls `String::from_utf8_lossy` on the log and takes the result as an owned
/// string. Trusted: the result is a function of the bytes alone; bytes that are
/// valid UTF-8 are decoded as they stand; and since every ill-formed sequence
/// is replaced by U+FFFD, never dropped, a log that holds a byte gives a text
/// that holds a character.
#[verifier::external_body]
pub(crate) fn decode_lossy(log: &Vec<u8>) -> (text: String)
    ensures
        text@ == lossy_text(log@),
        valid_utf8(log@) ==> text@ == decode_utf8(log@),
        log@.len() > 0 ==> text@.len() > 0,
{
    String::from_utf8_lossy(log.as_slice()).into_owned()
}

} // verus!

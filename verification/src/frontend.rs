//! What the request front-end answers to the bytes that a connection sent.

use vstd::prelude::*;

verus! {

/// Number of bytes that are read from a connection at most.
pub const READ_BUFFER_LEN: usize = 1024;

/// The two answers of the front-end.
#[derive(Clone, Copy, Debug, PartialEq, Eq, Structural)]
pub enum Reply {
    /// The connection asked to quit.
    QuitDone,
    /// The connection sent something else.
    Unexpected,
}

/// The bytes of the command that ends a connection: `QUIT`, carriage return,
/// line feed.
pub open spec fn quit_command() -> Seq<u8> {
    seq![0x51u8, 0x55u8, 0x49u8, 0x54u8, 0x0du8, 0x0au8]
}

/// The answer that the bytes `message` call for: the answer to a quit where
/// the bytes begin with the quit command, whatever follows it, and the answer
/// to the unexpected for all other bytes, also where none were received.
pub open spec fn reply_for(message: Seq<u8>) -> Reply {
    if quit_command().is_prefix_of(message) {
        Reply::QuitDone
    } else {
        Reply::Unexpected
    }
}

/// The status line of each answer, as it goes over the wire.
pub open spec fn status_line_of(reply: Reply) -> Seq<char> {
    match reply {
        Reply::QuitDone => "200 QUIT DONE\r\n"@,
        Reply::Unexpected => "500 Unexpected message.\r\n"@,
    }
}

/// Whether `bytes` begins with `prefix`.
pub fn starts_with(bytes: &[u8], prefix: &[u8]) -> (found: bool)
    ensures
        found == prefix@.is_prefix_of(bytes@),
{
    if prefix.len() > bytes.len() {
        return false;
    }
    let mut i: usize = 0;
    while i < prefix.len()
        invariant
            i <= prefix@.len() <= bytes@.len(),
            forall|k: int| 0 <= k < i ==> prefix@[k] == bytes@[k],
        decreases prefix@.len() - i,
    {
        if prefix[i] != bytes[i] {
            assert(bytes@.subrange(0, prefix@.len() as int)[i as int] != prefix@[i as int]);
            return false;
        }
        i = i + 1;
    }
    assert(prefix@ =~= bytes@.subrange(0, prefix@.len() as int));
    true
}

/// Decides what to answer to the bytes that were read from a connection.
pub fn reply_to(message: &[u8]) -> (reply: Reply)
    ensures
        reply == reply_for(message@),
{
    let quit: [u8; 6] = [0x51, 0x55, 0x49, 0x54, 0x0d, 0x0a];
    assert(quit@ =~= quit_command());
    if starts_with(message, quit.as_slice()) {
        Reply::QuitDone
    } else {
        Reply::Unexpected
    }
}

impl Reply {
    /// The status line that is sent back for this answer.
    pub fn status_line(&self) -> (line: String)
        ensures
            line@ == status_line_of(*self),
    {
        match self {
            Reply::QuitDone => String::from_str("200 QUIT DONE\r\n"),
            Reply::Unexpected => String::from_str("500 Unexpected message.\r\n"),
        }
    }
}

} // verus!

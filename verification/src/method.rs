//! The request methods a client can ask the server for.

use vstd::prelude::*;

use crate::text::same_text;

verus! {

/// What a request asks the server to do.
#[derive(Debug, Clone, Copy, PartialEq, Eq, Structural)]
pub enum Method {
    /// Enter the room.
    Join,
    /// Send a message to everyone else in the room.
    Send,
    /// Send a message to one member of the room.
    PvtMsg,
}

/// The method that a wire code names: `"1"`, `"2"` and `"3"` are the only codes.
pub open spec fn method_of_code(code: Seq<char>) -> Option<Method> {
    if code == seq!['1'] {
        Some(Method::Join)
    } else if code == seq!['2'] {
        Some(Method::Send)
    } else if code == seq!['3'] {
        Some(Method::PvtMsg)
    } else {
        None
    }
}

/// Maps a method code to its method; any other text maps to `None`.
pub fn map_method(method: &str) -> (res: Option<Method>)
    ensures
        res == method_of_code(method@),
{
    proof {
        reveal_strlit("1");
        reveal_strlit("2");
        reveal_strlit("3");
        assert("1"@ =~= seq!['1']);
        assert("2"@ =~= seq!['2']);
        assert("3"@ =~= seq!['3']);
    }
    if same_text(method, "1") {
        Some(Method::Join)
    } else if same_text(method, "2") {
        Some(Method::Send)
    } else if same_text(method, "3") {
        Some(Method::PvtMsg)
    } else {
        None
    }
}

/// Each method has exactly one code: `1` joins, `2` sends to the room,
/// `3` sends a private message, and every other text names no method.
pub proof fn law_method_codes(code: Seq<char>)
    ensures
        method_of_code(code) == Some(Method::Join) <==> code == seq!['1'],
        method_of_code(code) == Some(Method::Send) <==> code == seq!['2'],
        method_of_code(code) == Some(Method::PvtMsg) <==> code == seq!['3'],
        method_of_code(code) is None <==> (code != seq!['1'] && code != seq!['2'] && code != seq!['3']),
{
    lemma_codes_differ();
}

pub proof fn lemma_codes_differ()
    ensures
        seq!['1'] != seq!['2'],
        seq!['1'] != seq!['3'],
        seq!['2'] != seq!['3'],
{
    assert(seq!['1'][0] != seq!['2'][0]);
    assert(seq!['1'][0] != seq!['3'][0]);
    assert(seq!['2'][0] != seq!['3'][0]);
}

} // verus!

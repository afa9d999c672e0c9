//! The server's TCP side: a connection carries one [`ClientRequest`] as
//! JSON text, and the server reports what it was asked.

use vstd::prelude::*;
use vstd::string::StringExecFns;
use vstd::utf8::{decode_utf8, valid_utf8};

use crate::{ClientRequest, ClientRequestView};

verus! {

/// The address the TCP server listens on.
pub const TCP_SERVER_ADDRESS: &'static str = "127.0.0.1:8081";

/// The largest message the TCP server expects.
pub const MSG_SIZE: usize = 4096;

/// The TCP server.
#[derive(Debug)]
pub struct TcpServer {}

/// The text that `String::from_utf8_lossy` makes of `bytes`: each invalid
/// sequence replaced by U+FFFD.
pub uninterp spec fn utf8_lossy(bytes: Seq<u8>) -> Seq<char>;

/// `String::from_utf8_lossy`, made owned. Claimed of it: the text is
/// `utf8_lossy` of the bytes, and valid UTF-8 comes back decoded unchanged.
#[verifier::external_body]
fn lossy_text(bytes: &[u8]) -> (s: String)
    ensures
        s@ == utf8_lossy(bytes@),
        valid_utf8(bytes@) ==> s@ == decode_utf8(bytes@),
{
    String::from_utf8_lossy(bytes).into_owned()
}

/// The line the server reports for a request.
pub open spec fn report_of(request: ClientRequestView) -> Seq<char> {
    match request {
        ClientRequestView::Get => "Get"@,
        ClientRequestView::Join { group_name } => "Join "@ + group_name,
        ClientRequestView::Send { message } => "Send "@ + message,
    }
}

impl TcpServer {
    /// The text of what a connection sent, read to its end: `None` when the
    /// read failed, else the bytes decoded as UTF-8 with invalid sequences
    /// replaced.
    pub fn receive_text(read: Option<Vec<u8>>) -> (res: Option<String>)
        ensures
            res is Some <==> read is Some,
            res matches Some(s) ==> s@ == utf8_lossy(read.unwrap()@),
            res matches Some(s) ==> (valid_utf8(read.unwrap()@) ==> s@ == decode_utf8(read.unwrap()@)),
    {
        match read {
            Some(bytes) => Some(lossy_text(bytes.as_slice())),
            None => None,
        }
    }

    /// What the server reports for a received request: `None` when nothing
    /// could be read or decoded, else "Get", "Join GROUP" or "Send MESSAGE".
    pub fn serve(request: Option<ClientRequest>) -> (line: Option<String>)
        ensures
            line is Some <==> request is Some,
            line matches Some(l) ==> l@ == report_of(request.unwrap()@),
    {
        match request {
            None => None,
            Some(ClientRequest::Get) => Some(String::from_str("Get")),
            Some(ClientRequest::Join { group_name }) => Some(
                String::from_str("Join ").concat(group_name.as_str()),
            ),
            Some(ClientRequest::Send { message }) => Some(
                String::from_str("Send ").concat(message.as_str()),
            ),
        }
    }
}

} // verus!

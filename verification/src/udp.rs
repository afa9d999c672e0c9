//! The server's UDP side: the datagrams that carry [`Request`]s.
//!
//! A datagram is accepted when it is non-empty UTF-8 text; the transport
//! decodes that text as JSON into a [`Request`], and the request's sender
//! becomes a [`Client`] at the datagram's source address.

use vstd::prelude::*;
use vstd::string::{StringExecFns, StringSliceAdditionalSpecFns};
use vstd::utf8::{decode_utf8, valid_utf8};

use crate::client::{Client, ClientView};
use crate::request::Request;

verus! {

/// The address the UDP server listens on.
pub const UDP_SERVER_ADDRESS: &'static str = "127.0.0.1:8080";

/// The largest datagram the server reads.
pub const MSG_SIZE: usize = 4096;

/// The UDP server.
#[derive(Debug)]
pub struct UdpServer {}

/// `std::str::from_utf8`: the text that `bytes` encode, when they are valid
/// UTF-8. Claimed of it: it succeeds exactly on valid UTF-8, and then the
/// text it returns is encoded by exactly those bytes.
#[verifier::external_body]
fn str_from_utf8(bytes: &[u8]) -> (res: Option<&str>)
    ensures
        res is Some <==> valid_utf8(bytes@),
        res matches Some(s) ==> s.spec_bytes() == bytes@,
{
    std::str::from_utf8(bytes).ok()
}

/// The error text for a datagram that holds no request text.
pub open spec fn unreadable_datagram() -> Seq<char> {
    "failed to parse error"@
}

impl UdpServer {
    /// The text of a received datagram: its bytes decoded as UTF-8. A
    /// datagram that is empty or not UTF-8 is refused with
    /// "failed to parse error".
    pub fn request_text(buf: &[u8]) -> (res: Result<String, String>)
        ensures
            res is Ok <==> (valid_utf8(buf@) && buf@.len() > 0),
            res matches Ok(s) ==> s@ == decode_utf8(buf@),
            res matches Err(e) ==> e@ == unreadable_datagram(),
    {
        let text = match str_from_utf8(buf) {
            Some(text) => text,
            None => "",
        };
        proof {
            reveal_strlit("");
            broadcast use vstd::utf8::encode_utf8_decode_utf8;
            if valid_utf8(buf@) {
                assert(decode_utf8(text.spec_bytes()) == text@);
            }
        }
        if buf.len() == 0 || text.is_empty() {
            return Err(String::from_str("failed to parse error"));
        }
        Ok(String::from_str(text))
    }

    /// A decoded request together with its sender: the member named by the
    /// request's `from`, at the address the datagram came from.
    pub fn with_sender<A>(request: Request, udp_socket_addr: A) -> (res: (Request, Client<A>))
        ensures
            res.0@ == request@,
            res.1@ == (ClientView { name: request@.from, addr: udp_socket_addr }),
    {
        let from = request.get_from();
        (request, Client::new(from, udp_socket_addr))
    }
}

} // verus!

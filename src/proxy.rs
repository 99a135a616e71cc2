//! The `CONNECT` tunnel through an HTTP proxy.
use vstd::prelude::*;

use crate::error::Error;
use crate::response::{parse_status_code, status_code_of};

verus! {

/// The size of the chunks in which the proxy's reply is read; a shorter read
/// ends the reply. This is a known fragility: a reply whose length is an
/// exact multiple of the chunk size is not seen to end, and the reader
/// blocks in one more read.
pub const TUNNEL_CHUNK: usize = 256;

/// What the proxy's reply to the tunnel request means: a 2xx status opens
/// the tunnel, any other status is a refusal, and no status at all is a
/// malformed reply.
pub open spec fn tunnel_verdict(reply: Seq<u8>) -> Result<(), Error> {
    match status_code_of(reply) {
        Some(c) => if 200 <= c < 300 {
            Ok(())
        } else {
            Err(Error::ProxyRejected(c))
        },
        None => Err(Error::BadProxyResponse),
    }
}

/// Checks the proxy's reply to the tunnel request; only a 2xx status lets
/// the send go on.
pub fn verify_tunnel_reply(reply: &[u8]) -> (r: Result<(), Error>)
    ensures
        r == tunnel_verdict(reply@),
{
    match parse_status_code(reply) {
        Some(c) => if 200 <= c && c < 300 {
            Ok(())
        } else {
            Err(Error::ProxyRejected(c))
        },
        None => Err(Error::BadProxyResponse),
    }
}

/// Whether a read of `n` bytes ends the proxy's reply: it does when it did
/// not fill a whole chunk.
pub fn tunnel_reply_complete(n: usize) -> (r: bool)
    ensures
        r == (n < TUNNEL_CHUNK),
{
    n < TUNNEL_CHUNK
}

/// The tunnel request for `target` (a `host:port`).
pub open spec fn connect_request_text(target: Seq<char>) -> Seq<char> {
    "CONNECT "@ + target + " HTTP/1.1\r\nHost: "@ + target + "\r\n\r\n"@
}

/// Writes the tunnel request that asks the proxy for a connection to
/// `target`.
pub fn connect_request(target: &str) -> (r: String)
    ensures
        r@ == connect_request_text(target@),
{
    String::from_str("CONNECT ").concat(target).concat(" HTTP/1.1\r\nHost: ").concat(target).concat(
        "\r\n\r\n",
    )
}

} // verus!

//! The server's single state: one full request/reply cycle's computation.
//!
//! The loop around it blocks on a datagram, hands the landed buffer, the
//! sender's endpoint and the received byte count here, and sends the
//! returned answer back to the sender.  The request body is decoded only
//! for diagnostic output; the answer depends on the sender and the byte
//! count alone, never on the body.

use vstd::prelude::*;

use crate::buffer::DatagramBuffer;
use crate::codec;
use crate::endpoint::Endpoint;
use crate::reply;

verus! {

/// One server iteration, between the receive and the send: decode the
/// landed buffer into the request body, and construct the reply for the
/// sender.  Returns the pair (decoded body, answer).
pub fn handle_request(buffer: &DatagramBuffer, origin: &Endpoint, count: usize) -> (r: (
    String,
    String,
))
    ensures
        r.0@ == codec::lossy_decoded(codec::strip_fill(buffer@)),
        vstd::utf8::valid_utf8(codec::strip_fill(buffer@)) ==> r.0@ == vstd::utf8::decode_utf8(
            codec::strip_fill(buffer@),
        ),
        r.1@ == reply::server_answer(origin@, count as nat),
{
    let body = buffer.decode();
    let answer = reply::make_server_answer(origin, count);
    (body, answer)
}

} // verus!

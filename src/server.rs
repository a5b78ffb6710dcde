//! The echo handler.

use vstd::prelude::*;
use vstd::utf8::encode_utf8;
use crate::api::{EchoRequest, EchoResponse};

verus! {

/// What the echo call answers for a request payload `m`: `m` itself.
pub open spec fn echoed(m: Seq<char>) -> Seq<char> {
    m
}

/// The echo service. It holds no state: each call is answered from its own
/// request alone.
pub struct Echo {}

impl Default for Echo {
    fn default() -> (r: Echo)
        ensures
            r == (Echo {}),
    {
        Echo {}
    }
}

impl Echo {
    /// Answers `request` with a response whose payload is the request's
    /// payload, character for character and so byte for byte.
    pub fn echo(&self, request: EchoRequest) -> (r: EchoResponse)
        ensures
            r.message@ == request.message@,
            r.message@ == echoed(request.message@),
            r.message@.len() == request.message@.len(),
            encode_utf8(r.message@) == encode_utf8(request.message@),
    {
        EchoResponse::new(request.message)
    }
}

/// Calls answered independently do not cross: when every response is the
/// echo of its own request, a response equals another call's request only if
/// the two requests are equal. So clients that send distinct payloads each
/// observe their own payload and no other.
pub proof fn lemma_no_cross_talk(requests: Seq<Seq<char>>, responses: Seq<Seq<char>>)
    requires
        responses.len() == requests.len(),
        forall|i: int| 0 <= i < requests.len() ==> #[trigger] responses[i] == echoed(requests[i]),
    ensures
        forall|i: int| 0 <= i < requests.len() ==> #[trigger] responses[i] == requests[i],
        forall|i: int, j: int|
            0 <= i < requests.len() && 0 <= j < requests.len() && #[trigger] responses[i]
                == #[trigger] requests[j] ==> requests[i] == requests[j],
{
    assert forall|i: int, j: int|
        0 <= i < requests.len() && 0 <= j < requests.len() && #[trigger] responses[i]
            == #[trigger] requests[j] implies requests[i] == requests[j] by {
        assert(responses[i] == echoed(requests[i]));
    }
}

} // verus!

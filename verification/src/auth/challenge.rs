//! The challenge phase: up to five request/response exchanges that obtain the
//! server salt and the negotiated client address. Send and receive failures
//! are soft here (the attempt is retried); exhausting all five attempts is the
//! fatal `ChallengeFailed`.
use crate::auth::data::DrContextData;
use crate::auth::packet::{
    build_challenge_request, challenge_accepts, challenge_client_ip, challenge_salt,
    spec_challenge_request,
};
use crate::common::rng::random_byte;
use crate::error::JludError;
use vstd::prelude::*;

verus! {

/// The challenge phase machine: it hands out up to five requests and absorbs
/// the accepting response into the session state.
#[derive(Debug, Clone, PartialEq, Eq, Structural)]
pub struct ChallengeSender {
    /// Requests handed out so far.
    pub attempt: u8,
}

impl ChallengeSender {
    pub fn new() -> (s: Self)
        ensures
            s.attempt == 0,
    {
        Self { attempt: 0 }
    }

    /// Whether all five attempts have been used.
    pub open spec fn exhausted(self) -> bool {
        self.attempt >= 5
    }

    /// The next challenge request with fresh random filler bytes, or nothing
    /// once five requests have been handed out: the challenge step sends at
    /// most five requests.
    pub fn next_request(&mut self) -> (r: Option<Vec<u8>>)
        ensures
            !old(self).exhausted() ==> (r matches Some(p) && p@ == spec_challenge_request(
                old(self).attempt,
                p@[2],
                p@[3],
            ) && p@.len() == 20 && final(self).attempt == old(self).attempt + 1),
            old(self).exhausted() ==> r is None && *final(self) == *old(self),
    {
        if self.attempt < 5 {
            let r1 = random_byte();
            let r2 = random_byte();
            let p = build_challenge_request(self.attempt, r1, r2);
            self.attempt = self.attempt + 1;
            Some(p)
        } else {
            None
        }
    }

    /// Absorbs a challenge response: accepted exactly when its tag byte is
    /// 0x02, in which case the salt and client address enter the session
    /// state; any other tag leaves the state untouched and the attempt is
    /// retried.
    pub fn absorb_response(&self, resp: &Vec<u8>, ctx: &mut DrContextData) -> (accepted: bool)
        requires
            resp@.len() >= 24,
            old(ctx).wf(),
        ensures
            final(ctx).wf(),
            accepted == challenge_accepts(resp@),
            accepted ==> {
                &&& final(ctx).salt@ == challenge_salt(resp@)
                &&& final(ctx).client_ip@ == challenge_client_ip(resp@)
                &&& final(ctx).md5a == old(ctx).md5a
                &&& final(ctx).tail == old(ctx).tail
                &&& final(ctx).tail_2 == old(ctx).tail_2
                &&& final(ctx).keep_alive_version == old(ctx).keep_alive_version
            },
            !accepted ==> *final(ctx) == *old(ctx),
    {
        if resp[0] == 0x02 {
            ctx.apply_challenge_response(resp);
            true
        } else {
            false
        }
    }

    /// The error of an exhausted challenge phase.
    pub fn failure(&self) -> (e: JludError)
        requires
            self.exhausted(),
        ensures
            e == JludError::ChallengeFailed,
    {
        JludError::ChallengeFailed
    }
}

/// The outcome of a challenge phase over its attempts' responses, where `None`
/// stands for an attempt whose send or receive failed: the first accepting
/// response wins and yields the salt and client address; with no accepting
/// response the phase fails with `ChallengeFailed`.
pub open spec fn spec_challenge_outcome(responses: Seq<Option<Seq<u8>>>) -> Result<
    (Seq<u8>, Seq<u8>),
    JludError,
>
    decreases responses.len(),
{
    if responses.len() == 0 {
        Err(JludError::ChallengeFailed)
    } else {
        match responses[0] {
            Some(r) => if r.len() >= 24 && challenge_accepts(r) {
                Ok((challenge_salt(r), challenge_client_ip(r)))
            } else {
                spec_challenge_outcome(responses.drop_first())
            },
            None => spec_challenge_outcome(responses.drop_first()),
        }
    }
}

/// The challenge step fails with `ChallengeFailed` if none of its at most five
/// responses carries the accept tag.
pub proof fn lemma_challenge_fails_without_accept(responses: Seq<Option<Seq<u8>>>)
    requires
        responses.len() <= 5,
        forall|i: int|
            0 <= i < responses.len() ==> (#[trigger] responses[i] matches Some(r) ==> !(r.len()
                >= 24 && challenge_accepts(r))),
    ensures
        spec_challenge_outcome(responses) == Err::<(Seq<u8>, Seq<u8>), JludError>(
            JludError::ChallengeFailed,
        ),
    decreases responses.len(),
{
    if responses.len() > 0 {
        assert(responses[0] matches Some(r) ==> !(r.len() >= 24 && challenge_accepts(r)));
        assert forall|i: int|
            0 <= i < responses.drop_first().len() implies (#[trigger] responses.drop_first()[i]
            matches Some(r) ==> !(r.len() >= 24 && challenge_accepts(r))) by {
            assert(responses.drop_first()[i] == responses[i + 1]);
        }
        lemma_challenge_fails_without_accept(responses.drop_first());
    }
}

} // verus!

use vstd::prelude::*;
use crate::model::User;
use crate::store::email_taken;
use crate::token::{
    bearer_token_of, claims_at, claims_fit, header_token, issuable_at, BEARER_PREFIX,
    TOKEN_LIFETIME_SECS,
};

verus! {

/// The claims issued for `sub` at an issuable time `now` carry `sub`, fit
/// the signed format, and are unexpired at every time `later` from `now`
/// until the end of the token's lifetime. With the contracts of
/// `issue_token` and `authenticate`, a token just issued passes the access gate and
/// resolves to the same user id.
pub proof fn lemma_issued_claims_accepted(sub: i32, now: int, later: int)
    requires
        issuable_at(now),
        now <= later <= now + TOKEN_LIFETIME_SECS,
    ensures
        claims_at(sub, now).sub == sub,
        claims_fit(claims_at(sub, now)),
        later <= claims_at(sub, now).exp,
{
}

/// The header value `Bearer <t>` carries the token `t`.
pub proof fn lemma_bearer_header_carries(t: Seq<char>)
    ensures
        bearer_token_of(BEARER_PREFIX@ + t) == Some(t),
        header_token(Some(BEARER_PREFIX@ + t)) == Some(t),
{
    let h = BEARER_PREFIX@ + t;
    assert(h.subrange(0, BEARER_PREFIX@.len() as int) =~= BEARER_PREFIX@);
    assert(h.subrange(BEARER_PREFIX@.len() as int, h.len() as int) =~= t);
}

/// Once a registration has added the record `u`, its email is taken: a
/// second registration with that email is refused as a conflict, and the
/// store keeps a single record with it.
pub proof fn lemma_registered_email_taken(users: Seq<User>, u: User)
    ensures
        email_taken(users.push(u), u.email@),
{
    assert(users.push(u)[users.len() as int] == u);
}

} // verus!

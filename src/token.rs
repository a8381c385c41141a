use vstd::prelude::*;
use std::collections::BTreeMap;
use jsonwebtoken::{DecodingKey, EncodingKey, Header, Validation};
use crate::error::{
    AuthError, ErrorKind, MSG_BAD_CLAIMS, MSG_EXPIRED, MSG_MUST_LOGIN, MSG_USER_GONE,
};
use crate::model::TokenClaims;

verus! {

#[verifier::external_type_specification]
#[verifier::external_body]
pub struct ExJwtError(jsonwebtoken::errors::Error);

/// How long a token stays valid after it is issued, in seconds (60 minutes).
pub const TOKEN_LIFETIME_SECS: usize = 3600;

/// The scheme word, with its trailing space, in front of a bearer token.
pub const BEARER_PREFIX: &'static str = "Bearer ";

/// A decoded claims object: claim names and their integer values.
pub type ClaimsObject = Map<Seq<char>, int>;

/// The object that a list of claim entries becomes: a later entry for a
/// name replaces an earlier one.
pub open spec fn claims_map(s: Seq<(String, i64)>) -> Map<Seq<char>, int>
    decreases s.len(),
{
    if s.len() == 0 {
        Map::empty()
    } else {
        claims_map(s.drop_last()).insert(s.last().0@, s.last().1 as int)
    }
}

/// The compact token that signs the claims object `claims` with HS256 under `secret`.
pub uninterp spec fn jwt_signed(claims: Map<Seq<char>, int>, secret: Seq<char>) -> Seq<char>;

/// The claims object of `token` when its structure and HS256 signature under
/// `secret` are valid, its claims are integers and it has a non-negative
/// `exp`; otherwise the description of the failure.
pub uninterp spec fn jwt_opened(token: Seq<char>, secret: Seq<char>) -> Result<Map<Seq<char>, int>, Seq<char>>;

/// A claims object that the decoder reads back as it was signed: every value
/// fits in an `i64` and there is a non-negative `exp`.
pub open spec fn signable(m: Map<Seq<char>, int>) -> bool {
    &&& m.dom().finite()
    &&& m.contains_key("exp"@)
    &&& 0 <= m["exp"@]
    &&& forall|k: Seq<char>| #[trigger] m.contains_key(k) ==> i64::MIN <= m[k] <= i64::MAX
}

/// `r`, the outcome of decoding `token` under `secret`, holds the claims
/// object that `token` was signed from, if it was signed from a signable one.
pub open spec fn reads_back_signed(
    token: Seq<char>,
    secret: Seq<char>,
    r: Result<Vec<(String, i64)>, String>,
) -> bool {
    forall|m: ClaimsObject|
        token == #[trigger] jwt_signed(m, secret) && signable(m) ==> (r matches Ok(v)
            && claims_map(v@) == m)
}

/// No two entries share a name.
pub open spec fn distinct_names(s: Seq<(String, i64)>) -> bool {
    forall|i: int, j: int| 0 <= i < j < s.len() ==> (#[trigger] s[i]).0@ != (#[trigger] s[j]).0@
}

/// Relies on jsonwebtoken's `encode` with the default header (HS256): the
/// entries, whose names are distinct, are gathered into a map and signed
/// with `secret`; the result depends on the map and the secret alone. The
/// header's algorithm matches the HMAC key, serialising a map of integers
/// cannot fail and HMAC signing returns `Ok`, so it always succeeds.
#[verifier::external_body]
fn jwt_encode(claims: Vec<(String, i64)>, secret: &str) -> (r: Result<String, jsonwebtoken::errors::Error>)
    requires
        distinct_names(claims@),
    ensures
        r is Ok,
        r matches Ok(t) ==> t@ == jwt_signed(claims_map(claims@), secret@),
{
    let claims: BTreeMap<String, i64> = claims.into_iter().collect();
    jsonwebtoken::encode(&Header::default(), &claims, &EncodingKey::from_secret(secret.as_bytes()))
}

/// Relies on jsonwebtoken's `decode` into a map of integer claims, with the
/// default validation (HS256 signature, `exp` present) but without comparing
/// `exp` to the clock. A token that `encode` made under the same secret from
/// such a map decodes to that map. The error is the failure's description.
/// The description is jsonwebtoken's `Display` text, each form of which
/// starts with the name of its kind (`InvalidSignature`, `ExpiredSignature`,
/// `Missing required claim: ...`, `JSON error: ...`, `Base64 error: ...` and
/// the like), never with a `T`. The validation step reads the system clock
/// even so, and panics where the clock stands before the Unix epoch.
#[verifier::external_body]
fn jwt_decode(token: &str, secret: &str) -> (r: Result<Vec<(String, i64)>, String>)
    ensures
        r is Ok <==> jwt_opened(token@, secret@) is Ok,
        r matches Ok(v) ==> (jwt_opened(token@, secret@) matches Ok(m) && m == claims_map(v@)),
        r matches Err(d) ==> (jwt_opened(token@, secret@) matches Err(m) && m == d@),
        r matches Err(d) ==> d@.len() > 0 && d@[0] != 'T',
        reads_back_signed(token@, secret@, r),
{
    let mut validation = Validation::default();
    validation.validate_exp = false;
    jsonwebtoken::decode::<BTreeMap<String, i64>>(token, &DecodingKey::from_secret(secret.as_bytes()), &validation)
        .map(|data| data.claims.into_iter().collect())
        .map_err(|e| e.to_string())
}

/// The claims object that carries `c`.
pub open spec fn claim_entries(c: TokenClaims) -> Map<Seq<char>, int> {
    map!["sub"@ => c.sub as int, "iat"@ => c.iat as int, "exp"@ => c.exp as int]
}

/// The token issued for `c` under `secret`.
pub open spec fn issued_token(c: TokenClaims, secret: Seq<char>) -> Seq<char> {
    jwt_signed(claim_entries(c), secret)
}

/// Claims whose timestamps fit the signed format.
pub open spec fn claims_fit(c: TokenClaims) -> bool {
    c.iat <= i64::MAX && c.exp <= i64::MAX
}

/// A time at which a token can be issued: its expiry fits both the signed
/// format and `usize`.
pub open spec fn issuable_at(now: int) -> bool {
    0 <= now && now + TOKEN_LIFETIME_SECS <= i64::MAX && now + TOKEN_LIFETIME_SECS <= usize::MAX
}

/// The claims issued for user `sub` at time `now`.
pub open spec fn claims_at(sub: i32, now: int) -> TokenClaims {
    TokenClaims { sub, iat: now as usize, exp: (now + TOKEN_LIFETIME_SECS) as usize }
}

/// The claims that a decoded claims object holds, where its `sub`, `iat` and
/// `exp` are present and in range.
pub open spec fn claims_of_map(m: Map<Seq<char>, int>) -> Option<TokenClaims> {
    if m.contains_key("sub"@) && m.contains_key("iat"@) && m.contains_key("exp"@)
        && i32::MIN <= m["sub"@] <= i32::MAX && 0 <= m["iat"@] <= usize::MAX
        && 0 <= m["exp"@] <= usize::MAX {
        Some(TokenClaims { sub: m["sub"@] as i32, iat: m["iat"@] as usize, exp: m["exp"@] as usize })
    } else {
        None
    }
}

/// The claims of `token` under `secret`, where its signature and structure
/// are valid; expiry is not looked at here.
pub open spec fn token_claims(token: Seq<char>, secret: Seq<char>) -> Option<TokenClaims> {
    match jwt_opened(token, secret) {
        Ok(m) => claims_of_map(m),
        Err(_) => None,
    }
}

/// The token carried by an `Authorization` header value of the form
/// `Bearer <token>`.
pub open spec fn bearer_token_of(h: Seq<char>) -> Option<Seq<char>> {
    if h.len() >= BEARER_PREFIX@.len() && h.subrange(0, BEARER_PREFIX@.len() as int) == BEARER_PREFIX@ {
        Some(h.subrange(BEARER_PREFIX@.len() as int, h.len() as int))
    } else {
        None
    }
}

/// What the access gate decides on a token alone: its claims where it is validly
/// signed, well formed and not expired at `now`.
pub open spec fn token_verdict(token: Seq<char>, secret: Seq<char>, now: int) -> Option<TokenClaims> {
    match token_claims(token, secret) {
        Some(c) => if now <= c.exp { Some(c) } else { None },
        None => None,
    }
}

/// The bearer token of an optional `Authorization` header value.
pub open spec fn header_token(header: Option<Seq<char>>) -> Option<Seq<char>> {
    match header {
        Some(h) => bearer_token_of(h),
        None => None,
    }
}

/// The decoder's description of why the token in an `Authorization`
/// header value fails to decode, where it does.
pub open spec fn header_decode_error(header: Option<Seq<char>>, secret: Seq<char>) -> Option<Seq<char>> {
    match header_token(header) {
        Some(t) => match jwt_opened(t, secret) {
            Err(m) => Some(m),
            Ok(_) => None,
        },
        None => None,
    }
}

/// What the access gate decides on an `Authorization` header value alone.
pub open spec fn header_verdict(header: Option<Seq<char>>, secret: Seq<char>, now: int) -> Option<TokenClaims> {
    match header_token(header) {
        Some(t) => token_verdict(t, secret, now),
        None => None,
    }
}

proof fn lemma_claims_map_last(s: Seq<(String, i64)>, k: Seq<char>)
    requires
        s.len() > 0,
        s.last().0@ != k,
    ensures
        claims_map(s).contains_key(k) == claims_map(s.drop_last()).contains_key(k),
        claims_map(s.drop_last()).contains_key(k) ==> claims_map(s)[k] == claims_map(s.drop_last())[k],
{
}

/// The value that `entries` gives to the claim `key`, where it has one.
fn claim_value(entries: &Vec<(String, i64)>, key: &str) -> (r: Option<i64>)
    ensures
        r is Some <==> claims_map(entries@).contains_key(key@),
        r matches Some(x) ==> claims_map(entries@)[key@] == x as int,
{
    let k = key.to_owned();
    let mut i: usize = entries.len();
    assert(entries@.subrange(0, i as int) =~= entries@);
    while i > 0
        invariant
            i <= entries@.len(),
            k@ == key@,
            claims_map(entries@).contains_key(key@) == claims_map(entries@.subrange(0, i as int)).contains_key(key@),
            claims_map(entries@.subrange(0, i as int)).contains_key(key@) ==> claims_map(entries@)[key@]
                == claims_map(entries@.subrange(0, i as int))[key@],
        decreases i,
    {
        let ghost pre = entries@.subrange(0, i as int);
        assert(pre.drop_last() =~= entries@.subrange(0, i - 1));
        if entries[i - 1].0 == k {
            assert(pre.last() == entries@[i - 1]);
            return Some(entries[i - 1].1);
        }
        proof {
            lemma_claims_map_last(pre, key@);
        }
        i = i - 1;
    }
    assert(entries@.subrange(0, 0) =~= Seq::<(String, i64)>::empty());
    None
}

/// The claims held by a decoded claims object, where `sub`, `iat` and `exp`
/// are present and in range.
fn claims_from_entries(entries: &Vec<(String, i64)>) -> (r: Option<TokenClaims>)
    ensures
        r == claims_of_map(claims_map(entries@)),
{
    let sub = claim_value(entries, "sub");
    let iat = claim_value(entries, "iat");
    let exp = claim_value(entries, "exp");
    match (sub, iat, exp) {
        (Some(s), Some(i), Some(e)) => {
            if i32::MIN as i64 <= s && s <= i32::MAX as i64 && 0 <= i && i as u64 <= usize::MAX as u64
                && 0 <= e && e as u64 <= usize::MAX as u64 {
                Some(TokenClaims { sub: s as i32, iat: i as usize, exp: e as usize })
            } else {
                None
            }
        },
        _ => None,
    }
}

/// Whether a token can be issued at time `now`.
pub fn can_issue_at(now: usize) -> (r: bool)
    ensures
        r == issuable_at(now as int),
{
    (now as u64) <= (i64::MAX as u64) - (TOKEN_LIFETIME_SECS as u64) && now <= usize::MAX - TOKEN_LIFETIME_SECS
}

/// The claims issued for user `sub` at time `now`: issued at `now`, expiring
/// a fixed lifetime later.
pub fn issue_claims(sub: i32, now: usize) -> (r: TokenClaims)
    requires
        issuable_at(now as int),
    ensures
        r == claims_at(sub, now as int),
        r.exp == r.iat + TOKEN_LIFETIME_SECS,
        claims_fit(r),
{
    TokenClaims { sub, iat: now, exp: now + TOKEN_LIFETIME_SECS }
}

/// Signs `claims` under `secret` into a compact token.
pub fn sign_claims(claims: &TokenClaims, secret: &str) -> (r: String)
    requires
        claims_fit(*claims),
    ensures
        r@ == issued_token(*claims, secret@),
{
    let mut entries: Vec<(String, i64)> = Vec::new();
    let sub_name = "sub".to_owned();
    let iat_name = "iat".to_owned();
    let exp_name = "exp".to_owned();
    assert(sub_name@ == "sub"@ && iat_name@ == "iat"@ && exp_name@ == "exp"@);
    entries.push((sub_name, claims.sub as i64));
    entries.push((iat_name, claims.iat as i64));
    entries.push((exp_name, claims.exp as i64));
    proof {
        reveal_strlit("sub");
        reveal_strlit("iat");
        reveal_strlit("exp");
        let s = entries@;
        assert(s.drop_last().drop_last().drop_last() =~= Seq::<(String, i64)>::empty());
        assert(s.drop_last().drop_last().last() == s[0]);
        assert(s.drop_last().last() == s[1]);
        assert(claims_map(s.drop_last().drop_last().drop_last()) =~= Map::empty());
        assert(claims_map(s.drop_last().drop_last()) =~= map!["sub"@ => claims.sub as int]);
        assert(claims_map(s.drop_last()) =~= map!["sub"@ => claims.sub as int, "iat"@ => claims.iat as int]);
        assert(claims_map(s) =~= claim_entries(*claims));
        assert("sub"@[0] != "iat"@[0] && "sub"@[0] != "exp"@[0] && "iat"@[0] != "exp"@[0]);
        assert(distinct_names(s));
    }
    match jwt_encode(entries, secret) {
        Ok(t) => t,
        Err(_) => {
            proof {
                assert(false);
            }
            String::new()
        },
    }
}

/// Issues a token for user `sub` at time `now` (seconds since the Unix
/// epoch), signed with `secret` and valid for a fixed lifetime.
pub fn issue_token(sub: i32, now: usize, secret: &str) -> (r: String)
    requires
        issuable_at(now as int),
    ensures
        r@ == issued_token(claims_at(sub, now as int), secret@),
{
    let claims = issue_claims(sub, now);
    sign_claims(&claims, secret)
}

proof fn lemma_entries_read_back(c: TokenClaims)
    requires
        claims_fit(c),
    ensures
        signable(claim_entries(c)),
        claims_of_map(claim_entries(c)) == Some(c),
{
    reveal_strlit("sub");
    reveal_strlit("iat");
    reveal_strlit("exp");
    assert("sub"@ != "iat"@) by {
        assert("sub"@[0] != "iat"@[0]);
    }
    assert("sub"@ != "exp"@) by {
        assert("sub"@[0] != "exp"@[0]);
    }
    assert("iat"@ != "exp"@) by {
        assert("iat"@[0] != "exp"@[0]);
    }
    let m = claim_entries(c);
    assert(m["sub"@] == c.sub as int);
    assert(m["iat"@] == c.iat as int);
    assert(m["exp"@] == c.exp as int);
    assert forall|k: Seq<char>| #[trigger] m.contains_key(k) implies i64::MIN <= m[k] <= i64::MAX by {
        assert(k == "sub"@ || k == "iat"@ || k == "exp"@);
    }
}

/// The access gate's other messages all differ from the one for a user who is gone.
proof fn lemma_not_user_gone()
    ensures
        MSG_USER_GONE@.len() > 0,
        MSG_USER_GONE@[0] == 'T',
        MSG_BAD_CLAIMS@ != MSG_USER_GONE@,
        MSG_EXPIRED@ != MSG_USER_GONE@,
        MSG_MUST_LOGIN@ != MSG_USER_GONE@,
{
    reveal_strlit("The user belonging to this token no longer exists");
    reveal_strlit("InvalidToken");
    reveal_strlit("ExpiredSignature");
    reveal_strlit("You have to login to access this site");
    assert(MSG_BAD_CLAIMS@[0] != MSG_USER_GONE@[0]);
    assert(MSG_EXPIRED@[0] != MSG_USER_GONE@[0]);
    assert(MSG_MUST_LOGIN@[0] != MSG_USER_GONE@[0]);
}

/// Checks `token` under `secret` at time `now`: its signature and structure,
/// then its claims, then that its expiry has not passed.
pub fn verify_token(token: &str, secret: &str, now: usize) -> (r: Result<TokenClaims, AuthError>)
    ensures
        token_verdict(token@, secret@, now as int) matches Some(c) ==> (r matches Ok(d) && d == c),
        token_verdict(token@, secret@, now as int) is None ==> (r matches Err(e) && e.kind
            == ErrorKind::Unauthorized),
        r matches Ok(c) ==> now <= c.exp,
        token_claims(token@, secret@) matches Some(c) && c.exp < now ==> (r matches Err(e)
            && e.message@ == MSG_EXPIRED@),
        jwt_opened(token@, secret@) matches Err(m) ==> (r matches Err(e) && e.kind
            == ErrorKind::Unauthorized && e.message@ == m),
        r matches Err(e) ==> e.message@ != MSG_USER_GONE@,
        forall|c: TokenClaims|
            claims_fit(c) && token@ == #[trigger] issued_token(c, secret@) && now <= c.exp ==> (
            r matches Ok(d) && d == c),
{
    let decoded = jwt_decode(token, secret);
    proof {
        lemma_not_user_gone();
        assert forall|c: TokenClaims|
            claims_fit(c) && token@ == #[trigger] issued_token(c, secret@) implies (decoded matches Ok(v)
            && claims_map(v@) == claim_entries(c) && claims_of_map(claim_entries(c)) == Some(c)) by {
            lemma_entries_read_back(c);
        }
    }
    match decoded {
        Err(msg) => Err(AuthError { kind: ErrorKind::Unauthorized, message: msg }),
        Ok(entries) => match claims_from_entries(&entries) {
            None => Err(AuthError::new(ErrorKind::Unauthorized, MSG_BAD_CLAIMS)),
            Some(c) => {
                if c.exp < now {
                    Err(AuthError::new(ErrorKind::Unauthorized, MSG_EXPIRED))
                } else {
                    Ok(c)
                }
            },
        },
    }
}

/// The token in an `Authorization` header value of the exact form
/// `Bearer <token>`.
pub fn bearer_token(header: &str) -> (r: Option<String>)
    ensures
        r is Some <==> bearer_token_of(header@) is Some,
        r matches Some(t) ==> bearer_token_of(header@) == Some(t@),
{
    let prefix = BEARER_PREFIX;
    proof {
        reveal_strlit("Bearer ");
    }
    let n = header.unicode_len();
    let p = prefix.unicode_len();
    if n < p {
        return None;
    }
    let mut i: usize = 0;
    while i < p
        invariant
            i <= p,
            p == prefix@.len(),
            p <= n,
            n == header@.len(),
            prefix@ == BEARER_PREFIX@,
            forall|j: int| 0 <= j < i ==> header@[j] == prefix@[j],
        decreases p - i,
    {
        if header.get_char(i) != prefix.get_char(i) {
            assert(header@.subrange(0, p as int)[i as int] != BEARER_PREFIX@[i as int]);
            return None;
        }
        i = i + 1;
    }
    assert(header@.subrange(0, p as int) =~= BEARER_PREFIX@);
    Some(header.substring_char(p, n).to_owned())
}

/// The view of an optional header value.
pub open spec fn header_view(header: Option<&str>) -> Option<Seq<char>> {
    match header {
        Some(h) => Some(h@),
        None => None,
    }
}

/// The first part of the access gate, on the request's `Authorization`
/// header value (`None` where the request has none): a missing or malformed
/// header asks the client to log in, and a token that fails
/// [`verify_token`] is refused with the reason.
pub fn authenticate(header: Option<&str>, secret: &str, now: usize) -> (r: Result<TokenClaims, AuthError>)
    ensures
        header_verdict(header_view(header), secret@, now as int) matches Some(c) ==> (r matches Ok(d)
            && d == c),
        header_verdict(header_view(header), secret@, now as int) is None ==> (r matches Err(e) && e.kind
            == ErrorKind::Unauthorized),
        r matches Ok(c) ==> now <= c.exp,
        header_token(header_view(header)) is None ==> (r matches Err(e) && e.message@ == MSG_MUST_LOGIN@),
        header_token(header_view(header)) matches Some(t) && token_claims(t, secret@) matches Some(c)
            && c.exp < now ==> (r matches Err(e) && e.message@ == MSG_EXPIRED@),
        header_decode_error(header_view(header), secret@) matches Some(m) ==> (r matches Err(e) && e.kind
            == ErrorKind::Unauthorized && e.message@ == m),
        r matches Err(e) ==> e.message@ != MSG_USER_GONE@,
        forall|c: TokenClaims|
            claims_fit(c) && header_token(header_view(header)) == Some(
                #[trigger] issued_token(c, secret@),
            ) && now <= c.exp ==> (r matches Ok(d) && d == c),
{
    let token = match header {
        Some(h) => bearer_token(h),
        None => None,
    };
    proof {
        lemma_not_user_gone();
    }
    match token {
        None => Err(AuthError::new(ErrorKind::Unauthorized, MSG_MUST_LOGIN)),
        Some(t) => verify_token(t.as_str(), secret, now),
    }
}

} // verus!

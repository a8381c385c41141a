use vstd::prelude::*;
use crate::error::{
    AuthError, ErrorKind, MSG_BAD_CREDENTIALS, MSG_EMAIL_TAKEN, MSG_EXPIRED, MSG_HASH_FAILED, MSG_CLOCK_RANGE, MSG_MUST_LOGIN,
    MSG_USER_GONE,
};
use crate::model::{LoginUser, RegisterUser, TokenClaims, User, UserResponse};
use crate::password::{argon2_accepts, hash_password, is_argon2id_phc, verify_password};
use crate::store::{email_taken, id_taken, InsertError, UserStore};
use crate::token::{
    authenticate, can_issue_at, claims_at, claims_fit, header_decode_error, header_token, header_verdict, header_view,
    issuable_at, issue_token, issued_token, token_claims,
};

verus! {

/// Prefix of the message of a failed store query.
pub const MSG_DB_PREFIX: &'static str = "Database error: ";

/// Prefix of the message of a failed lookup in the access gate.
pub const MSG_GATE_DB_PREFIX: &'static str = "Error fetching user from database: ";

/// An internal error whose message is `prefix` followed by the store's diagnostic.
fn store_failure(prefix: &str, diagnostic: &String) -> (r: AuthError)
    ensures
        r.kind == ErrorKind::InternalError,
        r.message@ == prefix@ + diagnostic@,
{
    let mut message = prefix.to_owned();
    message.append(diagnostic.as_str());
    AuthError { kind: ErrorKind::InternalError, message }
}

/// The public fields of `u` are those of `resp`.
pub open spec fn shows(resp: UserResponse, u: User) -> bool {
    &&& resp.id == u.id
    &&& resp.name@ == u.name@
    &&& resp.username@ == u.username@
    &&& resp.email@ == u.email@
}

/// The record `u` was made from the registration `data`: same name,
/// username and email, and a password hash that accepts the password.
pub open spec fn made_from(u: User, data: RegisterUser) -> bool {
    &&& u.name@ == data.name@
    &&& u.username@ == data.username@
    &&& u.email@ == data.email@
    &&& argon2_accepts(data.password@, u.password@)
    &&& is_argon2id_phc(u.password@)
    &&& (is_argon2id_phc(data.password@) || u.password@ != data.password@)
}

/// The first step of a registration, on the answer of the store to "is
/// this email taken?": a taken email is a conflict, a failed query an
/// internal error.
pub fn check_email_free(taken: &Result<bool, String>) -> (r: Result<(), AuthError>)
    ensures
        *taken == Ok::<bool, String>(false) <==> r is Ok,
        taken matches Ok(true) ==> (r matches Err(e) && e.kind == ErrorKind::Conflict && e.message@
            == MSG_EMAIL_TAKEN@),
        taken matches Err(d) ==> (r matches Err(e) && e.kind == ErrorKind::InternalError && e.message@
            == MSG_DB_PREFIX@ + d@),
{
    match taken {
        Ok(true) => Err(AuthError::new(ErrorKind::Conflict, MSG_EMAIL_TAKEN)),
        Ok(false) => Ok(()),
        Err(d) => Err(store_failure(MSG_DB_PREFIX, d)),
    }
}

/// The last step of a registration, on the outcome of the insert: the new
/// record without its hash, or a conflict where the store's uniqueness
/// check refused the email, or an internal error.
pub fn insert_outcome(outcome: Result<User, InsertError>) -> (r: Result<UserResponse, AuthError>)
    ensures
        outcome matches Ok(u) ==> (r matches Ok(resp) && shows(resp, u)),
        outcome matches Err(InsertError::DuplicateEmail) ==> (r matches Err(e) && e.kind
            == ErrorKind::Conflict && e.message@ == MSG_EMAIL_TAKEN@),
        outcome matches Err(InsertError::Failed(d)) ==> (r matches Err(e) && e.kind
            == ErrorKind::InternalError && e.message@ == MSG_DB_PREFIX@ + d@),
{
    match outcome {
        Ok(u) => Ok(u.filter_user_record()),
        Err(InsertError::DuplicateEmail) => Err(AuthError::new(ErrorKind::Conflict, MSG_EMAIL_TAKEN)),
        Err(InsertError::Failed(d)) => Err(store_failure(MSG_DB_PREFIX, &d)),
    }
}

/// Registers a user in `store`: refuses a taken email, hashes the password
/// with a fresh salt and stores the record with the hash, never the
/// plaintext. On success the store has gained exactly that record.
pub fn register_user(store: &mut UserStore, data: &RegisterUser) -> (r: Result<UserResponse, AuthError>)
    requires
        old(store).wf(),
    ensures
        final(store).wf(),
        email_taken(old(store).records(), data.email@) ==> (r matches Err(e) && e.kind
            == ErrorKind::Conflict && e.message@ == MSG_EMAIL_TAKEN@),
        !email_taken(old(store).records(), data.email@) && old(store).has_free_id() ==> (r is Ok || (
        r matches Err(e) && e.kind == ErrorKind::InternalError && e.message@ == MSG_HASH_FAILED@)),
        r matches Ok(resp) ==> {
            &&& final(store).records().len() == old(store).records().len() + 1
            &&& final(store).records().drop_last() == old(store).records()
            &&& made_from(final(store).records().last(), *data)
            &&& !id_taken(old(store).records(), resp.id)
            &&& shows(resp, final(store).records().last())
        },
        !email_taken(old(store).records(), data.email@) && !old(store).has_free_id() ==> (r matches Err(
            e,
        ) && e.kind == ErrorKind::InternalError),
        r is Ok ==> final(store).free_ids() == old(store).free_ids() - 1,
        r is Err ==> final(store).records() == old(store).records() && final(store).free_ids()
            == old(store).free_ids(),
{
    let found = store.find_by_email(data.email.as_str());
    let taken: Result<bool, String> = Ok(found.is_some());
    match check_email_free(&taken) {
        Err(e) => return Err(e),
        Ok(()) => {},
    }
    let hash = match hash_password(data.password.as_str()) {
        Ok(h) => h,
        Err(e) => return Err(e),
    };
    let ghost hash_view = hash@;
    let outcome = store.insert(data.name.clone(), data.username.clone(), data.email.clone(), hash);
    proof {
        if outcome is Ok {
            let u = outcome->Ok_0;
            assert(final(store).records().drop_last() =~= old(store).records());
            assert(u.password@ == hash_view);
        }
    }
    insert_outcome(outcome)
}

/// The user that a login with `password` succeeds as, given the record
/// found for its email: none where no record was found or the password does
/// not match its hash.
pub open spec fn credential_match(found: Option<User>, password: Seq<char>) -> Option<User> {
    match found {
        Some(u) => if argon2_accepts(password, u.password@) {
            Some(u)
        } else {
            None
        },
        None => None,
    }
}

/// The rejection of a login: the same kind and message whether the email is
/// unknown or the password wrong.
pub open spec fn is_credential_rejection(r: Result<(String, UserResponse), AuthError>) -> bool {
    r matches Err(e) && e.kind == ErrorKind::BadRequest && e.message@ == MSG_BAD_CREDENTIALS@
}

/// The outcome of a login granted as `u` at time `now`: a token for `u`'s
/// id signed with `secret` and `u`'s public fields, where a token's expiry
/// at `now` fits; otherwise an internal error.
pub open spec fn login_granted(
    r: Result<(String, UserResponse), AuthError>,
    u: User,
    secret: Seq<char>,
    now: int,
) -> bool {
    if issuable_at(now) {
        r matches Ok((t, resp)) && t@ == issued_token(claims_at(u.id, now), secret) && shows(resp, u)
    } else {
        r matches Err(e) && e.kind == ErrorKind::InternalError && e.message@ == MSG_CLOCK_RANGE@
    }
}

/// The rest of a login, on the store's answer to "which record has this
/// email?": checks `password` against the record's hash and issues a token
/// for it at time `now`, signed with `secret`.
pub fn login_outcome(found: Result<Option<User>, String>, password: &str, secret: &str, now: usize) -> (r:
    Result<(String, UserResponse), AuthError>)
    ensures
        found matches Err(d) ==> (r matches Err(e) && e.kind == ErrorKind::InternalError && e.message@
            == MSG_DB_PREFIX@ + d@),
        found matches Ok(f) && credential_match(f, password@) is None ==> is_credential_rejection(r),
        found is Ok && credential_match(found->Ok_0, password@) is Some ==> login_granted(
            r,
            credential_match(found->Ok_0, password@)->Some_0,
            secret@,
            now as int,
        ),
{
    let user = match found {
        Err(d) => return Err(store_failure(MSG_DB_PREFIX, &d)),
        Ok(None) => return Err(AuthError::new(ErrorKind::BadRequest, MSG_BAD_CREDENTIALS)),
        Ok(Some(u)) => u,
    };
    if !verify_password(password, user.password.as_str()) {
        return Err(AuthError::new(ErrorKind::BadRequest, MSG_BAD_CREDENTIALS));
    }
    if !can_issue_at(now) {
        return Err(AuthError::new(ErrorKind::InternalError, MSG_CLOCK_RANGE));
    }
    let token = issue_token(user.id, now, secret);
    Ok((token, user.filter_user_record()))
}

/// Logs in against `store` at time `now`: a token for the record with the
/// given email where the password matches it. An unknown email and a wrong
/// password are refused alike.
pub fn login_user(store: &UserStore, data: &LoginUser, secret: &str, now: usize) -> (r: Result<
    (String, UserResponse),
    AuthError,
>)
    requires
        store.wf(),
    ensures
        !email_taken(store.records(), data.email@) ==> is_credential_rejection(r),
        forall|u: User|
            #[trigger] store.records().contains(u) && u.email@ == data.email@ && !argon2_accepts(
                data.password@,
                u.password@,
            ) ==> is_credential_rejection(r),
        forall|u: User|
            #[trigger] store.records().contains(u) && u.email@ == data.email@ && argon2_accepts(
                data.password@,
                u.password@,
            ) ==> login_granted(r, u, secret@, now as int),
{
    let found = store.find_by_email(data.email.as_str());
    proof {
        store.lemma_unique();
        if found is Some {
            let f = found->Some_0;
            assert forall|u: User|
                #[trigger] store.records().contains(u) && u.email@ == data.email@ implies u == f by {
                let i = choose|i: int| 0 <= i < store.records().len() && store.records()[i] == u;
                let j = choose|j: int| 0 <= j < store.records().len() && store.records()[j] == f;
                assert(store.records()[i].email@ == store.records()[j].email@);
            }
        } else {
            assert forall|u: User|
                #[trigger] store.records().contains(u) && u.email@ == data.email@ implies false by {
                let i = choose|i: int| 0 <= i < store.records().len() && store.records()[i] == u;
                assert(store.records()[i].email@ == data.email@);
            }
        }
    }
    login_outcome(Ok(found), data.password.as_str(), secret, now)
}

/// The last step of the access gate, on the store's answer to "which record
/// has the token's subject id?": a subject that is gone is refused; a failed
/// lookup is an internal error.
pub fn admit_user(found: Result<Option<User>, String>) -> (r: Result<User, AuthError>)
    ensures
        found matches Ok(Some(u)) ==> (r matches Ok(v) && v == u),
        found matches Ok(None) ==> (r matches Err(e) && e.kind == ErrorKind::Unauthorized && e.message@
            == MSG_USER_GONE@),
        found matches Err(d) ==> (r matches Err(e) && e.kind == ErrorKind::InternalError && e.message@
            == MSG_GATE_DB_PREFIX@ + d@),
        r matches Err(e) && e.message@ == MSG_USER_GONE@ ==> found == Ok::<Option<User>, String>(None),
{
    proof {
        reveal_strlit("Error fetching user from database: ");
        reveal_strlit("The user belonging to this token no longer exists");
    }
    match found {
        Ok(Some(u)) => Ok(u),
        Ok(None) => Err(AuthError::new(ErrorKind::Unauthorized, MSG_USER_GONE)),
        Err(d) => {
            let e = store_failure(MSG_GATE_DB_PREFIX, &d);
            assert(e.message@[0] != MSG_USER_GONE@[0]);
            Err(e)
        },
    }
}

/// The subject id of the token in an `Authorization` header value, where
/// the token passes the checks on the token alone.
pub open spec fn gate_subject(header: Option<Seq<char>>, secret: Seq<char>, now: int) -> Option<i32> {
    match header_verdict(header, secret, now) {
        Some(c) => Some(c.sub),
        None => None,
    }
}

/// The access gate in front of a protected route, against `store` at time
/// `now`: the request's `Authorization` header value must be `Bearer <token>`
/// with a token validly signed under `secret` and not expired, whose subject
/// is still in the store. The record found is the request's authenticated
/// identity.
pub fn access_gate(store: &UserStore, header: Option<&str>, secret: &str, now: usize) -> (r: Result<
    User,
    AuthError,
>)
    requires
        store.wf(),
    ensures
        header_verdict(header_view(header), secret@, now as int) is None ==> (r matches Err(e) && e.kind
            == ErrorKind::Unauthorized && e.message@ != MSG_USER_GONE@),
        header_token(header_view(header)) is None ==> (r matches Err(e) && e.message@ == MSG_MUST_LOGIN@),
        header_decode_error(header_view(header), secret@) matches Some(m) ==> (r matches Err(e) && e.kind
            == ErrorKind::Unauthorized && e.message@ == m),
        r matches Err(e) && e.message@ == MSG_USER_GONE@ ==> (gate_subject(
            header_view(header),
            secret@,
            now as int,
        ) matches Some(sub) && !id_taken(store.records(), sub)),
        gate_subject(header_view(header), secret@, now as int) matches Some(sub) && !id_taken(
            store.records(),
            sub,
        ) ==> (r matches Err(e) && e.kind == ErrorKind::Unauthorized && e.message@ == MSG_USER_GONE@),
        gate_subject(header_view(header), secret@, now as int) is Some && id_taken(
            store.records(),
            gate_subject(header_view(header), secret@, now as int)->Some_0,
        ) ==> (r matches Ok(u) && Some(u.id) == gate_subject(header_view(header), secret@, now as int)
            && store.records().contains(u)),
        r matches Ok(u) ==> (header_verdict(header_view(header), secret@, now as int) matches Some(c)
            && c.sub == u.id && now <= c.exp && store.records().contains(u)),
        header_token(header_view(header)) matches Some(t) && token_claims(t, secret@) matches Some(c)
            && c.exp < now ==> (r matches Err(e) && e.kind == ErrorKind::Unauthorized && e.message@
            == MSG_EXPIRED@),
        forall|c: TokenClaims|
            claims_fit(c) && header_token(header_view(header)) == Some(
                #[trigger] issued_token(c, secret@),
            ) && now <= c.exp && id_taken(store.records(), c.sub) ==> (r matches Ok(u) && u.id == c.sub),
{
    let claims = match authenticate(header, secret, now) {
        Ok(c) => c,
        Err(e) => return Err(e),
    };
    admit_user(Ok(store.find_by_id(claims.sub)))
}

} // verus!

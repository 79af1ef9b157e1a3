use crate::jwt::{now_seconds, verified_cid, Jwt};
use vstd::prelude::*;

verus! {

/// The private claims that a channel token carries: the channel it grants.
#[derive(Debug, Clone)]
pub struct Claims {
    pub cid: String,
}

/// The single failure that authorization reports; it never says which check failed.
#[derive(Debug, Clone, Copy, PartialEq, Eq, Structural)]
pub enum AuthError {
    InvalidCredentials,
}

/// What precedes the token in an `Authorization` header.
pub const BEARER: &'static str = "Bearer ";

pub open spec fn bearer_prefix() -> Seq<char> {
    seq!['B', 'e', 'a', 'r', 'e', 'r', ' ']
}

/// `p` occurs in `s` starting at index `i`.
pub open spec fn occurs_at(s: Seq<char>, p: Seq<char>, i: int) -> bool {
    0 <= i && i + p.len() <= s.len() && s.subrange(i, i + p.len()) == p
}

/// Relies on `str::split_once`: splits around the first occurrence of `pat`.
#[verifier::external_body]
fn split_once<'a>(s: &'a str, pat: &str) -> (r: Option<(&'a str, &'a str)>)
    ensures
        r matches Some((a, b)) ==> (s@ == a@ + pat@ + b@ && forall|j: int|
            0 <= j < a@.len() ==> !occurs_at(s@, pat@, j)),
        r is None ==> forall|j: int| !occurs_at(s@, pat@, j),
{
    s.split_once(pat)
}

/// The token of an `Authorization` header: what follows the first `"Bearer "`,
/// or the empty string when there is none.
pub open spec fn bearer_of(h: Seq<char>, t: Seq<char>) -> bool {
    ((forall|j: int| !occurs_at(h, bearer_prefix(), j)) ==> t.len() == 0) && forall|i: int|
        #![trigger occurs_at(h, bearer_prefix(), i)]
        occurs_at(h, bearer_prefix(), i) && (forall|j: int| 0 <= j < i ==> !occurs_at(h, bearer_prefix(), j))
            ==> t == h.subrange(i + 7, h.len() as int)
}

pub fn bearer_token(header: &str) -> (r: String)
    ensures
        bearer_of(header@, r@),
{
    proof {
        reveal_strlit("Bearer ");
        assert(BEARER@ =~= bearer_prefix());
    }
    match split_once(header, BEARER) {
        Some((a, b)) => {
            proof {
                assert(occurs_at(header@, bearer_prefix(), a@.len() as int)) by {
                    assert(header@.subrange(a@.len() as int, a@.len() + 7int) =~= bearer_prefix());
                }
                assert forall|i: int|
                    #![trigger occurs_at(header@, bearer_prefix(), i)]
                    occurs_at(header@, bearer_prefix(), i) && (forall|j: int|
                        0 <= j < i ==> !occurs_at(header@, bearer_prefix(), j)) implies b@
                    == header@.subrange(i + 7, header@.len() as int) by {
                    if i < a@.len() {
                    } else if i > a@.len() {
                        assert(!occurs_at(header@, bearer_prefix(), a@.len() as int));
                    }
                    assert(b@ =~= header@.subrange(a@.len() + 7int, header@.len() as int));
                }
            }
            b.to_string()
        },
        None => String::new(),
    }
}

/// The token a request presents: from the `Authorization` header when that
/// header is there, else from the `access_token` query parameter.
pub open spec fn presented_token(header: Option<Seq<char>>, query: Option<Seq<char>>, t: Option<Seq<char>>) -> bool {
    match header {
        Some(h) => t matches Some(x) && bearer_of(h, x),
        None => t == query,
    }
}

pub open spec fn opt_view(o: Option<String>) -> Option<Seq<char>> {
    match o {
        Some(s) => Some(s@),
        None => None,
    }
}

pub fn select_token(auth_header: &Option<String>, query_token: &Option<String>) -> (r: Option<String>)
    ensures
        presented_token(opt_view(*auth_header), opt_view(*query_token), opt_view(r)),
{
    match auth_header {
        Some(h) => Some(bearer_token(h.as_str())),
        None => match query_token {
            Some(q) => Some(q.clone()),
            None => None,
        },
    }
}

/// The API-key gate: open when no keys are configured; otherwise the header
/// must be there and equal one of the keys.
pub open spec fn api_key_accepted(keys: Option<Seq<Seq<char>>>, header: Option<Seq<char>>) -> bool {
    match keys {
        None => true,
        Some(ks) => header matches Some(h) && ks.contains(h),
    }
}

pub open spec fn string_views(ks: Seq<String>) -> Seq<Seq<char>> {
    ks.map_values(|k: String| k@)
}

pub open spec fn keys_view(keys: Option<Vec<String>>) -> Option<Seq<Seq<char>>> {
    match keys {
        Some(ks) => Some(string_views(ks@)),
        None => None,
    }
}

pub fn check_api_key(api_keys: &Option<Vec<String>>, header: &Option<String>) -> (r: Result<(), AuthError>)
    ensures
        r is Ok <==> api_key_accepted(keys_view(*api_keys), opt_view(*header)),
        r is Err ==> r == Err::<(), AuthError>(AuthError::InvalidCredentials),
{
    match *api_keys {
        None => Ok(()),
        Some(ref keys) => match *header {
            None => Err(AuthError::InvalidCredentials),
            Some(ref h) => {
                let ghost ks = string_views(keys@);
                let mut i: usize = 0;
                while i < keys.len()
                    invariant
                        i <= keys.len(),
                        ks == string_views(keys@),
                        *api_keys == Some(*keys),
                        *header == Some(*h),
                        forall|j: int| 0 <= j < i ==> ks[j] != h@,
                    decreases keys.len() - i,
                {
                    if keys[i] == *h {
                        assert(ks[i as int] == h@);
                        assert(ks.contains(h@));
                        return Ok(());
                    }
                    i = i + 1;
                }
                proof {
                    if ks.contains(h@) {
                        let j = choose|j: int| 0 <= j < ks.len() && ks[j] == h@;
                    }
                }
                Err(AuthError::InvalidCredentials)
            },
        },
    }
}

proof fn lemma_first_occurrence(s: Seq<char>, p: Seq<char>, i: int)
    requires
        occurs_at(s, p, i),
    ensures
        exists|k: int|
            #![trigger occurs_at(s, p, k)]
            occurs_at(s, p, k) && forall|j: int| 0 <= j < k ==> !occurs_at(s, p, j),
    decreases i,
{
    if exists|j: int| 0 <= j < i && occurs_at(s, p, j) {
        let j = choose|j: int| 0 <= j < i && occurs_at(s, p, j);
        lemma_first_occurrence(s, p, j);
    } else {
        assert(occurs_at(s, p, i) && forall|j: int| 0 <= j < i ==> !occurs_at(s, p, j));
    }
}

/// A header presents one token at most.
proof fn lemma_bearer_unique(h: Seq<char>, t1: Seq<char>, t2: Seq<char>)
    requires
        bearer_of(h, t1),
        bearer_of(h, t2),
    ensures
        t1 == t2,
{
    if exists|i: int| occurs_at(h, bearer_prefix(), i) {
        let i = choose|i: int| occurs_at(h, bearer_prefix(), i);
        lemma_first_occurrence(h, bearer_prefix(), i);
    } else {
        assert(t1 =~= t2);
    }
}

proof fn lemma_presented_unique(h: Option<Seq<char>>, q: Option<Seq<char>>, t1: Option<Seq<char>>, t2: Option<Seq<char>>)
    requires
        presented_token(h, q, t1),
        presented_token(h, q, t2),
    ensures
        t1 == t2,
{
    if let Some(hv) = h {
        lemma_bearer_unique(hv, t1->0, t2->0);
    }
}

/// The token gate: the presented token verifies at `now`, and (when `channel`
/// is given) grants that very channel.
pub open spec fn token_gate(
    secret: Seq<char>,
    header: Option<Seq<char>>,
    query: Option<Seq<char>>,
    now: int,
    channel: Option<Seq<char>>,
) -> bool {
    exists|t: Seq<char>|
        #![trigger presented_token(header, query, Some(t))]
        presented_token(header, query, Some(t)) && match verified_cid(secret, t, now) {
            Some(c) => match channel {
                Some(ch) => c == ch,
                None => true,
            },
            None => false,
        }
}

/// Create-channel policy: the API-key gate alone.
pub fn authorize_create(api_keys: &Option<Vec<String>>, api_key_header: &Option<String>) -> (r: Result<(), AuthError>)
    ensures
        r is Ok <==> api_key_accepted(keys_view(*api_keys), opt_view(*api_key_header)),
        r is Err ==> r == Err::<(), AuthError>(AuthError::InvalidCredentials),
{
    check_api_key(api_keys, api_key_header)
}

/// Publish policy at time `now`: a verifying token, or the API-key gate.
pub fn authorize_publish_at(
    jwt: &Jwt,
    api_keys: &Option<Vec<String>>,
    api_key_header: &Option<String>,
    auth_header: &Option<String>,
    query_token: &Option<String>,
    now: i64,
) -> (r: Result<(), AuthError>)
    ensures
        r is Ok <==> (token_gate(jwt.secret(), opt_view(*auth_header), opt_view(*query_token), now as int, None)
            || api_key_accepted(keys_view(*api_keys), opt_view(*api_key_header))),
        r is Err ==> r == Err::<(), AuthError>(AuthError::InvalidCredentials),
{
    let token = select_token(auth_header, query_token);
    let by_token = match token {
        Some(t) => jwt.decode(t.as_str(), now).is_ok(),
        None => false,
    };
    proof {
        let (h, q) = (opt_view(*auth_header), opt_view(*query_token));
        assert forall|t: Seq<char>| presented_token(h, q, Some(t)) implies opt_view(token) == Some(t) by {
            lemma_presented_unique(h, q, opt_view(token), Some(t));
        }
    }
    if by_token {
        Ok(())
    } else {
        check_api_key(api_keys, api_key_header)
    }
}

/// Subscribe policy at time `now`: the presented token verifies and its
/// `cid` is the requested channel; a valid token for another channel is refused.
pub fn authorize_subscribe_at(
    jwt: &Jwt,
    channel_id: &String,
    auth_header: &Option<String>,
    query_token: &Option<String>,
    now: i64,
) -> (r: Result<Claims, AuthError>)
    ensures
        r is Ok <==> token_gate(jwt.secret(), opt_view(*auth_header), opt_view(*query_token), now as int, Some(channel_id@)),
        r matches Ok(c) ==> c.cid@ == channel_id@,
        r is Err ==> r == Err::<Claims, AuthError>(AuthError::InvalidCredentials),
{
    let token = select_token(auth_header, query_token);
    proof {
        let (h, q) = (opt_view(*auth_header), opt_view(*query_token));
        assert forall|t: Seq<char>| presented_token(h, q, Some(t)) implies opt_view(token) == Some(t) by {
            lemma_presented_unique(h, q, opt_view(token), Some(t));
        }
    }
    match token {
        None => Err(AuthError::InvalidCredentials),
        Some(t) => match jwt.decode(t.as_str(), now) {
            Ok(claims) => {
                if claims.cid == *channel_id {
                    Ok(claims)
                } else {
                    Err(AuthError::InvalidCredentials)
                }
            },
            Err(e) => Err(e),
        },
    }
}

/// Publish policy against the clock.
pub fn authorize_publish(
    jwt: &Jwt,
    api_keys: &Option<Vec<String>>,
    api_key_header: &Option<String>,
    auth_header: &Option<String>,
    query_token: &Option<String>,
) -> (r: Result<(), AuthError>)
    ensures
        api_key_accepted(keys_view(*api_keys), opt_view(*api_key_header)) ==> r is Ok,
        r is Ok ==> (api_key_accepted(keys_view(*api_keys), opt_view(*api_key_header)) || exists|now: int|
            token_gate(jwt.secret(), opt_view(*auth_header), opt_view(*query_token), now, None)),
        r is Err ==> r == Err::<(), AuthError>(AuthError::InvalidCredentials),
{
    authorize_publish_at(jwt, api_keys, api_key_header, auth_header, query_token, now_seconds())
}

/// Subscribe policy against the clock: success only for a token that grants `channel_id`.
pub fn authorize_subscribe(
    jwt: &Jwt,
    channel_id: &String,
    auth_header: &Option<String>,
    query_token: &Option<String>,
) -> (r: Result<Claims, AuthError>)
    ensures
        r is Ok ==> exists|now: int|
            token_gate(jwt.secret(), opt_view(*auth_header), opt_view(*query_token), now, Some(channel_id@)),
        r matches Ok(c) ==> c.cid@ == channel_id@,
        r is Err ==> r == Err::<Claims, AuthError>(AuthError::InvalidCredentials),
{
    let now = now_seconds();
    authorize_subscribe_at(jwt, channel_id, auth_header, query_token, now)
}

/// A token that verifies but grants another channel does not open the
/// subscribe gate for `channel`.
pub proof fn foreign_token_refused(
    secret: Seq<char>,
    header: Option<Seq<char>>,
    query: Option<Seq<char>>,
    token: Seq<char>,
    now: int,
    channel: Seq<char>,
)
    requires
        presented_token(header, query, Some(token)),
        verified_cid(secret, token, now) matches Some(c) && c != channel,
    ensures
        !token_gate(secret, header, query, now, Some(channel)),
{
    assert forall|t: Seq<char>| presented_token(header, query, Some(t)) implies t == token by {
        lemma_presented_unique(header, query, Some(t), Some(token));
    }
}

} // verus!

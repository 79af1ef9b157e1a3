use crate::auth::Claims;
use crate::jwt::{now_seconds, signed_token, Jwt, MAX_EXPIRY};
use crate::problem::Failure;
use vstd::prelude::*;

verus! {

/// The optional body of a create-channel request.
#[derive(Debug, Clone)]
pub struct CreateChannelRequest {
    pub channel_id: Option<String>,
}

impl Default for CreateChannelRequest {
    fn default() -> (r: Self)
        ensures
            r.channel_id is None,
    {
        CreateChannelRequest { channel_id: None }
    }
}

/// A channel id and the token that grants it.
#[derive(Debug, Clone)]
pub struct ChannelToken {
    pub channel_id: String,
    pub token: String,
}

/// Length of a generated channel id.
pub const GENERATED_ID_LEN: usize = 21;

/// A character that may stand in a URL unescaped: `A-Z a-z 0-9 _ -`.
pub open spec fn url_safe(c: char) -> bool {
    ('a' <= c && c <= 'z') || ('A' <= c && c <= 'Z') || ('0' <= c && c <= '9') || c == '_' || c == '-'
}

/// Relies on `nanoid::format` with `rngs::default` and `alphabet::SAFE`:
/// `size` random characters of the URL-safe alphabet. A size of zero never returns.
#[verifier::external_body]
fn random_id(size: usize) -> (r: String)
    requires
        0 < size,
    ensures
        r@.len() == size,
        forall|i: int| 0 <= i < r@.len() ==> url_safe(#[trigger] r@[i]),
{
    nanoid::format(nanoid::rngs::default, &nanoid::alphabet::SAFE, size)
}

/// The id a new channel gets: the requested one verbatim, else the generated one.
pub open spec fn chosen_id(requested: Option<String>, generated: Seq<char>) -> Seq<char> {
    match requested {
        Some(id) => id@,
        None => generated,
    }
}

/// Mints the token for a new channel at time `now`, valid for `ttl` seconds.
/// `generated` is the id used when none is requested. Fails (as an internal
/// failure) exactly when the expiry would fall outside `0..=MAX_EXPIRY`.
pub fn issue_channel_token(
    jwt: &Jwt,
    request: CreateChannelRequest,
    generated: String,
    now: i64,
    ttl: u16,
) -> (r: Result<ChannelToken, Failure>)
    ensures
        r is Ok <==> 0 <= now + ttl <= MAX_EXPIRY,
        r matches Ok(t) ==> (t.channel_id@ == chosen_id(request.channel_id, generated@) && t.token@ == signed_token(
            jwt.secret(),
            t.channel_id@,
            now + ttl,
        )),
        r matches Err(f) ==> f is Internal,
{
    let channel_id = match request.channel_id {
        Some(cid) => cid,
        None => generated,
    };
    if now > MAX_EXPIRY - ttl as i64 || now + (ttl as i64) < 0 {
        return Err(Failure::Internal);
    }
    let expiry = now + ttl as i64;
    match jwt.encode(Claims { cid: channel_id.clone() }, expiry) {
        Some(token) => Ok(ChannelToken { channel_id, token }),
        None => Err(Failure::Internal),
    }
}

/// Creates a channel: the requested id or a fresh random one, with a token
/// that expires `ttl` seconds from now. Nothing is stored.
pub fn create_channel(jwt: &Jwt, request: CreateChannelRequest, ttl: u16) -> (r: Result<ChannelToken, Failure>)
    ensures
        r matches Ok(t) ==> (match request.channel_id {
            Some(id) => t.channel_id@ == id@,
            None => t.channel_id@.len() == GENERATED_ID_LEN && forall|i: int|
                0 <= i < t.channel_id@.len() ==> url_safe(#[trigger] t.channel_id@[i]),
        } && exists|e: int| 0 <= e <= MAX_EXPIRY && t.token@ == signed_token(jwt.secret(), t.channel_id@, e)),
        r matches Err(f) ==> f is Internal,
{
    let generated = match request.channel_id {
        Some(_) => String::new(),
        None => random_id(GENERATED_ID_LEN),
    };
    issue_channel_token(jwt, request, generated, now_seconds(), ttl)
}

/// Prefix of a channel's key on the bus.
pub const CHANNEL_KEY_PREFIX: &'static str = "channel:";

pub open spec fn channel_key_of(channel_id: Seq<char>) -> Seq<char> {
    seq!['c', 'h', 'a', 'n', 'n', 'e', 'l', ':'] + channel_id
}

/// The bus key a channel's messages travel on.
pub fn channel_key(channel_id: &str) -> (r: String)
    ensures
        r@ == channel_key_of(channel_id@),
{
    proof {
        reveal_strlit("channel:");
    }
    let key = String::from_str(CHANNEL_KEY_PREFIX);
    assert(key@ =~= seq!['c', 'h', 'a', 'n', 'n', 'e', 'l', ':']);
    key.concat(channel_id)
}

/// A publish command for the bus: the raw payload, on the channel's key.
#[derive(Debug, Clone)]
pub struct PublishCommand {
    pub key: String,
    pub payload: Vec<u8>,
}

/// What publishing `body` to `channel_id` sends to the bus. Each call yields
/// its own command: publishing twice sends twice.
pub fn publish_command(channel_id: &str, body: Vec<u8>) -> (r: PublishCommand)
    ensures
        r.key@ == channel_key_of(channel_id@),
        r.payload@ == body@,
{
    PublishCommand { key: channel_key(channel_id), payload: body }
}

} // verus!

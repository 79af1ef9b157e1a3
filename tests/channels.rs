use webchannel::channel::{channel_key, create_channel, issue_channel_token, publish_command, CreateChannelRequest};
use webchannel::jwt::Jwt;
use webchannel::problem::Failure;

#[test]
fn create_channel_generates_an_id() {
    let jwt = Jwt::new("moo");
    let t = create_channel(&jwt, CreateChannelRequest::default(), 3600).unwrap();
    assert!(t.channel_id.len() > 5);
    assert_eq!(t.channel_id.len(), 21);
    assert!(t.channel_id.chars().all(|c| c.is_ascii_alphanumeric() || c == '_' || c == '-'));
    assert_eq!(jwt.verify(&t.token).unwrap().cid, t.channel_id);
}

#[test]
fn create_channel_keeps_the_requested_id() {
    let jwt = Jwt::new("moo");
    let req = CreateChannelRequest { channel_id: Some("foo".to_string()) };
    let t = create_channel(&jwt, req, 3600).unwrap();
    assert_eq!(t.channel_id, "foo");
    assert_eq!(jwt.verify(&t.token).unwrap().cid, "foo");
}

#[test]
fn generated_ids_differ() {
    let jwt = Jwt::new("moo");
    let a = create_channel(&jwt, CreateChannelRequest::default(), 60).unwrap();
    let b = create_channel(&jwt, CreateChannelRequest::default(), 60).unwrap();
    assert_ne!(a.channel_id, b.channel_id);
}

#[test]
fn issued_token_expires_after_ttl() {
    let jwt = Jwt::new("moo");
    let now = 1_700_000_000;
    let t = issue_channel_token(&jwt, CreateChannelRequest::default(), "gen".to_string(), now, 10).unwrap();
    assert_eq!(t.channel_id, "gen");
    assert!(jwt.decode(&t.token, now + 12).is_ok());
    assert!(jwt.decode(&t.token, now + 13).is_err());
}

#[test]
fn issue_out_of_range_is_internal() {
    let jwt = Jwt::new("moo");
    let r = issue_channel_token(&jwt, CreateChannelRequest::default(), "gen".to_string(), -5, 1);
    assert!(matches!(r, Err(Failure::Internal)));
}

#[test]
fn channel_key_prefixes_the_id() {
    assert_eq!(channel_key("foo"), "channel:foo");
}

#[test]
fn publishing_twice_makes_two_identical_commands() {
    let first = publish_command("foo", b"hello".to_vec());
    let second = publish_command("foo", b"hello".to_vec());
    assert_eq!(first.key, "channel:foo");
    assert_eq!(first.payload, b"hello".to_vec());
    assert_eq!(first.key, second.key);
    assert_eq!(first.payload, second.payload);
}

#[test]
fn issue_with_negative_now_in_range_succeeds() {
    let jwt = Jwt::new("moo");
    let r = issue_channel_token(&jwt, CreateChannelRequest { channel_id: Some("foo".to_string()) }, String::new(), -5, 10);
    assert_eq!(r.unwrap().channel_id, "foo");
}

#[test]
fn creating_the_same_channel_twice_succeeds() {
    let jwt = Jwt::new("moo");
    let a = create_channel(&jwt, CreateChannelRequest { channel_id: Some("foo".to_string()) }, 3600).unwrap();
    let b = create_channel(&jwt, CreateChannelRequest { channel_id: Some("foo".to_string()) }, 3600).unwrap();
    assert_eq!(a.channel_id, b.channel_id);
}

use tweet_provider::config::Twitter;
use tweet_provider::response::{Message, StringResponse, Tweet};

fn creds(v: &str) -> Twitter {
    Twitter {
        consumer_key: Some(format!("{}-ck", v)),
        consumer_secret: None,
        access_token: Some(format!("{}-at", v)),
        access_token_secret: None,
        always_restart: false,
    }
}

#[test]
fn merge_prefers_the_first_source() {
    let mut other = creds("b");
    other.consumer_secret = Some("b-cs".to_string());
    other.always_restart = true;
    let m = creds("a").merge(other);
    assert_eq!(m.consumer_key.as_deref(), Some("a-ck"));
    assert_eq!(m.consumer_secret.as_deref(), Some("b-cs"));
    assert_eq!(m.access_token.as_deref(), Some("a-at"));
    assert_eq!(m.access_token_secret, None);
    assert!(m.always_restart);
    assert!(!m.has_credentials());
}

#[test]
fn credentials_complete() {
    let mut t = Twitter::default();
    assert!(!t.has_credentials());
    assert!(!t.always_restart);
    t.consumer_key = Some("k".into());
    t.consumer_secret = Some("s".into());
    t.access_token = Some("t".into());
    t.access_token_secret = Some("u".into());
    assert!(t.has_credentials());
}

#[test]
fn responses() {
    let r = StringResponse::from("hi".to_string());
    assert_eq!(r.message, "hi");
    match Message::new_subscribe("ok".to_string()) {
        Message::SubscribeResponse(s) => assert_eq!(s.message, "ok"),
        other => panic!("{:?}", other),
    }
    match Message::new_unsubscribe("bye".to_string()) {
        Message::UnsubscribeResponse(s) => assert_eq!(s.message, "bye"),
        other => panic!("{:?}", other),
    }
    match Message::new_error("bad".to_string()) {
        Message::Error(s) => assert_eq!(s.message, "bad"),
        other => panic!("{:?}", other),
    }
    let t = Tweet {
        screen_name: "n".into(),
        text: "t".into(),
        in_reply_to_screen_name: None,
        urls: vec![],
    };
    assert!(matches!(Message::new_tweet(t), Message::Tweet(_)));
}

#[test]
fn token_carries_both_key_pairs() {
    let t = Twitter {
        consumer_key: Some("ck".into()),
        consumer_secret: Some("cs".into()),
        access_token: Some("at".into()),
        access_token_secret: Some("ats".into()),
        always_restart: false,
    };
    match t.token() {
        egg_mode::Token::Access { consumer, access } => {
            assert_eq!(consumer.key, "ck");
            assert_eq!(consumer.secret, "cs");
            assert_eq!(access.key, "at");
            assert_eq!(access.secret, "ats");
        }
        other => panic!("expected an access token, got {:?}", other),
    }
}

//! Reply shapes of the subscribe/unsubscribe protocol.
use vstd::prelude::*;

verus! {

use vstd::std_specs::convert::IntoSpec;

/// A reply that carries a human-readable message.
#[derive(Debug)]
pub struct StringResponse {
    pub message: String,
}

impl From<String> for StringResponse {
    fn from(s: String) -> (r: StringResponse)
        ensures
            r.message == s,
    {
        StringResponse { message: s }
    }
}

impl vstd::std_specs::convert::FromSpecImpl<String> for StringResponse {
    open spec fn obeys_from_spec() -> bool {
        true
    }

    open spec fn from_spec(s: String) -> StringResponse {
        StringResponse { message: s }
    }
}

/// A link inside a tweet.
#[derive(Debug)]
pub struct TweetURL {
    pub url: String,
    pub display_url: String,
    pub expanded_url: String,
}

/// The part of a tweet that is sent to listeners.
#[derive(Debug)]
pub struct Tweet {
    pub screen_name: String,
    pub text: String,
    pub in_reply_to_screen_name: Option<String>,
    pub urls: Vec<TweetURL>,
}

/// A reply of the subscribe/unsubscribe protocol.
#[derive(Debug)]
pub enum Message {
    SubscribeResponse(StringResponse),
    UnsubscribeResponse(StringResponse),
    Error(StringResponse),
    Tweet(Tweet),
}

impl Message {
    /// Acknowledges a subscription.
    pub fn new_subscribe<T: Into<StringResponse>>(message: T) -> (r: Message)
        ensures
            <T as IntoSpec<StringResponse>>::obeys_into_spec() ==> r == Message::SubscribeResponse(message.into_spec()),
    {
        Message::SubscribeResponse(message.into())
    }

    /// Acknowledges an unsubscription.
    pub fn new_unsubscribe<T: Into<StringResponse>>(message: T) -> (r: Message)
        ensures
            <T as IntoSpec<StringResponse>>::obeys_into_spec() ==> r == Message::UnsubscribeResponse(message.into_spec()),
    {
        Message::UnsubscribeResponse(message.into())
    }

    /// Reports an error.
    pub fn new_error<T: Into<StringResponse>>(message: T) -> (r: Message)
        ensures
            <T as IntoSpec<StringResponse>>::obeys_into_spec() ==> r == Message::Error(message.into_spec()),
    {
        Message::Error(message.into())
    }

    /// Carries a tweet.
    pub fn new_tweet(tweet: Tweet) -> (r: Message)
        ensures
            r == Message::Tweet(tweet),
    {
        Message::Tweet(tweet)
    }
}

} // verus!

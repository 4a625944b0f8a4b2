//! Webhooks.

use vstd::prelude::*;

verus! {

/// A way to post messages to a channel from outside.
#[derive(Clone, Copy, Debug, PartialEq, Eq, Structural, Hash)]
pub struct Webhook {}

/// What kind of webhook it is.
#[derive(Clone, Copy, Debug, PartialEq, Eq, Structural, Hash)]
pub enum WebhookType {
    Incoming,
    ChannelFollower,
    Application,
}

impl WebhookType {
    /// The integer this value travels as.
    pub open spec fn spec_code(self) -> u64 {
        match self {
            WebhookType::Incoming => 1,
            WebhookType::ChannelFollower => 2,
            WebhookType::Application => 3,
        }
    }

    pub fn code(&self) -> (r: u64)
        ensures
            r == self.spec_code(),
    {
        match self {
            WebhookType::Incoming => 1,
            WebhookType::ChannelFollower => 2,
            WebhookType::Application => 3,
        }
    }

    /// The value that travels as `code`, if any.
    pub fn from_code(code: u64) -> (r: Option<WebhookType>)
        ensures
            r matches Some(x) ==> x.spec_code() == code,
            r is None ==> forall|x: WebhookType| x.spec_code() != code,
    {
        if code == 1 {
            Some(WebhookType::Incoming)
        } else if code == 2 {
            Some(WebhookType::ChannelFollower)
        } else if code == 3 {
            Some(WebhookType::Application)
        } else {
            None
        }
    }
}

} // verus!

//! Where status messages go, if anywhere.

use crate::webhook::{Client, Payload, PayloadView, PostView, Post};
use vstd::prelude::*;

verus! {

/// Hands status messages to a channel, or to none.
#[derive(Debug, Clone)]
pub struct StatusWriter {
    webhook: Option<Client>,
}

impl View for StatusWriter {
    type V = Option<Seq<char>>;

    /// The address of the channel, if there is one.
    closed spec fn view(&self) -> Option<Seq<char>> {
        match self.webhook {
            Some(client) => Some(client@),
            None => None,
        }
    }
}

/// What is sent for `message` by a writer with this channel: the message as
/// the content, under no name and with no picture, or nothing where there is
/// no channel.
pub open spec fn written(channel: Option<Seq<char>>, message: Seq<char>) -> Option<PostView> {
    match channel {
        Some(url) => Some(
            PostView {
                url,
                payload: PayloadView { content: message, username: None, avatar_url: None },
            },
        ),
        None => None,
    }
}

impl StatusWriter {
    /// A writer without a channel: what is written to it goes nowhere.
    pub fn none() -> (writer: StatusWriter)
        ensures
            writer@ is None,
    {
        StatusWriter { webhook: None }
    }

    /// What is to be sent for `message`, if anything. The sending is the
    /// caller's, who does not wait for it and does not fail where it fails.
    pub fn write(&self, message: String) -> (post: Option<Post>)
        ensures
            match post {
                Some(p) => written(self@, message@) == Some(p@),
                None => written(self@, message@) is None,
            },
    {
        match &self.webhook {
            Some(webhook) => Some(
                webhook.post(Payload { content: message, username: None, avatar_url: None }),
            ),
            None => None,
        }
    }
}

impl From<Client> for StatusWriter {
    /// A writer that hands its messages to `webhook`.
    fn from(webhook: Client) -> (writer: StatusWriter)
        ensures
            writer@ == Some(webhook@),
    {
        StatusWriter { webhook: Some(webhook) }
    }
}

impl vstd::std_specs::convert::FromSpecImpl<Client> for StatusWriter {
    open spec fn obeys_from_spec() -> bool {
        true
    }

    closed spec fn from_spec(webhook: Client) -> StatusWriter {
        StatusWriter { webhook: Some(webhook) }
    }
}

} // verus!

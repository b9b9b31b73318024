//! Status messages for a remote channel.

use vstd::prelude::*;

verus! {

/// A message as the channel takes it. A name or a picture that is not given
/// is left to the channel.
#[derive(Debug, PartialEq, Eq)]
pub struct Payload {
    pub content: String,
    pub username: Option<String>,
    pub avatar_url: Option<String>,
}

/// A `Payload` as plain text.
pub struct PayloadView {
    pub content: Seq<char>,
    pub username: Option<Seq<char>>,
    pub avatar_url: Option<Seq<char>>,
}

impl View for Payload {
    type V = PayloadView;

    open spec fn view(&self) -> PayloadView {
        PayloadView {
            content: self.content@,
            username: self.username.deep_view(),
            avatar_url: self.avatar_url.deep_view(),
        }
    }
}

/// A message on its way: what to send, and the address to send it to.
#[derive(Debug, PartialEq, Eq)]
pub struct Post {
    pub url: String,
    pub payload: Payload,
}

/// A `Post` as plain text.
pub struct PostView {
    pub url: Seq<char>,
    pub payload: PayloadView,
}

impl View for Post {
    type V = PostView;

    open spec fn view(&self) -> PostView {
        PostView { url: self.url@, payload: self.payload@ }
    }
}

/// The channel, known by its address.
#[derive(Debug, Clone)]
pub struct Client {
    url: String,
}

impl View for Client {
    type V = Seq<char>;

    closed spec fn view(&self) -> Seq<char> {
        self.url@
    }
}

impl Client {
    /// The channel at `url`.
    pub fn open(url: String) -> (client: Client)
        ensures
            client@ == url@,
    {
        Client { url }
    }

    /// The address of the channel.
    pub fn url(&self) -> (url: &str)
        ensures
            url@ == self@,
    {
        self.url.as_str()
    }

    /// `payload`, addressed to this channel.
    pub fn post(&self, payload: Payload) -> (post: Post)
        ensures
            post@ == (PostView { url: self@, payload: payload@ }),
    {
        Post { url: self.url.clone(), payload }
    }
}

} // verus!

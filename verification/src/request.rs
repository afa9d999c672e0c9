//! The request a chat client sends to the server over UDP.

use vstd::prelude::*;

verus! {

/// A chat request: a method code, the sender's name, the addressee's name
/// (for private messages) and the message text.
#[derive(Debug)]
pub struct Request {
    method: String,
    from: String,
    to: String,
    text: String,
}

/// The content of a [`Request`].
pub struct RequestView {
    pub method: Seq<char>,
    pub from: Seq<char>,
    pub to: Seq<char>,
    pub text: Seq<char>,
}

impl View for Request {
    type V = RequestView;

    closed spec fn view(&self) -> RequestView {
        RequestView {
            method: self.method@,
            from: self.from@,
            to: self.to@,
            text: self.text@,
        }
    }
}

impl Request {
    /// A request with the given fields.
    pub fn new(method: String, from: String, to: String, text: String) -> (r: Request)
        ensures
            r@ == (RequestView { method: method@, from: from@, to: to@, text: text@ }),
    {
        Request { method, from, to, text }
    }

    /// The method code.
    pub fn get_method(&self) -> (r: String)
        ensures
            r@ == self@.method,
    {
        self.method.clone()
    }

    /// The sender's name.
    pub fn get_from(&self) -> (r: String)
        ensures
            r@ == self@.from,
    {
        self.from.clone()
    }

    /// The addressee's name.
    pub fn get_to(&self) -> (r: String)
        ensures
            r@ == self@.to,
    {
        self.to.clone()
    }

    /// The message text.
    pub fn get_text(&self) -> (r: String)
        ensures
            r@ == self@.text,
    {
        self.text.clone()
    }
}

} // verus!

//! Interned string identifiers.
//!
//! A [`Token`] is an owning handle over an identifier string; a
//! [`TokenRef`] is a borrowed view of a token owned by something else
//! (an array element, a record inside a stage).  Both expose the same
//! read-only text extraction and are abstracted by the token's text.

use vstd::prelude::*;
use vstd::string::StringExecFns;

verus! {

/// An owning identifier string.
pub struct Token {
    text: String,
}

impl View for Token {
    type V = Seq<char>;

    closed spec fn view(&self) -> Seq<char> {
        self.text@
    }
}

impl Token {
    /// Intern a new token with the given text.
    pub fn new(name: &str) -> (t: Token)
        ensures
            t@ == name@,
    {
        Token { text: String::from_str(name) }
    }

    /// The token's text.
    pub fn text(&self) -> (t: &str)
        ensures
            t@ == self@,
    {
        self.text.as_str()
    }

    /// Whether the token's text equals the given text.
    pub fn text_equals(&self, other: &str) -> (r: bool)
        ensures
            r == (self@ == other@),
    {
        self.text.eq(&String::from_str(other))
    }

    /// A borrowed view of this token.
    pub fn as_ref(&self) -> (r: TokenRef<'_>)
        ensures
            r@ == self@,
    {
        TokenRef { target: self }
    }
}

impl Clone for Token {
    fn clone(&self) -> (t: Token)
        ensures
            t@ == self@,
    {
        Token { text: self.text.clone() }
    }
}

/// A borrowed view of a [`Token`] whose storage is owned elsewhere;
/// carries no release obligation and must not outlive its source.
pub struct TokenRef<'a> {
    target: &'a Token,
}

impl<'a> View for TokenRef<'a> {
    type V = Seq<char>;

    closed spec fn view(&self) -> Seq<char> {
        self.target@
    }
}

impl<'a> TokenRef<'a> {
    /// The viewed token's text.
    pub fn text(&self) -> (t: &'a str)
        ensures
            t@ == self@,
    {
        self.target.text()
    }

    /// The token this view borrows from.
    pub fn token(&self) -> (t: &'a Token)
        ensures
            t@ == self@,
    {
        self.target
    }
}

} // verus!

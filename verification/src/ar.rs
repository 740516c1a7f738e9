//! Asset-resolution value types: resolved paths and timestamps.

use vstd::prelude::*;
use vstd::string::StringExecFns;

verus! {

/// The result of resolving an asset locator, abstracted by its text;
/// an empty text means the asset did not resolve.
pub struct ResolvedPath {
    text: String,
}

impl View for ResolvedPath {
    type V = Seq<char>;

    closed spec fn view(&self) -> Seq<char> {
        self.text@
    }
}

impl ResolvedPath {
    /// Build a resolved path from its text.
    pub fn new(text: &str) -> (r: ResolvedPath)
        ensures
            r@ == text@,
    {
        ResolvedPath { text: String::from_str(text) }
    }

    /// Whether the resolution came back empty.
    pub fn is_empty(&self) -> (r: bool)
        ensures
            r == (self@.len() == 0),
    {
        self.text.as_str().is_empty()
    }

    /// The resolved locator's text.
    pub fn get_path_string(&self) -> (t: &str)
        ensures
            t@ == self@,
    {
        self.text.as_str()
    }
}

/// A borrowed view of a [`ResolvedPath`] owned elsewhere.
pub struct ResolvedPathRef<'a> {
    target: &'a ResolvedPath,
}

impl<'a> View for ResolvedPathRef<'a> {
    type V = Seq<char>;

    closed spec fn view(&self) -> Seq<char> {
        self.target@
    }
}

impl<'a> ResolvedPathRef<'a> {
    /// Borrow a resolved path.
    pub fn new(target: &'a ResolvedPath) -> (r: ResolvedPathRef<'a>)
        ensures
            r@ == target@,
    {
        ResolvedPathRef { target }
    }

    /// The resolved locator's text.
    pub fn get_path_string(&self) -> (t: &'a str)
        ensures
            t@ == self@,
    {
        self.target.get_path_string()
    }
}

/// A modification timestamp of a resolved asset, carried as the
/// IEEE-754 bit pattern of its time value and compared exactly.
#[derive(Clone, Copy, PartialEq, Eq, Structural, Debug)]
pub struct Timestamp {
    /// The time value's bit pattern.
    pub bits: u64,
}

impl Timestamp {
    /// A timestamp from a time value's bit pattern.
    pub fn from_bits(bits: u64) -> (t: Timestamp)
        ensures
            t.bits == bits,
    {
        Timestamp { bits }
    }
}

} // verus!

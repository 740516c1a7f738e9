//! Scene-description foundations: structured addresses (paths), asset
//! paths, value type names and property variability.
//!
//! A [`Path`] is the address of a scene entity, abstracted by its text.
//! A [`PathVector`] is an owning, index-addressable collection of paths
//! whose elements are handed out as borrowed [`PathRef`] views.

use vstd::prelude::*;
use vstd::string::StringExecFns;
use crate::tf::Token;
use crate::tf::TokenRef;

verus! {

/// A structured address of a scene entity, abstracted by its text.
pub struct Path {
    text: String,
}

impl View for Path {
    type V = Seq<char>;

    closed spec fn view(&self) -> Seq<char> {
        self.text@
    }
}

impl Path {
    /// Build a path from its text form.
    pub fn from_text(text: &str) -> (p: Path)
        ensures
            p@ == text@,
    {
        Path { text: String::from_str(text) }
    }

    /// The path's text.
    pub fn text(&self) -> (t: &str)
        ensures
            t@ == self@,
    {
        self.text.as_str()
    }

    /// Whether this path addresses the same entity as `other`.
    pub fn equals(&self, other: &Path) -> (r: bool)
        ensures
            r == (self@ == other@),
    {
        self.text.eq(&other.text)
    }
}

impl Clone for Path {
    fn clone(&self) -> (p: Path)
        ensures
            p@ == self@,
    {
        Path { text: self.text.clone() }
    }
}

/// A borrowed view of a [`Path`] owned by a container or a record;
/// carries no release obligation.
pub struct PathRef<'a> {
    target: &'a Path,
}

impl<'a> View for PathRef<'a> {
    type V = Seq<char>;

    closed spec fn view(&self) -> Seq<char> {
        self.target@
    }
}

impl<'a> PathRef<'a> {
    /// The viewed path's text.
    pub fn text(&self) -> (t: &'a str)
        ensures
            t@ == self@,
    {
        self.target.text()
    }

    /// The path this view borrows from.
    pub fn path(&self) -> (p: &'a Path)
        ensures
            p@ == self@,
    {
        self.target
    }
}

/// An owning, index-addressable collection of paths.
pub struct PathVector {
    items: Vec<Path>,
}

impl View for PathVector {
    type V = Seq<Seq<char>>;

    closed spec fn view(&self) -> Seq<Seq<char>> {
        self.items@.map_values(|p: Path| p@)
    }
}

impl PathVector {
    /// An empty path collection.
    pub fn new() -> (v: PathVector)
        ensures
            v@ =~= Seq::<Seq<char>>::empty(),
    {
        PathVector { items: Vec::new() }
    }

    /// Take ownership of a vector of paths.
    pub fn from_paths(items: Vec<Path>) -> (v: PathVector)
        ensures
            v@ == items@.map_values(|p: Path| p@),
    {
        PathVector { items }
    }

    /// The number of paths held.
    pub fn size(&self) -> (n: usize)
        ensures
            n == self@.len(),
    {
        self.items.len()
    }

    /// A borrowed view of the path at `index`.
    pub fn at(&self, index: usize) -> (r: PathRef<'_>)
        requires
            index < self@.len(),
        ensures
            r@ == self@[index as int],
    {
        PathRef { target: &self.items[index] }
    }

    /// A restartable forward iterator over the held paths.
    pub fn iter(&self) -> (it: PathVectorIterator<'_>)
        ensures
            it.wf(),
            it@ == self@,
            it.position() == 0,
    {
        let end = self.items.len();
        PathVectorIterator { vec: self, current: 0, end }
    }
}

impl Default for PathVector {
    /// An empty path collection.
    fn default() -> (v: PathVector)
        ensures
            v@ =~= Seq::<Seq<char>>::empty(),
    {
        PathVector::new()
    }
}

/// A restartable forward iterator over a [`PathVector`]; holds only an
/// index, never a native cursor, so a fresh call to `iter` starts over.
pub struct PathVectorIterator<'a> {
    vec: &'a PathVector,
    current: usize,
    end: usize,
}

impl<'a> View for PathVectorIterator<'a> {
    type V = Seq<Seq<char>>;

    closed spec fn view(&self) -> Seq<Seq<char>> {
        self.vec@
    }
}

impl<'a> PathVectorIterator<'a> {
    /// The iterator never steps outside its collection.
    pub closed spec fn wf(&self) -> bool {
        self.current <= self.end && self.end == self.vec@.len()
    }

    /// How many items have been produced so far.
    pub closed spec fn position(&self) -> int {
        self.current as int
    }

    /// The next path view, or `None` once every element was produced.
    pub fn next(&mut self) -> (r: Option<PathRef<'a>>)
        requires
            old(self).wf(),
        ensures
            final(self).wf(),
            final(self)@ == old(self)@,
            if old(self).position() < old(self)@.len() {
                final(self).position() == old(self).position() + 1
                    && (r matches Some(p) && p@ == old(self)@[old(self).position()])
            } else {
                final(self).position() == old(self).position() && r is None
            },
    {
        if self.current == self.end {
            None
        } else {
            let cur = self.current;
            self.current = cur + 1;
            Some(self.vec.at(cur))
        }
    }
}

/// The asset-path value payload: an authored asset locator together
/// with the resolved form the asset system produced for it.
pub struct AssetPath {
    asset: String,
    resolved: String,
}

/// Abstraction of an [`AssetPath`]: both texts.
pub struct AssetPathView {
    pub asset: Seq<char>,
    pub resolved: Seq<char>,
}

impl View for AssetPath {
    type V = AssetPathView;

    closed spec fn view(&self) -> AssetPathView {
        AssetPathView { asset: self.asset@, resolved: self.resolved@ }
    }
}

impl AssetPath {
    /// Build an asset path from its authored and resolved texts.
    pub fn new(asset: &str, resolved: &str) -> (p: AssetPath)
        ensures
            p@.asset == asset@,
            p@.resolved == resolved@,
    {
        AssetPath { asset: String::from_str(asset), resolved: String::from_str(resolved) }
    }

    /// The authored asset locator.
    pub fn asset_path(&self) -> (t: &str)
        ensures
            t@ == self@.asset,
    {
        self.asset.as_str()
    }

    /// The resolved locator.
    pub fn resolved_path(&self) -> (t: &str)
        ensures
            t@ == self@.resolved,
    {
        self.resolved.as_str()
    }

    /// A borrowed view of this asset path.
    pub fn as_ref(&self) -> (r: AssetPathRef<'_>)
        ensures
            r@ == self@,
    {
        AssetPathRef { target: self }
    }
}

impl Clone for AssetPath {
    fn clone(&self) -> (p: AssetPath)
        ensures
            p@ == self@,
    {
        let r = AssetPath { asset: self.asset.clone(), resolved: self.resolved.clone() };
        assert(r@ == self@);
        r
    }
}

/// A borrowed view of an [`AssetPath`] owned elsewhere.
pub struct AssetPathRef<'a> {
    target: &'a AssetPath,
}

impl<'a> View for AssetPathRef<'a> {
    type V = AssetPathView;

    closed spec fn view(&self) -> AssetPathView {
        self.target@
    }
}

impl<'a> AssetPathRef<'a> {
    /// The authored asset locator.
    pub fn asset_path(&self) -> (t: &'a str)
        ensures
            t@ == self@.asset,
    {
        self.target.asset_path()
    }

    /// The resolved locator.
    pub fn resolved_path(&self) -> (t: &'a str)
        ensures
            t@ == self@.resolved,
    {
        self.target.resolved_path()
    }
}

/// The declared type of an attribute's value, abstracted by its name
/// token's text and its role token's text.
pub struct ValueTypeName {
    name: Token,
    role: Token,
}

/// Abstraction of a [`ValueTypeName`]: the name and role texts.
pub struct ValueTypeNameView {
    pub name: Seq<char>,
    pub role: Seq<char>,
}

impl View for ValueTypeName {
    type V = ValueTypeNameView;

    closed spec fn view(&self) -> ValueTypeNameView {
        ValueTypeNameView { name: self.name@, role: self.role@ }
    }
}

impl ValueTypeName {
    /// Build a value type name from its name and role tokens.
    pub fn new(name: Token, role: Token) -> (v: ValueTypeName)
        ensures
            v@.name == name@,
            v@.role == role@,
    {
        ValueTypeName { name, role }
    }

    /// The type name as an owned token.
    pub fn as_token(&self) -> (t: Token)
        ensures
            t@ == self@.name,
    {
        self.name.clone()
    }

    /// A borrowed view of the role token (empty when none was recorded).
    pub fn role(&self) -> (t: TokenRef<'_>)
        ensures
            t@ == self@.role,
    {
        self.role.as_ref()
    }
}

/// Whether an attribute's value may vary over time or is uniform.
#[derive(Clone, Copy, PartialEq, Eq, Structural, Debug)]
pub enum Variability {
    Varying,
    Uniform,
}

} // verus!

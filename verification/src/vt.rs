//! The polymorphic value container and its payload types.
//!
//! A [`Value`] holds at most one payload out of a fixed, closed set of
//! variants: scalars, fixed-size vectors, tokens, asset paths and
//! homogeneous arrays.  The active variant is never statically known to
//! a caller; it is discovered through a probe-then-extract API
//! ([`ValueMember::is_holding`], the `as_*` extractors), where probing
//! for a variant the value does not hold is an expected, silent `None`.
//!
//! Floating-point payloads are carried as IEEE-754 bit patterns
//! ([`Float32`], [`Float64`] and the fixed-size vector types), so every
//! payload is a plain, comparable datum.

use vstd::prelude::*;
use vstd::slice::slice_to_vec;
use crate::sdf::AssetPath;
use crate::sdf::AssetPathRef;
use crate::sdf::AssetPathView;
use crate::tf::Token;
use crate::tf::TokenRef;

verus! {

/// A single-precision scalar, stored as its IEEE-754 bit pattern.
#[derive(Clone, Copy, PartialEq, Eq, Structural, Debug)]
pub struct Float32 {
    pub bits: u32,
}

/// A double-precision scalar, stored as its IEEE-754 bit pattern.
#[derive(Clone, Copy, PartialEq, Eq, Structural, Debug)]
pub struct Float64 {
    pub bits: u64,
}

/// A two-component single-precision vector, as bit patterns.
#[derive(Clone, Copy, PartialEq, Eq, Structural, Debug)]
pub struct Vec2f {
    pub x: u32,
    pub y: u32,
}

/// A three-component single-precision vector, as bit patterns.
#[derive(Clone, Copy, PartialEq, Eq, Structural, Debug)]
pub struct Vec3f {
    pub x: u32,
    pub y: u32,
    pub z: u32,
}

/// A three-component double-precision vector, as bit patterns.
#[derive(Clone, Copy, PartialEq, Eq, Structural, Debug)]
pub struct Vec3d {
    pub x: u64,
    pub y: u64,
    pub z: u64,
}

/// A four-component single-precision vector, as bit patterns.
#[derive(Clone, Copy, PartialEq, Eq, Structural, Debug)]
pub struct Vec4f {
    pub x: u32,
    pub y: u32,
    pub z: u32,
    pub w: u32,
}

/// An owning, index-addressable array of tokens.
pub struct TokenArray {
    items: Vec<Token>,
}

impl View for TokenArray {
    type V = Seq<Seq<char>>;

    closed spec fn view(&self) -> Seq<Seq<char>> {
        self.items@.map_values(|t: Token| t@)
    }
}

impl TokenArray {
    /// Take ownership of a vector of tokens.
    pub fn from_tokens(items: Vec<Token>) -> (a: TokenArray)
        ensures
            a@ == items@.map_values(|t: Token| t@),
    {
        TokenArray { items }
    }

    /// The number of tokens held.
    pub fn size(&self) -> (n: usize)
        ensures
            n == self@.len(),
    {
        self.items.len()
    }

    /// A borrowed view of the token at `index`.
    pub fn at(&self, index: usize) -> (r: TokenRef<'_>)
        requires
            index < self@.len(),
        ensures
            r@ == self@[index as int],
    {
        self.items[index].as_ref()
    }

    /// A restartable forward iterator over the held tokens.
    pub fn iter(&self) -> (it: TokenArrayIterator<'_>)
        ensures
            it.wf(),
            it@ == self@,
            it.position() == 0,
    {
        let end = self.items.len();
        TokenArrayIterator { vec: self, current: 0, end }
    }
}

impl Clone for TokenArray {
    fn clone(&self) -> (a: TokenArray)
        ensures
            a@ == self@,
    {
        let mut items: Vec<Token> = Vec::new();
        let n = self.items.len();
        for i in 0..n
            invariant
                n == self.items.len(),
                items@.len() == i,
                forall|k: int| 0 <= k < i ==> items@[k]@ == self.items@[k]@,
        {
            items.push(self.items[i].clone());
        }
        let a = TokenArray { items };
        assert(a@ =~= self@);
        a
    }
}

/// A restartable forward iterator over a [`TokenArray`]; holds only an
/// index, so a fresh call to `iter` starts over at the beginning.
pub struct TokenArrayIterator<'a> {
    vec: &'a TokenArray,
    current: usize,
    end: usize,
}

impl<'a> View for TokenArrayIterator<'a> {
    type V = Seq<Seq<char>>;

    closed spec fn view(&self) -> Seq<Seq<char>> {
        self.vec@
    }
}

impl<'a> TokenArrayIterator<'a> {
    /// The iterator never steps outside its array.
    pub closed spec fn wf(&self) -> bool {
        self.current <= self.end && self.end == self.vec@.len()
    }

    /// How many items have been produced so far.
    pub closed spec fn position(&self) -> int {
        self.current as int
    }

    /// The next token view, or `None` once every element was produced.
    pub fn next(&mut self) -> (r: Option<TokenRef<'a>>)
        requires
            old(self).wf(),
        ensures
            final(self).wf(),
            final(self)@ == old(self)@,
            if old(self).position() < old(self)@.len() {
                final(self).position() == old(self).position() + 1
                    && (r matches Some(t) && t@ == old(self)@[old(self).position()])
            } else {
                final(self).position() == old(self).position() && r is None
            },
    {
        if self.current == self.end {
            None
        } else {
            let cur = self.current;
            self.current = cur + 1;
            Some(self.vec.at(cur))
        }
    }
}

/// A borrowed view of a [`TokenArray`] owned by a [`Value`].
pub struct TokenArrayRef<'a> {
    target: &'a TokenArray,
}

impl<'a> View for TokenArrayRef<'a> {
    type V = Seq<Seq<char>>;

    closed spec fn view(&self) -> Seq<Seq<char>> {
        self.target@
    }
}

impl<'a> TokenArrayRef<'a> {
    /// The array this view borrows from.
    pub fn array(&self) -> (a: &'a TokenArray)
        ensures
            a@ == self@,
    {
        self.target
    }
}

/// An owning array of signed integers.
pub struct IntArray {
    items: Vec<i32>,
}

impl View for IntArray {
    type V = Seq<i32>;

    closed spec fn view(&self) -> Seq<i32> {
        self.items@
    }
}

impl IntArray {
    /// Take ownership of a vector of integers.
    pub fn from_items(items: Vec<i32>) -> (a: IntArray)
        ensures
            a@ == items@,
    {
        IntArray { items }
    }

    /// The number of elements held.
    pub fn size(&self) -> (n: usize)
        ensures
            n == self@.len(),
    {
        self.items.len()
    }

    /// The element at `index`.
    pub fn at(&self, index: usize) -> (r: i32)
        requires
            index < self@.len(),
        ensures
            r == self@[index as int],
    {
        self.items[index]
    }

    /// A borrowed view of the whole element storage.
    pub fn as_slice(&self) -> (s: &[i32])
        ensures
            s@ == self@,
    {
        self.items.as_slice()
    }
}

impl Clone for IntArray {
    fn clone(&self) -> (a: IntArray)
        ensures
            a@ == self@,
    {
        IntArray { items: slice_to_vec(self.items.as_slice()) }
    }
}

/// A borrowed view of an [`IntArray`] owned by a [`Value`].
pub struct IntArrayRef<'a> {
    target: &'a IntArray,
}

impl<'a> View for IntArrayRef<'a> {
    type V = Seq<i32>;

    closed spec fn view(&self) -> Seq<i32> {
        self.target@
    }
}

impl<'a> IntArrayRef<'a> {
    /// The array this view borrows from.
    pub fn array(&self) -> (a: &'a IntArray)
        ensures
            a@ == self@,
    {
        self.target
    }
}

/// An owning array of single-precision scalars.
pub struct FloatArray {
    items: Vec<Float32>,
}

impl View for FloatArray {
    type V = Seq<Float32>;

    closed spec fn view(&self) -> Seq<Float32> {
        self.items@
    }
}

impl FloatArray {
    /// Take ownership of a vector of scalars.
    pub fn from_items(items: Vec<Float32>) -> (a: FloatArray)
        ensures
            a@ == items@,
    {
        FloatArray { items }
    }

    /// The number of elements held.
    pub fn size(&self) -> (n: usize)
        ensures
            n == self@.len(),
    {
        self.items.len()
    }

    /// The element at `index`.
    pub fn at(&self, index: usize) -> (r: Float32)
        requires
            index < self@.len(),
        ensures
            r == self@[index as int],
    {
        self.items[index]
    }

    /// A borrowed view of the whole element storage.
    pub fn as_slice(&self) -> (s: &[Float32])
        ensures
            s@ == self@,
    {
        self.items.as_slice()
    }
}

impl Clone for FloatArray {
    fn clone(&self) -> (a: FloatArray)
        ensures
            a@ == self@,
    {
        FloatArray { items: slice_to_vec(self.items.as_slice()) }
    }
}

/// A borrowed view of a [`FloatArray`] owned by a [`Value`].
pub struct FloatArrayRef<'a> {
    target: &'a FloatArray,
}

impl<'a> View for FloatArrayRef<'a> {
    type V = Seq<Float32>;

    closed spec fn view(&self) -> Seq<Float32> {
        self.target@
    }
}

impl<'a> FloatArrayRef<'a> {
    /// The array this view borrows from.
    pub fn array(&self) -> (a: &'a FloatArray)
        ensures
            a@ == self@,
    {
        self.target
    }
}

/// An owning array of double-precision scalars.
pub struct DoubleArray {
    items: Vec<Float64>,
}

impl View for DoubleArray {
    type V = Seq<Float64>;

    closed spec fn view(&self) -> Seq<Float64> {
        self.items@
    }
}

impl DoubleArray {
    /// Take ownership of a vector of scalars.
    pub fn from_items(items: Vec<Float64>) -> (a: DoubleArray)
        ensures
            a@ == items@,
    {
        DoubleArray { items }
    }

    /// The number of elements held.
    pub fn size(&self) -> (n: usize)
        ensures
            n == self@.len(),
    {
        self.items.len()
    }

    /// The element at `index`.
    pub fn at(&self, index: usize) -> (r: Float64)
        requires
            index < self@.len(),
        ensures
            r == self@[index as int],
    {
        self.items[index]
    }

    /// A borrowed view of the whole element storage.
    pub fn as_slice(&self) -> (s: &[Float64])
        ensures
            s@ == self@,
    {
        self.items.as_slice()
    }
}

impl Clone for DoubleArray {
    fn clone(&self) -> (a: DoubleArray)
        ensures
            a@ == self@,
    {
        DoubleArray { items: slice_to_vec(self.items.as_slice()) }
    }
}

/// A borrowed view of a [`DoubleArray`] owned by a [`Value`].
pub struct DoubleArrayRef<'a> {
    target: &'a DoubleArray,
}

impl<'a> View for DoubleArrayRef<'a> {
    type V = Seq<Float64>;

    closed spec fn view(&self) -> Seq<Float64> {
        self.target@
    }
}

impl<'a> DoubleArrayRef<'a> {
    /// The array this view borrows from.
    pub fn array(&self) -> (a: &'a DoubleArray)
        ensures
            a@ == self@,
    {
        self.target
    }
}

/// An owning array of two-component vectors.
pub struct Vec2Array {
    items: Vec<Vec2f>,
}

impl View for Vec2Array {
    type V = Seq<Vec2f>;

    closed spec fn view(&self) -> Seq<Vec2f> {
        self.items@
    }
}

impl Vec2Array {
    /// Take ownership of a vector of elements.
    pub fn from_items(items: Vec<Vec2f>) -> (a: Vec2Array)
        ensures
            a@ == items@,
    {
        Vec2Array { items }
    }

    /// The number of elements held.
    pub fn size(&self) -> (n: usize)
        ensures
            n == self@.len(),
    {
        self.items.len()
    }

    /// The element at `index`.
    pub fn at(&self, index: usize) -> (r: Vec2f)
        requires
            index < self@.len(),
        ensures
            r == self@[index as int],
    {
        self.items[index]
    }

    /// A borrowed view of the whole element storage.
    pub fn as_slice(&self) -> (s: &[Vec2f])
        ensures
            s@ == self@,
    {
        self.items.as_slice()
    }
}

impl Clone for Vec2Array {
    fn clone(&self) -> (a: Vec2Array)
        ensures
            a@ == self@,
    {
        Vec2Array { items: slice_to_vec(self.items.as_slice()) }
    }
}

/// A borrowed view of a [`Vec2Array`] owned by a [`Value`].
pub struct Vec2ArrayRef<'a> {
    target: &'a Vec2Array,
}

impl<'a> View for Vec2ArrayRef<'a> {
    type V = Seq<Vec2f>;

    closed spec fn view(&self) -> Seq<Vec2f> {
        self.target@
    }
}

impl<'a> Vec2ArrayRef<'a> {
    /// The array this view borrows from.
    pub fn array(&self) -> (a: &'a Vec2Array)
        ensures
            a@ == self@,
    {
        self.target
    }
}

/// An owning array of three-component vectors.
pub struct Vec3Array {
    items: Vec<Vec3f>,
}

impl View for Vec3Array {
    type V = Seq<Vec3f>;

    closed spec fn view(&self) -> Seq<Vec3f> {
        self.items@
    }
}

impl Vec3Array {
    /// Take ownership of a vector of elements.
    pub fn from_items(items: Vec<Vec3f>) -> (a: Vec3Array)
        ensures
            a@ == items@,
    {
        Vec3Array { items }
    }

    /// The number of elements held.
    pub fn size(&self) -> (n: usize)
        ensures
            n == self@.len(),
    {
        self.items.len()
    }

    /// The element at `index`.
    pub fn at(&self, index: usize) -> (r: Vec3f)
        requires
            index < self@.len(),
        ensures
            r == self@[index as int],
    {
        self.items[index]
    }

    /// A borrowed view of the whole element storage.
    pub fn as_slice(&self) -> (s: &[Vec3f])
        ensures
            s@ == self@,
    {
        self.items.as_slice()
    }
}

impl Clone for Vec3Array {
    fn clone(&self) -> (a: Vec3Array)
        ensures
            a@ == self@,
    {
        Vec3Array { items: slice_to_vec(self.items.as_slice()) }
    }
}

/// A borrowed view of a [`Vec3Array`] owned by a [`Value`].
pub struct Vec3ArrayRef<'a> {
    target: &'a Vec3Array,
}

impl<'a> View for Vec3ArrayRef<'a> {
    type V = Seq<Vec3f>;

    closed spec fn view(&self) -> Seq<Vec3f> {
        self.target@
    }
}

impl<'a> Vec3ArrayRef<'a> {
    /// The array this view borrows from.
    pub fn array(&self) -> (a: &'a Vec3Array)
        ensures
            a@ == self@,
    {
        self.target
    }
}

/// An owning array of four-component vectors.
pub struct Vec4Array {
    items: Vec<Vec4f>,
}

impl View for Vec4Array {
    type V = Seq<Vec4f>;

    closed spec fn view(&self) -> Seq<Vec4f> {
        self.items@
    }
}

impl Vec4Array {
    /// Take ownership of a vector of elements.
    pub fn from_items(items: Vec<Vec4f>) -> (a: Vec4Array)
        ensures
            a@ == items@,
    {
        Vec4Array { items }
    }

    /// The number of elements held.
    pub fn size(&self) -> (n: usize)
        ensures
            n == self@.len(),
    {
        self.items.len()
    }

    /// The element at `index`.
    pub fn at(&self, index: usize) -> (r: Vec4f)
        requires
            index < self@.len(),
        ensures
            r == self@[index as int],
    {
        self.items[index]
    }

    /// A borrowed view of the whole element storage.
    pub fn as_slice(&self) -> (s: &[Vec4f])
        ensures
            s@ == self@,
    {
        self.items.as_slice()
    }
}

impl Clone for Vec4Array {
    fn clone(&self) -> (a: Vec4Array)
        ensures
            a@ == self@,
    {
        Vec4Array { items: slice_to_vec(self.items.as_slice()) }
    }
}

/// A borrowed view of a [`Vec4Array`] owned by a [`Value`].
pub struct Vec4ArrayRef<'a> {
    target: &'a Vec4Array,
}

impl<'a> View for Vec4ArrayRef<'a> {
    type V = Seq<Vec4f>;

    closed spec fn view(&self) -> Seq<Vec4f> {
        self.target@
    }
}

impl<'a> Vec4ArrayRef<'a> {
    /// The array this view borrows from.
    pub fn array(&self) -> (a: &'a Vec4Array)
        ensures
            a@ == self@,
    {
        self.target
    }
}

/// Abstraction of a [`Value`]: which variant is active, and its payload.
pub enum ValueView {
    Empty,
    Bool(bool),
    Int(i32),
    Float(Float32),
    Double(Float64),
    Vec2f(Vec2f),
    Vec3f(Vec3f),
    Vec3d(Vec3d),
    Vec4f(Vec4f),
    Token(Seq<char>),
    AssetPath(AssetPathView),
    TokenArray(Seq<Seq<char>>),
    IntArray(Seq<i32>),
    FloatArray(Seq<Float32>),
    DoubleArray(Seq<Float64>),
    Vec2fArray(Seq<Vec2f>),
    Vec3fArray(Seq<Vec3f>),
    Vec4fArray(Seq<Vec4f>),
}

enum ValueData {
    Empty,
    Bool(bool),
    Int(i32),
    Float(Float32),
    Double(Float64),
    Vec2f(Vec2f),
    Vec3f(Vec3f),
    Vec3d(Vec3d),
    Vec4f(Vec4f),
    Token(Token),
    AssetPath(AssetPath),
    TokenArray(TokenArray),
    IntArray(IntArray),
    FloatArray(FloatArray),
    DoubleArray(DoubleArray),
    Vec2fArray(Vec2Array),
    Vec3fArray(Vec3Array),
    Vec4fArray(Vec4Array),
}

fn clone_value_data(d: &ValueData) -> (r: ValueData)
    ensures
        data_view(&r) == data_view(d),
{
    match d {
            ValueData::Empty => ValueData::Empty,
            ValueData::Bool(b) => ValueData::Bool(*b),
            ValueData::Int(i) => ValueData::Int(*i),
            ValueData::Float(f) => ValueData::Float(*f),
            ValueData::Double(f) => ValueData::Double(*f),
            ValueData::Vec2f(v) => ValueData::Vec2f(*v),
            ValueData::Vec3f(v) => ValueData::Vec3f(*v),
            ValueData::Vec3d(v) => ValueData::Vec3d(*v),
            ValueData::Vec4f(v) => ValueData::Vec4f(*v),
            ValueData::Token(t) => ValueData::Token(t.clone()),
            ValueData::AssetPath(a) => ValueData::AssetPath(a.clone()),
            ValueData::TokenArray(a) => ValueData::TokenArray(a.clone()),
            ValueData::IntArray(a) => ValueData::IntArray(a.clone()),
            ValueData::FloatArray(a) => ValueData::FloatArray(a.clone()),
            ValueData::DoubleArray(a) => ValueData::DoubleArray(a.clone()),
            ValueData::Vec2fArray(a) => ValueData::Vec2fArray(a.clone()),
            ValueData::Vec3fArray(a) => ValueData::Vec3fArray(a.clone()),
            ValueData::Vec4fArray(a) => ValueData::Vec4fArray(a.clone()),
    }
}

spec fn data_view(d: &ValueData) -> ValueView {
    match d {
        ValueData::Empty => ValueView::Empty,
        ValueData::Bool(b) => ValueView::Bool(*b),
        ValueData::Int(i) => ValueView::Int(*i),
        ValueData::Float(f) => ValueView::Float(*f),
        ValueData::Double(f) => ValueView::Double(*f),
        ValueData::Vec2f(v) => ValueView::Vec2f(*v),
        ValueData::Vec3f(v) => ValueView::Vec3f(*v),
        ValueData::Vec3d(v) => ValueView::Vec3d(*v),
        ValueData::Vec4f(v) => ValueView::Vec4f(*v),
        ValueData::Token(t) => ValueView::Token(t@),
        ValueData::AssetPath(a) => ValueView::AssetPath(a@),
        ValueData::TokenArray(a) => ValueView::TokenArray(a@),
        ValueData::IntArray(a) => ValueView::IntArray(a@),
        ValueData::FloatArray(a) => ValueView::FloatArray(a@),
        ValueData::DoubleArray(a) => ValueView::DoubleArray(a@),
        ValueData::Vec2fArray(a) => ValueView::Vec2fArray(a@),
        ValueData::Vec3fArray(a) => ValueView::Vec3fArray(a@),
        ValueData::Vec4fArray(a) => ValueView::Vec4fArray(a@),
    }
}

/// The runtime-polymorphic value container.  Freshly constructed it is
/// empty; once populated it holds exactly one variant of the closed set
/// and never transitions back to empty.  Extraction never mutates it.
pub struct Value {
    data: ValueData,
}

impl View for Value {
    type V = ValueView;

    closed spec fn view(&self) -> ValueView {
        data_view(&self.data)
    }
}

impl Clone for Value {
    fn clone(&self) -> (v: Value)
        ensures
            v@ == self@,
    {
        Value { data: clone_value_data(&self.data) }
    }
}

impl Value {
    /// A freshly constructed, empty value.
    pub fn new() -> (v: Value)
        ensures
            v@ == ValueView::Empty,
    {
        Value { data: ValueData::Empty }
    }

    /// Whether the value is still empty (holds no payload).
    pub fn is_empty(&self) -> (r: bool)
        ensures
            r == (self@ is Empty),
    {
        match &self.data {
            ValueData::Empty => true,
            _ => false,
        }
    }

    /// Probe and extract generically through a [`ValueMember`] type.
    pub fn get<T: ValueMember>(&self) -> (r: Option<&T>)
        ensures
            match T::member_view(self@) {
                Some(m) => r matches Some(x) && *x == m,
                None => r is None,
            },
    {
        T::get(self)
    }

    /// A value holding a token.
    pub fn from_token(token: &Token) -> (v: Value)
        ensures
            v@ == ValueView::Token(token@),
    {
        Value { data: ValueData::Token(token.clone()) }
    }

    /// A value holding an asset path.
    pub fn from_asset_path(path: &AssetPath) -> (v: Value)
        ensures
            v@ == ValueView::AssetPath(path@),
    {
        Value { data: ValueData::AssetPath(path.clone()) }
    }

    /// A value holding a token array.
    pub fn from_token_array(array: TokenArray) -> (v: Value)
        ensures
            v@ == ValueView::TokenArray(array@),
    {
        Value { data: ValueData::TokenArray(array) }
    }

    /// A value holding an integer array.
    pub fn from_int_array(array: IntArray) -> (v: Value)
        ensures
            v@ == ValueView::IntArray(array@),
    {
        Value { data: ValueData::IntArray(array) }
    }

    /// A value holding a single-precision array.
    pub fn from_float_array(array: FloatArray) -> (v: Value)
        ensures
            v@ == ValueView::FloatArray(array@),
    {
        Value { data: ValueData::FloatArray(array) }
    }

    /// A value holding a double-precision array.
    pub fn from_double_array(array: DoubleArray) -> (v: Value)
        ensures
            v@ == ValueView::DoubleArray(array@),
    {
        Value { data: ValueData::DoubleArray(array) }
    }

    /// A value holding a two-component vector array.
    pub fn from_vec2_array(array: Vec2Array) -> (v: Value)
        ensures
            v@ == ValueView::Vec2fArray(array@),
    {
        Value { data: ValueData::Vec2fArray(array) }
    }

    /// A value holding a three-component vector array.
    pub fn from_vec3_array(array: Vec3Array) -> (v: Value)
        ensures
            v@ == ValueView::Vec3fArray(array@),
    {
        Value { data: ValueData::Vec3fArray(array) }
    }

    /// A value holding a four-component vector array.
    pub fn from_vec4_array(array: Vec4Array) -> (v: Value)
        ensures
            v@ == ValueView::Vec4fArray(array@),
    {
        Value { data: ValueData::Vec4fArray(array) }
    }

    /// Extract a borrowed token view when a token is held.
    pub fn as_token(&self) -> (r: Option<TokenRef<'_>>)
        ensures
            match self@ {
                ValueView::Token(s) => r matches Some(t) && t@ == s,
                _ => r is None,
            },
    {
        match &self.data {
            ValueData::Token(t) => Some(t.as_ref()),
            _ => None,
        }
    }

    /// Extract a borrowed asset-path view when one is held.
    pub fn as_asset_path(&self) -> (r: Option<AssetPathRef<'_>>)
        ensures
            match self@ {
                ValueView::AssetPath(a) => r matches Some(p) && p@ == a,
                _ => r is None,
            },
    {
        match &self.data {
            ValueData::AssetPath(a) => Some(a.as_ref()),
            _ => None,
        }
    }

    /// Extract a borrowed token-array view when one is held.
    pub fn as_token_array(&self) -> (r: Option<TokenArrayRef<'_>>)
        ensures
            match self@ {
                ValueView::TokenArray(s) => r matches Some(a) && a@ == s,
                _ => r is None,
            },
    {
        match &self.data {
            ValueData::TokenArray(a) => Some(TokenArrayRef { target: a }),
            _ => None,
        }
    }

    /// Extract a borrowed integer-array view when one is held.
    pub fn as_int_array(&self) -> (r: Option<IntArrayRef<'_>>)
        ensures
            match self@ {
                ValueView::IntArray(s) => r matches Some(a) && a@ == s,
                _ => r is None,
            },
    {
        match &self.data {
            ValueData::IntArray(a) => Some(IntArrayRef { target: a }),
            _ => None,
        }
    }

    /// Extract a borrowed single-precision array view when one is held.
    pub fn as_float_array(&self) -> (r: Option<FloatArrayRef<'_>>)
        ensures
            match self@ {
                ValueView::FloatArray(s) => r matches Some(a) && a@ == s,
                _ => r is None,
            },
    {
        match &self.data {
            ValueData::FloatArray(a) => Some(FloatArrayRef { target: a }),
            _ => None,
        }
    }

    /// Extract a borrowed double-precision array view when one is held.
    pub fn as_double_array(&self) -> (r: Option<DoubleArrayRef<'_>>)
        ensures
            match self@ {
                ValueView::DoubleArray(s) => r matches Some(a) && a@ == s,
                _ => r is None,
            },
    {
        match &self.data {
            ValueData::DoubleArray(a) => Some(DoubleArrayRef { target: a }),
            _ => None,
        }
    }

    /// Extract a borrowed two-component vector array view when one is held.
    pub fn as_vec2_array(&self) -> (r: Option<Vec2ArrayRef<'_>>)
        ensures
            match self@ {
                ValueView::Vec2fArray(s) => r matches Some(a) && a@ == s,
                _ => r is None,
            },
    {
        match &self.data {
            ValueData::Vec2fArray(a) => Some(Vec2ArrayRef { target: a }),
            _ => None,
        }
    }

    /// Extract a borrowed three-component vector array view when one is held.
    pub fn as_vec3_array(&self) -> (r: Option<Vec3ArrayRef<'_>>)
        ensures
            match self@ {
                ValueView::Vec3fArray(s) => r matches Some(a) && a@ == s,
                _ => r is None,
            },
    {
        match &self.data {
            ValueData::Vec3fArray(a) => Some(Vec3ArrayRef { target: a }),
            _ => None,
        }
    }

    /// Extract a borrowed four-component vector array view when one is held.
    pub fn as_vec4_array(&self) -> (r: Option<Vec4ArrayRef<'_>>)
        ensures
            match self@ {
                ValueView::Vec4fArray(s) => r matches Some(a) && a@ == s,
                _ => r is None,
            },
    {
        match &self.data {
            ValueData::Vec4fArray(a) => Some(Vec4ArrayRef { target: a }),
            _ => None,
        }
    }

    /// The declared-type token text of the active variant (empty for an
    /// empty value), used to check a write against an attribute's
    /// declared value type.
    pub fn type_token(&self) -> (r: &'static str)
        ensures
            r@ == type_token_of(self@),
    {
        match &self.data {
            ValueData::Empty => "",
            ValueData::Bool(_) => "bool",
            ValueData::Int(_) => "int",
            ValueData::Float(_) => "float",
            ValueData::Double(_) => "double",
            ValueData::Vec2f(_) => "float2",
            ValueData::Vec3f(_) => "float3",
            ValueData::Vec3d(_) => "double3",
            ValueData::Vec4f(_) => "float4",
            ValueData::Token(_) => "token",
            ValueData::AssetPath(_) => "asset",
            ValueData::TokenArray(_) => "token[]",
            ValueData::IntArray(_) => "int[]",
            ValueData::FloatArray(_) => "float[]",
            ValueData::DoubleArray(_) => "double[]",
            ValueData::Vec2fArray(_) => "float2[]",
            ValueData::Vec3fArray(_) => "float3[]",
            ValueData::Vec4fArray(_) => "float4[]",
        }
    }
}

/// The declared-type token text that goes with each variant.
pub open spec fn type_token_of(v: ValueView) -> Seq<char> {
    match v {
        ValueView::Empty => ""@,
        ValueView::Bool(_) => "bool"@,
        ValueView::Int(_) => "int"@,
        ValueView::Float(_) => "float"@,
        ValueView::Double(_) => "double"@,
        ValueView::Vec2f(_) => "float2"@,
        ValueView::Vec3f(_) => "float3"@,
        ValueView::Vec3d(_) => "double3"@,
        ValueView::Vec4f(_) => "float4"@,
        ValueView::Token(_) => "token"@,
        ValueView::AssetPath(_) => "asset"@,
        ValueView::TokenArray(_) => "token[]"@,
        ValueView::IntArray(_) => "int[]"@,
        ValueView::FloatArray(_) => "float[]"@,
        ValueView::DoubleArray(_) => "double[]"@,
        ValueView::Vec2fArray(_) => "float2[]"@,
        ValueView::Vec3fArray(_) => "float3[]"@,
        ValueView::Vec4fArray(_) => "float4[]"@,
    }
}

/// A borrowed view of a [`Value`] owned elsewhere.
pub struct ValueRef<'a> {
    target: &'a Value,
}

impl<'a> View for ValueRef<'a> {
    type V = ValueView;

    closed spec fn view(&self) -> ValueView {
        self.target@
    }
}

impl<'a> ValueRef<'a> {
    /// Borrow a value.
    pub fn new(target: &'a Value) -> (r: ValueRef<'a>)
        ensures
            r@ == target@,
    {
        ValueRef { target }
    }

    /// The value this view borrows from.
    pub fn value(&self) -> (v: &'a Value)
        ensures
            v@ == self@,
    {
        self.target
    }
}

/// A scalar type that can live inside a [`Value`]: it can be wrapped
/// into a value, probed for, and extracted again.  The proof obligation
/// `lemma_wrap_member` ties the two spec functions together: extracting
/// from a wrapped member gives the member back.
pub trait ValueMember: Sized {
    /// The value view that wraps this member.
    spec fn wrap(m: Self) -> ValueView;

    /// The member held by a value view, when the view holds this variant.
    spec fn member_view(v: ValueView) -> Option<Self>;

    /// Wrapping then extracting is the identity.
    proof fn lemma_wrap_member(m: Self)
        ensures
            Self::member_view(Self::wrap(m)) == Some(m),
    ;

    /// Extract a borrowed member when this variant is held.
    fn get(value: &Value) -> (r: Option<&Self>)
        ensures
            match Self::member_view(value@) {
                Some(m) => r matches Some(x) && *x == m,
                None => r is None,
            },
    ;

    /// Whether this variant is held.
    fn is_holding(value: &Value) -> (r: bool)
        ensures
            r == (Self::member_view(value@) is Some),
    ;

    /// Wrap a member into an owning value.
    fn from(member: &Self) -> (r: Value)
        ensures
            r@ == Self::wrap(*member),
    ;
}

impl ValueMember for i32 {
    open spec fn wrap(m: i32) -> ValueView {
        ValueView::Int(m)
    }

    open spec fn member_view(v: ValueView) -> Option<i32> {
        match v {
            ValueView::Int(i) => Some(i),
            _ => None,
        }
    }

    proof fn lemma_wrap_member(m: i32) {
    }

    fn get(value: &Value) -> (r: Option<&i32>) {
        match &value.data {
            ValueData::Int(i) => Some(i),
            _ => None,
        }
    }

    fn is_holding(value: &Value) -> (r: bool) {
        match &value.data {
            ValueData::Int(_) => true,
            _ => false,
        }
    }

    fn from(member: &i32) -> (r: Value) {
        Value { data: ValueData::Int(*member) }
    }
}

impl ValueMember for bool {
    open spec fn wrap(m: bool) -> ValueView {
        ValueView::Bool(m)
    }

    open spec fn member_view(v: ValueView) -> Option<bool> {
        match v {
            ValueView::Bool(b) => Some(b),
            _ => None,
        }
    }

    proof fn lemma_wrap_member(m: bool) {
    }

    fn get(value: &Value) -> (r: Option<&bool>) {
        match &value.data {
            ValueData::Bool(b) => Some(b),
            _ => None,
        }
    }

    fn is_holding(value: &Value) -> (r: bool) {
        match &value.data {
            ValueData::Bool(_) => true,
            _ => false,
        }
    }

    fn from(member: &bool) -> (r: Value) {
        Value { data: ValueData::Bool(*member) }
    }
}

impl ValueMember for Float32 {
    open spec fn wrap(m: Float32) -> ValueView {
        ValueView::Float(m)
    }

    open spec fn member_view(v: ValueView) -> Option<Float32> {
        match v {
            ValueView::Float(f) => Some(f),
            _ => None,
        }
    }

    proof fn lemma_wrap_member(m: Float32) {
    }

    fn get(value: &Value) -> (r: Option<&Float32>) {
        match &value.data {
            ValueData::Float(f) => Some(f),
            _ => None,
        }
    }

    fn is_holding(value: &Value) -> (r: bool) {
        match &value.data {
            ValueData::Float(_) => true,
            _ => false,
        }
    }

    fn from(member: &Float32) -> (r: Value) {
        Value { data: ValueData::Float(*member) }
    }
}

impl ValueMember for Float64 {
    open spec fn wrap(m: Float64) -> ValueView {
        ValueView::Double(m)
    }

    open spec fn member_view(v: ValueView) -> Option<Float64> {
        match v {
            ValueView::Double(f) => Some(f),
            _ => None,
        }
    }

    proof fn lemma_wrap_member(m: Float64) {
    }

    fn get(value: &Value) -> (r: Option<&Float64>) {
        match &value.data {
            ValueData::Double(f) => Some(f),
            _ => None,
        }
    }

    fn is_holding(value: &Value) -> (r: bool) {
        match &value.data {
            ValueData::Double(_) => true,
            _ => false,
        }
    }

    fn from(member: &Float64) -> (r: Value) {
        Value { data: ValueData::Double(*member) }
    }
}

impl ValueMember for Vec2f {
    open spec fn wrap(m: Vec2f) -> ValueView {
        ValueView::Vec2f(m)
    }

    open spec fn member_view(v: ValueView) -> Option<Vec2f> {
        match v {
            ValueView::Vec2f(x) => Some(x),
            _ => None,
        }
    }

    proof fn lemma_wrap_member(m: Vec2f) {
    }

    fn get(value: &Value) -> (r: Option<&Vec2f>) {
        match &value.data {
            ValueData::Vec2f(x) => Some(x),
            _ => None,
        }
    }

    fn is_holding(value: &Value) -> (r: bool) {
        match &value.data {
            ValueData::Vec2f(_) => true,
            _ => false,
        }
    }

    fn from(member: &Vec2f) -> (r: Value) {
        Value { data: ValueData::Vec2f(*member) }
    }
}

impl ValueMember for Vec3f {
    open spec fn wrap(m: Vec3f) -> ValueView {
        ValueView::Vec3f(m)
    }

    open spec fn member_view(v: ValueView) -> Option<Vec3f> {
        match v {
            ValueView::Vec3f(x) => Some(x),
            _ => None,
        }
    }

    proof fn lemma_wrap_member(m: Vec3f) {
    }

    fn get(value: &Value) -> (r: Option<&Vec3f>) {
        match &value.data {
            ValueData::Vec3f(x) => Some(x),
            _ => None,
        }
    }

    fn is_holding(value: &Value) -> (r: bool) {
        match &value.data {
            ValueData::Vec3f(_) => true,
            _ => false,
        }
    }

    fn from(member: &Vec3f) -> (r: Value) {
        Value { data: ValueData::Vec3f(*member) }
    }
}

impl ValueMember for Vec3d {
    open spec fn wrap(m: Vec3d) -> ValueView {
        ValueView::Vec3d(m)
    }

    open spec fn member_view(v: ValueView) -> Option<Vec3d> {
        match v {
            ValueView::Vec3d(x) => Some(x),
            _ => None,
        }
    }

    proof fn lemma_wrap_member(m: Vec3d) {
    }

    fn get(value: &Value) -> (r: Option<&Vec3d>) {
        match &value.data {
            ValueData::Vec3d(x) => Some(x),
            _ => None,
        }
    }

    fn is_holding(value: &Value) -> (r: bool) {
        match &value.data {
            ValueData::Vec3d(_) => true,
            _ => false,
        }
    }

    fn from(member: &Vec3d) -> (r: Value) {
        Value { data: ValueData::Vec3d(*member) }
    }
}

impl ValueMember for Vec4f {
    open spec fn wrap(m: Vec4f) -> ValueView {
        ValueView::Vec4f(m)
    }

    open spec fn member_view(v: ValueView) -> Option<Vec4f> {
        match v {
            ValueView::Vec4f(x) => Some(x),
            _ => None,
        }
    }

    proof fn lemma_wrap_member(m: Vec4f) {
    }

    fn get(value: &Value) -> (r: Option<&Vec4f>) {
        match &value.data {
            ValueData::Vec4f(x) => Some(x),
            _ => None,
        }
    }

    fn is_holding(value: &Value) -> (r: bool) {
        match &value.data {
            ValueData::Vec4f(_) => true,
            _ => false,
        }
    }

    fn from(member: &Vec4f) -> (r: Value) {
        Value { data: ValueData::Vec4f(*member) }
    }
}

/// Each populated variant is claimed by at most one scalar member type:
/// when a value view holds one scalar member, probing it for any of the
/// other scalar member types comes back empty.
pub proof fn lemma_members_mutually_exclusive(v: ValueView)
    ensures
        (<i32 as ValueMember>::member_view(v) is Some) ==> {
            &&& <bool as ValueMember>::member_view(v) is None
            &&& <Float32 as ValueMember>::member_view(v) is None
            &&& <Float64 as ValueMember>::member_view(v) is None
            &&& <Vec2f as ValueMember>::member_view(v) is None
            &&& <Vec3f as ValueMember>::member_view(v) is None
            &&& <Vec3d as ValueMember>::member_view(v) is None
            &&& <Vec4f as ValueMember>::member_view(v) is None
        },
        (<bool as ValueMember>::member_view(v) is Some) ==> {
            &&& <i32 as ValueMember>::member_view(v) is None
            &&& <Float32 as ValueMember>::member_view(v) is None
            &&& <Float64 as ValueMember>::member_view(v) is None
            &&& <Vec2f as ValueMember>::member_view(v) is None
            &&& <Vec3f as ValueMember>::member_view(v) is None
            &&& <Vec3d as ValueMember>::member_view(v) is None
            &&& <Vec4f as ValueMember>::member_view(v) is None
        },
        (<Float32 as ValueMember>::member_view(v) is Some) ==> {
            &&& <i32 as ValueMember>::member_view(v) is None
            &&& <bool as ValueMember>::member_view(v) is None
            &&& <Float64 as ValueMember>::member_view(v) is None
            &&& <Vec2f as ValueMember>::member_view(v) is None
            &&& <Vec3f as ValueMember>::member_view(v) is None
            &&& <Vec3d as ValueMember>::member_view(v) is None
            &&& <Vec4f as ValueMember>::member_view(v) is None
        },
        (<Float64 as ValueMember>::member_view(v) is Some) ==> {
            &&& <i32 as ValueMember>::member_view(v) is None
            &&& <bool as ValueMember>::member_view(v) is None
            &&& <Float32 as ValueMember>::member_view(v) is None
            &&& <Vec2f as ValueMember>::member_view(v) is None
            &&& <Vec3f as ValueMember>::member_view(v) is None
            &&& <Vec3d as ValueMember>::member_view(v) is None
            &&& <Vec4f as ValueMember>::member_view(v) is None
        },
        (<Vec2f as ValueMember>::member_view(v) is Some) ==> {
            &&& <i32 as ValueMember>::member_view(v) is None
            &&& <bool as ValueMember>::member_view(v) is None
            &&& <Float32 as ValueMember>::member_view(v) is None
            &&& <Float64 as ValueMember>::member_view(v) is None
            &&& <Vec3f as ValueMember>::member_view(v) is None
            &&& <Vec3d as ValueMember>::member_view(v) is None
            &&& <Vec4f as ValueMember>::member_view(v) is None
        },
        (<Vec3f as ValueMember>::member_view(v) is Some) ==> {
            &&& <i32 as ValueMember>::member_view(v) is None
            &&& <bool as ValueMember>::member_view(v) is None
            &&& <Float32 as ValueMember>::member_view(v) is None
            &&& <Float64 as ValueMember>::member_view(v) is None
            &&& <Vec2f as ValueMember>::member_view(v) is None
            &&& <Vec3d as ValueMember>::member_view(v) is None
            &&& <Vec4f as ValueMember>::member_view(v) is None
        },
        (<Vec3d as ValueMember>::member_view(v) is Some) ==> {
            &&& <i32 as ValueMember>::member_view(v) is None
            &&& <bool as ValueMember>::member_view(v) is None
            &&& <Float32 as ValueMember>::member_view(v) is None
            &&& <Float64 as ValueMember>::member_view(v) is None
            &&& <Vec2f as ValueMember>::member_view(v) is None
            &&& <Vec3f as ValueMember>::member_view(v) is None
            &&& <Vec4f as ValueMember>::member_view(v) is None
        },
        (<Vec4f as ValueMember>::member_view(v) is Some) ==> {
            &&& <i32 as ValueMember>::member_view(v) is None
            &&& <bool as ValueMember>::member_view(v) is None
            &&& <Float32 as ValueMember>::member_view(v) is None
            &&& <Float64 as ValueMember>::member_view(v) is None
            &&& <Vec2f as ValueMember>::member_view(v) is None
            &&& <Vec3f as ValueMember>::member_view(v) is None
            &&& <Vec3d as ValueMember>::member_view(v) is None
        },
{
}

/// Wrapping a scalar member and probing the result: the member's own
/// probe holds and extraction gives the member back, while every other
/// scalar member type reports the variant as not held.
pub proof fn lemma_scalar_round_trip<T: ValueMember>(m: T)
    ensures
        T::member_view(T::wrap(m)) == Some(m),
{
    T::lemma_wrap_member(m);
}

} // verus!

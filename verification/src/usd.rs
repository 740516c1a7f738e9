//! Stage, prim and property handles over an in-memory scene store.
//!
//! A [`StageRefPtr`] is the root context for one open scene; it hands
//! out [`Prim`] handles that navigate the tree through sibling and
//! subtree ranges and expose their properties.  Handles that navigate
//! borrow the scene they were opened from; handles that carry values
//! ([`Attribute`], [`Relationship`]) own a copy of their record, so a
//! write through them never aliases the stage.  An invalid handle is
//! never produced: a failed open or lookup returns a typed error
//! instead.

use vstd::prelude::*;
use vstd::string::StrSliceExecFns;
use vstd::string::StringExecFns;
use crate::scene::SceneData;
use crate::scene::SceneSource;
use crate::scene::children_of;
use crate::scene::children_vec;
use crate::scene::find_prim;
use crate::scene::has_location;
use crate::scene::has_prim_path;
use crate::scene::preorder;
use crate::scene::prim_count;
use crate::scene::prim_path;
use crate::scene::scene_wf;
use crate::scene::source_wf;
use crate::scene::subtree_seq;
use crate::scene::attr_wf;
use crate::scene::paths_view;
use crate::scene::payload_authored;
use crate::scene::prop_count;
use crate::scene::samples_view;
use crate::scene::targets_view;
use crate::scene::value_opt_view;
use crate::scene::AttrData;
use crate::scene::PropData;
use crate::scene::PropPayload;
use crate::scene::PropRecord;
use crate::scene::TimeSample;
use crate::sdf::Path;
use crate::sdf::PathVector;
use crate::sdf::ValueTypeName;
use crate::vt::type_token_of;
use crate::vt::Value;
use crate::vt::ValueView;
use crate::tf::Token;
use crate::tf::TokenRef;

verus! {

/// A failed stage operation, carrying what was asked for.
#[derive(Debug)]
pub enum Error {
    /// The location could not be resolved to a scene.
    StageOpen { filename: String },
    /// No prim occupies the queried path.
    NoPrimAtPath { path: String },
}

/// A time ordinate: either the distinguished default ordinate or a
/// numeric time, carried as an IEEE-754 bit pattern and compared
/// exactly.
#[derive(Clone, Copy, PartialEq, Eq, Structural, Debug)]
pub struct TimeCode {
    /// Whether this is the default (timeless) ordinate.
    pub is_default: bool,
    /// The numeric ordinate's bit pattern (0 for the default ordinate).
    pub bits: u64,
}

impl TimeCode {
    /// A numeric time ordinate from its bit pattern.
    pub fn from_bits(bits: u64) -> (t: TimeCode)
        ensures
            !t.is_default,
            t.bits == bits,
    {
        TimeCode { is_default: false, bits }
    }
}

impl Default for TimeCode {
    /// The default (timeless) ordinate.
    fn default() -> (t: TimeCode)
        ensures
            t.is_default,
            t.bits == 0,
    {
        TimeCode { is_default: true, bits: 0 }
    }
}

/// The capability set shared by every addressable scene entity:
/// an address, a name and a display name.
pub trait Object {
    /// The handle points at an existing entity.
    spec fn obj_wf(&self) -> bool;

    /// The entity's address text.
    spec fn obj_path(&self) -> Seq<char>;

    /// The entity's own name.
    spec fn obj_name(&self) -> Seq<char>;

    /// The entity's display name (empty when not set).
    spec fn obj_display_name(&self) -> Seq<char>;

    /// The entity's address, as an owned path.
    fn path(&self) -> (p: Path)
        requires
            self.obj_wf(),
        ensures
            p@ == self.obj_path(),
    ;

    /// A borrowed view of the entity's name.
    fn name(&self) -> (t: TokenRef<'_>)
        requires
            self.obj_wf(),
        ensures
            t@ == self.obj_name(),
    ;

    /// The entity's display name (empty when not set).
    fn display_name(&self) -> (d: String)
        requires
            self.obj_wf(),
        ensures
            d@ == self.obj_display_name(),
    ;
}

/// Whether property record `p` is an attribute of prim `i` named
/// `name`.
pub open spec fn attr_candidate(s: &SceneData, p: int, i: int, name: Seq<char>) -> bool {
    &&& crate::scene::is_prop_of(s, p, i)
    &&& s.props@[p].info.name@ == name
    &&& s.props@[p].payload is Attribute
}

/// Whether prim `i` carries an attribute property named `name`.
pub open spec fn has_attribute_named(s: &SceneData, i: int, name: Seq<char>) -> bool {
    exists|p: int| attr_candidate(s, p, i, name)
}

/// The stage entry point: opening a scene from a catalog of sources.
pub struct Stage {}

impl Stage {
    /// Open the scene stored under `location` in `source`.  Yields a
    /// root context exactly when the location resolves; yields the
    /// open failure, carrying the attempted location, otherwise.  An
    /// invalid handle is never returned.
    pub fn open<'a>(source: &'a SceneSource, location: &str) -> (r: Result<
        StageRefPtr<'a>,
        Error,
    >)
        requires
            source_wf(source),
        ensures
            match r {
                Ok(stage) => {
                    &&& has_location(source, location@)
                    &&& stage.wf()
                    &&& exists|e: int|
                        0 <= e < source.entries@.len()
                            && (#[trigger] source.entries@[e]).location@ == location@
                            && stage.scene == &source.entries@[e].scene
                },
                Err(e) => {
                    &&& !has_location(source, location@)
                    &&& e matches Error::StageOpen { filename } && filename@ == location@
                },
            },
    {
        match source.lookup(location) {
            Some(scene) => Ok(StageRefPtr { scene }),
            None => Err(Error::StageOpen { filename: String::from_str(location) }),
        }
    }
}

/// An owning root context over one open scene.
pub struct StageRefPtr<'a> {
    /// The scene this stage presents.
    pub scene: &'a SceneData,
}

impl<'a> StageRefPtr<'a> {
    /// The stage presents a well-formed scene.
    pub open spec fn wf(&self) -> bool {
        scene_wf(self.scene)
    }

    /// The pseudo-root prim; always retrievable from a valid stage.
    pub fn pseudo_root(&self) -> (p: Prim<'a>)
        requires
            self.wf(),
        ensures
            p.wf(),
            p.scene == self.scene,
            p.index == 0,
    {
        Prim { scene: self.scene, index: 0 }
    }

    /// Look up the prim at a path.  Yields the prim exactly when one
    /// occupies the path; yields the lookup failure, carrying the
    /// queried path, otherwise.
    pub fn prim_at_path(&self, path: &Path) -> (r: Result<Prim<'a>, Error>)
        requires
            self.wf(),
        ensures
            match r {
                Ok(p) => {
                    &&& p.wf()
                    &&& p.scene == self.scene
                    &&& prim_path(self.scene, p.index as int) == path@
                },
                Err(e) => {
                    &&& !has_prim_path(self.scene, path@)
                    &&& e matches Error::NoPrimAtPath { path: t } && t@ == path@
                },
            },
    {
        match find_prim(self.scene, path) {
            Some(index) => Ok(Prim { scene: self.scene, index }),
            None => Err(Error::NoPrimAtPath { path: String::from_str(path.text()) }),
        }
    }

    /// Persist the stage.  The in-memory scene store is the source of
    /// truth here, so there is nothing to flush; the call is kept as a
    /// fire-and-forget operation with no observable result.
    pub fn save(&self) {
    }
}

/// An addressable node of the scene hierarchy: an opaque handle into
/// the stage's prim arena.
pub struct Prim<'a> {
    /// The scene the handle points into.
    pub scene: &'a SceneData,
    /// The handle's node index.
    pub index: usize,
}

impl<'a> Prim<'a> {
    /// The handle points at an existing prim of a well-formed scene.
    pub open spec fn wf(&self) -> bool {
        scene_wf(self.scene) && (self.index as int) < prim_count(self.scene)
    }

    /// A borrowed view of the prim's schema type name.
    pub fn type_token(&self) -> (t: TokenRef<'a>)
        requires
            self.wf(),
        ensures
            t@ == self.scene.prims@[self.index as int].type_token@,
    {
        self.scene.prims[self.index].type_token.as_ref()
    }

    /// The prim's children, as a lazily stepped sibling range.
    pub fn children(&self) -> (r: PrimSiblingRange<'a>)
        requires
            self.wf(),
        ensures
            r.wf(),
            r.scene == self.scene,
            r.remaining() == children_of(self.scene, self.index as int),
    {
        let items = children_vec(self.scene, self.index);
        let end = items.len();
        proof {
            crate::scene::lemma_children_of(self.scene, self.index as int);
            assert(items@.subrange(0, end as int) =~= items@);
        }
        PrimSiblingRange { scene: self.scene, items, current: 0, end }
    }

    /// The prim's properties, as an owning indexed collection in
    /// authoring order.
    pub fn properties(&self) -> (r: PropertyVector<'a>)
        requires
            self.wf(),
        ensures
            r.wf(),
            r.scene == self.scene,
            r.items@ == crate::scene::props_of(self.scene, self.index as int),
    {
        let items = crate::scene::prop_indices(self.scene, self.index);
        proof {
            crate::scene::lemma_props_upto(self.scene, self.index as int, prop_count(self.scene));
        }
        PropertyVector { scene: self.scene, items }
    }

    /// Find an attribute property of this prim by name.  Yields an
    /// owned attribute handle exactly when the prim carries an
    /// attribute of that name.
    pub fn attribute_named(&self, name: &str) -> (r: Option<Attribute>)
        requires
            self.wf(),
        ensures
            r is Some <==> has_attribute_named(self.scene, self.index as int, name@),
            r matches Some(at) ==> at.wf() && at.info.name@ == name@ && exists|p: int|
                {
                    &&& attr_candidate(self.scene, p, self.index as int, name@)
                    &&& (#[trigger] self.scene.props@[p]).payload matches PropPayload::Attribute(a)
                    &&& at.info.path@ == self.scene.props@[p].info.path@
                    &&& at.data.type_token@ == a.type_token@
                    &&& at.data.variability == a.variability
                    &&& value_opt_view(&at.data.default_value) == value_opt_view(&a.default_value)
                    &&& samples_view(at.data.samples@) == samples_view(a.samples@)
                },
    {
        let n = self.scene.props.len();
        for p in 0..n
            invariant
                self.wf(),
                n == self.scene.props@.len(),
                forall|k: int|
                    0 <= k < p ==> !attr_candidate(self.scene, k, self.index as int, name@),
        {
            let rec = &self.scene.props[p];
            let is_attr = matches!(&rec.payload, PropPayload::Attribute(_));
            if rec.info.prim == self.index && is_attr && rec.info.name.text_equals(name) {
                let property = Property { scene: self.scene, prop: p };
                match property.property_kind() {
                    PropertyKind::Attribute(at) => {
                        proof {
                            assert(attr_candidate(self.scene, p as int, self.index as int, name@));
                        }
                        return Some(at);
                    },
                    PropertyKind::Relationship(_) => {
                        proof {
                            assert(false);
                        }
                    },
                }
            }
        }
        None
    }

    /// The raw handle (node index) identifying this prim within its
    /// stage; two handles for the same prim compare equal by it.
    pub fn ptr(&self) -> (r: usize)
        ensures
            r == self.index,
    {
        self.index
    }
}

impl<'a> Object for Prim<'a> {
    open spec fn obj_wf(&self) -> bool {
        self.wf()
    }

    open spec fn obj_path(&self) -> Seq<char> {
        prim_path(self.scene, self.index as int)
    }

    open spec fn obj_name(&self) -> Seq<char> {
        self.scene.prims@[self.index as int].name@
    }

    open spec fn obj_display_name(&self) -> Seq<char> {
        self.scene.prims@[self.index as int].display_name@
    }

    fn path(&self) -> (p: Path) {
        self.scene.prims[self.index].path.clone()
    }

    fn name(&self) -> (t: TokenRef<'_>) {
        self.scene.prims[self.index].name.as_ref()
    }

    fn display_name(&self) -> (d: String) {
        self.scene.prims[self.index].display_name.clone()
    }
}

/// A lazy, forward-only, non-restartable traversal over the children
/// of one prim, in declaration order.  Stepping hands out an owned
/// prim handle per child; a fresh range must be requested from the
/// prim to traverse again.
pub struct PrimSiblingRange<'a> {
    /// The scene the range traverses.
    pub scene: &'a SceneData,
    /// The child indices the range was built over.
    pub items: Vec<usize>,
    /// The cursor: position of the next child to produce.
    pub current: usize,
    /// One past the last position.
    pub end: usize,
}

impl<'a> PrimSiblingRange<'a> {
    /// The cursor stays inside the range and every listed index is a
    /// valid prim of a well-formed scene.
    pub open spec fn wf(&self) -> bool {
        &&& scene_wf(self.scene)
        &&& self.current <= self.end
        &&& self.end == self.items@.len()
        &&& forall|k: int|
            0 <= k < self.items@.len()
                ==> ((#[trigger] self.items@[k]) as int) < prim_count(self.scene)
    }

    /// The child indices not yet produced, in production order.
    pub open spec fn remaining(&self) -> Seq<usize> {
        self.items@.subrange(self.current as int, self.end as int)
    }

    /// The cursor at the start of the range.
    pub fn begin(&self) -> (it: PrimSiblingIterator)
        ensures
            it.pos == 0,
    {
        PrimSiblingIterator { pos: 0 }
    }

    /// The cursor one past the end of the range.
    pub fn end(&self) -> (it: PrimSiblingIterator)
        ensures
            it.pos == self.items@.len(),
    {
        PrimSiblingIterator { pos: self.items.len() }
    }

    /// Produce the next child as an owned handle, then advance; `None`
    /// exactly when the range is exhausted, with no further effect.
    pub fn next(&mut self) -> (r: Option<Prim<'a>>)
        requires
            old(self).wf(),
        ensures
            final(self).wf(),
            final(self).scene == old(self).scene,
            final(self).items == old(self).items,
            if old(self).remaining().len() > 0 {
                &&& final(self).remaining() == old(self).remaining().drop_first()
                &&& r matches Some(p) && p.wf() && p.scene == old(self).scene
                    && p.index == old(self).remaining()[0]
            } else {
                final(self).remaining() == old(self).remaining() && r is None
            },
    {
        if self.current == self.end {
            None
        } else {
            let cur = self.current;
            self.current = cur + 1;
            proof {
                assert(final(self).remaining() =~= old(self).remaining().drop_first());
            }
            Some(Prim { scene: self.scene, index: self.items[cur] })
        }
    }
}

/// A cursor position within a sibling range; positions of the same
/// range compare equal exactly when they denote the same place.
#[derive(Clone, Copy, PartialEq, Eq, Structural, Debug)]
pub struct PrimSiblingIterator {
    /// The position, counted from the start of the range.
    pub pos: usize,
}

/// A lazy, forward-only, non-restartable pre-order traversal over a
/// whole subtree: the root prim first, then each child's subtree in
/// declaration order.
pub struct PrimRange<'a> {
    /// The scene the range traverses.
    pub scene: &'a SceneData,
    /// The pre-order listing the range was built over.
    pub items: Vec<usize>,
    /// The cursor: position of the next prim to produce.
    pub current: usize,
    /// One past the last position.
    pub end: usize,
}

impl<'a> PrimRange<'a> {
    /// The cursor stays inside the range and every listed index is a
    /// valid prim of a well-formed scene.
    pub open spec fn wf(&self) -> bool {
        &&& scene_wf(self.scene)
        &&& self.current <= self.end
        &&& self.end == self.items@.len()
        &&& forall|k: int|
            0 <= k < self.items@.len()
                ==> ((#[trigger] self.items@[k]) as int) < prim_count(self.scene)
    }

    /// The prim indices not yet produced, in production order.
    pub open spec fn remaining(&self) -> Seq<usize> {
        self.items@.subrange(self.current as int, self.end as int)
    }

    /// The pre-order subtree range rooted at a prim.
    pub fn from_prim(prim: &Prim<'a>) -> (r: PrimRange<'a>)
        requires
            prim.wf(),
        ensures
            r.wf(),
            r.scene == prim.scene,
            r.remaining() == subtree_seq(prim.scene, prim.index as int),
    {
        let items = preorder(prim.scene, prim.index);
        let end = items.len();
        proof {
            assert(items@.subrange(0, end as int) =~= items@);
        }
        PrimRange { scene: prim.scene, items, current: 0, end }
    }

    /// The cursor at the start of the range.
    pub fn begin(&self) -> (it: PrimRangeIterator)
        ensures
            it.pos == 0,
    {
        PrimRangeIterator { pos: 0 }
    }

    /// The cursor one past the end of the range.
    pub fn end(&self) -> (it: PrimRangeIterator)
        ensures
            it.pos == self.items@.len(),
    {
        PrimRangeIterator { pos: self.items.len() }
    }

    /// Produce the next prim as an owned handle, then advance; `None`
    /// exactly when the range is exhausted, with no further effect.
    pub fn next(&mut self) -> (r: Option<Prim<'a>>)
        requires
            old(self).wf(),
        ensures
            final(self).wf(),
            final(self).scene == old(self).scene,
            final(self).items == old(self).items,
            if old(self).remaining().len() > 0 {
                &&& final(self).remaining() == old(self).remaining().drop_first()
                &&& r matches Some(p) && p.wf() && p.scene == old(self).scene
                    && p.index == old(self).remaining()[0]
            } else {
                final(self).remaining() == old(self).remaining() && r is None
            },
    {
        if self.current == self.end {
            None
        } else {
            let cur = self.current;
            self.current = cur + 1;
            proof {
                assert(final(self).remaining() =~= old(self).remaining().drop_first());
            }
            Some(Prim { scene: self.scene, index: self.items[cur] })
        }
    }
}

/// A cursor position within a subtree range; positions of the same
/// range compare equal exactly when they denote the same place.
#[derive(Clone, Copy, PartialEq, Eq, Structural, Debug)]
pub struct PrimRangeIterator {
    /// The position, counted from the start of the range.
    pub pos: usize,
}

/// A property name split at the namespace delimiter `:`: one segment
/// per delimiter-free run, with an empty segment for each empty run.
pub open spec fn split_at_colons(name: Seq<char>) -> Seq<Seq<char>>
    decreases name.len(),
{
    if name.len() == 0 {
        seq![Seq::<char>::empty()]
    } else if name.last() == ':' {
        split_at_colons(name.drop_last()).push(Seq::<char>::empty())
    } else {
        let prev = split_at_colons(name.drop_last());
        prev.update(prev.len() - 1, prev.last().push(name.last()))
    }
}

/// The part of a property name before its last namespace delimiter
/// (empty when the name has no delimiter).
pub open spec fn namespace_of(name: Seq<char>) -> Seq<char>
    decreases name.len(),
{
    if name.len() == 0 {
        Seq::empty()
    } else if name.last() == ':' {
        name.drop_last()
    } else {
        namespace_of(name.drop_last())
    }
}

/// The part of a property name after its last namespace delimiter
/// (the whole name when it has no delimiter).
pub open spec fn base_name_of(name: Seq<char>) -> Seq<char>
    decreases name.len(),
{
    if name.len() == 0 {
        Seq::empty()
    } else if name.last() == ':' {
        Seq::empty()
    } else {
        base_name_of(name.drop_last()).push(name.last())
    }
}

/// The abstraction of a list of owned strings: their texts.
pub open spec fn strings_view(s: Seq<String>) -> Seq<Seq<char>> {
    s.map_values(|x: String| x@)
}

/// Split a property name at the namespace delimiter `:`.
pub fn split_name_text(name: &str) -> (r: Vec<String>)
    ensures
        strings_view(r@) == split_at_colons(name@),
{
    let len = name.unicode_len();
    let mut segs: Vec<String> = Vec::new();
    let mut seg_start: usize = 0;
    proof {
        assert(name@.take(0) =~= Seq::<char>::empty());
        assert(name@.subrange(0, 0) =~= Seq::<char>::empty());
        assert(strings_view(segs@).push(name@.subrange(0, 0))
            =~= seq![Seq::<char>::empty()]);
    }
    for i in 0..len
        invariant
            seg_start <= i <= len,
            len == name@.len(),
            strings_view(segs@).push(name@.subrange(seg_start as int, i as int))
                == split_at_colons(name@.take(i as int)),
    {
        let ghost segs_pre = segs@;
        let ghost start_pre = seg_start as int;
        let c = name.get_char(i);
        if c == ':' {
            segs.push(String::from_str(name.substring_char(seg_start, i)));
            seg_start = i + 1;
        }
        proof {
            let whole = name@.take(i as int + 1);
            assert(whole.drop_last() =~= name@.take(i as int));
            assert(whole.last() == name@[i as int]);
            let prev = split_at_colons(name@.take(i as int));
            if c == ':' {
                assert(split_at_colons(whole) == prev.push(Seq::<char>::empty()));
                assert(strings_view(segs@)
                    =~= strings_view(segs_pre).push(name@.subrange(start_pre, i as int)));
                assert(name@.subrange(i as int + 1, i as int + 1) =~= Seq::<char>::empty());
                assert(strings_view(segs@).push(name@.subrange(
                    seg_start as int,
                    i as int + 1,
                )) =~= split_at_colons(whole));
            } else {
                assert(prev == strings_view(segs_pre).push(name@.subrange(start_pre, i as int)));
                assert(prev.len() >= 1);
                assert(prev.last() == name@.subrange(start_pre, i as int));
                assert(split_at_colons(whole)
                    == prev.update(prev.len() - 1, prev.last().push(name@[i as int])));
                assert(name@.subrange(start_pre, i as int).push(name@[i as int])
                    =~= name@.subrange(start_pre, i as int + 1));
                assert(prev.update(prev.len() - 1, name@.subrange(start_pre, i as int + 1))
                    =~= strings_view(segs_pre).push(name@.subrange(start_pre, i as int + 1)));
            }
        }
    }
    let tail = String::from_str(name.substring_char(seg_start, len));
    segs.push(tail);
    proof {
        assert(name@.take(len as int) =~= name@);
        assert(strings_view(segs@)
            =~= strings_view(segs@.drop_last()).push(name@.subrange(seg_start as int, len as int)));
    }
    segs
}

/// The text before the last namespace delimiter of a name.
pub fn namespace_text(name: &str) -> (r: String)
    ensures
        r@ == namespace_of(name@),
{
    let len = name.unicode_len();
    let mut j = len;
    proof {
        assert(name@.take(len as int) =~= name@);
    }
    while j > 0
        invariant
            j <= len,
            len == name@.len(),
            namespace_of(name@) == namespace_of(name@.take(j as int)),
        decreases j,
    {
        let c = name.get_char(j - 1);
        proof {
            let cur = name@.take(j as int);
            assert(cur.last() == name@[j as int - 1]);
            assert(cur.drop_last() =~= name@.take(j as int - 1));
        }
        if c == ':' {
            let r = String::from_str(name.substring_char(0, j - 1));
            proof {
                assert(name@.take(j as int).drop_last() =~= name@.subrange(0, j as int - 1));
            }
            return r;
        }
        j = j - 1;
    }
    proof {
        assert(name@.take(0) =~= Seq::<char>::empty());
    }
    String::new()
}

/// The text after the last namespace delimiter of a name.
pub fn base_name_text(name: &str) -> (r: String)
    ensures
        r@ == base_name_of(name@),
{
    let len = name.unicode_len();
    let mut j = len;
    proof {
        assert(name@.take(len as int) =~= name@);
        assert(base_name_of(name@) + name@.subrange(len as int, len as int)
            =~= base_name_of(name@));
    }
    while j > 0
        invariant
            j <= len,
            len == name@.len(),
            base_name_of(name@)
                == base_name_of(name@.take(j as int)) + name@.subrange(j as int, len as int),
        decreases j,
    {
        let c = name.get_char(j - 1);
        proof {
            let cur = name@.take(j as int);
            assert(cur.last() == name@[j as int - 1]);
            assert(cur.drop_last() =~= name@.take(j as int - 1));
        }
        if c == ':' {
            let r = String::from_str(name.substring_char(j, len));
            proof {
                assert(Seq::<char>::empty() + name@.subrange(j as int, len as int)
                    =~= name@.subrange(j as int, len as int));
            }
            return r;
        }
        proof {
            assert(base_name_of(name@.take(j as int - 1)).push(name@[j as int - 1])
                + name@.subrange(j as int, len as int)
                =~= base_name_of(name@.take(j as int - 1))
                    + name@.subrange(j as int - 1, len as int));
        }
        j = j - 1;
    }
    proof {
        assert(name@.take(0) =~= Seq::<char>::empty());
        assert(Seq::<char>::empty() + name@.subrange(0, len as int) =~= name@);
    }
    String::from_str(name)
}

/// The capability set shared by the property kinds: naming,
/// namespacing, authoring state and presentation grouping.
pub trait PropertyEx {
    /// The handle points at an existing property.
    spec fn prop_ex_wf(&self) -> bool;

    /// The property's full name.
    spec fn prop_full_name(&self) -> Seq<char>;

    /// Whether the property carries any authored opinion.
    spec fn prop_authored(&self) -> bool;

    /// The property's display group (empty when not set).
    spec fn prop_display_group(&self) -> Seq<char>;

    /// The name segment after the last namespace delimiter.
    fn base_name(&self) -> (t: Token)
        requires
            self.prop_ex_wf(),
        ensures
            t@ == base_name_of(self.prop_full_name()),
    ;

    /// The name part before the last namespace delimiter.
    fn namespace(&self) -> (t: Token)
        requires
            self.prop_ex_wf(),
        ensures
            t@ == namespace_of(self.prop_full_name()),
    ;

    /// Whether the property carries any authored opinion.
    fn is_authored(&self) -> (r: bool)
        requires
            self.prop_ex_wf(),
        ensures
            r == self.prop_authored(),
    ;

    /// The name split at every namespace delimiter.
    fn split_name(&self) -> (r: Vec<String>)
        requires
            self.prop_ex_wf(),
        ensures
            strings_view(r@) == split_at_colons(self.prop_full_name()),
    ;

    /// The property's display group (empty when not set).
    fn display_group(&self) -> (d: String)
        requires
            self.prop_ex_wf(),
        ensures
            d@ == self.prop_display_group(),
    ;
}

/// The value authored for a numeric ordinate, scanning the sample list
/// from the front.
pub open spec fn sample_lookup(samples: Seq<TimeSample>, bits: u64) -> Option<ValueView>
    decreases samples.len(),
{
    if samples.len() == 0 {
        None
    } else if samples[0].time == bits {
        Some(samples[0].value@)
    } else {
        sample_lookup(samples.drop_first(), bits)
    }
}

/// Appending a sample changes the lookup only for its own ordinate,
/// and only when that ordinate had no sample yet.
proof fn lemma_sample_lookup_push(samples: Seq<TimeSample>, x: TimeSample, bits: u64)
    ensures
        sample_lookup(samples.push(x), bits) == if sample_lookup(samples, bits) is Some {
            sample_lookup(samples, bits)
        } else if x.time == bits {
            Some(x.value@)
        } else {
            None
        },
    decreases samples.len(),
{
    if samples.len() == 0 {
        assert(samples.push(x).len() == 1);
        assert(samples.push(x)[0] == x);
        assert(samples.push(x).drop_first() =~= Seq::<TimeSample>::empty());
        assert(sample_lookup(Seq::<TimeSample>::empty(), bits) is None);
        assert(sample_lookup(samples, bits) is None);
        if x.time == bits {
            assert(sample_lookup(samples.push(x), bits) == Some(x.value@));
        } else {
            assert(sample_lookup(samples.push(x), bits)
                == sample_lookup(samples.push(x).drop_first(), bits));
            assert(sample_lookup(samples.push(x), bits) is None);
        }
    } else {
        assert(samples.push(x)[0] == samples[0]);
        assert(samples.push(x).drop_first() =~= samples.drop_first().push(x));
        lemma_sample_lookup_push(samples.drop_first(), x, bits);
    }
}

/// Replacing the sample at a position changes the lookup only for that
/// sample's ordinate, provided the replacement keeps the ordinate and
/// no earlier sample claims it.
proof fn lemma_sample_lookup_update(samples: Seq<TimeSample>, i: int, x: TimeSample, bits: u64)
    requires
        0 <= i < samples.len(),
        samples[i].time == x.time,
        forall|k: int| 0 <= k < i ==> (#[trigger] samples[k]).time != x.time,
    ensures
        sample_lookup(samples.update(i, x), bits) == if x.time == bits {
            Some(x.value@)
        } else {
            sample_lookup(samples, bits)
        },
    decreases samples.len(),
{
    if i == 0 {
        assert(samples.update(0, x)[0] == x);
        if x.time != bits {
            assert(samples.update(0, x).drop_first() =~= samples.drop_first());
        }
    } else {
        assert(samples.update(i, x)[0] == samples[0]);
        assert(samples.update(i, x).drop_first() =~= samples.drop_first().update(i - 1, x));
        assert(samples[0].time != x.time);
        assert forall|k: int| 0 <= k < i - 1
            implies (#[trigger] samples.drop_first()[k]).time != x.time by {
            assert(samples.drop_first()[k] == samples[k + 1]);
        }
        lemma_sample_lookup_update(samples.drop_first(), i - 1, x, bits);
    }
}

/// The value an attribute record presents at a time ordinate: the
/// sample authored exactly there when one exists, the default value
/// otherwise; the default ordinate always reads the default value.
pub open spec fn attr_value_at(a: &AttrData, time: TimeCode) -> Option<ValueView> {
    if time.is_default {
        value_opt_view(&a.default_value)
    } else {
        match sample_lookup(a.samples@, time.bits) {
            Some(v) => Some(v),
            None => value_opt_view(&a.default_value),
        }
    }
}

/// Whether an attribute record accepts a write of `v`: the value must
/// be populated and its variant's type token must equal the attribute's
/// declared value type.
pub open spec fn write_accepted(a: &AttrData, v: ValueView) -> bool {
    !(v is Empty) && type_token_of(v) == a.type_token@
}

/// A typed, optionally time-sampled value slot.  The handle owns a
/// copy of its record: reads and writes go against this copy, and a
/// write is checked against the declared value type by the store's
/// rule, never pre-validated by the caller.
pub struct Attribute {
    /// The identity of the property this handle was taken from.
    pub info: PropData,
    /// The owned value record.
    pub data: AttrData,
}

impl Attribute {
    /// Sample ordinates are pairwise distinct.
    pub open spec fn wf(&self) -> bool {
        attr_wf(&self.data)
    }

    /// The value at the default ordinate, if any is authored.
    pub fn get(&self) -> (r: Option<Value>)
        ensures
            match value_opt_view(&self.data.default_value) {
                Some(v) => r matches Some(w) && w@ == v,
                None => r is None,
            },
    {
        match &self.data.default_value {
            Some(v) => Some(v.clone()),
            None => None,
        }
    }

    /// The value at a time ordinate: the sample authored exactly there
    /// when one exists, the default value otherwise; `None` when
    /// neither is authored.
    pub fn get_at(&self, time: TimeCode) -> (r: Option<Value>)
        ensures
            match attr_value_at(&self.data, time) {
                Some(v) => r matches Some(w) && w@ == v,
                None => r is None,
            },
    {
        if time.is_default {
            return self.get();
        }
        proof {
            assert(self.data.samples@.skip(0) =~= self.data.samples@);
        }
        let n = self.data.samples.len();
        for i in 0..n
            invariant
                !time.is_default,
                n == self.data.samples@.len(),
                sample_lookup(self.data.samples@, time.bits)
                    == sample_lookup(self.data.samples@.skip(i as int), time.bits),
        {
            let ghost suffix = self.data.samples@.skip(i as int);
            proof {
                assert(suffix[0] == self.data.samples@[i as int]);
                assert(suffix.drop_first() =~= self.data.samples@.skip(i as int + 1));
            }
            if self.data.samples[i].time == time.bits {
                return Some(self.data.samples[i].value.clone());
            }
        }
        proof {
            assert(self.data.samples@.skip(n as int) =~= Seq::<TimeSample>::empty());
        }
        self.get()
    }

    /// The declared value type of this attribute.
    pub fn value_type(&self) -> (v: ValueTypeName)
        ensures
            v@.name == self.data.type_token@,
            v@.role =~= Seq::<char>::empty(),
    {
        proof {
            reveal_strlit("");
        }
        ValueTypeName::new(self.data.type_token.clone(), Token::new(""))
    }

    /// Write `value` at the default ordinate.  The write is accepted,
    /// and `true` returned, exactly when the store's type rule admits
    /// the value for this attribute; a rejected write changes nothing.
    pub fn set(&mut self, value: &Value) -> (r: bool)
        ensures
            r == write_accepted(&old(self).data, value@),
            final(self).wf() == old(self).wf(),
            final(self).info == old(self).info,
            final(self).data.type_token == old(self).data.type_token,
            final(self).data.variability == old(self).data.variability,
            final(self).data.samples == old(self).data.samples,
            if r {
                value_opt_view(&final(self).data.default_value) == Some(value@)
            } else {
                final(self).data.default_value == old(self).data.default_value
            },
    {
        if value.is_empty() {
            return false;
        }
        if !self.data.type_token.text_equals(value.type_token()) {
            return false;
        }
        self.data.default_value = Some(value.clone());
        proof {
            lemma_attr_wf_same_samples(&self.data, &old(self).data);
        }
        true
    }

    /// Write `value` at a time ordinate: at the default ordinate this
    /// writes the default value, at a numeric ordinate it authors or
    /// replaces the sample there, leaving every other ordinate's
    /// reading unchanged.  Acceptance follows the same type rule as
    /// [`Attribute::set`]; a rejected write changes nothing.
    pub fn set_at(&mut self, value: &Value, time: TimeCode) -> (r: bool)
        requires
            old(self).wf(),
        ensures
            final(self).wf(),
            r == write_accepted(&old(self).data, value@),
            final(self).info == old(self).info,
            final(self).data.type_token == old(self).data.type_token,
            final(self).data.variability == old(self).data.variability,
            !r ==> final(self).data.default_value == old(self).data.default_value
                && final(self).data.samples == old(self).data.samples,
            r && time.is_default ==> {
                &&& value_opt_view(&final(self).data.default_value) == Some(value@)
                &&& final(self).data.samples == old(self).data.samples
            },
            r && !time.is_default ==> {
                &&& final(self).data.default_value == old(self).data.default_value
                &&& sample_lookup(final(self).data.samples@, time.bits) == Some(value@)
                &&& forall|b: u64|
                    b != time.bits ==> #[trigger] sample_lookup(final(self).data.samples@, b)
                        == sample_lookup(old(self).data.samples@, b)
            },
    {
        if value.is_empty() {
            return false;
        }
        if !self.data.type_token.text_equals(value.type_token()) {
            return false;
        }
        if time.is_default {
            self.data.default_value = Some(value.clone());
            return true;
        }
        let sample = TimeSample { time: time.bits, value: value.clone() };
        let n = self.data.samples.len();
        for i in 0..n
            invariant
                !time.is_default,
                write_accepted(&old(self).data, value@),
                n == self.data.samples@.len(),
                *self == *old(self),
                old(self).wf(),
                sample.time == time.bits,
                sample.value@ == value@,
                forall|k: int|
                    0 <= k < i ==> (#[trigger] self.data.samples@[k]).time != time.bits,
        {
            if self.data.samples[i].time == time.bits {
                proof {
                    lemma_sample_lookup_update(self.data.samples@, i as int, sample, time.bits);
                    assert forall|b: u64| b != time.bits
                        implies #[trigger] sample_lookup(
                            self.data.samples@.update(i as int, sample), b)
                            == sample_lookup(self.data.samples@, b) by {
                        lemma_sample_lookup_update(self.data.samples@, i as int, sample, b);
                    }
                    assert forall|x: int, y: int|
                        0 <= x < y < self.data.samples@.update(i as int, sample).len()
                        implies (#[trigger] self.data.samples@.update(i as int, sample)[x]).time
                            != (#[trigger] self.data.samples@.update(i as int, sample)[y]).time by {
                        assert(self.data.samples@[x].time != self.data.samples@[y].time);
                    }
                }
                self.data.samples[i] = sample;
                return true;
            }
        }
        proof {
            lemma_sample_lookup_push(self.data.samples@, sample, time.bits);
            assert(sample_lookup(self.data.samples@, time.bits) is None) by {
                lemma_lookup_none_when_unclaimed(self.data.samples@, time.bits);
            }
            assert forall|b: u64| b != time.bits
                implies #[trigger] sample_lookup(self.data.samples@.push(sample), b)
                    == sample_lookup(self.data.samples@, b) by {
                lemma_sample_lookup_push(self.data.samples@, sample, b);
            }
            assert forall|x: int, y: int|
                0 <= x < y < self.data.samples@.push(sample).len()
                implies (#[trigger] self.data.samples@.push(sample)[x]).time
                    != (#[trigger] self.data.samples@.push(sample)[y]).time by {
                if y < self.data.samples@.len() {
                    assert(self.data.samples@[x].time != self.data.samples@[y].time);
                }
            }
        }
        self.data.samples.push(sample);
        true
    }
}

/// Attribute well-formedness depends on the sample list alone.
proof fn lemma_attr_wf_same_samples(a: &AttrData, b: &AttrData)
    requires
        a.samples == b.samples,
    ensures
        attr_wf(a) == attr_wf(b),
{
    if attr_wf(a) {
        assert forall|x: int, y: int| 0 <= x < y < b.samples@.len()
            implies (#[trigger] b.samples@[x]).time != (#[trigger] b.samples@[y]).time by {
            assert(a.samples@[x].time != a.samples@[y].time);
        }
    }
    if attr_wf(b) {
        assert forall|x: int, y: int| 0 <= x < y < a.samples@.len()
            implies (#[trigger] a.samples@[x]).time != (#[trigger] a.samples@[y]).time by {
            assert(b.samples@[x].time != b.samples@[y].time);
        }
    }
}

/// When no sample claims an ordinate, the lookup is empty.
proof fn lemma_lookup_none_when_unclaimed(samples: Seq<TimeSample>, bits: u64)
    requires
        forall|k: int| 0 <= k < samples.len() ==> (#[trigger] samples[k]).time != bits,
    ensures
        sample_lookup(samples, bits) is None,
    decreases samples.len(),
{
    if samples.len() > 0 {
        assert forall|k: int| 0 <= k < samples.drop_first().len()
            implies (#[trigger] samples.drop_first()[k]).time != bits by {
            assert(samples.drop_first()[k] == samples[k + 1]);
        }
        lemma_lookup_none_when_unclaimed(samples.drop_first(), bits);
    }
}

impl Object for Attribute {
    open spec fn obj_wf(&self) -> bool {
        true
    }

    open spec fn obj_path(&self) -> Seq<char> {
        self.info.path@
    }

    open spec fn obj_name(&self) -> Seq<char> {
        self.info.name@
    }

    open spec fn obj_display_name(&self) -> Seq<char> {
        self.info.display_name@
    }

    fn path(&self) -> (p: Path) {
        self.info.path.clone()
    }

    fn name(&self) -> (t: TokenRef<'_>) {
        self.info.name.as_ref()
    }

    fn display_name(&self) -> (d: String) {
        self.info.display_name.clone()
    }
}

impl PropertyEx for Attribute {
    open spec fn prop_ex_wf(&self) -> bool {
        true
    }

    open spec fn prop_full_name(&self) -> Seq<char> {
        self.info.name@
    }

    open spec fn prop_authored(&self) -> bool {
        self.data.default_value is Some || self.data.samples@.len() > 0
    }

    open spec fn prop_display_group(&self) -> Seq<char> {
        self.info.display_group@
    }

    fn base_name(&self) -> (t: Token) {
        Token::new(base_name_text(self.info.name.text()).as_str())
    }

    fn namespace(&self) -> (t: Token) {
        Token::new(namespace_text(self.info.name.text()).as_str())
    }

    fn is_authored(&self) -> (r: bool) {
        self.data.default_value.is_some() || self.data.samples.len() > 0
    }

    fn split_name(&self) -> (r: Vec<String>) {
        split_name_text(self.info.name.text())
    }

    fn display_group(&self) -> (d: String) {
        self.info.display_group.clone()
    }
}

/// A borrowed view of an [`Attribute`] owned elsewhere.
pub struct AttributeRef<'a> {
    target: &'a Attribute,
}

impl<'a> AttributeRef<'a> {
    /// Borrow an attribute.
    pub fn new(target: &'a Attribute) -> (r: AttributeRef<'a>)
        ensures
            r.attribute() == target,
    {
        AttributeRef { target }
    }

    /// The attribute this view borrows from.
    pub closed spec fn spec_attribute(&self) -> &'a Attribute {
        self.target
    }

    /// The attribute this view borrows from.
    #[verifier::when_used_as_spec(spec_attribute)]
    pub fn attribute(&self) -> (a: &'a Attribute)
        ensures
            a == self.spec_attribute(),
    {
        self.target
    }
}

/// A named set of target paths linking prims.  The handle owns a copy
/// of its record.
pub struct Relationship {
    /// The identity of the property this handle was taken from.
    pub info: PropData,
    /// The authored target paths; `None` when none were authored, and
    /// never an authored empty list.
    pub targets_data: Option<Vec<Path>>,
}

impl Relationship {
    /// An authored target list is never empty.
    pub open spec fn wf(&self) -> bool {
        match self.targets_data {
            Some(v) => v@.len() > 0,
            None => true,
        }
    }

    /// The authored targets, as an owned path collection; `None`
    /// exactly when no targets were authored — never `Some` of an
    /// empty collection on a well-formed handle.
    pub fn targets(&self) -> (r: Option<PathVector>)
        ensures
            match targets_view(&self.targets_data) {
                Some(v) => r matches Some(pv) && pv@ == v,
                None => r is None,
            },
            (self.wf() && r is Some) ==> (r matches Some(pv) && pv@.len() > 0),
    {
        match &self.targets_data {
            Some(v) => {
                let mut out: Vec<Path> = Vec::new();
                let n = v.len();
                for i in 0..n
                    invariant
                        n == v@.len(),
                        out@.len() == i,
                        forall|k: int| 0 <= k < i ==> (#[trigger] out@[k])@ == v@[k]@,
                {
                    out.push(v[i].clone());
                }
                proof {
                    assert(out@.map_values(|p: Path| p@) =~= paths_view(v@));
                }
                Some(PathVector::from_paths(out))
            },
            None => None,
        }
    }
}

impl Object for Relationship {
    open spec fn obj_wf(&self) -> bool {
        true
    }

    open spec fn obj_path(&self) -> Seq<char> {
        self.info.path@
    }

    open spec fn obj_name(&self) -> Seq<char> {
        self.info.name@
    }

    open spec fn obj_display_name(&self) -> Seq<char> {
        self.info.display_name@
    }

    fn path(&self) -> (p: Path) {
        self.info.path.clone()
    }

    fn name(&self) -> (t: TokenRef<'_>) {
        self.info.name.as_ref()
    }

    fn display_name(&self) -> (d: String) {
        self.info.display_name.clone()
    }
}

impl PropertyEx for Relationship {
    open spec fn prop_ex_wf(&self) -> bool {
        true
    }

    open spec fn prop_full_name(&self) -> Seq<char> {
        self.info.name@
    }

    open spec fn prop_authored(&self) -> bool {
        self.targets_data is Some
    }

    open spec fn prop_display_group(&self) -> Seq<char> {
        self.info.display_group@
    }

    fn base_name(&self) -> (t: Token) {
        Token::new(base_name_text(self.info.name.text()).as_str())
    }

    fn namespace(&self) -> (t: Token) {
        Token::new(namespace_text(self.info.name.text()).as_str())
    }

    fn is_authored(&self) -> (r: bool) {
        self.targets_data.is_some()
    }

    fn split_name(&self) -> (r: Vec<String>) {
        split_name_text(self.info.name.text())
    }

    fn display_group(&self) -> (d: String) {
        self.info.display_group.clone()
    }
}

/// A borrowed view of a [`Relationship`] owned elsewhere.
pub struct RelationshipRef<'a> {
    target: &'a Relationship,
}

impl<'a> RelationshipRef<'a> {
    /// Borrow a relationship.
    pub fn new(target: &'a Relationship) -> (r: RelationshipRef<'a>)
        ensures
            r.relationship() == target,
    {
        RelationshipRef { target }
    }

    /// The relationship this view borrows from.
    pub closed spec fn spec_relationship(&self) -> &'a Relationship {
        self.target
    }

    /// The relationship this view borrows from.
    #[verifier::when_used_as_spec(spec_relationship)]
    pub fn relationship(&self) -> (a: &'a Relationship)
        ensures
            a == self.spec_relationship(),
    {
        self.target
    }
}

/// The runtime-probed kind of a property: exactly one of the two.
pub enum PropertyKind {
    Attribute(Attribute),
    Relationship(Relationship),
}

/// A polymorphic property handle into the stage's records; its kind is
/// discovered by a runtime probe, never statically known.
pub struct Property<'a> {
    /// The scene the handle points into.
    pub scene: &'a SceneData,
    /// The property record index.
    pub prop: usize,
}

impl<'a> Property<'a> {
    /// The handle points at an existing record of a well-formed scene.
    pub open spec fn wf(&self) -> bool {
        scene_wf(self.scene) && (self.prop as int) < prop_count(self.scene)
    }

    /// The record this handle points at.
    pub open spec fn record(&self) -> PropRecord {
        self.scene.props@[self.prop as int]
    }

    /// Probe the property's kind and extract an owned handle of that
    /// kind, carrying a copy of the record.
    pub fn property_kind(&self) -> (r: PropertyKind)
        requires
            self.wf(),
        ensures
            match self.record().payload {
                PropPayload::Attribute(a) => r matches PropertyKind::Attribute(at) && {
                    &&& at.wf()
                    &&& at.info.name@ == self.record().info.name@
                    &&& at.info.path@ == self.record().info.path@
                    &&& at.info.display_name@ == self.record().info.display_name@
                    &&& at.info.display_group@ == self.record().info.display_group@
                    &&& at.data.type_token@ == a.type_token@
                    &&& at.data.variability == a.variability
                    &&& value_opt_view(&at.data.default_value) == value_opt_view(&a.default_value)
                    &&& samples_view(at.data.samples@) == samples_view(a.samples@)
                },
                PropPayload::Relationship(rel) => r matches PropertyKind::Relationship(rl) && {
                    &&& rl.wf()
                    &&& rl.info.name@ == self.record().info.name@
                    &&& rl.info.path@ == self.record().info.path@
                    &&& rl.info.display_name@ == self.record().info.display_name@
                    &&& rl.info.display_group@ == self.record().info.display_group@
                    &&& targets_view(&rl.targets_data) == targets_view(&rel.targets)
                },
            },
    {
        proof {
            assert(crate::scene::prop_wf(self.scene, self.prop as int));
        }
        let rec = &self.scene.props[self.prop];
        match &rec.payload {
            PropPayload::Attribute(a) => {
                let data = a.clone();
                proof {
                    assert(attr_wf(a));
                    assert(samples_view(data.samples@).len() == data.samples@.len());
                    assert(samples_view(a.samples@).len() == a.samples@.len());
                    assert forall|x: int, y: int| 0 <= x < y < data.samples@.len()
                        implies (#[trigger] data.samples@[x]).time
                            != (#[trigger] data.samples@[y]).time by {
                        assert(x < a.samples@.len());
                        assert(samples_view(data.samples@)[x].0 == data.samples@[x].time);
                        assert(samples_view(a.samples@)[x].0 == a.samples@[x].time);
                        assert(samples_view(data.samples@)[y].0 == data.samples@[y].time);
                        assert(samples_view(a.samples@)[y].0 == a.samples@[y].time);
                        assert(a.samples@[x].time != a.samples@[y].time);
                    }
                }
                PropertyKind::Attribute(Attribute { info: rec.info.clone(), data })
            },
            PropPayload::Relationship(rel) => {
                let targets_data = rel.clone().targets;
                proof {
                    assert(crate::scene::rel_wf(rel));
                    match &targets_data {
                        Some(v) => {
                            match &rel.targets {
                                Some(v0) => {
                                    assert(paths_view(v@) == paths_view(v0@));
                                    assert(paths_view(v@).len() == v@.len());
                                    assert(paths_view(v0@).len() == v0@.len());
                                },
                                None => {
                                    assert(targets_view(&targets_data) is Some);
                                    assert(targets_view(&rel.targets) is None);
                                },
                            }
                        },
                        None => {},
                    }
                }
                PropertyKind::Relationship(Relationship { info: rec.info.clone(), targets_data })
            },
        }
    }
}

impl<'a> Object for Property<'a> {
    open spec fn obj_wf(&self) -> bool {
        self.wf()
    }

    open spec fn obj_path(&self) -> Seq<char> {
        self.record().info.path@
    }

    open spec fn obj_name(&self) -> Seq<char> {
        self.record().info.name@
    }

    open spec fn obj_display_name(&self) -> Seq<char> {
        self.record().info.display_name@
    }

    fn path(&self) -> (p: Path) {
        self.scene.props[self.prop].info.path.clone()
    }

    fn name(&self) -> (t: TokenRef<'_>) {
        self.scene.props[self.prop].info.name.as_ref()
    }

    fn display_name(&self) -> (d: String) {
        self.scene.props[self.prop].info.display_name.clone()
    }
}

impl<'a> PropertyEx for Property<'a> {
    open spec fn prop_ex_wf(&self) -> bool {
        self.wf()
    }

    open spec fn prop_full_name(&self) -> Seq<char> {
        self.record().info.name@
    }

    open spec fn prop_authored(&self) -> bool {
        payload_authored(&self.record().payload)
    }

    open spec fn prop_display_group(&self) -> Seq<char> {
        self.record().info.display_group@
    }

    fn base_name(&self) -> (t: Token) {
        Token::new(base_name_text(self.scene.props[self.prop].info.name.text()).as_str())
    }

    fn namespace(&self) -> (t: Token) {
        Token::new(namespace_text(self.scene.props[self.prop].info.name.text()).as_str())
    }

    fn is_authored(&self) -> (r: bool) {
        match &self.scene.props[self.prop].payload {
            PropPayload::Attribute(a) => a.default_value.is_some() || a.samples.len() > 0,
            PropPayload::Relationship(rel) => rel.targets.is_some(),
        }
    }

    fn split_name(&self) -> (r: Vec<String>) {
        split_name_text(self.scene.props[self.prop].info.name.text())
    }

    fn display_group(&self) -> (d: String) {
        self.scene.props[self.prop].info.display_group.clone()
    }
}

/// A borrowed view of one element of a [`PropertyVector`]: the same
/// property handle, handed out per index.
pub struct PropertyRef<'a> {
    /// The property this view denotes.
    pub target: Property<'a>,
}

impl<'a> PropertyRef<'a> {
    /// The property this view denotes.
    pub fn property(&self) -> (p: Property<'a>)
        ensures
            p == self.target,
    {
        Property { scene: self.target.scene, prop: self.target.prop }
    }
}

/// An owning, index-addressable collection of the properties of one
/// prim, in authoring order.
pub struct PropertyVector<'a> {
    /// The scene the collection points into.
    pub scene: &'a SceneData,
    /// The property record indices held.
    pub items: Vec<usize>,
}

impl<'a> PropertyVector<'a> {
    /// Every held index is a valid record of a well-formed scene.
    pub open spec fn wf(&self) -> bool {
        &&& scene_wf(self.scene)
        &&& forall|k: int|
            0 <= k < self.items@.len()
                ==> ((#[trigger] self.items@[k]) as int) < prop_count(self.scene)
    }

    /// The number of properties held.
    pub fn size(&self) -> (n: usize)
        ensures
            n == self.items@.len(),
    {
        self.items.len()
    }

    /// A borrowed view of the property at `index`.
    pub fn at(&self, index: usize) -> (r: PropertyRef<'a>)
        requires
            self.wf(),
            index < self.items@.len(),
        ensures
            r.target.wf(),
            r.target.scene == self.scene,
            r.target.prop == self.items@[index as int],
    {
        PropertyRef { target: Property { scene: self.scene, prop: self.items[index] } }
    }

    /// A restartable forward iterator over the held properties.
    pub fn iter(&self) -> (it: PropertyVectorIterator<'_, 'a>)
        requires
            self.wf(),
        ensures
            it.wf(),
            it.position() == 0,
            it.vec == self,
    {
        let end = self.items.len();
        PropertyVectorIterator { vec: self, current: 0, end }
    }
}

/// A restartable forward iterator over a [`PropertyVector`]; holds
/// only an index, so a fresh call to `iter` starts over.
pub struct PropertyVectorIterator<'v, 'a> {
    /// The collection iterated over.
    pub vec: &'v PropertyVector<'a>,
    /// The position of the next property to produce.
    pub current: usize,
    /// One past the last position.
    pub end: usize,
}

impl<'v, 'a> PropertyVectorIterator<'v, 'a> {
    /// The iterator never steps outside its collection.
    pub open spec fn wf(&self) -> bool {
        &&& self.vec.wf()
        &&& self.current <= self.end
        &&& self.end == self.vec.items@.len()
    }

    /// How many items have been produced so far.
    pub open spec fn position(&self) -> int {
        self.current as int
    }

    /// The next property view, or `None` once every element was
    /// produced.
    pub fn next(&mut self) -> (r: Option<PropertyRef<'a>>)
        requires
            old(self).wf(),
        ensures
            final(self).wf(),
            final(self).vec == old(self).vec,
            if old(self).position() < old(self).vec.items@.len() {
                &&& final(self).position() == old(self).position() + 1
                &&& r matches Some(p) && p.target.wf() && p.target.scene == old(self).vec.scene
                    && p.target.prop == old(self).vec.items@[old(self).position()]
            } else {
                final(self).position() == old(self).position() && r is None
            },
    {
        if self.current == self.end {
            None
        } else {
            let cur = self.current;
            self.current = cur + 1;
            Some(self.vec.at(cur))
        }
    }
}

} // verus!

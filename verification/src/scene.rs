//! The in-memory scene store that stage handles navigate.
//!
//! A [`SceneData`] is an append-only arena of prim records and property
//! records.  The pseudo-root lives at index 0; every other prim holds
//! the index of its parent, which is always smaller than its own, so
//! the arena is a tree and subtree recursion terminates.  Every record
//! carries its absolute path, kept consistent with the tree shape and
//! unique across the scene by the well-formedness predicate
//! [`scene_wf`], which [`SceneData::new`] establishes and every method
//! preserves.
//!
//! A [`SceneSource`] is a catalog of well-formed scenes addressable by
//! location, the root set from which stages are opened.

use vstd::prelude::*;
use vstd::string::StringExecFns;
use crate::sdf::Path;
use crate::sdf::Variability;
use crate::tf::Token;
use crate::vt::Value;

verus! {

/// One prim record: an addressable node of the scene tree.
pub struct PrimData {
    /// Index of the parent prim; 0 both for the pseudo-root itself and
    /// for its immediate children.
    pub parent: usize,
    /// The prim's own name (empty for the pseudo-root).
    pub name: Token,
    /// The prim's schema type name (may be empty).
    pub type_token: Token,
    /// The absolute address: `/` for the pseudo-root, the parent's path
    /// joined with the name otherwise.
    pub path: Path,
    /// Optional human-readable name (empty when not set).
    pub display_name: String,
}

/// A time sample: a value authored at a numeric time ordinate
/// (an IEEE-754 bit pattern, compared exactly).
pub struct TimeSample {
    pub time: u64,
    pub value: Value,
}

/// The value-holding payload of an attribute property.
pub struct AttrData {
    /// The declared value type name.
    pub type_token: Token,
    /// Whether the value may vary over time.
    pub variability: Variability,
    /// The authored default value, if any.
    pub default_value: Option<Value>,
    /// Authored time samples, with pairwise distinct times.
    pub samples: Vec<TimeSample>,
}

/// The target-holding payload of a relationship property.
pub struct RelData {
    /// `None` when no targets were authored; an authored target list is
    /// never empty.
    pub targets: Option<Vec<Path>>,
}

/// The payload of a property record: exactly one of the two kinds.
pub enum PropPayload {
    Attribute(AttrData),
    Relationship(RelData),
}

/// One property record, owned by a prim.
pub struct PropData {
    /// Index of the owning prim.
    pub prim: usize,
    /// The property's name.
    pub name: Token,
    /// The absolute address: the owning prim's path, a `.`, the name.
    pub path: Path,
    /// Optional human-readable name (empty when not set).
    pub display_name: String,
    /// Optional grouping hint for presentation (empty when not set).
    pub display_group: String,
}

/// One property record together with its payload.
pub struct PropRecord {
    pub info: PropData,
    pub payload: PropPayload,
}

/// The scene store: the prim arena and the property records.
pub struct SceneData {
    pub prims: Vec<PrimData>,
    pub props: Vec<PropRecord>,
}

/// The number of prims in the scene.
pub open spec fn prim_count(s: &SceneData) -> int {
    s.prims@.len() as int
}

/// The number of property records in the scene.
pub open spec fn prop_count(s: &SceneData) -> int {
    s.props@.len() as int
}

/// The parent index of prim `j`.
pub open spec fn prim_parent(s: &SceneData, j: int) -> int {
    s.prims@[j].parent as int
}

/// The path text of prim `j`.
pub open spec fn prim_path(s: &SceneData, j: int) -> Seq<char> {
    s.prims@[j].path@
}

/// The path a prim inserted under `parent` with name `name` receives:
/// the parent's path and the name, joined with a separator unless the
/// parent is the pseudo-root.
pub open spec fn joined_prim_path(s: &SceneData, parent: int, name: Seq<char>) -> Seq<char> {
    if parent == 0 {
        "/"@ + name
    } else {
        prim_path(s, parent) + "/"@ + name
    }
}

/// The path a property of prim `prim` with name `name` receives.
pub open spec fn joined_prop_path(s: &SceneData, prim: int, name: Seq<char>) -> Seq<char> {
    prim_path(s, prim) + "."@ + name
}

/// Whether some prim already occupies the path `p`.
pub open spec fn has_prim_path(s: &SceneData, p: Seq<char>) -> bool {
    exists|j: int| 0 <= j < prim_count(s) && prim_path(s, j) == p
}

/// Well-formedness of one non-root prim record: the parent comes
/// earlier in the arena and the path is the parent's path joined with
/// the prim's name.
pub open spec fn prim_wf(s: &SceneData, j: int) -> bool {
    &&& prim_parent(s, j) < j
    &&& prim_path(s, j) == joined_prim_path(s, prim_parent(s, j), s.prims@[j].name@)
}

/// Well-formedness of an attribute payload: sample times are pairwise
/// distinct.
pub open spec fn attr_wf(a: &AttrData) -> bool {
    forall|x: int, y: int|
        0 <= x < y < a.samples@.len() ==> (#[trigger] a.samples@[x]).time != (#[trigger] a.samples@[y]).time
}

/// Well-formedness of a relationship payload: an authored target list
/// is never empty.
pub open spec fn rel_wf(r: &RelData) -> bool {
    match r.targets {
        Some(v) => v@.len() > 0,
        None => true,
    }
}

/// Well-formedness of one property record: the owner exists, the path
/// is derived from the owner's, and the payload is well-formed.
pub open spec fn prop_wf(s: &SceneData, p: int) -> bool {
    &&& s.props@[p].info.prim < prim_count(s)
    &&& s.props@[p].info.path@ == joined_prop_path(
        s,
        s.props@[p].info.prim as int,
        s.props@[p].info.name@,
    )
    &&& match s.props@[p].payload {
        PropPayload::Attribute(a) => attr_wf(&a),
        PropPayload::Relationship(r) => rel_wf(&r),
    }
}

/// Well-formedness of a whole scene: the pseudo-root is at index 0
/// with path `/`, every other prim is a well-formed child record, prim
/// paths are pairwise distinct, and every property record is
/// well-formed.
pub open spec fn scene_wf(s: &SceneData) -> bool {
    &&& prim_count(s) >= 1
    &&& prim_parent(s, 0) == 0
    &&& prim_path(s, 0) == "/"@
    &&& forall|j: int| 1 <= j < prim_count(s) ==> #[trigger] prim_wf(s, j)
    &&& forall|j: int, k: int|
        0 <= j < k < prim_count(s) ==> #[trigger] prim_path(s, j) != #[trigger] prim_path(s, k)
    &&& forall|p: int| 0 <= p < prop_count(s) ==> #[trigger] prop_wf(s, p)
}

/// At most one prim occupies any path of a well-formed scene, so a
/// path lookup has a unique answer.
pub proof fn lemma_prim_path_unique(s: &SceneData, j: int, k: int)
    requires
        scene_wf(s),
        0 <= j < prim_count(s),
        0 <= k < prim_count(s),
        prim_path(s, j) == prim_path(s, k),
    ensures
        j == k,
{
    if j < k {
        assert(prim_path(s, j) != prim_path(s, k));
    }
    if k < j {
        assert(prim_path(s, k) != prim_path(s, j));
    }
}

/// Whether prim `j` is a child of prim `i`.
pub open spec fn is_child(s: &SceneData, j: int, i: int) -> bool {
    0 < j < prim_count(s) && prim_parent(s, j) == i
}

/// The children of prim `i` among the first `n` prims, in arena order.
pub open spec fn children_upto(s: &SceneData, i: int, n: int) -> Seq<usize>
    decreases n,
{
    if n <= 0 {
        Seq::empty()
    } else {
        let prefix = children_upto(s, i, n - 1);
        if is_child(s, n - 1, i) {
            prefix.push((n - 1) as usize)
        } else {
            prefix
        }
    }
}

/// The children of prim `i`, in arena (declaration) order.
pub open spec fn children_of(s: &SceneData, i: int) -> Seq<usize> {
    children_upto(s, i, prim_count(s))
}

/// A listed child entry `c` of prim `i` below bound `n` is a proper
/// child index: strictly between `i` and `n`, with parent `i`.
pub open spec fn child_entry_ok(s: &SceneData, i: int, n: int, c: usize) -> bool {
    &&& i < c as int
    &&& (c as int) < n
    &&& is_child(s, c as int, i)
}

/// Every child index listed for `i` below `n` is a proper child entry,
/// and the listing is strictly increasing.
pub proof fn lemma_children_upto(s: &SceneData, i: int, n: int)
    requires
        scene_wf(s),
        0 <= i,
        n <= prim_count(s),
    ensures
        forall|k: int|
            0 <= k < children_upto(s, i, n).len()
                ==> child_entry_ok(s, i, n, #[trigger] children_upto(s, i, n)[k]),
        forall|k1: int, k2: int|
            0 <= k1 < k2 < children_upto(s, i, n).len()
                ==> #[trigger] children_upto(s, i, n)[k1] < #[trigger] children_upto(s, i, n)[k2],
    decreases n,
{
    assert(vstd::std_specs::vec::spec_vec_len(&s.prims) == s.prims@.len());
    if n > 0 {
        lemma_children_upto(s, i, n - 1);
        let prefix = children_upto(s, i, n - 1);
        let whole = children_upto(s, i, n);
        if is_child(s, n - 1, i) {
            if n - 1 >= 1 {
                assert(prim_wf(s, n - 1));
            }
            assert(whole == prefix.push((n - 1) as usize));
            assert forall|k: int| 0 <= k < whole.len()
                implies child_entry_ok(s, i, n, #[trigger] whole[k]) by {
                if k < prefix.len() {
                    assert(whole[k] == prefix[k]);
                    assert(child_entry_ok(s, i, n - 1, prefix[k]));
                } else {
                    assert(whole[k] == (n - 1) as usize);
                }
            }
            assert forall|k1: int, k2: int| 0 <= k1 < k2 < whole.len()
                implies whole[k1] < whole[k2] by {
                if k2 < prefix.len() {
                    assert(whole[k1] == prefix[k1] && whole[k2] == prefix[k2]);
                } else {
                    assert(whole[k1] == prefix[k1] && whole[k2] == (n - 1) as usize);
                    assert(child_entry_ok(s, i, n - 1, prefix[k1]));
                }
            }
        } else {
            assert(whole == prefix);
        }
    }
}

/// The children list of a well-formed scene: every entry is a valid
/// index strictly greater than `i` whose parent is `i`.
pub proof fn lemma_children_of(s: &SceneData, i: int)
    requires
        scene_wf(s),
        0 <= i,
    ensures
        forall|k: int|
            0 <= k < children_of(s, i).len()
                ==> child_entry_ok(s, i, prim_count(s), #[trigger] children_of(s, i)[k]),
{
    lemma_children_upto(s, i, prim_count(s));
}

/// Find the prim that occupies a path, if any.
pub fn find_prim(s: &SceneData, path: &Path) -> (r: Option<usize>)
    ensures
        match r {
            Some(i) => i < prim_count(s) && prim_path(s, i as int) == path@,
            None => !has_prim_path(s, path@),
        },
{
    let n = s.prims.len();
    for j in 0..n
        invariant
            n == s.prims@.len(),
            forall|k: int| 0 <= k < j ==> #[trigger] prim_path(s, k) != path@,
    {
        if s.prims[j].path.equals(path) {
            return Some(j);
        }
    }
    None
}

/// Collect the children of prim `i`, in declaration order.
pub fn children_vec(s: &SceneData, i: usize) -> (r: Vec<usize>)
    ensures
        r@ == children_of(s, i as int),
{
    let n = s.prims.len();
    let mut r: Vec<usize> = Vec::new();
    for j in 0..n
        invariant
            n == s.prims@.len(),
            r@ == children_upto(s, i as int, j as int),
    {
        if j > 0 && s.prims[j].parent == i {
            r.push(j);
        }
    }
    r
}

/// Whether property record `p` belongs to prim `i`.
pub open spec fn is_prop_of(s: &SceneData, p: int, i: int) -> bool {
    0 <= p < prop_count(s) && s.props@[p].info.prim as int == i
}

/// The property records of prim `i` among the first `n`, in authoring
/// order.
pub open spec fn props_upto(s: &SceneData, i: int, n: int) -> Seq<usize>
    decreases n,
{
    if n <= 0 {
        Seq::empty()
    } else {
        let prefix = props_upto(s, i, n - 1);
        if is_prop_of(s, n - 1, i) {
            prefix.push((n - 1) as usize)
        } else {
            prefix
        }
    }
}

/// The property records of prim `i`, in authoring order.
pub open spec fn props_of(s: &SceneData, i: int) -> Seq<usize> {
    props_upto(s, i, prop_count(s))
}

/// Every listed property index below `n` belongs to prim `i` and is a
/// valid record index.
pub proof fn lemma_props_upto(s: &SceneData, i: int, n: int)
    requires
        n <= prop_count(s),
    ensures
        forall|k: int|
            0 <= k < props_upto(s, i, n).len()
                ==> is_prop_of(s, #[trigger] props_upto(s, i, n)[k] as int, i)
                    && (props_upto(s, i, n)[k] as int) < n,
    decreases n,
{
    if n > 0 {
        lemma_props_upto(s, i, n - 1);
        let prefix = props_upto(s, i, n - 1);
        let whole = props_upto(s, i, n);
        if is_prop_of(s, n - 1, i) {
            assert(whole == prefix.push((n - 1) as usize));
            assert forall|k: int| 0 <= k < whole.len()
                implies is_prop_of(s, #[trigger] whole[k] as int, i) && ((whole[k] as int) < n) by {
                assert(vstd::std_specs::vec::spec_vec_len(&s.props) == s.props@.len());
                if k < prefix.len() {
                    assert(whole[k] == prefix[k]);
                } else {
                    assert(whole[k] == (n - 1) as usize);
                }
            }
        } else {
            assert(whole == prefix);
        }
    }
}

/// Collect the property record indices of prim `i`, in authoring order.
pub fn prop_indices(s: &SceneData, i: usize) -> (r: Vec<usize>)
    ensures
        r@ == props_of(s, i as int),
{
    let n = s.props.len();
    let mut r: Vec<usize> = Vec::new();
    for p in 0..n
        invariant
            n == s.props@.len(),
            r@ == props_upto(s, i as int, p as int),
    {
        if s.props[p].info.prim == i {
            r.push(p);
        }
    }
    r
}

impl SceneData {
    /// A fresh scene holding only the pseudo-root.
    pub fn new() -> (s: SceneData)
        ensures
            scene_wf(&s),
            prim_count(&s) == 1,
            prop_count(&s) == 0,
            prim_path(&s, 0) == "/"@,
            s.prims@[0].name@ =~= Seq::<char>::empty(),
    {
        let root = PrimData {
            parent: 0,
            name: Token::new(""),
            type_token: Token::new(""),
            path: Path::from_text("/"),
            display_name: String::new(),
        };
        let mut prims: Vec<PrimData> = Vec::new();
        prims.push(root);
        proof {
            reveal_strlit("");
        }
        SceneData { prims, props: Vec::new() }
    }

    /// Define a new prim under `parent`.  Succeeds and returns the new
    /// index exactly when the parent exists and no prim occupies the
    /// resulting path yet; leaves the scene unchanged otherwise.
    pub fn add_prim(&mut self, parent: usize, name: &str, type_token: &str) -> (r: Option<usize>)
        requires
            scene_wf(old(self)),
        ensures
            scene_wf(final(self)),
            final(self).props@ == old(self).props@,
            match r {
                Some(i) => {
                    &&& parent < prim_count(old(self))
                    &&& !has_prim_path(old(self), joined_prim_path(old(self), parent as int, name@))
                    &&& i as int == prim_count(old(self))
                    &&& prim_count(final(self)) == prim_count(old(self)) + 1
                    &&& final(self).prims@.drop_last() == old(self).prims@
                    &&& prim_parent(final(self), i as int) == parent
                    &&& final(self).prims@[i as int].name@ == name@
                    &&& final(self).prims@[i as int].type_token@ == type_token@
                    &&& final(self).prims@[i as int].display_name@ =~= Seq::<char>::empty()
                    &&& prim_path(final(self), i as int)
                        == joined_prim_path(old(self), parent as int, name@)
                },
                None => {
                    &&& final(self).prims@ == old(self).prims@
                    &&& !(parent < prim_count(old(self))
                        && !has_prim_path(old(self), joined_prim_path(old(self), parent as int, name@)))
                },
            },
    {
        if parent >= self.prims.len() {
            return None;
        }
        let mut text: String = String::from_str("/");
        if parent > 0 {
            text = String::from_str(self.prims[parent].path.text());
            text.append("/");
        }
        text.append(name);
        let path = Path::from_text(text.as_str());
        assert(path@ == joined_prim_path(self, parent as int, name@));
        if find_prim(self, &path).is_some() {
            return None;
        }
        let rec = PrimData {
            parent,
            name: Token::new(name),
            type_token: Token::new(type_token),
            path,
            display_name: String::new(),
        };
        let i = self.prims.len();
        self.prims.push(rec);
        proof {
            reveal_strlit("");
            let sf = &*self;
            let so = old(self);
            assert forall|j: int| 1 <= j < prim_count(sf) implies #[trigger] prim_wf(sf, j) by {
                if j < i {
                    assert(prim_wf(so, j));
                    assert(sf.prims@[j] == so.prims@[j]);
                    assert(sf.prims@[prim_parent(so, j)] == so.prims@[prim_parent(so, j)]);
                } else {
                    assert(sf.prims@[parent as int] == so.prims@[parent as int]);
                }
            }
            assert forall|j: int, k: int| 0 <= j < k < prim_count(sf)
                implies #[trigger] prim_path(sf, j) != #[trigger] prim_path(sf, k) by {
                if k < i {
                    assert(prim_path(sf, j) == prim_path(so, j));
                    assert(prim_path(sf, k) == prim_path(so, k));
                } else {
                    assert(prim_path(sf, j) == prim_path(so, j));
                    assert(!(prim_path(so, j) == prim_path(sf, k)));
                }
            }
            assert forall|p: int| 0 <= p < prop_count(sf) implies #[trigger] prop_wf(sf, p) by {
                assert(prop_wf(so, p));
                assert(sf.props@[p] == so.props@[p]);
                let owner = so.props@[p].info.prim as int;
                assert(sf.prims@[owner] == so.prims@[owner]);
            }
        }
        Some(i)
    }

    /// Author an attribute property on `prim` with a declared value
    /// type, a variability and an optional default value.  Succeeds
    /// and returns the new record index exactly when the prim exists.
    pub fn add_attribute(
        &mut self,
        prim: usize,
        name: &str,
        value_type: &str,
        variability: Variability,
        default_value: Option<Value>,
    ) -> (r: Option<usize>)
        requires
            scene_wf(old(self)),
        ensures
            scene_wf(final(self)),
            final(self).prims@ == old(self).prims@,
            match r {
                Some(p) => {
                    &&& prim < prim_count(old(self))
                    &&& p as int == prop_count(old(self))
                    &&& final(self).props@.drop_last() == old(self).props@
                    &&& final(self).props@[p as int].info.prim == prim
                    &&& final(self).props@[p as int].info.name@ == name@
                    &&& final(self).props@[p as int].info.path@
                        == joined_prop_path(old(self), prim as int, name@)
                    &&& final(self).props@[p as int].info.display_name@ =~= Seq::<char>::empty()
                    &&& final(self).props@[p as int].info.display_group@ =~= Seq::<char>::empty()
                    &&& final(self).props@[p as int].payload matches PropPayload::Attribute(a)
                        && a.type_token@ == value_type@
                        && a.variability == variability
                        && a.default_value == default_value
                        && a.samples@ =~= Seq::<TimeSample>::empty()
                },
                None => final(self).props@ == old(self).props@ && prim >= prim_count(old(self)),
            },
    {
        if prim >= self.prims.len() {
            return None;
        }
        let mut text: String = String::from_str(self.prims[prim].path.text());
        text.append(".");
        text.append(name);
        let path = Path::from_text(text.as_str());
        let rec = PropRecord {
            info: PropData {
                prim,
                name: Token::new(name),
                path,
                display_name: String::new(),
                display_group: String::new(),
            },
            payload: PropPayload::Attribute(AttrData {
                type_token: Token::new(value_type),
                variability,
                default_value,
                samples: Vec::new(),
            }),
        };
        let p = self.props.len();
        self.props.push(rec);
        proof {
            reveal_strlit("");
            assert(self.props@.drop_last() =~= old(self).props@);
            self.lemma_prop_push_wf(old(self), p as int);
        }
        Some(p)
    }

    /// Author a relationship property on `prim`.  A target list must be
    /// either absent (nothing authored) or non-empty; the call succeeds
    /// and returns the new record index exactly when the prim exists
    /// and the target list is not an authored empty list.
    pub fn add_relationship(
        &mut self,
        prim: usize,
        name: &str,
        targets: Option<Vec<Path>>,
    ) -> (r: Option<usize>)
        requires
            scene_wf(old(self)),
        ensures
            scene_wf(final(self)),
            final(self).prims@ == old(self).prims@,
            match r {
                Some(p) => {
                    &&& prim < prim_count(old(self))
                    &&& (targets matches Some(v) ==> v@.len() > 0)
                    &&& p as int == prop_count(old(self))
                    &&& final(self).props@.drop_last() == old(self).props@
                    &&& final(self).props@[p as int].info.prim == prim
                    &&& final(self).props@[p as int].info.name@ == name@
                    &&& final(self).props@[p as int].info.path@
                        == joined_prop_path(old(self), prim as int, name@)
                    &&& final(self).props@[p as int].info.display_name@ =~= Seq::<char>::empty()
                    &&& final(self).props@[p as int].info.display_group@ =~= Seq::<char>::empty()
                    &&& final(self).props@[p as int].payload matches PropPayload::Relationship(rel)
                        && rel.targets == targets
                },
                None => {
                    &&& final(self).props@ == old(self).props@
                    &&& !(prim < prim_count(old(self))
                        && (targets matches Some(v) ==> v@.len() > 0))
                },
            },
    {
        if prim >= self.prims.len() {
            return None;
        }
        if let Some(v) = &targets {
            if v.len() == 0 {
                return None;
            }
        }
        let mut text: String = String::from_str(self.prims[prim].path.text());
        text.append(".");
        text.append(name);
        let path = Path::from_text(text.as_str());
        let rec = PropRecord {
            info: PropData {
                prim,
                name: Token::new(name),
                path,
                display_name: String::new(),
                display_group: String::new(),
            },
            payload: PropPayload::Relationship(RelData { targets }),
        };
        let p = self.props.len();
        self.props.push(rec);
        proof {
            reveal_strlit("");
            assert(self.props@.drop_last() =~= old(self).props@);
            self.lemma_prop_push_wf(old(self), p as int);
        }
        Some(p)
    }

    /// After pushing one well-formed property record onto a well-formed
    /// scene without touching the prims, the scene is well-formed.
    proof fn lemma_prop_push_wf(&self, before: &SceneData, p: int)
        requires
            scene_wf(before),
            self.prims@ == before.prims@,
            self.props@.len() == before.props@.len() + 1,
            self.props@.drop_last() == before.props@,
            p == before.props@.len(),
            prop_wf(self, p),
        ensures
            scene_wf(self),
    {
        assert forall|q: int| 0 <= q < prop_count(self) implies #[trigger] prop_wf(self, q) by {
            if q < p {
                assert(self.props@[q] == before.props@[q]);
                assert(prop_wf(before, q));
                let owner = before.props@[q].info.prim as int;
                assert(self.prims@[owner] == before.prims@[owner]);
            }
        }
        assert forall|j: int| 1 <= j < prim_count(self) implies #[trigger] prim_wf(self, j) by {
            assert(prim_wf(before, j));
        }
        assert forall|j: int, k: int| 0 <= j < k < prim_count(self)
            implies #[trigger] prim_path(self, j) != #[trigger] prim_path(self, k) by {
            assert(prim_path(before, j) != prim_path(before, k));
        }
    }

    /// Set the display name of a prim; reports whether the prim exists.
    pub fn set_display_name(&mut self, prim: usize, text: &str) -> (r: bool)
        requires
            scene_wf(old(self)),
        ensures
            scene_wf(final(self)),
            final(self).props@ == old(self).props@,
            r == (prim < prim_count(old(self))),
            !r ==> final(self).prims@ == old(self).prims@,
            r ==> {
                &&& prim_count(final(self)) == prim_count(old(self))
                &&& final(self).prims@[prim as int].display_name@ == text@
                &&& final(self).prims@[prim as int].parent == old(self).prims@[prim as int].parent
                &&& final(self).prims@[prim as int].name == old(self).prims@[prim as int].name
                &&& final(self).prims@[prim as int].type_token
                    == old(self).prims@[prim as int].type_token
                &&& final(self).prims@[prim as int].path == old(self).prims@[prim as int].path
                &&& forall|j: int|
                    0 <= j < prim_count(old(self)) && j != prim as int
                        ==> final(self).prims@[j] == old(self).prims@[j]
            },
    {
        if prim >= self.prims.len() {
            return false;
        }
        self.prims[prim].display_name = String::from_str(text);
        proof {
            let sf = &*self;
            let so = old(self);
            assert forall|j: int| 1 <= j < prim_count(sf) implies #[trigger] prim_wf(sf, j) by {
                assert(prim_wf(so, j));
                assert(prim_path(sf, j) == prim_path(so, j));
                assert(sf.prims@[j].name == so.prims@[j].name);
                assert(prim_path(sf, prim_parent(so, j)) == prim_path(so, prim_parent(so, j)));
            }
            assert forall|j: int, k: int| 0 <= j < k < prim_count(sf)
                implies #[trigger] prim_path(sf, j) != #[trigger] prim_path(sf, k) by {
                assert(prim_path(sf, j) == prim_path(so, j));
                assert(prim_path(sf, k) == prim_path(so, k));
            }
            assert forall|q: int| 0 <= q < prop_count(sf) implies #[trigger] prop_wf(sf, q) by {
                assert(prop_wf(so, q));
                let owner = so.props@[q].info.prim as int;
                assert(prim_path(sf, owner) == prim_path(so, owner));
            }
        }
        true
    }

    /// Set the display name of a property record; reports whether the
    /// record exists.
    pub fn set_prop_display_name(&mut self, prop: usize, text: &str) -> (r: bool)
        requires
            scene_wf(old(self)),
        ensures
            scene_wf(final(self)),
            final(self).prims@ == old(self).prims@,
            r == (prop < prop_count(old(self))),
            !r ==> final(self).props@ == old(self).props@,
            r ==> {
                &&& prop_count(final(self)) == prop_count(old(self))
                &&& final(self).props@[prop as int].info.display_name@ == text@
                &&& final(self).props@[prop as int].info.prim
                    == old(self).props@[prop as int].info.prim
                &&& final(self).props@[prop as int].info.name
                    == old(self).props@[prop as int].info.name
                &&& final(self).props@[prop as int].info.path
                    == old(self).props@[prop as int].info.path
                &&& final(self).props@[prop as int].info.display_group
                    == old(self).props@[prop as int].info.display_group
                &&& final(self).props@[prop as int].payload == old(self).props@[prop as int].payload
                &&& forall|q: int|
                    0 <= q < prop_count(old(self)) && q != prop as int
                        ==> final(self).props@[q] == old(self).props@[q]
            },
    {
        if prop >= self.props.len() {
            return false;
        }
        self.props[prop].info.display_name = String::from_str(text);
        proof {
            let sf = &*self;
            let so = old(self);
            assert forall|j: int| 1 <= j < prim_count(sf) implies #[trigger] prim_wf(sf, j) by {
                assert(prim_wf(so, j));
            }
            assert forall|j: int, k: int| 0 <= j < k < prim_count(sf)
                implies #[trigger] prim_path(sf, j) != #[trigger] prim_path(sf, k) by {
                assert(prim_path(so, j) != prim_path(so, k));
            }
            assert forall|q: int| 0 <= q < prop_count(sf) implies #[trigger] prop_wf(sf, q) by {
                assert(prop_wf(so, q));
                assert(sf.props@[q].info.prim == so.props@[q].info.prim);
                assert(sf.props@[q].info.path == so.props@[q].info.path);
                assert(sf.props@[q].info.name == so.props@[q].info.name);
                assert(sf.props@[q].payload == so.props@[q].payload);
            }
        }
        true
    }

    /// Set the display group of a property record; reports whether the
    /// record exists.
    pub fn set_display_group(&mut self, prop: usize, text: &str) -> (r: bool)
        requires
            scene_wf(old(self)),
        ensures
            scene_wf(final(self)),
            final(self).prims@ == old(self).prims@,
            r == (prop < prop_count(old(self))),
            !r ==> final(self).props@ == old(self).props@,
            r ==> {
                &&& prop_count(final(self)) == prop_count(old(self))
                &&& final(self).props@[prop as int].info.display_group@ == text@
                &&& final(self).props@[prop as int].info.prim
                    == old(self).props@[prop as int].info.prim
                &&& final(self).props@[prop as int].info.name
                    == old(self).props@[prop as int].info.name
                &&& final(self).props@[prop as int].info.path
                    == old(self).props@[prop as int].info.path
                &&& final(self).props@[prop as int].payload == old(self).props@[prop as int].payload
                &&& forall|q: int|
                    0 <= q < prop_count(old(self)) && q != prop as int
                        ==> final(self).props@[q] == old(self).props@[q]
            },
    {
        if prop >= self.props.len() {
            return false;
        }
        self.props[prop].info.display_group = String::from_str(text);
        proof {
            let sf = &*self;
            let so = old(self);
            assert forall|j: int| 1 <= j < prim_count(sf) implies #[trigger] prim_wf(sf, j) by {
                assert(prim_wf(so, j));
            }
            assert forall|j: int, k: int| 0 <= j < k < prim_count(sf)
                implies #[trigger] prim_path(sf, j) != #[trigger] prim_path(sf, k) by {
                assert(prim_path(so, j) != prim_path(so, k));
            }
            assert forall|q: int| 0 <= q < prop_count(sf) implies #[trigger] prop_wf(sf, q) by {
                assert(prop_wf(so, q));
                assert(sf.props@[q].info.prim == so.props@[q].info.prim);
                assert(sf.props@[q].info.path == so.props@[q].info.path);
                assert(sf.props@[q].info.name == so.props@[q].info.name);
                assert(sf.props@[q].payload == so.props@[q].payload);
            }
        }
        true
    }
}

/// The pre-order traversal of the subtree rooted at prim `i`: the prim
/// itself, then each child's subtree, children in declaration order.
pub open spec fn subtree_seq(s: &SceneData, i: int) -> Seq<usize>
    decreases prim_count(s) - i, children_of(s, i).len() + 1,
{
    seq![i as usize] + subtrees_from(s, i, 0)
}

/// The concatenated pre-order traversals of the subtrees of the
/// children of `i`, starting at child position `k`.
pub open spec fn subtrees_from(s: &SceneData, i: int, k: int) -> Seq<usize>
    decreases prim_count(s) - i, children_of(s, i).len() - k,
{
    if 0 <= i < prim_count(s) && 0 <= k < children_of(s, i).len() {
        let c = children_of(s, i)[k] as int;
        if i < c < prim_count(s) {
            subtree_seq(s, c) + subtrees_from(s, i, k + 1)
        } else {
            subtrees_from(s, i, k + 1)
        }
    } else {
        Seq::empty()
    }
}

/// A subtree traversal is never empty, and its root comes first: a
/// subtree range over a subtree of size `N` produces exactly the `N`
/// entries of [`subtree_seq`], beginning with the root itself.
pub proof fn lemma_subtree_starts_at_root(s: &SceneData, i: int)
    ensures
        subtree_seq(s, i).len() >= 1,
        subtree_seq(s, i)[0] == i as usize,
{
    assert((seq![i as usize] + subtrees_from(s, i, 0))[0] == i as usize);
}

/// Whether prim `a` lies on the parent chain of prim `j`: the
/// ancestor-or-self relation of the scene tree.
pub open spec fn is_ancestor(s: &SceneData, a: int, j: int) -> bool
    decreases j,
{
    if j == a {
        true
    } else if 0 < j < prim_count(s) && prim_parent(s, j) < j {
        is_ancestor(s, a, prim_parent(s, j))
    } else {
        false
    }
}

/// An ancestor never comes later in the arena than its descendant.
proof fn lemma_ancestor_le(s: &SceneData, a: int, j: int)
    requires
        is_ancestor(s, a, j),
    ensures
        a <= j,
    decreases j,
{
    if j != a {
        lemma_ancestor_le(s, a, prim_parent(s, j));
    }
}

/// The ancestor relation is transitive.
proof fn lemma_ancestor_trans(s: &SceneData, a: int, b: int, j: int)
    requires
        is_ancestor(s, a, b),
        is_ancestor(s, b, j),
    ensures
        is_ancestor(s, a, j),
    decreases j,
{
    if j != b {
        lemma_ancestor_trans(s, a, b, prim_parent(s, j));
    }
}

/// Two ancestors of one prim lie on one chain: one is an ancestor of
/// the other.
proof fn lemma_ancestor_chain(s: &SceneData, a: int, b: int, j: int)
    requires
        is_ancestor(s, a, j),
        is_ancestor(s, b, j),
    ensures
        is_ancestor(s, a, b) || is_ancestor(s, b, a),
    decreases j,
{
    if j != a && j != b {
        lemma_ancestor_chain(s, a, b, prim_parent(s, j));
    }
}

/// In a well-formed scene the pseudo-root is an ancestor of every prim.
proof fn lemma_root_ancestor(s: &SceneData, j: int)
    requires
        scene_wf(s),
        0 <= j < prim_count(s),
    ensures
        is_ancestor(s, 0, j),
    decreases j,
{
    if j != 0 {
        assert(prim_wf(s, j));
        lemma_root_ancestor(s, prim_parent(s, j));
    }
}

/// A proper descendant of `i` sits below exactly one child of `i`.
proof fn lemma_ancestor_step(s: &SceneData, i: int, j: int)
    requires
        scene_wf(s),
        0 <= i < prim_count(s),
        0 <= j < prim_count(s),
        is_ancestor(s, i, j),
        i != j,
    ensures
        exists|c: int| #[trigger] is_child(s, c, i) && is_ancestor(s, c, j),
    decreases j,
{
    let p = prim_parent(s, j);
    assert(prim_wf(s, j));
    if p == i {
        assert(is_child(s, j, i) && is_ancestor(s, j, j));
    } else {
        lemma_ancestor_step(s, i, p);
        let c = choose|c: int| #[trigger] is_child(s, c, i) && is_ancestor(s, c, p);
        lemma_ancestor_le(s, c, p);
        assert(is_ancestor(s, c, j));
    }
}

/// A child of `i` below bound `n` appears in the child listing.
proof fn lemma_children_upto_contains(s: &SceneData, i: int, n: int, c: int)
    requires
        is_child(s, c, i),
        c < n <= prim_count(s),
    ensures
        children_upto(s, i, n).contains(c as usize),
    decreases n,
{
    if c == n - 1 {
        let whole = children_upto(s, i, n);
        assert(whole.last() == (n - 1) as usize);
        assert(whole.contains(c as usize));
    } else {
        lemma_children_upto_contains(s, i, n - 1, c);
        let prefix = children_upto(s, i, n - 1);
        let k = choose|k: int| 0 <= k < prefix.len() && prefix[k] == c as usize;
        if is_child(s, n - 1, i) {
            assert(children_upto(s, i, n)[k] == c as usize);
        }
        assert(children_upto(s, i, n).contains(c as usize));
    }
}

/// Whether `e` sits below one of the children of `i` from child
/// position `k` on.
spec fn below_some_child(s: &SceneData, i: int, k: int, e: usize) -> bool {
    exists|m: int|
        k <= m < children_of(s, i).len() && is_ancestor(
            s,
            #[trigger] children_of(s, i)[m] as int,
            e as int,
        )
}

/// Every entry of a subtree traversal is a descendant of the root and
/// a valid prim index.
proof fn lemma_subtree_sound(s: &SceneData, i: int)
    requires
        scene_wf(s),
        0 <= i < prim_count(s),
    ensures
        forall|k: int|
            0 <= k < subtree_seq(s, i).len() ==> {
                &&& is_ancestor(s, i, (#[trigger] subtree_seq(s, i)[k]) as int)
                &&& i <= subtree_seq(s, i)[k] as int
                &&& (subtree_seq(s, i)[k] as int) < prim_count(s)
            },
    decreases prim_count(s) - i, children_of(s, i).len() + 1,
{
    lemma_subtrees_from_sound(s, i, 0);
    assert(vstd::std_specs::vec::spec_vec_len(&s.prims) == s.prims@.len());
    let whole = subtree_seq(s, i);
    let rest = subtrees_from(s, i, 0);
    assert(whole == seq![i as usize] + rest);
    assert forall|k: int| 0 <= k < whole.len() implies {
        &&& is_ancestor(s, i, (#[trigger] whole[k]) as int)
        &&& i <= whole[k] as int
        &&& (whole[k] as int) < prim_count(s)
    } by {
        if k == 0 {
            assert(whole[0] == (seq![i as usize] + rest)[0]);
            assert(whole[0] == i as usize);
        } else {
            assert(whole[k] == rest[k - 1]);
        }
    }
}

/// Every entry of the concatenated child subtrees from position `k` on
/// sits strictly below `i`, under one of those children.
proof fn lemma_subtrees_from_sound(s: &SceneData, i: int, k: int)
    requires
        scene_wf(s),
        0 <= i < prim_count(s),
        0 <= k,
    ensures
        forall|x: int|
            0 <= x < subtrees_from(s, i, k).len() ==> {
                &&& is_ancestor(s, i, (#[trigger] subtrees_from(s, i, k)[x]) as int)
                &&& i < subtrees_from(s, i, k)[x] as int
                &&& (subtrees_from(s, i, k)[x] as int) < prim_count(s)
                &&& below_some_child(s, i, k, subtrees_from(s, i, k)[x])
            },
    decreases prim_count(s) - i, children_of(s, i).len() - k,
{
    lemma_children_of(s, i);
    if k < children_of(s, i).len() {
        let c = children_of(s, i)[k] as int;
        assert(child_entry_ok(s, i, prim_count(s), children_of(s, i)[k]));
        lemma_subtree_sound(s, c);
        lemma_subtrees_from_sound(s, i, k + 1);
        let left = subtree_seq(s, c);
        let right = subtrees_from(s, i, k + 1);
        let whole = subtrees_from(s, i, k);
        assert(whole == left + right);
        assert(prim_parent(s, c) == i);
        assert(is_ancestor(s, i, i));
        assert(is_ancestor(s, i, c));
        assert forall|x: int| 0 <= x < whole.len() implies {
            &&& is_ancestor(s, i, (#[trigger] whole[x]) as int)
            &&& i < whole[x] as int
            &&& (whole[x] as int) < prim_count(s)
            &&& below_some_child(s, i, k, whole[x])
        } by {
            if x < left.len() {
                assert(whole[x] == left[x]);
                assert(is_ancestor(s, c, left[x] as int));
                lemma_ancestor_trans(s, i, c, left[x] as int);
                assert(is_ancestor(s, children_of(s, i)[k] as int, whole[x] as int));
            } else {
                assert(whole[x] == right[x - left.len()]);
                assert(below_some_child(s, i, k + 1, whole[x]));
                let m = choose|m: int|
                    k + 1 <= m < children_of(s, i).len() && is_ancestor(
                        s,
                        #[trigger] children_of(s, i)[m] as int,
                        whole[x] as int,
                    );
                assert(k <= m);
            }
        }
    }
}

/// Every descendant of `i` appears in the subtree traversal of `i`.
proof fn lemma_subtree_complete(s: &SceneData, i: int, j: int)
    requires
        scene_wf(s),
        0 <= i < prim_count(s),
        0 <= j < prim_count(s),
        is_ancestor(s, i, j),
    ensures
        subtree_seq(s, i).contains(j as usize),
    decreases j - i,
{
    assert(vstd::std_specs::vec::spec_vec_len(&s.prims) == s.prims@.len());
    let whole = subtree_seq(s, i);
    let rest = subtrees_from(s, i, 0);
    assert(whole == seq![i as usize] + rest);
    if j == i {
        assert(whole[0] == (seq![i as usize] + rest)[0]);
        assert(whole[0] == i as usize);
        assert(whole.contains(j as usize));
    } else {
        lemma_ancestor_le(s, i, j);
        lemma_ancestor_step(s, i, j);
        let c = choose|c: int| #[trigger] is_child(s, c, i) && is_ancestor(s, c, j);
        assert(prim_wf(s, c));
        lemma_ancestor_le(s, c, j);
        lemma_children_upto_contains(s, i, prim_count(s), c);
        let m = choose|m: int|
            0 <= m < children_of(s, i).len() && children_of(s, i)[m] == c as usize;
        assert(children_of(s, i)[m] as int == c);
        lemma_subtree_complete(s, c, j);
        lemma_subtrees_from_has(s, i, 0, m, j as usize);
        let x = choose|x: int| 0 <= x < rest.len() && rest[x] == j as usize;
        assert(whole[x + 1] == (seq![i as usize] + rest)[x + 1]);
        assert(whole[x + 1] == j as usize);
        assert(whole.contains(j as usize));
    }
}

/// What a child's subtree holds, the concatenation from any earlier
/// child position holds.
proof fn lemma_subtrees_from_has(s: &SceneData, i: int, k: int, m: int, e: usize)
    requires
        scene_wf(s),
        0 <= i < prim_count(s),
        0 <= k <= m < children_of(s, i).len(),
        subtree_seq(s, children_of(s, i)[m] as int).contains(e),
    ensures
        subtrees_from(s, i, k).contains(e),
    decreases m - k,
{
    lemma_children_of(s, i);
    assert(child_entry_ok(s, i, prim_count(s), children_of(s, i)[k]));
    let c = children_of(s, i)[k] as int;
    let left = subtree_seq(s, c);
    let right = subtrees_from(s, i, k + 1);
    let whole = subtrees_from(s, i, k);
    assert(whole == left + right);
    if m == k {
        let x = choose|x: int| 0 <= x < left.len() && left[x] == e;
        assert(whole[x] == e);
    } else {
        lemma_subtrees_from_has(s, i, k + 1, m, e);
        let x = choose|x: int| 0 <= x < right.len() && right[x] == e;
        assert(whole[left.len() + x] == e);
    }
    assert(whole.contains(e));
}

/// Concatenating duplicate-free sequences with no common element gives
/// a duplicate-free sequence.
proof fn lemma_concat_no_dup<A>(a: Seq<A>, b: Seq<A>)
    requires
        a.no_duplicates(),
        b.no_duplicates(),
        forall|x: A| a.contains(x) ==> !b.contains(x),
    ensures
        (a + b).no_duplicates(),
{
    let whole = a + b;
    assert forall|x: int, y: int| 0 <= x < y < whole.len() implies whole[x] != whole[y] by {
        if y < a.len() {
            assert(whole[x] == a[x] && whole[y] == a[y]);
        } else if x >= a.len() {
            assert(whole[x] == b[x - a.len()] && whole[y] == b[y - a.len()]);
        } else {
            assert(whole[x] == a[x] && whole[y] == b[y - a.len()]);
            assert(a.contains(a[x]));
            if whole[x] == whole[y] {
                assert(b.contains(a[x]));
            }
        }
    }
}

/// A subtree traversal never repeats a prim.
proof fn lemma_subtree_no_dup(s: &SceneData, i: int)
    requires
        scene_wf(s),
        0 <= i < prim_count(s),
    ensures
        subtree_seq(s, i).no_duplicates(),
    decreases prim_count(s) - i, children_of(s, i).len() + 1,
{
    lemma_subtrees_from_no_dup(s, i, 0);
    lemma_subtrees_from_sound(s, i, 0);
    let head = seq![i as usize];
    let rest = subtrees_from(s, i, 0);
    assert(head.no_duplicates());
    assert forall|x: usize| head.contains(x) implies !rest.contains(x) by {
        assert(head[0] == i as usize);
        if rest.contains(x) {
            let y = choose|y: int| 0 <= y < rest.len() && rest[y] == x;
            assert(i < rest[y] as int);
        }
    }
    lemma_concat_no_dup(head, rest);
}

/// The concatenated child subtrees from position `k` on never repeat a
/// prim: within one child's subtree by induction, and across children
/// because each prim sits below only one child.
proof fn lemma_subtrees_from_no_dup(s: &SceneData, i: int, k: int)
    requires
        scene_wf(s),
        0 <= i < prim_count(s),
        0 <= k,
    ensures
        subtrees_from(s, i, k).no_duplicates(),
    decreases prim_count(s) - i, children_of(s, i).len() - k,
{
    lemma_children_of(s, i);
    if k < children_of(s, i).len() {
        let c = children_of(s, i)[k] as int;
        assert(child_entry_ok(s, i, prim_count(s), children_of(s, i)[k]));
        lemma_subtree_no_dup(s, c);
        lemma_subtrees_from_no_dup(s, i, k + 1);
        lemma_subtree_sound(s, c);
        lemma_subtrees_from_sound(s, i, k + 1);
        let left = subtree_seq(s, c);
        let right = subtrees_from(s, i, k + 1);
        assert forall|x: usize| left.contains(x) implies !right.contains(x) by {
            if right.contains(x) {
                let lx = choose|lx: int| 0 <= lx < left.len() && left[lx] == x;
                assert(is_ancestor(s, c, x as int));
                let rx = choose|rx: int| 0 <= rx < right.len() && right[rx] == x;
                assert(below_some_child(s, i, k + 1, x));
                let m = choose|m: int|
                    k + 1 <= m < children_of(s, i).len() && is_ancestor(
                        s,
                        #[trigger] children_of(s, i)[m] as int,
                        x as int,
                    );
                let cm = children_of(s, i)[m] as int;
                assert(child_entry_ok(s, i, prim_count(s), children_of(s, i)[m]));
                lemma_children_upto(s, i, prim_count(s));
                assert(children_of(s, i)[k] < children_of(s, i)[m]);
                assert(c < cm);
                lemma_ancestor_chain(s, c, cm, x as int);
                if is_ancestor(s, c, cm) {
                    assert(is_ancestor(s, c, prim_parent(s, cm)));
                    lemma_ancestor_le(s, c, i);
                } else {
                    lemma_ancestor_le(s, cm, c);
                }
            }
        }
        lemma_concat_no_dup(left, right);
        assert(subtrees_from(s, i, k) == left + right);
    }
}

/// The fundamental exhaustion law of whole-stage traversal: the
/// pre-order listing from the pseudo-root of a well-formed scene
/// visits every prim of the scene exactly once — it never repeats a
/// prim, it reaches each of the `N` prims, and so its length is
/// exactly `N`.
pub proof fn lemma_preorder_whole_stage(s: &SceneData)
    requires
        scene_wf(s),
    ensures
        subtree_seq(s, 0).no_duplicates(),
        forall|j: int| 0 <= j < prim_count(s) ==> subtree_seq(s, 0).contains((#[trigger] (j as usize))),
        subtree_seq(s, 0).len() == prim_count(s),
{
    broadcast use vstd::set::group_set_axioms;

    let n = prim_count(s);
    assert(vstd::std_specs::vec::spec_vec_len(&s.prims) == s.prims@.len());
    let se = subtree_seq(s, 0);
    lemma_subtree_no_dup(s, 0);
    lemma_subtree_sound(s, 0);
    assert forall|j: int| 0 <= j < n implies se.contains((#[trigger] (j as usize))) by {
        lemma_root_ancestor(s, j);
        lemma_subtree_complete(s, 0, j);
    }
    let si = se.map_values(|c: usize| c as int);
    assert(si.len() == se.len());
    assert forall|x: int, y: int| 0 <= x < y < si.len() implies si[x] != si[y] by {
        assert(se[x] != se[y]);
    }
    assert(si.no_duplicates());
    assert(si.to_set() =~= vstd::set_lib::set_int_range(0, n)) by {
        assert forall|e: int| si.to_set().contains(e) implies 0 <= e < n by {
            let x = choose|x: int| 0 <= x < si.len() && si[x] == e;
            assert(se[x] as int == e);
        }
        assert forall|e: int| 0 <= e < n implies si.to_set().contains(e) by {
            assert(se.contains((#[trigger] (e as usize))));
            let x = choose|x: int| 0 <= x < se.len() && se[x] == e as usize;
            assert(si[x] == se[x] as int);
            assert(si[x] == e);
            assert(si.contains(e));
        }
    }
    si.unique_seq_to_set();
    vstd::set_lib::lemma_int_range(0, n);
}

/// The concatenated pre-order traversals of the prims on a work stack,
/// from the top of the stack down.
pub open spec fn flatten_stack(s: &SceneData, st: Seq<usize>) -> Seq<usize>
    decreases st.len(),
{
    if st.len() == 0 {
        Seq::empty()
    } else {
        subtree_seq(s, st.last() as int) + flatten_stack(s, st.drop_last())
    }
}

/// Pushing a prim onto the work stack prepends its subtree traversal
/// to the flattened remainder.
proof fn lemma_flatten_push(s: &SceneData, st: Seq<usize>, x: usize)
    ensures
        flatten_stack(s, st.push(x)) == subtree_seq(s, x as int) + flatten_stack(s, st),
{
    assert(st.push(x).last() == x);
    assert(st.push(x).drop_last() =~= st);
}

/// Compute the pre-order traversal of the subtree rooted at `root`:
/// exactly the indices of [`subtree_seq`], each a valid prim index.
pub fn preorder(s: &SceneData, root: usize) -> (r: Vec<usize>)
    requires
        scene_wf(s),
        (root as int) < prim_count(s),
    ensures
        r@ == subtree_seq(s, root as int),
        forall|k: int| 0 <= k < r@.len() ==> ((#[trigger] r@[k]) as int) < prim_count(s),
{
    let mut order: Vec<usize> = Vec::new();
    let mut stack: Vec<usize> = Vec::new();
    stack.push(root);
    proof {
        assert(stack@.len() == 1);
        assert(stack@.last() == root);
        assert(stack@.drop_last() =~= Seq::<usize>::empty());
        assert(flatten_stack(s, stack@)
            == subtree_seq(s, root as int) + flatten_stack(s, stack@.drop_last()));
        assert(subtree_seq(s, root as int) + Seq::<usize>::empty()
            =~= subtree_seq(s, root as int));
        assert(order@ + flatten_stack(s, stack@) =~= subtree_seq(s, root as int));
    }
    while stack.len() != 0
        invariant
            scene_wf(s),
            (root as int) < prim_count(s),
            forall|j: int|
                0 <= j < stack@.len() ==> ((#[trigger] stack@[j]) as int) < prim_count(s),
            forall|j: int|
                0 <= j < order@.len() ==> ((#[trigger] order@[j]) as int) < prim_count(s),
            order@ + flatten_stack(s, stack@) == subtree_seq(s, root as int),
        decreases flatten_stack(s, stack@).len(),
    {
        let ghost stack_before = stack@;
        let ghost order_before = order@;
        let top_opt = stack.pop();
        let top = top_opt.unwrap();
        order.push(top);
        let ghost rest = stack@;
        proof {
            assert(stack_before.last() == top);
            assert(stack_before.drop_last() == rest);
            assert(flatten_stack(s, stack_before)
                == subtree_seq(s, top as int) + flatten_stack(s, rest));
        }
        let kids = children_vec(s, top);
        let mut k = kids.len();
        proof {
            lemma_children_of(s, top as int);
            assert(subtrees_from(s, top as int, k as int) =~= Seq::<usize>::empty());
            assert(flatten_stack(s, stack@)
                =~= subtrees_from(s, top as int, k as int) + flatten_stack(s, rest));
        }
        while k != 0
            invariant
                scene_wf(s),
                (top as int) < prim_count(s),
                k <= kids@.len(),
                kids@ == children_of(s, top as int),
                order@ == order_before.push(top),
                forall|j: int|
                    0 <= j < stack@.len() ==> ((#[trigger] stack@[j]) as int) < prim_count(s),
                flatten_stack(s, stack@)
                    == subtrees_from(s, top as int, k as int) + flatten_stack(s, rest),
            decreases k,
        {
            k = k - 1;
            let c = kids[k];
            proof {
                lemma_children_of(s, top as int);
                assert(child_entry_ok(s, top as int, prim_count(s), children_of(s, top as int)[k as int]));
            }
            let ghost stack_mid = stack@;
            stack.push(c);
            proof {
                lemma_flatten_push(s, stack_mid, c);
                assert(subtrees_from(s, top as int, k as int)
                    == subtree_seq(s, c as int) + subtrees_from(s, top as int, k as int + 1));
                assert(subtree_seq(s, c as int)
                    + (subtrees_from(s, top as int, k as int + 1) + flatten_stack(s, rest))
                    =~= (subtree_seq(s, c as int) + subtrees_from(s, top as int, k as int + 1))
                        + flatten_stack(s, rest));
            }
        }
        proof {
            assert(flatten_stack(s, stack@)
                == subtrees_from(s, top as int, 0) + flatten_stack(s, rest));
            assert(subtree_seq(s, top as int) == seq![top] + subtrees_from(s, top as int, 0));
            assert(order_before + flatten_stack(s, stack_before) == subtree_seq(s, root as int));
            assert(order_before + (seq![top] + (subtrees_from(s, top as int, 0)
                + flatten_stack(s, rest)))
                =~= (order_before.push(top))
                    + (subtrees_from(s, top as int, 0) + flatten_stack(s, rest)));
            assert(order_before + ((seq![top] + subtrees_from(s, top as int, 0))
                + flatten_stack(s, rest))
                =~= order_before + (seq![top] + (subtrees_from(s, top as int, 0)
                    + flatten_stack(s, rest))));
            assert(order@ + flatten_stack(s, stack@) == subtree_seq(s, root as int));
        }
    }
    proof {
        assert(flatten_stack(s, stack@) =~= Seq::<usize>::empty());
        assert(order@ + flatten_stack(s, stack@) =~= order@);
    }
    order
}

/// The abstraction of an optional value: its view, when present.
pub open spec fn value_opt_view(v: &Option<Value>) -> Option<crate::vt::ValueView> {
    match v {
        Some(x) => Some(x@),
        None => None,
    }
}

/// The abstraction of a sample list: ordinate and value view per entry.
pub open spec fn samples_view(s: Seq<TimeSample>) -> Seq<(u64, crate::vt::ValueView)> {
    s.map_values(|ts: TimeSample| (ts.time, ts.value@))
}

/// The abstraction of a path list: the path texts.
pub open spec fn paths_view(v: Seq<Path>) -> Seq<Seq<char>> {
    v.map_values(|p: Path| p@)
}

/// The abstraction of an optional target list: the path texts, when
/// targets were authored.
pub open spec fn targets_view(t: &Option<Vec<Path>>) -> Option<Seq<Seq<char>>> {
    match t {
        Some(v) => Some(paths_view(v@)),
        None => None,
    }
}

/// Whether a payload carries any authored opinion: a default value or
/// a time sample for an attribute, a target list for a relationship.
pub open spec fn payload_authored(p: &PropPayload) -> bool {
    match p {
        PropPayload::Attribute(a) => a.default_value is Some || a.samples@.len() > 0,
        PropPayload::Relationship(r) => r.targets is Some,
    }
}

impl Clone for TimeSample {
    fn clone(&self) -> (r: TimeSample)
        ensures
            r.time == self.time,
            r.value@ == self.value@,
    {
        TimeSample { time: self.time, value: self.value.clone() }
    }
}

impl Clone for AttrData {
    fn clone(&self) -> (r: AttrData)
        ensures
            r.type_token@ == self.type_token@,
            r.variability == self.variability,
            value_opt_view(&r.default_value) == value_opt_view(&self.default_value),
            samples_view(r.samples@) == samples_view(self.samples@),
    {
        let default_value = match &self.default_value {
            Some(v) => Some(v.clone()),
            None => None,
        };
        let mut samples: Vec<TimeSample> = Vec::new();
        let n = self.samples.len();
        for i in 0..n
            invariant
                n == self.samples@.len(),
                samples@.len() == i,
                forall|k: int|
                    0 <= k < i ==> (#[trigger] samples@[k]).time == self.samples@[k].time
                        && samples@[k].value@ == self.samples@[k].value@,
        {
            samples.push(self.samples[i].clone());
        }
        let r = AttrData {
            type_token: self.type_token.clone(),
            variability: self.variability,
            default_value,
            samples,
        };
        proof {
            assert(samples_view(r.samples@) =~= samples_view(self.samples@));
        }
        r
    }
}

impl Clone for RelData {
    fn clone(&self) -> (r: RelData)
        ensures
            targets_view(&r.targets) == targets_view(&self.targets),
    {
        let targets = match &self.targets {
            Some(v) => {
                let mut out: Vec<Path> = Vec::new();
                let n = v.len();
                for i in 0..n
                    invariant
                        n == v@.len(),
                        out@.len() == i,
                        forall|k: int| 0 <= k < i ==> (#[trigger] out@[k])@ == v@[k]@,
                {
                    out.push(v[i].clone());
                }
                proof {
                    assert(paths_view(out@) =~= paths_view(v@));
                }
                Some(out)
            },
            None => None,
        };
        RelData { targets }
    }
}

impl Clone for PropData {
    fn clone(&self) -> (r: PropData)
        ensures
            r.prim == self.prim,
            r.name@ == self.name@,
            r.path@ == self.path@,
            r.display_name@ == self.display_name@,
            r.display_group@ == self.display_group@,
    {
        PropData {
            prim: self.prim,
            name: self.name.clone(),
            path: self.path.clone(),
            display_name: self.display_name.clone(),
            display_group: self.display_group.clone(),
        }
    }
}

/// One catalog entry: a scene stored under a location.
pub struct SceneEntry {
    pub location: String,
    pub scene: SceneData,
}

/// A catalog of well-formed scenes addressable by location: the root
/// set from which stages are opened.
pub struct SceneSource {
    pub entries: Vec<SceneEntry>,
}

/// Well-formedness of a catalog: every held scene is well-formed and
/// locations are pairwise distinct.
pub open spec fn source_wf(src: &SceneSource) -> bool {
    &&& forall|e: int|
        0 <= e < src.entries@.len() ==> scene_wf(&(#[trigger] src.entries@[e]).scene)
    &&& forall|e: int, f: int|
        0 <= e < f < src.entries@.len()
            ==> (#[trigger] src.entries@[e]).location@ != (#[trigger] src.entries@[f]).location@
}

/// Whether the catalog holds a scene under `location`.
pub open spec fn has_location(src: &SceneSource, location: Seq<char>) -> bool {
    exists|e: int| 0 <= e < src.entries@.len() && (#[trigger] src.entries@[e]).location@ == location
}

impl SceneSource {
    /// An empty catalog.
    pub fn new() -> (src: SceneSource)
        ensures
            source_wf(&src),
            src.entries@.len() == 0,
    {
        SceneSource { entries: Vec::new() }
    }

    /// Store a well-formed scene under a location.  Succeeds exactly
    /// when the location is not taken yet; leaves the catalog unchanged
    /// otherwise.
    pub fn add_scene(&mut self, location: &str, scene: SceneData) -> (r: bool)
        requires
            source_wf(old(self)),
            scene_wf(&scene),
        ensures
            source_wf(final(self)),
            r == !has_location(old(self), location@),
            r ==> {
                &&& final(self).entries@.drop_last() == old(self).entries@
                &&& final(self).entries@.len() == old(self).entries@.len() + 1
                &&& final(self).entries@.last().location@ == location@
                &&& final(self).entries@.last().scene == scene
            },
            !r ==> final(self).entries@ == old(self).entries@,
    {
        let loc = String::from_str(location);
        let n = self.entries.len();
        for e in 0..n
            invariant
                n == self.entries@.len(),
                loc@ == location@,
                *self == *old(self),
                source_wf(old(self)),
                forall|k: int| 0 <= k < e ==> (#[trigger] self.entries@[k]).location@ != location@,
        {
            if self.entries[e].location.eq(&loc) {
                assert(self.entries@[e as int].location@ == location@);
                return false;
            }
        }
        let entry = SceneEntry { location: String::from_str(location), scene };
        self.entries.push(entry);
        proof {
            let sf = &*self;
            let so = old(self);
            assert forall|e: int| 0 <= e < sf.entries@.len()
                implies scene_wf(&(#[trigger] sf.entries@[e]).scene) by {
                if e < so.entries@.len() {
                    assert(sf.entries@[e] == so.entries@[e]);
                }
            }
            assert forall|e: int, f: int| 0 <= e < f < sf.entries@.len()
                implies (#[trigger] sf.entries@[e]).location@
                    != (#[trigger] sf.entries@[f]).location@ by {
                if f < so.entries@.len() {
                    assert(sf.entries@[e] == so.entries@[e]);
                    assert(sf.entries@[f] == so.entries@[f]);
                } else {
                    assert(sf.entries@[e] == so.entries@[e]);
                }
            }
        }
        true
    }

    /// Look up the scene stored under a location.
    pub fn lookup(&self, location: &str) -> (r: Option<&SceneData>)
        requires
            source_wf(self),
        ensures
            match r {
                Some(s) => {
                    &&& has_location(self, location@)
                    &&& scene_wf(s)
                    &&& exists|e: int|
                        0 <= e < self.entries@.len()
                            && (#[trigger] self.entries@[e]).location@ == location@
                            && s == &self.entries@[e].scene
                },
                None => !has_location(self, location@),
            },
    {
        let loc = String::from_str(location);
        let n = self.entries.len();
        for e in 0..n
            invariant
                n == self.entries@.len(),
                loc@ == location@,
                source_wf(self),
                forall|k: int| 0 <= k < e ==> (#[trigger] self.entries@[k]).location@ != location@,
        {
            if self.entries[e].location.eq(&loc) {
                return Some(&self.entries[e].scene);
            }
        }
        None
    }
}

} // verus!

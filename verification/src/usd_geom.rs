//! Geometry schema handles: typed wrappers over prims of a known
//! schema type.

use vstd::prelude::*;
use crate::scene::prim_count;
use crate::usd::Attribute;
use crate::usd::Prim;
use crate::usd::has_attribute_named;

verus! {

/// A prim presented through the mesh schema: the typed accessors reach
/// the attributes the schema names.
pub struct Mesh<'a> {
    /// The underlying prim handle.
    pub prim: Prim<'a>,
}

impl<'a> Mesh<'a> {
    /// The underlying prim handle is usable.
    pub open spec fn wf(&self) -> bool {
        self.prim.wf()
    }

    /// Present a prim through the mesh schema; succeeds exactly when
    /// the prim's schema type is `Mesh`.
    pub fn from_prim(prim: Prim<'a>) -> (r: Option<Mesh<'a>>)
        requires
            prim.wf(),
        ensures
            r is Some <==> prim.scene.prims@[prim.index as int].type_token@ == "Mesh"@,
            r matches Some(m) ==> m.prim == prim && m.wf(),
    {
        if prim.scene.prims[prim.index].type_token.text_equals("Mesh") {
            Some(Mesh { prim })
        } else {
            None
        }
    }

    /// The point-positions attribute, when the prim carries one.
    pub fn points_attr(&self) -> (r: Option<Attribute>)
        requires
            self.wf(),
        ensures
            r is Some <==> has_attribute_named(self.prim.scene, self.prim.index as int, "points"@),
            r matches Some(at) ==> at.wf() && at.info.name@ == "points"@,
    {
        self.prim.attribute_named("points")
    }

    /// The bounding-extent attribute, when the prim carries one.
    pub fn extent_attr(&self) -> (r: Option<Attribute>)
        requires
            self.wf(),
        ensures
            r is Some <==> has_attribute_named(self.prim.scene, self.prim.index as int, "extent"@),
            r matches Some(at) ==> at.wf() && at.info.name@ == "extent"@,
    {
        self.prim.attribute_named("extent")
    }

    /// The face-vertex-counts attribute, when the prim carries one.
    pub fn face_vertex_counts_attr(&self) -> (r: Option<Attribute>)
        requires
            self.wf(),
        ensures
            r is Some <==> has_attribute_named(
                self.prim.scene,
                self.prim.index as int,
                "faceVertexCounts"@,
            ),
            r matches Some(at) ==> at.wf() && at.info.name@ == "faceVertexCounts"@,
    {
        self.prim.attribute_named("faceVertexCounts")
    }

    /// The face-vertex-indices attribute, when the prim carries one.
    pub fn face_vertex_indices_attr(&self) -> (r: Option<Attribute>)
        requires
            self.wf(),
        ensures
            r is Some <==> has_attribute_named(
                self.prim.scene,
                self.prim.index as int,
                "faceVertexIndices"@,
            ),
            r matches Some(at) ==> at.wf() && at.info.name@ == "faceVertexIndices"@,
    {
        self.prim.attribute_named("faceVertexIndices")
    }
}

} // verus!

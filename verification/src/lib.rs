//! A safe, verified object model for layered 3D scene description:
//! stages, prims, properties, typed values, paths and tokens.
//!
//! A stage is an immutable, addressable tree of prims built through
//! [`scene::SceneData`] and opened from a [`scene::SceneSource`].  Every
//! handle type comes in an owning and a borrowed-view flavour, value
//! payloads live in the tagged [`vt::Value`] container with a
//! probe-then-extract API, and traversal is exposed through sibling and
//! subtree ranges with exact contracts.
//!
//! Floating-point payloads are carried as their IEEE-754 bit patterns
//! (`u32`/`u64`), which keeps every value a plain, comparable datum.

pub mod ar;
pub mod scene;
pub mod sdf;
pub mod tf;
pub mod usd;
pub mod usd_geom;
pub mod vt;

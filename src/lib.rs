//! Geometry for an animated flag beside a flagpole, a ground and a wall.
//!
//! The library holds everything about the meshes that is exact: how a
//! vertex record is laid out for the device, the flag's parametric grid and
//! its triangle list, the background's vertices and triangle list with the
//! scene's dimensions, the checks a mesh passes before upload, the byte
//! ranges of each upload, and the viewer's answer to window events. The
//! floating-point evaluation of positions and normals is left to the caller.
use vstd::prelude::*;

pub mod grid;
pub mod input;
pub mod layout;
pub mod mesh;
pub mod scene;

verus! {

} // verus!

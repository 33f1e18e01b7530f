//! Verified core of an instanced thick-line renderer: the quad geometry, the
//! vertex-buffer layouts, the surface setup choices and the event-loop decisions.

pub mod surface;
pub mod frame;
pub mod layout;
pub mod geometry;

//! A software 3D wireframe renderer with verified arithmetic: meshes are
//! transformed by camera and placement matrices, perspective-divided,
//! mapped to screen coordinates and rasterized as vertices, interpolated
//! Bresenham lines and triangle outlines, into a caller-owned pixel buffer.
//!
//! Every scalar is a saturating fixed-point number (`fixed`), so each
//! operation's contract states its exact result; `laws` proves the global
//! properties of the camera matrices. Window handling, image files and
//! trigonometry stay outside: callers pass tangents and sine/cosine pairs
//! in as plain scalars.

pub mod algebra;
pub mod fixed;
pub mod laws;
pub mod math;
pub mod modifiers;
pub mod reader;
pub mod render;

//! Settings codec and shader templating for an escape-time fractal viewer.
//!
//! The settings of a view travel as a short text: the format's version tag,
//! a semicolon, and the base64 form of the binary record. Older tags are
//! still read and brought up to the current record. The shader source is a
//! fixed template with two slots for the user's expressions. A finished
//! source is validated outside; what is kept here is which source waits for
//! the validator, what its verdict changes, and that only an accepted
//! source replaces the one that renders.

pub mod recompile;
pub mod settings;
pub mod shader;
pub mod shape;
pub mod text;
pub mod uniforms;

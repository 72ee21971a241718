//! Camera input handling, mesh topology and material assembly for a scene
//! viewer.
//!
//! The library holds the decisions of the viewer: which keys move the camera,
//! how pointer motion is queued between frames, how the flat attribute and
//! index lists of a parsed mesh are checked and grouped, how many triangles
//! share each vertex, and in which order the textures of a model's materials
//! are requested and paired. The numeric work on vectors is done by the
//! caller with the values this library hands back.
pub mod input;
pub mod material;
pub mod mesh;

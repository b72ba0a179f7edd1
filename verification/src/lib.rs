//! A scene-graph renderer core: fixed-point transform algebra, a tree of
//! transform nodes with parent-relative pivots, recursive world-matrix
//! composition, a closed-form flight-path animation driver, and the camera
//! and resize state machines of the frame loop.
//!
//! All coordinates, angles and matrix entries are fixed-point numbers in
//! millionths of a unit, so every computation is exact and deterministic;
//! the rendering shell converts them to the graphics API's native floats
//! at the upload boundary.

pub mod fixed;
pub mod trig;
pub mod vec3;
pub mod mat4;
pub mod scene;
pub mod traverse;
pub mod animation;
pub mod camera;
pub mod window;

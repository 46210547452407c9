//! A software raycaster for grid mazes: grid traversal with exact integer arithmetic,
//! wall, floor and ceiling compositing into a pixel buffer, shading, fog and vignette,
//! a texture store with generated fallbacks, and the game session around them.
//!
//! World coordinates are integers: one cell spans `tile_size` world units. Directions,
//! brightness factors and texture coordinates are fixed-point fractions.

pub mod color;
pub mod maze;
pub mod caster;
pub mod shading;
pub mod texture;
pub mod framebuffer;
pub mod render;
pub mod effects;
pub mod player;
pub mod pill;
pub mod camera;
pub mod sprite;
pub mod enemy;
pub mod game;


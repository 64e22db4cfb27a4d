//! Retained-mode layout and resource core for a small interactive renderer:
//! a generational arena with stable handles, a name-indexed resource vault
//! built on it, and a scene-graph transform engine that resolves anchor and
//! pivot constraints into cached positions, sizes and render matrices.

pub mod arena;
pub mod asset;
pub mod assoc;
pub mod atlas;
pub mod canvas;
pub mod context;
pub mod element;
pub mod fx;
pub mod material;
pub mod matrix;
pub mod mesh;
pub mod rect;
pub mod rendering;
pub mod scene;
pub mod vault;
pub mod vec2;
pub mod widgets;

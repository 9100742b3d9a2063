//! Verified core of a small 2D role-playing game: rectangle geometry, an
//! entity-component world with collision resolution, follow behaviour,
//! animation ticking and interaction dispatch, and a suspend/resume dialogue
//! engine driven by single-shot signals.
//!
//! All coordinates live on an integer pixel grid. Rendering, input polling,
//! asset loading and JSON persistence are collaborators that sit outside this
//! crate; they exchange plain values with the types defined here.

pub mod animation;
pub mod assets;
pub mod collision;
pub mod dialogue;
pub mod draw;
pub mod follow;
pub mod game;
pub mod geom;
pub mod input;
pub mod interact;
pub mod overworld;
pub mod script;
pub mod scripts;
pub mod ustr;
pub mod world;

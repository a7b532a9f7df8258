//! A 2D side-scroller's player animation and locomotion core: the rules that
//! reconcile discrete input edges, the physics engine's velocity, and a fixed
//! set of animation clips into one coherent, flicker-free visual state.
//!
//! The host engine owns rendering, asset loading, input polling and the
//! physics simulation itself; once per simulation tick it samples those
//! collaborators and hands this library plain values. The library decides the
//! animation state, the velocity components the character controls, and the
//! sprite-sheet frame to draw.

pub mod clip;
pub mod input;
pub mod motion;
pub mod frames;
pub mod character;

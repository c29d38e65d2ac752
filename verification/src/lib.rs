//! A diagram-rendering service core: the render pipeline that drives a
//! browser-based diagram renderer, the pool logic that keeps the shared
//! browser resource alive, and the string encoding that carries diagram
//! text across the page-script boundary.

pub mod cli;
pub mod encode;
pub mod laws;
pub mod pipeline;

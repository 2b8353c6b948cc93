//! Decision logic of a compositing overlay host: the render-surface state
//! machine, its visibility rules, and the entrance easing used by content.

pub mod angles;
pub mod easing;
pub mod geometry;
pub mod guarantees;
pub mod host;
pub mod keyhook;
pub mod message;
pub mod session;
pub mod status;
pub mod surface;

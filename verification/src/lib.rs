//! The decision logic of a bee colony simulation: sprite animation, the
//! purposes that drive each bee, and the resource-gathering routine.

pub mod animation;
mod chance;
pub mod skills;
pub mod unit;
pub mod bee;
pub mod gathering;

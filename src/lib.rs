//! Lifecycle engine for projectiles and the spawners that emit them.
//!
//! The library holds the parts of the engine that decide: how many items a
//! spawn-rate controller releases each tick, how the combinators that wrap a
//! controller change that, how a projectile moves from alive to expired, when
//! a chain of spawners is complete, and when a root instance may be removed
//! because every instance spawned under it has finished.
//!
//! Time is measured in whole nanoseconds and rates in thousandths of a spawn
//! per second, so that every accumulation is exact.
pub mod access;
mod rng;
pub mod lifecycle;
pub mod spawning;
pub mod token;
pub mod util;

pub use lifecycle::ProjectileSpace;
pub use token::ProjectileRc;

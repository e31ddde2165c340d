//! The ability core of a top-down action game: cooldowns, heat and overheat,
//! area effects and the resolution of "use ability" intents, in integer
//! fixed-point arithmetic.
//!
//! Times are nanoseconds. Heat, health, damage and damping are counted in
//! billionths of a point, so that a rate in points per second is a number of
//! units per nanosecond. Lengths are thousandths of a pixel.

pub mod abilities;
pub mod actor;
pub mod countdown;
pub mod explosion;
pub mod guarantees;
pub mod health;
pub mod lifetime;
pub mod room;
pub mod units;
pub mod world;

//! Game rules of three small arcade games, verified with Verus.
//!
//! * [`catch_me`]: a two-player chase game played with two mice.
//! * [`darth_chips`]: the integer bookkeeping of a survival game
//!   (saber angle, force-lightning cooldown, calories, enemy spawning).
//! * [`may_the_4th`]: the integer bookkeeping of a shooter
//!   (lives, score, enemy spawn pacing).

pub mod arith;
pub mod catch_me;

pub use catch_me::{interpolate_color, rect_collision, Rectangle};
pub mod darth_chips;
pub mod host;
pub mod may_the_4th;

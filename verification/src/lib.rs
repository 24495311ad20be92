//! A time-based value-interpolation ("transition") engine.
//!
//! Given a current value, a target value, a duration and an easing curve, a
//! [`Transition`] produces the intermediate value at any query time,
//! re-evaluating lazily and caching the result for one scheduling frame.
//!
//! Time is measured in whole milliseconds and progress is a fixed-point
//! fraction of [`PROGRESS_SCALE`], so every computation here is exact integer
//! arithmetic with proven bounds.

pub mod easing;
pub mod geometry;
pub mod lerp;
pub mod state;
pub mod store;
pub mod transition;

pub use easing::Easing;
pub use geometry::{Bounds, Corners, Edges, Point, Rgba, Size};
pub use lerp::{lerp, Lerp, PROGRESS_SCALE};
pub use state::TransitionState;
pub use store::StateStore;
pub use transition::{use_transition, Transition};

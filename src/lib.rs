//! Time-driven animation engine of a touch vehicle dashboard: timers that turn
//! wall-clock milliseconds into exact progress fractions, the back easing
//! curve, the four panel widgets and the panel controller that switches
//! between them.
pub mod timer;
pub mod utils;
pub mod lock;
pub mod charge;
pub mod temp;
pub mod tyre;
pub mod app;

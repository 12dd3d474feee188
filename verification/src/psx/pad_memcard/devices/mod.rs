//! Devices for the controller ports.

pub mod peripheral_trait;
pub mod multitap;
pub mod mouse;
pub mod dance_mat;
pub mod guncon;
pub mod negcon;

pub use self::peripheral_trait::{Peripheral, Response};
pub mod fishing;

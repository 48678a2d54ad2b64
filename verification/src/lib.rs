//! Hardware-independent interfaces for cooling fans.
//!
//! A driver implements [`Fan`] for a device whose speed can be commanded and
//! [`RpmSense`] for one whose speed can be measured; a device may be either or both.
//! Control code is then written once, against the traits, and runs on any such device.
//!
//! Every trait pairs its methods with a model: spec functions that say, for a
//! given device, what its limits are and which outcomes a command may have. The
//! methods' contracts are stated over that model, so code that is generic over a
//! device is verified against whatever its driver promises.
//!
//! Speeds are whole rotations per minute in a `u16`.

pub mod error;
pub mod fan;
pub mod sense;
pub mod speed;

pub use error::{Error, ErrorKind, ErrorType};
pub use fan::{Fan, Limits};
pub use sense::RpmSense;

//! Verified core of a scriptable host for OpenFX image effect plugins.
//!
//! The modules hold the host's bookkeeping: strings that cross the C
//! boundary, property sets, parameter values, handle registries,
//! outstanding image handles, timing and command-level decisions.
//! Plugin loading, the C suites and image I/O live in `app/`.

pub mod strings;
pub mod strmap;
pub mod status;
pub mod properties;
pub mod constants;
pub mod params;
pub mod handles;
pub mod images;
pub mod timer;
pub mod messages;
pub mod host;
pub mod paths;
pub mod layouts;
pub mod frames;
pub mod arguments;
pub mod steps;

pub use strings::OfxStr;
pub use handles::{HandleManager, IntoObject, Object};
pub use properties::{Property, PropertySet, PropertyValue};
pub use timer::Timer;

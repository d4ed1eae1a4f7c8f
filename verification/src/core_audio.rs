//! The audio object plane: objects addressed by numeric handles, properties
//! addressed by packed four-character codes, listeners, taps and aggregate
//! devices.

pub mod aggregate_device_keys;
pub mod hardware;
pub mod hardware_tapping;
pub mod laws;
pub mod sub_device_keys;
pub mod sub_tap_keys;
pub mod types;

pub use hardware::AggregateDevice;
pub use hardware::Composition;
pub use hardware::Device;
pub use hardware::Hardware;
pub use hardware::Notice;
pub use hardware::ObjEntry;
pub use hardware::PropEntry;
pub use hardware::PropValue;
pub use hardware::Process;
pub use hardware::Registration;
pub use hardware::System;
pub use hardware::SubDevice;
pub use hardware_tapping::Tap;
pub use hardware_tapping::TapDesc;
pub use types::Class;
pub use types::Obj;
pub use types::PropAddr;
pub use types::PropElement;
pub use types::PropScope;
pub use types::PropSelector;

//! Attached mobile devices: the connect, session and service ladder, with
//! each rung consumed on the way up so it cannot be climbed twice.

pub mod device;

pub use device::Connected;
pub use device::Device;
pub use device::InterfaceConnectionType;
pub use device::Service;
pub use device::Session;

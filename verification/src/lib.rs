//! Verified protocol, framing and decision logic for a DIY scanning electron
//! microscope rig: the USBTMC bulk framing used to talk to bench instruments,
//! the vacuum controller's serial protocol, the instruments behind it, the
//! controller firmware's command handling, and the bookkeeping of the filament
//! characterisation procedure.
pub mod characteriser;
pub mod controller_error;
pub mod firmware;
pub mod host;
pub mod link;
pub mod solver;
pub mod text;
pub mod usb_tmc;

//! A USBTMC (USB Test and Measurement Class) client's protocol logic: the
//! bulk transfer headers, message framing and reassembly, and the choice of
//! device and interface. The USB transfers themselves are made by the caller.
pub mod error;
pub mod protocol;
pub mod transfer;

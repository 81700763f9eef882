//! The vacuum controller's firmware logic: reading commands from the USB
//! host, routing them to the ADC or the TMP, reading their responses, and
//! writing text into fixed-size buffers. The firmware's I/O runs around these
//! steps.
pub mod string_buffer;
pub mod commands;
pub mod bridge;

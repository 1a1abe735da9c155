//! User-space bridge between a USB peripheral stack and the Linux Raw Gadget
//! control interface.
//!
//! The kernel side of Raw Gadget is stateless per call: beyond an initial
//! endpoint capability table it offers no query at all. This crate therefore
//! keeps an exact user-space mirror of the kernel-side endpoint state — which
//! capability slots are bound, which peripheral addresses exist, which
//! endpoints are enabled or halted — together with the allocator, the event
//! dispatcher and the byte-level marshalling that the bridge needs. All of
//! that logic is verified; the ioctl transport that carries the marshalled
//! bytes lives outside this crate.

pub mod bus;
pub mod bytes;
pub mod caps;
pub mod errors;
pub mod init;
pub mod io;
pub mod usb;

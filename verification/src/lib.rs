//! Verified core of a TUN-style virtual network interface: the control-structure
//! codec, the packet framer, and the decisions of the configuration and data paths.
//!
//! Nothing here touches the operating system. Every operation that needs the
//! kernel is written as a function from what the kernel has answered so far to
//! either the next call to make or the finished result, so that a thin driver
//! can perform the calls and the rules stay provable.

pub mod address;
pub mod allocation;
pub mod error;
pub mod framer;
pub mod interface;
pub mod io;
pub mod request;
pub mod tun;
pub mod utun;


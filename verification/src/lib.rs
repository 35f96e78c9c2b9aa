//! Verified core of a unikernel's NVMe storage driver and console layer.
//!
//! The storage driver sits between callers who hold ordinary buffers and a
//! controller that moves bytes by DMA:
//!
//! - [`driver`] is the driver itself: namespace discovery, the life of queue
//!   pairs, and reads and writes staged through DMA-capable buffers;
//! - [`registry`] is its bounded table of live queue pairs, which hands out
//!   the lowest identifier that is free;
//! - [`allocator`] is the allocator that serves the controller and remembers
//!   every allocation until it is given back;
//! - [`controller`] and [`memory`] say what the driver relies on: a storage
//!   controller and a source of device memory;
//! - [`ramdisk`] and [`arena`] are a controller and a device memory that live
//!   in ordinary memory;
//! - [`syscalls`] and [`error`] are the system calls of the driver and the
//!   numbers they answer with;
//! - [`table`], [`layout`] and [`address`] are what the tables, layouts and
//!   addresses are made of.
//!
//! The console layer gathers output by the line and keeps input until it is
//! read: [`console`], [`serial_device`], [`serial_port`] and [`bytes`]. Next
//! to it stand the error numbers of input and output in [`io`], the fallback
//! generator of random numbers in [`entropy`], and the checks on a wait in
//! [`futex`].
//!
//! Nothing here touches the machine. Whoever calls the library performs the
//! input and output that it works out.

pub mod address;
pub mod allocator;
pub mod arena;
pub mod bytes;
pub mod console;
pub mod controller;
pub mod driver;
pub mod entropy;
pub mod error;
pub mod futex;
pub mod io;
pub mod layout;
pub mod memory;
pub mod ramdisk;
pub mod registry;
pub mod serial_device;
pub mod serial_port;
pub mod syscalls;
pub mod table;

//! A safe, verified core for access to USB devices through a native
//! host-controller library: the error taxonomy, a bounded bit set, the
//! hot-plug filter and dispatch rules, the asynchronous transfer state
//! machine, and the bookkeeping of device lists and device references.

pub mod bit_set;
pub mod error;
pub mod transfer;
pub mod event;
pub mod hotplug;
pub mod context;
pub mod device_list;

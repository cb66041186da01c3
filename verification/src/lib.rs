//! Host-side logic for running Unikraft unikernels on Hyperlight:
//! mount tables and the kernel command line, guest configuration,
//! initrd (newc CPIO) driver detection, and the wire formats and
//! bookkeeping behind the guest's `net_*` host functions.

pub mod config;
pub mod cpio;
pub mod exec;
pub mod hostnet;
pub mod mount;
pub mod text;

pub use mount::Mount;
pub use config::{GuestConfig, HostFunction};
pub use cpio::{find_cpio_entry, resolve_entry};
pub use exec::Exec;

//! ASIO device support: device information, stream configuration, errors
//! and the virtual device. ASIO exists only on Windows with the `asio`
//! feature; elsewhere every operation that needs it fails with
//! `NotAvailable`.

pub mod error;
pub mod device;
pub mod stream;
pub mod host;
pub mod virtual_device;

use vstd::prelude::*;
use crate::asio::host::AsioHost;

verus! {

/// Whether ASIO is available: never, off Windows with the `asio` feature.
pub fn is_asio_available() -> (r: bool)
    ensures
        !r,
{
    false
}

/// The ASIO host, where it can be created: never, off Windows with the
/// `asio` feature.
pub fn get_asio_host() -> (r: Option<AsioHost>)
    ensures
        r is None,
{
    match AsioHost::new() {
        Ok(h) => Some(h),
        Err(_) => None,
    }
}

} // verus!

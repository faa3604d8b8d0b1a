//! Decision logic of the Haze server-side decoration backend.
//!
//! The backend is a preload library that interposes the compositor's global
//! creation, advertises the `zxdg_decoration_manager_v1` global once per
//! display, tracks which toplevels already own a decoration object, answers
//! decoration mode requests, and drives a rounded-corner clip effect.  Every
//! call into libwayland, GObject, Clutter or Cogl happens in the thin C glue
//! around this crate; the decisions those calls depend on are made here.

pub mod clip;
pub mod frame;
pub mod protocol;
pub mod registry;

use vstd::prelude::*;

verus! {

/// Whether the backend supports the running host.  The library is only
/// preloaded on supported hosts, so it always answers yes.
pub fn haze_wayland_ssd_supported() -> (supported: bool)
    ensures
        supported,
{
    true
}

/// Version of the backend.
pub fn haze_wayland_ssd_version() -> (version: &'static str)
    ensures
        version@ == "0.1.0"@,
{
    "0.1.0"
}

/// Status of the host as seen by the backend.
pub fn haze_wayland_ssd_host_status() -> (status: &'static str)
    ensures
        status@ == "supported"@,
{
    "supported"
}

} // verus!

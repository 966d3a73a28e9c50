//! Core of a desktop audio panel: a reconciliation engine that keeps a local
//! snapshot of the audio server's default devices and device lists in step
//! with an ordered event stream, and turns user intent (sliders, device
//! picks, panel toggles) into outbound protocol commands.
//!
//! The surrounding host — the widget toolkit that renders the snapshot and
//! the worker that owns the physical server connection — feeds events in and
//! carries commands out; everything in this crate is the decision logic
//! between those two edges.

use vstd::prelude::*;

pub mod applet;
pub mod device;
pub mod icon;
pub mod laws;
pub mod pulse;
pub mod volume;

verus! {

/// Display name for a device: its human-readable description when one is
/// present, otherwise a generic placeholder.
pub fn pretty_name(name: Option<String>) -> (r: String)
    ensures
        match name {
            Some(n) => r@ == n@,
            None => r@ == "Generic"@,
        },
{
    match name {
        Some(n) => n,
        None => "Generic".to_string(),
    }
}

} // verus!

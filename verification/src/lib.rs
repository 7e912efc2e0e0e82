//! Screen edge reservation service.
//!
//! A desktop application can claim a strip of screen space along the top or
//! bottom edge of a display, the way a taskbar does. The library holds the
//! geometry rules and the negotiation protocol: which rectangle to ask the
//! shell for, how to re-snap the rectangle the shell hands back so the
//! requested thickness is honored, and what state the reservation is in at
//! every point. The calls into the host shell themselves are input/output and
//! are performed by the embedding program, which drives the negotiation state
//! machine one shell call at a time.

use vstd::prelude::*;

pub mod geometry;
pub mod laws;
pub mod negotiator;
pub mod session;

verus! {

/// Builds the greeting shown by the demo front end.
pub fn greet(name: &str) -> (r: String)
    ensures
        r@ == "Hello, "@ + name@ + "! You've been greeted from Rust!"@,
{
    let mut out: String = String::from_str("Hello, ");
    out.append(name);
    out.append("! You've been greeted from Rust!");
    out
}

} // verus!

//! Which port of a MIDI device to open.

use vstd::prelude::*;

verus! {

/// How the port is found, given how many there are.
#[derive(Clone, Copy, Debug, PartialEq, Eq, Structural)]
pub enum PortChoice {
    /// There is no port: the device cannot be opened.
    NoDevice,
    /// There is one port, and it is taken: port 0.
    Only,
    /// There are several: the user is asked for one of them.
    Ask,
}

/// Decides how the port of a device with `count` ports is found.
pub fn choose_port(count: usize) -> (choice: PortChoice)
    ensures
        choice is NoDevice <==> count == 0,
        choice is Only <==> count == 1,
        choice is Ask <==> count >= 2,
{
    if count == 0 {
        PortChoice::NoDevice
    } else if count == 1 {
        PortChoice::Only
    } else {
        PortChoice::Ask
    }
}

} // verus!

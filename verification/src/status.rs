//! Connection status and connection kind, with the presentation hints a host
//! UI renders (a short label and an indicator color).

use vstd::prelude::*;

verus! {

/// Whether a channel to the device is currently held.
#[derive(Clone, Copy, PartialEq, Eq, Structural, Debug)]
pub enum ConnectionStatus {
    NotConnected,
    Connected,
}

impl Default for ConnectionStatus {
    /// A fresh state starts out with no channel held.
    fn default() -> (r: Self)
        ensures
            r == ConnectionStatus::NotConnected,
    {
        Self::NotConnected
    }
}

impl ConnectionStatus {
    /// Short human-readable label for this status.
    pub fn as_str(&self) -> (r: &str)
        ensures
            *self == ConnectionStatus::NotConnected ==> r@ == "Not connected"@,
            *self == ConnectionStatus::Connected ==> r@ == "Connected"@,
    {
        match self {
            Self::NotConnected => "Not connected",
            Self::Connected => "Connected",
        }
    }

    /// Indicator color for this status, as an (r, g, b) triple: yellow while
    /// disconnected, light green once connected.
    pub fn as_color(&self) -> (c: (u8, u8, u8))
        ensures
            *self == ConnectionStatus::NotConnected ==> c == (255u8, 255u8, 0u8),
            *self == ConnectionStatus::Connected ==> c == (144u8, 238u8, 144u8),
    {
        match self {
            Self::NotConnected => (255, 255, 0),
            Self::Connected => (144, 238, 144),
        }
    }
}

/// How the device is reached: over its own USB serial identity, or through a
/// secondary serial-CAN bridge adapter. Assigned once, at open time.
#[derive(Clone, Copy, PartialEq, Eq, Structural, Debug)]
pub enum ConnectionType {
    Usb,
    Can,
}

impl Default for ConnectionType {
    /// Until discovery says otherwise, a direct USB link is assumed.
    fn default() -> (r: Self)
        ensures
            r == ConnectionType::Usb,
    {
        Self::Usb
    }
}

} // verus!

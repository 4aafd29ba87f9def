//! Link state: the connection state a host application keeps per device — an
//! optional open channel, the connection status, and the two liveness
//! timestamps callers use to detect staleness.
//!
//! The channel type is a type parameter `P`: this crate never reads or writes
//! the channel itself, it only tracks whether one is held. The host
//! application instantiates `P` with its platform's port type, runs discovery
//! (enumerate, [`crate::discovery::select_endpoint`], open) and hands the
//! outcome to [`StateCommon::connect`]; [`StateCommon::get_port`] then serves
//! the held channel without re-discovering.
//!
//! Staleness is caller-driven: compare the time since `last_response` against
//! [`DISCONNECTED_TIMEOUT_MS`], and on staleness discard the channel (adopt a
//! `None` outcome) and rediscover. There is no background timer here.

use crate::discovery::BaudTable;
use crate::discovery::Endpoint;
use crate::discovery::spec_classify;
use crate::status::ConnectionStatus;
use crate::status::ConnectionType;
use vstd::prelude::*;

verus! {

/// After this long without an inbound response, callers should treat the
/// device as disconnected and rediscover. Milliseconds.
pub const DISCONNECTED_TIMEOUT_MS: u64 = 1_000;

/// Failure of an operation that needs a channel while none is held. The
/// caller's cue to run discovery and try again.
#[derive(Clone, Copy, PartialEq, Eq, Structural, Debug)]
pub enum LinkError {
    NotConnected,
}

/// The channel to the device, if one is open, and what kind of connection it
/// was classified as at open time. `P` is the host platform's port type.
pub struct SerialInterface<P> {
    /// The open channel. Exclusively owned here; dropped on reset.
    pub serial_port: Option<P>,
    /// How the device is reached. Assigned at open time, immutable until the
    /// interface is replaced.
    pub connection_type: ConnectionType,
}

impl<P> Default for SerialInterface<P> {
    /// An interface holding no channel, with the default (direct USB) kind.
    fn default() -> (r: Self)
        ensures
            r.serial_port is None,
            r.connection_type == ConnectionType::Usb,
    {
        SerialInterface { serial_port: None, connection_type: ConnectionType::Usb }
    }
}

/// Per-device connection state, kept as a field of application state. One
/// instance per logical device; never shared between devices.
pub struct StateCommon<P> {
    /// The USB serial number the target device is expected to expose — the
    /// identity key discovery matches endpoints against.
    pub usb_serial_number: String,
    /// Whether a channel is currently held.
    pub connection_status: ConnectionStatus,
    /// The channel and its connection kind.
    pub interface: SerialInterface<P>,
    /// When the last outbound frame was sent (caller-maintained clock,
    /// milliseconds).
    pub last_query: u64,
    /// When the last inbound response arrived (caller-maintained clock,
    /// milliseconds). Compared against [`DISCONNECTED_TIMEOUT_MS`].
    pub last_response: u64,
}

impl<P> StateCommon<P> {
    /// Invariant: the status reads Connected exactly while a channel is held.
    pub open spec fn wf(&self) -> bool {
        (self.connection_status == ConnectionStatus::Connected) <==> (
        self.interface.serial_port is Some)
    }

    /// The state after adopting a discovery outcome: on success the channel
    /// and its kind are installed and the status becomes Connected; on "no
    /// connection" the interface is reset to its default and the status
    /// becomes NotConnected. Timestamps and the identity key are untouched.
    pub open spec fn spec_adopt(self, outcome: Option<(P, ConnectionType)>) -> StateCommon<P> {
        match outcome {
            Some((port, kind)) => StateCommon {
                connection_status: ConnectionStatus::Connected,
                interface: SerialInterface { serial_port: Some(port), connection_type: kind },
                ..self
            },
            None => StateCommon {
                connection_status: ConnectionStatus::NotConnected,
                interface: SerialInterface {
                    serial_port: None,
                    connection_type: ConnectionType::Usb,
                },
                ..self
            },
        }
    }

    /// Fresh state for a device expected to expose `usb_serial_number`: no
    /// channel held, NotConnected, both timestamps set to the caller's clock.
    pub fn new(usb_serial_number: &str, now_ms: u64) -> (r: Self)
        ensures
            r.usb_serial_number@ == usb_serial_number@,
            r.connection_status == ConnectionStatus::NotConnected,
            r.interface.serial_port is None,
            r.interface.connection_type == ConnectionType::Usb,
            r.last_query == now_ms,
            r.last_response == now_ms,
            r.wf(),
    {
        StateCommon {
            usb_serial_number: usb_serial_number.to_owned(),
            connection_status: ConnectionStatus::NotConnected,
            interface: SerialInterface { serial_port: None, connection_type: ConnectionType::Usb },
            last_query: now_ms,
            last_response: now_ms,
        }
    }

    /// Adopt the outcome of one discovery-and-open attempt, replacing whatever
    /// interface was held before. Passing `None` is also how a caller resets
    /// the state after deciding the held channel went stale.
    pub fn connect(&mut self, outcome: Option<(P, ConnectionType)>)
        ensures
            *final(self) == old(self).spec_adopt(outcome),
            final(self).wf(),
    {
        match outcome {
            Some((port, kind)) => {
                self.interface = SerialInterface {
                    serial_port: Some(port),
                    connection_type: kind,
                };
                self.connection_status = ConnectionStatus::Connected;
            },
            None => {
                self.interface = SerialInterface {
                    serial_port: None,
                    connection_type: ConnectionType::Usb,
                };
                self.connection_status = ConnectionStatus::NotConnected;
            },
        }
    }

    /// Record that a frame transmission attempt reached the channel layer.
    /// Called by the sender on every attempt, with its clock.
    pub fn note_send(&mut self, now_ms: u64)
        ensures
            *final(self) == (StateCommon { last_query: now_ms, ..*old(self) }),
    {
        self.last_query = now_ms;
    }

    /// Record a successful inbound response. Only such events feed staleness
    /// detection; this crate never generates them itself.
    pub fn note_response(&mut self, now_ms: u64)
        ensures
            *final(self) == (StateCommon { last_response: now_ms, ..*old(self) }),
    {
        self.last_response = now_ms;
    }

    /// Whether the link has gone stale: at least [`DISCONNECTED_TIMEOUT_MS`]
    /// has passed since the last inbound response. A caller seeing `true`
    /// should discard the held channel (adopt a `None` outcome) and
    /// rediscover. A clock reading earlier than the last response counts as
    /// not stale.
    pub fn is_stale(&self, now_ms: u64) -> (r: bool)
        ensures
            r == (now_ms >= self.last_response + DISCONNECTED_TIMEOUT_MS),
    {
        now_ms >= DISCONNECTED_TIMEOUT_MS && now_ms - DISCONNECTED_TIMEOUT_MS >= self.last_response
    }

    /// Hand out the held channel. While a channel is held this returns exactly
    /// that channel and changes nothing — no re-discovery, no second open.
    /// While none is held it fails with NotConnected and changes nothing; the
    /// caller then runs discovery and calls [`StateCommon::connect`].
    pub fn get_port(&mut self) -> (r: Result<&mut P, LinkError>)
        ensures
            old(self).interface.serial_port matches Some(held) ==> (r matches Ok(p) && *p == held
                && *final(self) == StateCommon {
                interface: SerialInterface {
                    serial_port: Some(*final(p)),
                    ..old(self).interface
                },
                ..*old(self)
            }),
            old(self).interface.serial_port is None ==> (r matches Err(e)
                && e == LinkError::NotConnected && *final(self) == *old(self)),
    {
        match &mut self.interface.serial_port {
            Some(p) => Ok(p),
            None => Err(LinkError::NotConnected),
        }
    }
}

/// Law: where no endpoint is visible at all, discovery has no candidate to
/// open, and a link state that adopts the resulting "no connection" outcome
/// reports NotConnected and holds no channel — so its `get_port` fails with
/// NotConnected.
pub proof fn lemma_no_endpoints_stays_disconnected<P>(
    s: StateCommon<P>,
    endpoints: Seq<Endpoint>,
    key: Seq<char>,
    table: BaudTable,
)
    requires
        endpoints.len() == 0,
    ensures
        forall|i: int| 0 <= i < endpoints.len() ==> spec_classify(endpoints[i], key, table) is None,
        s.spec_adopt(None).connection_status == ConnectionStatus::NotConnected,
        s.spec_adopt(None).interface.serial_port is None,
{
}

} // verus!

//! Endpoint discovery: classify the serial endpoints the platform enumerates
//! and pick the one that belongs to the target device, together with the baud
//! rate to open it at.
//!
//! Classification of a USB endpoint, in order:
//! 1. its serial number equals the identity key — a direct USB connection,
//!    opened at the primary baud;
//! 2. otherwise, its product name contains the bridge keyword
//!    (case-insensitively) — a serial-CAN bridge, opened at the bridge baud;
//! 3. in either case, a manufacturer name containing the alternate-baud
//!    keyword overrides the selected baud (but not the connection kind).
//!
//! Non-USB endpoints are skipped. Among several matches the first one wins.
//! Enumerating the endpoints and opening the selected one is platform I/O and
//! the host application's job; this module only decides.

use crate::status::ConnectionType;
use vstd::prelude::*;

verus! {

/// Case folding used for keyword matching: the code point of `c` with an
/// ASCII capital letter folded to its lowercase form.
pub open spec fn spec_lower(c: char) -> int {
    if 65 <= c as int && c as int <= 90 {
        c as int + 32
    } else {
        c as int
    }
}

/// Two characters are equal up to ASCII case.
pub open spec fn char_eq_ci(a: char, b: char) -> bool {
    spec_lower(a) == spec_lower(b)
}

/// Two character sequences are equal up to ASCII case.
pub open spec fn seq_eq_ci(a: Seq<char>, b: Seq<char>) -> bool {
    a.len() == b.len() && (forall|k: int| 0 <= k < a.len() ==> char_eq_ci(a[k], b[k]))
}

/// `needle` occurs somewhere in `hay`, up to ASCII case.
pub open spec fn contains_ci(hay: Seq<char>, needle: Seq<char>) -> bool {
    exists|i: int|
        0 <= i <= hay.len() - needle.len() && seq_eq_ci(
            #[trigger] hay.subrange(i, i + needle.len()),
            needle,
        )
}

/// Compare two characters up to ASCII case.
fn exec_char_eq_ci(a: char, b: char) -> (r: bool)
    ensures
        r == char_eq_ci(a, b),
{
    let ca: u32 = a as u32;
    let cb: u32 = b as u32;
    let la: u32 = if 65 <= ca && ca <= 90 {
        ca + 32
    } else {
        ca
    };
    let lb: u32 = if 65 <= cb && cb <= 90 {
        cb + 32
    } else {
        cb
    };
    la == lb
}

/// Whether `needle` matches `hay` at position `i`, up to ASCII case.
fn matches_at(hay: &str, needle: &str, i: usize, hay_len: usize, needle_len: usize) -> (r: bool)
    requires
        hay_len == hay@.len(),
        needle_len == needle@.len(),
        i + needle_len <= hay_len,
    ensures
        r == seq_eq_ci(hay@.subrange(i as int, i + needle@.len()), needle@),
{
    let ghost sub = hay@.subrange(i as int, i + needle@.len());
    let mut k: usize = 0;
    while k < needle_len
        invariant
            hay_len == hay@.len(),
            needle_len == needle@.len(),
            i + needle_len <= hay_len,
            k <= needle_len,
            sub == hay@.subrange(i as int, i + needle@.len()),
            forall|j: int| 0 <= j < k ==> char_eq_ci(sub[j], needle@[j]),
        decreases needle_len - k,
    {
        let hc = hay.get_char(i + k);
        let nc = needle.get_char(k);
        proof {
            assert(sub[k as int] == hay@[i + k]);
        }
        if !exec_char_eq_ci(hc, nc) {
            return false;
        }
        k = k + 1;
    }
    true
}

/// Whether `hay` contains `needle`, up to ASCII case. Keyword matching for
/// endpoint classification goes through this.
pub fn str_contains_ci(hay: &str, needle: &str) -> (r: bool)
    ensures
        r == contains_ci(hay@, needle@),
{
    let hay_len = hay.unicode_len();
    let needle_len = needle.unicode_len();
    if needle_len > hay_len {
        return false;
    }
    let mut i: usize = 0;
    while i <= hay_len - needle_len
        invariant
            hay_len == hay@.len(),
            needle_len == needle@.len(),
            needle_len <= hay_len,
            i <= hay_len - needle_len + 1,
            forall|j: int|
                0 <= j < i ==> !seq_eq_ci(#[trigger] hay@.subrange(j, j + needle@.len()), needle@),
        decreases hay_len + 1 - i,
    {
        if matches_at(hay, needle, i, hay_len, needle_len) {
            return true;
        }
        i = i + 1;
    }
    false
}

/// Exact equality of two strings, character for character.
pub fn str_eq(a: &str, b: &str) -> (r: bool)
    ensures
        r == (a@ == b@),
{
    let a_len = a.unicode_len();
    let b_len = b.unicode_len();
    if a_len != b_len {
        return false;
    }
    let mut k: usize = 0;
    while k < a_len
        invariant
            a_len == a@.len(),
            b_len == b@.len(),
            a_len == b_len,
            k <= a_len,
            forall|j: int| 0 <= j < k ==> a@[j] == b@[j],
        decreases a_len - k,
    {
        if a.get_char(k) != b.get_char(k) {
            return false;
        }
        k = k + 1;
    }
    proof {
        assert(a@ =~= b@);
    }
    true
}

/// The product-name keyword that marks a serial-CAN bridge adapter.
pub fn bridge_keyword() -> (r: &'static str)
    ensures
        r@ == spec_bridge_keyword(),
{
    "slcan"
}

/// The bridge keyword as a character sequence.
pub open spec fn spec_bridge_keyword() -> Seq<char> {
    "slcan"@
}

/// One platform-visible serial endpoint candidate, with its USB metadata where
/// the platform reports any. Produced fresh on each enumeration; this crate
/// only reads it.
pub struct Endpoint {
    /// Platform name of the port, handed back to the platform to open it.
    pub port_name: String,
    /// Whether the endpoint is a USB port. Only USB endpoints are candidates.
    pub is_usb: bool,
    /// USB serial-number string, where the device exposes one.
    pub serial_number: Option<String>,
    /// USB product-name string, where the device exposes one.
    pub product: Option<String>,
    /// USB manufacturer string, where the device exposes one.
    pub manufacturer: Option<String>,
}

/// The baud rates to select among, keyed by classification signals, and the
/// manufacturer keyword that forces the alternate rate.
pub struct BaudTable {
    /// Baud for a direct USB connection.
    pub primary_baud: u32,
    /// Baud for a connection through a serial-CAN bridge.
    pub bridge_baud: u32,
    /// Baud forced by a manufacturer whose name contains `alternate_keyword`.
    pub alternate_baud: u32,
    /// Manufacturer keyword (matched case-insensitively) that forces
    /// `alternate_baud` whatever the classification said.
    pub alternate_keyword: String,
}

/// The endpoint's serial number equals the identity key.
pub open spec fn spec_serial_matches(ep: Endpoint, key: Seq<char>) -> bool {
    ep.serial_number matches Some(sn) && sn@ == key
}

/// The endpoint's product name contains the bridge keyword, up to ASCII case.
pub open spec fn spec_bridge_matches(ep: Endpoint) -> bool {
    ep.product matches Some(p) && contains_ci(p@, spec_bridge_keyword())
}

/// The endpoint's manufacturer name contains the alternate-baud keyword, up
/// to ASCII case.
pub open spec fn spec_alt_baud(ep: Endpoint, table: BaudTable) -> bool {
    ep.manufacturer matches Some(m) && contains_ci(m@, table.alternate_keyword@)
}

/// How an endpoint is classified: `None` where it is no candidate for this
/// device, otherwise the connection kind and the baud to open it at.
pub open spec fn spec_classify(ep: Endpoint, key: Seq<char>, table: BaudTable) -> Option<
    (ConnectionType, u32),
> {
    if !ep.is_usb {
        None
    } else if spec_serial_matches(ep, key) {
        Some(
            (
                ConnectionType::Usb,
                if spec_alt_baud(ep, table) {
                    table.alternate_baud
                } else {
                    table.primary_baud
                },
            ),
        )
    } else if spec_bridge_matches(ep) {
        Some(
            (
                ConnectionType::Can,
                if spec_alt_baud(ep, table) {
                    table.alternate_baud
                } else {
                    table.bridge_baud
                },
            ),
        )
    } else {
        None
    }
}

/// Classify one endpoint against the identity key and the baud table.
pub fn classify(ep: &Endpoint, identity_key: &str, table: &BaudTable) -> (r: Option<
    (ConnectionType, u32),
>)
    ensures
        r == spec_classify(*ep, identity_key@, *table),
{
    if !ep.is_usb {
        return None;
    }
    let serial_matches = match &ep.serial_number {
        Some(sn) => str_eq(sn.as_str(), identity_key),
        None => false,
    };
    let alt = match &ep.manufacturer {
        Some(m) => str_contains_ci(m.as_str(), table.alternate_keyword.as_str()),
        None => false,
    };
    if serial_matches {
        let baud = if alt {
            table.alternate_baud
        } else {
            table.primary_baud
        };
        return Some((ConnectionType::Usb, baud));
    }
    let bridge = match &ep.product {
        Some(p) => str_contains_ci(p.as_str(), bridge_keyword()),
        None => false,
    };
    if bridge {
        let baud = if alt {
            table.alternate_baud
        } else {
            table.bridge_baud
        };
        return Some((ConnectionType::Can, baud));
    }
    None
}

/// The outcome of scanning an endpoint list: which endpoint to open, as what
/// kind of connection, and at which baud.
pub struct Selection {
    /// Index of the selected endpoint in the scanned list.
    pub index: usize,
    /// Connection kind the selected endpoint was classified as.
    pub connection_type: ConnectionType,
    /// Baud rate to open the selected endpoint at.
    pub baud: u32,
}

/// Scan the enumerated endpoints in order and select the first one that
/// classifies as a candidate, with its connection kind and baud. `None` means
/// no visible endpoint belongs to the device — an expected steady state while
/// nothing is plugged in, not an error.
pub fn select_endpoint(endpoints: &Vec<Endpoint>, identity_key: &str, table: &BaudTable) -> (r:
    Option<Selection>)
    ensures
        r is None ==> forall|i: int|
            0 <= i < endpoints@.len() ==> spec_classify(endpoints@[i], identity_key@, *table)
                is None,
        r matches Some(s) ==> s.index < endpoints@.len() && spec_classify(
            endpoints@[s.index as int],
            identity_key@,
            *table,
        ) == Some((s.connection_type, s.baud)) && forall|i: int|
            0 <= i < s.index ==> spec_classify(endpoints@[i], identity_key@, *table) is None,
{
    let mut idx: usize = 0;
    while idx < endpoints.len()
        invariant
            idx <= endpoints@.len(),
            forall|i: int|
                0 <= i < idx ==> spec_classify(endpoints@[i], identity_key@, *table) is None,
        decreases endpoints@.len() - idx,
    {
        match classify(&endpoints[idx], identity_key, table) {
            Some((kind, baud)) => {
                return Some(Selection { index: idx, connection_type: kind, baud });
            },
            None => {},
        }
        idx = idx + 1;
    }
    None
}

/// Law (classification): a USB endpoint whose serial number equals the
/// identity key is always classified as a direct USB connection, whatever its
/// product and manufacturer fields hold; a USB endpoint with no serial-number
/// match whose product name contains the bridge keyword (case-insensitively)
/// is classified as a bridged CAN connection.
pub proof fn lemma_classification(ep: Endpoint, key: Seq<char>, table: BaudTable)
    requires
        ep.is_usb,
    ensures
        spec_serial_matches(ep, key) ==> (spec_classify(ep, key, table) matches Some(c)
            && c.0 == ConnectionType::Usb),
        !spec_serial_matches(ep, key) && spec_bridge_matches(ep) ==> (spec_classify(
            ep,
            key,
            table,
        ) matches Some(c) && c.0 == ConnectionType::Can),
{
}

/// Law (baud override): a USB endpoint classified as a direct connection whose
/// manufacturer field contains the alternate-baud keyword opens at the
/// alternate baud rate, not the primary one; the connection kind stays a
/// direct USB connection.
pub proof fn lemma_alternate_baud_override(ep: Endpoint, key: Seq<char>, table: BaudTable)
    requires
        ep.is_usb,
        spec_serial_matches(ep, key),
        spec_alt_baud(ep, table),
    ensures
        spec_classify(ep, key, table) == Some((ConnectionType::Usb, table.alternate_baud)),
{
}

} // verus!

//! Frame codec: serialize a message type and payload into the checksummed
//! byte layout the device firmware expects.
//!
//! Wire layout of a frame: `[START, DEVICE_CODE, MSG_TYPE, PAYLOAD[0..n], CRC]`
//! where `n` is the message type's payload size and `CRC` is a table-driven
//! checksum over every preceding byte. The start byte, device code, checksum
//! lookup table, and the special variable-size message type are defined by the
//! device protocol catalog, which this crate consumes as a fixed external
//! contract: callers hand it in as a [`ProtocolCatalog`] value.

use vstd::prelude::*;

verus! {

/// Bytes preceding the payload in a frame: start byte, device code, message type.
pub const HEADER_SIZE: usize = 3;

/// Why `encode` refused to build a frame. A caller that sizes its buffer from
/// the catalog's declared payload sizes never sees this: it marks a caller
/// error, not a runtime condition.
#[derive(Clone, Copy, PartialEq, Eq, Structural, Debug)]
pub enum CodecError {
    /// The buffer capacity does not match `HEADER_SIZE + payload_size + 1`,
    /// or the payload slice is too short for the requested payload size.
    PreconditionViolation,
}

/// The protocol constants this codec consumes. They are defined by the device
/// protocol (shared between host and firmware), not by this crate.
pub struct ProtocolCatalog {
    /// Start-marker byte, first byte of every frame.
    pub msg_start: u8,
    /// Originator code identifying the PC/host side, second byte of every frame.
    pub device_code: u8,
    /// The one reserved message type whose payload size is read from the
    /// payload itself rather than declared up front.
    pub variable_msg_type: u8,
    /// Offset inside the payload of the one-byte length field of the
    /// variable-size message type.
    pub variable_len_index: usize,
    /// Fixed amount added to that length byte to obtain the true payload size
    /// of the variable-size message type.
    pub variable_len_base: usize,
    /// 256-entry checksum lookup table, derived from the protocol's polynomial.
    pub crc_table: Vec<u8>,
}

impl ProtocolCatalog {
    /// A catalog is usable when its lookup table covers every possible byte.
    pub open spec fn wf(&self) -> bool {
        self.crc_table@.len() == 256
    }

    /// The number of payload bytes a frame for `msg_type` carries: the
    /// declared size, except for the variable-size message type, whose size is
    /// its payload's length byte plus the catalog's fixed base.
    pub open spec fn spec_effective_size(
        &self,
        msg_type: u8,
        declared_size: usize,
        payload: Seq<u8>,
    ) -> int {
        if msg_type == self.variable_msg_type {
            payload[self.variable_len_index as int] + self.variable_len_base
        } else {
            declared_size as int
        }
    }
}

/// One step of the table-driven checksum: fold the next byte into the running
/// value through the lookup table.
pub open spec fn crc_step(table: Seq<u8>, crc: u8, byte: u8) -> u8 {
    table[(crc ^ byte) as int]
}

/// Table-driven checksum of `data`: starting from zero, each byte in order is
/// folded into the running value through the lookup table. Order-dependent and
/// not commutative.
pub open spec fn crc_of(table: Seq<u8>, data: Seq<u8>) -> u8
    decreases data.len(),
{
    if data.len() == 0 {
        0
    } else {
        crc_step(table, crc_of(table, data.drop_last()), data.last())
    }
}

/// Compute the table-driven checksum of `data` with the given 256-entry
/// lookup table.
pub fn calc_crc(table: &Vec<u8>, data: &[u8]) -> (r: u8)
    requires
        table@.len() == 256,
    ensures
        r == crc_of(table@, data@),
{
    let mut crc: u8 = 0;
    let mut i: usize = 0;
    while i < data.len()
        invariant
            table@.len() == 256,
            i <= data@.len(),
            crc == crc_of(table@, data@.take(i as int)),
        decreases data@.len() - i,
    {
        let idx: usize = (crc ^ data[i]) as usize;
        crc = table[idx];
        proof {
            assert(data@.take(i + 1).drop_last() =~= data@.take(i as int));
            assert(data@.take(i + 1).last() == data@[i as int]);
        }
        i = i + 1;
    }
    proof {
        assert(data@.take(data@.len() as int) =~= data@);
    }
    crc
}

/// The bytes of a frame carrying the first `n` bytes of `payload`: header,
/// payload, then the checksum of everything before it.
pub open spec fn spec_frame(cat: ProtocolCatalog, msg_type: u8, payload: Seq<u8>, n: int) -> Seq<
    u8,
> {
    let body = seq![cat.msg_start, cat.device_code, msg_type] + payload.take(n);
    body.push(crc_of(cat.crc_table@, body))
}

/// When `encode` succeeds: the payload holds at least the effective payload
/// size (and, for the variable-size message type, its length byte), and the
/// buffer capacity is exactly `HEADER_SIZE + payload_size + 1`.
pub open spec fn encode_ok(
    cat: ProtocolCatalog,
    msg_type: u8,
    declared_size: usize,
    payload: Seq<u8>,
    capacity: usize,
) -> bool {
    let n = cat.spec_effective_size(msg_type, declared_size, payload);
    &&& (msg_type == cat.variable_msg_type ==> cat.variable_len_index < payload.len())
    &&& n <= payload.len()
    &&& capacity == HEADER_SIZE + n + 1
}

/// Build the frame for one outbound command: start byte, device code, message
/// type, the payload bytes verbatim, then the checksum over every byte so
/// far. `capacity` must be exactly the frame's size for the message type, as
/// the firmware reads fixed-size frames; any mismatch is refused rather than
/// truncated or padded. The payload's content is not validated — only its
/// size.
pub fn encode(
    cat: &ProtocolCatalog,
    msg_type: u8,
    declared_size: usize,
    payload: &[u8],
    capacity: usize,
) -> (r: Result<Vec<u8>, CodecError>)
    requires
        cat.wf(),
    ensures
        r is Ok <==> encode_ok(*cat, msg_type, declared_size, payload@, capacity),
        r matches Ok(buf) ==> buf@ == spec_frame(
            *cat,
            msg_type,
            payload@,
            cat.spec_effective_size(msg_type, declared_size, payload@),
        ),
        r matches Ok(buf) ==> buf@.len() == capacity,
        r is Err ==> r == Err::<Vec<u8>, CodecError>(CodecError::PreconditionViolation),
{
    let n: usize;
    if msg_type == cat.variable_msg_type {
        if cat.variable_len_index >= payload.len() {
            return Err(CodecError::PreconditionViolation);
        }
        let len_byte = payload[cat.variable_len_index];
        if cat.variable_len_base > usize::MAX - (len_byte as usize) {
            // The true payload size cannot even be represented, so no capacity
            // can match it.
            return Err(CodecError::PreconditionViolation);
        }
        n = len_byte as usize + cat.variable_len_base;
    } else {
        n = declared_size;
    }
    if n > payload.len() {
        return Err(CodecError::PreconditionViolation);
    }
    if capacity < HEADER_SIZE + 1 || n != capacity - (HEADER_SIZE + 1) {
        return Err(CodecError::PreconditionViolation);
    }

    let mut buf: Vec<u8> = Vec::new();
    buf.push(cat.msg_start);
    buf.push(cat.device_code);
    buf.push(msg_type);
    let ghost header: Seq<u8> = seq![cat.msg_start, cat.device_code, msg_type];
    proof {
        assert(buf@ =~= header + payload@.take(0));
    }
    let mut i: usize = 0;
    while i < n
        invariant
            i <= n <= payload@.len(),
            buf@ == header + payload@.take(i as int),
        decreases n - i,
    {
        buf.push(payload[i]);
        proof {
            assert(buf@ =~= header + payload@.take(i + 1));
        }
        i = i + 1;
    }
    let crc = calc_crc(&cat.crc_table, buf.as_slice());
    buf.push(crc);
    proof {
        assert(buf@ =~= spec_frame(*cat, msg_type, payload@, n as int));
    }
    Ok(buf)
}

/// Law: a frame carrying `n` payload bytes is exactly `HEADER_SIZE + n + 1`
/// bytes long — header, payload, one checksum byte. Combined with `encode`'s
/// contract, every buffer `encode` returns for a fixed-size message type has
/// length `HEADER_SIZE + declared_size + 1`.
pub proof fn lemma_frame_len(cat: ProtocolCatalog, msg_type: u8, payload: Seq<u8>, n: int)
    requires
        0 <= n <= payload.len(),
    ensures
        spec_frame(cat, msg_type, payload, n).len() == HEADER_SIZE + n + 1,
{
}

/// Law: frame building is deterministic. Two frames built from the same
/// catalog, message type, payload, and payload size are byte-for-byte equal;
/// in particular their checksum bytes agree.
pub proof fn lemma_encode_deterministic(
    cat1: ProtocolCatalog,
    cat2: ProtocolCatalog,
    msg_type: u8,
    payload: Seq<u8>,
    n: int,
)
    requires
        0 <= n <= payload.len(),
        cat1 == cat2,
    ensures
        spec_frame(cat1, msg_type, payload, n) == spec_frame(cat2, msg_type, payload, n),
        spec_frame(cat1, msg_type, payload, n).last() == spec_frame(
            cat2,
            msg_type,
            payload,
            n,
        ).last(),
{
}

/// Every byte maps to a distinct lookup-table entry. True of the usual CRC
/// tables, which are permutations of the byte values.
pub open spec fn table_injective(table: Seq<u8>) -> bool {
    forall|a: u8, b: u8|
        #![trigger table[a as int], table[b as int]]
        a != b ==> table[a as int] != table[b as int]
}

/// Law (checksum sensitivity, final byte): with an injective lookup table,
/// two frames that agree everywhere but in their final payload byte have
/// different checksum bytes.
pub proof fn lemma_checksum_sensitive_to_final_byte(
    cat: ProtocolCatalog,
    msg_type: u8,
    p1: Seq<u8>,
    p2: Seq<u8>,
    n: int,
)
    requires
        1 <= n <= p1.len(),
        n <= p2.len(),
        cat.wf(),
        table_injective(cat.crc_table@),
        p1.take(n - 1) == p2.take(n - 1),
        p1[n - 1] != p2[n - 1],
    ensures
        spec_frame(cat, msg_type, p1, n).last() != spec_frame(cat, msg_type, p2, n).last(),
{
    let t = cat.crc_table@;
    let header = seq![cat.msg_start, cat.device_code, msg_type];
    let body1 = header + p1.take(n);
    let body2 = header + p2.take(n);
    assert(body1.drop_last() =~= header + p1.take(n - 1));
    assert(body2.drop_last() =~= header + p2.take(n - 1));
    let c = crc_of(t, body1.drop_last());
    assert(body1.last() == p1[n - 1]);
    assert(body2.last() == p2[n - 1]);
    let a = p1[n - 1];
    let b = p2[n - 1];
    assert(c ^ a != c ^ b) by (bit_vector)
        requires
            a != b,
    ;
    assert(crc_of(t, body1) == t[(c ^ a) as int]);
    assert(crc_of(t, body2) == t[(c ^ b) as int]);
}

/// Law: the checksum byte of a frame is the table-driven checksum of every
/// byte that precedes it — and of nothing else; the checksum byte is excluded
/// from its own input range.
pub proof fn lemma_checksum_over_preceding_bytes(
    cat: ProtocolCatalog,
    msg_type: u8,
    payload: Seq<u8>,
    n: int,
)
    requires
        0 <= n <= payload.len(),
    ensures
        ({
            let f = spec_frame(cat, msg_type, payload, n);
            f.last() == crc_of(cat.crc_table@, f.take(f.len() - 1))
        }),
{
    let body = seq![cat.msg_start, cat.device_code, msg_type] + payload.take(n);
    let f = spec_frame(cat, msg_type, payload, n);
    assert(f.take(f.len() - 1) =~= body);
}

} // verus!

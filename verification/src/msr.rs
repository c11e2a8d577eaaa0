use vstd::prelude::*;

verus! {

/// The little-endian 32-bit value of four bytes.
pub open spec fn le_u32(b0: u8, b1: u8, b2: u8, b3: u8) -> u32 {
    (b0 as u32) | ((b1 as u32) << 8) | ((b2 as u32) << 16) | ((b3 as u32) << 24)
}

/// The little-endian 32-bit value stored at `offset` in `buffer`.
pub open spec fn le_u32_at(buffer: Seq<u8>, offset: int) -> u32 {
    le_u32(buffer[offset], buffer[offset + 1], buffer[offset + 2], buffer[offset + 3])
}

/// The eight bytes of a 64-bit value, least significant first.
pub open spec fn le_bytes_u64(v: u64) -> Seq<u8> {
    seq![
        (v & 0xff) as u8,
        ((v >> 8) & 0xff) as u8,
        ((v >> 16) & 0xff) as u8,
        ((v >> 24) & 0xff) as u8,
        ((v >> 32) & 0xff) as u8,
        ((v >> 40) & 0xff) as u8,
        ((v >> 48) & 0xff) as u8,
        ((v >> 56) & 0xff) as u8,
    ]
}

/// The request of a register write: the register's number and its new value
/// as two 32-bit halves, low half first.
#[derive(Clone, Copy, Debug, PartialEq, Eq)]
pub struct RegisterValue {
    pub register: u32,
    pub value: [u32; 2],
}

/// The register-write request that a buffer holds: three little-endian 32-bit
/// words, the register, then the low and the high half of the value.
pub open spec fn register_value_of(buffer: Seq<u8>) -> RegisterValue {
    RegisterValue {
        register: le_u32_at(buffer, 0),
        value: [le_u32_at(buffer, 4), le_u32_at(buffer, 8)],
    }
}

/// The little-endian 32-bit word at `offset`.
fn read_u32_le(buffer: &[u8], offset: usize) -> (w: u32)
    requires
        offset + 4 <= buffer@.len(),
    ensures
        w == le_u32_at(buffer@, offset as int),
{
    (buffer[offset] as u32) | ((buffer[offset + 1] as u32) << 8) | ((buffer[offset + 2] as u32)
        << 16) | ((buffer[offset + 3] as u32) << 24)
}

/// The value of a model-specific register from the two halves that `rdmsr`
/// leaves in EDX (high) and EAX (low).
pub fn combine_msr_halves(high: u32, low: u32) -> (v: u64)
    ensures
        v == high * 0x1_0000_0000 + low,
        v == msr_value(high, low),
{
    let v: u64 = ((high as u64) << 32) | (low as u64);
    assert(((high as u64) << 32) | (low as u64) == high * 0x1_0000_0000 + low) by (bit_vector);
    v
}

/// The register that a read request names: the first four bytes of the
/// request buffer, little-endian.
pub fn read_msr_request(buffer: &[u8]) -> (register: u32)
    requires
        buffer@.len() >= 4,
    ensures
        register == le_u32_at(buffer@, 0),
        register == buffer@[0] + 0x100 * buffer@[1] + 0x10000 * buffer@[2] + 0x1000000 * buffer@[3],
{
    proof {
        lemma_le_u32_value(buffer@[0], buffer@[1], buffer@[2], buffer@[3]);
    }
    read_u32_le(buffer, 0)
}

/// Answers a read request: the register's value goes into the first eight
/// bytes of the buffer, little-endian, and the answer is that many bytes long.
pub fn ioctl_read_msr(buffer: &mut [u8], value: u64) -> (information: usize)
    requires
        old(buffer)@.len() >= 8,
    ensures
        information == 8,
        final(buffer)@ == le_bytes_u64(value) + old(buffer)@.skip(8),
{
    buffer[0] = (value & 0xff) as u8;
    buffer[1] = ((value >> 8) & 0xff) as u8;
    buffer[2] = ((value >> 16) & 0xff) as u8;
    buffer[3] = ((value >> 24) & 0xff) as u8;
    buffer[4] = ((value >> 32) & 0xff) as u8;
    buffer[5] = ((value >> 40) & 0xff) as u8;
    buffer[6] = ((value >> 48) & 0xff) as u8;
    buffer[7] = ((value >> 56) & 0xff) as u8;
    assert(buffer@ =~= le_bytes_u64(value) + old(buffer)@.skip(8));
    8
}

/// Reads a write request: the register and the value to write; the answer
/// carries no bytes.
pub fn ioctl_write_msr(buffer: &[u8]) -> (r: (RegisterValue, usize))
    requires
        buffer@.len() >= 12,
    ensures
        r.0 == register_value_of(buffer@),
        r.0.register == buffer@[0] + 0x100 * buffer@[1] + 0x10000 * buffer@[2] + 0x1000000
            * buffer@[3],
        r.0.value[0] == buffer@[4] + 0x100 * buffer@[5] + 0x10000 * buffer@[6] + 0x1000000
            * buffer@[7],
        r.0.value[1] == buffer@[8] + 0x100 * buffer@[9] + 0x10000 * buffer@[10] + 0x1000000
            * buffer@[11],
        r.1 == 0,
{
    proof {
        lemma_write_request_fields(buffer@);
    }
    let register: u32 = read_u32_le(buffer, 0);
    let low: u32 = read_u32_le(buffer, 4);
    let high: u32 = read_u32_le(buffer, 8);
    (RegisterValue { register, value: [low, high] }, 0)
}

/// The 64-bit value of a register whose halves are `high` and `low`.
pub open spec fn msr_value(high: u32, low: u32) -> u64 {
    (high * 0x1_0000_0000 + low) as u64
}

/// A register write request followed by a read of the register: the register
/// holds the halves of the request (low half in EAX, high half in EDX), the
/// read combines them again, and the answer's eight bytes are the eight value
/// bytes of the request.
pub proof fn lemma_write_then_read(request: Seq<u8>)
    requires
        request.len() >= 12,
    ensures
        le_bytes_u64(msr_value(register_value_of(request).value[1], register_value_of(request).value[0]))
            == request.subrange(4, 12),
{
    let b4 = request[4];
    let b5 = request[5];
    let b6 = request[6];
    let b7 = request[7];
    let b8 = request[8];
    let b9 = request[9];
    let b10 = request[10];
    let b11 = request[11];
    let lo = le_u32(b4, b5, b6, b7);
    let hi = le_u32(b8, b9, b10, b11);
    let v = msr_value(hi, lo);
    assert(v == ((hi as u64) << 32) | (lo as u64)) by (bit_vector)
        requires
            v == (hi * 0x1_0000_0000 + lo) as u64,
    ;
    assert(
        (v & 0xff) as u8 == b4 && ((v >> 8) & 0xff) as u8 == b5 && ((v >> 16) & 0xff) as u8 == b6
            && ((v >> 24) & 0xff) as u8 == b7 && ((v >> 32) & 0xff) as u8 == b8 && ((v >> 40)
            & 0xff) as u8 == b9 && ((v >> 48) & 0xff) as u8 == b10 && ((v >> 56) & 0xff) as u8
            == b11
    ) by (bit_vector)
        requires
            lo == (b4 as u32) | ((b5 as u32) << 8) | ((b6 as u32) << 16) | ((b7 as u32) << 24),
            hi == (b8 as u32) | ((b9 as u32) << 8) | ((b10 as u32) << 16) | ((b11 as u32) << 24),
            v == ((hi as u64) << 32) | (lo as u64),
    ;
    assert(le_bytes_u64(v) =~= request.subrange(4, 12));
}

/// The answer to a read request decodes back to the register's value: its
/// first word is the low half, its second the high half.
pub proof fn lemma_read_reply_value(value: u64)
    ensures
        msr_value(le_u32_at(le_bytes_u64(value), 4), le_u32_at(le_bytes_u64(value), 0)) == value,
{
    let b = le_bytes_u64(value);
    let lo = le_u32_at(b, 0);
    let hi = le_u32_at(b, 4);
    assert(lo == le_u32((value & 0xff) as u8, ((value >> 8) & 0xff) as u8, ((value >> 16) & 0xff) as u8, ((value >> 24) & 0xff) as u8));
    assert(hi == le_u32(((value >> 32) & 0xff) as u8, ((value >> 40) & 0xff) as u8, ((value >> 48) & 0xff) as u8, ((value >> 56) & 0xff) as u8));
    assert((((value >> 32) & 0xff) as u8 as u32 | ((((value >> 40) & 0xff) as u8 as u32) << 8) | ((((value >> 48) & 0xff) as u8 as u32) << 16) | ((((value >> 56) & 0xff) as u8 as u32) << 24)) * 0x1_0000_0000
        + ((value & 0xff) as u8 as u32 | ((((value >> 8) & 0xff) as u8 as u32) << 8) | ((((value >> 16) & 0xff) as u8 as u32) << 16) | ((((value >> 24) & 0xff) as u8 as u32) << 24)) == value) by (bit_vector);
}

/// The little-endian value of four bytes is their weighted sum, least
/// significant byte first.
pub proof fn lemma_le_u32_value(b0: u8, b1: u8, b2: u8, b3: u8)
    ensures
        le_u32(b0, b1, b2, b3) == b0 + 0x100 * b1 + 0x10000 * b2 + 0x1000000 * b3,
{
    assert((b0 as u32) | ((b1 as u32) << 8) | ((b2 as u32) << 16) | ((b3 as u32) << 24) == b0
        + 0x100 * b1 + 0x10000 * b2 + 0x1000000 * b3) by (bit_vector);
}

/// A write request names the register whose number is the little-endian word
/// of its bytes 0..4, the same register that a read request starting with
/// those four bytes names; the value's low half is the word of bytes 4..8 and
/// its high half the word of bytes 8..12.
pub proof fn lemma_write_request_fields(request: Seq<u8>)
    requires
        request.len() >= 12,
    ensures
        register_value_of(request).register == request[0] + 0x100 * request[1] + 0x10000
            * request[2] + 0x1000000 * request[3],
        register_value_of(request).register == le_u32_at(request, 0),
        register_value_of(request).value[0] == request[4] + 0x100 * request[5] + 0x10000
            * request[6] + 0x1000000 * request[7],
        register_value_of(request).value[1] == request[8] + 0x100 * request[9] + 0x10000
            * request[10] + 0x1000000 * request[11],
{
    lemma_le_u32_value(request[0], request[1], request[2], request[3]);
    lemma_le_u32_value(request[4], request[5], request[6], request[7]);
    lemma_le_u32_value(request[8], request[9], request[10], request[11]);
}

} // verus!

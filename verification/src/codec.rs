//! Frame codec: wire-protocol constants, the 8-bit checksum, the CRC-16
//! (XMODEM variant), packet encoding and packet validation.

use vstd::prelude::*;

verus! {

/// Start of a 128-byte data block.
pub const SOH: u8 = 0x01;
/// Start of a 1024-byte data block.
pub const STX: u8 = 0x02;
/// End of transmission.
pub const EOT: u8 = 0x04;
/// Positive acknowledgment.
pub const ACK: u8 = 0x06;
/// Negative acknowledgment; also the sync byte requesting checksum mode.
pub const NAK: u8 = 0x15;
/// Cancel; two consecutive CANs abort the transfer.
pub const CAN: u8 = 0x18;
/// Pad byte (SUB) used to fill a short final block.
pub const PAD: u8 = 0x1A;
/// Sync byte ('C') requesting CRC-16 mode.
pub const CRC_REQUEST: u8 = 0x43;

/// The error-detection scheme negotiated for a whole session.
#[derive(Clone, Copy, PartialEq, Eq, Structural, Debug)]
pub enum Mode {
    Checksum,
    Crc16,
}

/// Sum of the bytes of `s` as an unbounded integer.
pub open spec fn sum_bytes(s: Seq<u8>) -> int
    decreases s.len(),
{
    if s.len() == 0 {
        0
    } else {
        sum_bytes(s.drop_last()) + s.last()
    }
}

/// The 8-bit XMODEM checksum: the byte sum modulo 256.
pub open spec fn spec_checksum(s: Seq<u8>) -> u8 {
    (sum_bytes(s) % 256) as u8
}

proof fn lemma_sum_bytes_nonneg(s: Seq<u8>)
    ensures
        sum_bytes(s) >= 0,
    decreases s.len(),
{
    if s.len() > 0 {
        lemma_sum_bytes_nonneg(s.drop_last());
    }
}

/// One shift step of the CRC-16 register: shift left, and on carry-out
/// fold in the polynomial 0x1021.
pub open spec fn crc16_bit(c: u16) -> u16 {
    if c & 0x8000 == 0x8000 {
        (c << 1) ^ 0x1021
    } else {
        c << 1
    }
}

/// `n` shift steps of the CRC-16 register.
pub open spec fn crc16_bits(c: u16, n: nat) -> u16
    decreases n,
{
    if n == 0 {
        c
    } else {
        crc16_bit(crc16_bits(c, (n - 1) as nat))
    }
}

/// Folds one input byte (MSB-first) into the CRC-16 register.
pub open spec fn crc16_byte(c: u16, b: u8) -> u16 {
    crc16_bits(c ^ ((b as u16) << 8), 8)
}

/// CRC-16 of `s` continued from register value `c`.
pub open spec fn crc16_from(c: u16, s: Seq<u8>) -> u16
    decreases s.len(),
{
    if s.len() == 0 {
        c
    } else {
        crc16_from(crc16_byte(c, s[0]), s.skip(1))
    }
}

/// The CRC-16 XMODEM/CCITT variant: polynomial 0x1021, initial register 0,
/// bytes processed MSB-first, no reflection, no final XOR.
pub open spec fn spec_crc16(s: Seq<u8>) -> u16 {
    crc16_from(0, s)
}

/// Calculates the 16-bit XMODEM CRC of `data`.
pub fn crc(data: &[u8]) -> (r: u16)
    ensures
        r == spec_crc16(data@),
{
    let mut c: u16 = 0;
    let mut i: usize = 0;
    proof {
        assert(data@.skip(0) =~= data@);
    }
    while i < data.len()
        invariant
            i <= data.len(),
            spec_crc16(data@) == crc16_from(c, data@.skip(i as int)),
        decreases data.len() - i,
    {
        let ghost pre = c;
        c = c ^ ((data[i] as u16) << 8u16);
        let mut k: usize = 0;
        while k < 8
            invariant
                k <= 8,
                c == crc16_bits(pre ^ ((data@[i as int] as u16) << 8), k as nat),
            decreases 8 - k,
        {
            if c & 0x8000 == 0x8000 {
                c = (c << 1u16) ^ 0x1021;
            } else {
                c = c << 1u16;
            }
            k = k + 1;
        }
        proof {
            assert(c == crc16_byte(pre, data@[i as int]));
            assert(data@.skip(i as int)[0] == data@[i as int]);
            assert(data@.skip(i as int).skip(1) =~= data@.skip(i as int + 1));
            assert(crc16_from(pre, data@.skip(i as int))
                == crc16_from(c, data@.skip(i as int + 1)));
        }
        i = i + 1;
    }
    proof {
        assert(data@.skip(data@.len() as int) =~= Seq::<u8>::empty());
    }
    c
}

/// Calculates the 8-bit XMODEM checksum of `data`.
pub fn checksum(data: &[u8]) -> (r: u8)
    ensures
        r == spec_checksum(data@),
{
    let mut acc: u8 = 0;
    let mut i: usize = 0;
    while i < data.len()
        invariant
            i <= data.len(),
            acc == sum_bytes(data@.take(i as int)) % 256,
        decreases data.len() - i,
    {
        proof {
            lemma_sum_bytes_nonneg(data@.take(i as int));
            assert(data@.take(i as int + 1).drop_last() =~= data@.take(i as int));
            assert(data@.take(i as int + 1).last() == data@[i as int]);
            assert(sum_bytes(data@.take(i as int + 1))
                == sum_bytes(data@.take(i as int)) + data@[i as int]);
            vstd::arithmetic::div_mod::lemma_add_mod_noop(
                sum_bytes(data@.take(i as int)),
                data@[i as int] as int,
                256,
            );
            vstd::arithmetic::div_mod::lemma_small_mod(data@[i as int] as nat, 256);
        }
        acc = (((acc as u16) + (data[i] as u16)) % 256) as u8;
        i = i + 1;
    }
    proof {
        assert(data@.take(data@.len() as int) =~= data@);
        lemma_sum_bytes_nonneg(data@);
        vstd::arithmetic::div_mod::lemma_mod_bound(sum_bytes(data@), 256);
    }
    acc
}

/// Why a received frame was rejected.
#[derive(Clone, Copy, PartialEq, Eq, Structural, Debug)]
pub enum DecodeError {
    /// The frame does not have the shape `[header][seq][comp][payload][trailer]`
    /// with a SOH or STX header and the block size the header announces.
    Malformed,
    /// The sequence number and its complement do not add up to 0xFF.
    ComplementMismatch,
    /// The sequence number is not the one the receiver expects.
    SequenceMismatch,
    /// The recomputed checksum or CRC disagrees with the trailer.
    IntegrityMismatch,
}

/// The sequence number of the block after one with sequence number `s`:
/// numbers start at 1 and wrap 255 -> 0.
pub open spec fn spec_next_seq(s: u8) -> u8 {
    if s == 255 {
        0
    } else {
        (s + 1) as u8
    }
}

/// Advances a block sequence number, wrapping 255 -> 0.
pub fn next_seq(s: u8) -> (r: u8)
    ensures
        r == spec_next_seq(s),
{
    if s == 255 {
        0
    } else {
        s + 1
    }
}

/// The sequence number carried by the block at 0-based position `i` of a
/// transfer: the first block carries 1, and the numbering wraps 255 -> 0.
pub open spec fn spec_block_seq(i: nat) -> u8 {
    ((i + 1) % 256) as u8
}

/// Sequence wraparound: encoding consecutive blocks numbers them
/// 1, 2, ..., 255, 0, 1, ...; in particular block 255 carries 0, so a
/// receiver whose expected number advanced past 255 checks frames against 0.
pub proof fn lemma_sequence_wraparound(i: nat)
    ensures
        spec_block_seq(0) == 1,
        spec_next_seq(spec_block_seq(i)) == spec_block_seq(i + 1),
        spec_next_seq(255) == 0,
{
    vstd::arithmetic::div_mod::lemma_mod_bound((i + 1) as int, 256);
    vstd::arithmetic::div_mod::lemma_add_mod_noop((i + 1) as int, 1, 256);
    vstd::arithmetic::div_mod::lemma_small_mod(1, 256);
    if (i + 1) % 256 == 255 {
        vstd::arithmetic::div_mod::lemma_small_mod(0, 256);
    } else {
        vstd::arithmetic::div_mod::lemma_small_mod(((i + 1) % 256 + 1) as nat, 256);
    }
}

/// `data` extended to `len` bytes with copies of `pad`.
pub open spec fn spec_pad(data: Seq<u8>, pad: u8, len: int) -> Seq<u8> {
    data + Seq::new((len - data.len()) as nat, |i: int| pad)
}

/// Fills a short block up to `target` bytes with the pad byte.
pub fn pad_block(data: &mut Vec<u8>, padbyte: u8, target: usize)
    requires
        old(data)@.len() <= target,
    ensures
        final(data)@ == spec_pad(old(data)@, padbyte, target as int),
{
    while data.len() < target
        invariant
            old(data)@.len() <= data@.len() <= target,
            data@ == spec_pad(old(data)@, padbyte, data@.len() as int),
        decreases target - data@.len(),
    {
        data.push(padbyte);
        proof {
            assert(data@ =~= spec_pad(old(data)@, padbyte, data@.len() as int));
        }
    }
    proof {
        assert(data@ =~= spec_pad(old(data)@, padbyte, target as int));
    }
}

/// Number of trailer bytes carried by a frame in `mode`.
pub open spec fn trailer_len(mode: Mode) -> int {
    match mode {
        Mode::Checksum => 1,
        Mode::Crc16 => 2,
    }
}

/// Block size announced by a header byte (meaningful for SOH and STX only).
pub open spec fn block_len_of_header(h: u8) -> int {
    if h == SOH {
        128
    } else {
        1024
    }
}

/// The trailer a frame in `mode` carries for `payload`: the checksum byte,
/// or the CRC-16 with the high byte first.
pub open spec fn spec_trailer(payload: Seq<u8>, mode: Mode) -> Seq<u8> {
    match mode {
        Mode::Checksum => seq![spec_checksum(payload)],
        Mode::Crc16 => seq![
            (spec_crc16(payload) >> 8) as u8,
            (spec_crc16(payload) & 0xff) as u8,
        ],
    }
}

/// The wire form of one data block:
/// `[header][seq][0xFF - seq][payload][trailer]`, with header SOH for a
/// 128-byte payload and STX for a 1024-byte payload.
pub open spec fn spec_encode(seq_num: u8, payload: Seq<u8>, mode: Mode) -> Seq<u8> {
    seq![
        if payload.len() == 128 { SOH } else { STX },
        seq_num,
        (0xff - seq_num) as u8,
    ] + payload + spec_trailer(payload, mode)
}

/// A byte sequence that is exactly one whole frame in `mode`.
pub open spec fn well_formed_frame(raw: Seq<u8>, mode: Mode) -> bool {
    &&& raw.len() >= 1
    &&& (raw[0] == SOH || raw[0] == STX)
    &&& raw.len() == 3 + block_len_of_header(raw[0]) + trailer_len(mode)
}

/// The payload bytes of a well-formed frame.
pub open spec fn spec_frame_payload(raw: Seq<u8>) -> Seq<u8> {
    raw.subrange(3, 3 + block_len_of_header(raw[0]))
}

/// What validating a raw frame against an expected sequence number yields:
/// the payload, or the first rejection in the order malformed shape,
/// complement mismatch, sequence mismatch, integrity mismatch.
pub open spec fn spec_decode(raw: Seq<u8>, expected_seq: u8, mode: Mode) -> Result<
    Seq<u8>,
    DecodeError,
> {
    if !well_formed_frame(raw, mode) {
        Err(DecodeError::Malformed)
    } else if raw[1] + raw[2] != 0xff {
        Err(DecodeError::ComplementMismatch)
    } else if raw[1] != expected_seq {
        Err(DecodeError::SequenceMismatch)
    } else if raw.subrange(3 + block_len_of_header(raw[0]), raw.len() as int)
        != spec_trailer(spec_frame_payload(raw), mode) {
        Err(DecodeError::IntegrityMismatch)
    } else {
        Ok(spec_frame_payload(raw))
    }
}

proof fn lemma_crc_bytes(c: u16, hi: u8, lo: u8)
    ensures
        (((hi as u16) << 8) | (lo as u16)) == c <==> (hi == (c >> 8) as u8 && lo == (
        c & 0xff) as u8),
{
    assert((((hi as u16) << 8) | (lo as u16)) == c <==> (hi == (c >> 8) as u8 && lo == (
    c & 0xff) as u8)) by (bit_vector);
}

/// Builds the wire packet for one block.
pub fn encode(seq_num: u8, payload: &[u8], mode: Mode) -> (r: Vec<u8>)
    requires
        payload@.len() == 128 || payload@.len() == 1024,
    ensures
        r@ == spec_encode(seq_num, payload@, mode),
{
    let mut out: Vec<u8> = Vec::new();
    if payload.len() == 128 {
        out.push(SOH);
    } else {
        out.push(STX);
    }
    out.push(seq_num);
    out.push(0xff - seq_num);
    let mut j: usize = 0;
    while j < payload.len()
        invariant
            j <= payload@.len(),
            out@ == seq![
                if payload@.len() == 128 { SOH } else { STX },
                seq_num,
                (0xff - seq_num) as u8,
            ] + payload@.take(j as int),
        decreases payload@.len() - j,
    {
        out.push(payload[j]);
        proof {
            assert(out@ =~= seq![
                if payload@.len() == 128 { SOH } else { STX },
                seq_num,
                (0xff - seq_num) as u8,
            ] + payload@.take(j as int + 1));
        }
        j = j + 1;
    }
    proof {
        assert(payload@.take(payload@.len() as int) =~= payload@);
    }
    match mode {
        Mode::Checksum => {
            out.push(checksum(payload));
        },
        Mode::Crc16 => {
            let c = crc(payload);
            out.push((c >> 8) as u8);
            out.push((c & 0xff) as u8);
        },
    }
    proof {
        assert(out@ =~= spec_encode(seq_num, payload@, mode));
    }
    out
}

/// Validates a raw frame against the expected sequence number and the
/// session mode, and returns its payload when every check passes.
pub fn decode_and_validate(raw: &[u8], expected_seq: u8, mode: Mode) -> (r: Result<
    Vec<u8>,
    DecodeError,
>)
    ensures
        (match r {
            Ok(p) => spec_decode(raw@, expected_seq, mode) is Ok && p@ == spec_decode(
                raw@,
                expected_seq,
                mode,
            )->Ok_0,
            Err(e) => spec_decode(raw@, expected_seq, mode) is Err && e == spec_decode(
                raw@,
                expected_seq,
                mode,
            )->Err_0,
        }),
{
    if raw.len() == 0 {
        return Err(DecodeError::Malformed);
    }
    let h = raw[0];
    let block_len: usize = if h == SOH {
        128
    } else if h == STX {
        1024
    } else {
        return Err(DecodeError::Malformed);
    };
    let tl: usize = match mode {
        Mode::Checksum => 1,
        Mode::Crc16 => 2,
    };
    if raw.len() != 3 + block_len + tl {
        return Err(DecodeError::Malformed);
    }
    if (raw[1] as u16) + (raw[2] as u16) != 0xff {
        return Err(DecodeError::ComplementMismatch);
    }
    if raw[1] != expected_seq {
        return Err(DecodeError::SequenceMismatch);
    }
    let payload_slice = vstd::slice::slice_subrange(raw, 3, 3 + block_len);
    let ghost trailer = raw@.subrange(3 + block_len as int, raw@.len() as int);
    match mode {
        Mode::Checksum => {
            let cs = checksum(payload_slice);
            if cs != raw[3 + block_len] {
                proof {
                    assert(trailer[0] == raw@[3 + block_len as int]);
                    assert(trailer != spec_trailer(spec_frame_payload(raw@), mode));
                }
                return Err(DecodeError::IntegrityMismatch);
            }
            proof {
                assert(trailer =~= spec_trailer(spec_frame_payload(raw@), mode));
            }
        },
        Mode::Crc16 => {
            let c = crc(payload_slice);
            let hi = raw[3 + block_len];
            let lo = raw[3 + block_len + 1];
            proof {
                lemma_crc_bytes(spec_crc16(spec_frame_payload(raw@)), hi, lo);
                assert(trailer[0] == raw@[3 + block_len as int]);
                assert(trailer[1] == raw@[3 + block_len as int + 1]);
            }
            if ((hi as u16) << 8u16) | (lo as u16) != c {
                proof {
                    assert(trailer != spec_trailer(spec_frame_payload(raw@), mode));
                }
                return Err(DecodeError::IntegrityMismatch);
            }
            proof {
                assert(trailer =~= spec_trailer(spec_frame_payload(raw@), mode));
            }
        },
    }
    let payload = vstd::slice::slice_to_vec(payload_slice);
    Ok(payload)
}

/// Round trip: a frame built by `encode` for any payload of a legal block
/// size and either mode validates successfully against the sequence number
/// it was built with, and yields the payload back.
pub proof fn lemma_encode_decode_round_trip(seq_num: u8, payload: Seq<u8>, mode: Mode)
    requires
        payload.len() == 128 || payload.len() == 1024,
    ensures
        spec_decode(spec_encode(seq_num, payload, mode), seq_num, mode) is Ok,
        spec_decode(spec_encode(seq_num, payload, mode), seq_num, mode)->Ok_0 == payload,
{
    let raw = spec_encode(seq_num, payload, mode);
    assert(raw[0] == if payload.len() == 128 { SOH } else { STX });
    assert(raw.len() == 3 + payload.len() + trailer_len(mode));
    assert(well_formed_frame(raw, mode));
    assert(raw[1] == seq_num && raw[2] == (0xff - seq_num) as u8);
    assert(raw[1] + raw[2] == 0xff);
    assert(spec_frame_payload(raw) =~= payload);
    assert(raw.subrange(3 + block_len_of_header(raw[0]), raw.len() as int) =~= spec_trailer(
        payload,
        mode,
    ));
}

} // verus!

use vstd::prelude::*;

use crate::text::{decimal, push_decimal, push_str};
use crate::worker_control_frame::{WorkerControlIpcHeader, WorkerControlMessageKind};

verus! {

/// The length of a framed control header, in bytes.
pub const WORKER_CONTROL_IPC_HEADER_LEN: usize = 24;

/// The magic number a framed control header starts with: the bytes `WVCI`, read little-endian.
pub const WORKER_CONTROL_IPC_MAGIC: u32 = 0x4943_5657;

/// The version of the framed control header layout.
pub const WORKER_CONTROL_IPC_VERSION: u16 = 1;

/// The wire code of a message kind.
pub open spec fn kind_code(kind: WorkerControlMessageKind) -> u16 {
    match kind {
        WorkerControlMessageKind::Request => 1,
        WorkerControlMessageKind::Response => 2,
        WorkerControlMessageKind::ErrorResponse => 3,
        WorkerControlMessageKind::BatchRequest => 4,
        WorkerControlMessageKind::BatchResponse => 5,
    }
}

/// The message kind of a wire code, if it names one.
pub open spec fn kind_of_code(code: u16) -> Option<WorkerControlMessageKind> {
    if code == 1 {
        Some(WorkerControlMessageKind::Request)
    } else if code == 2 {
        Some(WorkerControlMessageKind::Response)
    } else if code == 3 {
        Some(WorkerControlMessageKind::ErrorResponse)
    } else if code == 4 {
        Some(WorkerControlMessageKind::BatchRequest)
    } else if code == 5 {
        Some(WorkerControlMessageKind::BatchResponse)
    } else {
        None
    }
}

/// The little-endian bytes of a 16-bit number.
pub open spec fn u16_bytes(v: u16) -> Seq<u8> {
    seq![(v & 0xff) as u8, (v >> 8u16) as u8]
}

/// The little-endian bytes of a 32-bit number.
pub open spec fn u32_bytes(v: u32) -> Seq<u8> {
    seq![(v & 0xff) as u8, ((v >> 8u32) & 0xff) as u8, ((v >> 16u32) & 0xff) as u8, (v >> 24u32) as u8]
}

/// The little-endian bytes of a 64-bit number.
pub open spec fn u64_bytes(v: u64) -> Seq<u8> {
    u32_bytes(v as u32) + u32_bytes((v >> 32u64) as u32)
}

/// The 16-bit number stored little-endian at `at`.
pub open spec fn le_u16(bytes: Seq<u8>, at: int) -> u16 {
    (bytes[at] as u16) | ((bytes[at + 1] as u16) << 8u16)
}

/// The 32-bit number stored little-endian at `at`.
pub open spec fn le_u32(bytes: Seq<u8>, at: int) -> u32 {
    (bytes[at] as u32) | ((bytes[at + 1] as u32) << 8u32) | ((bytes[at + 2] as u32) << 16u32) | ((bytes[at + 3]
        as u32) << 24u32)
}

/// The 64-bit number stored little-endian at `at`.
pub open spec fn le_u64(bytes: Seq<u8>, at: int) -> u64 {
    (le_u32(bytes, at) as u64) | ((le_u32(bytes, at + 4) as u64) << 32u64)
}

/// The bytes of a framed control header: magic, layout version and header length, then the
/// kind's code, the status code, the body length and the sequence, all little-endian.
pub open spec fn spec_encode_header(header: WorkerControlIpcHeader) -> Seq<u8> {
    u32_bytes(WORKER_CONTROL_IPC_MAGIC) + u16_bytes(WORKER_CONTROL_IPC_VERSION) + u16_bytes(
        WORKER_CONTROL_IPC_HEADER_LEN as u16,
    ) + u16_bytes(kind_code(header.kind)) + u16_bytes(header.status_code) + u32_bytes(header.body_len)
        + u64_bytes(header.sequence)
}

/// The header the first 24 bytes hold, or why they hold none: too few bytes, another magic,
/// layout version or header length, or an unknown kind.
pub open spec fn spec_decode_header(bytes: Seq<u8>) -> Result<WorkerControlIpcHeader, Seq<char>> {
    if bytes.len() < WORKER_CONTROL_IPC_HEADER_LEN {
        Err(
            "worker control IPC header too short: expected 24 bytes, got "@ + decimal(bytes.len()),
        )
    } else if le_u32(bytes, 0) != WORKER_CONTROL_IPC_MAGIC {
        Err("invalid worker control IPC magic"@)
    } else if le_u16(bytes, 4) != WORKER_CONTROL_IPC_VERSION {
        Err("unsupported worker control IPC version "@ + decimal(le_u16(bytes, 4) as nat))
    } else if le_u16(bytes, 6) != WORKER_CONTROL_IPC_HEADER_LEN as u16 {
        Err("invalid worker control IPC header length "@ + decimal(le_u16(bytes, 6) as nat))
    } else {
        match kind_of_code(le_u16(bytes, 8)) {
            None => Err("unknown worker control IPC message kind "@ + decimal(le_u16(bytes, 8) as nat)),
            Some(kind) => Ok(
                WorkerControlIpcHeader {
                    kind,
                    status_code: le_u16(bytes, 10),
                    body_len: le_u32(bytes, 12),
                    sequence: le_u64(bytes, 16),
                },
            ),
        }
    }
}

proof fn lemma_u16_round_trip(v: u16)
    ensures
        (((v & 0xff) as u8) as u16) | ((((v >> 8u16) as u8) as u16) << 8u16) == v,
{
    assert((((v & 0xff) as u8) as u16) | ((((v >> 8u16) as u8) as u16) << 8u16) == v) by (bit_vector);
}

proof fn lemma_u32_round_trip(v: u32)
    ensures
        (((v & 0xff) as u8) as u32) | (((((v >> 8u32) & 0xff) as u8) as u32) << 8u32) | (((((v >> 16u32) & 0xff)
            as u8) as u32) << 16u32) | ((((v >> 24u32) as u8) as u32) << 24u32) == v,
{
    assert((((v & 0xff) as u8) as u32) | (((((v >> 8u32) & 0xff) as u8) as u32) << 8u32) | (((((v >> 16u32)
        & 0xff) as u8) as u32) << 16u32) | ((((v >> 24u32) as u8) as u32) << 24u32) == v) by (bit_vector);
}

proof fn lemma_u64_halves(v: u64)
    ensures
        ((v as u32) as u64) | ((((v >> 32u64) as u32) as u64) << 32u64) == v,
{
    assert(((v as u32) as u64) | ((((v >> 32u64) as u32) as u64) << 32u64) == v) by (bit_vector);
}

proof fn lemma_read_u16(bytes: Seq<u8>, at: int, v: u16)
    requires
        0 <= at,
        at + 2 <= bytes.len(),
        bytes.subrange(at, at + 2) == u16_bytes(v),
    ensures
        le_u16(bytes, at) == v,
{
    assert(bytes[at] == u16_bytes(v)[0]);
    assert(bytes[at + 1] == u16_bytes(v)[1]);
    lemma_u16_round_trip(v);
}

proof fn lemma_read_u32(bytes: Seq<u8>, at: int, v: u32)
    requires
        0 <= at,
        at + 4 <= bytes.len(),
        bytes.subrange(at, at + 4) == u32_bytes(v),
    ensures
        le_u32(bytes, at) == v,
{
    assert(bytes[at] == u32_bytes(v)[0]);
    assert(bytes[at + 1] == u32_bytes(v)[1]);
    assert(bytes[at + 2] == u32_bytes(v)[2]);
    assert(bytes[at + 3] == u32_bytes(v)[3]);
    lemma_u32_round_trip(v);
}

proof fn lemma_read_u64(bytes: Seq<u8>, at: int, v: u64)
    requires
        0 <= at,
        at + 8 <= bytes.len(),
        bytes.subrange(at, at + 8) == u64_bytes(v),
    ensures
        le_u64(bytes, at) == v,
{
    let lo = v as u32;
    let hi = #[verifier::truncate] ((v >> 32u64) as u32);
    let whole = bytes.subrange(at, at + 8);
    assert(whole == u32_bytes(lo) + u32_bytes(hi));
    assert forall|i: int| 0 <= i < 4 implies #[trigger] bytes.subrange(at + 4, at + 8)[i] == u32_bytes(hi)[i] by {
        assert(bytes.subrange(at + 4, at + 8)[i] == whole[4 + i]);
    }
    assert(bytes.subrange(at, at + 4) =~= u32_bytes(lo));
    assert(bytes.subrange(at + 4, at + 8) =~= u32_bytes(hi));
    lemma_read_u32(bytes, at, lo);
    lemma_read_u32(bytes, at + 4, hi);
    lemma_u64_halves(v);
}

/// Decoding the bytes of an encoded header gives the header back.
#[verifier::spinoff_prover]
pub proof fn lemma_header_round_trip(header: WorkerControlIpcHeader)
    ensures
        spec_decode_header(spec_encode_header(header)) == Ok::<WorkerControlIpcHeader, Seq<char>>(header),
{
    let bytes = spec_encode_header(header);
    assert(bytes.len() == 24);
    assert(bytes.subrange(0, 4) =~= u32_bytes(WORKER_CONTROL_IPC_MAGIC));
    assert(bytes.subrange(4, 6) =~= u16_bytes(WORKER_CONTROL_IPC_VERSION));
    assert(bytes.subrange(6, 8) =~= u16_bytes(WORKER_CONTROL_IPC_HEADER_LEN as u16));
    assert(bytes.subrange(8, 10) =~= u16_bytes(kind_code(header.kind)));
    assert(bytes.subrange(10, 12) =~= u16_bytes(header.status_code));
    assert(bytes.subrange(12, 16) =~= u32_bytes(header.body_len));
    assert(bytes.subrange(16, 24) =~= u64_bytes(header.sequence));
    lemma_read_u32(bytes, 0, WORKER_CONTROL_IPC_MAGIC);
    lemma_read_u16(bytes, 4, WORKER_CONTROL_IPC_VERSION);
    lemma_read_u16(bytes, 6, WORKER_CONTROL_IPC_HEADER_LEN as u16);
    lemma_read_u16(bytes, 8, kind_code(header.kind));
    lemma_read_u16(bytes, 10, header.status_code);
    lemma_read_u32(bytes, 12, header.body_len);
    lemma_read_u64(bytes, 16, header.sequence);
}

fn push_u16(bytes: &mut Vec<u8>, v: u16)
    ensures
        final(bytes)@ == old(bytes)@ + u16_bytes(v),
{
    bytes.push((v & 0xff) as u8);
    bytes.push((v >> 8u16) as u8);
    assert(final(bytes)@ =~= old(bytes)@ + u16_bytes(v));
}

fn push_u32(bytes: &mut Vec<u8>, v: u32)
    ensures
        final(bytes)@ == old(bytes)@ + u32_bytes(v),
{
    bytes.push((v & 0xff) as u8);
    bytes.push(((v >> 8u32) & 0xff) as u8);
    bytes.push(((v >> 16u32) & 0xff) as u8);
    bytes.push((v >> 24u32) as u8);
    assert(final(bytes)@ =~= old(bytes)@ + u32_bytes(v));
}

fn push_u64(bytes: &mut Vec<u8>, v: u64)
    ensures
        final(bytes)@ == old(bytes)@ + u64_bytes(v),
{
    push_u32(bytes, v as u32);
    push_u32(bytes, (v >> 32u64) as u32);
    assert(final(bytes)@ =~= old(bytes)@ + u64_bytes(v));
}

fn kind_to_code(kind: WorkerControlMessageKind) -> (code: u16)
    ensures
        code == kind_code(kind),
{
    match kind {
        WorkerControlMessageKind::Request => 1,
        WorkerControlMessageKind::Response => 2,
        WorkerControlMessageKind::ErrorResponse => 3,
        WorkerControlMessageKind::BatchRequest => 4,
        WorkerControlMessageKind::BatchResponse => 5,
    }
}

/// Appends the bytes of a framed control header.
pub fn encode_header(header: &WorkerControlIpcHeader, bytes: &mut Vec<u8>)
    ensures
        final(bytes)@ == old(bytes)@ + spec_encode_header(*header),
{
    push_u32(bytes, WORKER_CONTROL_IPC_MAGIC);
    push_u16(bytes, WORKER_CONTROL_IPC_VERSION);
    push_u16(bytes, WORKER_CONTROL_IPC_HEADER_LEN as u16);
    push_u16(bytes, kind_to_code(header.kind));
    push_u16(bytes, header.status_code);
    push_u32(bytes, header.body_len);
    push_u64(bytes, header.sequence);
    assert(final(bytes)@ =~= old(bytes)@ + spec_encode_header(*header));
}

fn read_u16(bytes: &[u8], at: usize) -> (v: u16)
    requires
        at + 2 <= bytes@.len(),
    ensures
        v == le_u16(bytes@, at as int),
{
    (bytes[at] as u16) | ((bytes[at + 1] as u16) << 8u16)
}

fn read_u32(bytes: &[u8], at: usize) -> (v: u32)
    requires
        at + 4 <= bytes@.len(),
    ensures
        v == le_u32(bytes@, at as int),
{
    (bytes[at] as u32) | ((bytes[at + 1] as u32) << 8u32) | ((bytes[at + 2] as u32) << 16u32) | ((bytes[at + 3]
        as u32) << 24u32)
}

fn read_u64(bytes: &[u8], at: usize) -> (v: u64)
    requires
        at + 8 <= bytes@.len(),
    ensures
        v == le_u64(bytes@, at as int),
{
    let len = bytes.len();
    assert(at + 8 <= len);
    (read_u32(bytes, at) as u64) | ((read_u32(bytes, at + 4) as u64) << 32u64)
}

/// Decodes the framed control header at the start of `bytes`.
pub fn decode_header(bytes: &[u8]) -> (result: Result<WorkerControlIpcHeader, String>)
    ensures
        match (result, spec_decode_header(bytes@)) {
            (Ok(header), Ok(expected)) => header == expected,
            (Err(message), Err(expected)) => message@ == expected,
            _ => false,
        },
{
    if bytes.len() < WORKER_CONTROL_IPC_HEADER_LEN {
        let mut message = String::from_str("worker control IPC header too short: expected 24 bytes, got ");
        push_decimal(&mut message, bytes.len() as u128);
        return Err(message);
    }
    if read_u32(bytes, 0) != WORKER_CONTROL_IPC_MAGIC {
        return Err(String::from_str("invalid worker control IPC magic"));
    }
    let version = read_u16(bytes, 4);
    if version != WORKER_CONTROL_IPC_VERSION {
        let mut message = String::from_str("unsupported worker control IPC version ");
        push_decimal(&mut message, version as u128);
        return Err(message);
    }
    let header_len = read_u16(bytes, 6);
    if header_len != WORKER_CONTROL_IPC_HEADER_LEN as u16 {
        let mut message = String::from_str("invalid worker control IPC header length ");
        push_decimal(&mut message, header_len as u128);
        return Err(message);
    }
    let code = read_u16(bytes, 8);
    let kind = if code == 1 {
        WorkerControlMessageKind::Request
    } else if code == 2 {
        WorkerControlMessageKind::Response
    } else if code == 3 {
        WorkerControlMessageKind::ErrorResponse
    } else if code == 4 {
        WorkerControlMessageKind::BatchRequest
    } else if code == 5 {
        WorkerControlMessageKind::BatchResponse
    } else {
        let mut message = String::from_str("unknown worker control IPC message kind ");
        push_decimal(&mut message, code as u128);
        return Err(message);
    };
    Ok(
        WorkerControlIpcHeader {
            kind,
            status_code: read_u16(bytes, 10),
            body_len: read_u32(bytes, 12),
            sequence: read_u64(bytes, 16),
        },
    )
}

/// The bytes of a framed control message: its header, then its body.
pub open spec fn spec_encode_frame(kind: WorkerControlMessageKind, status_code: u16, sequence: u64, body: Seq<u8>) -> Seq<u8> {
    spec_encode_header(WorkerControlIpcHeader { kind, status_code, sequence, body_len: body.len() as u32 }) + body
}

/// Encodes a framed control message; a body longer than a 32-bit length can say is refused.
pub fn encode_frame(kind: WorkerControlMessageKind, status_code: u16, sequence: u64, body: &[u8]) -> (frame: Option<
    Vec<u8>,
>)
    ensures
        body@.len() <= u32::MAX ==> (frame matches Some(f) && f@ == spec_encode_frame(kind, status_code, sequence, body@)),
        body@.len() > u32::MAX ==> frame is None,
{
    if body.len() > u32::MAX as usize {
        return None;
    }
    let header = WorkerControlIpcHeader { kind, status_code, sequence, body_len: body.len() as u32 };
    let mut frame: Vec<u8> = Vec::new();
    encode_header(&header, &mut frame);
    let mut index: usize = 0;
    while index < body.len()
        invariant
            index <= body@.len(),
            frame@ == spec_encode_header(header) + body@.take(index as int),
        decreases body@.len() - index,
    {
        frame.push(body[index]);
        index = index + 1;
        assert(frame@ =~= spec_encode_header(header) + body@.take(index as int));
    }
    assert(body@.take(body@.len() as int) =~= body@);
    Some(frame)
}

/// The messages a batch body holds, one framed message after another, or why it holds none:
/// a header that does not decode, or a body cut short.
pub open spec fn spec_decode_batch(bytes: Seq<u8>) -> Result<Seq<(WorkerControlIpcHeader, Seq<u8>)>, Seq<char>>
    decreases bytes.len(),
{
    if bytes.len() == 0 {
        Ok(Seq::empty())
    } else {
        match spec_decode_header(bytes) {
            Err(message) => Err(message),
            Ok(header) => {
                let end = WORKER_CONTROL_IPC_HEADER_LEN + header.body_len;
                if end > bytes.len() {
                    Err("truncated worker control IPC batch"@)
                } else {
                    match spec_decode_batch(bytes.subrange(end, bytes.len() as int)) {
                        Err(message) => Err(message),
                        Ok(rest) => Ok(
                            seq![(header, bytes.subrange(WORKER_CONTROL_IPC_HEADER_LEN as int, end))] + rest,
                        ),
                    }
                }
            },
        }
    }
}

/// The decoded messages `found` followed by whatever a further decoding gives.
pub open spec fn prefixed(
    found: Seq<(WorkerControlIpcHeader, Seq<u8>)>,
    decoded: Result<Seq<(WorkerControlIpcHeader, Seq<u8>)>, Seq<char>>,
) -> Result<Seq<(WorkerControlIpcHeader, Seq<u8>)>, Seq<char>> {
    match decoded {
        Err(message) => Err(message),
        Ok(rest) => Ok(found + rest),
    }
}

/// Splits a batch body into its framed messages.
pub fn decode_batch(bytes: &[u8]) -> (result: Result<Vec<(WorkerControlIpcHeader, Vec<u8>)>, String>)
    ensures
        match (result, spec_decode_batch(bytes@)) {
            (Ok(messages), Ok(expected)) => messages@.len() == expected.len() && forall|i: int|
                0 <= i < expected.len() ==> (#[trigger] messages@[i]).0 == expected[i].0 && messages@[i].1@
                    == expected[i].1,
            (Err(message), Err(expected)) => message@ == expected,
            _ => false,
        },
{
    let mut messages: Vec<(WorkerControlIpcHeader, Vec<u8>)> = Vec::new();
    let mut offset: usize = 0;
    let len = bytes.len();
    let ghost found: Seq<(WorkerControlIpcHeader, Seq<u8>)> = Seq::empty();
    proof {
        assert(bytes@.subrange(0, len as int) =~= bytes@);
        match spec_decode_batch(bytes@) {
            Ok(rest) => {
                assert(found + rest =~= rest);
            },
            Err(_) => {},
        }
    }
    while offset < len
        invariant
            len == bytes@.len(),
            offset <= len,
            spec_decode_batch(bytes@) == prefixed(found, spec_decode_batch(bytes@.subrange(offset as int, len as int))),
            messages@.len() == found.len(),
            forall|i: int|
                0 <= i < found.len() ==> (#[trigger] messages@[i]).0 == found[i].0 && messages@[i].1@ == found[i].1,
        decreases len - offset,
    {
        let rest = slice_from(bytes, offset);
        let header = match decode_header(rest) {
            Ok(header) => header,
            Err(message) => return Err(message),
        };
        let body_len = header.body_len as usize;
        if body_len > rest.len() - WORKER_CONTROL_IPC_HEADER_LEN {
            return Err(String::from_str("truncated worker control IPC batch"));
        }
        let end = WORKER_CONTROL_IPC_HEADER_LEN + body_len;
        let mut body: Vec<u8> = Vec::new();
        let mut index: usize = WORKER_CONTROL_IPC_HEADER_LEN;
        while index < end
            invariant
                WORKER_CONTROL_IPC_HEADER_LEN <= index <= end,
                end <= rest@.len(),
                body@ == rest@.subrange(WORKER_CONTROL_IPC_HEADER_LEN as int, index as int),
            decreases end - index,
        {
            body.push(rest[index]);
            index = index + 1;
            assert(body@ =~= rest@.subrange(WORKER_CONTROL_IPC_HEADER_LEN as int, index as int));
        }
        proof {
            let after = bytes@.subrange((offset + end) as int, len as int);
            assert(rest@.subrange(end as int, rest@.len() as int) =~= after);
            match spec_decode_batch(after) {
                Ok(tail) => {
                    assert(found + (seq![(header, body@)] + tail) =~= found.push((header, body@)) + tail);
                },
                Err(_) => {},
            }
            found = found.push((header, body@));
        }
        messages.push((header, body));
        offset = offset + end;
    }
    proof {
        assert(bytes@.subrange(offset as int, len as int) =~= Seq::<u8>::empty());
        assert(found + Seq::<(WorkerControlIpcHeader, Seq<u8>)>::empty() =~= found);
    }
    Ok(messages)
}

/// The bytes of framed messages sent one after another.
pub open spec fn spec_concat(frames: Seq<Seq<u8>>) -> Seq<u8>
    decreases frames.len(),
{
    if frames.len() == 0 {
        Seq::empty()
    } else {
        spec_concat(frames.drop_last()) + frames.last()
    }
}

/// The body of a batch: the framed messages one after another.
pub fn concat_frames(frames: &Vec<Vec<u8>>) -> (body: Vec<u8>)
    ensures
        body@ == spec_concat(frames@.map_values(|frame: Vec<u8>| frame@)),
{
    let ghost views = frames@.map_values(|frame: Vec<u8>| frame@);
    let mut body: Vec<u8> = Vec::new();
    let mut index: usize = 0;
    while index < frames.len()
        invariant
            index <= frames@.len(),
            views == frames@.map_values(|frame: Vec<u8>| frame@),
            body@ == spec_concat(views.take(index as int)),
        decreases frames@.len() - index,
    {
        let frame = &frames[index];
        let ghost before = body@;
        let mut at: usize = 0;
        while at < frame.len()
            invariant
                at <= frame@.len(),
                body@ == before + frame@.take(at as int),
            decreases frame@.len() - at,
        {
            body.push(frame[at]);
            at = at + 1;
            assert(body@ =~= before + frame@.take(at as int));
        }
        assert(frame@.take(frame@.len() as int) =~= frame@);
        assert(views.take(index + 1).drop_last() =~= views.take(index as int));
        index = index + 1;
    }
    assert(views.take(frames@.len() as int) =~= views);
    body
}

/// The bytes of a framed message: its header, then its body.
pub open spec fn encoded_message(message: (WorkerControlIpcHeader, Seq<u8>)) -> Seq<u8> {
    spec_encode_header(message.0) + message.1
}

proof fn lemma_concat_front(frames: Seq<Seq<u8>>)
    requires
        frames.len() > 0,
    ensures
        spec_concat(frames) == frames[0] + spec_concat(frames.drop_first()),
    decreases frames.len(),
{
    if frames.len() == 1 {
        assert(frames.drop_last() =~= Seq::<Seq<u8>>::empty());
        assert(frames.drop_first() =~= Seq::<Seq<u8>>::empty());
        assert(spec_concat(frames) =~= frames[0] + spec_concat(frames.drop_first()));
    } else {
        lemma_concat_front(frames.drop_last());
        assert(frames.drop_last().drop_first() =~= frames.drop_first().drop_last());
        assert(frames.drop_first().last() == frames.last());
        assert(spec_concat(frames) =~= frames[0] + spec_concat(frames.drop_first()));
    }
}

proof fn lemma_decode_header_prefix(bytes: Seq<u8>, more: Seq<u8>)
    requires
        bytes.len() >= WORKER_CONTROL_IPC_HEADER_LEN,
    ensures
        spec_decode_header(bytes + more) == spec_decode_header(bytes),
{
    let all = bytes + more;
    assert forall|i: int| 0 <= i < bytes.len() implies all[i] == bytes[i] by {}
    assert(le_u32(all, 0) == le_u32(bytes, 0));
    assert(le_u16(all, 4) == le_u16(bytes, 4));
    assert(le_u16(all, 6) == le_u16(bytes, 6));
    assert(le_u16(all, 8) == le_u16(bytes, 8));
    assert(le_u16(all, 10) == le_u16(bytes, 10));
    assert(le_u32(all, 12) == le_u32(bytes, 12));
    assert(le_u32(all, 16) == le_u32(bytes, 16));
    assert(le_u32(all, 20) == le_u32(bytes, 20));
    assert(le_u64(all, 16) == le_u64(bytes, 16));
}

#[verifier::spinoff_prover]
proof fn lemma_decode_batch_step(header: WorkerControlIpcHeader, body: Seq<u8>, tail: Seq<u8>)
    requires
        header.body_len == body.len(),
    ensures
        spec_decode_batch(spec_encode_header(header) + (body + tail)) == prefixed(
            seq![(header, body)],
            spec_decode_batch(tail),
        ),
{
    let header_bytes = spec_encode_header(header);
    let bytes = header_bytes + (body + tail);
    lemma_header_round_trip(header);
    lemma_decode_header_prefix(header_bytes, body + tail);
    assert(spec_decode_header(bytes) == Ok::<WorkerControlIpcHeader, Seq<char>>(header));
    let end = WORKER_CONTROL_IPC_HEADER_LEN + header.body_len;
    assert(bytes.subrange(WORKER_CONTROL_IPC_HEADER_LEN as int, end) =~= body);
    assert(bytes.subrange(end, bytes.len() as int) =~= tail);
}

/// Splitting the bytes of framed messages sent one after another gives the messages back,
/// when each header announces its body's length.
#[verifier::spinoff_prover]
pub proof fn lemma_batch_round_trip(messages: Seq<(WorkerControlIpcHeader, Seq<u8>)>, frames: Seq<Seq<u8>>)
    requires
        frames.len() == messages.len(),
        forall|i: int|
            0 <= i < messages.len() ==> (#[trigger] messages[i]).0.body_len == messages[i].1.len() && frames[i]
                == encoded_message(messages[i]),
    ensures
        spec_decode_batch(spec_concat(frames)) == Ok::<Seq<(WorkerControlIpcHeader, Seq<u8>)>, Seq<char>>(messages),
    decreases messages.len(),
{
    if messages.len() == 0 {
        assert(spec_concat(frames) =~= Seq::<u8>::empty());
        assert(messages =~= Seq::<(WorkerControlIpcHeader, Seq<u8>)>::empty());
    } else {
        let first = messages[0];
        let rest = messages.drop_first();
        let rest_frames = frames.drop_first();
        assert forall|i: int| 0 <= i < rest.len() implies (#[trigger] rest[i]).0.body_len == rest[i].1.len()
            && rest_frames[i] == encoded_message(rest[i]) by {
            assert(rest[i] == messages[i + 1]);
            assert(rest_frames[i] == frames[i + 1]);
        }
        lemma_batch_round_trip(rest, rest_frames);
        lemma_concat_front(frames);
        assert(messages[0].0.body_len == messages[0].1.len());
        let tail = spec_concat(rest_frames);
        assert(spec_concat(frames) =~= spec_encode_header(first.0) + (first.1 + tail));
        lemma_decode_batch_step(first.0, first.1, tail);
        assert(seq![(first.0, first.1)] + rest =~= messages);
    }
}

/// The bytes of a slice from `start` on.
fn slice_from(bytes: &[u8], start: usize) -> (rest: &[u8])
    requires
        start <= bytes@.len(),
    ensures
        rest@ == bytes@.subrange(start as int, bytes@.len() as int),
{
    let len = bytes.len();
    let rest = vstd::slice::slice_subrange(bytes, start, len);
    rest
}

} // verus!

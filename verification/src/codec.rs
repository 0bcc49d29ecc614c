//! Decoding of BLE advertisements into sensor readings.
//!
//! An advertisement is a run of AD structures, each a length byte, a type
//! byte and a payload. A reading travels in the payload of the first
//! manufacturer-specific structure that starts with the company identifier
//! of the sensor family.

use vstd::prelude::*;
use vstd::slice::slice_subrange;
use vstd::string::*;

use crate::reading::{HibouAir, READING_SIZE};

verus! {

/// Why an advertisement did not yield a reading.
#[derive(Debug, Clone, Copy, PartialEq, Eq, Structural)]
pub enum DecodeError {
    /// The text is not an even number of hexadecimal digits.
    InvalidEncoding,
    /// The manufacturer data is shorter than a reading.
    TooShort,
    /// No manufacturer data with the expected company identifier is present.
    NotFound,
}

/// AD type of manufacturer-specific data.
pub const MANUFACTURER_DATA: u8 = 0xFF;

/// Low byte of the company identifier, which comes first on the wire.
pub const COMPANY_ID_LOW: u8 = 0x5B;

/// High byte of the company identifier.
pub const COMPANY_ID_HIGH: u8 = 0x07;

/// One AD structure of an advertisement: its type and its payload.
pub struct AdStructure {
    pub kind: u8,
    pub payload: Seq<u8>,
}

/// Whether `buf` begins with a complete AD structure: a length byte that is
/// not zero, followed by at least that many bytes.
pub open spec fn starts_with_structure(buf: Seq<u8>) -> bool {
    buf.len() > 0 && buf[0] != 0 && 1 + buf[0] <= buf.len()
}

/// The AD structures of `buf`, in order. The walk ends at a zero length
/// byte, at a structure that runs past the end, or at the end of `buf`.
pub open spec fn ad_structures(buf: Seq<u8>) -> Seq<AdStructure>
    decreases buf.len(),
{
    if starts_with_structure(buf) {
        seq![AdStructure { kind: buf[1], payload: buf.subrange(2, 1 + buf[0]) }] + ad_structures(
            buf.skip(1 + buf[0]),
        )
    } else {
        Seq::empty()
    }
}

/// Whether `s` is manufacturer data that starts with the company
/// identifier of the sensor family.
pub open spec fn is_vendor(s: AdStructure) -> bool {
    &&& s.kind == MANUFACTURER_DATA
    &&& s.payload.len() >= 2
    &&& s.payload[0] == COMPANY_ID_LOW
    &&& s.payload[1] == COMPANY_ID_HIGH
}

/// The payload of the first structure of `structs` that is vendor data.
pub open spec fn first_vendor(structs: Seq<AdStructure>) -> Option<Seq<u8>>
    decreases structs.len(),
{
    if structs.len() == 0 {
        None
    } else if is_vendor(structs[0]) {
        Some(structs[0].payload)
    } else {
        first_vendor(structs.drop_first())
    }
}

/// What decoding the vendor payload `payload` gives: the bytes of the
/// reading at its start, or `TooShort`.
pub open spec fn decode_payload(payload: Seq<u8>) -> Result<Seq<u8>, DecodeError> {
    if payload.len() < READING_SIZE {
        Err(DecodeError::TooShort)
    } else {
        Ok(payload.subrange(0, READING_SIZE as int))
    }
}

/// What decoding the advertisement `buf` gives: the bytes of the reading
/// in its first vendor structure, `TooShort` where that structure cannot
/// hold a reading, `NotFound` where there is no such structure.
pub open spec fn decode_spec(buf: Seq<u8>) -> Result<Seq<u8>, DecodeError> {
    match first_vendor(ad_structures(buf)) {
        None => Err(DecodeError::NotFound),
        Some(payload) => decode_payload(payload),
    }
}

/// The outcome of a decode with the reading replaced by its bytes.
pub open spec fn outcome_view(r: Result<HibouAir, DecodeError>) -> Result<Seq<u8>, DecodeError> {
    match r {
        Ok(reading) => Ok(reading@),
        Err(e) => Err(e),
    }
}

/// Decodes the reading that the advertisement `buffer` carries.
pub fn decode_advertisement(buffer: &[u8]) -> (r: Result<HibouAir, DecodeError>)
    ensures
        outcome_view(r) == decode_spec(buffer@),
{
    let mut i: usize = 0;
    assert(buffer@.skip(0) =~= buffer@);
    while i < buffer.len()
        invariant
            i <= buffer@.len(),
            first_vendor(ad_structures(buffer@)) == first_vendor(
                ad_structures(buffer@.skip(i as int)),
            ),
        decreases buffer@.len() - i,
    {
        let ghost rest = buffer@.skip(i as int);
        let len: usize = buffer[i] as usize;
        if len == 0 || len > buffer.len() - i - 1 {
            assert(!starts_with_structure(rest));
            return Err(DecodeError::NotFound);
        }
        let end: usize = i + 1 + len;
        assert(starts_with_structure(rest));
        let ghost head = AdStructure { kind: rest[1], payload: rest.subrange(2, 1 + len) };
        let ghost tail = ad_structures(rest.skip(1 + len));
        assert(ad_structures(rest) == seq![head] + tail);
        assert((seq![head] + tail).drop_first() =~= tail);
        assert(rest.skip(1 + len) =~= buffer@.skip(end as int));
        assert(head.payload =~= buffer@.subrange(i + 2, end as int));
        let kind: u8 = buffer[i + 1];
        if kind == MANUFACTURER_DATA && len >= 3 && buffer[i + 2] == COMPANY_ID_LOW && buffer[i
            + 3] == COMPANY_ID_HIGH {
            assert(is_vendor(head));
            return HibouAir::from_ble(slice_subrange(buffer, i + 2, end));
        }
        assert(!is_vendor(head));
        i = end;
    }
    assert(!starts_with_structure(buffer@.skip(i as int)));
    Err(DecodeError::NotFound)
}

/// The value of the hexadecimal digit `c`, in either case.
pub open spec fn hex_value(c: u8) -> Option<u8> {
    if 0x30 <= c <= 0x39 {
        Some((c - 0x30) as u8)
    } else if 0x41 <= c <= 0x46 {
        Some((c - 0x41 + 10) as u8)
    } else if 0x61 <= c <= 0x66 {
        Some((c - 0x61 + 10) as u8)
    } else {
        None
    }
}

/// Whether `text` is an even number of hexadecimal digits.
pub open spec fn is_hex_text(text: Seq<u8>) -> bool {
    &&& text.len() % 2 == 0
    &&& forall|i: int| 0 <= i < text.len() ==> (#[trigger] hex_value(text[i])) is Some
}

/// The bytes that the hexadecimal digits `text` spell, two digits to a
/// byte, the high digit first.
pub open spec fn hex_bytes(text: Seq<u8>) -> Seq<u8> {
    Seq::new(
        text.len() / 2,
        |i: int| (hex_value(text[2 * i])->0 * 16 + hex_value(text[2 * i + 1])->0) as u8,
    )
}

/// What decoding the hexadecimal text `text` gives: `InvalidEncoding`
/// where it is not hexadecimal, else what its bytes decode to.
pub open spec fn decode_hex_spec(text: Seq<u8>) -> Result<Seq<u8>, DecodeError> {
    if is_hex_text(text) {
        decode_spec(hex_bytes(text))
    } else {
        Err(DecodeError::InvalidEncoding)
    }
}

/// `hex::FromHexError`, the error of `hex::decode`; nothing is read from it.
#[verifier::external_type_specification]
#[verifier::external_body]
pub struct ExFromHexError(hex::FromHexError);

/// `hex::decode`: succeeds exactly on an even number of hexadecimal
/// digits, upper or lower case, and then returns the bytes they spell.
#[verifier::external_body]
fn hex_decode(text: &[u8]) -> (r: Result<Vec<u8>, hex::FromHexError>)
    ensures
        r is Ok <==> is_hex_text(text@),
        r matches Ok(bytes) ==> bytes@ == hex_bytes(text@),
{
    hex::decode(text)
}

impl HibouAir {
    /// Decodes the reading that the hexadecimal advertisement `hex_str`
    /// carries.
    pub fn from_hex(hex_str: &str) -> (r: Result<HibouAir, DecodeError>)
        ensures
            outcome_view(r) == decode_hex_spec(hex_str.spec_bytes()),
    {
        match hex_decode(hex_str.as_bytes()) {
            Ok(bytes) => decode_advertisement(bytes.as_slice()),
            Err(_) => Err(DecodeError::InvalidEncoding),
        }
    }
}

/// An outcome whose view is the bytes of `reading` is `reading` itself.
pub proof fn lemma_outcome_is_reading(r: Result<HibouAir, DecodeError>, reading: HibouAir)
    requires
        outcome_view(r) == Ok::<Seq<u8>, DecodeError>(reading@),
    ensures
        r == Ok::<HibouAir, DecodeError>(reading),
{
    HibouAir::lemma_view_injective(r->Ok_0, reading);
}

/// The bytes that carry the structure `s`: its length byte, its type and
/// its payload.
pub open spec fn frame(s: AdStructure) -> Seq<u8> {
    seq![(s.payload.len() + 1) as u8, s.kind] + s.payload
}

/// The bytes that carry the structures `structs`, one after the other.
pub open spec fn frames(structs: Seq<AdStructure>) -> Seq<u8>
    decreases structs.len(),
{
    if structs.len() == 0 {
        Seq::empty()
    } else {
        frame(structs[0]) + frames(structs.drop_first())
    }
}

/// Whether the payload of every structure of `structs` fits under one
/// length byte.
pub open spec fn framable(structs: Seq<AdStructure>) -> bool {
    forall|i: int| 0 <= i < structs.len() ==> (#[trigger] structs[i]).payload.len() <= 254
}

/// Whether none of `structs` is vendor data.
pub open spec fn no_vendor(structs: Seq<AdStructure>) -> bool {
    forall|i: int| 0 <= i < structs.len() ==> !is_vendor(#[trigger] structs[i])
}

/// A buffer that begins with the frame of `s` has `s` as its first
/// structure, followed by the structures of what comes after the frame.
pub proof fn lemma_structures_after_frame(s: AdStructure, rest: Seq<u8>)
    requires
        s.payload.len() <= 254,
    ensures
        ad_structures(frame(s) + rest) == seq![s] + ad_structures(rest),
{
    let buf = frame(s) + rest;
    assert(starts_with_structure(buf));
    assert(buf.subrange(2, 1 + buf[0]) =~= s.payload);
    assert(buf.skip(1 + buf[0]) =~= rest);
}

/// The walk over the frames of `structs`, followed by any bytes `rest`,
/// finds `structs` and then the structures of `rest`.
pub proof fn lemma_structures_of_frames(structs: Seq<AdStructure>, rest: Seq<u8>)
    requires
        framable(structs),
    ensures
        ad_structures(frames(structs) + rest) == structs + ad_structures(rest),
    decreases structs.len(),
{
    if structs.len() == 0 {
        assert(frames(structs) + rest =~= rest);
        assert(structs + ad_structures(rest) =~= ad_structures(rest));
    } else {
        let head = structs[0];
        let tail = structs.drop_first();
        assert(framable(tail)) by {
            assert forall|i: int| 0 <= i < tail.len() implies (#[trigger] tail[i]).payload.len()
                <= 254 by {
                assert(tail[i] == structs[i + 1]);
            }
        }
        lemma_structures_of_frames(tail, rest);
        lemma_structures_after_frame(head, frames(tail) + rest);
        assert(frames(structs) + rest =~= frame(head) + (frames(tail) + rest));
        assert(seq![head] + (tail + ad_structures(rest)) =~= structs + ad_structures(rest));
    }
}

/// The first vendor payload of `before + after` is that of `after` where
/// `before` holds no vendor data.
pub proof fn lemma_first_vendor_skips(before: Seq<AdStructure>, after: Seq<AdStructure>)
    requires
        no_vendor(before),
    ensures
        first_vendor(before + after) == first_vendor(after),
    decreases before.len(),
{
    if before.len() == 0 {
        assert(before + after =~= after);
    } else {
        let tail = before.drop_first();
        assert(no_vendor(tail)) by {
            assert forall|i: int| 0 <= i < tail.len() implies !is_vendor(#[trigger] tail[i]) by {
                assert(tail[i] == before[i + 1]);
            }
        }
        assert(!is_vendor(before[0]));
        assert((before + after)[0] == before[0]);
        assert((before + after).drop_first() =~= tail + after);
        lemma_first_vendor_skips(tail, after);
    }
}

/// There is a first vendor payload exactly where some structure is vendor
/// data.
pub proof fn lemma_first_vendor_none(structs: Seq<AdStructure>)
    ensures
        first_vendor(structs) is None <==> no_vendor(structs),
    decreases structs.len(),
{
    if structs.len() > 0 {
        let tail = structs.drop_first();
        lemma_first_vendor_none(tail);
        if is_vendor(structs[0]) {
        } else if no_vendor(tail) {
            assert forall|i: int| 0 <= i < structs.len() implies !is_vendor(
                #[trigger] structs[i],
            ) by {
                if i > 0 {
                    assert(structs[i] == tail[i - 1]);
                }
            }
        } else {
            let j = choose|j: int| 0 <= j < tail.len() && is_vendor(#[trigger] tail[j]);
            assert(structs[j + 1] == tail[j]);
        }
    }
}

/// A buffer without a vendor structure does not decode: the outcome is
/// `NotFound`, and it is `NotFound` for no other buffer.
pub proof fn lemma_not_found(buf: Seq<u8>)
    ensures
        decode_spec(buf) == Err::<Seq<u8>, DecodeError>(DecodeError::NotFound) <==> no_vendor(
            ad_structures(buf),
        ),
{
    lemma_first_vendor_none(ad_structures(buf));
}

/// Where the structure at `index` is the first vendor structure of `buf`,
/// decoding depends on its payload alone: a payload shorter than a reading
/// gives `TooShort`, any other gives the bytes of the reading at its
/// start.
pub proof fn lemma_decode_first_vendor(buf: Seq<u8>, index: int)
    requires
        0 <= index < ad_structures(buf).len(),
        is_vendor(ad_structures(buf)[index]),
        forall|i: int| 0 <= i < index ==> !is_vendor(#[trigger] ad_structures(buf)[i]),
    ensures
        decode_spec(buf) == decode_payload(ad_structures(buf)[index].payload),
        ad_structures(buf)[index].payload.len() < READING_SIZE ==> decode_spec(buf) == Err::<
            Seq<u8>,
            DecodeError,
        >(DecodeError::TooShort),
{
    let structs = ad_structures(buf);
    let before = structs.take(index);
    let after = structs.skip(index);
    assert(structs =~= before + after);
    assert(no_vendor(before));
    lemma_first_vendor_skips(before, after);
    assert(after[0] == structs[index]);
}

/// A reading that is embedded in an advertisement decodes to itself.
///
/// The advertisement holds the frames of `before`, none of them vendor
/// data, then a manufacturer-specific structure whose payload is the
/// reading followed by `extra`, then any bytes `after`.
pub proof fn lemma_decode_embedded(
    before: Seq<AdStructure>,
    reading: HibouAir,
    extra: Seq<u8>,
    after: Seq<u8>,
)
    requires
        framable(before),
        no_vendor(before),
        reading.spec_mfid() == crate::reading::COMPANY_ID,
        READING_SIZE + extra.len() <= 254,
    ensures
        decode_spec(
            frames(before) + frame(
                AdStructure { kind: MANUFACTURER_DATA, payload: reading@ + extra },
            ) + after,
        ) == Ok::<Seq<u8>, DecodeError>(reading@),
{
    reading.lemma_view_len();
    let carrier = AdStructure { kind: MANUFACTURER_DATA, payload: reading@ + extra };
    let buf = frames(before) + frame(carrier) + after;
    assert(buf =~= frames(before) + (frame(carrier) + after));
    lemma_structures_of_frames(before, frame(carrier) + after);
    lemma_structures_after_frame(carrier, after);
    let found = seq![carrier] + ad_structures(after);
    assert(ad_structures(buf) == before + found);
    lemma_first_vendor_skips(before, found);
    assert(carrier.payload[0] == reading@[0] && carrier.payload[1] == reading@[1]);
    assert(is_vendor(carrier));
    assert(found[0] == carrier);
    assert(carrier.payload.subrange(0, READING_SIZE as int) =~= reading@);
}

} // verus!

//! The byte formats the application persists: little-endian integers, the
//! Pomodoro settings record, the alert-configuration record, and the
//! length-prefixed countdown entry list.
//!
//! Reading and writing the storage medium is the host's job; these
//! functions only translate between values and bytes, and decoding is
//! total: malformed input yields the documented defaults, never an error.

use vstd::prelude::*;

use vstd::bytes::*;
use vstd::slice::slice_subrange;
use vstd::utf8::decode_utf8;
use vstd::utf8::encode_utf8;
use vstd::utf8::valid_utf8;

use crate::alerts::AlertConfig;
use crate::countdown::CountdownEntry;
use crate::text::bytes_to_string_lossy;
use crate::text::lossy_of;

verus! {

/// Serialize a `u64` as its 8 little-endian bytes.
pub fn serialize_u64(val: u64) -> (r: [u8; 8])
    ensures
        r@ == spec_u64_to_le_bytes(val),
{
    let v = u64_to_le_bytes(val);
    let r: [u8; 8] = [v[0], v[1], v[2], v[3], v[4], v[5], v[6], v[7]];
    proof {
        assert(r@ =~= v@);
    }
    r
}

/// Read a `u64` from the first 8 little-endian bytes; zero when fewer than
/// 8 bytes are given.
pub fn deserialize_u64(bytes: &[u8]) -> (r: u64)
    ensures
        bytes@.len() >= 8 ==> r == spec_u64_from_le_bytes(bytes@.subrange(0, 8)),
        bytes@.len() < 8 ==> r == 0,
{
    if bytes.len() < 8 {
        return 0;
    }
    u64_from_le_bytes(slice_subrange(bytes, 0, 8))
}

/// The 25-byte Pomodoro settings record: three durations and the cycle
/// bound.
pub open spec fn spec_encode_pomodoro_settings(
    work_ms: u64,
    short_ms: u64,
    long_ms: u64,
    cycles: u8,
) -> Seq<u8> {
    spec_u64_to_le_bytes(work_ms) + spec_u64_to_le_bytes(short_ms) + spec_u64_to_le_bytes(long_ms)
        + seq![cycles]
}

/// Encode Pomodoro settings for persistence.
pub fn encode_pomodoro_settings(work_ms: u64, short_ms: u64, long_ms: u64, cycles: u8) -> (r: Vec<
    u8,
>)
    ensures
        r@ == spec_encode_pomodoro_settings(work_ms, short_ms, long_ms, cycles),
{
    let mut out = u64_to_le_bytes(work_ms);
    let mut b = u64_to_le_bytes(short_ms);
    out.append(&mut b);
    let mut c = u64_to_le_bytes(long_ms);
    out.append(&mut c);
    out.push(cycles);
    proof {
        assert(out@ =~= spec_encode_pomodoro_settings(work_ms, short_ms, long_ms, cycles));
    }
    out
}

/// Decode a persisted Pomodoro settings record: `(work, short, long,
/// cycles)` from the first 25 bytes, `None` when the record is shorter.
pub fn decode_pomodoro_settings(bytes: &[u8]) -> (r: Option<(u64, u64, u64, u8)>)
    ensures
        bytes@.len() < 25 ==> r is None,
        bytes@.len() >= 25 ==> r == Some(
            (
                spec_u64_from_le_bytes(bytes@.subrange(0, 8)),
                spec_u64_from_le_bytes(bytes@.subrange(8, 16)),
                spec_u64_from_le_bytes(bytes@.subrange(16, 24)),
                bytes@[24],
            ),
        ),
{
    if bytes.len() < 25 {
        return None;
    }
    let work = u64_from_le_bytes(slice_subrange(bytes, 0, 8));
    let short = u64_from_le_bytes(slice_subrange(bytes, 8, 16));
    let long = u64_from_le_bytes(slice_subrange(bytes, 16, 24));
    let cycles = bytes[24];
    Some((work, short, long, cycles))
}

/// The 3-byte alert-configuration record: one flag byte per channel.
pub open spec fn spec_encode_alert_config(config: AlertConfig) -> Seq<u8> {
    seq![
        if config.vibration { 1u8 } else { 0u8 },
        if config.audio { 1u8 } else { 0u8 },
        if config.notification { 1u8 } else { 0u8 },
    ]
}

/// Encode the alert configuration for persistence.
pub fn encode_alert_config(config: &AlertConfig) -> (r: Vec<u8>)
    ensures
        r@ == spec_encode_alert_config(*config),
{
    let mut out: Vec<u8> = Vec::new();
    out.push(if config.vibration { 1 } else { 0 });
    out.push(if config.audio { 1 } else { 0 });
    out.push(if config.notification { 1 } else { 0 });
    proof {
        assert(out@ =~= spec_encode_alert_config(*config));
    }
    out
}

/// Decode a persisted alert configuration from its first 3 bytes; anything
/// shorter falls back to the default configuration.
pub fn decode_alert_config(bytes: &[u8]) -> (r: AlertConfig)
    ensures
        bytes@.len() >= 3 ==> r == (AlertConfig {
            vibration: bytes@[0] != 0,
            audio: bytes@[1] != 0,
            notification: bytes@[2] != 0,
        }),
        bytes@.len() < 3 ==> r == (AlertConfig { vibration: true, audio: false, notification: true }),
{
    if bytes.len() < 3 {
        return AlertConfig::default();
    }
    AlertConfig { vibration: bytes[0] != 0, audio: bytes[1] != 0, notification: bytes[2] != 0 }
}

/// The name and duration each entry contributes to the byte format.
pub open spec fn entry_views(entries: Seq<CountdownEntry>) -> Seq<(Seq<char>, u64)> {
    entries.map_values(|e: CountdownEntry| (e.name@, e.duration_ms))
}

/// One encoded entry: a 2-byte little-endian length, the UTF-8 bytes of the
/// name, then the 8-byte little-endian duration. The stored length is the
/// byte length reduced modulo 2^16, as the 2-byte field forces.
pub open spec fn spec_encode_entry(p: (Seq<char>, u64)) -> Seq<u8> {
    let nb = encode_utf8(p.0);
    spec_u16_to_le_bytes(nb.len() as u16) + nb + spec_u64_to_le_bytes(p.1)
}

/// The encoded entries, in order.
pub open spec fn spec_encode_items(items: Seq<(Seq<char>, u64)>) -> Seq<u8>
    decreases items.len(),
{
    if items.len() == 0 {
        Seq::empty()
    } else {
        spec_encode_entry(items.first()) + spec_encode_items(items.drop_first())
    }
}

/// The whole list: a 4-byte little-endian count, then the entries. The
/// stored count is the length reduced modulo 2^32, as the 4-byte field
/// forces.
pub open spec fn spec_encode_countdowns(items: Seq<(Seq<char>, u64)>) -> Seq<u8> {
    spec_u32_to_le_bytes(items.len() as u32) + spec_encode_items(items)
}

/// Decoding consumes at most `count` entries starting at `offset` and stops
/// early, keeping what was already read, wherever the data is truncated.
/// Each decoded entry is the raw name bytes with the duration.
pub open spec fn spec_decode_items(data: Seq<u8>, offset: int, count: int) -> Seq<(Seq<u8>, u64)>
    decreases count,
{
    if count <= 0 {
        Seq::empty()
    } else if offset + 2 > data.len() {
        Seq::empty()
    } else {
        let nl = spec_u16_from_le_bytes(data.subrange(offset, offset + 2)) as int;
        if offset + 2 + nl + 8 > data.len() {
            Seq::empty()
        } else {
            seq![
                (
                    data.subrange(offset + 2, offset + 2 + nl),
                    spec_u64_from_le_bytes(data.subrange(offset + 2 + nl, offset + 2 + nl + 8)),
                ),
            ] + spec_decode_items(data, offset + 2 + nl + 8, count - 1)
        }
    }
}

/// The decoded list: nothing when even the count is truncated, otherwise as
/// many entries as the count announces and the data carries.
pub open spec fn spec_decode_countdowns(data: Seq<u8>) -> Seq<(Seq<u8>, u64)> {
    if data.len() < 4 {
        Seq::empty()
    } else {
        spec_decode_items(data, 4, spec_u32_from_le_bytes(data.subrange(0, 4)) as int)
    }
}

/// Appending one entry to the list appends its encoding to the bytes.
proof fn lemma_encode_items_snoc(items: Seq<(Seq<char>, u64)>, p: (Seq<char>, u64))
    ensures
        spec_encode_items(items.push(p)) == spec_encode_items(items) + spec_encode_entry(p),
    decreases items.len(),
{
    if items.len() == 0 {
        assert(items.push(p).drop_first() =~= Seq::<(Seq<char>, u64)>::empty());
        assert(spec_encode_items(items) + spec_encode_entry(p) =~= spec_encode_entry(p));
        assert(spec_encode_entry(p) + spec_encode_items(Seq::empty()) =~= spec_encode_entry(p));
    } else {
        assert(items.push(p).drop_first() =~= items.drop_first().push(p));
        lemma_encode_items_snoc(items.drop_first(), p);
        assert(spec_encode_entry(items.first()) + (spec_encode_items(items.drop_first())
            + spec_encode_entry(p)) =~= (spec_encode_entry(items.first()) + spec_encode_items(
            items.drop_first(),
        )) + spec_encode_entry(p));
    }
}

/// Serialize the countdown entry list for persistence.
pub fn serialize_countdowns(entries: &[CountdownEntry]) -> (r: Vec<u8>)
    ensures
        r@ == spec_encode_countdowns(entry_views(entries@)),
{
    let count: u32 = #[verifier::truncate] (entries.len() as u32);
    let mut out = u32_to_le_bytes(count);
    let ghost header = out@;
    let mut i: usize = 0;
    while i < entries.len()
        invariant
            i <= entries@.len(),
            header == spec_u32_to_le_bytes(entries@.len() as u32),
            out@ == header + spec_encode_items(entry_views(entries@).take(i as int)),
        decreases entries@.len() - i,
    {
        let e = &entries[i];
        let name_bytes: &[u8] = e.name.as_str().as_bytes();
        let nl: u16 = #[verifier::truncate] (name_bytes.len() as u16);
        let mut lb = u16_to_le_bytes(nl);
        out.append(&mut lb);
        out.extend_from_slice(name_bytes);
        let mut db = u64_to_le_bytes(e.duration_ms);
        out.append(&mut db);
        proof {
            let views = entry_views(entries@);
            assert(views[i as int] == (entries@[i as int].name@, entries@[i as int].duration_ms));
            assert(spec_encode_entry(views[i as int]) == spec_u16_to_le_bytes(nl) + name_bytes@
                + spec_u64_to_le_bytes(e.duration_ms));
            lemma_encode_items_snoc(views.take(i as int), views[i as int]);
            assert(views.take(i as int + 1) =~= views.take(i as int).push(views[i as int]));
            assert(out@ =~= header + spec_encode_items(views.take(i as int + 1)));
        }
        i += 1;
    }
    proof {
        assert(entry_views(entries@).take(entries@.len() as int) =~= entry_views(entries@));
    }
    out
}

/// Decoding recovers, entry for entry, the raw name bytes and the duration
/// of everything just encoded, starting right after the count field.
proof fn lemma_decode_encoded_items(items: Seq<(Seq<char>, u64)>, data: Seq<u8>, offset: int)
    requires
        forall|i: int| 0 <= i < items.len() ==> encode_utf8(#[trigger] items[i].0).len() < 0x10000,
        0 <= offset <= data.len(),
        data.subrange(offset, data.len() as int) == spec_encode_items(items),
    ensures
        spec_decode_items(data, offset, items.len() as int) == items.map_values(
            |p: (Seq<char>, u64)| (encode_utf8(p.0), p.1),
        ),
    decreases items.len(),
{
    lemma_auto_spec_u16_to_from_le_bytes();
    lemma_auto_spec_u64_to_from_le_bytes();
    let f = |p: (Seq<char>, u64)| (encode_utf8(p.0), p.1);
    if items.len() == 0 {
        assert(items.map_values(f) =~= Seq::<(Seq<u8>, u64)>::empty());
    } else {
        let p = items.first();
        let nb = encode_utf8(p.0);
        let nl = nb.len() as int;
        let e0 = spec_encode_entry(p);
        let rest = spec_encode_items(items.drop_first());
        assert(items[0].0 == p.0);
        assert(nl < 0x10000);
        assert(e0 == spec_u16_to_le_bytes(nb.len() as u16) + nb + spec_u64_to_le_bytes(p.1));
        assert(e0.len() == 2 + nl + 8);
        let suffix = data.subrange(offset, data.len() as int);
        assert(suffix == e0 + rest);
        assert(forall|j: int| 0 <= j < suffix.len() ==> data[offset + j] == #[trigger] suffix[j]);
        assert(data.len() - offset == e0.len() + rest.len());
        assert(data.subrange(offset, offset + 2) =~= spec_u16_to_le_bytes(nb.len() as u16));
        assert(spec_u16_from_le_bytes(data.subrange(offset, offset + 2)) as int == nl);
        assert forall|i: int| 0 <= i < nl implies data.subrange(offset + 2, offset + 2 + nl)[i]
            == nb[i] by {
            assert(suffix[2 + i] == data[offset + (2 + i)]);
            assert(suffix[2 + i] == e0[2 + i]);
            assert(e0[2 + i] == nb[i]);
        }
        assert(data.subrange(offset + 2, offset + 2 + nl) =~= nb);
        assert forall|i: int|
            0 <= i < 8 implies data.subrange(offset + 2 + nl, offset + 2 + nl + 8)[i]
            == spec_u64_to_le_bytes(p.1)[i] by {
            assert(suffix[2 + nl + i] == data[offset + (2 + nl + i)]);
            assert(suffix[2 + nl + i] == e0[2 + nl + i]);
            assert(e0[2 + nl + i] == spec_u64_to_le_bytes(p.1)[i]);
        }
        assert(data.subrange(offset + 2 + nl, offset + 2 + nl + 8) =~= spec_u64_to_le_bytes(p.1));
        assert(spec_u64_from_le_bytes(data.subrange(offset + 2 + nl, offset + 2 + nl + 8)) == p.1);
        assert forall|i: int|
            0 <= i < rest.len() implies data.subrange(offset + 2 + nl + 8, data.len() as int)[i]
            == rest[i] by {
            assert(suffix[2 + nl + 8 + i] == data[offset + (2 + nl + 8 + i)]);
            assert(suffix[2 + nl + 8 + i] == rest[i]);
        }
        assert(data.subrange(offset + 2 + nl + 8, data.len() as int) =~= rest);
        assert(forall|i: int|
            0 <= i < items.drop_first().len() ==> encode_utf8(
                #[trigger] items.drop_first()[i].0,
            ).len() < 0x10000);
        lemma_decode_encoded_items(items.drop_first(), data, offset + 2 + nl + 8);
        assert(spec_decode_items(data, offset, items.len() as int) == seq![(nb, p.1)]
            + items.drop_first().map_values(f));
        assert(items.map_values(f) =~= seq![(nb, p.1)] + items.drop_first().map_values(f));
    }
}

/// Round trip: decoding an encoded countdown list yields the same ordered
/// entries — each decoded name is the UTF-8 image of the original name
/// (which decodes back to it, non-ASCII text included) and each duration is
/// unchanged. The two length fields force the bounds: fewer than 2^32
/// entries, and names of fewer than 2^16 encoded bytes.
pub proof fn lemma_countdowns_round_trip(items: Seq<(Seq<char>, u64)>)
    requires
        items.len() < 0x1_0000_0000,
        forall|i: int| 0 <= i < items.len() ==> encode_utf8(#[trigger] items[i].0).len() < 0x10000,
    ensures
        spec_decode_countdowns(spec_encode_countdowns(items)) == items.map_values(
            |p: (Seq<char>, u64)| (encode_utf8(p.0), p.1),
        ),
        forall|i: int|
            0 <= i < items.len() ==> valid_utf8(encode_utf8(#[trigger] items[i].0)) && decode_utf8(
                encode_utf8(items[i].0),
            ) == items[i].0,
{
    broadcast use vstd::utf8::encode_utf8_valid_utf8, vstd::utf8::encode_utf8_decode_utf8;

    lemma_auto_spec_u32_to_from_le_bytes();
    let data = spec_encode_countdowns(items);
    let header = spec_u32_to_le_bytes(items.len() as u32);
    assert(header.len() == 4);
    assert(data.subrange(0, 4) =~= header);
    assert(spec_u32_from_le_bytes(data.subrange(0, 4)) as int == items.len() as int);
    assert(data.subrange(4, data.len() as int) =~= spec_encode_items(items));
    lemma_decode_encoded_items(items, data, 4);
}

/// Rebuild the countdown entry list from persisted bytes. Truncated or
/// corrupt data never fails: decoding keeps the entries read so far, and a
/// name that is not valid UTF-8 is replaced lossily.
pub fn deserialize_countdowns(data: &[u8]) -> (r: Vec<CountdownEntry>)
    ensures
        r@.len() == spec_decode_countdowns(data@).len(),
        forall|i: int|
            0 <= i < r@.len() ==> {
                let raw = spec_decode_countdowns(data@);
                &&& (#[trigger] r@[i]).duration_ms == raw[i].1
                &&& r@[i].name@ == lossy_of(raw[i].0)
                &&& (valid_utf8(raw[i].0) ==> r@[i].name@ == decode_utf8(raw[i].0))
            },
{
    let mut entries: Vec<CountdownEntry> = Vec::new();
    if data.len() < 4 {
        return entries;
    }
    let count = u32_from_le_bytes(slice_subrange(data, 0, 4)) as usize;
    let mut offset: usize = 4;
    let mut k: usize = 0;
    let mut done = false;
    let ghost mut processed: Seq<(Seq<u8>, u64)> = Seq::empty();
    while k < count && !done
        invariant
            4 <= offset <= data@.len(),
            k <= count,
            count == spec_u32_from_le_bytes(data@.subrange(0, 4)),
            spec_decode_countdowns(data@) == processed + spec_decode_items(
                data@,
                offset as int,
                count - k,
            ),
            done ==> spec_decode_items(data@, offset as int, count - k) == Seq::<(Seq<u8>, u64)>::empty(),
            entries@.len() == processed.len(),
            forall|i: int|
                0 <= i < processed.len() ==> {
                    &&& (#[trigger] entries@[i]).duration_ms == processed[i].1
                    &&& entries@[i].name@ == lossy_of(processed[i].0)
                    &&& (valid_utf8(processed[i].0) ==> entries@[i].name@ == decode_utf8(
                        processed[i].0,
                    ))
                },
        decreases count - k, (if done { 0int } else { 1int }),
    {
        if data.len() - offset < 2 {
            done = true;
        } else {
            let nl = u16_from_le_bytes(slice_subrange(data, offset, offset + 2)) as usize;
            if data.len() - (offset + 2) < nl {
                done = true;
                proof {
                    assert(offset + 2 + nl + 8 > data@.len());
                }
            } else if data.len() - (offset + 2 + nl) < 8 {
                done = true;
            } else {
                let name_slice = slice_subrange(data, offset + 2, offset + 2 + nl);
                let name = bytes_to_string_lossy(name_slice);
                let dur = u64_from_le_bytes(
                    slice_subrange(data, offset + 2 + nl, offset + 2 + nl + 8),
                );
                entries.push(CountdownEntry { name, duration_ms: dur });
                proof {
                    let pair = (
                        data@.subrange(offset + 2, offset + 2 + nl as int),
                        spec_u64_from_le_bytes(
                            data@.subrange(offset + 2 + nl as int, offset + 2 + nl + 8),
                        ),
                    );
                    assert(spec_decode_items(data@, offset as int, count - k) == seq![pair]
                        + spec_decode_items(data@, offset + 2 + nl + 8, count - k - 1));
                    processed = processed + seq![pair];
                    assert(processed + spec_decode_items(data@, offset + 2 + nl + 8, count - k - 1)
                        =~= (processed.drop_last() + seq![pair]) + spec_decode_items(
                        data@,
                        offset + 2 + nl + 8,
                        count - k - 1,
                    ));
                }
                offset = offset + 2 + nl + 8;
                k = k + 1;
            }
        }
    }
    proof {
        assert(spec_decode_items(data@, offset as int, count - k) == Seq::<(Seq<u8>, u64)>::empty());
        assert(spec_decode_countdowns(data@) =~= processed);
    }
    entries
}

} // verus!

//! MoTeC `.ld` file layout: a 1762-byte header, a 1154-byte event block, one 124-byte
//! channel record per channel and then each channel's samples as little-endian 32-bit
//! words (the bits of IEEE-754 `f32` values).

use vstd::prelude::*;
use crate::bytes::{
    fixed_text, lemma_fixed_text_len, lemma_read_le32, le16, le32, push_fixed_str, push_le16, push_le32, push_zeros, read_le16, read_le32, zeros,
};
use crate::calendar::{ld_date, ld_date_text, ld_time, ld_time_text, max_day_count};
use crate::text::{chars_of, string_from_chars};

verus! {

/// Byte offset of the event block (the size of the header).
pub const LD_EVENT_PTR: u32 = 1762;

/// Size of the event block.
pub const LD_EVENT_SIZE: u32 = 1154;

/// Byte offset of the first channel record.
pub const LD_META_PTR: u32 = 2916;

/// Size of one channel record.
pub const LD_CHAN_SIZE: u32 = 124;

/// Largest number of channels a file can hold: the channel counter `0x2ee1 + index`
/// must stay within 16 bits.
pub const LD_MAX_CHANNELS: usize = 53535;

/// One channel to be written: its name, its unit and its samples as the bit patterns of
/// the `f32` values.
pub struct LdChannel {
    pub name: String,
    pub unit: String,
    pub samples: Vec<u32>,
}

/// What a channel holds: its name, its unit and its sample words.
pub struct LdChannelView {
    pub name: Seq<char>,
    pub unit: Seq<char>,
    pub samples: Seq<u32>,
}

impl View for LdChannel {
    type V = LdChannelView;

    open spec fn view(&self) -> LdChannelView {
        LdChannelView { name: self.name@, unit: self.unit@, samples: self.samples@ }
    }
}

/// The views of a list of channels.
pub open spec fn ld_views(chs: Seq<LdChannel>) -> Seq<LdChannelView> {
    chs.map_values(|c: LdChannel| c@)
}

/// Number of samples in the channels before position `i`.
pub open spec fn samples_before(chs: Seq<LdChannelView>, i: int) -> int
    decreases i,
{
    if i <= 0 {
        0
    } else {
        samples_before(chs, i - 1) + chs[i - 1].samples.len()
    }
}

/// Byte offset where the samples start.
pub open spec fn ld_data_ptr(n: int) -> int {
    LD_META_PTR + LD_CHAN_SIZE * n
}

/// Byte offset of the samples of channel `i`.
pub open spec fn ld_channel_data_ptr(chs: Seq<LdChannelView>, i: int) -> int {
    ld_data_ptr(chs.len() as int) + 4 * samples_before(chs, i)
}

/// Byte offset of the record of channel `i`.
pub open spec fn ld_meta_ptr(i: int) -> int {
    LD_META_PTR + LD_CHAN_SIZE * i
}

/// Whether the channels fit the file format: few enough channels for the 16-bit
/// counter, and every offset within 32 bits.
pub open spec fn ld_fits(chs: Seq<LdChannelView>) -> bool {
    &&& chs.len() <= LD_MAX_CHANNELS
    &&& ld_channel_data_ptr(chs, chs.len() as int) <= u32::MAX
}

/// The recording frequency field: the sample rate capped at `u16::MAX`.
pub open spec fn ld_rec_freq(sample_rate_hz: int) -> int {
    if sample_rate_hz < 65535 {
        sample_rate_hz
    } else {
        65535
    }
}

/// The comment of the header.
pub open spec fn ld_head_comment(profile_id: Seq<char>) -> Seq<char> {
    "acr_recorder export profile="@ + profile_id
}

/// The comment of the event block.
pub open spec fn ld_event_comment(description: Seq<char>) -> Seq<char> {
    if description.len() == 0 {
        "acr_recorder export"@
    } else {
        "acr_recorder: "@ + description
    }
}

/// The pointers and counts at the start of the header.
#[verifier::opaque]
pub open spec fn ld_head_fields(
    meta_ptr: int,
    data_ptr: int,
    event_ptr: int,
    n_chans: int,
) -> Seq<u8> {
    le32(0x40) + zeros(4) + le32(meta_ptr) + le32(data_ptr) + zeros(20) + le32(event_ptr) + zeros(
        24,
    ) + le16(1) + le16(0x4240) + le16(0xf) + le32(0x1f44) + fixed_text("ADL"@, 8) + le16(420)
        + le16(0xadb0) + le32(n_chans) + zeros(4)
}

/// The date, time and session texts of the header.
#[verifier::opaque]
pub open spec fn ld_head_texts(secs: nat) -> Seq<u8> {
    fixed_text(ld_date_text(secs), 16) + zeros(16) + fixed_text(ld_time_text(secs), 16) + zeros(16)
        + fixed_text("ACR"@, 64) + fixed_text("AC Rally"@, 64) + zeros(64) + fixed_text(
        "Telemetry"@,
        64,
    ) + zeros(64)
}

/// The tail of the header, holding the export comment.
#[verifier::opaque]
pub open spec fn ld_head_tail(profile_id: Seq<char>) -> Seq<u8> {
    zeros(1024) + le32(0xc81a4) + zeros(66) + fixed_text(ld_head_comment(profile_id), 64) + zeros(
        126,
    )
}

/// The header block.
pub open spec fn ld_head(
    meta_ptr: int,
    data_ptr: int,
    event_ptr: int,
    n_chans: int,
    profile_id: Seq<char>,
    secs: nat,
) -> Seq<u8> {
    ld_head_fields(meta_ptr, data_ptr, event_ptr, n_chans) + ld_head_texts(secs) + ld_head_tail(
        profile_id,
    )
}

/// The event block.
pub open spec fn ld_event(description: Seq<char>) -> Seq<u8> {
    fixed_text("ACR Session"@, 64) + fixed_text("0"@, 64) + fixed_text(
        ld_event_comment(description),
        1024,
    ) + le16(0)
}

/// The first (at most) eight characters of a channel name.
pub open spec fn short_name(name: Seq<char>) -> Seq<char> {
    if name.len() <= 8 {
        name
    } else {
        name.take(8)
    }
}

/// The links, data pointer and sample count of a channel record.
pub open spec fn ld_chan_links(prev: int, next: int, data_ptr: int, n_data: int) -> Seq<u8> {
    le32(prev) + le32(next) + le32(data_ptr) + le32(n_data)
}

/// The counter and data-format words of a channel record.
pub open spec fn ld_chan_format(idx: int, rec_freq: int) -> Seq<u8> {
    le16(0x2ee1 + idx) + le16(7) + le16(4) + le16(rec_freq) + le16(0) + le16(1) + le16(1) + le16(0)
}

/// The name, short name and unit texts of a channel record.
pub open spec fn ld_chan_texts(name: Seq<char>, unit: Seq<char>) -> Seq<u8> {
    fixed_text(name, 32) + fixed_text(short_name(name), 8) + fixed_text(unit, 12) + zeros(40)
}

/// The record of one channel.
pub open spec fn ld_chan(
    prev: int,
    next: int,
    data_ptr: int,
    n_data: int,
    name: Seq<char>,
    unit: Seq<char>,
    idx: int,
    rec_freq: int,
) -> Seq<u8> {
    ld_chan_links(prev, next, data_ptr, n_data) + ld_chan_format(idx, rec_freq) + ld_chan_texts(
        name,
        unit,
    )
}

/// The record of channel `i`, linked to its neighbours.
pub open spec fn ld_chan_of(chs: Seq<LdChannelView>, i: int, rec_freq: int) -> Seq<u8> {
    let prev = if i == 0 {
        0
    } else {
        ld_meta_ptr(i - 1)
    };
    let next = if i + 1 < chs.len() {
        ld_meta_ptr(i + 1)
    } else {
        0
    };
    ld_chan(
        prev,
        next,
        ld_channel_data_ptr(chs, i),
        chs[i].samples.len() as int,
        chs[i].name,
        chs[i].unit,
        i,
        rec_freq,
    )
}

/// The records of the first `n` channels.
pub open spec fn ld_chans(chs: Seq<LdChannelView>, n: int, rec_freq: int) -> Seq<u8>
    decreases n,
{
    if n <= 0 {
        Seq::empty()
    } else {
        ld_chans(chs, n - 1, rec_freq) + ld_chan_of(chs, n - 1, rec_freq)
    }
}

/// The little-endian words of the first `k` samples.
pub open spec fn sample_words(ws: Seq<u32>, k: int) -> Seq<u8>
    decreases k,
{
    if k <= 0 {
        Seq::empty()
    } else {
        sample_words(ws, k - 1) + le32(ws[k - 1] as int)
    }
}

/// The samples of the first `n` channels, one channel after the other.
pub open spec fn ld_samples(chs: Seq<LdChannelView>, n: int) -> Seq<u8>
    decreases n,
{
    if n <= 0 {
        Seq::empty()
    } else {
        ld_samples(chs, n - 1) + sample_words(chs[n - 1].samples, chs[n - 1].samples.len() as int)
    }
}

/// The whole `.ld` file for the channels.
pub open spec fn ld_file(
    chs: Seq<LdChannelView>,
    sample_rate_hz: int,
    profile_id: Seq<char>,
    description: Seq<char>,
    secs: nat,
) -> Seq<u8> {
    let n = chs.len() as int;
    ld_head(LD_META_PTR as int, ld_data_ptr(n), LD_EVENT_PTR as int, n, profile_id, secs)
        + ld_event(description) + ld_chans(chs, n, ld_rec_freq(sample_rate_hz)) + ld_samples(chs, n)
}

proof fn lemma_samples_before_mono(chs: Seq<LdChannelView>, i: int, j: int)
    requires
        0 <= i <= j <= chs.len(),
    ensures
        0 <= samples_before(chs, i) <= samples_before(chs, j),
    decreases j - i,
{
    lemma_samples_before_nonneg(chs, i);
    if i < j {
        lemma_samples_before_mono(chs, i, j - 1);
    }
}

proof fn lemma_samples_before_nonneg(chs: Seq<LdChannelView>, i: int)
    requires
        0 <= i <= chs.len(),
    ensures
        samples_before(chs, i) >= 0,
    decreases i,
{
    if i > 0 {
        lemma_samples_before_nonneg(chs, i - 1);
    }
}

fn push_ld_head_fields(out: &mut Vec<u8>, meta_ptr: u32, data_ptr: u32, event_ptr: u32, n_chans: u32)
    ensures
        final(out)@ == old(out)@ + ld_head_fields(
            meta_ptr as int,
            data_ptr as int,
            event_ptr as int,
            n_chans as int,
        ),
{
    reveal(ld_head_fields);
    let ghost start = out@;
    push_le32(out, 0x40);
    push_zeros(out, 4);
    push_le32(out, meta_ptr);
    push_le32(out, data_ptr);
    push_zeros(out, 20);
    push_le32(out, event_ptr);
    push_zeros(out, 24);
    push_le16(out, 1);
    push_le16(out, 0x4240);
    push_le16(out, 0xf);
    push_le32(out, 0x1f44);
    push_fixed_str(out, "ADL", 8);
    push_le16(out, 420);
    push_le16(out, 0xadb0);
    push_le32(out, n_chans);
    push_zeros(out, 4);
    assert(out@ =~= start + ld_head_fields(
        meta_ptr as int,
        data_ptr as int,
        event_ptr as int,
        n_chans as int,
    ));
}

fn push_ld_head_texts(out: &mut Vec<u8>, now_secs: u64)
    requires
        now_secs / 86400 <= max_day_count(),
    ensures
        final(out)@ == old(out)@ + ld_head_texts(now_secs as nat),
{
    reveal(ld_head_texts);
    let ghost start = out@;
    let date = ld_date(now_secs);
    let time = ld_time(now_secs);
    push_fixed_str(out, date.as_str(), 16);
    push_zeros(out, 16);
    push_fixed_str(out, time.as_str(), 16);
    push_zeros(out, 16);
    push_fixed_str(out, "ACR", 64);
    push_fixed_str(out, "AC Rally", 64);
    push_zeros(out, 64);
    push_fixed_str(out, "Telemetry", 64);
    push_zeros(out, 64);
    assert(out@ =~= start + ld_head_texts(now_secs as nat));
}

fn push_ld_head_tail(out: &mut Vec<u8>, profile_id: &str)
    ensures
        final(out)@ == old(out)@ + ld_head_tail(profile_id@),
{
    reveal(ld_head_tail);
    let ghost start = out@;
    let mut comment = String::from_str("acr_recorder export profile=");
    comment.append(profile_id);
    push_zeros(out, 1024);
    push_le32(out, 0xc81a4);
    push_zeros(out, 66);
    push_fixed_str(out, comment.as_str(), 64);
    push_zeros(out, 126);
    assert(out@ =~= start + ld_head_tail(profile_id@));
}

fn push_ld_head(
    out: &mut Vec<u8>,
    meta_ptr: u32,
    data_ptr: u32,
    event_ptr: u32,
    n_chans: u32,
    profile_id: &str,
    now_secs: u64,
)
    requires
        now_secs / 86400 <= max_day_count(),
    ensures
        final(out)@ == old(out)@ + ld_head(
            meta_ptr as int,
            data_ptr as int,
            event_ptr as int,
            n_chans as int,
            profile_id@,
            now_secs as nat,
        ),
{
    let ghost start = out@;
    push_ld_head_fields(out, meta_ptr, data_ptr, event_ptr, n_chans);
    push_ld_head_texts(out, now_secs);
    push_ld_head_tail(out, profile_id);
    assert(out@ =~= start + ld_head(
        meta_ptr as int,
        data_ptr as int,
        event_ptr as int,
        n_chans as int,
        profile_id@,
        now_secs as nat,
    ));
}

fn push_ld_event(out: &mut Vec<u8>, description: &str)
    ensures
        final(out)@ == old(out)@ + ld_event(description@),
{
    let ghost start = out@;
    let comment = if description.is_empty() {
        String::from_str("acr_recorder export")
    } else {
        let mut c = String::from_str("acr_recorder: ");
        c.append(description);
        c
    };
    push_fixed_str(out, "ACR Session", 64);
    push_fixed_str(out, "0", 64);
    push_fixed_str(out, comment.as_str(), 1024);
    push_le16(out, 0);
    assert(out@ =~= start + ld_event(description@));
}

fn push_ld_chan_format(out: &mut Vec<u8>, idx: usize, rec_freq: u16)
    requires
        idx < LD_MAX_CHANNELS,
    ensures
        final(out)@ == old(out)@ + ld_chan_format(idx as int, rec_freq as int),
{
    let ghost start = out@;
    let counter: u16 = 0x2ee1u16 + idx as u16;
    push_le16(out, counter);
    push_le16(out, 0x07);
    push_le16(out, 4);
    push_le16(out, rec_freq);
    push_le16(out, 0);
    push_le16(out, 1);
    push_le16(out, 1);
    push_le16(out, 0);
    assert(out@ =~= start + ld_chan_format(idx as int, rec_freq as int));
}

fn push_ld_chan_texts(out: &mut Vec<u8>, name: &str, unit: &str)
    ensures
        final(out)@ == old(out)@ + ld_chan_texts(name@, unit@),
{
    let ghost start = out@;
    push_fixed_str(out, name, 32);
    let cs = chars_of(name);
    let k: usize = if cs.len() < 8 {
        cs.len()
    } else {
        8
    };
    let short = string_from_chars(&cs, 0, k);
    assert(short@ =~= short_name(name@));
    push_fixed_str(out, short.as_str(), 8);
    push_fixed_str(out, unit, 12);
    push_zeros(out, 40);
    assert(out@ =~= start + ld_chan_texts(name@, unit@));
}

fn push_ld_chan(
    out: &mut Vec<u8>,
    prev: u32,
    next: u32,
    data_ptr: u32,
    n_data: u32,
    name: &str,
    unit: &str,
    idx: usize,
    rec_freq: u16,
)
    requires
        idx < LD_MAX_CHANNELS,
    ensures
        final(out)@ == old(out)@ + ld_chan(
            prev as int,
            next as int,
            data_ptr as int,
            n_data as int,
            name@,
            unit@,
            idx as int,
            rec_freq as int,
        ),
{
    let ghost start = out@;
    push_le32(out, prev);
    push_le32(out, next);
    push_le32(out, data_ptr);
    push_le32(out, n_data);
    let ghost mid = out@;
    assert(mid =~= start + ld_chan_links(prev as int, next as int, data_ptr as int, n_data as int));
    push_ld_chan_format(out, idx, rec_freq);
    push_ld_chan_texts(out, name, unit);
    assert(out@ =~= start + ld_chan(
        prev as int,
        next as int,
        data_ptr as int,
        n_data as int,
        name@,
        unit@,
        idx as int,
        rec_freq as int,
    ));
}

/// Whether the channels fit the file format (see [`ld_fits`]).
pub fn ld_channels_fit(channels: &Vec<LdChannel>) -> (r: bool)
    ensures
        r == ld_fits(ld_views(channels@)),
{
    let n = channels.len();
    if n > LD_MAX_CHANNELS {
        return false;
    }
    let mut total: u64 = LD_META_PTR as u64 + (n as u64) * (LD_CHAN_SIZE as u64);
    let mut i: usize = 0;
    while i < n
        invariant
            n == channels@.len(),
            n <= LD_MAX_CHANNELS,
            i <= n,
            total == ld_data_ptr(n as int) + 4 * samples_before(ld_views(channels@), i as int),
            total <= u32::MAX,
        decreases n - i,
    {
        assert(channels[i as int]@ == ld_views(channels@)[i as int]);
        let len = channels[i].samples.len();
        if len as u64 > (u32::MAX as u64 - total) / 4 {
            proof {
                lemma_samples_before_mono(ld_views(channels@), i as int + 1, n as int);
            }
            return false;
        }
        total = total + 4 * (len as u64);
        i = i + 1;
    }
    true
}

/// The bytes of a MoTeC `.ld` file holding `channels`, stamped with the date and time texts
/// of `now_secs` seconds (see `ld_date_text` and `ld_time_text`) and the profile's id and
/// description.
pub fn encode_ld(
    channels: &Vec<LdChannel>,
    sample_rate_hz: u32,
    profile_id: &str,
    description: &str,
    now_secs: u64,
) -> (r: Vec<u8>)
    requires
        ld_fits(ld_views(channels@)),
    ensures
        r@ == ld_file(ld_views(channels@), sample_rate_hz as int, profile_id@, description@, now_secs as nat),
{
    let n = channels.len();
    let rec_freq: u16 = if sample_rate_hz < 65535 {
        sample_rate_hz as u16
    } else {
        65535
    };
    proof {
        lemma_samples_before_nonneg(ld_views(channels@), n as int);
    }
    let data_ptr: u32 = LD_META_PTR + (n as u32) * LD_CHAN_SIZE;
    let mut out: Vec<u8> = Vec::new();
    push_ld_head(&mut out, LD_META_PTR, data_ptr, LD_EVENT_PTR, n as u32, profile_id, now_secs);
    push_ld_event(&mut out, description);
    let ghost prefix = out@;
    // channel records, each pointing at where its samples will be
    let mut offset: u32 = data_ptr;
    let mut i: usize = 0;
    while i < n
        invariant
            n == ld_views(channels@).len(),
            n == channels@.len(),
            ld_fits(ld_views(channels@)),
            data_ptr == ld_data_ptr(n as int),
            i <= n,
            offset == ld_channel_data_ptr(ld_views(channels@), i as int),
            rec_freq as int == ld_rec_freq(sample_rate_hz as int),
            out@ == prefix + ld_chans(ld_views(channels@), i as int, rec_freq as int),
        decreases n - i,
    {
        let ch = &channels[i];
        assert(ch@ == ld_views(channels@)[i as int]);
        let prev: u32 = if i == 0 {
            0
        } else {
            LD_META_PTR + ((i - 1) as u32) * LD_CHAN_SIZE
        };
        let next: u32 = if i + 1 < n {
            LD_META_PTR + ((i + 1) as u32) * LD_CHAN_SIZE
        } else {
            0
        };
        proof {
            lemma_samples_before_mono(ld_views(channels@), i as int + 1, n as int);
        }
        push_ld_chan(
            &mut out,
            prev,
            next,
            offset,
            ch.samples.len() as u32,
            ch.name.as_str(),
            ch.unit.as_str(),
            i,
            rec_freq,
        );
        offset = offset + (ch.samples.len() as u32) * 4;
        i = i + 1;
    }
    let ghost prefix2 = out@;
    // samples, channel after channel
    let mut c: usize = 0;
    while c < n
        invariant
            n == ld_views(channels@).len(),
            n == channels@.len(),
            c <= n,
            out@ == prefix2 + ld_samples(ld_views(channels@), c as int),
        decreases n - c,
    {
        let ch = &channels[c];
        assert(ch@ == ld_views(channels@)[c as int]);
        let ghost before = out@;
        let mut k: usize = 0;
        while k < ch.samples.len()
            invariant
                k <= ch.samples@.len(),
                ch@ == ld_views(channels@)[c as int],
                out@ == before + sample_words(ch.samples@, k as int),
            decreases ch.samples@.len() - k,
        {
            push_le32(&mut out, ch.samples[k]);
            k = k + 1;
        }
        c = c + 1;
    }
    out
}

// ---------------------------------------------------------------- reading a file back

proof fn lemma_sub_right(a: Seq<u8>, b: Seq<u8>, x: int, y: int)
    requires
        0 <= x <= y <= b.len(),
    ensures
        (a + b).subrange(a.len() + x, a.len() + y) == b.subrange(x, y),
{
    assert((a + b).subrange(a.len() + x, a.len() + y) =~= b.subrange(x, y));
}

proof fn lemma_sub_left(a: Seq<u8>, b: Seq<u8>, x: int, y: int)
    requires
        0 <= x <= y <= a.len(),
    ensures
        (a + b).subrange(x, y) == a.subrange(x, y),
{
    assert((a + b).subrange(x, y) =~= a.subrange(x, y));
}

proof fn lemma_ld_head_fields_shape(meta_ptr: int, data_ptr: int, event_ptr: int, n_chans: int)
    ensures
        ({
            let f = ld_head_fields(meta_ptr, data_ptr, event_ptr, n_chans);
            &&& f.len() == 94
            &&& f.subrange(8, 12) == le32(meta_ptr)
            &&& f.subrange(12, 16) == le32(data_ptr)
            &&& f.subrange(36, 40) == le32(event_ptr)
            &&& f.subrange(86, 90) == le32(n_chans)
        }),
{
    reveal(ld_head_fields);
    lemma_fixed_text_len("ADL"@, 8);
    let s1 = le32(0x40) + zeros(4);
    let s2 = s1 + le32(meta_ptr);
    let s3 = s2 + le32(data_ptr);
    let s4 = s3 + zeros(20);
    let s5 = s4 + le32(event_ptr);
    let s6 = s5 + zeros(24) + le16(1) + le16(0x4240) + le16(0xf) + le32(0x1f44) + fixed_text(
        "ADL"@,
        8,
    ) + le16(420) + le16(0xadb0);
    let s7 = s6 + le32(n_chans);
    let s8 = s7 + zeros(4);
    assert(s1.len() == 8);
    lemma_sub_right(s1, le32(meta_ptr), 0, 4);
    assert(le32(meta_ptr).subrange(0, 4) =~= le32(meta_ptr));
    lemma_sub_left(s2, le32(data_ptr), 8, 12);
    lemma_sub_right(s2, le32(data_ptr), 0, 4);
    assert(le32(data_ptr).subrange(0, 4) =~= le32(data_ptr));
    lemma_sub_left(s3, zeros(20), 8, 12);
    lemma_sub_left(s3, zeros(20), 12, 16);
    assert(s4.len() == 36);
    lemma_sub_left(s4, le32(event_ptr), 8, 12);
    lemma_sub_left(s4, le32(event_ptr), 12, 16);
    lemma_sub_right(s4, le32(event_ptr), 0, 4);
    assert(le32(event_ptr).subrange(0, 4) =~= le32(event_ptr));
    assert(s6.len() == 86);
    assert(s6.subrange(8, 12) == le32(meta_ptr)) by {
        assert(s6.subrange(8, 12) =~= s5.subrange(8, 12));
    }
    assert(s6.subrange(12, 16) == le32(data_ptr)) by {
        assert(s6.subrange(12, 16) =~= s5.subrange(12, 16));
    }
    assert(s6.subrange(36, 40) == le32(event_ptr)) by {
        assert(s6.subrange(36, 40) =~= s5.subrange(36, 40));
    }
    lemma_sub_left(s6, le32(n_chans), 8, 12);
    lemma_sub_left(s6, le32(n_chans), 12, 16);
    lemma_sub_left(s6, le32(n_chans), 36, 40);
    lemma_sub_right(s6, le32(n_chans), 0, 4);
    assert(le32(n_chans).subrange(0, 4) =~= le32(n_chans));
    lemma_sub_left(s7, zeros(4), 8, 12);
    lemma_sub_left(s7, zeros(4), 12, 16);
    lemma_sub_left(s7, zeros(4), 36, 40);
    lemma_sub_left(s7, zeros(4), 86, 90);
    assert(s8 == ld_head_fields(meta_ptr, data_ptr, event_ptr, n_chans));
}

proof fn lemma_ld_head_texts_len(secs: nat)
    ensures
        ld_head_texts(secs).len() == 384,
{
    reveal(ld_head_texts);
    lemma_fixed_text_len(ld_date_text(secs), 16);
    lemma_fixed_text_len(ld_time_text(secs), 16);
    lemma_fixed_text_len("ACR"@, 64);
    lemma_fixed_text_len("AC Rally"@, 64);
    lemma_fixed_text_len("Telemetry"@, 64);
}

proof fn lemma_ld_head_tail_len(profile_id: Seq<char>)
    ensures
        ld_head_tail(profile_id).len() == 1284,
{
    reveal(ld_head_tail);
    lemma_fixed_text_len(ld_head_comment(profile_id), 64);
}

proof fn lemma_ld_head_shape(
    meta_ptr: int,
    data_ptr: int,
    event_ptr: int,
    n_chans: int,
    profile_id: Seq<char>,
    secs: nat,
)
    ensures
        ({
            let h = ld_head(meta_ptr, data_ptr, event_ptr, n_chans, profile_id, secs);
            &&& h.len() == LD_EVENT_PTR
            &&& h.subrange(8, 12) == le32(meta_ptr)
            &&& h.subrange(12, 16) == le32(data_ptr)
            &&& h.subrange(36, 40) == le32(event_ptr)
            &&& h.subrange(86, 90) == le32(n_chans)
        }),
{
    lemma_ld_head_texts_len(secs);
    lemma_ld_head_tail_len(profile_id);
    lemma_ld_head_fields_shape(meta_ptr, data_ptr, event_ptr, n_chans);
    let f = ld_head_fields(meta_ptr, data_ptr, event_ptr, n_chans);
    let t = ld_head_texts(secs);
    let u = ld_head_tail(profile_id);
    let ft = f + t;
    lemma_sub_left(f, t, 8, 12);
    lemma_sub_left(f, t, 12, 16);
    lemma_sub_left(f, t, 36, 40);
    lemma_sub_left(f, t, 86, 90);
    lemma_sub_left(ft, u, 8, 12);
    lemma_sub_left(ft, u, 12, 16);
    lemma_sub_left(ft, u, 36, 40);
    lemma_sub_left(ft, u, 86, 90);
}

proof fn lemma_ld_event_len(description: Seq<char>)
    ensures
        ld_event(description).len() == LD_EVENT_SIZE,
{
    lemma_fixed_text_len("ACR Session"@, 64);
    lemma_fixed_text_len("0"@, 64);
    lemma_fixed_text_len(ld_event_comment(description), 1024);
}

proof fn lemma_ld_chan_shape(
    prev: int,
    next: int,
    data_ptr: int,
    n_data: int,
    name: Seq<char>,
    unit: Seq<char>,
    idx: int,
    rec_freq: int,
)
    ensures
        ({
            let c = ld_chan(prev, next, data_ptr, n_data, name, unit, idx, rec_freq);
            &&& c.len() == LD_CHAN_SIZE
            &&& c.subrange(0, 4) == le32(prev)
            &&& c.subrange(4, 8) == le32(next)
            &&& c.subrange(8, 12) == le32(data_ptr)
            &&& c.subrange(12, 16) == le32(n_data)
        }),
{
    lemma_fixed_text_len(name, 32);
    lemma_fixed_text_len(short_name(name), 8);
    lemma_fixed_text_len(unit, 12);
    let l = ld_chan_links(prev, next, data_ptr, n_data);
    let lf = l + ld_chan_format(idx, rec_freq);
    assert(l.len() == 16);
    assert(ld_chan_format(idx, rec_freq).len() == 16);
    assert(ld_chan_texts(name, unit).len() == 92);
    assert(l.subrange(0, 4) =~= le32(prev));
    assert(l.subrange(4, 8) =~= le32(next));
    assert(l.subrange(8, 12) =~= le32(data_ptr));
    assert(l.subrange(12, 16) =~= le32(n_data));
    lemma_sub_left(l, ld_chan_format(idx, rec_freq), 0, 4);
    lemma_sub_left(l, ld_chan_format(idx, rec_freq), 4, 8);
    lemma_sub_left(l, ld_chan_format(idx, rec_freq), 8, 12);
    lemma_sub_left(l, ld_chan_format(idx, rec_freq), 12, 16);
    lemma_sub_left(lf, ld_chan_texts(name, unit), 0, 4);
    lemma_sub_left(lf, ld_chan_texts(name, unit), 4, 8);
    lemma_sub_left(lf, ld_chan_texts(name, unit), 8, 12);
    lemma_sub_left(lf, ld_chan_texts(name, unit), 12, 16);
}

proof fn lemma_ld_chans_shape(chs: Seq<LdChannelView>, n: int, rec_freq: int)
    requires
        0 <= n <= chs.len(),
    ensures
        ld_chans(chs, n, rec_freq).len() == LD_CHAN_SIZE * n,
        forall|i: int|
            0 <= i < n ==> #[trigger] ld_chans(chs, n, rec_freq).subrange(
                LD_CHAN_SIZE * i,
                LD_CHAN_SIZE * i + LD_CHAN_SIZE,
            ) == ld_chan_of(chs, i, rec_freq),
    decreases n,
{
    if n > 0 {
        lemma_ld_chans_shape(chs, n - 1, rec_freq);
        let prev = ld_chans(chs, n - 1, rec_freq);
        let last = ld_chan_of(chs, n - 1, rec_freq);
        let p = if n - 1 == 0 {
            0
        } else {
            ld_meta_ptr(n - 2)
        };
        let q = if n < chs.len() {
            ld_meta_ptr(n)
        } else {
            0
        };
        lemma_ld_chan_shape(
            p,
            q,
            ld_channel_data_ptr(chs, n - 1),
            chs[n - 1].samples.len() as int,
            chs[n - 1].name,
            chs[n - 1].unit,
            n - 1,
            rec_freq,
        );
        assert forall|i: int| 0 <= i < n implies #[trigger] ld_chans(chs, n, rec_freq).subrange(
            LD_CHAN_SIZE * i,
            LD_CHAN_SIZE * i + LD_CHAN_SIZE,
        ) == ld_chan_of(chs, i, rec_freq) by {
            if i < n - 1 {
                lemma_sub_left(prev, last, LD_CHAN_SIZE * i, LD_CHAN_SIZE * i + LD_CHAN_SIZE);
            } else {
                lemma_sub_right(prev, last, 0, LD_CHAN_SIZE as int);
                assert(last.subrange(0, LD_CHAN_SIZE as int) =~= last);
            }
        }
    }
}

proof fn lemma_sample_words_shape(ws: Seq<u32>, k: int)
    requires
        0 <= k <= ws.len(),
    ensures
        sample_words(ws, k).len() == 4 * k,
        forall|j: int|
            0 <= j < k ==> #[trigger] sample_words(ws, k).subrange(4 * j, 4 * j + 4) == le32(
                ws[j] as int,
            ),
    decreases k,
{
    if k > 0 {
        lemma_sample_words_shape(ws, k - 1);
        let prev = sample_words(ws, k - 1);
        let last = le32(ws[k - 1] as int);
        assert forall|j: int| 0 <= j < k implies #[trigger] sample_words(ws, k).subrange(
            4 * j,
            4 * j + 4,
        ) == le32(ws[j] as int) by {
            if j < k - 1 {
                lemma_sub_left(prev, last, 4 * j, 4 * j + 4);
            } else {
                lemma_sub_right(prev, last, 0, 4);
                assert(last.subrange(0, 4) =~= last);
            }
        }
    }
}

proof fn lemma_ld_samples_shape(chs: Seq<LdChannelView>, n: int)
    requires
        0 <= n <= chs.len(),
    ensures
        ld_samples(chs, n).len() == 4 * samples_before(chs, n),
        forall|i: int, j: int|
            0 <= i < n && 0 <= j < chs[i].samples.len() ==> #[trigger] ld_samples(
                chs,
                n,
            ).subrange(4 * samples_before(chs, i) + 4 * j, 4 * samples_before(chs, i) + 4 * j + 4)
                == le32(#[trigger] chs[i].samples[j] as int),
    decreases n,
{
    if n > 0 {
        lemma_ld_samples_shape(chs, n - 1);
        let ws = chs[n - 1].samples;
        lemma_sample_words_shape(ws, ws.len() as int);
        let prev = ld_samples(chs, n - 1);
        let last = sample_words(ws, ws.len() as int);
        assert forall|i: int, j: int|
            0 <= i < n && 0 <= j < chs[i].samples.len() implies #[trigger] ld_samples(
            chs,
            n,
        ).subrange(4 * samples_before(chs, i) + 4 * j, 4 * samples_before(chs, i) + 4 * j + 4)
            == le32(#[trigger] chs[i].samples[j] as int) by {
            lemma_samples_before_nonneg(chs, i);
            if i < n - 1 {
                lemma_samples_before_mono(chs, i + 1, n - 1);
                assert(samples_before(chs, i + 1) == samples_before(chs, i)
                    + chs[i].samples.len());
                lemma_sub_left(
                    prev,
                    last,
                    4 * samples_before(chs, i) + 4 * j,
                    4 * samples_before(chs, i) + 4 * j + 4,
                );
            } else {
                assert(last.subrange(4 * j, 4 * j + 4) == le32(ws[j] as int));
                lemma_sub_right(prev, last, 4 * j, 4 * j + 4);
            }
        }
    }
}

proof fn lemma_ld_file_parts(
    chs: Seq<LdChannelView>,
    sample_rate_hz: int,
    profile_id: Seq<char>,
    description: Seq<char>,
    secs: nat,
)
    requires
        ld_fits(chs),
    ensures
        ({
            let n = chs.len() as int;
            let rf = ld_rec_freq(sample_rate_hz);
            let h = ld_head(LD_META_PTR as int, ld_data_ptr(n), LD_EVENT_PTR as int, n, profile_id, secs);
            let hec = h + ld_event(description) + ld_chans(chs, n, rf);
            let f = ld_file(chs, sample_rate_hz, profile_id, description, secs);
            &&& f == hec + ld_samples(chs, n)
            &&& hec.len() == ld_data_ptr(n)
            &&& f.len() == ld_channel_data_ptr(chs, n)
            &&& forall|x: int| 0 <= x && x + 4 <= LD_EVENT_PTR ==> #[trigger] f.subrange(x, x + 4) == h.subrange(x, x + 4)
            &&& forall|x: int|
                0 <= x && x + 4 <= LD_CHAN_SIZE * n ==> #[trigger] f.subrange(
                    LD_META_PTR + x,
                    LD_META_PTR + x + 4,
                ) == ld_chans(chs, n, rf).subrange(x, x + 4)
            &&& forall|x: int|
                0 <= x && x + 4 <= 4 * samples_before(chs, n) ==> #[trigger] f.subrange(
                    ld_data_ptr(n) + x,
                    ld_data_ptr(n) + x + 4,
                ) == ld_samples(chs, n).subrange(x, x + 4)
        }),
{
    let n = chs.len() as int;
    let rf = ld_rec_freq(sample_rate_hz);
    let h = ld_head(LD_META_PTR as int, ld_data_ptr(n), LD_EVENT_PTR as int, n, profile_id, secs);
    let e = ld_event(description);
    let c = ld_chans(chs, n, rf);
    let d = ld_samples(chs, n);
    let f = ld_file(chs, sample_rate_hz, profile_id, description, secs);
    lemma_ld_head_shape(LD_META_PTR as int, ld_data_ptr(n), LD_EVENT_PTR as int, n, profile_id, secs);
    lemma_ld_event_len(description);
    lemma_ld_chans_shape(chs, n, rf);
    lemma_ld_samples_shape(chs, n);
    lemma_samples_before_nonneg(chs, n);
    let he = h + e;
    let hec = he + c;
    assert(f == hec + d);
    assert forall|x: int| 0 <= x && x + 4 <= LD_EVENT_PTR implies #[trigger] f.subrange(x, x + 4)
        == h.subrange(x, x + 4) by {
        lemma_sub_left(h, e, x, x + 4);
        lemma_sub_left(he, c, x, x + 4);
        lemma_sub_left(hec, d, x, x + 4);
    }
    assert forall|x: int| 0 <= x && x + 4 <= LD_CHAN_SIZE * n implies #[trigger] f.subrange(
        LD_META_PTR + x,
        LD_META_PTR + x + 4,
    ) == c.subrange(x, x + 4) by {
        lemma_sub_right(he, c, x, x + 4);
        lemma_sub_left(hec, d, LD_META_PTR + x, LD_META_PTR + x + 4);
    }
    assert forall|x: int| 0 <= x && x + 4 <= 4 * samples_before(chs, n) implies #[trigger] f.subrange(
        ld_data_ptr(n) + x,
        ld_data_ptr(n) + x + 4,
    ) == d.subrange(x, x + 4) by {
        lemma_sub_right(hec, d, x, x + 4);
    }
}

/// Reading a written `.ld` file back: the header points at the channel records and the
/// samples, each channel record holds its neighbours' offsets, the offset and count of
/// its samples, and the 32-bit words found there are the channel's samples, in order.
pub proof fn lemma_ld_file_reads_back(
    chs: Seq<LdChannelView>,
    sample_rate_hz: int,
    profile_id: Seq<char>,
    description: Seq<char>,
    secs: nat,
)
    requires
        ld_fits(chs),
    ensures
        ({
            let f = ld_file(chs, sample_rate_hz, profile_id, description, secs);
            let n = chs.len() as int;
            &&& f.len() == ld_channel_data_ptr(chs, n)
            &&& read_le32(f, 8) == LD_META_PTR
            &&& read_le32(f, 12) == ld_data_ptr(n)
            &&& read_le32(f, 36) == LD_EVENT_PTR
            &&& read_le32(f, 86) == n
            &&& forall|i: int|
                0 <= i < n ==> {
                    &&& read_le32(f, #[trigger] ld_meta_ptr(i)) == (if i == 0 {
                        0
                    } else {
                        ld_meta_ptr(i - 1)
                    })
                    &&& read_le32(f, ld_meta_ptr(i) + 4) == (if i + 1 < n {
                        ld_meta_ptr(i + 1)
                    } else {
                        0
                    })
                    &&& read_le32(f, ld_meta_ptr(i) + 8) == ld_channel_data_ptr(chs, i)
                    &&& read_le32(f, ld_meta_ptr(i) + 12) == chs[i].samples.len()
                }
            &&& forall|i: int, k: int|
                0 <= i < n && 0 <= k < chs[i].samples.len() ==> read_le32(
                    f,
                    ld_channel_data_ptr(chs, i) + 4 * k,
                ) == #[trigger] chs[i].samples[k]
        }),
{
    lemma_ld_file_head_reads_back(chs, sample_rate_hz, profile_id, description, secs);
    lemma_ld_file_chans_read_back(chs, sample_rate_hz, profile_id, description, secs);
    lemma_ld_file_samples_read_back(chs, sample_rate_hz, profile_id, description, secs);
}

proof fn lemma_ld_file_head_reads_back(
    chs: Seq<LdChannelView>,
    sample_rate_hz: int,
    profile_id: Seq<char>,
    description: Seq<char>,
    secs: nat,
)
    requires
        ld_fits(chs),
    ensures
        ({
            let f = ld_file(chs, sample_rate_hz, profile_id, description, secs);
            let n = chs.len() as int;
            &&& f.len() == ld_channel_data_ptr(chs, n)
            &&& read_le32(f, 8) == LD_META_PTR
            &&& read_le32(f, 12) == ld_data_ptr(n)
            &&& read_le32(f, 36) == LD_EVENT_PTR
            &&& read_le32(f, 86) == n
        }),
{
    let n = chs.len() as int;
    let f = ld_file(chs, sample_rate_hz, profile_id, description, secs);
    lemma_ld_file_parts(chs, sample_rate_hz, profile_id, description, secs);
    lemma_ld_head_shape(LD_META_PTR as int, ld_data_ptr(n), LD_EVENT_PTR as int, n, profile_id, secs);
    assert(f.subrange(8int, 8int + 4) == le32(LD_META_PTR as int));
    assert(f.subrange(12int, 12int + 4) == le32(ld_data_ptr(n)));
    assert(f.subrange(36int, 36int + 4) == le32(LD_EVENT_PTR as int));
    assert(f.subrange(86int, 86int + 4) == le32(n));
    lemma_read_le32(f, LD_META_PTR as int, 8);
    lemma_read_le32(f, ld_data_ptr(n), 12);
    lemma_read_le32(f, LD_EVENT_PTR as int, 36);
    lemma_read_le32(f, n, 86);
}

proof fn lemma_ld_file_chans_read_back(
    chs: Seq<LdChannelView>,
    sample_rate_hz: int,
    profile_id: Seq<char>,
    description: Seq<char>,
    secs: nat,
)
    requires
        ld_fits(chs),
    ensures
        ({
            let f = ld_file(chs, sample_rate_hz, profile_id, description, secs);
            let n = chs.len() as int;
            forall|i: int|
                0 <= i < n ==> {
                    &&& read_le32(f, #[trigger] ld_meta_ptr(i)) == (if i == 0 {
                        0
                    } else {
                        ld_meta_ptr(i - 1)
                    })
                    &&& read_le32(f, ld_meta_ptr(i) + 4) == (if i + 1 < n {
                        ld_meta_ptr(i + 1)
                    } else {
                        0
                    })
                    &&& read_le32(f, ld_meta_ptr(i) + 8) == ld_channel_data_ptr(chs, i)
                    &&& read_le32(f, ld_meta_ptr(i) + 12) == chs[i].samples.len()
                }
        }),
{
    let n = chs.len() as int;
    let rf = ld_rec_freq(sample_rate_hz);
    let f = ld_file(chs, sample_rate_hz, profile_id, description, secs);
    let c = ld_chans(chs, n, rf);
    lemma_ld_file_parts(chs, sample_rate_hz, profile_id, description, secs);
    lemma_ld_chans_shape(chs, n, rf);
    assert forall|i: int| 0 <= i < n implies {
        &&& read_le32(f, #[trigger] ld_meta_ptr(i)) == (if i == 0 {
            0
        } else {
            ld_meta_ptr(i - 1)
        })
        &&& read_le32(f, ld_meta_ptr(i) + 4) == (if i + 1 < n {
            ld_meta_ptr(i + 1)
        } else {
            0
        })
        &&& read_le32(f, ld_meta_ptr(i) + 8) == ld_channel_data_ptr(chs, i)
        &&& read_le32(f, ld_meta_ptr(i) + 12) == chs[i].samples.len()
    } by {
        lemma_ld_file_chan_reads_back(chs, sample_rate_hz, profile_id, description, secs, i);
    }
}

proof fn lemma_ld_file_chan_reads_back(
    chs: Seq<LdChannelView>,
    sample_rate_hz: int,
    profile_id: Seq<char>,
    description: Seq<char>,
    secs: nat,
    i: int,
)
    requires
        ld_fits(chs),
        0 <= i < chs.len(),
    ensures
        ({
            let f = ld_file(chs, sample_rate_hz, profile_id, description, secs);
            let n = chs.len() as int;
            &&& read_le32(f, ld_meta_ptr(i)) == (if i == 0 {
                0
            } else {
                ld_meta_ptr(i - 1)
            })
            &&& read_le32(f, ld_meta_ptr(i) + 4) == (if i + 1 < n {
                ld_meta_ptr(i + 1)
            } else {
                0
            })
            &&& read_le32(f, ld_meta_ptr(i) + 8) == ld_channel_data_ptr(chs, i)
            &&& read_le32(f, ld_meta_ptr(i) + 12) == chs[i].samples.len()
        }),
{
    let n = chs.len() as int;
    let rf = ld_rec_freq(sample_rate_hz);
    let f = ld_file(chs, sample_rate_hz, profile_id, description, secs);
    let c = ld_chans(chs, n, rf);
    lemma_ld_file_parts(chs, sample_rate_hz, profile_id, description, secs);
    lemma_ld_chans_shape(chs, n, rf);
    let base = LD_CHAN_SIZE * i;
    let rec = ld_chan_of(chs, i, rf);
    let p = if i == 0 {
        0
    } else {
        ld_meta_ptr(i - 1)
    };
    let q = if i + 1 < n {
        ld_meta_ptr(i + 1)
    } else {
        0
    };
    lemma_samples_before_mono(chs, i, n);
    lemma_samples_before_mono(chs, i + 1, n);
    lemma_ld_chan_shape(
        p,
        q,
        ld_channel_data_ptr(chs, i),
        chs[i].samples.len() as int,
        chs[i].name,
        chs[i].unit,
        i,
        rf,
    );
    assert(c.subrange(base, base + LD_CHAN_SIZE) == rec);
    let m = ld_meta_ptr(i);
    assert forall|x: int| 0 <= x && x + 4 <= 16 implies #[trigger] f.subrange(m + x, m + x + 4)
        == rec.subrange(x, x + 4) by {
        assert(f.subrange(LD_META_PTR + (base + x), LD_META_PTR + (base + x) + 4) == c.subrange(
            base + x,
            base + x + 4,
        ));
        assert(c.subrange(base + x, base + x + 4) =~= c.subrange(base, base + LD_CHAN_SIZE).subrange(
            x,
            x + 4,
        ));
    }
    assert(f.subrange(m + 0, m + 0 + 4) == rec.subrange(0, 4));
    assert(f.subrange(m + 4, m + 4 + 4) == rec.subrange(4, 8));
    assert(f.subrange(m + 8, m + 8 + 4) == rec.subrange(8, 12));
    assert(f.subrange(m + 12, m + 12 + 4) == rec.subrange(12, 16));
    lemma_read_le32(f, p, m);
    lemma_read_le32(f, q, m + 4);
    lemma_read_le32(f, ld_channel_data_ptr(chs, i), m + 8);
    lemma_read_le32(f, chs[i].samples.len() as int, m + 12);
}

proof fn lemma_ld_chan_format_words(
    prev: int,
    next: int,
    data_ptr: int,
    n_data: int,
    name: Seq<char>,
    unit: Seq<char>,
    idx: int,
    rec_freq: int,
)
    ensures
        ({
            let c = ld_chan(prev, next, data_ptr, n_data, name, unit, idx, rec_freq);
            &&& c.subrange(16, 20) == le16(0x2ee1 + idx) + le16(7)
            &&& c.subrange(20, 24) == le16(4) + le16(rec_freq)
            &&& c.subrange(24, 28) == le16(0) + le16(1)
            &&& c.subrange(28, 32) == le16(1) + le16(0)
        }),
{
    lemma_fixed_text_len(name, 32);
    lemma_fixed_text_len(short_name(name), 8);
    lemma_fixed_text_len(unit, 12);
    let l = ld_chan_links(prev, next, data_ptr, n_data);
    let fm = ld_chan_format(idx, rec_freq);
    let t = ld_chan_texts(name, unit);
    assert(l.len() == 16);
    assert(fm.len() == 16);
    assert((l + fm + t).subrange(16, 32) =~= fm);
    let c = l + fm + t;
    assert(c.subrange(16, 20) =~= fm.subrange(0, 4));
    assert(c.subrange(20, 24) =~= fm.subrange(4, 8));
    assert(c.subrange(24, 28) =~= fm.subrange(8, 12));
    assert(c.subrange(28, 32) =~= fm.subrange(12, 16));
    assert(fm.subrange(0, 4) =~= le16(0x2ee1 + idx) + le16(7));
    assert(fm.subrange(4, 8) =~= le16(4) + le16(rec_freq));
    assert(fm.subrange(8, 12) =~= le16(0) + le16(1));
    assert(fm.subrange(12, 16) =~= le16(1) + le16(0));
}

proof fn lemma_le16_value(v: int)
    requires
        0 <= v < 0x1_0000,
    ensures
        le16(v)[0] + 256 * le16(v)[1] == v,
{
    let b0 = v % 256;
    let b1 = (v / 256) % 256;
    assert(b0 + 256 * b1 == v) by (nonlinear_arith)
        requires
            0 <= v < 0x1_0000,
            b0 == v % 256,
            b1 == (v / 256) % 256,
    ;
}

proof fn lemma_read_le16_words(f: Seq<u8>, pos: int, a: int, b: int)
    requires
        0 <= pos,
        pos + 4 <= f.len(),
        f.subrange(pos, pos + 4) == le16(a) + le16(b),
    ensures
        0 <= a < 0x1_0000 ==> read_le16(f, pos) == a,
        0 <= b < 0x1_0000 ==> read_le16(f, pos + 2) == b,
{
    let w = f.subrange(pos, pos + 4);
    assert(f[pos] == w[0] && f[pos + 1] == w[1] && f[pos + 2] == w[2] && f[pos + 3] == w[3]);
    if 0 <= a < 0x1_0000 {
        lemma_le16_value(a);
    }
    if 0 <= b < 0x1_0000 {
        lemma_le16_value(b);
    }
}

#[verifier::spinoff_prover]
proof fn lemma_ld_file_chan_words(
    chs: Seq<LdChannelView>,
    sample_rate_hz: int,
    profile_id: Seq<char>,
    description: Seq<char>,
    secs: nat,
    i: int,
)
    requires
        ld_fits(chs),
        0 <= i < chs.len(),
    ensures
        ({
            let f = ld_file(chs, sample_rate_hz, profile_id, description, secs);
            let m = ld_meta_ptr(i);
            &&& m + 32 <= f.len()
            &&& f.subrange(m + 16, m + 20) == le16(0x2ee1 + i) + le16(7)
            &&& f.subrange(m + 20, m + 24) == le16(4) + le16(ld_rec_freq(sample_rate_hz))
            &&& f.subrange(m + 24, m + 28) == le16(0) + le16(1)
            &&& f.subrange(m + 28, m + 32) == le16(1) + le16(0)
        }),
{
    let n = chs.len() as int;
    let rf = ld_rec_freq(sample_rate_hz);
    let f = ld_file(chs, sample_rate_hz, profile_id, description, secs);
    let c = ld_chans(chs, n, rf);
    lemma_ld_file_parts(chs, sample_rate_hz, profile_id, description, secs);
    lemma_ld_chans_shape(chs, n, rf);
    lemma_samples_before_mono(chs, i, n);
    lemma_samples_before_nonneg(chs, n);
    let base = LD_CHAN_SIZE * i;
    let rec = ld_chan_of(chs, i, rf);
    let p = if i == 0 {
        0
    } else {
        ld_meta_ptr(i - 1)
    };
    let q = if i + 1 < n {
        ld_meta_ptr(i + 1)
    } else {
        0
    };
    lemma_ld_chan_format_words(p, q, ld_channel_data_ptr(chs, i), chs[i].samples.len() as int, chs[i].name, chs[i].unit, i, rf);
    assert(c.subrange(base, base + LD_CHAN_SIZE) == rec);
    let m = ld_meta_ptr(i);
    assert(m + 32 <= f.len());
    assert forall|x: int| 16 <= x && x + 4 <= 32 implies #[trigger] f.subrange(m + x, m + x + 4)
        == rec.subrange(x, x + 4) by {
        assert(f.subrange(LD_META_PTR + (base + x), LD_META_PTR + (base + x) + 4) == c.subrange(
            base + x,
            base + x + 4,
        ));
        assert(c.subrange(base + x, base + x + 4) =~= c.subrange(base, base + LD_CHAN_SIZE).subrange(
            x,
            x + 4,
        ));
    }
    assert(f.subrange(m + 16, m + 16 + 4) == rec.subrange(16, 20));
    assert(f.subrange(m + 20, m + 20 + 4) == rec.subrange(20, 24));
    assert(f.subrange(m + 24, m + 24 + 4) == rec.subrange(24, 28));
    assert(f.subrange(m + 28, m + 28 + 4) == rec.subrange(28, 32));
}

/// Every channel record tells a reader how to take its samples: after the channel
/// counter `0x2ee1 + i` come the data-type words 7 and 4 (32-bit IEEE-754 floats, which
/// the sample words are), then after the rate a shift of 0, a multiplier of 1, a scale of
/// 1 and no decimal places, so the samples are read back unchanged.
pub proof fn lemma_ld_channel_formats(
    chs: Seq<LdChannelView>,
    sample_rate_hz: int,
    profile_id: Seq<char>,
    description: Seq<char>,
    secs: nat,
    i: int,
)
    requires
        ld_fits(chs),
        0 <= i < chs.len(),
    ensures
        ({
            let f = ld_file(chs, sample_rate_hz, profile_id, description, secs);
            let m = ld_meta_ptr(i);
            &&& read_le16(f, m + 16) == 0x2ee1 + i
            &&& read_le16(f, m + 18) == 7
            &&& read_le16(f, m + 20) == 4
            &&& read_le16(f, m + 24) == 0
            &&& read_le16(f, m + 26) == 1
            &&& read_le16(f, m + 28) == 1
            &&& read_le16(f, m + 30) == 0
        }),
{
    let f = ld_file(chs, sample_rate_hz, profile_id, description, secs);
    let m = ld_meta_ptr(i);
    lemma_ld_file_chan_words(chs, sample_rate_hz, profile_id, description, secs, i);
    lemma_read_le16_words(f, m + 16, 0x2ee1 + i, 7);
    lemma_read_le16_words(f, m + 20, 4, ld_rec_freq(sample_rate_hz));
    lemma_read_le16_words(f, m + 24, 0, 1);
    lemma_read_le16_words(f, m + 28, 1, 0);
}

proof fn lemma_ld_file_sample_reads_back(
    chs: Seq<LdChannelView>,
    sample_rate_hz: int,
    profile_id: Seq<char>,
    description: Seq<char>,
    secs: nat,
    i: int,
    k: int,
)
    requires
        ld_fits(chs),
        0 <= i < chs.len(),
        0 <= k < chs[i].samples.len(),
    ensures
        read_le32(
            ld_file(chs, sample_rate_hz, profile_id, description, secs),
            ld_channel_data_ptr(chs, i) + 4 * k,
        ) == chs[i].samples[k],
{
    let n = chs.len() as int;
    let f = ld_file(chs, sample_rate_hz, profile_id, description, secs);
    let d = ld_samples(chs, n);
    lemma_ld_file_parts(chs, sample_rate_hz, profile_id, description, secs);
    lemma_ld_samples_shape(chs, n);
    lemma_samples_before_nonneg(chs, i);
    lemma_samples_before_mono(chs, i + 1, n);
    assert(samples_before(chs, i + 1) == samples_before(chs, i) + chs[i].samples.len());
    let off = 4 * samples_before(chs, i) + 4 * k;
    assert(d.subrange(off, off + 4) == le32(chs[i].samples[k] as int));
    assert(f.subrange(ld_data_ptr(n) + off, ld_data_ptr(n) + off + 4) == d.subrange(off, off + 4));
    lemma_read_le32(f, chs[i].samples[k] as int, ld_channel_data_ptr(chs, i) + 4 * k);
}

proof fn lemma_ld_file_samples_read_back(
    chs: Seq<LdChannelView>,
    sample_rate_hz: int,
    profile_id: Seq<char>,
    description: Seq<char>,
    secs: nat,
)
    requires
        ld_fits(chs),
    ensures
        ({
            let f = ld_file(chs, sample_rate_hz, profile_id, description, secs);
            let n = chs.len() as int;
            forall|i: int, k: int|
                0 <= i < n && 0 <= k < chs[i].samples.len() ==> read_le32(
                    f,
                    ld_channel_data_ptr(chs, i) + 4 * k,
                ) == #[trigger] chs[i].samples[k]
        }),
{
    assert forall|i: int, k: int| 0 <= i < chs.len() && 0 <= k < chs[i].samples.len() implies read_le32(
        ld_file(chs, sample_rate_hz, profile_id, description, secs),
        ld_channel_data_ptr(chs, i) + 4 * k,
    ) == #[trigger] chs[i].samples[k] by {
        lemma_ld_file_sample_reads_back(chs, sample_rate_hz, profile_id, description, secs, i, k);
    }
}

} // verus!

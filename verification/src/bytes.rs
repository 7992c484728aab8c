//! Little-endian integer encodings and fixed-width byte fields.

use vstd::prelude::*;

verus! {

/// The two little-endian bytes of `v`.
pub open spec fn le16(v: int) -> Seq<u8> {
    seq![(v % 256) as u8, ((v / 256) % 256) as u8]
}

/// The four little-endian bytes of `v`.
pub open spec fn le32(v: int) -> Seq<u8> {
    seq![
        (v % 256) as u8,
        ((v / 256) % 256) as u8,
        ((v / 65536) % 256) as u8,
        ((v / 16777216) % 256) as u8,
    ]
}

/// The value of the four little-endian bytes of `b` starting at `pos`.
pub open spec fn read_le32(b: Seq<u8>, pos: int) -> int {
    b[pos] + 256 * b[pos + 1] + 65536 * b[pos + 2] + 16777216 * b[pos + 3]
}

/// The value of the two little-endian bytes of `b` starting at `pos`.
pub open spec fn read_le16(b: Seq<u8>, pos: int) -> int {
    b[pos] + 256 * b[pos + 1]
}

/// `n` zero bytes.
pub open spec fn zeros(n: nat) -> Seq<u8> {
    Seq::new(n, |i: int| 0u8)
}

/// `b` cut or zero-padded to exactly `len` bytes.
pub open spec fn fixed_bytes(b: Seq<u8>, len: nat) -> Seq<u8> {
    if b.len() >= len {
        b.take(len as int)
    } else {
        b + zeros((len - b.len()) as nat)
    }
}

/// The UTF-8 encoding of `t`, cut or zero-padded to exactly `len` bytes.
#[verifier::opaque]
pub open spec fn fixed_text(t: Seq<char>, len: nat) -> Seq<u8> {
    fixed_bytes(vstd::utf8::encode_utf8(t), len)
}

pub proof fn lemma_fixed_bytes_len(b: Seq<u8>, len: nat)
    ensures
        fixed_bytes(b, len).len() == len,
{
}

pub proof fn lemma_fixed_text_len(t: Seq<char>, len: nat)
    ensures
        fixed_text(t, len).len() == len,
{
    reveal(fixed_text);
    lemma_fixed_bytes_len(vstd::utf8::encode_utf8(t), len);
}

/// Reading back the four bytes written for `v` gives `v`.
pub proof fn lemma_read_le32(s: Seq<u8>, v: int, pos: int)
    requires
        0 <= v < 0x1_0000_0000,
        0 <= pos,
        pos + 4 <= s.len(),
        s.subrange(pos, pos + 4) == le32(v),
    ensures
        read_le32(s, pos) == v,
{
    assert(s[pos] == le32(v)[0]);
    assert(s[pos + 1] == le32(v)[1]);
    assert(s[pos + 2] == le32(v)[2]);
    assert(s[pos + 3] == le32(v)[3]);
    let b0 = v % 256;
    let b1 = (v / 256) % 256;
    let b2 = (v / 65536) % 256;
    let b3 = (v / 16777216) % 256;
    assert(b0 + 256 * b1 + 65536 * b2 + 16777216 * b3 == v) by (nonlinear_arith)
        requires
            0 <= v < 0x1_0000_0000,
            b0 == v % 256,
            b1 == (v / 256) % 256,
            b2 == (v / 65536) % 256,
            b3 == (v / 16777216) % 256,
    ;
}

/// Decoding four bytes and encoding the value again gives the same bytes.
pub proof fn lemma_le32_of_read(s: Seq<u8>, pos: int)
    requires
        0 <= pos,
        pos + 4 <= s.len(),
    ensures
        0 <= read_le32(s, pos) < 0x1_0000_0000,
        le32(read_le32(s, pos)) == s.subrange(pos, pos + 4),
{
    let b0 = s[pos] as int;
    let b1 = s[pos + 1] as int;
    let b2 = s[pos + 2] as int;
    let b3 = s[pos + 3] as int;
    let v = read_le32(s, pos);
    assert(v % 256 == b0 && (v / 256) % 256 == b1 && (v / 65536) % 256 == b2 && (v / 16777216)
        % 256 == b3 && 0 <= v < 0x1_0000_0000) by (nonlinear_arith)
        requires
            0 <= b0 < 256,
            0 <= b1 < 256,
            0 <= b2 < 256,
            0 <= b3 < 256,
            v == b0 + 256 * b1 + 65536 * b2 + 16777216 * b3,
    ;
    assert(le32(v) =~= s.subrange(pos, pos + 4));
}

/// Appends the two little-endian bytes of `v`.
pub fn push_le16(out: &mut Vec<u8>, v: u16)
    ensures
        final(out)@ == old(out)@ + le16(v as int),
{
    out.push((v % 256) as u8);
    out.push(((v / 256) % 256) as u8);
    assert(final(out)@ =~= old(out)@ + le16(v as int));
}

/// Appends the four little-endian bytes of `v`.
pub fn push_le32(out: &mut Vec<u8>, v: u32)
    ensures
        final(out)@ == old(out)@ + le32(v as int),
{
    out.push((v % 256) as u8);
    out.push(((v / 256) % 256) as u8);
    out.push(((v / 65536) % 256) as u8);
    out.push(((v / 16777216) % 256) as u8);
    assert(final(out)@ =~= old(out)@ + le32(v as int));
}

/// Appends `n` zero bytes.
pub fn push_zeros(out: &mut Vec<u8>, n: usize)
    ensures
        final(out)@ == old(out)@ + zeros(n as nat),
{
    let ghost start = out@;
    let mut i: usize = 0;
    while i < n
        invariant
            i <= n,
            out@ == start + zeros(i as nat),
        decreases n - i,
    {
        out.push(0u8);
        i = i + 1;
        assert(out@ =~= start + zeros(i as nat));
    }
}

/// Appends `b`, cut or zero-padded to exactly `len` bytes.
pub fn push_fixed_bytes(out: &mut Vec<u8>, b: &[u8], len: usize)
    ensures
        final(out)@ == old(out)@ + fixed_bytes(b@, len as nat),
{
    let ghost start = out@;
    let n: usize = if b.len() < len {
        b.len()
    } else {
        len
    };
    let mut i: usize = 0;
    while i < n
        invariant
            i <= n,
            n <= b@.len(),
            n <= len,
            out@ == start + b@.take(i as int),
        decreases n - i,
    {
        out.push(b[i]);
        i = i + 1;
        assert(out@ =~= start + b@.take(i as int));
    }
    push_zeros(out, len - n);
    if b.len() >= len {
        assert(out@ =~= start + fixed_bytes(b@, len as nat));
    } else {
        assert(b@.take(n as int) =~= b@);
        assert(out@ =~= start + fixed_bytes(b@, len as nat));
    }
}

/// Appends the UTF-8 encoding of `s`, cut or zero-padded to exactly `len` bytes.
pub fn push_fixed_str(out: &mut Vec<u8>, s: &str, len: usize)
    ensures
        final(out)@ == old(out)@ + fixed_text(s@, len as nat),
{
    reveal(fixed_text);
    let b = s.as_bytes();
    push_fixed_bytes(out, b, len);
}

} // verus!

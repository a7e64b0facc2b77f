use vstd::prelude::*;

verus! {

/// The encodings a sample may have. Floating point samples are held by their bits.
#[derive(Debug, Clone, Copy, PartialEq, Eq, Structural)]
pub enum PixelType {
    /// 32-bit unsigned integer.
    U32,
    /// 16-bit float, held as its `u16` bits.
    F16,
    /// 32-bit float, held as its `u32` bits.
    F32,
}

impl PixelType {
    pub open spec fn spec_bytes_per_sample(self) -> nat {
        match self {
            PixelType::F16 => 2,
            _ => 4,
        }
    }

    /// The number of bytes one sample of this type takes.
    pub fn bytes_per_sample(self) -> (r: usize)
        ensures
            r == self.spec_bytes_per_sample(),
    {
        match self {
            PixelType::F16 => 2,
            _ => 4,
        }
    }
}

/// The little-endian bytes of a 16-bit value.
pub open spec fn u16_le(v: u16) -> Seq<u8> {
    seq![(v % 256) as u8, (v / 256) as u8]
}

/// The little-endian bytes of a 32-bit value.
pub open spec fn u32_le(v: u32) -> Seq<u8> {
    seq![(v % 256) as u8, ((v / 256) % 256) as u8, ((v / 65536) % 256) as u8, (v / 16777216) as u8]
}

/// The 16-bit value whose little-endian bytes start `b`.
pub open spec fn u16_from_le(b: Seq<u8>) -> u16 {
    (b[0] + 256 * b[1]) as u16
}

/// The 32-bit value whose little-endian bytes start `b`.
pub open spec fn u32_from_le(b: Seq<u8>) -> u32 {
    (b[0] + 256 * b[1] + 65536 * b[2] + 16777216 * b[3]) as u32
}

/// The values of `s` as little-endian bytes, back to back.
pub open spec fn u16s_le(s: Seq<u16>) -> Seq<u8>
    decreases s.len(),
{
    if s.len() == 0 {
        seq![]
    } else {
        u16_le(s[0]) + u16s_le(s.skip(1))
    }
}

/// The values of `s` as little-endian bytes, back to back.
pub open spec fn u32s_le(s: Seq<u32>) -> Seq<u8>
    decreases s.len(),
{
    if s.len() == 0 {
        seq![]
    } else {
        u32_le(s[0]) + u32s_le(s.skip(1))
    }
}

/// The first `n` little-endian 16-bit values of `b`.
pub open spec fn read_u16s(b: Seq<u8>, n: nat) -> Seq<u16>
    decreases n,
{
    if n == 0 {
        seq![]
    } else {
        seq![u16_from_le(b)] + read_u16s(b.skip(2), (n - 1) as nat)
    }
}

/// The first `n` little-endian 32-bit values of `b`.
pub open spec fn read_u32s(b: Seq<u8>, n: nat) -> Seq<u32>
    decreases n,
{
    if n == 0 {
        seq![]
    } else {
        seq![u32_from_le(b)] + read_u32s(b.skip(4), (n - 1) as nat)
    }
}

pub proof fn lemma_u16_le_round_trip(v: u16)
    ensures
        u16_from_le(u16_le(v)) == v,
{
}

pub proof fn lemma_u32_le_round_trip(v: u32)
    ensures
        u32_from_le(u32_le(v)) == v,
{
}

pub proof fn lemma_u16s_le_len(s: Seq<u16>)
    ensures
        u16s_le(s).len() == 2 * s.len(),
    decreases s.len(),
{
    if s.len() > 0 {
        lemma_u16s_le_len(s.skip(1));
    }
}

pub proof fn lemma_u32s_le_len(s: Seq<u32>)
    ensures
        u32s_le(s).len() == 4 * s.len(),
    decreases s.len(),
{
    if s.len() > 0 {
        lemma_u32s_le_len(s.skip(1));
    }
}

/// Reading back the bytes of `s` gives `s`, whatever follows them.
pub proof fn lemma_u16s_round_trip(s: Seq<u16>, rest: Seq<u8>)
    ensures
        read_u16s(u16s_le(s) + rest, s.len()) == s,
    decreases s.len(),
{
    if s.len() > 0 {
        let b = u16s_le(s) + rest;
        lemma_u16_le_round_trip(s[0]);
        assert(b.skip(2) =~= u16s_le(s.skip(1)) + rest);
        lemma_u16s_round_trip(s.skip(1), rest);
        assert(read_u16s(b, s.len()) =~= s);
    }
}

/// Reading back the bytes of `s` gives `s`, whatever follows them.
pub proof fn lemma_u32s_round_trip(s: Seq<u32>, rest: Seq<u8>)
    ensures
        read_u32s(u32s_le(s) + rest, s.len()) == s,
    decreases s.len(),
{
    if s.len() > 0 {
        let b = u32s_le(s) + rest;
        lemma_u32_le_round_trip(s[0]);
        assert(b.skip(4) =~= u32s_le(s.skip(1)) + rest);
        lemma_u32s_round_trip(s.skip(1), rest);
        assert(read_u32s(b, s.len()) =~= s);
    }
}

/// Appends the little-endian bytes of each value of `s` to `out`.
pub fn push_u16s(out: &mut Vec<u8>, s: &Vec<u16>)
    ensures
        final(out)@ == old(out)@ + u16s_le(s@),
{
    let n = s.len();
    let mut i: usize = 0;
    assert(s@.skip(0) =~= s@);
    while i < n
        invariant
            n == s@.len(),
            i <= n,
            out@ + u16s_le(s@.skip(i as int)) == old(out)@ + u16s_le(s@),
        decreases n - i,
    {
        let v = s[i];
        assert(s@.skip(i as int).skip(1) =~= s@.skip(i + 1));
        out.push((v % 256) as u8);
        out.push((v / 256) as u8);
        i = i + 1;
    }
    assert(out@ + u16s_le(s@.skip(n as int)) =~= out@);
}

/// Appends the little-endian bytes of each value of `s` to `out`.
pub fn push_u32s(out: &mut Vec<u8>, s: &Vec<u32>)
    ensures
        final(out)@ == old(out)@ + u32s_le(s@),
{
    let n = s.len();
    let mut i: usize = 0;
    assert(s@.skip(0) =~= s@);
    while i < n
        invariant
            n == s@.len(),
            i <= n,
            out@ + u32s_le(s@.skip(i as int)) == old(out)@ + u32s_le(s@),
        decreases n - i,
    {
        let v = s[i];
        assert(s@.skip(i as int).skip(1) =~= s@.skip(i + 1));
        out.push((v % 256) as u8);
        out.push(((v / 256) % 256) as u8);
        out.push(((v / 65536) % 256) as u8);
        out.push((v / 16777216) as u8);
        i = i + 1;
    }
    assert(out@ + u32s_le(s@.skip(n as int)) =~= out@);
}

/// Reads `n` little-endian 16-bit values from `b`, starting at byte `start`.
pub fn read_u16s_at(b: &Vec<u8>, start: usize, n: usize) -> (r: Vec<u16>)
    requires
        start + 2 * n <= b@.len(),
    ensures
        r@ == read_u16s(b@.skip(start as int), n as nat),
{
    let mut r: Vec<u16> = Vec::new();
    let mut i: usize = 0;
    let mut pos: usize = start;
    let len = b.len();
    while i < n
        invariant
            len == b@.len(),
            i <= n,
            pos == start + 2 * i,
            start + 2 * n <= b@.len(),
            r@ + read_u16s(b@.skip(pos as int), (n - i) as nat) == read_u16s(b@.skip(start as int), n as nat),
        decreases n - i,
    {
        let v: u16 = (b[pos] as u16) + 256 * (b[pos + 1] as u16);
        proof {
            let t = b@.skip(pos as int);
            assert(t.skip(2) =~= b@.skip(pos + 2));
            assert(read_u16s(t, (n - i) as nat) == seq![u16_from_le(t)] + read_u16s(t.skip(2), (n - i - 1) as nat));
            assert(v == u16_from_le(t));
            assert(r@.push(v) + read_u16s(t.skip(2), (n - i - 1) as nat) =~= r@ + read_u16s(t, (n - i) as nat));
        }
        r.push(v);
        i = i + 1;
        pos = pos + 2;
    }
    assert(r@ + read_u16s(b@.skip(pos as int), 0) =~= r@);
    r
}

/// Reads `n` little-endian 32-bit values from `b`, starting at byte `start`.
pub fn read_u32s_at(b: &Vec<u8>, start: usize, n: usize) -> (r: Vec<u32>)
    requires
        start + 4 * n <= b@.len(),
    ensures
        r@ == read_u32s(b@.skip(start as int), n as nat),
{
    let mut r: Vec<u32> = Vec::new();
    let mut i: usize = 0;
    let mut pos: usize = start;
    let len = b.len();
    while i < n
        invariant
            len == b@.len(),
            i <= n,
            pos == start + 4 * i,
            start + 4 * n <= b@.len(),
            r@ + read_u32s(b@.skip(pos as int), (n - i) as nat) == read_u32s(b@.skip(start as int), n as nat),
        decreases n - i,
    {
        let v: u32 = (b[pos] as u32) + 256 * (b[pos + 1] as u32) + 65536 * (b[pos + 2] as u32)
            + 16777216 * (b[pos + 3] as u32);
        proof {
            let t = b@.skip(pos as int);
            assert(t.skip(4) =~= b@.skip(pos + 4));
            assert(read_u32s(t, (n - i) as nat) == seq![u32_from_le(t)] + read_u32s(t.skip(4), (n - i - 1) as nat));
            assert(v == u32_from_le(t));
            assert(r@.push(v) + read_u32s(t.skip(4), (n - i - 1) as nat) =~= r@ + read_u32s(t, (n - i) as nat));
        }
        r.push(v);
        i = i + 1;
        pos = pos + 4;
    }
    assert(r@ + read_u32s(b@.skip(pos as int), 0) =~= r@);
    r
}

} // verus!

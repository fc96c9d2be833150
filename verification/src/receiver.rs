//! Host-side decoding of the dashboard's replies: trimming the zero padding of
//! text replies and the hex dump of a raw block.

use vstd::prelude::*;

verus! {

/// Text part of a zero-padded reply (signature or version): the bytes up to
/// and including the last non-zero byte.
pub fn trim_trailing_nuls(bytes: &[u8]) -> (r: &[u8])
    ensures
        r@.len() <= bytes@.len(),
        r@ == bytes@.subrange(0, r@.len() as int),
        r@.len() == 0 || bytes@[r@.len() - 1] != 0,
        forall|i: int| r@.len() <= i < bytes@.len() ==> bytes@[i] == 0,
{
    let mut end = bytes.len();
    while end > 0 && bytes[end - 1] == 0
        invariant
            end <= bytes@.len(),
            forall|i: int| end <= i < bytes@.len() ==> bytes@[i] == 0,
        decreases end,
    {
        end = end - 1;
    }
    vstd::slice::slice_subrange(bytes, 0, end)
}

/// ASCII lower-case hex digit of a value below 16.
pub open spec fn hex_digit(n: int) -> u8 {
    if n < 10 {
        (48 + n) as u8
    } else {
        (87 + n) as u8
    }
}

/// Two hex digits of a byte.
pub open spec fn hex_byte(b: u8) -> Seq<u8> {
    seq![hex_digit(b as int / 16), hex_digit(b as int % 16)]
}

/// Four hex digits of an offset below 0x10000.
pub open spec fn hex_offset(v: int) -> Seq<u8> {
    seq![hex_digit(v / 4096), hex_digit((v / 256) % 16), hex_digit((v / 16) % 16), hex_digit(v % 16)]
}

/// Each byte as two hex digits followed by a space.
pub open spec fn hex_bytes(s: Seq<u8>) -> Seq<u8>
    decreases s.len(),
{
    if s.len() == 0 {
        Seq::empty()
    } else {
        hex_bytes(s.drop_last()) + hex_byte(s.last()) + seq![32u8]
    }
}

/// Line `k` of the dump: "oooo: " with the offset `16 * k`, the bytes of the
/// chunk in hex, and a newline.
pub open spec fn dump_line(bytes: Seq<u8>, k: int) -> Seq<u8> {
    let start = 16 * k;
    let end = if start + 16 < bytes.len() { start + 16 } else { bytes.len() as int };
    hex_offset(start) + seq![58u8, 32u8] + hex_bytes(bytes.subrange(start, end)) + seq![10u8]
}

/// The first `k` lines of the dump.
pub open spec fn dump_lines(bytes: Seq<u8>, k: nat) -> Seq<u8>
    decreases k,
{
    if k == 0 {
        Seq::empty()
    } else {
        dump_lines(bytes, (k - 1) as nat) + dump_line(bytes, k - 1)
    }
}

/// Number of 16-byte lines needed for `n` bytes.
pub open spec fn line_count(n: nat) -> nat {
    (n + 15) / 16
}

fn hex_digit_exec(n: u8) -> (r: u8)
    requires
        n < 16,
    ensures
        r == hex_digit(n as int),
{
    if n < 10 {
        48 + n
    } else {
        87 + n
    }
}

fn push_dump_line(out: &mut Vec<u8>, bytes: &[u8], start: usize, Ghost(k): Ghost<int>)
    requires
        start == 16 * k,
        0 <= k,
        start < bytes@.len() <= 0x10000,
    ensures
        final(out)@ == old(out)@ + dump_line(bytes@, k),
{
    let n = bytes.len();
    let end = if start + 16 < n {
        start + 16
    } else {
        n
    };
    out.push(hex_digit_exec((start / 4096) as u8));
    out.push(hex_digit_exec(((start / 256) % 16) as u8));
    out.push(hex_digit_exec(((start / 16) % 16) as u8));
    out.push(hex_digit_exec((start % 16) as u8));
    out.push(58);
    out.push(32);
    let ghost line_head = out@;
    assert(line_head == old(out)@ + hex_offset(start as int) + seq![58u8, 32u8]);
    let mut i: usize = start;
    while i < end
        invariant
            n == bytes@.len(),
            start <= i <= end <= n,
            out@ == line_head + hex_bytes(bytes@.subrange(start as int, i as int)),
        decreases end - i,
    {
        let b = bytes[i];
        out.push(hex_digit_exec(b / 16));
        out.push(hex_digit_exec(b % 16));
        out.push(32);
        proof {
            let sub = bytes@.subrange(start as int, i + 1);
            assert(sub.drop_last() =~= bytes@.subrange(start as int, i as int));
            assert(sub.last() == b);
        }
        i = i + 1;
    }
    out.push(10);
    assert(out@ =~= old(out)@ + dump_line(bytes@, k));
}

/// Hex dump of `bytes` as ASCII text, sixteen bytes per line, each line
/// prefixed with its offset in four hex digits.
pub fn hex_dump(bytes: &[u8]) -> (r: Vec<u8>)
    requires
        bytes@.len() <= 0x10000,
    ensures
        r@ == dump_lines(bytes@, line_count(bytes@.len() as nat)),
{
    let n = bytes.len();
    let mut out: Vec<u8> = Vec::new();
    let mut start: usize = 0;
    let ghost mut k: nat = 0;
    while start < n
        invariant
            n == bytes@.len(),
            n <= 0x10000,
            start <= n,
            start < n ==> start == 16 * k && k < line_count(n as nat),
            start >= n ==> k == line_count(n as nat),
            out@ == dump_lines(bytes@, k),
        decreases n - start,
    {
        push_dump_line(&mut out, bytes, start, Ghost(k as int));
        proof {
            k = k + 1;
        }
        start = if start + 16 < n {
            start + 16
        } else {
            n
        };
    }
    out
}

} // verus!

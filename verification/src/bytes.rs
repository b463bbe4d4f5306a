//! Byte-level building blocks for the GPU buffer encoding.
//!
//! The shader consumes fixed-size buffers whose fields sit at fixed offsets,
//! with zero padding between fields and after the last meaningful byte. The
//! functions here concatenate field encodings and cut or pad the result to
//! the exact buffer size.

use vstd::prelude::*;

verus! {

/// A run of `n` zero bytes, used for alignment padding.
pub open spec fn zero_bytes(n: nat) -> Seq<u8> {
    Seq::new(n, |i: int| 0u8)
}

/// The little-endian four-byte encoding of a 32-bit value.
pub open spec fn u32_le(x: u32) -> Seq<u8> {
    seq![
        (x & 0xff) as u8,
        ((x >> 8) & 0xff) as u8,
        ((x >> 16) & 0xff) as u8,
        ((x >> 24) & 0xff) as u8,
    ]
}

/// All parts joined together, in order.
pub open spec fn concat_bytes(parts: Seq<Seq<u8>>) -> Seq<u8>
    decreases parts.len(),
{
    if parts.len() == 0 {
        Seq::empty()
    } else {
        concat_bytes(parts.drop_last()) + parts.last()
    }
}

/// `s` cut, or padded with zeros, to exactly `n` bytes.
///
/// Cutting is how the encoder truncates a scene with more objects or lights
/// than its fixed buffer holds; padding fills the buffer tail.
pub open spec fn fit_bytes(s: Seq<u8>, n: nat) -> Seq<u8> {
    if s.len() >= n {
        s.take(n as int)
    } else {
        s + zero_bytes((n - s.len()) as nat)
    }
}

/// The byte strings that a slice of byte slices refers to.
pub open spec fn views_of(parts: Seq<&[u8]>) -> Seq<Seq<u8>> {
    parts.map_values(|p: &[u8]| p@)
}

/// The byte strings held in a vector of byte vectors.
pub open spec fn views_of_vecs(parts: Seq<Vec<u8>>) -> Seq<Seq<u8>> {
    parts.map_values(|p: Vec<u8>| p@)
}

/// A type with a fixed-layout byte encoding, packed with the shader's
/// alignment rules.
pub trait AsBytes {
    /// The exact bytes that `as_bytes` produces.
    spec fn spec_bytes(&self) -> Seq<u8>;

    /// Get the value represented as bytes, packed with the shader's rules.
    fn as_bytes(&self) -> (r: Vec<u8>)
        ensures
            r@ == self.spec_bytes(),
    ;
}

/// Appends the little-endian bytes of `x`.
pub fn push_u32_le(out: &mut Vec<u8>, x: u32)
    ensures
        final(out)@ == old(out)@ + u32_le(x),
{
    out.push((x & 0xff) as u8);
    out.push(((x >> 8) & 0xff) as u8);
    out.push(((x >> 16) & 0xff) as u8);
    out.push(((x >> 24) & 0xff) as u8);
    assert(out@ =~= old(out)@ + u32_le(x));
}

/// Appends `n` zero bytes.
pub fn push_zero_bytes(out: &mut Vec<u8>, n: usize)
    ensures
        final(out)@ == old(out)@ + zero_bytes(n as nat),
{
    let mut k: usize = 0;
    while k < n
        invariant
            k <= n,
            out@ == old(out)@ + zero_bytes(k as nat),
        decreases n - k,
    {
        out.push(0u8);
        assert(out@ =~= old(out)@ + zero_bytes((k + 1) as nat));
        k += 1;
    }
}

/// Cuts or zero-pads `out` to exactly `n` bytes.
fn fit_vec(out: &mut Vec<u8>, n: usize)
    ensures
        final(out)@ == fit_bytes(old(out)@, n as nat),
{
    if out.len() >= n {
        out.truncate(n);
    } else {
        let ghost base = out@;
        let mut k: usize = out.len();
        while k < n
            invariant
                k <= n,
                k == out@.len(),
                out@ == base + zero_bytes((k - base.len()) as nat),
            decreases n - k,
        {
            out.push(0u8);
            assert(out@ =~= base + zero_bytes((k + 1 - base.len()) as nat));
            k += 1;
        }
    }
}

/// The character for one hexadecimal digit.
pub open spec fn hex_char(n: u8) -> char
    recommends
        n < 16,
{
    if n == 0 {
        '0'
    } else if n == 1 {
        '1'
    } else if n == 2 {
        '2'
    } else if n == 3 {
        '3'
    } else if n == 4 {
        '4'
    } else if n == 5 {
        '5'
    } else if n == 6 {
        '6'
    } else if n == 7 {
        '7'
    } else if n == 8 {
        '8'
    } else if n == 9 {
        '9'
    } else if n == 10 {
        'a'
    } else if n == 11 {
        'b'
    } else if n == 12 {
        'c'
    } else if n == 13 {
        'd'
    } else if n == 14 {
        'e'
    } else {
        'f'
    }
}

/// The text printed for the byte at index `i` of a dump: a space before each
/// group of four, a newline before each group of sixteen, then the two hex
/// digits and a trailing space.
pub open spec fn hex_entry(i: int, b: u8) -> Seq<char> {
    (if i % 4 == 0 {
        seq![' ']
    } else {
        Seq::empty()
    }) + (if i % 16 == 0 {
        seq!['\n']
    } else {
        Seq::empty()
    }) + seq![hex_char(b / 16), hex_char(b % 16), ' ']
}

/// The whole hexadecimal dump of a byte string.
pub open spec fn hex_dump(bytes: Seq<u8>) -> Seq<char>
    decreases bytes.len(),
{
    if bytes.len() == 0 {
        Seq::empty()
    } else {
        hex_dump(bytes.drop_last()) + hex_entry(bytes.len() - 1, bytes.last())
    }
}

/// The one-character text for a hexadecimal digit.
fn hex_digit_str(n: u8) -> (r: &'static str)
    requires
        n < 16,
    ensures
        r@ == seq![hex_char(n)],
{
    proof {
        reveal_strlit("0");
        reveal_strlit("1");
        reveal_strlit("2");
        reveal_strlit("3");
        reveal_strlit("4");
        reveal_strlit("5");
        reveal_strlit("6");
        reveal_strlit("7");
        reveal_strlit("8");
        reveal_strlit("9");
        reveal_strlit("a");
        reveal_strlit("b");
        reveal_strlit("c");
        reveal_strlit("d");
        reveal_strlit("e");
        reveal_strlit("f");
    }
    match n {
        0 => "0",
        1 => "1",
        2 => "2",
        3 => "3",
        4 => "4",
        5 => "5",
        6 => "6",
        7 => "7",
        8 => "8",
        9 => "9",
        10 => "a",
        11 => "b",
        12 => "c",
        13 => "d",
        14 => "e",
        _ => "f",
    }
}

/// Returns a string of the bytes in hexadecimal, in groups of four bytes,
/// sixteen to a line.
pub fn show_bytes(bytes: &[u8]) -> (s: String)
    ensures
        s@ == hex_dump(bytes@),
{
    let mut s = String::new();
    let mut i: usize = 0;
    while i < bytes.len()
        invariant
            i <= bytes@.len(),
            s@ == hex_dump(bytes@.take(i as int)),
        decreases bytes@.len() - i,
    {
        proof {
            reveal_strlit(" ");
            reveal_strlit("\n");
        }
        if i % 4 == 0 {
            s.append(" ");
        }
        if i % 16 == 0 {
            s.append("\n");
        }
        let b = bytes[i];
        s.append(hex_digit_str(b / 16));
        s.append(hex_digit_str(b % 16));
        s.append(" ");
        proof {
            assert(bytes@.take(i + 1).drop_last() =~= bytes@.take(i as int));
            assert(s@ =~= hex_dump(bytes@.take(i as int)) + hex_entry(i as int, b));
        }
        i += 1;
    }
    proof {
        assert(bytes@.take(bytes@.len() as int) =~= bytes@);
    }
    s
}

/// Returns a string of the bytes in hexadecimal, in groups of four bytes,
/// sixteen to a line.
pub fn print_bytes(bytes: &[u8]) -> (s: String)
    ensures
        s@ == hex_dump(bytes@),
{
    show_bytes(bytes)
}

/// Concatenates byte slices, cut or zero-padded to exactly `n` bytes.
pub fn bytes_concat_n(array: &[&[u8]], n: usize) -> (r: Vec<u8>)
    ensures
        r@ == fit_bytes(concat_bytes(views_of(array@)), n as nat),
        r@.len() == n,
{
    let ghost parts = views_of(array@);
    let mut all: Vec<u8> = Vec::new();
    let mut i: usize = 0;
    while i < array.len()
        invariant
            i <= array.len(),
            parts == views_of(array@),
            all@ == concat_bytes(parts.take(i as int)),
        decreases array.len() - i,
    {
        all.extend_from_slice(array[i]);
        proof {
            assert(parts.take(i + 1).drop_last() =~= parts.take(i as int));
            assert(parts.take(i + 1).last() == array@[i as int]@);
        }
        i += 1;
    }
    proof {
        assert(parts.take(array@.len() as int) =~= parts);
    }
    fit_vec(&mut all, n);
    all
}

/// Concatenates equally sized byte chunks, cut or zero-padded to exactly
/// `n` bytes.
///
/// The chunks are the per-element encodings of a buffer; when `n` is a
/// multiple of the chunk size, cutting drops only whole trailing chunks.
pub fn bytes_concat_fixed_in_n(array: &[Vec<u8>], n: usize) -> (r: Vec<u8>)
    ensures
        r@ == fit_bytes(concat_bytes(views_of_vecs(array@)), n as nat),
        r@.len() == n,
{
    let ghost parts = views_of_vecs(array@);
    let mut all: Vec<u8> = Vec::new();
    let mut i: usize = 0;
    while i < array.len()
        invariant
            i <= array.len(),
            parts == views_of_vecs(array@),
            all@ == concat_bytes(parts.take(i as int)),
        decreases array.len() - i,
    {
        all.extend_from_slice(array[i].as_slice());
        proof {
            assert(parts.take(i + 1).drop_last() =~= parts.take(i as int));
            assert(parts.take(i + 1).last() == array@[i as int]@);
        }
        i += 1;
    }
    proof {
        assert(parts.take(array@.len() as int) =~= parts);
    }
    fit_vec(&mut all, n);
    all
}

} // verus!

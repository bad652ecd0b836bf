use vstd::prelude::*;

use orbclient::Color;

verus! {

/// Byte `k` (0 to 3, least significant first) of a color's packed value: the
/// color's bytes as they lie in memory on a little-endian machine.
pub open spec fn color_byte(c: Color, k: int) -> u8 {
    if k == 0 {
        (c.data & 0xFFu32) as u8
    } else if k == 1 {
        ((c.data >> 8u32) & 0xFFu32) as u8
    } else if k == 2 {
        ((c.data >> 16u32) & 0xFFu32) as u8
    } else {
        ((c.data >> 24u32) & 0xFFu32) as u8
    }
}

/// The colors laid out as four bytes each, least significant byte first.
pub open spec fn bytes_of(s: Seq<Color>) -> Seq<u8> {
    Seq::new(4 * s.len(), |i: int| color_byte(s[i / 4], i % 4))
}

/// The packed value whose bytes, least significant first, are `b0` to `b3`.
pub open spec fn pack(b0: u8, b1: u8, b2: u8, b3: u8) -> u32 {
    (b0 as u32) | ((b1 as u32) << 8u32) | ((b2 as u32) << 16u32) | ((b3 as u32) << 24u32)
}

/// The colors packed from each group of four bytes; a trailing partial group
/// is left out.
pub open spec fn colors_of(b: Seq<u8>) -> Seq<Color> {
    Seq::new(
        b.len() / 4,
        |i: int| Color { data: pack(b[4 * i], b[4 * i + 1], b[4 * i + 2], b[4 * i + 3]) },
    )
}

/// Laying colors out as bytes loses nothing: packing the bytes back gives the
/// same colors.
pub proof fn lemma_bytes_round_trip(s: Seq<Color>)
    ensures
        colors_of(bytes_of(s)) == s,
{
    let b = bytes_of(s);
    assert forall|i: int| 0 <= i < s.len() implies #[trigger] colors_of(b)[i] == s[i] by {
        assert((4 * i) / 4 == i && (4 * i + 1) / 4 == i && (4 * i + 2) / 4 == i && (4 * i + 3) / 4
            == i);
        assert((4 * i) % 4 == 0 && (4 * i + 1) % 4 == 1 && (4 * i + 2) % 4 == 2 && (4 * i + 3) % 4
            == 3);
        let d = s[i].data;
        assert(((d & 0xFFu32) as u8 as u32) | ((((d >> 8u32) & 0xFFu32) as u8 as u32) << 8u32) | ((
        ((d >> 16u32) & 0xFFu32) as u8 as u32) << 16u32) | ((((d >> 24u32) & 0xFFu32) as u8 as u32)
            << 24u32) == d) by (bit_vector);
    }
    assert(colors_of(b) =~= s);
}

/// Lays the colors out as bytes, four per color, least significant first.
pub fn to_bytes(colors: &[Color]) -> (r: Vec<u8>)
    requires
        4 * colors@.len() <= usize::MAX,
    ensures
        r@ == bytes_of(colors@),
{
    let n = colors.len();
    let mut out: Vec<u8> = Vec::with_capacity(4 * n);
    let mut i: usize = 0;
    while i < n
        invariant
            n == colors@.len(),
            4 * n <= usize::MAX,
            i <= n,
            out@.len() == 4 * i,
            forall|j: int|
                #![trigger out@[j]]
                0 <= j < 4 * i ==> out@[j] == color_byte(colors@[j / 4], j % 4),
        decreases n - i,
    {
        let d: u32 = colors[i].data;
        let ghost prev = out@;
        out.push((d & 0xFFu32) as u8);
        out.push(((d >> 8u32) & 0xFFu32) as u8);
        out.push(((d >> 16u32) & 0xFFu32) as u8);
        out.push(((d >> 24u32) & 0xFFu32) as u8);
        assert forall|j: int| #![trigger out@[j]] 0 <= j < 4 * (i + 1) implies out@[j] == color_byte(
            colors@[j / 4],
            j % 4,
        ) by {
            if j < 4 * i {
                assert(out@[j] == prev[j]);
            } else {
                assert(j / 4 == i);
            }
        }
        i = i + 1;
    }
    assert(out@ =~= bytes_of(colors@));
    out
}

/// Packs each group of four bytes, least significant first, into a color.
pub fn to_colors(bytes: &[u8]) -> (r: Vec<Color>)
    ensures
        r@ == colors_of(bytes@),
{
    let n = bytes.len() / 4;
    let mut out: Vec<Color> = Vec::with_capacity(n);
    let mut i: usize = 0;
    while i < n
        invariant
            n == bytes@.len() / 4,
            bytes@.len() <= usize::MAX,
            i <= n,
            out@.len() == i,
            forall|j: int|
                #![trigger out@[j]]
                0 <= j < i ==> out@[j] == (Color {
                    data: pack(
                        bytes@[4 * j],
                        bytes@[4 * j + 1],
                        bytes@[4 * j + 2],
                        bytes@[4 * j + 3],
                    ),
                }),
        decreases n - i,
    {
        assert(4 * i + 3 < bytes@.len());
        let k: usize = 4 * i;
        let data: u32 = (bytes[k] as u32) | ((bytes[k + 1] as u32) << 8u32) | ((bytes[k + 2] as u32)
            << 16u32) | ((bytes[k + 3] as u32) << 24u32);
        out.push(Color { data });
        i = i + 1;
    }
    assert(out@ =~= colors_of(bytes@));
    out
}

} // verus!

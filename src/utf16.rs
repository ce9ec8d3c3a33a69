//! UTF-16 as it crosses the boundary: the code units of a text, their
//! little-endian bytes, and the facts that make the encoding reversible.
use vstd::prelude::*;

verus! {

/// A unit that opens a surrogate pair.
pub open spec fn is_high_surrogate(u: u16) -> bool {
    0xD800 <= u <= 0xDBFF
}

/// A unit that closes a surrogate pair.
pub open spec fn is_low_surrogate(u: u16) -> bool {
    0xDC00 <= u <= 0xDFFF
}

/// The code units of one character: one unit below U+10000, else a
/// surrogate pair.
pub open spec fn char_units(c: char) -> Seq<u16> {
    let v = c as u32 as int;
    if v < 0x10000 {
        seq![v as u16]
    } else {
        seq![(0xD800 + (v - 0x10000) / 0x400) as u16, (0xDC00 + (v - 0x10000) % 0x400) as u16]
    }
}

/// The UTF-16 code units of a text.
pub open spec fn utf16_of(s: Seq<char>) -> Seq<u16>
    decreases s.len(),
{
    if s.len() == 0 {
        seq![]
    } else {
        utf16_of(s.drop_last()) + char_units(s.last())
    }
}

/// The units are the UTF-16 encoding of some text.
pub open spec fn is_utf16(units: Seq<u16>) -> bool {
    exists|t: Seq<char>| utf16_of(t) == units
}

/// Each unit as two bytes, low byte first.
pub open spec fn le_bytes(units: Seq<u16>) -> Seq<u8> {
    Seq::new(
        2 * units.len(),
        |i: int|
            if i % 2 == 0 {
                (units[i / 2] % 256) as u8
            } else {
                (units[i / 2] / 256) as u8
            },
    )
}

/// The bytes are the UTF-16LE encoding of some text.
pub open spec fn is_utf16_le(bytes: Seq<u8>) -> bool {
    exists|t: Seq<char>| le_bytes(utf16_of(t)) == bytes
}

proof fn lemma_char_units_shape(c: char)
    ensures
        char_units(c).len() == 1 ==> !is_high_surrogate(char_units(c)[0]) && !is_low_surrogate(
            char_units(c)[0],
        ),
        char_units(c).len() == 2 ==> is_high_surrogate(char_units(c)[0]) && is_low_surrogate(
            char_units(c)[1],
        ),
        1 <= char_units(c).len() <= 2,
{
    let v = c as u32 as int;
    if v >= 0x10000 {
        assert((v - 0x10000) / 0x400 <= 0x3FF);
    }
}

proof fn lemma_char_units_injective(c: char, d: char)
    requires
        char_units(c) == char_units(d),
    ensures
        c == d,
{
    let v = c as u32 as int;
    let w = d as u32 as int;
    if v >= 0x10000 && w >= 0x10000 {
        let a = v - 0x10000;
        let b = w - 0x10000;
        assert(char_units(c)[0] == char_units(d)[0]);
        assert(char_units(c)[1] == char_units(d)[1]);
        assert(a / 0x400 <= 0x3FF);
        assert(b / 0x400 <= 0x3FF);
        assert(a / 0x400 == b / 0x400);
        assert(a % 0x400 == b % 0x400);
        assert(a == b) by (nonlinear_arith)
            requires
                a / 0x400 == b / 0x400,
                a % 0x400 == b % 0x400,
                a >= 0,
                b >= 0,
        ;
        assert(v == w);
    } else if v < 0x10000 && w < 0x10000 {
        assert(char_units(c) == seq![v as u16]);
        assert(char_units(d) == seq![w as u16]);
        assert(seq![v as u16][0] == v as u16);
        assert(seq![w as u16][0] == w as u16);
        assert(v as u16 == w as u16);
        assert(v == w);
    } else {
        assert(char_units(c).len() != char_units(d).len());
    }
}

/// UTF-16 encoding is injective: two texts with the same code units are the
/// same text.
pub proof fn lemma_utf16_injective(s: Seq<char>, t: Seq<char>)
    requires
        utf16_of(s) == utf16_of(t),
    ensures
        s == t,
    decreases s.len() + t.len(),
{
    if s.len() == 0 || t.len() == 0 {
        if s.len() != 0 {
            lemma_char_units_shape(s.last());
            assert(utf16_of(s).len() >= 1);
        }
        if t.len() != 0 {
            lemma_char_units_shape(t.last());
            assert(utf16_of(t).len() >= 1);
        }
    } else {
        let u = utf16_of(s);
        let cs = char_units(s.last());
        let ct = char_units(t.last());
        lemma_char_units_shape(s.last());
        lemma_char_units_shape(t.last());
        assert(u.last() == cs.last());
        assert(u.last() == ct.last());
        assert(cs.len() == ct.len());
        if cs.len() == 2 {
            assert(u[u.len() - 2] == cs[0]);
            assert(u[u.len() - 2] == ct[0]);
        }
        assert(cs =~= ct);
        lemma_char_units_injective(s.last(), t.last());
        assert(utf16_of(s.drop_last()) =~= u.subrange(0, u.len() - cs.len()));
        assert(utf16_of(t.drop_last()) =~= u.subrange(0, u.len() - ct.len()));
        lemma_utf16_injective(s.drop_last(), t.drop_last());
        assert(s =~= s.drop_last().push(s.last()));
        assert(t =~= t.drop_last().push(t.last()));
    }
}

/// Round trip: the UTF-16 units of any text are well-formed, and the only
/// text they decode to is the text itself.
pub proof fn lemma_round_trip(t: Seq<char>, s: Seq<char>)
    ensures
        is_utf16(utf16_of(t)),
        utf16_of(s) == utf16_of(t) ==> s == t,
{
    if utf16_of(s) == utf16_of(t) {
        lemma_utf16_injective(s, t);
    }
}

/// Little-endian byte order loses nothing: equal bytes mean equal units.
pub proof fn lemma_le_bytes_injective(a: Seq<u16>, b: Seq<u16>)
    requires
        le_bytes(a) == le_bytes(b),
    ensures
        a == b,
{
    assert(le_bytes(a).len() == 2 * a.len());
    assert(le_bytes(b).len() == 2 * b.len());
    assert(a.len() == b.len());
    assert forall|i: int| 0 <= i < a.len() implies a[i] == b[i] by {
        assert(le_bytes(a)[2 * i] == le_bytes(b)[2 * i]);
        assert(le_bytes(a)[2 * i + 1] == le_bytes(b)[2 * i + 1]);
        assert((2 * i) / 2 == i);
        assert((2 * i + 1) / 2 == i);
        assert((2 * i) % 2 == 0);
        assert((2 * i + 1) % 2 == 1);
        let x = a[i] as int;
        let y = b[i] as int;
        assert(le_bytes(a)[2 * i] == (a[i] % 256) as u8);
        assert(le_bytes(b)[2 * i] == (b[i] % 256) as u8);
        assert(le_bytes(a)[2 * i + 1] == (a[i] / 256) as u8);
        assert(le_bytes(b)[2 * i + 1] == (b[i] / 256) as u8);
        assert(x % 256 == y % 256);
        assert(x / 256 == y / 256);
        assert(x == y) by (nonlinear_arith)
            requires
                x % 256 == y % 256,
                x / 256 == y / 256,
                x >= 0,
                y >= 0,
        ;
    }
    assert(a =~= b);
}

proof fn lemma_utf16_push(s: Seq<char>, c: char)
    ensures
        utf16_of(s.push(c)) == utf16_of(s) + char_units(c),
{
    assert(s.push(c).drop_last() =~= s);
}

/// The UTF-16 code units of a text.
pub fn encode_utf16(s: &str) -> (r: Vec<u16>)
    ensures
        r@ == utf16_of(s@),
{
    let mut r: Vec<u16> = Vec::new();
    let n: usize = s.unicode_len();
    let mut i: usize = 0;
    while i < n
        invariant
            n == s@.len(),
            i <= n,
            r@ == utf16_of(s@.take(i as int)),
        decreases n - i,
    {
        let c = s.get_char(i);
        let v: u32 = c as u32;
        proof {
            lemma_utf16_push(s@.take(i as int), c);
            assert(s@.take(i as int).push(c) =~= s@.take(i + 1));
        }
        if v < 0x10000 {
            r.push(v as u16);
        } else {
            let w: u32 = v - 0x10000;
            r.push((0xD800 + w / 0x400) as u16);
            r.push((0xDC00 + w % 0x400) as u16);
        }
        assert(r@ == utf16_of(s@.take(i as int)) + char_units(c));
        i = i + 1;
    }
    assert(s@.take(n as int) =~= s@);
    r
}

/// Each unit as two bytes, low byte first.
pub fn to_le_bytes(units: &[u16]) -> (r: Vec<u8>)
    requires
        2 * units@.len() <= usize::MAX,
    ensures
        r@ == le_bytes(units@),
{
    let mut r: Vec<u8> = Vec::new();
    let mut i: usize = 0;
    while i < units.len()
        invariant
            i <= units@.len(),
            r@ =~= le_bytes(units@.take(i as int)),
        decreases units@.len() - i,
    {
        let u = units[i];
        r.push((u % 256) as u8);
        r.push((u / 256) as u8);
        assert(r@ =~= le_bytes(units@.take(i + 1))) by {
            let t = units@.take(i + 1);
            assert forall|k: int| 0 <= k < 2 * t.len() implies #[trigger] r@[k] == le_bytes(t)[k] by {
                if k < 2 * i {
                    assert(le_bytes(units@.take(i as int))[k] == le_bytes(t)[k]);
                } else {
                    assert(k / 2 == i);
                }
            }
        }
        i = i + 1;
    }
    assert(units@.take(units@.len() as int) =~= units@);
    r
}

} // verus!

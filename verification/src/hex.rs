//! Hexadecimal text for bytes and command words.
use crate::text;
use vstd::prelude::*;
use vstd::string::*;
use vstd::utf8::*;

verus! {

// ---------------------------------------------------------------------------
// Digits
// ---------------------------------------------------------------------------

/// The character of a hexadecimal digit.
pub open spec fn hex_char(d: nat, upper: bool) -> char
    recommends
        d < 16,
{
    if d < 10 {
        (48 + d) as char
    } else if upper {
        (55 + d) as char
    } else {
        (87 + d) as char
    }
}

fn hex_digit(d: u8, upper: bool) -> (r: char)
    requires
        d < 16,
    ensures
        r == hex_char(d as nat, upper),
{
    if d < 10 {
        (48 + d) as char
    } else if upper {
        (55 + d) as char
    } else {
        (87 + d) as char
    }
}

/// The value of a hexadecimal digit character, in either case.
pub open spec fn hex_value(b: u8) -> Option<u8> {
    if 48 <= b <= 57 {
        Some((b - 48) as u8)
    } else if 65 <= b <= 70 {
        Some((b - 55) as u8)
    } else if 97 <= b <= 102 {
        Some((b - 87) as u8)
    } else {
        None
    }
}

fn digit_value(b: u8) -> (r: Option<u8>)
    ensures
        r == hex_value(b),
{
    if 48 <= b && b <= 57 {
        Some(b - 48)
    } else if 65 <= b && b <= 70 {
        Some(b - 55)
    } else if 97 <= b && b <= 102 {
        Some(b - 87)
    } else {
        None
    }
}

// ---------------------------------------------------------------------------
// Writing
// ---------------------------------------------------------------------------

/// A byte as two digits.
pub open spec fn byte_text(b: u8, upper: bool) -> Seq<char> {
    seq![hex_char(b as nat / 16, upper), hex_char(b as nat % 16, upper)]
}

/// A command word as four upper-case digits.
pub open spec fn word_text(w: u16) -> Seq<char> {
    byte_text((w / 256) as u8, true) + byte_text((w % 256) as u8, true)
}

/// Bytes as lower-case digits, two a byte, with nothing between them.
pub open spec fn bytes_text(data: Seq<u8>) -> Seq<char> {
    Seq::new(
        2 * data.len(),
        |i: int|
            hex_char(
                if i % 2 == 0 {
                    data[i / 2] as nat / 16
                } else {
                    data[i / 2] as nat % 16
                },
                false,
            ),
    )
}

/// Bytes as pairs of digits with a comma between each two.
pub open spec fn list_text(data: Seq<u8>, upper: bool) -> Seq<char>
    decreases data.len(),
{
    if data.len() == 0 {
        Seq::empty()
    } else if data.len() == 1 {
        byte_text(data[0], upper)
    } else {
        list_text(data.drop_last(), upper) + ","@ + byte_text(data.last(), upper)
    }
}

fn push_byte(out: &mut String, b: u8, upper: bool)
    ensures
        final(out)@ == old(out)@ + byte_text(b, upper),
{
    let ghost before = out@;
    out.push(hex_digit(b / 16, upper));
    out.push(hex_digit(b % 16, upper));
    proof {
        assert(out@ =~= before + byte_text(b, upper));
    }
}

/// A command word as four upper-case digits.
pub fn word_to_hex(w: u16) -> (r: String)
    ensures
        r@ == word_text(w),
{
    let mut r = String::new();
    push_byte(&mut r, (w / 256) as u8, true);
    push_byte(&mut r, (w % 256) as u8, true);
    proof {
        assert(r@ =~= word_text(w));
    }
    r
}

/// Bytes as lower-case hexadecimal text.
pub fn bytes_to_hex(data: &[u8]) -> (r: String)
    ensures
        r@ == bytes_text(data@),
{
    let mut r = String::new();
    let mut i: usize = 0;
    while i < data.len()
        invariant
            i <= data@.len(),
            r@ == bytes_text(data@.subrange(0, i as int)),
        decreases data@.len() - i,
    {
        push_byte(&mut r, data[i], false);
        proof {
            assert(r@ =~= bytes_text(data@.subrange(0, i + 1)));
        }
        i += 1;
    }
    proof {
        assert(data@.subrange(0, data@.len() as int) =~= data@);
    }
    r
}

/// Bytes as comma-separated hexadecimal text.
pub fn list_to_hex(data: &[u8], upper: bool) -> (r: String)
    ensures
        r@ == list_text(data@, upper),
{
    let mut r = String::new();
    let mut i: usize = 0;
    while i < data.len()
        invariant
            i <= data@.len(),
            r@ == list_text(data@.subrange(0, i as int), upper),
        decreases data@.len() - i,
    {
        proof {
            let w = data@.subrange(0, i + 1);
            assert(w.drop_last() =~= data@.subrange(0, i as int));
            assert(w.last() == data@[i as int]);
        }
        if i > 0 {
            r.append(",");
        }
        push_byte(&mut r, data[i], upper);
        proof {
            assert(r@ =~= list_text(data@.subrange(0, i + 1), upper));
        }
        i += 1;
    }
    proof {
        assert(data@.subrange(0, data@.len() as int) =~= data@);
    }
    r
}

// ---------------------------------------------------------------------------
// Reading
// ---------------------------------------------------------------------------

/// The byte that two characters spell: two digits, or a plus sign and one digit.
pub open spec fn pair_value(a: u8, b: u8) -> Option<u8> {
    match hex_value(b) {
        None => None,
        Some(lo) => match hex_value(a) {
            Some(hi) => Some((hi * 16 + lo) as u8),
            None => if a == 43 {
                Some(lo)
            } else {
                None
            },
        },
    }
}

/// The bytes that a text spells, pair by pair; a pair that spells none is skipped,
/// and so is a single byte at the end.
pub open spec fn pairs_value(b: Seq<u8>) -> Seq<u8>
    decreases b.len(),
{
    if b.len() < 2 {
        Seq::empty()
    } else {
        let rest = pairs_value(b.subrange(2, b.len() as int));
        match pair_value(b[0], b[1]) {
            Some(v) => seq![v] + rest,
            None => rest,
        }
    }
}

/// No pair of bytes cuts a character of the text in two.
pub open spec fn splits_in_pairs(hex: Seq<char>) -> bool {
    let b = encode_utf8(hex);
    forall|k: int| 0 <= k && 2 * k <= b.len() ==> #[trigger] is_char_boundary(b, 2 * k)
}

proof fn lemma_pairs_value_step(b: Seq<u8>, i: int)
    requires
        0 <= i,
        i + 2 <= b.len(),
    ensures
        pairs_value(b.subrange(i, b.len() as int)) == (match pair_value(b[i], b[i + 1]) {
            Some(v) => seq![v],
            None => Seq::empty(),
        }) + pairs_value(b.subrange(i + 2, b.len() as int)),
{
    let w = b.subrange(i, b.len() as int);
    assert(w.subrange(2, w.len() as int) =~= b.subrange(i + 2, b.len() as int));
    assert(w[0] == b[i] && w[1] == b[i + 1]);
    let rest = pairs_value(b.subrange(i + 2, b.len() as int));
    assert(Seq::<u8>::empty() + rest =~= rest);
}

/// Reads hexadecimal text, two characters a byte.
pub fn hex_to_bytes(hex: &str) -> (r: Vec<u8>)
    requires
        splits_in_pairs(hex@),
    ensures
        r@ == pairs_value(encode_utf8(hex@)),
{
    let b = hex.as_bytes();
    let mut r: Vec<u8> = Vec::new();
    let mut i: usize = 0;
    let n: usize = b.len();
    proof {
        assert(b@.subrange(0, b@.len() as int) =~= b@);
        assert(Seq::<u8>::empty() + pairs_value(b@) =~= pairs_value(b@));
    }
    while n - i >= 2
        invariant
            n == b@.len(),
            i <= n,
            pairs_value(b@) == r@ + pairs_value(b@.subrange(i as int, n as int)),
        decreases n - i,
    {
        proof {
            lemma_pairs_value_step(b@, i as int);
        }
        let ghost before = r@;
        let ghost rest = pairs_value(b@.subrange(i + 2, n as int));
        match read_pair(b[i], b[i + 1]) {
            Some(v) => {
                r.push(v);
                proof {
                    assert(before + (seq![v] + rest) =~= r@ + rest);
                }
            },
            None => {
                proof {
                    assert(before + (Seq::<u8>::empty() + rest) =~= r@ + rest);
                }
            },
        }
        i += 2;
    }
    proof {
        assert(r@ + pairs_value(b@.subrange(i as int, n as int)) =~= r@);
    }
    r
}

fn read_pair(a: u8, b: u8) -> (r: Option<u8>)
    ensures
        r == pair_value(a, b),
{
    match digit_value(b) {
        None => None,
        Some(lo) => match digit_value(a) {
            Some(hi) => Some(hi * 16 + lo),
            None => if a == 43 {
                Some(lo)
            } else {
                None
            },
        },
    }
}

proof fn lemma_pairs_value_of(e: Seq<u8>, data: Seq<u8>)
    requires
        e.len() == 2 * data.len(),
        forall|k: int|
            0 <= k < data.len() ==> pair_value(#[trigger] e[2 * k], e[2 * k + 1]) == Some(data[k]),
    ensures
        pairs_value(e) == data,
    decreases data.len(),
{
    if data.len() == 0 {
        assert(data =~= Seq::empty());
    } else {
        let rest = e.subrange(2, e.len() as int);
        assert forall|k: int| 0 <= k < data.drop_first().len() implies pair_value(
            #[trigger] rest[2 * k],
            rest[2 * k + 1],
        ) == Some(data.drop_first()[k]) by {
            assert(rest[2 * k] == e[2 * (k + 1)]);
            assert(rest[2 * k + 1] == e[2 * (k + 1) + 1]);
        }
        lemma_pairs_value_of(rest, data.drop_first());
        let first: int = 0;
        assert(pair_value(e[2 * first], e[2 * first + 1]) == Some(data[first]));
        assert(pairs_value(e) =~= data);
    }
}

proof fn lemma_digit_round_trip(d: nat)
    requires
        d < 16,
    ensures
        hex_value(hex_char(d, false) as u8) == Some(d as u8),
        (hex_char(d, false) as u32) < 128,
{
}

/// Bytes written as hexadecimal text read back as the same bytes.
pub proof fn law_hex_round_trip(data: Seq<u8>)
    ensures
        splits_in_pairs(bytes_text(data)),
        pairs_value(encode_utf8(bytes_text(data))) == data,
{
    let t = bytes_text(data);
    assert forall|i: int| 0 <= i < t.len() implies (#[trigger] t[i] as u32) < 128 by {
        lemma_digit_round_trip(
            if i % 2 == 0 {
                data[i / 2] as nat / 16
            } else {
                data[i / 2] as nat % 16
            },
        );
    }
    assert(is_ascii_chars(t));
    is_ascii_chars_encode_utf8(t);
    let e = encode_utf8(t);
    assert forall|k: int| 0 <= k < data.len() implies pair_value(
        #[trigger] e[2 * k],
        e[2 * k + 1],
    ) == Some(data[k]) by {
        lemma_digit_round_trip(data[k] as nat / 16);
        lemma_digit_round_trip(data[k] as nat % 16);
        assert(e[2 * k] == t[2 * k] as u8);
        assert(e[2 * k + 1] == t[2 * k + 1] as u8);
    }
    lemma_pairs_value_of(e, data);
    encode_utf8_valid_utf8(t);
    assert forall|k: int| 0 <= k && 2 * k <= e.len() implies #[trigger] is_char_boundary(
        e,
        2 * k,
    ) by {
        is_char_boundary_start_end_of_seq(e);
        if 2 * k < e.len() {
            assert(e[2 * k] == t[2 * k] as u8);
            is_char_boundary_iff_not_is_continuation_byte(e, 2 * k);
        }
    }
}

/// The value of a run of hexadecimal digits, one at least.
pub open spec fn digits_value(s: Seq<char>) -> Option<nat>
    decreases s.len(),
{
    if s.len() == 0 {
        None
    } else {
        match char_value(s.last()) {
            None => None,
            Some(d) => if s.len() == 1 {
                Some(d)
            } else {
                match digits_value(s.drop_last()) {
                    None => None,
                    Some(v) => Some(v * 16 + d),
                }
            },
        }
    }
}

/// The value of a hexadecimal digit character.
pub open spec fn char_value(c: char) -> Option<nat> {
    if c as u32 >= 128 {
        None
    } else {
        match hex_value(c as u8) {
            Some(v) => Some(v as nat),
            None => None,
        }
    }
}

/// The byte that a text spells in hexadecimal, with or without a plus sign before it.
pub open spec fn byte_value(s: Seq<char>) -> Option<u8> {
    let t = if s.len() > 0 && s[0] == '+' {
        s.drop_first()
    } else {
        s
    };
    match digits_value(t) {
        Some(v) => if v < 256 {
            Some(v as u8)
        } else {
            None
        },
        None => None,
    }
}

proof fn lemma_digits_value_prefix(s: Seq<char>, i: int)
    requires
        0 < i <= s.len(),
        digits_value(s) is Some,
    ensures
        digits_value(s.subrange(0, i)) is Some,
        digits_value(s.subrange(0, i))->0 <= digits_value(s)->0,
    decreases s.len(),
{
    if i == s.len() {
        assert(s.subrange(0, i) =~= s);
    } else {
        lemma_digits_value_prefix(s.drop_last(), i);
        assert(s.drop_last().subrange(0, i) =~= s.subrange(0, i));
    }
}

/// Reads one byte in hexadecimal.
pub fn parse_byte(s: &str) -> (r: Option<u8>)
    ensures
        r == byte_value(s@),
{
    let c = text::chars_of(s);
    let start: usize = if c.len() > 0 && c[0] == '+' {
        1
    } else {
        0
    };
    let ghost t = s@.subrange(start as int, s@.len() as int);
    proof {
        if start == 1 {
            assert(t =~= s@.drop_first());
        } else {
            assert(t =~= s@);
        }
    }
    if start == c.len() {
        return None;
    }
    let mut v: u32 = 0;
    let mut i: usize = start;
    while i < c.len()
        invariant
            c@ == s@,
            start <= i <= c@.len(),
            start < c@.len(),
            t == s@.subrange(start as int, s@.len() as int),
            v < 256,
            i == start ==> v == 0,
            i > start ==> digits_value(t.subrange(0, i - start)) == Some(v as nat),
            byte_value(s@) == (match digits_value(t) {
                Some(x) => if x < 256 {
                    Some(x as u8)
                } else {
                    None
                },
                None => None::<u8>,
            }),
        decreases c@.len() - i,
    {
        let ch = c[i];
        let ghost u = t.subrange(0, i - start + 1);
        proof {
            assert(u.last() == ch);
            assert(u.drop_last() =~= t.subrange(0, i - start));
        }
        let d: Option<u8> = if (ch as u32) < 128 {
            digit_value(ch as u8)
        } else {
            None
        };
        match d {
            None => {
                proof {
                    assert(digits_value(u) is None);
                    if digits_value(t) is Some {
                        lemma_digits_value_prefix(t, i - start + 1);
                    }
                }
                return None;
            },
            Some(x) => {
                let w: u32 = v * 16 + x as u32;
                proof {
                    assert(digits_value(u) == Some(w as nat));
                }
                if w >= 256 {
                    proof {
                        if digits_value(t) is Some {
                            lemma_digits_value_prefix(t, i - start + 1);
                        }
                    }
                    return None;
                }
                v = w;
            },
        }
        i += 1;
    }
    proof {
        assert(t.subrange(0, t.len() as int) =~= t);
    }
    Some(v as u8)
}

/// The pieces that are left once each was trimmed and the empty ones were dropped.
pub open spec fn filled(p: Seq<Seq<char>>) -> Seq<Seq<char>>
    decreases p.len(),
{
    if p.len() == 0 {
        Seq::empty()
    } else {
        let before = filled(p.drop_last());
        let t = text::trimmed(p.last());
        if t.len() == 0 {
            before
        } else {
            before.push(t)
        }
    }
}

/// The bytes that a list of pieces spells, or nothing if one of them spells no byte.
pub open spec fn bytes_value(p: Seq<Seq<char>>) -> Option<Seq<u8>>
    decreases p.len(),
{
    if p.len() == 0 {
        Some(Seq::empty())
    } else {
        match (bytes_value(p.drop_last()), byte_value(p.last())) {
            (Some(v), Some(b)) => Some(v.push(b)),
            _ => None,
        }
    }
}

proof fn lemma_bytes_value_prefix(p: Seq<Seq<char>>, q: Seq<Seq<char>>)
    requires
        bytes_value(p) is None,
    ensures
        bytes_value(p + q) is None,
    decreases q.len(),
{
    if q.len() == 0 {
        assert(p + q =~= p);
    } else {
        lemma_bytes_value_prefix(p, q.drop_last());
        assert((p + q).drop_last() =~= p + q.drop_last());
    }
}

proof fn lemma_filled_grows(p: Seq<Seq<char>>, i: int) -> (q: Seq<Seq<char>>)
    requires
        0 <= i <= p.len(),
    ensures
        filled(p) == filled(p.subrange(0, i)) + q,
    decreases p.len(),
{
    if i == p.len() {
        assert(p.subrange(0, i) =~= p);
        assert(filled(p) + Seq::<Seq<char>>::empty() =~= filled(p));
        Seq::empty()
    } else {
        let q = lemma_filled_grows(p.drop_last(), i);
        assert(p.drop_last().subrange(0, i) =~= p.subrange(0, i));
        let t = text::trimmed(p.last());
        if t.len() == 0 {
            q
        } else {
            assert(filled(p.subrange(0, i)) + q.push(t) =~= (filled(p.subrange(0, i)) + q).push(t));
            q.push(t)
        }
    }
}

/// Reads a comma-separated list of bytes, such as `AA,55,43,03`: spaces around a
/// byte and empty places count for nothing. Nothing comes back where a place
/// spells no byte.
pub fn parse_list(s: &str) -> (r: Option<Vec<u8>>)
    ensures
        match r {
            Some(v) => bytes_value(filled(text::pieces(s@, ','))) == Some(v@),
            None => bytes_value(filled(text::pieces(s@, ','))) is None,
        },
{
    let parts = text::split(s, ',');
    let ghost p = text::pieces(s@, ',');
    let mut out: Vec<u8> = Vec::new();
    let mut i: usize = 0;
    while i < parts.len()
        invariant
            text::views(parts@) == p,
            p == text::pieces(s@, ','),
            i <= parts@.len(),
            bytes_value(filled(p.subrange(0, i as int))) == Some(out@),
        decreases parts@.len() - i,
    {
        let ghost u = p.subrange(0, i + 1);
        proof {
            assert(u.drop_last() =~= p.subrange(0, i as int));
            assert(u.last() == parts@[i as int]@);
        }
        let t = text::trim(parts[i].as_str());
        if !t.as_str().is_empty() {
            proof {
                assert(filled(u) == filled(p.subrange(0, i as int)).push(t@));
                assert(filled(u).drop_last() =~= filled(p.subrange(0, i as int)));
            }
            match parse_byte(t.as_str()) {
                Some(b) => {
                    out.push(b);
                },
                None => {
                    proof {
                        assert(bytes_value(filled(u)) is None);
                        let q = lemma_filled_grows(p, i + 1);
                        lemma_bytes_value_prefix(filled(u), q);
                    }
                    return None;
                },
            }
        }
        i += 1;
    }
    proof {
        assert(p.subrange(0, p.len() as int) =~= p);
    }
    Some(out)
}

/// The digits are `0` to `9` and `a` to `f`, small or capital; each is read as its value, in
/// either case.
pub proof fn law_hex_digits(d: int)
    requires
        0 <= d < 16,
    ensures
        hex_char(d as nat, false) == "0123456789abcdef"@[d],
        hex_char(d as nat, true) == "0123456789ABCDEF"@[d],
        char_value(hex_char(d as nat, false)) == Some(d as nat),
        char_value(hex_char(d as nat, true)) == Some(d as nat),
{
    reveal_strlit("0123456789abcdef");
    reveal_strlit("0123456789ABCDEF");
}

/// A byte is its high digit and its low one; a command word is four capital digits; bytes in a
/// row are two small digits each.
pub proof fn law_hex_layout(b: u8, upper: bool, w: u16, data: Seq<u8>, i: int)
    requires
        0 <= i < data.len(),
    ensures
        byte_text(b, upper) == seq![hex_char(b as nat / 16, upper), hex_char(b as nat % 16, upper)],
        word_text(w).len() == 4,
        word_text(w)[0] == "0123456789ABCDEF"@[w as int / 4096],
        word_text(w)[1] == "0123456789ABCDEF"@[w as int / 256 % 16],
        word_text(w)[2] == "0123456789ABCDEF"@[w as int / 16 % 16],
        word_text(w)[3] == "0123456789ABCDEF"@[w as int % 16],
        bytes_text(data).len() == 2 * data.len(),
        bytes_text(data)[2 * i] == "0123456789abcdef"@[data[i] as int / 16],
        bytes_text(data)[2 * i + 1] == "0123456789abcdef"@[data[i] as int % 16],
{
    law_hex_digits(w as int / 4096);
    law_hex_digits(w as int / 256 % 16);
    law_hex_digits(w as int / 16 % 16);
    law_hex_digits(w as int % 16);
    law_hex_digits(data[i] as int / 16);
    law_hex_digits(data[i] as int % 16);
    assert((w / 256) as u8 as int / 16 == w as int / 4096);
    assert((w % 256) as u8 as int / 16 == w as int / 16 % 16);
    assert((w % 256) as u8 as int % 16 == w as int % 16);
}

proof fn lemma_byte_text(b: u8, upper: bool)
    ensures
        byte_text(b, upper).len() == 2,
        !byte_text(b, upper).contains(','),
        text::trimmed(byte_text(b, upper)) == byte_text(b, upper),
        byte_value(byte_text(b, upper)) == Some(b),
{
    let t = byte_text(b, upper);
    let hi = b as nat / 16;
    let lo = b as nat % 16;
    assert(t[0] == hex_char(hi, upper) && t[1] == hex_char(lo, upper));
    assert(char_value(t[0]) == Some(hi) && char_value(t[1]) == Some(lo));
    assert(t.drop_last() =~= seq![t[0]]);
    assert(digits_value(t.drop_last()) == Some(hi));
    assert(digits_value(t) == Some((hi * 16 + lo) as nat));
    assert(!text::is_whitespace_char(t[0]) && !text::is_whitespace_char(t.last()));
}

/// Bytes written as a list with commas are read as the same bytes, in small digits or in
/// capital ones.
pub proof fn law_list_reads_back(data: Seq<u8>, upper: bool)
    requires
        data.len() > 0,
    ensures
        text::pieces(list_text(data, upper), ',').len() == data.len(),
        bytes_value(filled(text::pieces(list_text(data, upper), ','))) == Some(data),
    decreases data.len(),
{
    reveal_strlit(",");
    assert(","@ =~= seq![',']);
    let d = data.drop_last();
    let last = byte_text(data.last(), upper);
    lemma_byte_text(data.last(), upper);
    if data.len() == 1 {
        text::law_pieces_are_cut_out(Seq::empty(), ',', last);
        assert(list_text(data, upper) == last);
        let p = seq![last];
        assert(p.drop_last() =~= Seq::<Seq<char>>::empty());
        assert(filled(p.drop_last()) =~= Seq::<Seq<char>>::empty());
        assert(filled(p) =~= seq![last]);
        assert(bytes_value(p.drop_last()) == Some(Seq::<u8>::empty()));
        assert(bytes_value(seq![last]) == Some(Seq::<u8>::empty().push(data.last())));
        assert(Seq::<u8>::empty().push(data.last()) =~= data);
    } else {
        law_list_reads_back(d, upper);
        text::law_pieces_are_cut_out(list_text(d, upper), ',', last);
        let p = text::pieces(list_text(d, upper), ',');
        assert(p.push(last).drop_last() =~= p);
        assert(filled(p.push(last)) == filled(p).push(last));
        assert(filled(p).push(last).drop_last() =~= filled(p));
        assert(d.push(data.last()) =~= data);
    }
}

/// What spells no byte is not taken for one: an empty place counts for nothing, anything else
/// that is no byte spoils the list.
pub proof fn law_bad_lists_are_refused(p: Seq<Seq<char>>, bad: Seq<char>)
    ensures
        filled(p.push(Seq::empty())) == filled(p),
        byte_value(bad) is None ==> bytes_value(p.push(bad)) is None,
        byte_value(Seq::empty()) is None,
{
    assert(p.push(Seq::<char>::empty()).drop_last() =~= p);
    assert(p.push(bad).drop_last() =~= p);
}

/// A byte is a hexadecimal digit exactly where it is the character of one, and its value is
/// what the digit says; two of them spell a byte, the first one sixteen times as much as the
/// second.
pub proof fn law_only_digits_count(b: u8, hi: u8, lo: u8)
    ensures
        hex_value(b) is Some <==> ('0' <= b as char <= '9' || 'a' <= b as char <= 'f' || 'A'
            <= b as char <= 'F'),
        hex_value(hi) is Some && hex_value(lo) is Some ==> pair_value(hi, lo) == Some(
            (hex_value(hi)->0 * 16 + hex_value(lo)->0) as u8,
        ),
        hex_value(lo) is None ==> pair_value(hi, lo) is None,
        hex_value(hi) is None && hi as char != '+' ==> pair_value(hi, lo) is None,
{
}

} // verus!

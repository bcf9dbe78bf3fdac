//! Text: the few string operations that the protocol and the gateway rules need.
//!
//! A string is its sequence of characters; all contracts here speak of that
//! sequence. Bytes come in only where a wire format is read or written.
use vstd::prelude::*;
use vstd::string::*;
use vstd::utf8::*;

verus! {

// ---------------------------------------------------------------------------
// What is taken from std
// ---------------------------------------------------------------------------

/// `String::push`: the character goes behind the string.
pub assume_specification[ String::push ](s: &mut String, c: char)
    ensures
        final(s)@ == old(s)@.push(c),
;

/// `String::from_utf8`: the bytes as a string where they are UTF-8, nothing otherwise.
#[verifier::external_body]
pub(crate) fn from_utf8(bytes: Vec<u8>) -> (r: Option<String>)
    ensures
        r is Some <==> valid_utf8(bytes@),
        r matches Some(s) ==> s@ == decode_utf8(bytes@),
{
    String::from_utf8(bytes).ok()
}

/// What `String::from_utf8_lossy` makes of a byte sequence.
pub uninterp spec fn lossy_text(bytes: Seq<u8>) -> Seq<char>;

/// `String::from_utf8_lossy`: a function of the bytes, which is plain decoding
/// where the bytes are UTF-8. What stands for an invalid sequence is left open.
#[verifier::external_body]
pub(crate) fn from_utf8_lossy(bytes: &[u8]) -> (r: String)
    ensures
        r@ == lossy_text(bytes@),
        valid_utf8(bytes@) ==> r@ == decode_utf8(bytes@),
{
    String::from_utf8_lossy(bytes).into_owned()
}

/// What `str::to_lowercase` makes of a text.
pub uninterp spec fn lowercase(s: Seq<char>) -> Seq<char>;

/// `str::to_lowercase`: the Unicode lowercase of the text, a function of the text.
#[verifier::external_body]
pub(crate) fn to_lowercase(s: &str) -> (r: String)
    ensures
        r@ == lowercase(s@),
{
    s.to_lowercase()
}

/// What `str::to_uppercase` makes of a text.
pub uninterp spec fn uppercase(s: Seq<char>) -> Seq<char>;

/// `str::to_uppercase`: the Unicode uppercase of the text, a function of the text.
#[verifier::external_body]
pub(crate) fn to_uppercase(s: &str) -> (r: String)
    ensures
        r@ == uppercase(s@),
{
    s.to_uppercase()
}

/// Whether `char::is_alphanumeric` holds of a character.
pub uninterp spec fn is_alphanumeric_char(c: char) -> bool;

/// `char::is_alphanumeric`: the Unicode property, a function of the character.
#[verifier::external_body]
pub(crate) fn is_alphanumeric(c: char) -> (r: bool)
    ensures
        r == is_alphanumeric_char(c),
{
    c.is_alphanumeric()
}

// ---------------------------------------------------------------------------
// Characters
// ---------------------------------------------------------------------------

/// The characters of a string.
pub fn chars_of(s: &str) -> (r: Vec<char>)
    ensures
        r@ == s@,
{
    let mut r: Vec<char> = Vec::new();
    for c in it: s.chars()
        invariant
            r@ == s@.subrange(0, it.index()),
            it.seq() == s@,
    {
        proof {
            assert(s@.subrange(0, it.index() + 1) =~= s@.subrange(0, it.index()).push(
                s@[it.index()],
            ));
        }
        r.push(c);
    }
    proof {
        assert(s@.subrange(0, s@.len() as int) =~= s@);
    }
    r
}

/// The string of a run of characters.
pub fn string_of(chars: &[char]) -> (r: String)
    ensures
        r@ == chars@,
{
    let mut r = String::new();
    let mut i: usize = 0;
    while i < chars.len()
        invariant
            i <= chars@.len(),
            r@ == chars@.subrange(0, i as int),
        decreases chars@.len() - i,
    {
        proof {
            assert(chars@.subrange(0, i + 1) =~= chars@.subrange(0, i as int).push(chars@[i as int]));
        }
        r.push(chars[i]);
        i += 1;
    }
    proof {
        assert(chars@.subrange(0, chars@.len() as int) =~= chars@);
    }
    r
}

/// Whether two texts are the same.
pub fn same(a: &str, b: &str) -> (r: bool)
    ensures
        r == (a@ == b@),
{
    let x = a.to_owned();
    let y = b.to_owned();
    x == y
}

/// An independent copy of an optional text.
pub fn copy_option(s: &Option<String>) -> (r: Option<String>)
    ensures
        r == *s,
{
    match s {
        Some(t) => Some(t.clone()),
        None => None,
    }
}

/// The text behind an optional string, as the contracts speak of it.
pub open spec fn option_view(s: Option<String>) -> Option<Seq<char>> {
    match s {
        Some(t) => Some(t@),
        None => None,
    }
}

// ---------------------------------------------------------------------------
// Prefix, suffix, case
// ---------------------------------------------------------------------------

pub open spec fn has_prefix(s: Seq<char>, p: Seq<char>) -> bool {
    p.len() <= s.len() && s.subrange(0, p.len() as int) == p
}

pub open spec fn has_suffix(s: Seq<char>, p: Seq<char>) -> bool {
    p.len() <= s.len() && s.subrange(s.len() - p.len(), s.len() as int) == p
}

/// Whether `pat` stands in `s` at position `at`.
fn matches_at(s: &[char], pat: &[char], at: usize) -> (r: bool)
    requires
        at + pat@.len() <= s@.len(),
    ensures
        r == (s@.subrange(at as int, at + pat@.len()) == pat@),
{
    let n: usize = s.len();
    let mut i: usize = 0;
    while i < pat.len()
        invariant
            i <= pat@.len(),
            n == s@.len(),
            at + pat@.len() <= n,
            forall|j: int| 0 <= j < i ==> s@[at + j] == pat@[j],
        decreases pat@.len() - i,
    {
        if s[at + i] != pat[i] {
            proof {
                let w = s@.subrange(at as int, at + pat@.len());
                assert(w[i as int] == s@[at + i]);
            }
            return false;
        }
        i += 1;
    }
    proof {
        assert(s@.subrange(at as int, at + pat@.len()) =~= pat@);
    }
    true
}

pub fn starts_with(s: &str, p: &str) -> (r: bool)
    ensures
        r == has_prefix(s@, p@),
{
    let a = chars_of(s);
    let b = chars_of(p);
    if b.len() > a.len() {
        return false;
    }
    matches_at(a.as_slice(), b.as_slice(), 0)
}

pub fn ends_with(s: &str, p: &str) -> (r: bool)
    ensures
        r == has_suffix(s@, p@),
{
    let a = chars_of(s);
    let b = chars_of(p);
    if b.len() > a.len() {
        return false;
    }
    matches_at(a.as_slice(), b.as_slice(), a.len() - b.len())
}

/// Whether `p` stands somewhere in `s`.
pub open spec fn has_part(s: Seq<char>, p: Seq<char>) -> bool {
    exists|i: int| 0 <= i <= s.len() - p.len() && #[trigger] s.subrange(i, i + p.len()) == p
}

pub fn contains(s: &str, p: &str) -> (r: bool)
    ensures
        r == has_part(s@, p@),
{
    let a = chars_of(s);
    let b = chars_of(p);
    if b.len() > a.len() {
        return false;
    }
    let last: usize = a.len() - b.len();
    let mut i: usize = 0;
    while i < last
        invariant
            a@ == s@,
            b@ == p@,
            last + b@.len() == a@.len(),
            i <= last,
            forall|k: int| 0 <= k < i ==> #[trigger] s@.subrange(k, k + p@.len()) != p@,
        decreases last - i,
    {
        if matches_at(a.as_slice(), b.as_slice(), i) {
            return true;
        }
        i += 1;
    }
    matches_at(a.as_slice(), b.as_slice(), last)
}

/// ASCII letters in lower case, every other character as it is.
pub open spec fn ascii_lower(c: char) -> char {
    if 'A' <= c <= 'Z' {
        (c as u32 + 32) as char
    } else {
        c
    }
}

/// Two texts that differ at most in the case of ASCII letters.
pub open spec fn same_ignoring_ascii_case(a: Seq<char>, b: Seq<char>) -> bool {
    a.len() == b.len() && forall|i: int|
        0 <= i < a.len() ==> ascii_lower(#[trigger] a[i]) == ascii_lower(b[i])
}

fn lower_char(c: char) -> (r: char)
    ensures
        r == ascii_lower(c),
{
    if 'A' <= c && c <= 'Z' {
        let b: u8 = c as u8;
        (b + 32) as char
    } else {
        c
    }
}

pub fn eq_ignore_ascii_case(s: &str, t: &str) -> (r: bool)
    ensures
        r == same_ignoring_ascii_case(s@, t@),
{
    let a = chars_of(s);
    let b = chars_of(t);
    if a.len() != b.len() {
        return false;
    }
    let mut i: usize = 0;
    while i < a.len()
        invariant
            a@ == s@,
            b@ == t@,
            a@.len() == b@.len(),
            i <= a@.len(),
            forall|j: int| 0 <= j < i ==> ascii_lower(#[trigger] a@[j]) == ascii_lower(b@[j]),
        decreases a@.len() - i,
    {
        if lower_char(a[i]) != lower_char(b[i]) {
            return false;
        }
        i += 1;
    }
    true
}

// ---------------------------------------------------------------------------
// Trimming and splitting
// ---------------------------------------------------------------------------

/// The characters with the Unicode property `White_Space`.
pub open spec fn is_whitespace_char(c: char) -> bool {
    ||| '\t' <= c <= '\r'
    ||| c == ' '
    ||| c == '\u{85}'
    ||| c == '\u{a0}'
    ||| c == '\u{1680}'
    ||| '\u{2000}' <= c <= '\u{200a}'
    ||| c == '\u{2028}'
    ||| c == '\u{2029}'
    ||| c == '\u{202f}'
    ||| c == '\u{205f}'
    ||| c == '\u{3000}'
}

/// Whether a character is whitespace.
pub fn is_whitespace(c: char) -> (r: bool)
    ensures
        r == is_whitespace_char(c),
{
    ('\t' <= c && c <= '\r') || c == ' ' || c == '\u{85}' || c == '\u{a0}' || c == '\u{1680}' || (
    '\u{2000}' <= c && c <= '\u{200a}') || c == '\u{2028}' || c == '\u{2029}' || c == '\u{202f}' || c
        == '\u{205f}' || c == '\u{3000}'
}

/// `s` without the whitespace before and behind it.
pub open spec fn trimmed(s: Seq<char>) -> Seq<char>
    decreases s.len(),
{
    if s.len() == 0 {
        s
    } else if is_whitespace_char(s[0]) {
        trimmed(s.drop_first())
    } else if is_whitespace_char(s.last()) {
        trimmed(s.drop_last())
    } else {
        s
    }
}

/// Drops the whitespace before and behind a run of characters.
fn trim_chars(c: &[char]) -> (r: Vec<char>)
    ensures
        r@ == trimmed(c@),
{
    let mut lo: usize = 0;
    let mut hi: usize = c.len();
    proof {
        assert(c@.subrange(0, c@.len() as int) =~= c@);
    }
    while lo < hi && is_whitespace(c[lo])
        invariant
            lo <= hi == c@.len(),
            trimmed(c@) == trimmed(c@.subrange(lo as int, hi as int)),
        ensures
            lo <= hi == c@.len(),
            trimmed(c@) == trimmed(c@.subrange(lo as int, hi as int)),
            lo < hi ==> !is_whitespace_char(c@[lo as int]),
        decreases hi - lo,
    {
        proof {
            let w = c@.subrange(lo as int, hi as int);
            assert(w[0] == c@[lo as int]);
            assert(w.drop_first() =~= c@.subrange(lo + 1, hi as int));
        }
        lo += 1;
    }
    while lo < hi && is_whitespace(c[hi - 1])
        invariant
            lo <= hi <= c@.len(),
            trimmed(c@) == trimmed(c@.subrange(lo as int, hi as int)),
            lo < hi ==> !is_whitespace_char(c@[lo as int]),
        ensures
            lo <= hi <= c@.len(),
            trimmed(c@) == trimmed(c@.subrange(lo as int, hi as int)),
            lo < hi ==> !is_whitespace_char(c@[lo as int]),
            lo < hi ==> !is_whitespace_char(c@[hi - 1]),
        decreases hi - lo,
    {
        proof {
            let w = c@.subrange(lo as int, hi as int);
            assert(w[0] == c@[lo as int]);
            assert(w.last() == c@[hi - 1]);
            assert(w.drop_last() =~= c@.subrange(lo as int, hi - 1));
        }
        hi -= 1;
    }
    proof {
        let w = c@.subrange(lo as int, hi as int);
        if lo < hi {
            assert(w[0] == c@[lo as int]);
            assert(w.last() == c@[hi - 1]);
        }
        assert(trimmed(w) == w);
    }
    copy_range(c, lo, hi)
}

fn copy_range(c: &[char], lo: usize, hi: usize) -> (r: Vec<char>)
    requires
        lo <= hi <= c@.len(),
    ensures
        r@ == c@.subrange(lo as int, hi as int),
{
    let mut r: Vec<char> = Vec::new();
    let mut i: usize = lo;
    while i < hi
        invariant
            lo <= i <= hi <= c@.len(),
            r@ == c@.subrange(lo as int, i as int),
        decreases hi - i,
    {
        proof {
            assert(c@.subrange(lo as int, i + 1) =~= c@.subrange(lo as int, i as int).push(
                c@[i as int],
            ));
        }
        r.push(c[i]);
        i += 1;
    }
    r
}

/// The text between a prefix and a suffix.
pub fn inner(s: &str, p: &str, q: &str) -> (r: String)
    requires
        p@.len() + q@.len() <= s@.len(),
    ensures
        r@ == s@.subrange(p@.len() as int, s@.len() - q@.len()),
{
    let c = chars_of(s);
    let lo: usize = chars_of(p).len();
    let hi: usize = c.len() - chars_of(q).len();
    string_of(copy_range(c.as_slice(), lo, hi).as_slice())
}

/// The text without the whitespace around it.
pub fn trim(s: &str) -> (r: String)
    ensures
        r@ == trimmed(s@),
{
    let c = chars_of(s);
    let t = trim_chars(c.as_slice());
    string_of(t.as_slice())
}

/// The words of a text: what stands between whitespace.
pub open spec fn words(s: Seq<char>) -> Seq<Seq<char>>
    decreases s.len(),
{
    if s.len() == 0 {
        Seq::empty()
    } else {
        let before = words(s.drop_last());
        if is_whitespace_char(s.last()) {
            before
        } else if s.len() >= 2 && !is_whitespace_char(s[s.len() - 2]) && before.len() > 0 {
            before.drop_last().push(before.last().push(s.last()))
        } else {
            before.push(seq![s.last()])
        }
    }
}

/// The words of a text.
pub fn split_whitespace(s: &str) -> (r: Vec<String>)
    ensures
        views(r@) == words(s@),
{
    let c = chars_of(s);
    let mut out: Vec<String> = Vec::new();
    proof {
        assert(views(out@) =~= Seq::empty());
    }
    let mut open = false;
    let mut i: usize = 0;
    while i < c.len()
        invariant
            i <= c@.len(),
            c@ == s@,
            views(out@) == words(s@.subrange(0, i as int)),
            open == (i > 0 && !is_whitespace_char(s@[i - 1])),
            open ==> out@.len() > 0,
        decreases c@.len() - i,
    {
        let ghost w = s@.subrange(0, i + 1);
        let ghost before = out@;
        proof {
            assert(w.drop_last() =~= s@.subrange(0, i as int));
            assert(w.last() == s@[i as int]);
            if i > 0 {
                assert(w[w.len() - 2] == s@[i - 1]);
            }
        }
        if is_whitespace(c[i]) {
            open = false;
        } else if open {
            match out.pop() {
                Some(last) => {
                    let mut word = last;
                    let ghost old_word = word@;
                    word.push(c[i]);
                    out.push(word);
                    proof {
                        assert(views(out@) =~= views(before).drop_last().push(
                            old_word.push(s@[i as int]),
                        ));
                        assert(views(before).last() == old_word);
                    }
                },
                None => {},
            }
        } else {
            let mut word = "".to_owned();
            proof {
                reveal_strlit("");
            }
            word.push(c[i]);
            proof {
                assert(word@ =~= seq![s@[i as int]]);
            }
            out.push(word);
            open = true;
            proof {
                assert(views(out@) =~= views(before).push(seq![s@[i as int]]));
            }
        }
        i += 1;
    }
    proof {
        assert(s@.subrange(0, s@.len() as int) =~= s@);
    }
    out
}

/// A text with another in the place of a character.
pub open spec fn replaced(s: Seq<char>, c: char, by: Seq<char>) -> Seq<char>
    decreases s.len(),
{
    if s.len() == 0 {
        Seq::empty()
    } else if s.last() == c {
        replaced(s.drop_last(), c, by) + by
    } else {
        replaced(s.drop_last(), c, by).push(s.last())
    }
}

/// A text with another in the place of a character.
pub fn replace(s: &str, c: char, by: &str) -> (r: String)
    ensures
        r@ == replaced(s@, c, by@),
{
    let chars = chars_of(s);
    let mut out = "".to_owned();
    proof {
        reveal_strlit("");
        assert(out@ =~= Seq::empty());
    }
    let mut i: usize = 0;
    while i < chars.len()
        invariant
            i <= chars@.len(),
            chars@ == s@,
            out@ == replaced(s@.subrange(0, i as int), c, by@),
        decreases chars@.len() - i,
    {
        proof {
            let w = s@.subrange(0, i + 1);
            assert(w.drop_last() =~= s@.subrange(0, i as int));
            assert(w.last() == s@[i as int]);
        }
        if chars[i] == c {
            out.append(by);
        } else {
            out.push(chars[i]);
        }
        i += 1;
    }
    proof {
        assert(s@.subrange(0, s@.len() as int) =~= s@);
    }
    out
}

/// A text without a character at its end, however often it stands there.
pub open spec fn without_trailing(s: Seq<char>, c: char) -> Seq<char>
    decreases s.len(),
{
    if s.len() > 0 && s.last() == c {
        without_trailing(s.drop_last(), c)
    } else {
        s
    }
}

/// A text without a character at its end.
pub fn trim_end(s: &str, c: char) -> (r: String)
    ensures
        r@ == without_trailing(s@, c),
{
    let chars = chars_of(s);
    let mut n: usize = chars.len();
    proof {
        assert(s@.subrange(0, s@.len() as int) =~= s@);
    }
    while n > 0 && chars[n - 1] == c
        invariant
            n <= chars@.len(),
            chars@ == s@,
            without_trailing(s@, c) == without_trailing(s@.subrange(0, n as int), c),
        decreases n,
    {
        proof {
            let w = s@.subrange(0, n as int);
            assert(w.drop_last() =~= s@.subrange(0, n - 1));
            assert(w.last() == s@[n - 1]);
        }
        n -= 1;
    }
    proof {
        let w = s@.subrange(0, n as int);
        if n > 0 {
            assert(w.last() == s@[n - 1]);
        }
    }
    string_of(copy_range(chars.as_slice(), 0, n).as_slice())
}

/// The pieces of `s` between the characters `sep`, one more than there are separators.
pub open spec fn pieces(s: Seq<char>, sep: char) -> Seq<Seq<char>>
    decreases s.len(),
{
    if s.len() == 0 {
        seq![Seq::<char>::empty()]
    } else {
        let before = pieces(s.drop_last(), sep);
        if s.last() == sep {
            before.push(Seq::empty())
        } else {
            before.drop_last().push(before.last().push(s.last()))
        }
    }
}

proof fn lemma_pieces_nonempty(s: Seq<char>, sep: char)
    ensures
        pieces(s, sep).len() > 0,
    decreases s.len(),
{
    if s.len() > 0 {
        lemma_pieces_nonempty(s.drop_last(), sep);
    }
}

pub open spec fn views(v: Seq<String>) -> Seq<Seq<char>> {
    v.map_values(|s: String| s@)
}

/// Cuts a text at every `sep`.
pub fn split(s: &str, sep: char) -> (r: Vec<String>)
    ensures
        views(r@) == pieces(s@, sep),
{
    let c = chars_of(s);
    let mut done: Vec<String> = Vec::new();
    let mut cur = String::new();
    let mut i: usize = 0;
    while i < c.len()
        invariant
            c@ == s@,
            i <= c@.len(),
            views(done@).push(cur@) == pieces(s@.subrange(0, i as int), sep),
        decreases c@.len() - i,
    {
        proof {
            let t = s@.subrange(0, i + 1);
            assert(t.drop_last() =~= s@.subrange(0, i as int));
            assert(t.last() == s@[i as int]);
            let before = pieces(s@.subrange(0, i as int), sep);
            assert(before.drop_last() =~= views(done@));
        }
        if c[i] == sep {
            let ghost d = done@;
            done.push(cur);
            cur = String::new();
            proof {
                assert(views(done@) =~= views(d).push(done@.last()@));
            }
        } else {
            cur.push(c[i]);
        }
        i += 1;
    }
    proof {
        assert(s@.subrange(0, s@.len() as int) =~= s@);
    }
    let ghost d = done@;
    done.push(cur);
    proof {
        assert(views(done@) =~= views(d).push(done@.last()@));
    }
    done
}

// ---------------------------------------------------------------------------
// Numbers
// ---------------------------------------------------------------------------

/// The character of a decimal digit.
pub open spec fn digit_char(d: nat) -> char
    recommends
        d < 10,
{
    (48 + d) as char
}

/// A number in decimal, without leading zeros.
pub open spec fn decimal(n: nat) -> Seq<char>
    decreases n,
{
    if n < 10 {
        seq![digit_char(n)]
    } else {
        decimal(n / 10).push(digit_char(n % 10))
    }
}

fn digit(d: u8) -> (r: char)
    requires
        d < 10,
    ensures
        r == digit_char(d as nat),
{
    (48 + d) as char
}

/// A number in decimal.
pub fn to_decimal(n: u64) -> (r: String)
    ensures
        r@ == decimal(n as nat),
    decreases n,
{
    if n < 10 {
        let mut s = String::new();
        s.push(digit(n as u8));
        proof {
            assert(s@ =~= seq![digit_char(n as nat)]);
        }
        s
    } else {
        let mut s = to_decimal(n / 10);
        s.push(digit((n % 10) as u8));
        s
    }
}

/// Hundredths as a decimal with two places: 2146 is `21.46`, -50 is `-0.50`.
pub open spec fn hundredths_text(v: int) -> Seq<char> {
    let a: nat = if v < 0 {
        (-v) as nat
    } else {
        v as nat
    };
    (if v < 0 {
        "-"@
    } else {
        Seq::<char>::empty()
    }) + decimal(a / 100) + "."@ + seq![digit_char(a / 10 % 10), digit_char(a % 10)]
}

pub fn hundredths(v: i32) -> (r: String)
    ensures
        r@ == hundredths_text(v as int),
{
    let wide: i64 = v as i64;
    let a: u64 = if wide < 0 {
        (-wide) as u64
    } else {
        wide as u64
    };
    let mut r = String::new();
    if v < 0 {
        r.append("-");
    }
    r.append(to_decimal(a / 100).as_str());
    r.append(".");
    let ghost before = r@;
    r.push(digit((a / 10 % 10) as u8));
    r.push(digit((a % 10) as u8));
    proof {
        let n: nat = a as nat;
        assert(r@ =~= before + seq![digit_char(n / 10 % 10), digit_char(n % 10)]);
        assert(r@ =~= hundredths_text(v as int));
    }
    r
}

/// The value of a decimal digit character.
pub open spec fn digit_value(c: char) -> Option<nat> {
    if '0' <= c <= '9' {
        Some((c as u32 - 48) as nat)
    } else {
        None
    }
}

/// The value of a run of decimal digits; nothing if it is empty or holds another character.
pub open spec fn digits_value(s: Seq<char>) -> Option<nat>
    decreases s.len(),
{
    if s.len() == 0 {
        None
    } else {
        match digit_value(s.last()) {
            None => None,
            Some(d) => if s.len() == 1 {
                Some(d)
            } else {
                match digits_value(s.drop_last()) {
                    None => None,
                    Some(v) => Some(v * 10 + d),
                }
            },
        }
    }
}

/// What a decimal text says: digits, with or without a plus sign before them.
pub open spec fn decimal_value(s: Seq<char>) -> Option<nat> {
    if s.len() > 0 && s[0] == '+' {
        digits_value(s.drop_first())
    } else {
        digits_value(s)
    }
}

proof fn lemma_digits_value_prefix(s: Seq<char>, i: int)
    requires
        0 < i <= s.len(),
        digits_value(s) is Some,
    ensures
        digits_value(s.subrange(0, i)) is Some,
        digits_value(s.subrange(0, i))->0 <= digits_value(s)->0,
    decreases s.len(),
{
    if i == s.len() {
        assert(s.subrange(0, i) =~= s);
    } else {
        lemma_digits_value_prefix(s.drop_last(), i);
        assert(s.drop_last().subrange(0, i) =~= s.subrange(0, i));
    }
}

/// Reads a decimal number of at most `max`.
pub fn parse_decimal(s: &str, max: u64) -> (r: Option<u64>)
    requires
        max <= 0xffff_ffff,
    ensures
        r == (match decimal_value(s@) {
            Some(v) => if v <= max {
                Some(v as u64)
            } else {
                None
            },
            None => None,
        }),
{
    let c = chars_of(s);
    let start: usize = if c.len() > 0 && c[0] == '+' {
        1
    } else {
        0
    };
    let ghost t = s@.subrange(start as int, s@.len() as int);
    proof {
        if start == 1 {
            assert(t =~= s@.drop_first());
        } else {
            assert(t =~= s@);
        }
    }
    if start == c.len() {
        return None;
    }
    let mut v: u64 = 0;
    let mut i: usize = start;
    while i < c.len()
        invariant
            c@ == s@,
            max <= 0xffff_ffff,
            start <= i <= c@.len(),
            start < c@.len(),
            t == s@.subrange(start as int, s@.len() as int),
            v <= max,
            i == start ==> v == 0,
            i > start ==> digits_value(t.subrange(0, i - start)) == Some(v as nat),
            decimal_value(s@) == digits_value(t),
        decreases c@.len() - i,
    {
        let ch = c[i];
        let ghost u = t.subrange(0, i - start + 1);
        proof {
            assert(u.last() == ch);
            assert(u.drop_last() =~= t.subrange(0, i - start));
        }
        if !('0' <= ch && ch <= '9') {
            proof {
                assert(digits_value(u) is None);
                if digits_value(t) is Some {
                    lemma_digits_value_prefix(t, i - start + 1);
                }
            }
            return None;
        }
        let d: u64 = (ch as u8 - 48) as u64;
        let w: u64 = v * 10 + d;
        proof {
            assert(digits_value(u) == Some(w as nat));
        }
        if w > max {
            proof {
                if digits_value(t) is Some {
                    lemma_digits_value_prefix(t, i - start + 1);
                }
            }
            return None;
        }
        v = w;
        i += 1;
    }
    proof {
        assert(t.subrange(0, t.len() as int) =~= t);
    }
    Some(v)
}

/// What a truth value reads as: `true` and `false`, nothing else.
pub open spec fn bool_value(s: Seq<char>) -> Option<bool> {
    if s == "true"@ {
        Some(true)
    } else if s == "false"@ {
        Some(false)
    } else {
        None
    }
}

pub fn parse_bool(s: &str) -> (r: Option<bool>)
    ensures
        r == bool_value(s@),
{
    if same(s, "true") {
        Some(true)
    } else if same(s, "false") {
        Some(false)
    } else {
        None
    }
}

/// A text says a number of hundredths: digits, a point and two digits, with a minus sign
/// before them exactly for a number below zero.
pub open spec fn says_hundredths(t: Seq<char>, v: int) -> bool {
    let from: int = if v < 0 {
        1
    } else {
        0
    };
    let size: int = if v < 0 {
        -v
    } else {
        v
    };
    let point = t.len() - 3;
    &&& from < point
    &&& v < 0 <==> t[0] == '-'
    &&& t[point] == '.'
    &&& digits_value(t.subrange(from, point)) is Some
    &&& digits_value(t.subrange(point + 1, t.len() as int)) is Some
    &&& digits_value(t.subrange(from, point))->0 * 100 + digits_value(
        t.subrange(point + 1, t.len() as int),
    )->0 == size
}

proof fn lemma_decimal(n: nat)
    ensures
        decimal(n).len() > 0,
        forall|i: int| 0 <= i < decimal(n).len() ==> '0' <= #[trigger] decimal(n)[i] <= '9',
        digits_value(decimal(n)) == Some(n),
    decreases n,
{
    if n >= 10 {
        lemma_decimal(n / 10);
        assert(decimal(n).drop_last() =~= decimal(n / 10));
    }
}

/// A number in decimal is read as that number, takes digits alone, and starts with a zero
/// only where it is zero itself.
pub proof fn law_decimal_reads_back(n: nat)
    ensures
        decimal_value(decimal(n)) == Some(n),
        forall|i: int| 0 <= i < decimal(n).len() ==> '0' <= #[trigger] decimal(n)[i] <= '9',
        decimal(n)[0] == '0' ==> n == 0,
    decreases n,
{
    lemma_decimal(n);
    if n >= 10 {
        law_decimal_reads_back(n / 10);
        lemma_decimal(n / 10);
    }
}

/// What a digit character says, and what stands behind a run of digits: one more digit
/// makes ten times the value and the digit.
pub proof fn law_digits_are_decimal(s: Seq<char>, d: nat)
    requires
        d < 10,
    ensures
        digits_value(seq!["0123456789"@[d as int]]) == Some(d),
        digits_value(s) is Some ==> digits_value(s.push("0123456789"@[d as int])) == Some(
            (digits_value(s)->0 * 10 + d) as nat,
        ),
        digits_value(Seq::empty()) is None,
{
    reveal_strlit("0123456789");
    let c = "0123456789"@[d as int];
    assert(c == (48 + d) as char);
    assert(s.push(c).drop_last() =~= s);
}

/// Hundredths are written as what they are: 2350 is `23.50`, -5 is `-0.05`.
#[verifier::spinoff_prover]
pub proof fn law_hundredths_are_said(v: int)
    ensures
        says_hundredths(hundredths_text(v), v),
{
    reveal_strlit("-");
    reveal_strlit(".");
    let t = hundredths_text(v);
    let a: nat = if v < 0 {
        (-v) as nat
    } else {
        v as nat
    };
    let from: int = if v < 0 {
        1
    } else {
        0
    };
    let point = t.len() - 3;
    lemma_decimal(a / 100);
    assert(t.subrange(from, point) =~= decimal(a / 100));
    let cents = t.subrange(point + 1, t.len() as int);
    assert(cents =~= seq![digit_char(a / 10 % 10), digit_char(a % 10)]);
    assert(cents.drop_last() =~= seq![digit_char(a / 10 % 10)]);
    assert(digits_value(cents.drop_last()) == Some(a / 10 % 10));
    assert(digits_value(cents) == Some((a / 10 % 10 * 10 + a % 10) as nat));
    lemma_three_parts(a);
    if v >= 0 {
        assert(t[0] == decimal(a / 100)[0]);
    }
}

proof fn lemma_three_parts(a: nat)
    ensures
        a / 100 * 100 + (a / 10 % 10 * 10 + a % 10) == a,
{
}

/// Only `true` and `false` are truth values, each for itself.
pub proof fn law_truth_values(s: Seq<char>)
    ensures
        bool_value(s) == Some(true) <==> s == "true"@,
        bool_value(s) == Some(false) <==> s == "false"@,
{
    reveal_strlit("true");
    reveal_strlit("false");
    assert("true"@.len() == 4 && "false"@.len() == 5);
}

/// Small and capital letters of ASCII are the same but for their case, and every other
/// character is only the same as itself.
pub proof fn law_letters_ignoring_case(c: char, d: char)
    ensures
        'A' <= c <= 'Z' ==> (ascii_lower(c) as u32) == c as u32 + 32,
        !('A' <= c <= 'Z') ==> ascii_lower(c) == c,
        same_ignoring_ascii_case(seq![c], seq![d]) <==> {
            ||| c == d
            ||| 'A' <= c <= 'Z' && d as u32 == c as u32 + 32
            ||| 'A' <= d <= 'Z' && c as u32 == d as u32 + 32
        },
{
    let a = seq![c];
    let b = seq![d];
    assert(a[0] == c && b[0] == d);
    if same_ignoring_ascii_case(a, b) {
        assert(ascii_lower(a[0]) == ascii_lower(b[0]));
    }
}

/// Cutting at a character undoes putting it between two texts, and a text without it is one
/// piece.
pub proof fn law_pieces_are_cut_out(s: Seq<char>, sep: char, t: Seq<char>)
    requires
        !t.contains(sep),
    ensures
        pieces(t, sep) == seq![t],
        pieces(s + seq![sep] + t, sep) == pieces(s, sep).push(t),
    decreases t.len(),
{
    let whole = s + seq![sep] + t;
    lemma_pieces_nonempty(s, sep);
    if t.len() == 0 {
        assert(t =~= Seq::<char>::empty());
        assert(whole.drop_last() =~= s);
    } else {
        let d = t.drop_last();
        assert(!d.contains(sep)) by {
            if d.contains(sep) {
                assert(t[d.index_of(sep)] == sep);
            }
        }
        assert(t.last() != sep) by {
            assert(t.contains(t[t.len() - 1]));
        }
        law_pieces_are_cut_out(s, sep, d);
        assert(whole.drop_last() =~= s + seq![sep] + d);
        assert(d.push(t.last()) =~= t);
        assert(seq![d].drop_last().push(d.push(t.last())) =~= seq![t]);
        let before = pieces(s, sep).push(d);
        assert(before.drop_last() =~= pieces(s, sep));
    }
}

/// Whitespace around a text is dropped, and nothing of the text itself.
pub proof fn law_trim_keeps_the_text(before: Seq<char>, s: Seq<char>, after: Seq<char>)
    requires
        s.len() > 0,
        !is_whitespace_char(s[0]),
        !is_whitespace_char(s.last()),
        forall|i: int| 0 <= i < before.len() ==> is_whitespace_char(#[trigger] before[i]),
        forall|i: int| 0 <= i < after.len() ==> is_whitespace_char(#[trigger] after[i]),
    ensures
        trimmed(before + s + after) == s,
        trimmed(before) == Seq::<char>::empty(),
    decreases before.len() + after.len(),
{
    let whole = before + s + after;
    if before.len() > 0 {
        let d = before.drop_first();
        assert(whole[0] == before[0]);
        assert(whole.drop_first() =~= d + s + after);
        assert forall|i: int| 0 <= i < d.len() implies is_whitespace_char(#[trigger] d[i]) by {
            assert(d[i] == before[i + 1]);
        }
        law_trim_keeps_the_text(d, s, after);
    } else if after.len() > 0 {
        let d = after.drop_last();
        assert(whole[0] == s[0]);
        assert(whole.last() == after[after.len() - 1]);
        assert(whole.drop_last() =~= before + s + d);
        assert forall|i: int| 0 <= i < d.len() implies is_whitespace_char(#[trigger] d[i]) by {
            assert(d[i] == after[i]);
        }
        law_trim_keeps_the_text(before, s, d);
        assert(before =~= Seq::<char>::empty());
    } else {
        assert(whole =~= s);
        assert(before =~= Seq::<char>::empty());
    }
}

/// A word behind whitespace is one more word; whitespace alone adds none.
pub proof fn law_words_are_told_apart(s: Seq<char>, blank: char, word: Seq<char>)
    requires
        is_whitespace_char(blank),
        word.len() > 0,
        forall|i: int| 0 <= i < word.len() ==> !is_whitespace_char(#[trigger] word[i]),
    ensures
        words(s + seq![blank]) == words(s),
        words(s + seq![blank] + word) == words(s).push(word),
        words(word) == seq![word],
    decreases word.len(),
{
    let gap = s + seq![blank];
    assert(gap.drop_last() =~= s);
    let whole = gap + word;
    let d = word.drop_last();
    assert(whole.drop_last() =~= gap + d);
    assert(!is_whitespace_char(word[word.len() - 1]));
    if word.len() == 1 {
        assert(gap + d =~= gap);
        assert(d =~= Seq::<char>::empty());
        assert(words(d) =~= Seq::<Seq<char>>::empty());
        assert(word =~= seq![word.last()]);
        assert(words(word) =~= seq![word]);
    } else {
        assert forall|i: int| 0 <= i < d.len() implies !is_whitespace_char(#[trigger] d[i]) by {
            assert(d[i] == word[i]);
        }
        law_words_are_told_apart(s, blank, d);
        assert(whole[whole.len() - 2] == word[word.len() - 2]);
        assert(d.push(word.last()) =~= word);
        assert(words(s).push(d).drop_last() =~= words(s));
        assert(word[word.len() - 2] == d[d.len() - 1]);
        assert(words(d) == seq![d]);
        assert(seq![d].drop_last().push(d.push(word.last())) =~= seq![word]);
    }
}

/// A character is replaced wherever it stands, and nothing else is.
pub proof fn law_replaced_everywhere(s: Seq<char>, c: char, by: Seq<char>, t: Seq<char>)
    ensures
        replaced(s.push(c), c, by) == replaced(s, c, by) + by,
        !t.contains(c) ==> replaced(t, c, by) == t,
        forall|d: char| d != c ==> #[trigger] replaced(s.push(d), c, by) == replaced(s, c, by).push(
            d,
        ),
    decreases t.len(),
{
    assert(s.push(c).drop_last() =~= s);
    assert forall|d: char| d != c implies #[trigger] replaced(s.push(d), c, by) == replaced(
        s,
        c,
        by,
    ).push(d) by {
        assert(s.push(d).drop_last() =~= s);
    }
    if t.len() > 0 && !t.contains(c) {
        let d = t.drop_last();
        assert(!d.contains(c)) by {
            if d.contains(c) {
                assert(t[d.index_of(c)] == c);
            }
        }
        assert(t.contains(t[t.len() - 1]));
        law_replaced_everywhere(s, c, by, d);
        assert(d.push(t.last()) =~= t);
    }
}

/// A character is dropped from the end of a text as often as it stands there, and from
/// nowhere else.
pub proof fn law_trailing_is_dropped(s: Seq<char>, c: char)
    ensures
        without_trailing(s, c).len() <= s.len(),
        without_trailing(s, c) == s.subrange(0, without_trailing(s, c).len() as int),
        without_trailing(s, c).len() > 0 ==> without_trailing(s, c).last() != c,
        forall|i: int| without_trailing(s, c).len() <= i < s.len() ==> #[trigger] s[i] == c,
        s.len() > 0 && s.last() != c ==> without_trailing(s, c) == s,
    decreases s.len(),
{
    if s.len() > 0 && s.last() == c {
        let d = s.drop_last();
        law_trailing_is_dropped(d, c);
        let n = without_trailing(d, c).len() as int;
        assert(d.subrange(0, n) =~= s.subrange(0, n));
        assert forall|i: int| n <= i < s.len() implies #[trigger] s[i] == c by {
            if i < d.len() {
                assert(s[i] == d[i]);
            }
        }
    } else {
        assert(s.subrange(0, s.len() as int) =~= s);
    }
}

/// A text starts with what it starts with, ends with what it ends with, and holds what stands
/// anywhere in it.
pub proof fn law_parts_of_a_text(a: Seq<char>, p: Seq<char>, b: Seq<char>)
    ensures
        has_prefix(p + b, p),
        has_suffix(a + p, p),
        has_part(a + p + b, p),
        p.len() > b.len() ==> !has_prefix(b, p) && !has_suffix(b, p) && !has_part(b, p),
{
    assert((p + b).subrange(0, p.len() as int) =~= p);
    assert((a + p).subrange(a.len() as int, (a + p).len() as int) =~= p);
    let t = a + p + b;
    let at = a.len() as int;
    assert(t.subrange(at, at + p.len()) =~= p);
}

} // verus!

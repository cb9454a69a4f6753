//! Text: decoding bytes (through std and `encoding_rs`), writing numbers in
//! decimal, and splitting text into trimmed lines.

use vstd::prelude::*;
use vstd::utf8::{decode_utf8, valid_utf8};

verus! {

/// What `String::from_utf8_lossy` makes of a byte sequence.
pub uninterp spec fn lossy_utf8(bytes: Seq<u8>) -> Seq<char>;

/// What `encoding_rs::EUC_KR.decode` makes of a byte sequence.
pub uninterp spec fn euc_kr_text(bytes: Seq<u8>) -> Seq<char>;

/// The character of a decimal digit.
pub open spec fn digit_char(d: nat) -> char {
    (48 + d) as char
}

/// The decimal digits of a number, most significant first, without sign or
/// leading zeros (`"0"` for zero).
pub open spec fn decimal_text(n: nat) -> Seq<char>
    decreases n,
{
    if n < 10 {
        seq![digit_char(n)]
    } else {
        decimal_text(n / 10).push(digit_char(n % 10))
    }
}

/// Calls `String::from_utf8_lossy`. Claimed: the result is the named lossy
/// decoding of the bytes, and equals the plain UTF-8 decoding when the bytes
/// are valid UTF-8 (std documents that valid input is returned unchanged).
#[verifier::external_body]
pub(crate) fn utf8_lossy_string(bytes: &[u8]) -> (s: String)
    ensures
        s@ == lossy_utf8(bytes@),
        valid_utf8(bytes@) ==> s@ == decode_utf8(bytes@),
{
    String::from_utf8_lossy(bytes).into_owned()
}

/// Calls `std::str::from_utf8`. Claimed: it succeeds exactly on valid UTF-8,
/// and then the text is the UTF-8 decoding of the bytes.
#[verifier::external_body]
pub(crate) fn utf8_string(bytes: &[u8]) -> (r: Option<String>)
    ensures
        r is Some <==> valid_utf8(bytes@),
        r matches Some(s) ==> s@ == decode_utf8(bytes@),
{
    std::str::from_utf8(bytes).ok().map(|s| s.to_owned())
}

/// Calls `encoding_rs::EUC_KR.decode` and keeps the decoded text. Claimed: the
/// result is the named EUC-KR decoding of the bytes. The length bound keeps
/// clear of the buffer-size overflow on which that function panics.
#[verifier::external_body]
pub(crate) fn euc_kr_string(bytes: &[u8]) -> (s: String)
    requires
        bytes@.len() <= 0x3fff_ffff,
    ensures
        s@ == euc_kr_text(bytes@),
{
    let (decoded, _, _) = encoding_rs::EUC_KR.decode(bytes);
    decoded.into_owned()
}

/// Append the decimal digits of `n` to `out`.
fn push_decimal(n: usize, out: &mut Vec<char>)
    ensures
        final(out)@ == old(out)@ + decimal_text(n as nat),
    decreases n,
{
    if n >= 10 {
        push_decimal(n / 10, out);
    }
    let d = (n % 10) as u8;
    out.push((48u8 + d) as char);
    assert(out@ =~= old(out)@ + decimal_text(n as nat)) by {
        assert(((48u8 + d) as char) == digit_char((n % 10) as nat));
    }
}

/// The decimal digits of `n` as a string.
pub(crate) fn decimal_string(n: usize) -> (s: String)
    ensures
        s@ == decimal_text(n as nat),
{
    let mut digits: Vec<char> = Vec::new();
    push_decimal(n, &mut digits);
    assert(digits@ =~= decimal_text(n as nat));
    string_of_chars(digits.as_slice())
}

/// Unicode `White_Space` characters, the set that `char::is_whitespace` and
/// `str::trim` use.
pub open spec fn is_white_space(c: char) -> bool {
    let n = c as u32;
    (0x09 <= n <= 0x0d) || n == 0x20 || n == 0x85 || n == 0xa0 || n == 0x1680 || (0x2000 <= n
        <= 0x200a) || n == 0x2028 || n == 0x2029 || n == 0x202f || n == 0x205f || n == 0x3000
}

/// `s` without its leading white space.
pub open spec fn trim_start(s: Seq<char>) -> Seq<char>
    decreases s.len(),
{
    if s.len() > 0 && is_white_space(s[0]) {
        trim_start(s.drop_first())
    } else {
        s
    }
}

/// `s` without its trailing white space.
pub open spec fn trim_end(s: Seq<char>) -> Seq<char>
    decreases s.len(),
{
    if s.len() > 0 && is_white_space(s.last()) {
        trim_end(s.drop_last())
    } else {
        s
    }
}

/// `s` without white space at either end, as `str::trim` gives it.
pub open spec fn trimmed(s: Seq<char>) -> Seq<char> {
    trim_end(trim_start(s))
}

/// A line without the carriage return that ends it, if any.
pub open spec fn strip_cr(line: Seq<char>) -> Seq<char> {
    if line.len() > 0 && line.last() == '\r' {
        line.drop_last()
    } else {
        line
    }
}

/// The entry that a line gives: the trimmed line, unless that is empty.
pub open spec fn entry_of(line: Seq<char>) -> Seq<Seq<char>> {
    if trimmed(line).len() == 0 {
        Seq::empty()
    } else {
        seq![trimmed(line)]
    }
}

/// The non-empty trimmed lines of `cur + s`, where `cur` is the start of a
/// line already read. Lines end at `'\n'`, and a `'\r'` just before the `'\n'`
/// belongs to the line ending (as with `str::lines`).
pub open spec fn nonblank_lines_from(s: Seq<char>, cur: Seq<char>) -> Seq<Seq<char>>
    decreases s.len(),
{
    if s.len() == 0 {
        if cur.len() == 0 {
            Seq::empty()
        } else {
            entry_of(cur)
        }
    } else if s[0] == '\n' {
        entry_of(strip_cr(cur)) + nonblank_lines_from(s.drop_first(), Seq::empty())
    } else {
        nonblank_lines_from(s.drop_first(), cur.push(s[0]))
    }
}

/// The non-empty trimmed lines of a text.
pub open spec fn nonblank_lines(s: Seq<char>) -> Seq<Seq<char>> {
    nonblank_lines_from(s, Seq::empty())
}

/// Whether `c` is white space; see `is_white_space`.
pub(crate) fn is_white_space_char(c: char) -> (b: bool)
    ensures
        b == is_white_space(c),
{
    let n = c as u32;
    (0x09 <= n && n <= 0x0d) || n == 0x20 || n == 0x85 || n == 0xa0 || n == 0x1680 || (0x2000
        <= n && n <= 0x200a) || n == 0x2028 || n == 0x2029 || n == 0x202f || n == 0x205f || n
        == 0x3000
}

/// The characters of a text, in order.
pub(crate) fn chars_of(s: &str) -> (r: Vec<char>)
    ensures
        r@ == s@,
{
    broadcast use vstd::string::axiom_spec_iter;
    let mut out: Vec<char> = Vec::new();
    for c in it: s.chars()
        invariant
            out@ == it.seq().take(it.index() as int),
    {
        out.push(c);
    }
    out
}

/// Calls `String::from_iter` on the characters. Claimed: the text holds exactly
/// those characters, in order.
#[verifier::external_body]
pub(crate) fn string_of_chars(cs: &[char]) -> (s: String)
    ensures
        s@ == cs@,
{
    String::from_iter(cs.iter())
}

/// `cs` without white space at either end.
pub(crate) fn trim_chars(cs: &[char]) -> (r: Vec<char>)
    ensures
        r@ == trimmed(cs@),
{
    let n = cs.len();
    let mut i: usize = 0;
    assert(cs@.skip(0) =~= cs@);
    while i < n && is_white_space_char(cs[i])
        invariant
            n == cs@.len(),
            i <= n,
            trim_start(cs@) == trim_start(cs@.skip(i as int)),
        decreases n - i,
    {
        assert(cs@.skip(i as int).drop_first() =~= cs@.skip(i + 1));
        i = i + 1;
    }
    proof {
        if i < n {
            assert(cs@.skip(i as int)[0] == cs@[i as int]);
        }
        assert(trim_start(cs@) == cs@.subrange(i as int, n as int));
    }
    let mut j: usize = n;
    while j > i && is_white_space_char(cs[j - 1])
        invariant
            n == cs@.len(),
            i <= j <= n,
            trim_end(cs@.subrange(i as int, n as int)) == trim_end(
                cs@.subrange(i as int, j as int),
            ),
        decreases j,
    {
        assert(cs@.subrange(i as int, j as int).drop_last() =~= cs@.subrange(
            i as int,
            j - 1,
        ));
        j = j - 1;
    }
    let mut out: Vec<char> = Vec::new();
    let mut k: usize = i;
    while k < j
        invariant
            i <= k <= j <= n,
            n == cs@.len(),
            out@ == cs@.subrange(i as int, k as int),
        decreases j - k,
    {
        out.push(cs[k]);
        k = k + 1;
        assert(out@ =~= cs@.subrange(i as int, k as int));
    }
    out
}

/// The texts of a list of strings.
pub open spec fn texts(v: Seq<String>) -> Seq<Seq<char>> {
    v.map_values(|s: String| s@)
}

/// The non-empty trimmed lines of a text, each as a string.
pub fn nonblank_lines_of(text: &str) -> (r: Vec<String>)
    ensures
        texts(r@) == nonblank_lines(text@),
{
    let cs = chars_of(text);
    let n = cs.len();
    let mut out: Vec<String> = Vec::new();
    let mut cur: Vec<char> = Vec::new();
    let mut i: usize = 0;
    assert(cs@.skip(0) =~= cs@);
    while i < n
        invariant
            n == cs@.len(),
            i <= n,
            nonblank_lines(cs@) == texts(out@) + nonblank_lines_from(cs@.skip(i as int), cur@),
        decreases n - i,
    {
        let ghost rest = cs@.skip(i as int);
        assert(rest.drop_first() =~= cs@.skip(i + 1));
        assert(rest[0] == cs@[i as int]);
        let c = cs[i];
        if c == '\n' {
            let ghost cur0 = cur@;
            let line = if cur.len() > 0 && cur[cur.len() - 1] == '\r' {
                cur.pop();
                cur
            } else {
                cur
            };
            assert(line@ =~= strip_cr(cur0));
            let t = trim_chars(line.as_slice());
            let ghost before = out@;
            if t.len() > 0 {
                out.push(string_of_chars(t.as_slice()));
            }
            assert(texts(out@) =~= texts(before) + entry_of(strip_cr(cur0)));
            cur = Vec::new();
            assert(cur@ =~= Seq::<char>::empty());
        } else {
            cur.push(c);
        }
        i = i + 1;
    }
    assert(cs@.skip(n as int).len() == 0);
    if cur.len() > 0 {
        let t = trim_chars(cur.as_slice());
        let ghost before = out@;
        if t.len() > 0 {
            out.push(string_of_chars(t.as_slice()));
        }
        assert(texts(out@) =~= texts(before) + entry_of(cur@));
    } else {
        assert(texts(out@) + Seq::<Seq<char>>::empty() =~= texts(out@));
    }
    out
}

} // verus!

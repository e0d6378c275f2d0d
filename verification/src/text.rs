//! Character-level text helpers: whitespace trimming, decimal numbers,
//! joining, and the shortened forms of identifiers and hashes.
use vstd::prelude::*;
use vstd::string::{StrSliceExecFns, StringExecFns};
use vstd::utf8::{
    decode_utf8, encode_utf8, encode_utf8_decode_utf8, encode_utf8_valid_utf8, is_char_boundary,
};

verus! {

/// Appends one character to a string (`String::push`).
/// The contract claims that the string afterwards is the old one followed by `c`.
#[verifier::external_body]
pub(crate) fn push_char(s: &mut String, c: char)
    ensures
        final(s)@ == old(s)@.push(c),
{
    s.push(c);
}

/// The characters of `s`, in order.
fn chars_of(s: &str) -> (out: Vec<char>)
    ensures
        out@ == s@,
{
    let mut out: Vec<char> = Vec::new();
    for c in it: s.chars()
        invariant
            out@ == it.seq().take(it.index()),
    {
        out.push(c);
    }
    out
}

// ---------------------------------------------------------------------------
// Whitespace and trimming
// ---------------------------------------------------------------------------

/// Unicode `White_Space` (the property that `char::is_whitespace` tests).
pub open spec fn is_white_space(c: char) -> bool {
    let u = c as u32;
    ||| 0x09 <= u <= 0x0D
    ||| u == 0x20
    ||| u == 0x85
    ||| u == 0xA0
    ||| u == 0x1680
    ||| 0x2000 <= u <= 0x200A
    ||| u == 0x2028
    ||| u == 0x2029
    ||| u == 0x202F
    ||| u == 0x205F
    ||| u == 0x3000
}

/// `s` without its leading whitespace.
pub open spec fn trim_start(s: Seq<char>) -> Seq<char>
    decreases s.len(),
{
    if s.len() > 0 && is_white_space(s[0]) {
        trim_start(s.drop_first())
    } else {
        s
    }
}

/// `s` without its trailing whitespace.
pub open spec fn trim_end(s: Seq<char>) -> Seq<char>
    decreases s.len(),
{
    if s.len() > 0 && is_white_space(s.last()) {
        trim_end(s.drop_last())
    } else {
        s
    }
}

/// `s` without leading and trailing whitespace (what `str::trim` returns).
pub open spec fn trimmed(s: Seq<char>) -> Seq<char> {
    trim_end(trim_start(s))
}

/// Whether `c` is Unicode whitespace.
pub fn is_whitespace_char(c: char) -> (b: bool)
    ensures
        b == is_white_space(c),
{
    let u = c as u32;
    (0x09 <= u && u <= 0x0D) || u == 0x20 || u == 0x85 || u == 0xA0 || u == 0x1680 || (0x2000 <= u
        && u <= 0x200A) || u == 0x2028 || u == 0x2029 || u == 0x202F || u == 0x205F || u == 0x3000
}

proof fn lemma_trim_start_skip(s: Seq<char>, i: int)
    requires
        0 <= i < s.len(),
        is_white_space(s[i]),
    ensures
        trim_start(s.skip(i)) == trim_start(s.skip(i + 1)),
{
    assert(s.skip(i).drop_first() =~= s.skip(i + 1));
}

proof fn lemma_trim_end_take(s: Seq<char>, j: int)
    requires
        0 < j <= s.len(),
        is_white_space(s[j - 1]),
    ensures
        trim_end(s.take(j)) == trim_end(s.take(j - 1)),
{
    assert(s.take(j).drop_last() =~= s.take(j - 1));
}

/// The text with leading and trailing whitespace removed.
pub fn trim_text(s: &str) -> (out: String)
    ensures
        out@ == trimmed(s@),
{
    let chars = chars_of(s);
    let n = chars.len();
    let mut i: usize = 0;
    assert(s@.skip(0) =~= s@);
    while i < n && is_whitespace_char(chars[i])
        invariant
            i <= n,
            n == s@.len(),
            chars@ == s@,
            trim_start(s@) == trim_start(s@.skip(i as int)),
        decreases n - i,
    {
        proof {
            lemma_trim_start_skip(s@, i as int);
        }
        i = i + 1;
    }
    let ghost rest = s@.skip(i as int);
    assert(trim_start(rest) == rest);
    let mut j: usize = n;
    assert(rest.take(n - i) =~= rest);
    while j > i && is_whitespace_char(chars[j - 1])
        invariant
            i <= j <= n,
            n == s@.len(),
            chars@ == s@,
            rest == s@.skip(i as int),
            trim_end(rest) == trim_end(rest.take(j - i)),
        decreases j,
    {
        proof {
            lemma_trim_end_take(rest, (j - i) as int);
        }
        j = j - 1;
    }
    assert(trim_end(rest.take(j - i)) == rest.take(j - i));
    assert(rest.take(j - i) =~= s@.subrange(i as int, j as int));
    s.substring_char(i, j).to_owned()
}

// ---------------------------------------------------------------------------
// Decimal numbers and booleans
// ---------------------------------------------------------------------------

/// The ASCII digit for `d` (which is below ten).
pub open spec fn digit_char(d: nat) -> char {
    (48 + d) as char
}

/// The decimal representation of `n`, most significant digit first, without
/// leading zeros (what `Display` writes for an unsigned integer).
pub open spec fn decimal(n: nat) -> Seq<char>
    decreases n,
{
    if n < 10 {
        seq![digit_char(n)]
    } else {
        decimal(n / 10).push(digit_char(n % 10))
    }
}

fn write_decimal(n: u64, out: &mut String)
    ensures
        final(out)@ == old(out)@ + decimal(n as nat),
    decreases n,
{
    if n >= 10 {
        write_decimal(n / 10, out);
    }
    let d: u8 = (n % 10) as u8;
    let c: char = (48u8 + d) as char;
    assert(c == digit_char((n % 10) as nat));
    push_char(out, c);
    assert(decimal(n as nat) == if n < 10 {
        seq![digit_char(n as nat)]
    } else {
        decimal((n / 10) as nat).push(digit_char((n % 10) as nat))
    });
}

/// The decimal text of `n`.
pub fn decimal_text(n: u64) -> (out: String)
    ensures
        out@ == decimal(n as nat),
{
    let mut out = String::new();
    write_decimal(n, &mut out);
    out
}

/// What `Display` writes for a `bool`.
pub open spec fn bool_word(b: bool) -> Seq<char> {
    if b {
        "true"@
    } else {
        "false"@
    }
}

/// `"true"` or `"false"`.
pub fn bool_text(b: bool) -> (out: &'static str)
    ensures
        out@ == bool_word(b),
{
    if b {
        "true"
    } else {
        "false"
    }
}

/// `"yes"` or `"no"`.
pub fn yes_no(value: bool) -> (out: &'static str)
    ensures
        out@ == (if value {
            "yes"@
        } else {
            "no"@
        }),
{
    if value {
        "yes"
    } else {
        "no"
    }
}

/// A copy of a list of strings.
pub fn copy_texts(items: &Vec<String>) -> (out: Vec<String>)
    ensures
        out@ == items@,
{
    let out = items.clone();
    assert(out@ =~= items@) by {
        assert forall|i: int| 0 <= i < items@.len() implies out@[i] == items@[i] by {
            assert(cloned::<String>(items[i], out[i]));
        }
    }
    out
}

// ---------------------------------------------------------------------------
// Joining
// ---------------------------------------------------------------------------

/// The items in order with `sep` between neighbours.
pub open spec fn joined(items: Seq<Seq<char>>, sep: Seq<char>) -> Seq<char>
    decreases items.len(),
{
    if items.len() == 0 {
        Seq::empty()
    } else if items.len() == 1 {
        items[0]
    } else {
        joined(items.drop_last(), sep) + sep + items.last()
    }
}

/// The views of a list of strings.
pub open spec fn texts(items: Seq<String>) -> Seq<Seq<char>> {
    items.map_values(|s: String| s@)
}

/// The first `n` items of `s` (all of them when there are fewer).
pub open spec fn first_n<T>(s: Seq<T>, n: int) -> Seq<T> {
    if n < s.len() {
        s.take(n)
    } else {
        s
    }
}

/// The first `count` items (all of them when there are fewer), joined by `sep`.
pub fn join_first(items: &Vec<String>, count: usize, sep: &str) -> (out: String)
    ensures
        out@ == joined(first_n(texts(items@), count as int), sep@),
{
    let n: usize = if count < items.len() {
        count
    } else {
        items.len()
    };
    let ghost all = texts(items@);
    let mut out = String::new();
    let mut i: usize = 0;
    while i < n
        invariant
            i <= n <= items@.len(),
            all == texts(items@),
            out@ == joined(all.take(i as int), sep@),
        decreases n - i,
    {
        if i != 0 {
            out.append(sep);
        }
        out.append(items[i].as_str());
        assert(all.take(i + 1).drop_last() =~= all.take(i as int));
        assert(all.take(i + 1).last() == items@[i as int]@);
        i = i + 1;
    }
    assert(all.take(n as int) =~= first_n(all, count as int));
    out
}

/// All items joined by `sep`.
pub fn join_texts(items: &Vec<String>, sep: &str) -> (out: String)
    ensures
        out@ == joined(texts(items@), sep@),
{
    join_first(items, items.len(), sep)
}

// ---------------------------------------------------------------------------
// Shortened forms
// ---------------------------------------------------------------------------

/// The first `count` characters of `s` (all of them when it is shorter).
pub fn first_chars(s: &str, count: usize) -> (out: String)
    ensures
        out@ == first_n(s@, count as int),
{
    let n = s.unicode_len();
    let k = if count < n {
        count
    } else {
        n
    };
    let out = s.substring_char(0, k).to_owned();
    assert(out@ =~= first_n(s@, count as int));
    out
}

/// The horizontal ellipsis that joins the two ends of a shortened hash.
pub open spec fn ellipsis() -> char {
    '\u{2026}'
}

/// Whether a string's UTF-8 encoding fits in the address space.
pub open spec fn fits_in_memory(s: Seq<char>) -> bool {
    encode_utf8(s).len() <= usize::MAX
}

/// Whether a hash can be shortened without cutting a character: at most 16
/// bytes long, or cut at byte 8 and eight bytes before its end on character
/// boundaries.
pub open spec fn shortenable(s: Seq<char>) -> bool {
    let b = encode_utf8(s);
    b.len() > 16 ==> {
        &&& is_char_boundary(b, 8)
        &&& is_char_boundary(b, b.len() - 8)
    }
}

/// A hash as shown in a card: unchanged up to 16 bytes, otherwise its first
/// and last eight bytes around an ellipsis.
pub open spec fn shortened_hash(s: Seq<char>) -> Seq<char> {
    let b = encode_utf8(s);
    if b.len() <= 16 {
        s
    } else {
        decode_utf8(b.subrange(0, 8)) + seq![ellipsis()] + decode_utf8(
            b.subrange(b.len() - 8, b.len() as int),
        )
    }
}

/// Whether `short_hash` may be applied to `value`: a hash is cut at byte
/// offsets, which must not fall inside a character.
pub fn can_shorten_hash(value: &str) -> (b: bool)
    ensures
        fits_in_memory(value@) ==> (b == shortenable(value@)),
{
    proof {
        encode_utf8_valid_utf8(value@);
    }
    let len = value.len();
    len <= 16 || (value.is_char_boundary(8) && value.is_char_boundary(len - 8))
}

/// A hash as shown in a card: unchanged up to 16 bytes, otherwise its first
/// and last eight bytes around an ellipsis. The cut points must fall on
/// character boundaries.
pub fn short_hash(value: &str) -> (out: String)
    requires
        fits_in_memory(value@),
        shortenable(value@),
    ensures
        out@ == shortened_hash(value@),
{
    proof {
        encode_utf8_valid_utf8(value@);
    }
    let len = value.len();
    if len <= 16 {
        value.to_owned()
    } else {
        let (head, _) = value.split_at(8);
        let (_, tail) = value.split_at(len - 8);
        proof {
            encode_utf8_decode_utf8(head@);
            encode_utf8_decode_utf8(tail@);
        }
        let mut out = head.to_owned();
        push_char(&mut out, '\u{2026}');
        out.append(tail);
        out
    }
}

} // verus!

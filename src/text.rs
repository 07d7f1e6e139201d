//! Character-sequence vocabulary shared by the library, and the few std text
//! operations it relies on.
use vstd::prelude::*;

verus! {

/// Unicode `White_Space`: the characters that `str::trim` strips.
pub open spec fn is_space(c: char) -> bool {
    let u = c as u32;
    (9 <= u && u <= 13) || u == 32 || u == 0x85 || u == 0xa0 || u == 0x1680 || (0x2000 <= u
        && u <= 0x200a) || u == 0x2028 || u == 0x2029 || u == 0x202f || u == 0x205f || u == 0x3000
}

/// Every character of `s` is white space (the empty sequence included).
pub open spec fn is_blank(s: Seq<char>) -> bool {
    forall|i: int| 0 <= i < s.len() ==> is_space(#[trigger] s[i])
}

pub open spec fn trim_start_seq(s: Seq<char>) -> Seq<char>
    decreases s.len(),
{
    if s.len() > 0 && is_space(s[0]) {
        trim_start_seq(s.drop_first())
    } else {
        s
    }
}

pub open spec fn trim_end_seq(s: Seq<char>) -> Seq<char>
    decreases s.len(),
{
    if s.len() > 0 && is_space(s.last()) {
        trim_end_seq(s.drop_last())
    } else {
        s
    }
}

/// `s` without its leading and trailing white space.
pub open spec fn trim_seq(s: Seq<char>) -> Seq<char> {
    trim_end_seq(trim_start_seq(s))
}

/// `n` occurs in `h` starting at position `i`.
pub open spec fn occurs_at(h: Seq<char>, n: Seq<char>, i: int) -> bool {
    0 <= i && i + n.len() <= h.len() && h.subrange(i, i + n.len()) == n
}

/// `n` is a contiguous part of `h` (the empty sequence is part of every sequence).
pub open spec fn contains_seq(h: Seq<char>, n: Seq<char>) -> bool {
    exists|i: int| occurs_at(h, n, i)
}

/// `p` is a prefix of `s`.
pub open spec fn starts_with_seq(s: Seq<char>, p: Seq<char>) -> bool {
    p.len() <= s.len() && s.subrange(0, p.len() as int) == p
}

/// The lower-case form of a text, as Unicode case mapping gives it.
pub uninterp spec fn lower_of(s: Seq<char>) -> Seq<char>;

/// Relies on `str::to_lowercase`: a function of the characters alone.
#[verifier::external_body]
pub(crate) fn to_lower(s: &str) -> (r: String)
    ensures
        r@ == lower_of(s@),
{
    s.to_lowercase()
}

/// Relies on `str::contains` with a `&str` pattern: substring search.
#[verifier::external_body]
pub(crate) fn str_contains(h: &str, n: &str) -> (r: bool)
    ensures
        r == contains_seq(h@, n@),
{
    h.contains(n)
}

/// Relies on `str::starts_with` with a `&str` pattern.
#[verifier::external_body]
pub(crate) fn str_starts_with(s: &str, p: &str) -> (r: bool)
    ensures
        r == starts_with_seq(s@, p@),
{
    s.starts_with(p)
}

/// Relies on `str::trim`: strips leading and trailing `White_Space`.
#[verifier::external_body]
pub(crate) fn str_trim(s: &str) -> (r: &str)
    ensures
        r@ == trim_seq(s@),
{
    s.trim()
}

/// Relies on `String::push`: appends one character.
#[verifier::external_body]
pub(crate) fn push_char(s: &mut String, c: char)
    ensures
        final(s)@ == old(s)@.push(c),
{
    s.push(c)
}

/// Relies on `String::pop`: removes and returns the last character, if any.
#[verifier::external_body]
pub(crate) fn pop_char(s: &mut String) -> (r: Option<char>)
    ensures
        old(s)@.len() == 0 ==> r is None && final(s)@ == old(s)@,
        old(s)@.len() > 0 ==> r == Some(old(s)@.last()) && final(s)@ == old(s)@.drop_last(),
{
    s.pop()
}


proof fn lemma_trim_start(s: Seq<char>)
    ensures
        (trim_start_seq(s).len() == 0) == is_blank(s),
        trim_start_seq(s).len() > 0 ==> !is_space(trim_start_seq(s)[0]),
    decreases s.len(),
{
    if s.len() > 0 && is_space(s[0]) {
        let t = s.drop_first();
        lemma_trim_start(t);
        if is_blank(t) {
            assert forall|i: int| 0 <= i < s.len() implies is_space(#[trigger] s[i]) by {
                if i > 0 {
                    assert(s[i] == t[i - 1]);
                }
            }
        } else {
            let i = choose|i: int| 0 <= i < t.len() && !is_space(#[trigger] t[i]);
            assert(s[i + 1] == t[i]);
        }
    } else if s.len() > 0 {
        assert(!is_space(s[0]));
    }
}

proof fn lemma_trim_end_keeps_first(t: Seq<char>)
    requires
        t.len() > 0,
        !is_space(t[0]),
    ensures
        trim_end_seq(t).len() > 0,
    decreases t.len(),
{
    if is_space(t.last()) {
        assert(t.len() > 1);
        assert(t.drop_last()[0] == t[0]);
        lemma_trim_end_keeps_first(t.drop_last());
    }
}

/// A text trims to nothing exactly when all of it is white space.
pub proof fn lemma_trim_empty_iff_blank(s: Seq<char>)
    ensures
        (trim_seq(s).len() == 0) == is_blank(s),
{
    lemma_trim_start(s);
    let t = trim_start_seq(s);
    if t.len() > 0 {
        lemma_trim_end_keeps_first(t);
    }
}


/// Relies on `<str as PartialEq>::eq`: equal exactly when the characters are.
#[verifier::external_body]
pub(crate) fn str_eq(a: &str, b: &str) -> (r: bool)
    ensures
        r == (a@ == b@),
{
    a == b
}


/// The pieces of `s` between occurrences of `sep`, empty pieces included;
/// a text without `sep` is one piece.
pub open spec fn split_seq(s: Seq<char>, sep: char) -> Seq<Seq<char>>
    decreases s.len(),
{
    if s.len() == 0 {
        seq![Seq::empty()]
    } else {
        let p = split_seq(s.drop_last(), sep);
        if s.last() == sep {
            p.push(Seq::empty())
        } else {
            p.update(p.len() - 1, p.last().push(s.last()))
        }
    }
}

/// Relies on `str::split` with a `char` pattern: the pieces between separators.
#[verifier::external_body]
pub(crate) fn split_char(s: &str, sep: char) -> (r: Vec<String>)
    ensures
        crate::model::strings_view(r@) == split_seq(s@, sep),
{
    s.split(sep).map(|p| p.to_string()).collect()
}

/// The position of the first `c` in `s`.
pub open spec fn first_index_of(s: Seq<char>, c: char, i: int) -> bool {
    0 <= i < s.len() && s[i] == c && forall|k: int| 0 <= k < i ==> s[k] != c
}

/// Relies on `str::split_once` with a `char` pattern: the parts before and
/// after the first occurrence of `sep`.
#[verifier::external_body]
pub(crate) fn split_once_char(s: &str, sep: char) -> (r: Option<(&str, &str)>)
    ensures
        r is None <==> !s@.contains(sep),
        r matches Some((a, b)) ==> exists|i: int|
            first_index_of(s@, sep, i) && a@ == s@.subrange(0, i) && b@ == s@.subrange(
                i + 1,
                s@.len() as int,
            ),
{
    s.split_once(sep)
}

/// The decimal digit for `d` (below ten).
pub open spec fn digit_char(d: int) -> char {
    if d == 0 {
        '0'
    } else if d == 1 {
        '1'
    } else if d == 2 {
        '2'
    } else if d == 3 {
        '3'
    } else if d == 4 {
        '4'
    } else if d == 5 {
        '5'
    } else if d == 6 {
        '6'
    } else if d == 7 {
        '7'
    } else if d == 8 {
        '8'
    } else {
        '9'
    }
}

/// Decimal digits of `n`, without leading zeros.
pub open spec fn decimal_seq(n: nat) -> Seq<char>
    decreases n,
{
    if n < 10 {
        seq![digit_char(n as int)]
    } else {
        decimal_seq(n / 10).push(digit_char((n % 10) as int))
    }
}

/// How an integer is written: its decimal digits, after `-` when negative.
pub open spec fn int_text_seq(n: int) -> Seq<char> {
    if n < 0 {
        seq!['-'] + decimal_seq((-n) as nat)
    } else {
        decimal_seq(n as nat)
    }
}

/// Relies on `i64`'s `Display` (through `to_string`): decimal, `-` when negative.
#[verifier::external_body]
pub(crate) fn int_text(n: i64) -> (r: String)
    ensures
        r@ == int_text_seq(n as int),
{
    n.to_string()
}

pub open spec fn is_digit(c: char) -> bool {
    '0' <= c && c <= '9'
}

/// Value of a sequence of decimal digits.
pub open spec fn digits_value(s: Seq<char>) -> nat
    decreases s.len(),
{
    if s.len() == 0 {
        0
    } else {
        digits_value(s.drop_last()) * 10 + ((s.last() as u32) - ('0' as u32)) as nat
    }
}

/// The digits of an unsigned number as `from_str` reads it: an optional `+`
/// followed by at least one decimal digit, and nothing else.
pub open spec fn unsigned_digits(s: Seq<char>) -> Option<Seq<char>> {
    let d = if s.len() > 0 && s[0] == '+' {
        s.drop_first()
    } else {
        s
    };
    if d.len() > 0 && forall|i: int| 0 <= i < d.len() ==> is_digit(#[trigger] d[i]) {
        Some(d)
    } else {
        None
    }
}

/// The number `s` denotes, if it is well formed and at most `max`.
pub open spec fn parse_unsigned(s: Seq<char>, max: nat) -> Option<nat> {
    match unsigned_digits(s) {
        Some(d) => if digits_value(d) <= max {
            Some(digits_value(d))
        } else {
            None
        },
        None => None,
    }
}

/// Relies on `u16`'s `FromStr`: an optional `+`, then digits, within range.
#[verifier::external_body]
pub(crate) fn parse_u16(s: &str) -> (r: Option<u16>)
    ensures
        r matches Some(v) ==> parse_unsigned(s@, 0xffff) == Some(v as nat),
        r is None ==> parse_unsigned(s@, 0xffff) is None,
{
    s.parse::<u16>().ok()
}

/// Relies on `u32`'s `FromStr`: an optional `+`, then digits, within range.
#[verifier::external_body]
pub(crate) fn parse_u32(s: &str) -> (r: Option<u32>)
    ensures
        r matches Some(v) ==> parse_unsigned(s@, 0xffff_ffff) == Some(v as nat),
        r is None ==> parse_unsigned(s@, 0xffff_ffff) is None,
{
    s.parse::<u32>().ok()
}


/// Lexicographic order on byte sequences, a proper prefix first.
pub open spec fn bytes_lt(a: Seq<u8>, b: Seq<u8>) -> bool
    decreases a.len(),
{
    if a.len() == 0 {
        b.len() > 0
    } else if b.len() == 0 {
        false
    } else if a[0] != b[0] {
        a[0] < b[0]
    } else {
        bytes_lt(a.drop_first(), b.drop_first())
    }
}

/// The order is asymmetric.
pub proof fn lemma_bytes_lt_asym(a: Seq<u8>, b: Seq<u8>)
    ensures
        !(bytes_lt(a, b) && bytes_lt(b, a)),
    decreases a.len(),
{
    if a.len() > 0 && b.len() > 0 && a[0] == b[0] {
        lemma_bytes_lt_asym(a.drop_first(), b.drop_first());
    }
}

/// Texts ordered as `str` orders them: by their UTF-8 bytes.
pub open spec fn text_lt(a: Seq<char>, b: Seq<char>) -> bool {
    bytes_lt(vstd::utf8::encode_utf8(a), vstd::utf8::encode_utf8(b))
}

/// Relies on `<str as PartialOrd>::lt`: lexicographic on the bytes.
#[verifier::external_body]
pub(crate) fn str_lt(a: &str, b: &str) -> (r: bool)
    ensures
        r == text_lt(a@, b@),
{
    a < b
}

/// Each text is at most the next one.
pub open spec fn texts_sorted(s: Seq<Seq<char>>) -> bool {
    forall|i: int| 0 <= i < s.len() - 1 ==> !text_lt(#[trigger] s[i + 1], s[i])
}


/// Relies on `str::strip_prefix` with a `&str` pattern.
#[verifier::external_body]
pub(crate) fn strip_prefix_str<'a>(s: &'a str, p: &str) -> (r: Option<&'a str>)
    ensures
        r is Some == starts_with_seq(s@, p@),
        r matches Some(t) ==> t@ == s@.subrange(p@.len() as int, s@.len() as int),
{
    s.strip_prefix(p)
}

/// The position of the last `c` in `s`.
pub open spec fn last_index_of(s: Seq<char>, c: char, i: int) -> bool {
    0 <= i < s.len() && s[i] == c && forall|k: int| i < k < s.len() ==> s[k] != c
}

/// Relies on `str::rsplit_once` with a `char` pattern: the parts before and
/// after the last occurrence of `sep`.
#[verifier::external_body]
pub(crate) fn rsplit_once_char(s: &str, sep: char) -> (r: Option<(&str, &str)>)
    ensures
        r is None <==> !s@.contains(sep),
        r matches Some((a, b)) ==> exists|i: int|
            last_index_of(s@, sep, i) && a@ == s@.subrange(0, i) && b@ == s@.subrange(
                i + 1,
                s@.len() as int,
            ),
{
    s.rsplit_once(sep)
}

/// Sorts texts by their bytes, as `str` orders them.
pub fn sort_texts(v: &Vec<String>) -> (r: Vec<String>)
    ensures
        texts_sorted(crate::model::strings_view(r@)),
        crate::model::strings_view(r@).to_multiset() == crate::model::strings_view(
            v@,
        ).to_multiset(),
{
    broadcast use vstd::seq_lib::group_to_multiset_ensures;

    let ghost input = crate::model::strings_view(v@);
    let mut out: Vec<String> = Vec::new();
    proof {
        assert(crate::model::strings_view(out@) =~= input.subrange(0, 0));
    }
    let mut i: usize = 0;
    while i < v.len()
        invariant
            i <= v.len(),
            input == crate::model::strings_view(v@),
            texts_sorted(crate::model::strings_view(out@)),
            crate::model::strings_view(out@).to_multiset() == input.subrange(
                0,
                i as int,
            ).to_multiset(),
        decreases v.len() - i,
    {
        let x = v[i].clone();
        let ghost ov = crate::model::strings_view(out@);
        let mut k: usize = 0;
        let mut found = false;
        while k < out.len() && !found
            invariant
                k <= out.len(),
                ov == crate::model::strings_view(out@),
                forall|j: int| 0 <= j < k ==> !text_lt(x@, #[trigger] ov[j]),
                found ==> k < ov.len() && text_lt(x@, ov[k as int]),
            decreases out.len() - k + (if found { 0int } else { 1int }),
        {
            if str_lt(x.as_str(), out[k].as_str()) {
                found = true;
            } else {
                k += 1;
            }
        }
        let ghost xv = x@;
        proof {
            if k < ov.len() {
                lemma_bytes_lt_asym(
                    vstd::utf8::encode_utf8(xv),
                    vstd::utf8::encode_utf8(ov[k as int]),
                );
            }
        }
        out.insert(k, x);
        proof {
            let nv = crate::model::strings_view(out@);
            assert(nv =~= ov.insert(k as int, xv));
            assert forall|j: int| 0 <= j < nv.len() - 1 implies !text_lt(
                #[trigger] nv[j + 1],
                nv[j],
            ) by {
                if j + 1 < k {
                    assert(nv[j] == ov[j] && nv[j + 1] == ov[j + 1]);
                    assert(!text_lt(ov[j + 1], ov[j]));
                } else if j + 1 == k {
                    assert(nv[j] == ov[j] && nv[j + 1] == xv);
                    assert(!text_lt(xv, ov[j]));
                } else if j == k {
                    assert(nv[j] == xv && nv[j + 1] == ov[j]);
                } else {
                    assert(nv[j] == ov[j - 1] && nv[j + 1] == ov[j]);
                    assert(!text_lt(ov[(j - 1) + 1], ov[j - 1]));
                }
            }
            vstd::seq_lib::to_multiset_insert(ov, k as int, xv);
            assert(input.subrange(0, i + 1) =~= input.subrange(0, i as int).push(xv));
            vstd::seq_lib::to_multiset_build(input.subrange(0, i as int), xv);
        }
        i += 1;
    }
    proof {
        assert(input.subrange(0, i as int) =~= input);
    }
    out
}


/// `s` with every `c` replaced by `to`.
pub open spec fn replace_char_seq(s: Seq<char>, c: char, to: Seq<char>) -> Seq<char>
    decreases s.len(),
{
    if s.len() == 0 {
        Seq::empty()
    } else {
        replace_char_seq(s.drop_last(), c, to) + if s.last() == c {
            to
        } else {
            seq![s.last()]
        }
    }
}

/// Relies on `str::replace` with a `char` pattern: every occurrence replaced.
#[verifier::external_body]
pub(crate) fn replace_char(s: &str, c: char, to: &str) -> (r: String)
    ensures
        r@ == replace_char_seq(s@, c, to@),
{
    s.replace(c, to)
}

/// The parts with `sep` between each two.
pub open spec fn join_seq(parts: Seq<Seq<char>>, sep: Seq<char>) -> Seq<char>
    decreases parts.len(),
{
    if parts.len() == 0 {
        Seq::empty()
    } else if parts.len() == 1 {
        parts[0]
    } else {
        join_seq(parts.drop_last(), sep) + sep + parts.last()
    }
}

/// Joins texts with a separator.
pub fn join(parts: &Vec<String>, sep: &str) -> (r: String)
    ensures
        r@ == join_seq(crate::model::strings_view(parts@), sep@),
{
    let ghost pv = crate::model::strings_view(parts@);
    let mut out = String::new();
    let mut i: usize = 0;
    while i < parts.len()
        invariant
            i <= parts.len(),
            pv == crate::model::strings_view(parts@),
            out@ == join_seq(pv.subrange(0, i as int), sep@),
        decreases parts.len() - i,
    {
        proof {
            assert(pv.subrange(0, i + 1).drop_last() =~= pv.subrange(0, i as int));
        }
        if i > 0 {
            out.append(sep);
        }
        out.append(parts[i].as_str());
        proof {
            if i == 0 {
                assert(out@ =~= pv.subrange(0, 1)[0]);
            }
        }
        i += 1;
    }
    proof {
        assert(pv.subrange(0, i as int) =~= pv);
    }
    out
}

} // verus!

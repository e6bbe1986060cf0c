//! Text as sequences of characters: searching, replacing, joining and the
//! decimal form of numbers.
//!
//! Every contract here speaks of the view of a string, a `Seq<char>`, so a
//! position is always a count of characters, never of bytes.

use vstd::prelude::*;
use vstd::utf8::{encode_utf8, encode_utf8_decode_utf8};

verus! {

/// `String::push` of std: the string grows by exactly the one character, at
/// its end.
pub assume_specification[ String::push ](s: &mut String, c: char)
    ensures
        final(s)@ == old(s)@.push(c),
;

/// Whether `pat` stands in `hay` at position `at`.
pub open spec fn occurs_at(hay: Seq<char>, pat: Seq<char>, at: int) -> bool {
    &&& 0 <= at
    &&& at + pat.len() <= hay.len()
    &&& hay.subrange(at, at + pat.len()) == pat
}

/// The first position at or after `from` where `pat` stands in `hay`.
pub open spec fn first_occurrence(hay: Seq<char>, pat: Seq<char>, from: int) -> Option<int>
    decreases hay.len() - from,
{
    if from < 0 || from + pat.len() > hay.len() {
        None
    } else if occurs_at(hay, pat, from) {
        Some(from)
    } else if from >= hay.len() {
        None
    } else {
        first_occurrence(hay, pat, from + 1)
    }
}

/// Whether `pat` stands anywhere in `hay`.
pub open spec fn occurs_in(hay: Seq<char>, pat: Seq<char>) -> bool {
    first_occurrence(hay, pat, 0) is Some
}

/// `hay` with every occurrence of `pat` at or after `from` replaced by `with`,
/// scanning from the left and never matching inside a replaced stretch. An
/// empty `pat` matches before every character and at the end.
pub open spec fn replaced_from(hay: Seq<char>, pat: Seq<char>, with: Seq<char>, from: int) -> Seq<
    char,
>
    decreases hay.len() - from,
{
    if from < 0 || from >= hay.len() {
        if pat.len() == 0 {
            with
        } else {
            Seq::empty()
        }
    } else if pat.len() == 0 {
        with + seq![hay[from]] + replaced_from(hay, pat, with, from + 1)
    } else if occurs_at(hay, pat, from) {
        with + replaced_from(hay, pat, with, from + pat.len())
    } else {
        seq![hay[from]] + replaced_from(hay, pat, with, from + 1)
    }
}

/// `hay` with every occurrence of `pat` replaced by `with`.
pub open spec fn replaced(hay: Seq<char>, pat: Seq<char>, with: Seq<char>) -> Seq<char> {
    replaced_from(hay, pat, with, 0)
}

/// The character that writes the digit `d`.
pub open spec fn digit_char(d: nat) -> char {
    if d == 0 {
        '0'
    } else if d == 1 {
        '1'
    } else if d == 2 {
        '2'
    } else if d == 3 {
        '3'
    } else if d == 4 {
        '4'
    } else if d == 5 {
        '5'
    } else if d == 6 {
        '6'
    } else if d == 7 {
        '7'
    } else if d == 8 {
        '8'
    } else {
        '9'
    }
}

/// The decimal form of `n`, without sign or leading zeros.
pub open spec fn decimal_text(n: nat) -> Seq<char>
    decreases n,
{
    if n < 10 {
        seq![digit_char(n)]
    } else {
        decimal_text(n / 10).push(digit_char(n % 10))
    }
}

/// The texts in `parts`, one after the other, with `sep` between neighbours.
pub open spec fn joined(parts: Seq<Seq<char>>, sep: Seq<char>) -> Seq<char>
    decreases parts.len(),
{
    if parts.len() == 0 {
        Seq::empty()
    } else if parts.len() == 1 {
        parts[0]
    } else {
        joined(parts.drop_last(), sep) + sep + parts.last()
    }
}

/// Where `first_occurrence` finds something, `pat` stands there and nowhere
/// between `from` and there; where it finds nothing, `pat` stands nowhere at
/// or after `from`.
pub proof fn lemma_first_occurrence(hay: Seq<char>, pat: Seq<char>, from: int)
    requires
        0 <= from,
    ensures
        match first_occurrence(hay, pat, from) {
            Some(at) => {
                &&& from <= at
                &&& occurs_at(hay, pat, at)
                &&& forall|j: int| from <= j < at ==> !occurs_at(hay, pat, j)
            },
            None => forall|j: int| from <= j ==> !occurs_at(hay, pat, j),
        },
    decreases hay.len() - from,
{
    if from + pat.len() > hay.len() {
    } else if occurs_at(hay, pat, from) {
    } else if from >= hay.len() {
    } else {
        lemma_first_occurrence(hay, pat, from + 1);
    }
}

/// The characters of `s`, in order.
pub fn chars_of(s: &str) -> (out: Vec<char>)
    ensures
        out@ == s@,
{
    let mut out: Vec<char> = Vec::new();
    for c in it: s.chars()
        invariant
            out@ == s@.subrange(0, it.index() as int),
            it.seq() == s@,
    {
        out.push(c);
    }
    out
}

/// The string made of the characters `chars[from..to]`.
pub fn text_between(chars: &[char], from: usize, to: usize) -> (out: String)
    requires
        from <= to <= chars.len(),
    ensures
        out@ == chars@.subrange(from as int, to as int),
{
    let mut out = String::new();
    let mut i: usize = from;
    while i < to
        invariant
            from <= i <= to <= chars.len(),
            out@ == chars@.subrange(from as int, i as int),
        decreases to - i,
    {
        out.push(chars[i]);
        i += 1;
    }
    out
}

/// Whether two strings hold the same characters.
pub fn same_text(a: &str, b: &str) -> (r: bool)
    ensures
        r == (a@ == b@),
{
    let x = a.as_bytes();
    let y = b.as_bytes();
    proof {
        encode_utf8_decode_utf8(a@);
        encode_utf8_decode_utf8(b@);
    }
    if x.len() != y.len() {
        return false;
    }
    let mut i: usize = 0;
    while i < x.len()
        invariant
            i <= x.len(),
            x.len() == y.len(),
            x@ == encode_utf8(a@),
            y@ == encode_utf8(b@),
            x@.subrange(0, i as int) == y@.subrange(0, i as int),
        decreases x.len() - i,
    {
        if x[i] != y[i] {
            return false;
        }
        assert(x@.subrange(0, i + 1) == x@.subrange(0, i as int).push(x@[i as int]));
        assert(y@.subrange(0, i + 1) == y@.subrange(0, i as int).push(y@[i as int]));
        i += 1;
    }
    assert(x@ == x@.subrange(0, x.len() as int));
    assert(y@ == y@.subrange(0, y.len() as int));
    true
}

/// Whether `pat` stands in `hay` at position `at`.
pub fn matches_at(hay: &[char], pat: &[char], at: usize) -> (r: bool)
    ensures
        r == occurs_at(hay@, pat@, at as int),
{
    if at > hay.len() || pat.len() > hay.len() - at {
        return false;
    }
    let mut k: usize = 0;
    while k < pat.len()
        invariant
            k <= pat.len(),
            at + pat.len() <= hay.len(),
            hay@.subrange(at as int, at + k) == pat@.subrange(0, k as int),
        decreases pat.len() - k,
    {
        if hay[at + k] != pat[k] {
            assert(hay@.subrange(at as int, at + pat.len())[k as int] != pat@[k as int]);
            return false;
        }
        assert(hay@.subrange(at as int, at + k + 1) == hay@.subrange(at as int, at + k).push(
            hay@[at + k],
        ));
        assert(pat@.subrange(0, k + 1) == pat@.subrange(0, k as int).push(pat@[k as int]));
        k += 1;
    }
    assert(pat@ == pat@.subrange(0, pat.len() as int));
    true
}

/// The first position at or after `from` where `pat` stands in `hay`.
pub fn find_from(hay: &[char], pat: &[char], from: usize) -> (r: Option<usize>)
    ensures
        match r {
            Some(at) => first_occurrence(hay@, pat@, from as int) == Some(at as int),
            None => first_occurrence(hay@, pat@, from as int) is None,
        },
{
    if from > hay.len() || pat.len() > hay.len() - from {
        return None;
    }
    let last: usize = hay.len() - pat.len();
    let mut i: usize = from;
    loop
        invariant
            from <= i <= last,
            last == hay.len() - pat.len(),
            first_occurrence(hay@, pat@, from as int) == first_occurrence(hay@, pat@, i as int),
        decreases last - i,
    {
        if matches_at(hay, pat, i) {
            return Some(i);
        }
        if i == last {
            assert(first_occurrence(hay@, pat@, i + 1) is None);
            return None;
        }
        i += 1;
    }
}

/// Whether `pat` stands anywhere in `hay`.
pub fn contains_text(hay: &str, pat: &str) -> (r: bool)
    ensures
        r == occurs_in(hay@, pat@),
{
    let h = chars_of(hay);
    let p = chars_of(pat);
    find_from(h.as_slice(), p.as_slice(), 0).is_some()
}

/// `hay` with every occurrence of `pat` replaced by `with`, as `str::replace`
/// of std gives it.
pub fn replace_all(hay: &str, pat: &str, with: &str) -> (out: String)
    ensures
        out@ == replaced(hay@, pat@, with@),
{
    let h = chars_of(hay);
    let p = chars_of(pat);
    let mut out = String::new();
    let mut i: usize = 0;
    while i < h.len()
        invariant
            i <= h.len(),
            h@ == hay@,
            p@ == pat@,
            out@ + replaced_from(hay@, pat@, with@, i as int) == replaced(hay@, pat@, with@),
        decreases h.len() - i,
    {
        let ghost before = out@;
        if p.len() == 0 {
            out.append(with);
            out.push(h[i]);
            assert(out@ + replaced_from(hay@, pat@, with@, i + 1) == before + (with@ + seq![
                hay@[i as int],
            ] + replaced_from(hay@, pat@, with@, i + 1)));
            i += 1;
        } else if matches_at(h.as_slice(), p.as_slice(), i) {
            out.append(with);
            assert(out@ + replaced_from(hay@, pat@, with@, i + p.len()) == before + (with@
                + replaced_from(hay@, pat@, with@, i + p.len())));
            i += p.len();
        } else {
            out.push(h[i]);
            assert(out@ + replaced_from(hay@, pat@, with@, i + 1) == before + (seq![
                hay@[i as int],
            ] + replaced_from(hay@, pat@, with@, i + 1)));
            i += 1;
        }
    }
    if p.len() == 0 {
        out.append(with);
    }
    assert(out@ == replaced(hay@, pat@, with@)) by {
        assert(replaced_from(hay@, pat@, with@, h.len() as int) == if pat@.len() == 0 {
            with@
        } else {
            Seq::<char>::empty()
        });
    }
    out
}

/// The character that writes the digit `d`.
pub fn digit_of(d: u8) -> (c: char)
    requires
        d < 10,
    ensures
        c == digit_char(d as nat),
{
    if d == 0 {
        '0'
    } else if d == 1 {
        '1'
    } else if d == 2 {
        '2'
    } else if d == 3 {
        '3'
    } else if d == 4 {
        '4'
    } else if d == 5 {
        '5'
    } else if d == 6 {
        '6'
    } else if d == 7 {
        '7'
    } else if d == 8 {
        '8'
    } else {
        '9'
    }
}

/// The decimal form of `n`, as `to_string` of std gives it for an unsigned
/// integer.
pub fn decimal(n: u64) -> (out: String)
    ensures
        out@ == decimal_text(n as nat),
    decreases n,
{
    if n < 10 {
        let mut out = String::new();
        out.push(digit_of(n as u8));
        out
    } else {
        let mut out = decimal(n / 10);
        out.push(digit_of((n % 10) as u8));
        out
    }
}

/// The texts in `parts`, one after the other, with `sep` between neighbours.
pub fn join(parts: &[String], sep: &str) -> (out: String)
    ensures
        out@ == joined(parts.deep_view(), sep@),
{
    let mut out = String::new();
    let mut i: usize = 0;
    while i < parts.len()
        invariant
            i <= parts.len(),
            out@ == joined(parts.deep_view().subrange(0, i as int), sep@),
        decreases parts.len() - i,
    {
        let ghost upto = parts.deep_view().subrange(0, i + 1);
        assert(upto.drop_last() == parts.deep_view().subrange(0, i as int));
        assert(upto.last() == parts[i as int]@);
        if i > 0 {
            out.append(sep);
        }
        out.append(parts[i].as_str());
        i += 1;
    }
    assert(parts.deep_view() == parts.deep_view().subrange(0, parts.len() as int));
    out
}

/// A copy of every text in `texts`, in order.
pub fn copy_texts(texts: &[String]) -> (out: Vec<String>)
    ensures
        out.deep_view() == texts.deep_view(),
{
    let mut out: Vec<String> = Vec::new();
    let mut i: usize = 0;
    while i < texts.len()
        invariant
            i <= texts.len(),
            out.deep_view() == texts.deep_view().subrange(0, i as int),
        decreases texts.len() - i,
    {
        let ghost before = out.deep_view();
        out.push(texts[i].clone());
        assert(out.deep_view() == before.push(texts[i as int]@));
        i += 1;
    }
    assert(texts.deep_view() == texts.deep_view().subrange(0, texts.len() as int));
    out
}

/// `prefix`, then ` (index/count)` in decimal.
pub open spec fn counted_text(prefix: Seq<char>, index: nat, count: nat) -> Seq<char> {
    prefix + " ("@ + decimal_text(index) + "/"@ + decimal_text(count) + ")"@
}

/// `prefix`, then ` (index/count)` in decimal.
pub fn counted(prefix: &str, index: usize, count: usize) -> (out: String)
    ensures
        out@ == counted_text(prefix@, index as nat, count as nat),
{
    let mut out = String::from_str(prefix);
    out.append(" (");
    out.append(decimal(index as u64).as_str());
    out.append("/");
    out.append(decimal(count as u64).as_str());
    out.append(")");
    out
}

/// What `str::to_lowercase` gives for `s`.
pub uninterp spec fn lowercase_of(s: Seq<char>) -> Seq<char>;

/// What `str::trim` gives for `s`.
pub uninterp spec fn trimmed(s: Seq<char>) -> Seq<char>;

/// Calls `str::to_lowercase` of std: `s` with each character in its lower
/// case, as Unicode defines it. Not proved: that the result is the named one.
#[verifier::external_body]
pub(crate) fn lowercase(s: &str) -> (r: String)
    ensures
        r@ == lowercase_of(s@),
{
    s.to_lowercase()
}

/// Calls `str::trim` of std: `s` without the white space at its two ends.
/// Not proved: that the result is the named one.
#[verifier::external_body]
pub(crate) fn trim(s: &str) -> (r: String)
    ensures
        r@ == trimmed(s@),
{
    s.trim().to_string()
}

/// The decimal form of a number is never empty.
pub proof fn lemma_decimal_text_len(n: nat)
    ensures
        decimal_text(n).len() >= 1,
        n >= 10 ==> decimal_text(n).len() >= 2,
    decreases n,
{
    if n >= 10 {
        lemma_decimal_text_len(n / 10);
    }
}

/// Different numbers have different decimal forms.
pub proof fn lemma_decimal_text_injective(a: nat, b: nat)
    requires
        decimal_text(a) == decimal_text(b),
    ensures
        a == b,
    decreases a,
{
    lemma_decimal_text_len(a);
    lemma_decimal_text_len(b);
    if a < 10 && b < 10 {
        assert(decimal_text(a)[0] == digit_char(a));
        assert(decimal_text(b)[0] == digit_char(b));
    } else if a < 10 || b < 10 {
    } else {
        let x = decimal_text(a / 10);
        let y = decimal_text(b / 10);
        assert(decimal_text(a).last() == digit_char(a % 10));
        assert(decimal_text(b).last() == digit_char(b % 10));
        assert(decimal_text(a).drop_last() =~= x);
        assert(decimal_text(b).drop_last() =~= y);
        lemma_decimal_text_injective(a / 10, b / 10);
    }
}

} // verus!

//! Text helpers: trimming, searching, case folding and number rendering over characters.

use vstd::prelude::*;
use vstd::string::*;

verus! {

/// The characters that carry the Unicode property `White_Space`.
pub open spec fn is_white_space(c: char) -> bool {
    ||| 0x09 <= c as u32 <= 0x0d
    ||| c as u32 == 0x20
    ||| c as u32 == 0x85
    ||| c as u32 == 0xa0
    ||| c as u32 == 0x1680
    ||| 0x2000 <= c as u32 <= 0x200a
    ||| c as u32 == 0x2028
    ||| c as u32 == 0x2029
    ||| c as u32 == 0x202f
    ||| c as u32 == 0x205f
    ||| c as u32 == 0x3000
}

/// `s` without its leading white space.
pub open spec fn trim_start(s: Seq<char>) -> Seq<char>
    decreases s.len(),
{
    if s.len() > 0 && is_white_space(s[0]) {
        trim_start(s.drop_first())
    } else {
        s
    }
}

/// `s` without its trailing white space.
pub open spec fn trim_end(s: Seq<char>) -> Seq<char>
    decreases s.len(),
{
    if s.len() > 0 && is_white_space(s.last()) {
        trim_end(s.drop_last())
    } else {
        s
    }
}

/// `s` without white space at either end.
pub open spec fn trimmed(s: Seq<char>) -> Seq<char> {
    trim_end(trim_start(s))
}

/// Whether nothing but white space stands in `s`.
pub open spec fn blank(s: Seq<char>) -> bool {
    trimmed(s).len() == 0
}

/// Whether `needle` occurs somewhere in `s`.
pub open spec fn occurs_in(needle: Seq<char>, s: Seq<char>) -> bool {
    exists|i: int|
        0 <= i && i + needle.len() <= s.len() && #[trigger] s.subrange(i, i + needle.len())
            == needle
}

/// The lower-case form of an ASCII capital; any other character as it is.
pub open spec fn ascii_lower(c: char) -> char {
    if 'A' <= c && c <= 'Z' {
        ((c as u8 + 32) as u8) as char
    } else {
        c
    }
}

/// `s` with every ASCII capital in lower case.
pub open spec fn ascii_lowered(s: Seq<char>) -> Seq<char> {
    s.map_values(|c: char| ascii_lower(c))
}

/// Tests a character for the property `White_Space`.
pub fn is_white_space_char(c: char) -> (r: bool)
    ensures
        r == is_white_space(c),
{
    let v: u32 = c as u32;
    (0x09 <= v && v <= 0x0d) || v == 0x20 || v == 0x85 || v == 0xa0 || v == 0x1680 || (0x2000 <= v
        && v <= 0x200a) || v == 0x2028 || v == 0x2029 || v == 0x202f || v == 0x205f || v == 0x3000
}

/// Collects the characters of `s`.
pub fn to_chars(s: &str) -> (r: Vec<char>)
    ensures
        r@ == s@,
{
    let mut out: Vec<char> = Vec::new();
    for c in it: s.chars()
        invariant
            it.seq() == s@,
            out@ == s@.take(it.index() as int),
    {
        out.push(c);
        proof {
            assert(s@.take(it.index() as int).push(s@[it.index() as int]) == s@.take(
                it.index() as int + 1,
            ));
        }
    }
    assert(s@.take(s@.len() as int) == s@);
    out
}

/// The number of leading white-space characters of `v`.
fn leading_blank(v: &Vec<char>) -> (n: usize)
    ensures
        n <= v@.len(),
        v@.skip(n as int) == trim_start(v@),
{
    let mut n: usize = 0;
    proof {
        assert(v@.skip(0) == v@);
    }
    while n < v.len() && is_white_space_char(v[n])
        invariant
            n <= v@.len(),
            trim_start(v@.skip(n as int)) == trim_start(v@),
        decreases v@.len() - n,
    {
        proof {
            assert(v@.skip(n as int).drop_first() == v@.skip(n + 1));
        }
        n = n + 1;
    }
    n
}

/// The length of the part of `v` from `start` on that is left when trailing white space goes.
fn trailing_end(v: &Vec<char>, start: usize) -> (n: usize)
    requires
        start <= v@.len(),
    ensures
        start <= n <= v@.len(),
        v@.subrange(start as int, n as int) == trim_end(v@.skip(start as int)),
{
    let mut n: usize = v.len();
    proof {
        assert(v@.subrange(start as int, n as int) == v@.skip(start as int));
    }
    while n > start && is_white_space_char(v[n - 1])
        invariant
            start <= n <= v@.len(),
            trim_end(v@.subrange(start as int, n as int)) == trim_end(v@.skip(start as int)),
        decreases n,
    {
        proof {
            assert(v@.subrange(start as int, n as int).drop_last() == v@.subrange(
                start as int,
                n - 1,
            ));
        }
        n = n - 1;
    }
    n
}

/// `s` without white space at either end.
pub fn trim<'a>(s: &'a str) -> (r: &'a str)
    ensures
        r@ == trimmed(s@),
{
    let v: Vec<char> = to_chars(s);
    let from: usize = leading_blank(&v);
    let to: usize = trailing_end(&v, from);
    s.substring_char(from, to)
}

/// Whether nothing but white space stands in `s`.
pub fn is_blank(s: &str) -> (r: bool)
    ensures
        r == blank(s@),
{
    trim(s).is_empty()
}

/// Whether two texts hold the same characters.
pub fn same_text(a: &str, b: &str) -> (r: bool)
    ensures
        r == (a@ == b@),
{
    let x: Vec<char> = to_chars(a);
    let y: Vec<char> = to_chars(b);
    same_chars(&x, &y)
}

fn same_chars(x: &Vec<char>, y: &Vec<char>) -> (r: bool)
    ensures
        r == (x@ == y@),
{
    x.len() == y.len() && occurs_at(x, y, 0)
}

/// Whether `needle` stands in `v` at position `at`.
fn occurs_at(needle: &Vec<char>, v: &Vec<char>, at: usize) -> (r: bool)
    requires
        at + needle@.len() <= v@.len(),
    ensures
        r == (v@.subrange(at as int, at + needle@.len()) == needle@),
        at == 0 && needle@.len() == v@.len() ==> r == (needle@ == v@),
{
    let mut i: usize = 0;
    let total: usize = v.len();
    while i < needle.len()
        invariant
            i <= needle@.len(),
            at + needle@.len() <= total,
            total == v@.len(),
            forall|k: int| 0 <= k < i ==> needle@[k] == #[trigger] v@.subrange(at as int, at + needle@.len())[k],
        decreases needle@.len() - i,
    {
        if needle[i] != v[at + i] {
            proof {
                assert(v@.subrange(at as int, at + needle@.len())[i as int] == v@[at + i]);
                assert(v@.subrange(0, v@.len() as int) == v@);
            }
            return false;
        }
        i = i + 1;
    }
    proof {
        assert(v@.subrange(at as int, at + needle@.len()) == needle@);
        assert(v@.subrange(0, v@.len() as int) == v@);
    }
    true
}

/// Whether `s` begins with `prefix`.
pub fn starts_with(s: &str, prefix: &str) -> (r: bool)
    ensures
        r == prefix@.is_prefix_of(s@),
{
    let v: Vec<char> = to_chars(s);
    let p: Vec<char> = to_chars(prefix);
    p.len() <= v.len() && occurs_at(&p, &v, 0)
}

/// Whether `needle` occurs in `s`.
pub fn contains_text(s: &str, needle: &str) -> (r: bool)
    ensures
        r == occurs_in(needle@, s@),
{
    let v: Vec<char> = to_chars(s);
    let p: Vec<char> = to_chars(needle);
    if p.len() > v.len() {
        return false;
    }
    let last: usize = v.len() - p.len();
    let mut i: usize = 0;
    while i < last
        invariant
            last == v@.len() - p@.len(),
            i <= last,
            forall|k: int| 0 <= k < i ==> #[trigger] v@.subrange(k, k + p@.len()) != p@,
            v@ == s@,
            p@ == needle@,
        decreases last - i,
    {
        if occurs_at(&p, &v, i) {
            return true;
        }
        i = i + 1;
    }
    occurs_at(&p, &v, last)
}

/// The lower-case form of an ASCII capital; any other character as it is.
pub fn ascii_lower_char(c: char) -> (r: char)
    ensures
        r == ascii_lower(c),
{
    if 'A' <= c && c <= 'Z' {
        let b: u8 = c as u8;
        (b + 32) as char
    } else {
        c
    }
}

/// Appends one character to the end of a `String` (`std::string::String::push`).
pub assume_specification[ String::push ](s: &mut String, c: char)
    ensures
        final(s)@ == old(s)@.push(c),
;

/// `s` with every ASCII capital in lower case.
pub fn to_ascii_lowercase(s: &str) -> (r: String)
    ensures
        r@ == ascii_lowered(s@),
{
    let v: Vec<char> = to_chars(s);
    let mut out: String = String::new();
    let mut i: usize = 0;
    while i < v.len()
        invariant
            i <= v@.len(),
            out@ == ascii_lowered(v@.take(i as int)),
        decreases v@.len() - i,
    {
        out.push(ascii_lower_char(v[i]));
        i = i + 1;
        proof {
            assert(ascii_lowered(v@.take(i as int)) == ascii_lowered(v@.take(i - 1)).push(
                ascii_lower(v@[i - 1]),
            ));
        }
    }
    proof {
        assert(v@.take(v@.len() as int) == v@);
    }
    out
}

/// `s` without any repetition of `suffix` at its end.
pub open spec fn trim_trailing(s: Seq<char>, suffix: Seq<char>) -> Seq<char>
    decreases s.len(),
{
    if suffix.len() > 0 && suffix.is_suffix_of(s) {
        trim_trailing(s.take(s.len() - suffix.len()), suffix)
    } else {
        s
    }
}

/// `s` without any repetition of `suffix` at its end.
pub fn trim_end_matches<'a>(s: &'a str, suffix: &str) -> (r: &'a str)
    requires
        suffix@.len() > 0,
    ensures
        r@ == trim_trailing(s@, suffix@),
{
    let v: Vec<char> = to_chars(s);
    let p: Vec<char> = to_chars(suffix);
    let mut n: usize = v.len();
    proof {
        assert(v@.take(n as int) == v@);
    }
    while n >= p.len() && occurs_at(&p, &v, n - p.len())
        invariant
            n <= v@.len(),
            p@.len() > 0,
            trim_trailing(v@.take(n as int), p@) == trim_trailing(v@, p@),
        decreases n,
    {
        proof {
            let now = v@.take(n as int);
            assert(now.subrange(now.len() - p@.len(), now.len() as int) == v@.subrange(
                n - p@.len(),
                n as int,
            ));
            assert(p@.is_suffix_of(now));
            assert(now.take(now.len() - p@.len()) == v@.take(n - p@.len()));
        }
        n = n - p.len();
    }
    proof {
        let now = v@.take(n as int);
        if p@.is_suffix_of(now) {
            assert(now.subrange(now.len() - p@.len(), now.len() as int) == v@.subrange(
                n - p@.len(),
                n as int,
            ));
        }
        assert(s@.subrange(0, n as int) == v@.take(n as int));
    }
    s.substring_char(0, n)
}

/// What follows `prefix` in `s`, where `s` begins with it.
pub fn strip_prefix<'a>(s: &'a str, prefix: &str) -> (r: Option<&'a str>)
    ensures
        r is Some <==> prefix@.is_prefix_of(s@),
        r matches Some(rest) ==> rest@ == s@.skip(prefix@.len() as int),
{
    if !starts_with(s, prefix) {
        return None;
    }
    let from: usize = prefix.unicode_len();
    let to: usize = s.unicode_len();
    Some(s.substring_char(from, to))
}

/// Whether two texts agree when ASCII capitals count as lower case.
pub fn eq_ignore_ascii_case(a: &str, b: &str) -> (r: bool)
    ensures
        r == (ascii_lowered(a@) == ascii_lowered(b@)),
{
    same_text(to_ascii_lowercase(a).as_str(), to_ascii_lowercase(b).as_str())
}

/// Whether a character is a quotation mark that keys are sometimes pasted with.
pub open spec fn is_quote(c: char) -> bool {
    c == '"' || c == '\''
}

/// `s` without quotation marks at its start.
pub open spec fn unquoted_start(s: Seq<char>) -> Seq<char>
    decreases s.len(),
{
    if s.len() > 0 && is_quote(s[0]) {
        unquoted_start(s.drop_first())
    } else {
        s
    }
}

/// `s` without quotation marks at its end.
pub open spec fn unquoted_end(s: Seq<char>) -> Seq<char>
    decreases s.len(),
{
    if s.len() > 0 && is_quote(s.last()) {
        unquoted_end(s.drop_last())
    } else {
        s
    }
}

/// `s` without quotation marks at either end.
pub fn trim_quotes<'a>(s: &'a str) -> (r: &'a str)
    ensures
        r@ == unquoted_end(unquoted_start(s@)),
{
    let v: Vec<char> = to_chars(s);
    let mut from: usize = 0;
    proof {
        assert(v@.skip(0) == v@);
    }
    while from < v.len() && (v[from] == '"' || v[from] == '\'')
        invariant
            from <= v@.len(),
            unquoted_start(v@.skip(from as int)) == unquoted_start(v@),
        decreases v@.len() - from,
    {
        proof {
            assert(v@.skip(from as int).drop_first() == v@.skip(from + 1));
        }
        from = from + 1;
    }
    let mut to: usize = v.len();
    proof {
        assert(v@.subrange(from as int, to as int) == v@.skip(from as int));
    }
    while to > from && (v[to - 1] == '"' || v[to - 1] == '\'')
        invariant
            from <= to <= v@.len(),
            unquoted_end(v@.subrange(from as int, to as int)) == unquoted_end(
                v@.skip(from as int),
            ),
        decreases to,
    {
        proof {
            assert(v@.subrange(from as int, to as int).drop_last() == v@.subrange(
                from as int,
                to - 1,
            ));
        }
        to = to - 1;
    }
    s.substring_char(from, to)
}

/// The character for a hexadecimal digit, in lower case.
pub open spec fn hex_digit(d: int) -> char {
    if d < 10 {
        ((d + 48) as u8) as char
    } else {
        ((d + 87) as u8) as char
    }
}

/// The low `count` hexadecimal digits of `n`, the most significant first.
pub open spec fn hex_digits(n: nat, count: nat) -> Seq<char>
    decreases count,
{
    if count == 0 {
        Seq::empty()
    } else {
        hex_digits(n / 16, (count - 1) as nat).push(hex_digit((n % 16) as int))
    }
}

/// The decimal digits of `n`, without leading zeros.
pub open spec fn decimal_digits(n: nat) -> Seq<char>
    decreases n,
{
    if n < 10 {
        seq![hex_digit(n as int)]
    } else {
        decimal_digits(n / 10).push(hex_digit((n % 10) as int))
    }
}

fn hex_digit_char(d: u8) -> (r: char)
    requires
        d < 16,
    ensures
        r == hex_digit(d as int),
{
    if d < 10 {
        (d + 48) as char
    } else {
        (d + 87) as char
    }
}

/// The sixteen hexadecimal digits of `n`.
pub fn hex16(n: u64) -> (r: String)
    ensures
        r@ == hex_digits(n as nat, 16),
{
    hex_of(n, 16)
}

fn hex_of(n: u64, count: u8) -> (r: String)
    ensures
        r@ == hex_digits(n as nat, count as nat),
    decreases count,
{
    if count == 0 {
        String::new()
    } else {
        let mut out: String = hex_of(n / 16, count - 1);
        out.push(hex_digit_char((n % 16) as u8));
        out
    }
}

/// Renders `n` in decimal.
pub fn decimal(n: u64) -> (r: String)
    ensures
        r@ == decimal_digits(n as nat),
    decreases n,
{
    let mut out: String = if n < 10 {
        String::new()
    } else {
        decimal(n / 10)
    };
    out.push(hex_digit_char((n % 10) as u8));
    proof {
        if n < 10 {
            assert(out@ == seq![hex_digit(n as int)]);
        }
    }
    out
}

/// Trimming what is already trimmed changes nothing.
pub proof fn trimming_settles(s: Seq<char>)
    ensures
        trimmed(trimmed(s)) == trimmed(s),
{
    lemma_trim_start_head(s);
    lemma_trim_end_tail(trim_start(s));
    let t = trimmed(s);
    if t.len() > 0 {
        lemma_trim_end_keeps_head(trim_start(s));
        assert(trim_start(t) == t);
        assert(trim_end(t) == t);
    }
}

proof fn lemma_trim_start_head(s: Seq<char>)
    ensures
        trim_start(s).len() > 0 ==> !is_white_space(trim_start(s)[0]),
    decreases s.len(),
{
    if s.len() > 0 && is_white_space(s[0]) {
        lemma_trim_start_head(s.drop_first());
    }
}

proof fn lemma_trim_end_tail(s: Seq<char>)
    ensures
        trim_end(s).len() > 0 ==> !is_white_space(trim_end(s).last()),
        trim_end(s).len() <= s.len(),
    decreases s.len(),
{
    if s.len() > 0 && is_white_space(s.last()) {
        lemma_trim_end_tail(s.drop_last());
    }
}

proof fn lemma_trim_end_keeps_head(s: Seq<char>)
    ensures
        trim_end(s).len() > 0 ==> trim_end(s)[0] == s[0],
    decreases s.len(),
{
    if s.len() > 0 && is_white_space(s.last()) {
        lemma_trim_end_keeps_head(s.drop_last());
    }
}

/// Trimming takes white space from both ends, all of it, and nothing else.
pub proof fn trimming_takes_only_white_space_around(s: Seq<char>)
    ensures
        exists|i: int, j: int|
            0 <= i <= j <= s.len() && #[trigger] s.subrange(i, j) == trimmed(s) && (forall|k: int|
                0 <= k < s.len() && !(i <= k < j) ==> is_white_space(#[trigger] s[k])) && (i < j
                ==> !is_white_space(s[i]) && !is_white_space(s[j - 1])),
{
    let i = lemma_start_of_trimmed(s);
    let rest = s.skip(i);
    let n = lemma_end_of_trimmed(rest);
    assert(s.subrange(i, i + n) =~= rest.take(n));
    assert forall|k: int| 0 <= k < s.len() && !(i <= k < i + n) implies is_white_space(
        #[trigger] s[k],
    ) by {
        if k >= i + n {
            assert(rest[k - i] == s[k]);
        }
    }
    if n > 0 {
        assert(rest[n - 1] == s[i + n - 1]);
    }
    assert(s.subrange(i, i + n) == trimmed(s));
}

proof fn lemma_start_of_trimmed(s: Seq<char>) -> (i: int)
    ensures
        0 <= i <= s.len(),
        trim_start(s) == s.skip(i),
        forall|k: int| 0 <= k < i ==> is_white_space(#[trigger] s[k]),
        i < s.len() ==> !is_white_space(s[i]),
    decreases s.len(),
{
    if s.len() > 0 && is_white_space(s[0]) {
        let rest = s.drop_first();
        let i = lemma_start_of_trimmed(rest);
        assert(rest.skip(i) =~= s.skip(i + 1));
        assert forall|k: int| 0 <= k < i + 1 implies is_white_space(#[trigger] s[k]) by {
            if k > 0 {
                assert(rest[k - 1] == s[k]);
            }
        }
        if i + 1 < s.len() {
            assert(rest[i] == s[i + 1]);
        }
        i + 1
    } else {
        assert(s.skip(0) =~= s);
        0
    }
}

proof fn lemma_end_of_trimmed(s: Seq<char>) -> (n: int)
    ensures
        0 <= n <= s.len(),
        trim_end(s) == s.take(n),
        forall|k: int| n <= k < s.len() ==> is_white_space(#[trigger] s[k]),
        n > 0 ==> !is_white_space(s[n - 1]),
        s.len() > 0 && !is_white_space(s[0]) ==> n > 0,
    decreases s.len(),
{
    if s.len() > 0 && is_white_space(s.last()) {
        let front = s.drop_last();
        let n = lemma_end_of_trimmed(front);
        assert(front.take(n) =~= s.take(n));
        assert forall|k: int| n <= k < s.len() implies is_white_space(#[trigger] s[k]) by {
            if k < front.len() {
                assert(front[k] == s[k]);
            }
        }
        if n > 0 {
            assert(front[n - 1] == s[n - 1]);
        }
        if front.len() > 0 {
            assert(front[0] == s[0]);
        }
        n
    } else {
        assert(s.take(s.len() as int) =~= s);
        s.len() as int
    }
}

/// A text is blank exactly where it holds nothing but white space.
pub proof fn a_blank_text_is_all_white_space(s: Seq<char>)
    ensures
        blank(s) <==> forall|k: int| 0 <= k < s.len() ==> is_white_space(#[trigger] s[k]),
{
    let i = lemma_start_of_trimmed(s);
    let rest = s.skip(i);
    let n = lemma_end_of_trimmed(rest);
    if i < s.len() {
        assert(rest[0] == s[i]);
    }
}

/// A text occurs in every text that holds it, wherever it stands, and in none that is shorter.
pub proof fn a_contained_text_occurs(before: Seq<char>, needle: Seq<char>, after: Seq<char>)
    ensures
        occurs_in(needle, before + needle + after),
        needle.len() > before.len() + after.len() ==> !occurs_in(needle, before + after),
{
    let s = before + needle + after;
    let at = before.len() as int;
    assert(s.subrange(at, at + needle.len()) =~= needle);
}

/// Lower case changes ASCII capitals and nothing else, each by the same distance.
pub proof fn only_capitals_change_in_lower_case(s: Seq<char>, i: int)
    requires
        0 <= i < s.len(),
    ensures
        ascii_lowered(s).len() == s.len(),
        65 <= s[i] as u32 <= 90 ==> ascii_lowered(s)[i] as u32 == s[i] as u32 + 32,
        !(65 <= s[i] as u32 <= 90) ==> ascii_lowered(s)[i] == s[i],
{
}

/// The number that decimal digits stand for.
pub open spec fn read_decimal(digits: Seq<char>) -> int
    decreases digits.len(),
{
    if digits.len() == 0 {
        0
    } else {
        read_decimal(digits.drop_last()) * 10 + (digits.last() as int - 48)
    }
}

/// A number is read back from the digits it is written with.
pub proof fn a_written_number_is_read_back(n: nat)
    ensures
        read_decimal(decimal_digits(n)) == n,
        decimal_digits(n).len() > 0,
        n > 0 ==> decimal_digits(n)[0] != '0',
        forall|k: int|
            0 <= k < decimal_digits(n).len() ==> '0' <= #[trigger] decimal_digits(n)[k] <= '9',
    decreases n,
{
    reveal_with_fuel(read_decimal, 2);
    if n < 10 {
        assert(decimal_digits(n).drop_last() =~= Seq::empty());
    } else {
        a_written_number_is_read_back(n / 10);
        assert(decimal_digits(n).drop_last() =~= decimal_digits(n / 10));
        assert(decimal_digits(n)[0] == decimal_digits(n / 10)[0]);
        assert forall|k: int| 0 <= k < decimal_digits(n).len() implies '0' <= #[trigger] decimal_digits(
            n,
        )[k] <= '9' by {
            if k < decimal_digits(n / 10).len() {
                assert(decimal_digits(n)[k] == decimal_digits(n / 10)[k]);
            }
        }
    }
}

/// Spaces, line ends and the other blanks of Unicode are white space; nothing that can be seen is.
pub proof fn blanks_are_white_space(c: char)
    ensures
        is_white_space('\t'),
        is_white_space('\n'),
        is_white_space('\u{b}'),
        is_white_space('\u{c}'),
        is_white_space('\r'),
        is_white_space(' '),
        is_white_space('\u{85}'),
        is_white_space('\u{a0}'),
        is_white_space('\u{1680}'),
        is_white_space('\u{2000}'),
        is_white_space('\u{2001}'),
        is_white_space('\u{2002}'),
        is_white_space('\u{2003}'),
        is_white_space('\u{2004}'),
        is_white_space('\u{2005}'),
        is_white_space('\u{2006}'),
        is_white_space('\u{2007}'),
        is_white_space('\u{2008}'),
        is_white_space('\u{2009}'),
        is_white_space('\u{200a}'),
        is_white_space('\u{2028}'),
        is_white_space('\u{2029}'),
        is_white_space('\u{202f}'),
        is_white_space('\u{205f}'),
        is_white_space('\u{3000}'),
        is_white_space(c) ==> c == '\t' || c == '\n' || c == '\u{b}' || c == '\u{c}' || c == '\r'
            || c == ' ' || c == '\u{85}' || c == '\u{a0}' || c == '\u{1680}' || c == '\u{2000}'
            || c == '\u{2001}' || c == '\u{2002}' || c == '\u{2003}' || c == '\u{2004}'
            || c == '\u{2005}' || c == '\u{2006}' || c == '\u{2007}' || c == '\u{2008}'
            || c == '\u{2009}' || c == '\u{200a}' || c == '\u{2028}' || c == '\u{2029}'
            || c == '\u{202f}' || c == '\u{205f}' || c == '\u{3000}',
        '!' <= c <= '~' ==> !is_white_space(c),
{
}

/// Quotation marks are taken off both ends and nowhere else: what is left is a stretch of the text
/// with nothing but marks around it, and neither of its ends is one.
pub proof fn only_quotes_around_are_taken_off(s: Seq<char>)
    ensures
        exists|i: int, j: int|
            0 <= i <= j <= s.len() && #[trigger] s.subrange(i, j) == unquoted_end(
                unquoted_start(s),
            ) && (forall|k: int|
                0 <= k < s.len() && !(i <= k < j) ==> #[trigger] s[k] == '"' || s[k] == '\'')
                && (i < j ==> s[i] != '"' && s[i] != '\'' && s[j - 1] != '"' && s[j - 1] != '\''),
{
    let i = lemma_start_of_unquoted(s);
    let rest = s.skip(i);
    let n = lemma_end_of_unquoted(rest);
    assert(s.subrange(i, i + n) =~= rest.take(n));
    assert forall|k: int| 0 <= k < s.len() && !(i <= k < i + n) implies #[trigger] s[k] == '"'
        || s[k] == '\'' by {
        if k >= i + n {
            assert(rest[k - i] == s[k]);
        }
    }
    if n > 0 {
        assert(rest[n - 1] == s[i + n - 1]);
    }
    assert(s.subrange(i, i + n) == unquoted_end(unquoted_start(s)));
}

proof fn lemma_start_of_unquoted(s: Seq<char>) -> (i: int)
    ensures
        0 <= i <= s.len(),
        unquoted_start(s) == s.skip(i),
        forall|k: int| 0 <= k < i ==> #[trigger] s[k] == '"' || s[k] == '\'',
        i < s.len() ==> s[i] != '"' && s[i] != '\'',
    decreases s.len(),
{
    if s.len() > 0 && is_quote(s[0]) {
        let rest = s.drop_first();
        let i = lemma_start_of_unquoted(rest);
        assert(rest.skip(i) =~= s.skip(i + 1));
        assert forall|k: int| 0 <= k < i + 1 implies #[trigger] s[k] == '"' || s[k] == '\'' by {
            if k > 0 {
                assert(rest[k - 1] == s[k]);
            }
        }
        if i + 1 < s.len() {
            assert(rest[i] == s[i + 1]);
        }
        i + 1
    } else {
        assert(s.skip(0) =~= s);
        0
    }
}

proof fn lemma_end_of_unquoted(s: Seq<char>) -> (n: int)
    ensures
        0 <= n <= s.len(),
        unquoted_end(s) == s.take(n),
        forall|k: int| n <= k < s.len() ==> #[trigger] s[k] == '"' || s[k] == '\'',
        n > 0 ==> s[n - 1] != '"' && s[n - 1] != '\'',
    decreases s.len(),
{
    if s.len() > 0 && is_quote(s.last()) {
        let front = s.drop_last();
        let n = lemma_end_of_unquoted(front);
        assert(front.take(n) =~= s.take(n));
        assert forall|k: int| n <= k < s.len() implies #[trigger] s[k] == '"' || s[k] == '\'' by {
            if k < front.len() {
                assert(front[k] == s[k]);
            }
        }
        if n > 0 {
            assert(front[n - 1] == s[n - 1]);
        }
        n
    } else {
        assert(s.take(s.len() as int) =~= s);
        s.len() as int
    }
}

/// What is taken off the end is the suffix, as often as it stands there: one more of it changes
/// nothing, a text that does not end in it stays, and what is left does not end in it.
pub proof fn a_suffix_is_taken_off_as_often_as_it_stands(s: Seq<char>, suffix: Seq<char>)
    requires
        suffix.len() > 0,
    ensures
        trim_trailing(s + suffix, suffix) == trim_trailing(s, suffix),
        !suffix.is_suffix_of(s) ==> trim_trailing(s, suffix) == s,
        !suffix.is_suffix_of(trim_trailing(s, suffix)),
        trim_trailing(s, suffix).is_prefix_of(s),
    decreases s.len(),
{
    let longer = s + suffix;
    assert(longer.subrange(longer.len() - suffix.len(), longer.len() as int) =~= suffix);
    assert(suffix.is_suffix_of(longer));
    assert(longer.take(longer.len() - suffix.len()) =~= s);
    if suffix.is_suffix_of(s) {
        let shorter = s.take(s.len() - suffix.len());
        a_suffix_is_taken_off_as_often_as_it_stands(shorter, suffix);
        assert(trim_trailing(s, suffix) == trim_trailing(shorter, suffix));
        assert(shorter.is_prefix_of(s));
        let left = trim_trailing(shorter, suffix);
        assert(left =~= s.subrange(0, left.len() as int));
    }
}

/// The number that hexadecimal digits stand for.
pub open spec fn read_hex(digits: Seq<char>) -> int
    decreases digits.len(),
{
    if digits.len() == 0 {
        0
    } else {
        let d = digits.last() as int;
        read_hex(digits.drop_last()) * 16 + (if d >= 97 {
            d - 87
        } else {
            d - 48
        })
    }
}

/// How many numbers can be written with `count` hexadecimal digits.
pub open spec fn hex_numbers(count: nat) -> nat
    decreases count,
{
    if count == 0 {
        1
    } else {
        16 * hex_numbers((count - 1) as nat)
    }
}

/// A number is read back from its hexadecimal digits where they are enough for it, and there are as
/// many digits as were asked for.
pub proof fn a_hexadecimal_number_is_read_back(n: nat, count: nat)
    ensures
        hex_digits(n, count).len() == count,
        n < hex_numbers(count) ==> read_hex(hex_digits(n, count)) == n,
        forall|k: int|
            0 <= k < count ==> '0' <= #[trigger] hex_digits(n, count)[k] <= '9' || 'a'
                <= hex_digits(n, count)[k] <= 'f',
    decreases count,
{
    if count > 0 {
        let less = (count - 1) as nat;
        a_hexadecimal_number_is_read_back(n / 16, less);
        let digits = hex_digits(n, count);
        assert(digits.drop_last() =~= hex_digits(n / 16, less));
        assert forall|k: int| 0 <= k < count implies '0' <= #[trigger] digits[k] <= '9' || 'a'
            <= digits[k] <= 'f' by {
            if k < less {
                assert(digits[k] == hex_digits(n / 16, less)[k]);
            }
        }
        if n < hex_numbers(count) {
            assert(n / 16 < hex_numbers(less));
        }
    }
}

} // verus!

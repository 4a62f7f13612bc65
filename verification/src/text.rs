//! Text primitives: substring search, bounded splitting, trimming and number
//! parsing, each with a mathematical model over sequences of characters.

use vstd::prelude::*;
use vstd::string::StringSliceAdditionalSpecFns;
use vstd::utf8::encode_utf8_decode_utf8;

verus! {

/// `pat` occurs in `s` at character index `i`.
pub open spec fn matches_at(s: Seq<char>, pat: Seq<char>, i: int) -> bool {
    &&& 0 <= i
    &&& i + pat.len() <= s.len()
    &&& s.subrange(i, i + pat.len()) == pat
}

/// `i` is the leftmost index at which `pat` occurs in `s`.
pub open spec fn is_first_match(s: Seq<char>, pat: Seq<char>, i: int) -> bool {
    &&& matches_at(s, pat, i)
    &&& forall|j: int| 0 <= j < i ==> !matches_at(s, pat, j)
}

/// The leftmost index at which `pat` occurs in `s`, if it occurs at all.
pub open spec fn first_match(s: Seq<char>, pat: Seq<char>) -> Option<int> {
    if exists|i: int| is_first_match(s, pat, i) {
        Some(choose|i: int| is_first_match(s, pat, i))
    } else {
        None
    }
}

/// The parts of `s` before and after the leftmost occurrence of `pat`.
pub open spec fn split_at_first(s: Seq<char>, pat: Seq<char>) -> Option<(Seq<char>, Seq<char>)> {
    match first_match(s, pat) {
        Some(i) => Some((s.subrange(0, i), s.subrange(i + pat.len(), s.len() as int))),
        None => None,
    }
}

/// `s` cut into exactly `n` fields at its first `n - 1` occurrences of `pat`;
/// the last field keeps every later occurrence. `None` when `s` holds fewer
/// than `n - 1` occurrences, or when `n` is zero.
pub open spec fn split_exact(s: Seq<char>, pat: Seq<char>, n: nat) -> Option<Seq<Seq<char>>>
    decreases n,
{
    if n == 0 {
        None
    } else if n == 1 {
        Some(seq![s])
    } else {
        match split_at_first(s, pat) {
            Some((head, rest)) => match split_exact(rest, pat, (n - 1) as nat) {
                Some(tail) => Some(seq![head] + tail),
                None => None,
            },
            None => None,
        }
    }
}

/// The leftmost match is unique.
pub proof fn lemma_first_match_unique(s: Seq<char>, pat: Seq<char>, i: int)
    requires
        is_first_match(s, pat, i),
    ensures
        first_match(s, pat) == Some(i),
{
    let k = choose|k: int| is_first_match(s, pat, k);
    if k < i {
        assert(!matches_at(s, pat, k));
    } else if i < k {
        assert(!matches_at(s, pat, i));
    }
}

/// Without any occurrence there is no leftmost match.
pub proof fn lemma_first_match_absent(s: Seq<char>, pat: Seq<char>)
    requires
        forall|j: int| !matches_at(s, pat, j),
    ensures
        first_match(s, pat) is None,
{
}

/// A bounded split yields as many fields as were asked for.
pub proof fn lemma_split_exact_len(s: Seq<char>, pat: Seq<char>, n: nat)
    ensures
        split_exact(s, pat, n) matches Some(f) ==> f.len() == n,
    decreases n,
{
    if n >= 2 {
        match split_at_first(s, pat) {
            Some((head, rest)) => {
                lemma_split_exact_len(rest, pat, (n - 1) as nat);
            },
            None => {},
        }
    }
}

/// `c` does not occur in `s`.
pub open spec fn free_of(s: Seq<char>, c: char) -> bool {
    forall|i: int| 0 <= i < s.len() ==> s[i] != c
}

/// The fields `f` in one line, with `sep` between each two.
pub open spec fn joined(f: Seq<Seq<char>>, sep: Seq<char>) -> Seq<char>
    decreases f.len(),
{
    if f.len() == 0 {
        Seq::empty()
    } else if f.len() == 1 {
        f[0]
    } else {
        f[0] + sep + joined(f.drop_first(), sep)
    }
}

/// Where text that is free of the separator's first character is followed by
/// the separator, the leftmost occurrence of the separator is that one.
pub proof fn lemma_split_after_prefix(head: Seq<char>, sep: Seq<char>, tail: Seq<char>)
    requires
        sep.len() > 0,
        free_of(head, sep[0]),
    ensures
        first_match(head + sep + tail, sep) == Some(head.len() as int),
        split_at_first(head + sep + tail, sep) == Some((head, tail)),
{
    let s = head + sep + tail;
    let at = head.len() as int;
    assert(s.subrange(at, at + sep.len()) =~= sep);
    assert forall|j: int| 0 <= j < at implies !matches_at(s, sep, j) by {
        if matches_at(s, sep, j) {
            assert(s.subrange(j, j + sep.len())[0] == sep[0]);
            assert(s[j] == head[j]);
        }
    }
    lemma_first_match_unique(s, sep, at);
    assert(s.subrange(0, at) =~= head);
    assert(s.subrange(at + sep.len(), s.len() as int) =~= tail);
}

/// Splitting undoes joining: fields of which all but the last are free of the
/// separator's first character come back, one by one, from the line that
/// joins them.
pub proof fn lemma_split_joined(f: Seq<Seq<char>>, sep: Seq<char>)
    requires
        f.len() > 0,
        sep.len() > 0,
        forall|i: int| 0 <= i < f.len() - 1 ==> free_of(#[trigger] f[i], sep[0]),
    ensures
        split_exact(joined(f, sep), sep, f.len()) == Some(f),
    decreases f.len(),
{
    if f.len() == 1 {
        assert(seq![f[0]] =~= f);
    } else {
        let rest = f.drop_first();
        lemma_split_after_prefix(f[0], sep, joined(rest, sep));
        assert forall|i: int| 0 <= i < rest.len() - 1 implies free_of(
            #[trigger] rest[i],
            sep[0],
        ) by {
            assert(rest[i] == f[i + 1]);
        }
        lemma_split_joined(rest, sep);
        assert(seq![f[0]] + rest =~= f);
    }
}

/// The characters of `s`, in order.
pub fn to_chars(s: &str) -> (v: Vec<char>)
    ensures
        v@ == s@,
{
    let mut v: Vec<char> = Vec::new();
    for c in it: s.chars()
        invariant
            v@ == s@.take(it.index() as int),
            it.seq() == s@,
    {
        v.push(c);
    }
    v
}

/// Whether two strings hold the same characters.
pub fn str_equal(a: &str, b: &str) -> (r: bool)
    ensures
        r == (a@ == b@),
{
    let x = a.as_bytes();
    let y = b.as_bytes();
    proof {
        encode_utf8_decode_utf8(a@);
        encode_utf8_decode_utf8(b@);
    }
    if x.len() != y.len() {
        return false;
    }
    let mut i: usize = 0;
    while i < x.len()
        invariant
            i <= x.len(),
            x.len() == y.len(),
            x@ == a.spec_bytes(),
            y@ == b.spec_bytes(),
            forall|j: int| 0 <= j < i ==> x@[j] == y@[j],
        decreases x.len() - i,
    {
        if x[i] != y[i] {
            return false;
        }
        i += 1;
    }
    assert(x@ =~= y@);
    true
}

fn matches_here(hay: &Vec<char>, pat: &Vec<char>, i: usize) -> (r: bool)
    requires
        i + pat.len() <= hay.len(),
    ensures
        r == matches_at(hay@, pat@, i as int),
{
    let mut k: usize = 0;
    while k < pat.len()
        invariant
            k <= pat.len(),
            i + pat.len() <= hay.len(),
            forall|j: int| 0 <= j < k ==> hay@[i + j] == pat@[j],
        decreases pat.len() - k,
    {
        if hay[i + k] != pat[k] {
            assert(hay@.subrange(i as int, i + pat.len())[k as int] == hay@[i + k]);
            return false;
        }
        k += 1;
    }
    assert(hay@.subrange(i as int, i + pat.len()) =~= pat@);
    true
}

/// Leftmost occurrence of `pat` in `hay`, as a character index.
pub fn find_chars(hay: &Vec<char>, pat: &Vec<char>) -> (r: Option<usize>)
    ensures
        match r {
            Some(i) => first_match(hay@, pat@) == Some(i as int),
            None => first_match(hay@, pat@) is None,
        },
{
    if pat.len() > hay.len() {
        proof {
            lemma_first_match_absent(hay@, pat@);
        }
        return None;
    }
    let last: usize = hay.len() - pat.len();
    let mut i: usize = 0;
    while i <= last
        invariant
            i <= last + 1,
            last == hay.len() - pat.len(),
            forall|j: int| 0 <= j < i ==> !matches_at(hay@, pat@, j),
        decreases last + 1 - i,
    {
        if matches_here(hay, pat, i) {
            proof {
                lemma_first_match_unique(hay@, pat@, i as int);
            }
            return Some(i);
        }
        if i == last {
            proof {
                lemma_first_match_absent(hay@, pat@);
            }
            return None;
        }
        i += 1;
    }
    proof {
        lemma_first_match_absent(hay@, pat@);
    }
    None
}

/// Splits `s` around the leftmost occurrence of `pat`.
pub fn split_once<'a>(s: &'a str, pat: &str) -> (r: Option<(&'a str, &'a str)>)
    ensures
        match r {
            Some((head, rest)) => split_at_first(s@, pat@) == Some((head@, rest@)),
            None => split_at_first(s@, pat@) is None,
        },
{
    let hay = to_chars(s);
    let needle = to_chars(pat);
    match find_chars(&hay, &needle) {
        Some(i) => {
            assert(matches_at(s@, pat@, i as int));
            assert(i + needle.len() <= hay.len());
            let head = s.substring_char(0, i);
            let rest = s.substring_char(i + needle.len(), hay.len());
            Some((head, rest))
        },
        None => None,
    }
}

/// The views of a vector of string slices.
pub open spec fn views(v: Seq<&str>) -> Seq<Seq<char>> {
    Seq::new(v.len(), |i: int| v[i]@)
}

/// Cuts `s` into exactly `n` fields at its first `n - 1` occurrences of `pat`.
pub fn split_fields<'a>(s: &'a str, pat: &str, n: usize) -> (r: Option<Vec<&'a str>>)
    ensures
        match r {
            Some(v) => split_exact(s@, pat@, n as nat) == Some(views(v@)),
            None => split_exact(s@, pat@, n as nat) is None,
        },
{
    if n == 0 {
        return None;
    }
    let mut parts: Vec<&'a str> = Vec::new();
    let mut rest: &'a str = s;
    let mut left: usize = n;
    while left > 1
        invariant
            1 <= left <= n,
            parts.len() == n - left,
            split_exact(s@, pat@, n as nat) == match split_exact(rest@, pat@, left as nat) {
                Some(tail) => Some(views(parts@) + tail),
                None => None,
            },
        decreases left,
    {
        match split_once(rest, pat) {
            Some((head, tail)) => {
                proof {
                    let before = views(parts@);
                    let after = views(parts@.push(head));
                    assert(after =~= before + seq![head@]);
                    match split_exact(tail@, pat@, (left - 1) as nat) {
                        Some(t) => {
                            assert(before + (seq![head@] + t) =~= after + t);
                        },
                        None => {},
                    }
                }
                parts.push(head);
                rest = tail;
                left -= 1;
            },
            None => {
                return None;
            },
        }
    }
    proof {
        assert(views(parts@) + seq![rest@] =~= views(parts@.push(rest)));
    }
    parts.push(rest);
    Some(parts)
}

/// White space as the Unicode property `White_Space` defines it.
pub open spec fn is_whitespace(c: char) -> bool {
    let n = c as u32;
    ||| 0x09 <= n <= 0x0d
    ||| n == 0x20
    ||| n == 0x85
    ||| n == 0xa0
    ||| n == 0x1680
    ||| 0x2000 <= n <= 0x200a
    ||| n == 0x2028
    ||| n == 0x2029
    ||| n == 0x202f
    ||| n == 0x205f
    ||| n == 0x3000
}

/// Length of `s` without its trailing white space.
pub open spec fn trimmed_len(s: Seq<char>) -> nat
    decreases s.len(),
{
    if s.len() > 0 && is_whitespace(s.last()) {
        trimmed_len(s.drop_last())
    } else {
        s.len()
    }
}

/// `s` without its trailing white space.
pub open spec fn trimmed_end(s: Seq<char>) -> Seq<char> {
    s.take(trimmed_len(s) as int)
}

fn char_is_whitespace(c: char) -> (r: bool)
    ensures
        r == is_whitespace(c),
{
    let n: u32 = c as u32;
    (0x09 <= n && n <= 0x0d) || n == 0x20 || n == 0x85 || n == 0xa0 || n == 0x1680 || (0x2000 <= n
        && n <= 0x200a) || n == 0x2028 || n == 0x2029 || n == 0x202f || n == 0x205f || n == 0x3000
}

/// Removes trailing white space.
pub fn trim_end<'a>(s: &'a str) -> (r: &'a str)
    ensures
        r@ == trimmed_end(s@),
{
    let chars = to_chars(s);
    let mut end: usize = chars.len();
    assert(s@.take(end as int) =~= s@);
    while end > 0 && char_is_whitespace(chars[end - 1])
        invariant
            end <= chars.len(),
            chars@ == s@,
            trimmed_len(s@) == trimmed_len(s@.take(end as int)),
        decreases end,
    {
        proof {
            let cur = s@.take(end as int);
            assert(cur.last() == chars@[end - 1]);
            assert(cur.drop_last() =~= s@.take(end - 1));
        }
        end -= 1;
    }
    proof {
        let cur = s@.take(end as int);
        if end > 0 {
            assert(cur.last() == chars@[end - 1]);
        }
        assert(s@.take(end as int) =~= s@.subrange(0, end as int));
    }
    s.substring_char(0, end)
}

/// `s` without the line feeds at its end.
pub open spec fn without_line_ends(s: Seq<char>) -> Seq<char>
    decreases s.len(),
{
    if s.len() > 0 && s.last() == '\n' {
        without_line_ends(s.drop_last())
    } else {
        s
    }
}

/// Removes the line feeds at the end of `s`, and nothing else.
pub fn strip_line_ends<'a>(s: &'a str) -> (r: &'a str)
    ensures
        r@ == without_line_ends(s@),
{
    let chars = to_chars(s);
    let mut end: usize = chars.len();
    assert(s@.take(end as int) =~= s@);
    while end > 0 && chars[end - 1] == '\n'
        invariant
            end <= chars.len(),
            chars@ == s@,
            without_line_ends(s@) == without_line_ends(s@.take(end as int)),
        decreases end,
    {
        proof {
            let cur = s@.take(end as int);
            assert(cur.last() == chars@[end - 1]);
            assert(cur.drop_last() =~= s@.take(end - 1));
        }
        end -= 1;
    }
    proof {
        let cur = s@.take(end as int);
        if end > 0 {
            assert(cur.last() == chars@[end - 1]);
        }
        assert(cur =~= s@.subrange(0, end as int));
    }
    s.substring_char(0, end)
}

/// Value of `c` as a digit, with letters of either case counting from ten.
pub open spec fn digit_value(c: char) -> Option<int> {
    let n = c as u32 as int;
    if 0x30 <= n <= 0x39 {
        Some(n - 0x30)
    } else if 0x61 <= n <= 0x7a {
        Some(n - 0x61 + 10)
    } else if 0x41 <= n <= 0x5a {
        Some(n - 0x41 + 10)
    } else {
        None
    }
}

/// `c` is a digit in base `radix`.
pub open spec fn is_digit(c: char, radix: int) -> bool {
    digit_value(c) matches Some(d) && d < radix
}

/// Every character of `s` is a digit in base `radix`.
pub open spec fn all_digits(s: Seq<char>, radix: int) -> bool {
    forall|i: int| 0 <= i < s.len() ==> is_digit(#[trigger] s[i], radix)
}

/// The number that the digits `s` write in base `radix`, most significant first.
pub open spec fn digits_value(s: Seq<char>, radix: int) -> int
    decreases s.len(),
{
    if s.len() == 0 {
        0
    } else {
        digits_value(s.drop_last(), radix) * radix + digit_value(s.last()).unwrap()
    }
}

/// The unsigned 64-bit number that `s` writes in base `radix`: one or more
/// digits and nothing else, neither sign nor prefix nor space, the value
/// within range.
pub open spec fn parsed_u64(s: Seq<char>, radix: int) -> Option<u64> {
    if s.len() > 0 && all_digits(s, radix) && digits_value(s, radix) <= u64::MAX {
        Some(digits_value(s, radix) as u64)
    } else {
        None
    }
}

/// A digit string's value is no smaller than that of any of its prefixes.
pub proof fn lemma_digits_value_monotonic(s: Seq<char>, radix: int, k: int)
    requires
        radix >= 1,
        all_digits(s, radix),
        0 <= k <= s.len(),
    ensures
        0 <= digits_value(s.take(k), radix) <= digits_value(s, radix),
    decreases s.len() - k,
{
    if k == s.len() {
        assert(s.take(k) =~= s);
        lemma_digits_value_nonnegative(s, radix);
    } else {
        lemma_digits_value_monotonic(s, radix, k + 1);
        let longer = s.take(k + 1);
        assert(longer.drop_last() =~= s.take(k));
        assert(longer.last() == s[k]);
        assert(is_digit(s[k], radix));
        lemma_digits_value_nonnegative(s.take(k), radix);
        let shorter = digits_value(s.take(k), radix);
        assert(shorter * radix >= shorter) by (nonlinear_arith)
            requires
                shorter >= 0,
                radix >= 1,
        ;
    }
}

/// A digit string's value is never negative.
pub proof fn lemma_digits_value_nonnegative(s: Seq<char>, radix: int)
    requires
        radix >= 1,
        all_digits(s, radix),
    ensures
        0 <= digits_value(s, radix),
    decreases s.len(),
{
    if s.len() > 0 {
        assert(is_digit(s.last(), radix));
        assert forall|i: int| 0 <= i < s.drop_last().len() implies is_digit(
            #[trigger] s.drop_last()[i],
            radix,
        ) by {
            assert(s.drop_last()[i] == s[i]);
        }
        lemma_digits_value_nonnegative(s.drop_last(), radix);
        let shorter = digits_value(s.drop_last(), radix);
        assert(shorter * radix >= 0) by (nonlinear_arith)
            requires
                shorter >= 0,
                radix >= 1,
        ;
    }
}

/// The character that writes the digit `d`: `0` to `9`, then `a` to `z`.
pub open spec fn digit_char(d: int) -> char {
    if d < 10 {
        ((0x30 + d) as u8) as char
    } else {
        ((0x61 + d - 10) as u8) as char
    }
}

/// The digits that write `n` in base `radix`, most significant first, without
/// leading zeros; zero is written `0`.
pub open spec fn digits_of(n: nat, radix: nat) -> Seq<char>
    decreases n,
    via digits_of_decreases
{
    if radix >= 2 && n >= radix {
        digits_of(n / radix, radix).push(digit_char((n % radix) as int))
    } else {
        seq![digit_char(n as int)]
    }
}

#[via_fn]
proof fn digits_of_decreases(n: nat, radix: nat) {
    if radix >= 2 && n >= radix {
        assert(n / radix < n) by (nonlinear_arith)
            requires
                radix >= 2,
                n >= radix,
        ;
    }
}

/// What is written by [`digits_of`] is a number: one digit at least, digits
/// only, and of the value that was written.
pub proof fn lemma_digits_of(n: nat, radix: nat)
    requires
        2 <= radix <= 36,
    ensures
        digits_of(n, radix).len() > 0,
        all_digits(digits_of(n, radix), radix as int),
        digits_value(digits_of(n, radix), radix as int) == n,
        forall|i: int|
            0 <= i < digits_of(n, radix).len() ==> digit_value(#[trigger] digits_of(n, radix)[i])
                is Some,
    decreases n,
{
    if n >= radix {
        let shorter = digits_of(n / radix, radix);
        let d = (n % radix) as int;
        let s = digits_of(n, radix);
        assert(n / radix < n) by (nonlinear_arith)
            requires
                radix >= 2,
                n >= radix,
        ;
        lemma_digits_of(n / radix, radix);
        assert(0 <= d < radix) by (nonlinear_arith)
            requires
                d == n % radix,
                radix >= 2,
        ;
        assert(digit_value(digit_char(d)) == Some(d));
        assert(s.drop_last() =~= shorter);
        assert(s.last() == digit_char(d));
        assert forall|i: int| 0 <= i < s.len() implies is_digit(#[trigger] s[i], radix as int) by {
            if i < shorter.len() {
                assert(s[i] == shorter[i]);
            }
        }
        assert((n / radix) * radix + n % radix == n) by (nonlinear_arith)
            requires
                radix >= 2,
        ;
    } else {
        let s = digits_of(n, radix);
        assert(digit_value(digit_char(n as int)) == Some(n as int));
        assert(s.drop_last() =~= Seq::<char>::empty());
        assert(digits_value(s.drop_last(), radix as int) == 0);
    }
}

/// Parsing undoes writing: a 64-bit number written in a base is read back as
/// itself.
pub proof fn lemma_parse_digits_of(n: u64, radix: nat)
    requires
        2 <= radix <= 36,
    ensures
        parsed_u64(digits_of(n as nat, radix), radix as int) == Some(n),
{
    lemma_digits_of(n as nat, radix);
}

fn digit_of(c: char, radix: u32) -> (r: Option<u32>)
    requires
        2 <= radix <= 36,
    ensures
        match r {
            Some(d) => is_digit(c, radix as int) && digit_value(c) == Some(d as int),
            None => !is_digit(c, radix as int),
        },
{
    let n: u32 = c as u32;
    let d: u32 = if 0x30 <= n && n <= 0x39 {
        n - 0x30
    } else if 0x61 <= n && n <= 0x7a {
        n - 0x61 + 10
    } else if 0x41 <= n && n <= 0x5a {
        n - 0x41 + 10
    } else {
        return None;
    };
    if d < radix {
        Some(d)
    } else {
        None
    }
}

/// Parses an unsigned 64-bit number written in base `radix`: digits only.
pub fn parse_u64(s: &str, radix: u32) -> (r: Option<u64>)
    requires
        2 <= radix <= 36,
    ensures
        r == parsed_u64(s@, radix as int),
{
    let chars = to_chars(s);
    if chars.len() == 0 {
        return None;
    }
    let mut value: u64 = 0;
    let mut i: usize = 0;
    while i < chars.len()
        invariant
            2 <= radix <= 36,
            i <= chars.len(),
            chars@ == s@,
            all_digits(s@.take(i as int), radix as int),
            value == digits_value(s@.take(i as int), radix as int),
        decreases chars.len() - i,
    {
        let ghost seen = s@.take(i as int);
        let ghost next = s@.take(i + 1);
        proof {
            assert(next.drop_last() =~= seen);
            assert(next.last() == chars@[i as int]);
        }
        match digit_of(chars[i], radix) {
            Some(d) => {
                proof {
                    assert forall|j: int| 0 <= j < next.len() implies is_digit(
                        #[trigger] next[j],
                        radix as int,
                    ) by {
                        if j < seen.len() {
                            assert(next[j] == seen[j]);
                        }
                    }
                }
                let grown = match value.checked_mul(radix as u64) {
                    Some(scaled) => scaled.checked_add(d as u64),
                    None => None,
                };
                match grown {
                    Some(v) => {
                        value = v;
                    },
                    None => {
                        proof {
                            assert(digit_value(next.last()) == Some(d as int));
                            assert(digits_value(next, radix as int) == value * radix + d);
                            assert(digits_value(next, radix as int) > u64::MAX);
                            if all_digits(s@, radix as int) {
                                lemma_digits_value_monotonic(s@, radix as int, i + 1);
                            }
                        }
                        return None;
                    },
                }
            },
            None => {
                proof {
                    assert(!is_digit(s@[i as int], radix as int));
                }
                return None;
            },
        }
        i += 1;
    }
    proof {
        assert(s@.take(i as int) =~= s@);
    }
    Some(value)
}

/// The signed 32-bit number that `s` writes in decimal: one sign at most,
/// `+` or `-`, then one or more digits and nothing else, the value within
/// range.
pub open spec fn parsed_i32(s: Seq<char>) -> Option<i32> {
    let negative = s.len() > 0 && s[0] == '-';
    let signed = s.len() > 0 && (s[0] == '-' || s[0] == '+');
    let digits = if signed {
        s.skip(1)
    } else {
        s
    };
    match parsed_u64(digits, 10) {
        Some(n) => if negative {
            if n <= 0x8000_0000 {
                Some((0 - n) as i32)
            } else {
                None
            }
        } else if n <= 0x7fff_ffff {
            Some(n as i32)
        } else {
            None
        },
        None => None,
    }
}

/// Parses a signed 32-bit number written in decimal.
pub fn parse_i32(s: &str) -> (r: Option<i32>)
    ensures
        r == parsed_i32(s@),
{
    let chars = to_chars(s);
    let negative = chars.len() > 0 && chars[0] == '-';
    let signed = chars.len() > 0 && (chars[0] == '-' || chars[0] == '+');
    let digits = if signed {
        proof {
            assert(s@.skip(1) =~= s@.subrange(1, s@.len() as int));
        }
        s.substring_char(1, chars.len())
    } else {
        s
    };
    match parse_u64(digits, 10) {
        Some(n) => {
            if negative {
                if n <= 0x8000_0000 {
                    let wide: i64 = 0 - (n as i64);
                    Some(wide as i32)
                } else {
                    None
                }
            } else if n <= 0x7fff_ffff {
                Some(n as i32)
            } else {
                None
            }
        },
        None => None,
    }
}

} // verus!

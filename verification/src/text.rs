//! Character-level helpers shared by the providers: reading a string as a
//! sequence of characters, decimal numbers, and splitting at a separator.

use vstd::prelude::*;

verus! {

/// Appends one character to a string.
///
/// Wraps `String::push`; the contract says that the string afterwards is the
/// string before followed by `c`.
#[verifier::external_body]
pub(crate) fn push_char(s: &mut String, c: char)
    ensures
        final(s)@ == old(s)@.push(c),
{
    s.push(c)
}

/// The characters of `s`, in order.
pub fn chars_of(s: &str) -> (v: Vec<char>)
    ensures
        v@ == s@,
{
    let mut v: Vec<char> = Vec::new();
    for c in it: s.chars()
        invariant
            v@ == it.seq().take(it.index() as int),
            it.seq() == s@,
    {
        v.push(c);
    }
    v
}

/// Whether two strings hold the same characters.
pub fn str_eq(a: &str, b: &str) -> (same: bool)
    ensures
        same == (a@ == b@),
{
    let x = chars_of(a);
    let y = chars_of(b);
    if x.len() != y.len() {
        return false;
    }
    let mut i: usize = 0;
    while i < x.len()
        invariant
            i <= x.len(),
            x.len() == y.len(),
            x@ == a@,
            y@ == b@,
            forall|j: int| 0 <= j < i ==> x@[j] == y@[j],
        decreases x.len() - i,
    {
        if x[i] != y[i] {
            return false;
        }
        i += 1;
    }
    assert(a@ =~= b@);
    true
}

/// The characters `chars[from..to]` as a string.
pub fn string_of(chars: &Vec<char>, from: usize, to: usize) -> (s: String)
    requires
        from <= to <= chars.len(),
    ensures
        s@ == chars@.subrange(from as int, to as int),
{
    let mut s = String::new();
    let mut i: usize = from;
    while i < to
        invariant
            from <= i <= to <= chars.len(),
            s@ == chars@.subrange(from as int, i as int),
        decreases to - i,
    {
        push_char(&mut s, chars[i]);
        i += 1;
        assert(chars@.subrange(from as int, i as int) =~= chars@.subrange(
            from as int,
            i as int - 1,
        ).push(chars@[i as int - 1]));
    }
    s
}

/// `a` followed by `b`.
pub fn concat2(a: &str, b: &str) -> (s: String)
    ensures
        s@ == a@ + b@,
{
    let mut s = String::from_str(a);
    s.append(b);
    s
}

/// `a`, `b` and `c` in a row.
pub fn concat3(a: &str, b: &str, c: &str) -> (s: String)
    ensures
        s@ == a@ + b@ + c@,
{
    let mut s = String::from_str(a);
    s.append(b);
    s.append(c);
    s
}

// ---------------------------------------------------------------------------
// Splitting
// ---------------------------------------------------------------------------

/// The position of the first `c` in `s`, or the length of `s` where it holds
/// none.
pub open spec fn first_index(s: Seq<char>, c: char) -> int
    decreases s.len(),
{
    if s.len() == 0 || s[0] == c {
        0
    } else {
        1 + first_index(s.drop_first(), c)
    }
}

/// `s` up to its first `c`, or all of `s` where it holds none.
pub open spec fn before_first(s: Seq<char>, c: char) -> Seq<char> {
    s.take(first_index(s, c))
}

/// `s` after its first `c`, if it holds one.
pub open spec fn after_first(s: Seq<char>, c: char) -> Option<Seq<char>> {
    if first_index(s, c) < s.len() {
        Some(s.skip(first_index(s, c) + 1))
    } else {
        None
    }
}

/// How often `c` occurs in `s`.
pub open spec fn occurrences(s: Seq<char>, c: char) -> nat
    decreases s.len(),
{
    if s.len() == 0 {
        0
    } else {
        occurrences(s.drop_last(), c) + if s.last() == c {
            1nat
        } else {
            0nat
        }
    }
}

/// How many `c` stand at the end of `s`.
pub open spec fn trailing(s: Seq<char>, c: char) -> nat
    decreases s.len(),
{
    if s.len() == 0 || s.last() != c {
        0
    } else {
        1 + trailing(s.drop_last(), c)
    }
}

/// `s` without the `c`s at its end.
pub open spec fn without_trailing(s: Seq<char>, c: char) -> Seq<char> {
    s.take(s.len() - trailing(s, c))
}

/// The first `c` of `s` stands at `at` where no `c` stands before `at` and
/// one stands at `at`, or `s` ends there.
pub proof fn lemma_first_index(s: Seq<char>, c: char, at: int)
    requires
        0 <= at <= s.len(),
        forall|j: int| 0 <= j < at ==> s[j] != c,
        at == s.len() || s[at] == c,
    ensures
        first_index(s, c) == at,
    decreases at,
{
    if at > 0 {
        lemma_first_index(s.drop_first(), c, at - 1);
    }
}

/// `s` ends with as many `c` as follow the position `kept`, where only `c`
/// follow it and none stands just before it.
pub proof fn lemma_trailing(s: Seq<char>, c: char, kept: int)
    requires
        0 <= kept <= s.len(),
        forall|j: int| kept <= j < s.len() ==> s[j] == c,
        kept == 0 || s[kept - 1] != c,
    ensures
        trailing(s, c) == s.len() - kept,
    decreases s.len(),
{
    if kept < s.len() {
        lemma_trailing(s.drop_last(), c, kept);
    }
}

/// The position of the first `c` in `chars` at or after `from`, or their
/// number where there is none.
pub fn find_from(chars: &Vec<char>, from: usize, c: char) -> (at: usize)
    requires
        from <= chars.len(),
    ensures
        at - from == first_index(chars@.skip(from as int), c),
        from <= at <= chars.len(),
{
    let mut i: usize = from;
    while i < chars.len() && chars[i] != c
        invariant
            from <= i <= chars.len(),
            forall|j: int| from <= j < i ==> chars@[j] != c,
        decreases chars.len() - i,
    {
        i += 1;
    }
    proof {
        lemma_first_index(chars@.skip(from as int), c, i - from);
    }
    i
}

/// The position of the first `c` in `chars`, or their number where there is
/// none.
pub fn find_char(chars: &Vec<char>, c: char) -> (at: usize)
    ensures
        at == first_index(chars@, c),
        at <= chars.len(),
{
    assert(chars@.skip(0) =~= chars@);
    find_from(chars, 0, c)
}

/// `s` up to its first `c`.
pub fn prefix_before(s: &str, c: char) -> (r: String)
    ensures
        r@ == before_first(s@, c),
{
    let chars = chars_of(s);
    let at = find_char(&chars, c);
    let r = string_of(&chars, 0, at);
    assert(chars@.subrange(0, at as int) =~= chars@.take(at as int));
    r
}

/// `s` after its first `c`, if it holds one.
pub fn suffix_after(s: &str, c: char) -> (r: Option<String>)
    ensures
        opt_string(r) == after_first(s@, c),
{
    let chars = chars_of(s);
    let at = find_char(&chars, c);
    if at < chars.len() {
        let r = string_of(&chars, at + 1, chars.len());
        assert(chars@.subrange(at as int + 1, chars.len() as int) =~= chars@.skip(at as int + 1));
        Some(r)
    } else {
        None
    }
}

/// How often `c` occurs in `s`.
pub fn count_char(s: &str, c: char) -> (n: usize)
    ensures
        n == occurrences(s@, c),
{
    let chars = chars_of(s);
    let mut n: usize = 0;
    let mut i: usize = 0;
    while i < chars.len()
        invariant
            i <= chars.len(),
            n <= i,
            n == occurrences(chars@.take(i as int), c),
        decreases chars.len() - i,
    {
        assert(chars@.take(i as int + 1).drop_last() =~= chars@.take(i as int));
        if chars[i] == c {
            n += 1;
        }
        i += 1;
    }
    assert(chars@.take(i as int) =~= chars@);
    n
}

/// `s` without the `c`s at its end.
pub fn trim_trailing(s: &str, c: char) -> (r: String)
    ensures
        r@ == without_trailing(s@, c),
{
    let chars = chars_of(s);
    let mut kept: usize = chars.len();
    while kept > 0 && chars[kept - 1] == c
        invariant
            kept <= chars.len(),
            forall|j: int| kept <= j < chars.len() ==> chars@[j] == c,
        decreases kept,
    {
        kept -= 1;
    }
    proof {
        lemma_trailing(chars@, c, kept as int);
    }
    let r = string_of(&chars, 0, kept);
    assert(chars@.subrange(0, kept as int) =~= chars@.take(kept as int));
    r
}

/// The view of an optional string.
pub open spec fn opt_string(s: Option<String>) -> Option<Seq<char>> {
    match s {
        Some(t) => Some(t@),
        None => None,
    }
}

// ---------------------------------------------------------------------------
// Replacing
// ---------------------------------------------------------------------------

/// Whether `s` starts with `prefix`.
pub open spec fn starts_with(s: Seq<char>, prefix: Seq<char>) -> bool {
    prefix.len() <= s.len() && s.take(prefix.len() as int) == prefix
}

/// `to` before every character of `text` and at its end.
pub open spec fn between_all(text: Seq<char>, to: Seq<char>) -> Seq<char>
    decreases text.len(),
{
    if text.len() == 0 {
        to
    } else {
        to + seq![text[0]] + between_all(text.skip(1), to)
    }
}

/// `text` with every occurrence of `from` replaced by `to`. The occurrences
/// are found from left to right and do not overlap; an empty `from` occurs
/// before every character and at the end.
pub open spec fn all_replaced(text: Seq<char>, from: Seq<char>, to: Seq<char>) -> Seq<char>
    decreases text.len(),
{
    if from.len() == 0 {
        between_all(text, to)
    } else if starts_with(text, from) {
        to + all_replaced(text.skip(from.len() as int), from, to)
    } else if text.len() == 0 {
        Seq::empty()
    } else {
        seq![text[0]] + all_replaced(text.skip(1), from, to)
    }
}

/// Whether `pattern` stands in `chars` at the position `at`.
pub fn matches_at(chars: &Vec<char>, at: usize, pattern: &Vec<char>) -> (found: bool)
    requires
        at <= chars.len(),
    ensures
        found == starts_with(chars@.skip(at as int), pattern@),
{
    if pattern.len() > chars.len() - at {
        return false;
    }
    let ghost rest = chars@.skip(at as int);
    let mut j: usize = 0;
    while j < pattern.len()
        invariant
            j <= pattern.len(),
            at + pattern.len() <= chars.len(),
            rest == chars@.skip(at as int),
            forall|k: int| 0 <= k < j ==> chars@[at + k] == pattern@[k],
        decreases pattern.len() - j,
    {
        if chars[at + j] != pattern[j] {
            assert(rest.take(pattern@.len() as int)[j as int] != pattern@[j as int]);
            return false;
        }
        j += 1;
    }
    assert(rest.take(pattern@.len() as int) =~= pattern@);
    true
}

/// Replaces every occurrence of `from` in `text` by `to`.
pub fn replace_all(text: &str, from: &str, to: &str) -> (r: String)
    ensures
        r@ == all_replaced(text@, from@, to@),
{
    let chars = chars_of(text);
    let pattern = chars_of(from);
    let mut out = String::new();
    let mut i: usize = 0;
    assert(chars@.skip(0) =~= chars@);
    if pattern.len() == 0 {
        while i < chars.len()
            invariant
                i <= chars.len(),
                out@ + between_all(chars@.skip(i as int), to@) == between_all(chars@, to@),
            decreases chars.len() - i,
        {
            let ghost before = out@;
            let ghost rest = chars@.skip(i as int);
            out.append(to);
            push_char(&mut out, chars[i]);
            assert(rest.skip(1) =~= chars@.skip(i as int + 1));
            assert(out@ + between_all(rest.skip(1), to@) =~= before + (to@ + seq![rest[0]]
                + between_all(rest.skip(1), to@)));
            i += 1;
        }
        out.append(to);
        return out;
    }
    while i < chars.len()
        invariant
            i <= chars.len(),
            pattern@.len() > 0,
            pattern@ == from@,
            out@ + all_replaced(chars@.skip(i as int), pattern@, to@) == all_replaced(
                chars@,
                pattern@,
                to@,
            ),
        decreases chars.len() - i,
    {
        let ghost before = out@;
        let ghost rest = chars@.skip(i as int);
        if matches_at(&chars, i, &pattern) {
            out.append(to);
            assert(rest.skip(pattern@.len() as int) =~= chars@.skip(i + pattern@.len()));
            assert(out@ + all_replaced(rest.skip(pattern@.len() as int), pattern@, to@) =~= before
                + (to@ + all_replaced(rest.skip(pattern@.len() as int), pattern@, to@)));
            i += pattern.len();
        } else {
            push_char(&mut out, chars[i]);
            assert(rest.skip(1) =~= chars@.skip(i as int + 1));
            assert(out@ + all_replaced(rest.skip(1), pattern@, to@) =~= before + (seq![rest[0]]
                + all_replaced(rest.skip(1), pattern@, to@)));
            i += 1;
        }
    }
    assert(out@ + Seq::<char>::empty() =~= out@);
    out
}

// ---------------------------------------------------------------------------
// Decimal numbers
// ---------------------------------------------------------------------------

/// The character that writes the digit `d`.
pub open spec fn digit_char(d: int) -> char {
    if d == 0 {
        '0'
    } else if d == 1 {
        '1'
    } else if d == 2 {
        '2'
    } else if d == 3 {
        '3'
    } else if d == 4 {
        '4'
    } else if d == 5 {
        '5'
    } else if d == 6 {
        '6'
    } else if d == 7 {
        '7'
    } else if d == 8 {
        '8'
    } else {
        '9'
    }
}

/// The digit that `c` writes, if it is one of `0` to `9`.
pub open spec fn digit_value(c: char) -> Option<nat> {
    if c == '0' {
        Some(0)
    } else if c == '1' {
        Some(1)
    } else if c == '2' {
        Some(2)
    } else if c == '3' {
        Some(3)
    } else if c == '4' {
        Some(4)
    } else if c == '5' {
        Some(5)
    } else if c == '6' {
        Some(6)
    } else if c == '7' {
        Some(7)
    } else if c == '8' {
        Some(8)
    } else if c == '9' {
        Some(9)
    } else {
        None
    }
}

/// `n` written in base ten, without sign or leading zeros.
pub open spec fn decimal(n: nat) -> Seq<char>
    decreases n,
{
    if n < 10 {
        seq![digit_char(n as int)]
    } else {
        decimal(n / 10).push(digit_char((n % 10) as int))
    }
}

/// The number that a run of digits writes; a character that is no digit
/// counts as zero.
pub open spec fn digits_value(s: Seq<char>) -> nat
    decreases s.len(),
{
    if s.len() == 0 {
        0
    } else {
        digits_value(s.drop_last()) * 10 + match digit_value(s.last()) {
            Some(d) => d,
            None => 0,
        }
    }
}

/// Whether every character of `s` is a digit.
pub open spec fn all_digits(s: Seq<char>) -> bool {
    forall|i: int| 0 <= i < s.len() ==> (#[trigger] digit_value(s[i])) is Some
}

/// `s` without one leading `+`.
pub open spec fn unsigned_body(s: Seq<char>) -> Seq<char> {
    if s.len() > 0 && s[0] == '+' {
        s.drop_first()
    } else {
        s
    }
}

/// The number that `s` writes as an unsigned decimal: an optional `+`, then
/// one or more digits and nothing else.
pub open spec fn parse_decimal(s: Seq<char>) -> Option<nat> {
    let body = unsigned_body(s);
    if body.len() > 0 && all_digits(body) {
        Some(digits_value(body))
    } else {
        None
    }
}

/// What parsing `s` gives when only numbers up to `max` fit.
pub open spec fn parse_bounded(s: Seq<char>, max: nat) -> Option<nat> {
    match parse_decimal(s) {
        Some(n) => if n <= max {
            Some(n)
        } else {
            None
        },
        None => None,
    }
}

fn digit_of(d: u128) -> (c: char)
    requires
        d < 10,
    ensures
        c == digit_char(d as int),
        digit_value(c) == Some(d as nat),
{
    if d == 0 {
        '0'
    } else if d == 1 {
        '1'
    } else if d == 2 {
        '2'
    } else if d == 3 {
        '3'
    } else if d == 4 {
        '4'
    } else if d == 5 {
        '5'
    } else if d == 6 {
        '6'
    } else if d == 7 {
        '7'
    } else if d == 8 {
        '8'
    } else {
        '9'
    }
}

fn value_of(c: char) -> (d: Option<u64>)
    ensures
        match d {
            Some(v) => digit_value(c) == Some(v as nat) && v < 10,
            None => digit_value(c) is None,
        },
{
    if c == '0' {
        Some(0)
    } else if c == '1' {
        Some(1)
    } else if c == '2' {
        Some(2)
    } else if c == '3' {
        Some(3)
    } else if c == '4' {
        Some(4)
    } else if c == '5' {
        Some(5)
    } else if c == '6' {
        Some(6)
    } else if c == '7' {
        Some(7)
    } else if c == '8' {
        Some(8)
    } else if c == '9' {
        Some(9)
    } else {
        None
    }
}

/// `n` in base ten.
pub fn decimal_string(n: u128) -> (s: String)
    ensures
        s@ == decimal(n as nat),
    decreases n,
{
    if n < 10 {
        let mut s = String::new();
        push_char(&mut s, digit_of(n));
        assert(s@ =~= seq![digit_char(n as int)]);
        s
    } else {
        let mut s = decimal_string(n / 10);
        push_char(&mut s, digit_of(n % 10));
        s
    }
}

/// A number written in base ten is read back as the same number.
pub proof fn lemma_decimal_parses(n: nat)
    ensures
        decimal(n).len() > 0,
        all_digits(decimal(n)),
        digits_value(decimal(n)) == n,
        parse_decimal(decimal(n)) == Some(n),
    decreases n,
{
    let s = decimal(n);
    if n < 10 {
        assert(s.drop_last() =~= Seq::<char>::empty());
        assert(digit_value(s.last()) == Some(n));
        assert(digits_value(s.drop_last()) == 0);
        assert(digits_value(s) == digits_value(s.drop_last()) * 10 + n);
    } else {
        lemma_decimal_parses(n / 10);
        assert(s.drop_last() =~= decimal(n / 10));
        assert(digit_value(s.last()) == Some(n % 10));
        assert(digits_value(s) == digits_value(s.drop_last()) * 10 + n % 10);
        assert forall|i: int| 0 <= i < s.len() implies (#[trigger] digit_value(s[i])) is Some by {
            if i < s.len() - 1 {
                assert(s[i] == decimal(n / 10)[i]);
            }
        }
    }
    assert(digit_value(s[0]) is Some);
    assert(unsigned_body(s) == s);
}

/// A run of digits is worth at least as much as any of its prefixes.
pub proof fn lemma_digits_value_grows(s: Seq<char>, k: int)
    requires
        0 <= k <= s.len(),
    ensures
        digits_value(s.take(k)) <= digits_value(s),
    decreases s.len(),
{
    if k == s.len() {
        assert(s.take(k) =~= s);
    } else {
        assert(s.drop_last().take(k) =~= s.take(k));
        lemma_digits_value_grows(s.drop_last(), k);
    }
}

/// Parses `s` as an unsigned decimal number no larger than `max`.
///
/// Accepts an optional `+` followed by one or more digits; anything else, and
/// any number above `max`, gives `None`.
pub fn parse_number(s: &str, max: u64) -> (r: Option<u64>)
    ensures
        match r {
            Some(n) => parse_bounded(s@, max as nat) == Some(n as nat),
            None => parse_bounded(s@, max as nat) is None,
        },
{
    let chars = chars_of(s);
    let start: usize = if chars.len() > 0 && chars[0] == '+' {
        1
    } else {
        0
    };
    let ghost body = unsigned_body(s@);
    assert(body =~= chars@.subrange(start as int, chars.len() as int));
    if start == chars.len() {
        return None;
    }
    let mut acc: u64 = 0;
    let mut i: usize = start;
    while i < chars.len()
        invariant
            start <= i <= chars.len(),
            body == chars@.subrange(start as int, chars.len() as int),
            body == unsigned_body(s@),
            acc as nat == digits_value(body.take(i - start)),
            acc <= max,
            forall|j: int| 0 <= j < i - start ==> (#[trigger] digit_value(body[j])) is Some,
        decreases chars.len() - i,
    {
        let c = chars[i];
        assert(body[i - start] == c);
        match value_of(c) {
            None => {
                assert(!all_digits(body));
                return None;
            },
            Some(d) => {
                proof {
                    let next = body.take(i - start + 1);
                    assert(next.drop_last() =~= body.take(i - start));
                    assert(next.last() == c);
                    assert(digits_value(next) == acc as nat * 10 + d as nat);
                    lemma_digits_value_grows(body, i - start + 1);
                }
                if acc > max / 10 || (acc == max / 10 && d > max % 10) {
                    return None;
                }
                acc = acc * 10 + d;
            },
        }
        i += 1;
    }
    assert(body.take(i - start) =~= body);
    assert(all_digits(body));
    Some(acc)
}

} // verus!

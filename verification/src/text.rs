//! Small string helpers shared by the other modules.

use vstd::prelude::*;

verus! {

/// `String::push` appends one character to the end of the string.
pub assume_specification[ String::push ](s: &mut String, ch: char)
    ensures
        final(s)@ == old(s)@.push(ch),
;

/// Two string slices are equal when they hold the same characters.
pub assume_specification[ <str as PartialEq>::eq ](a: &str, b: &str) -> (r: bool)
    ensures
        r == (a@ == b@),
;

/// Whether two strings hold the same characters.
pub fn str_eq(a: &str, b: &str) -> (r: bool)
    ensures
        r == (a@ == b@),
{
    *a == *b
}

/// What `char::is_alphanumeric` answers for a character: whether Unicode
/// classes it as alphabetic or numeric.
pub uninterp spec fn alphanumeric(c: char) -> bool;

/// Calls `char::is_alphanumeric`; the answer depends on the character alone.
#[verifier::external_body]
pub(crate) fn is_alphanumeric(c: char) -> (r: bool)
    ensures
        r == alphanumeric(c),
{
    c.is_alphanumeric()
}

/// What `str::to_uppercase` makes of a string: its upper-case equivalent by
/// the Unicode case mappings.
pub uninterp spec fn uppercase(s: Seq<char>) -> Seq<char>;

/// Calls `str::to_uppercase`; the result depends on the characters alone.
#[verifier::external_body]
pub(crate) fn to_uppercase(s: &str) -> (r: String)
    ensures
        r@ == uppercase(s@),
{
    s.to_uppercase()
}

/// The contents of a list of strings, in order.
pub open spec fn text_views(strings: Seq<String>) -> Seq<Seq<char>> {
    Seq::new(strings.len(), |i: int| strings[i]@)
}

/// Joins two strings.
pub fn concat(a: &str, b: &str) -> (r: String)
    ensures
        r@ == a@ + b@,
{
    let mut r = String::from_str(a);
    r.append(b);
    r
}

/// Joins three strings.
pub fn concat3(a: &str, b: &str, c: &str) -> (r: String)
    ensures
        r@ == a@ + b@ + c@,
{
    let mut r = String::from_str(a);
    r.append(b);
    r.append(c);
    r
}

/// The character that writes the digit `d`.
pub open spec fn digit_char(d: nat) -> char
    recommends
        d < 10,
{
    (48 + d) as u8 as char
}

/// The decimal numeral of `n`, without sign or leading zeros.
pub open spec fn decimal(n: nat) -> Seq<char>
    decreases n,
{
    if n < 10 {
        seq![digit_char(n)]
    } else {
        decimal(n / 10).push(digit_char(n % 10))
    }
}

/// Appends the decimal numeral of `n` to `s`.
pub fn push_decimal(s: &mut String, n: u64)
    ensures
        final(s)@ == old(s)@ + decimal(n as nat),
    decreases n,
{
    if n >= 10 {
        push_decimal(s, n / 10);
    }
    let digit: u8 = (n % 10) as u8;
    let c: char = (48u8 + digit) as char;
    s.push(c);
    assert(s@ =~= old(s)@ + decimal(n as nat));
}

/// What `char::is_whitespace` answers for a character: whether it has the
/// Unicode property White_Space.
pub uninterp spec fn whitespace(c: char) -> bool;

/// Calls `char::is_whitespace`; the answer depends on the character alone.
#[verifier::external_body]
pub(crate) fn is_whitespace(c: char) -> (r: bool)
    ensures
        r == whitespace(c),
{
    c.is_whitespace()
}

/// The number of white-space characters at the start of `s`.
pub open spec fn leading_space(s: Seq<char>) -> int
    decreases s.len(),
{
    if s.len() == 0 || !whitespace(s[0]) {
        0
    } else {
        1 + leading_space(s.drop_first())
    }
}

/// The number of white-space characters at the end of `s`.
pub open spec fn trailing_space(s: Seq<char>) -> int
    decreases s.len(),
{
    if s.len() == 0 || !whitespace(s.last()) {
        0
    } else {
        1 + trailing_space(s.drop_last())
    }
}

/// A string without the white space at its two ends.
pub open spec fn trimmed(s: Seq<char>) -> Seq<char> {
    let rest = s.skip(leading_space(s));
    rest.take(rest.len() - trailing_space(rest))
}

/// `leading_space` counts the white space in front of the first other
/// character.
pub proof fn lemma_leading_space(s: Seq<char>, k: int)
    requires
        0 <= k <= s.len(),
        forall|i: int| 0 <= i < k ==> whitespace(s[i]),
        k == s.len() || !whitespace(s[k]),
    ensures
        leading_space(s) == k,
    decreases k,
{
    if k > 0 {
        let rest = s.drop_first();
        assert forall|i: int| 0 <= i < k - 1 implies whitespace(rest[i]) by {
            assert(rest[i] == s[i + 1]);
        }
        lemma_leading_space(rest, k - 1);
    }
}

/// `trailing_space` counts the white space behind the last other character.
pub proof fn lemma_trailing_space(s: Seq<char>, k: int)
    requires
        0 <= k <= s.len(),
        forall|i: int| s.len() - k <= i < s.len() ==> whitespace(s[i]),
        k == s.len() || !whitespace(s[s.len() - k - 1]),
    ensures
        trailing_space(s) == k,
    decreases k,
{
    if k > 0 {
        let rest = s.drop_last();
        assert forall|i: int| rest.len() - (k - 1) <= i < rest.len() implies whitespace(
            rest[i],
        ) by {
            assert(rest[i] == s[i]);
        }
        if k - 1 < rest.len() {
            assert(rest[rest.len() - (k - 1) - 1] == s[s.len() - k - 1]);
        }
        lemma_trailing_space(rest, k - 1);
    }
}

/// Copies a string without the white space at its two ends.
pub fn trim(s: &str) -> (r: String)
    ensures
        r@ == trimmed(s@),
{
    let chars = chars_of(s);
    let mut start: usize = 0;
    while start < chars.len() && is_whitespace(chars[start])
        invariant
            0 <= start <= chars.len(),
            forall|i: int| 0 <= i < start ==> whitespace(chars@[i]),
        decreases chars.len() - start,
    {
        start += 1;
    }
    let mut end: usize = chars.len();
    while end > start && is_whitespace(chars[end - 1])
        invariant
            start <= end <= chars.len(),
            forall|i: int| end <= i < chars.len() ==> whitespace(chars@[i]),
        decreases end - start,
    {
        end -= 1;
    }
    proof {
        lemma_leading_space(s@, start as int);
        let rest = s@.skip(start as int);
        let k = chars.len() - end;
        assert forall|i: int| rest.len() - k <= i < rest.len() implies whitespace(rest[i]) by {
            assert(rest[i] == s@[i + start]);
        }
        if k < rest.len() {
            assert(rest[rest.len() - k - 1] == s@[end - 1]);
        }
        lemma_trailing_space(rest, k);
        assert(rest.take(rest.len() - k) =~= s@.subrange(start as int, end as int));
    }
    string_from(&chars, start, end)
}

/// The characters of a string, one by one.
pub fn chars_of(s: &str) -> (v: Vec<char>)
    ensures
        v@ == s@,
{
    let mut v: Vec<char> = Vec::new();
    for c in it: s.chars()
        invariant
            it.seq() == s@,
            v@ == s@.take(it.index() as int),
    {
        v.push(c);
        assert(s@.take(it.index() + 1) =~= s@.take(it.index() as int).push(c));
    }
    assert(s@.take(s@.len() as int) =~= s@);
    v
}

/// The string made of the characters from `from` up to `to`.
pub fn string_from(chars: &Vec<char>, from: usize, to: usize) -> (r: String)
    requires
        from <= to <= chars.len(),
    ensures
        r@ == chars@.subrange(from as int, to as int),
{
    let mut r = String::new();
    let mut i: usize = from;
    while i < to
        invariant
            from <= i <= to <= chars.len(),
            r@ == chars@.subrange(from as int, i as int),
        decreases to - i,
    {
        r.push(chars[i]);
        assert(chars@.subrange(from as int, i + 1) =~= chars@.subrange(from as int, i as int).push(
            chars@[i as int],
        ));
        i += 1;
    }
    r
}

/// Whether `pattern` stands in `text` at position `at`.
pub open spec fn occurs_at(text: Seq<char>, pattern: Seq<char>, at: int) -> bool {
    0 <= at && at + pattern.len() <= text.len() && text.subrange(at, at + pattern.len())
        == pattern
}

/// The first position from `from` on at which `pattern` stands in `text`,
/// or -1 if there is none.
pub open spec fn find(text: Seq<char>, pattern: Seq<char>, from: int) -> int
    decreases text.len() + 1 - from,
{
    if from < 0 || from + pattern.len() > text.len() {
        -1
    } else if occurs_at(text, pattern, from) {
        from
    } else {
        find(text, pattern, from + 1)
    }
}

/// Whether `pattern` occurs somewhere in `text`.
pub open spec fn contains_text(text: Seq<char>, pattern: Seq<char>) -> bool {
    find(text, pattern, 0) >= 0
}

/// Whether `text` ends with `pattern`.
pub open spec fn ends_with_text(text: Seq<char>, pattern: Seq<char>) -> bool {
    occurs_at(text, pattern, text.len() - pattern.len())
}

/// What `find` returns lies in the text, behind `from`.
pub proof fn lemma_find_range(text: Seq<char>, pattern: Seq<char>, from: int)
    requires
        0 <= from,
    ensures
        find(text, pattern, from) == -1 || (from <= find(text, pattern, from) && occurs_at(
            text,
            pattern,
            find(text, pattern, from),
        )),
    decreases text.len() + 1 - from,
{
    if from + pattern.len() <= text.len() && !occurs_at(text, pattern, from) {
        lemma_find_range(text, pattern, from + 1);
    }
}

/// Whether `pattern` stands in `text` at position `at`.
pub fn matches_at(text: &Vec<char>, pattern: &Vec<char>, at: usize) -> (r: bool)
    ensures
        r == occurs_at(text@, pattern@, at as int),
{
    if pattern.len() > text.len() || at > text.len() - pattern.len() {
        return false;
    }
    let mut k: usize = 0;
    while k < pattern.len()
        invariant
            0 <= k <= pattern.len(),
            at + pattern.len() <= text.len(),
            forall|j: int| 0 <= j < k ==> text@[at + j] == pattern@[j],
        decreases pattern.len() - k,
    {
        if text[at + k] != pattern[k] {
            assert(text@.subrange(at as int, at + pattern.len())[k as int] != pattern@[k as int]);
            return false;
        }
        k += 1;
    }
    assert(text@.subrange(at as int, at + pattern.len()) =~= pattern@);
    true
}

/// Finds the first position from `from` on at which `pattern` stands in `text`.
pub fn find_in(text: &Vec<char>, pattern: &Vec<char>, from: usize) -> (r: Option<usize>)
    ensures
        match r {
            Some(at) => find(text@, pattern@, from as int) == at,
            None => find(text@, pattern@, from as int) == -1,
        },
{
    if pattern.len() > text.len() || from > text.len() - pattern.len() {
        return None;
    }
    let last: usize = text.len() - pattern.len();
    let mut i: usize = from;
    loop
        invariant
            from <= i <= last,
            last == text.len() - pattern.len(),
            find(text@, pattern@, from as int) == find(text@, pattern@, i as int),
        decreases last - i,
    {
        if matches_at(text, pattern, i) {
            return Some(i);
        }
        if i == last {
            assert(find(text@, pattern@, i + 1) == -1);
            return None;
        }
        i += 1;
    }
}

/// Whether `pattern` occurs somewhere in `text`.
pub fn contains(text: &str, pattern: &str) -> (r: bool)
    ensures
        r == contains_text(text@, pattern@),
{
    let text = chars_of(text);
    let pattern = chars_of(pattern);
    find_in(&text, &pattern, 0).is_some()
}

/// Whether `text` ends with `pattern`.
pub fn ends_with(text: &str, pattern: &str) -> (r: bool)
    ensures
        r == ends_with_text(text@, pattern@),
{
    let text = chars_of(text);
    let pattern = chars_of(pattern);
    if pattern.len() > text.len() {
        return false;
    }
    matches_at(&text, &pattern, text.len() - pattern.len())
}

/// The number of characters in front of the first `stop` in `text`; all of
/// them if `stop` does not occur.
pub open spec fn length_before(text: Seq<char>, stop: char) -> int
    decreases text.len(),
{
    if text.len() == 0 || text[0] == stop {
        0
    } else {
        1 + length_before(text.drop_first(), stop)
    }
}

/// The part of `text` in front of the first `stop`; all of it if `stop`
/// does not occur.
pub open spec fn before(text: Seq<char>, stop: char) -> Seq<char> {
    text.take(length_before(text, stop))
}

/// `length_before` counts the characters in front of the first `stop`.
pub proof fn lemma_length_before(text: Seq<char>, stop: char, k: int)
    requires
        0 <= k <= text.len(),
        forall|i: int| 0 <= i < k ==> text[i] != stop,
        k == text.len() || text[k] == stop,
    ensures
        length_before(text, stop) == k,
    decreases k,
{
    if k > 0 {
        let rest = text.drop_first();
        assert forall|i: int| 0 <= i < k - 1 implies rest[i] != stop by {
            assert(rest[i] == text[i + 1]);
        }
        lemma_length_before(rest, stop, k - 1);
    }
}

/// Copies the part of `text` in front of the first `stop`.
pub fn take_before(text: &str, stop: char) -> (r: String)
    ensures
        r@ == before(text@, stop),
{
    let chars = chars_of(text);
    let mut k: usize = 0;
    while k < chars.len() && chars[k] != stop
        invariant
            0 <= k <= chars.len(),
            chars@ == text@,
            forall|i: int| 0 <= i < k ==> chars@[i] != stop,
        decreases chars.len() - k,
    {
        k += 1;
    }
    proof {
        lemma_length_before(text@, stop, k as int);
    }
    string_from(&chars, 0, k)
}

/// `text` from position `from` on, with `to` in place of every `target`.
pub open spec fn replaced_char(text: Seq<char>, target: char, to: Seq<char>, from: int) -> Seq<char>
    decreases text.len() - from,
{
    if from < 0 || from >= text.len() {
        Seq::empty()
    } else if text[from] == target {
        to + replaced_char(text, target, to, from + 1)
    } else {
        seq![text[from]] + replaced_char(text, target, to, from + 1)
    }
}

/// Writes `to` in place of every `target` in `text`.
pub fn replace_char(text: &str, target: char, to: &str) -> (r: String)
    ensures
        r@ == replaced_char(text@, target, to@, 0),
{
    let chars = chars_of(text);
    let mut r = String::new();
    let mut i: usize = 0;
    while i < chars.len()
        invariant
            0 <= i <= chars.len(),
            chars@ == text@,
            r@ + replaced_char(text@, target, to@, i as int) == replaced_char(
                text@,
                target,
                to@,
                0,
            ),
        decreases chars.len() - i,
    {
        let ghost before = r@;
        if chars[i] == target {
            r.append(to);
            assert(r@ + replaced_char(text@, target, to@, i + 1) =~= before + replaced_char(
                text@,
                target,
                to@,
                i as int,
            ));
        } else {
            r.push(chars[i]);
            assert(r@ + replaced_char(text@, target, to@, i + 1) =~= before + replaced_char(
                text@,
                target,
                to@,
                i as int,
            ));
        }
        i += 1;
    }
    assert(r@ + Seq::<char>::empty() =~= r@);
    r
}

/// `text` from position `from` on, with `to` in place of every occurrence of
/// `pattern`, the occurrences taken from left to right without overlap.  An
/// empty pattern occurs in front of every character and at the end.
pub open spec fn replaced_text(
    text: Seq<char>,
    pattern: Seq<char>,
    to: Seq<char>,
    from: int,
) -> Seq<char>
    decreases text.len() - from,
{
    if from < 0 || from >= text.len() {
        if pattern.len() == 0 && from == text.len() {
            to
        } else {
            Seq::empty()
        }
    } else if pattern.len() == 0 {
        to + seq![text[from]] + replaced_text(text, pattern, to, from + 1)
    } else if occurs_at(text, pattern, from) {
        to + replaced_text(text, pattern, to, from + pattern.len())
    } else {
        seq![text[from]] + replaced_text(text, pattern, to, from + 1)
    }
}

/// Writes `to` in place of every occurrence of `pattern` in `text`, the
/// occurrences taken from left to right without overlap.
pub fn replace_text(text: &str, pattern: &str, to: &str) -> (r: String)
    ensures
        r@ == replaced_text(text@, pattern@, to@, 0),
{
    let chars = chars_of(text);
    let pattern_chars = chars_of(pattern);
    let mut r = String::new();
    let mut i: usize = 0;
    while i < chars.len()
        invariant
            0 <= i <= chars.len(),
            chars@ == text@,
            pattern_chars@ == pattern@,
            r@ + replaced_text(text@, pattern@, to@, i as int) == replaced_text(
                text@,
                pattern@,
                to@,
                0,
            ),
        decreases chars.len() - i,
    {
        let ghost before = r@;
        let ghost rest = replaced_text(text@, pattern@, to@, i as int);
        if pattern_chars.len() == 0 {
            r.append(to);
            r.push(chars[i]);
            i += 1;
        } else if matches_at(&chars, &pattern_chars, i) {
            r.append(to);
            i += pattern_chars.len();
        } else {
            r.push(chars[i]);
            i += 1;
        }
        assert(r@ + replaced_text(text@, pattern@, to@, i as int) =~= before + rest);
    }
    let ghost before = r@;
    if pattern_chars.len() == 0 {
        r.append(to);
    }
    assert(r@ =~= before + replaced_text(text@, pattern@, to@, i as int));
    r
}

/// The strings from position `from` on, joined with `separator` between
/// neighbours.
pub open spec fn joined(parts: Seq<Seq<char>>, separator: Seq<char>, from: int) -> Seq<char>
    decreases parts.len() - from,
{
    if from < 0 || from >= parts.len() {
        Seq::empty()
    } else if from == parts.len() - 1 {
        parts[from]
    } else {
        parts[from] + separator + joined(parts, separator, from + 1)
    }
}

/// Joins strings, with `separator` between neighbours.
pub fn join(parts: &Vec<String>, separator: &str) -> (r: String)
    ensures
        r@ == joined(text_views(parts@), separator@, 0),
{
    let ghost views = text_views(parts@);
    let mut r = String::new();
    let mut i: usize = 0;
    while i < parts.len()
        invariant
            0 <= i <= parts.len(),
            views == text_views(parts@),
            r@ + joined(views, separator@, i as int) == joined(views, separator@, 0),
        decreases parts.len() - i,
    {
        let ghost before = r@;
        let ghost rest = joined(views, separator@, i as int);
        assert(views[i as int] == parts@[i as int]@);
        r.append(parts[i].as_str());
        if i + 1 < parts.len() {
            r.append(separator);
        }
        i += 1;
        assert(r@ + joined(views, separator@, i as int) =~= before + rest);
    }
    assert(r@ + Seq::<char>::empty() =~= r@);
    r
}

} // verus!

use vstd::prelude::*;
use vstd::string::*;

verus! {

/// Whether `c` is white space: what `char::is_whitespace` answers for it.
pub uninterp spec fn is_white_space(c: char) -> bool;

/// `char::is_whitespace` of the standard library decides what counts as
/// white space; the contract only gives its answer a name.
pub assume_specification[ char::is_whitespace ](c: char) -> (white: bool)
    ensures
        white == is_white_space(c),
;

/// `s` without the white space at its start.
pub open spec fn trim_start(s: Seq<char>) -> Seq<char>
    decreases s.len(),
{
    if s.len() > 0 && is_white_space(s.first()) {
        trim_start(s.drop_first())
    } else {
        s
    }
}

/// `s` without the white space at its end.
pub open spec fn trim_end(s: Seq<char>) -> Seq<char>
    decreases s.len(),
{
    if s.len() > 0 && is_white_space(s.last()) {
        trim_end(s.drop_last())
    } else {
        s
    }
}

/// `s` without the white space at either end.
pub open spec fn trim(s: Seq<char>) -> Seq<char> {
    trim_end(trim_start(s))
}

/// The index of the first `c` in `s`, or the length of `s` if it holds none.
pub open spec fn position(s: Seq<char>, c: char) -> nat
    decreases s.len(),
{
    if s.len() == 0 || s.first() == c {
        0
    } else {
        1 + position(s.drop_first(), c)
    }
}

/// The parts of `s` that lie between occurrences of `separator`. A text
/// without a separator is one part; two separators in a row enclose an
/// empty part.
pub open spec fn split(s: Seq<char>, separator: char) -> Seq<Seq<char>>
    decreases s.len(),
{
    let first = position(s, separator);
    if first >= s.len() {
        seq![s]
    } else {
        seq![s.take(first as int)] + split(s.skip(first as int + 1), separator)
    }
}

/// The parts of `s` between commas, each without the white space around it.
pub open spec fn list_of(s: Seq<char>) -> Seq<Seq<char>> {
    split(s, ',').map_values(|part: Seq<char>| trim(part))
}

/// The value of the decimal digit `c`, if it is one of `0` to `9`.
pub open spec fn digit_of(c: char) -> Option<nat> {
    if '0' <= c <= '9' {
        Some((c as u32 - '0' as u32) as nat)
    } else {
        None
    }
}

/// Whether `s` consists of decimal digits only.
pub open spec fn all_digits(s: Seq<char>) -> bool {
    forall|i: int| 0 <= i < s.len() ==> (#[trigger] digit_of(s[i])) is Some
}

/// The number that the digits `s` write in base ten.
pub open spec fn decimal_value(s: Seq<char>) -> nat
    decreases s.len(),
{
    if s.len() == 0 {
        0
    } else {
        decimal_value(s.drop_last()) * 10 + match digit_of(s.last()) {
            Some(digit) => digit,
            None => 0,
        }
    }
}

/// The number that `s` writes, as the integer types of the standard
/// library read one that has no sign of its own: an optional `+`, then at
/// least one decimal digit and nothing else. `None` where `s` is not of
/// that form or the number is above `max`.
pub open spec fn parse_unsigned(s: Seq<char>, max: nat) -> Option<nat> {
    let digits = if s.len() > 0 && s.first() == '+' {
        s.drop_first()
    } else {
        s
    };
    if digits.len() > 0 && all_digits(digits) && decimal_value(digits) <= max {
        Some(decimal_value(digits))
    } else {
        None
    }
}

/// The character that writes the digit `d`.
pub open spec fn digit_char(d: nat) -> char {
    if d == 0 {
        '0'
    } else if d == 1 {
        '1'
    } else if d == 2 {
        '2'
    } else if d == 3 {
        '3'
    } else if d == 4 {
        '4'
    } else if d == 5 {
        '5'
    } else if d == 6 {
        '6'
    } else if d == 7 {
        '7'
    } else if d == 8 {
        '8'
    } else {
        '9'
    }
}

/// The digits that write `n` in base ten, without leading zeros.
pub open spec fn decimal_of(n: nat) -> Seq<char>
    decreases n,
{
    if n < 10 {
        seq![digit_char(n)]
    } else {
        decimal_of(n / 10).push(digit_char(n % 10))
    }
}

/// `n` blanks.
pub open spec fn blanks(n: nat) -> Seq<char> {
    Seq::new(n, |i: int| ' ')
}

/// Where no `c` stands before index `k`, and `k` is the end of `s` or holds
/// a `c`, the first `c` is at `k`.
pub proof fn lemma_position(s: Seq<char>, c: char, k: int)
    requires
        0 <= k <= s.len(),
        forall|j: int| 0 <= j < k ==> s[j] != c,
        k == s.len() || s[k] == c,
    ensures
        position(s, c) == k,
    decreases s.len(),
{
    if s.len() == 0 || s.first() == c {
    } else {
        lemma_position(s.drop_first(), c, k - 1);
    }
}

/// A number written with more digits is no smaller than the one that its
/// first digits write.
pub proof fn lemma_decimal_value_grows(s: Seq<char>, k: int)
    requires
        0 <= k <= s.len(),
    ensures
        decimal_value(s.take(k)) <= decimal_value(s),
    decreases s.len() - k,
{
    if k == s.len() {
        assert(s.take(k) == s);
    } else {
        lemma_decimal_value_grows(s, k + 1);
        assert(s.take(k + 1).drop_last() == s.take(k));
    }
}

/// The characters of `s`, in order.
pub fn chars_of(s: &str) -> (chars: Vec<char>)
    ensures
        chars@ == s@,
{
    let mut chars: Vec<char> = Vec::new();
    for c in it: s.chars()
        invariant
            it.seq() == s@,
            chars@ == s@.take(it.index() as int),
    {
        chars.push(c);
    }
    chars
}

/// Whether `chars` spells out `literal`.
pub fn text_is(chars: &Vec<char>, literal: &str) -> (same: bool)
    ensures
        same == (chars@ == literal@),
{
    let mut i: usize = 0;
    for c in it: literal.chars()
        invariant
            it.seq() == literal@,
            i == it.index(),
            i <= chars.len(),
            chars@.take(i as int) == literal@.take(i as int),
    {
        if i >= chars.len() || chars[i] != c {
            assert(chars@ != literal@) by {
                if chars@ == literal@ {
                    assert(chars@[i as int] == literal@[i as int]);
                }
            }
            return false;
        }
        assert(chars@.take(i + 1) == chars@.take(i as int).push(chars@[i as int]));
        assert(literal@.take(i + 1) == literal@.take(i as int).push(literal@[i as int]));
        i += 1;
    }
    assert(literal@.take(i as int) == literal@);
    if i == chars.len() {
        assert(chars@.take(i as int) == chars@);
        true
    } else {
        false
    }
}

/// Whether two texts are the same.
pub fn same_text(a: &str, b: &str) -> (same: bool)
    ensures
        same == (a@ == b@),
{
    let chars = chars_of(a);
    text_is(&chars, b)
}

/// The bounds of what is left of `chars[from..to]` once the white space at
/// both of its ends is taken away.
pub fn trim_bounds(chars: &Vec<char>, from: usize, to: usize) -> (bounds: (usize, usize))
    requires
        from <= to <= chars.len(),
    ensures
        from <= bounds.0 <= bounds.1 <= to,
        chars@.subrange(bounds.0 as int, bounds.1 as int) == trim(
            chars@.subrange(from as int, to as int),
        ),
{
    let mut start = from;
    while start < to && chars[start].is_whitespace()
        invariant
            from <= start <= to <= chars.len(),
            trim_start(chars@.subrange(from as int, to as int)) == trim_start(
                chars@.subrange(start as int, to as int),
            ),
        decreases to - start,
    {
        assert(chars@.subrange(start as int, to as int).drop_first() == chars@.subrange(
            start + 1,
            to as int,
        ));
        start += 1;
    }
    let mut end = to;
    while end > start && chars[end - 1].is_whitespace()
        invariant
            start <= end <= to <= chars.len(),
            trim_end(chars@.subrange(start as int, to as int)) == trim_end(
                chars@.subrange(start as int, end as int),
            ),
        decreases end - start,
    {
        assert(chars@.subrange(start as int, end as int).drop_last() == chars@.subrange(
            start as int,
            end - 1,
        ));
        end -= 1;
    }
    (start, end)
}

/// The parts of `value` between commas, each without the white space
/// around it.
pub fn parse_list(value: &str) -> (parts: Vec<String>)
    ensures
        parts.deep_view() == list_of(value@),
        parts.len() >= 1,
{
    let chars = chars_of(value);
    let mut parts: Vec<String> = Vec::new();
    let mut start: usize = 0;
    let mut i: usize = 0;
    proof {
        assert(value@.skip(0) == value@);
        assert(parts.deep_view() == Seq::<Seq<char>>::empty());
        assert(parts.deep_view() + list_of(value@) == list_of(value@));
    }
    while i < chars.len()
        invariant
            chars@ == value@,
            start <= i <= chars.len(),
            forall|j: int| start <= j < i ==> chars@[j] != ',',
            list_of(value@) == parts.deep_view() + list_of(value@.skip(start as int)),
        decreases chars.len() - i,
    {
        if chars[i] == ',' {
            let (from, to) = trim_bounds(&chars, start, i);
            let part = value.substring_char(from, to).to_owned();
            let ghost above = parts.deep_view();
            proof {
                let rest = value@.skip(start as int);
                lemma_position(rest, ',', i - start);
                assert(rest.take(i - start) == value@.subrange(start as int, i as int));
                assert(rest.skip(i - start + 1) == value@.skip(i + 1));
                lemma_list_of_unfolds(rest);
            }
            parts.push(part);
            assert(parts.deep_view() == above.push(part@));
            start = i + 1;
        }
        i += 1;
    }
    let (from, to) = trim_bounds(&chars, start, chars.len());
    let part = value.substring_char(from, to).to_owned();
    let ghost above = parts.deep_view();
    proof {
        let rest = value@.skip(start as int);
        lemma_position(rest, ',', rest.len() as int);
        assert(rest == value@.subrange(start as int, chars.len() as int));
        lemma_list_of_unfolds(rest);
    }
    parts.push(part);
    assert(parts.deep_view() == above.push(part@));
    parts
}

/// A list has at least one part.
pub proof fn lemma_list_is_not_empty(s: Seq<char>)
    ensures
        list_of(s).len() >= 1,
{
}

/// The list of a text is the trimmed part before its first comma, then the
/// list of what follows that comma.
pub proof fn lemma_list_of_unfolds(s: Seq<char>)
    ensures
        position(s, ',') >= s.len() ==> list_of(s) == seq![trim(s)],
        position(s, ',') < s.len() ==> list_of(s) == seq![trim(s.take(position(s, ',') as int))]
            + list_of(s.skip(position(s, ',') as int + 1)),
{
    let first = position(s, ',');
    let f = |part: Seq<char>| trim(part);
    if first >= s.len() {
        assert(seq![s].map_values(f) == seq![trim(s)]);
    } else {
        let head = seq![s.take(first as int)];
        let tail = split(s.skip(first as int + 1), ',');
        assert((head + tail).map_values(f) == head.map_values(f) + tail.map_values(f));
        assert(head.map_values(f) == seq![trim(s.take(first as int))]);
    }
}

/// Reads `chars[from..to]` as a number without a sign of its own that is
/// no larger than `max`.
pub fn parse_decimal(chars: &Vec<char>, from: usize, to: usize, max: u32) -> (value: Option<u32>)
    requires
        from <= to <= chars.len(),
    ensures
        match value {
            Some(value) => parse_unsigned(chars@.subrange(from as int, to as int), max as nat)
                == Some(value as nat),
            None => parse_unsigned(chars@.subrange(from as int, to as int), max as nat) is None,
        },
{
    let ghost text = chars@.subrange(from as int, to as int);
    let mut start = from;
    if start < to && chars[start] == '+' {
        start += 1;
    }
    let ghost digits = chars@.subrange(start as int, to as int);
    assert(digits == if text.len() > 0 && text.first() == '+' {
        text.drop_first()
    } else {
        text
    });
    if start == to {
        return None;
    }
    let mut value: u64 = 0;
    let mut i = start;
    assert(digits.take(0) == Seq::<char>::empty());
    while i < to
        invariant
            from <= start <= i <= to <= chars.len(),
            text == chars@.subrange(from as int, to as int),
            digits == chars@.subrange(start as int, to as int),
            digits.len() > 0,
            parse_unsigned(text, max as nat) == if all_digits(digits) && decimal_value(digits)
                <= max {
                Some(decimal_value(digits))
            } else {
                None
            },
            all_digits(digits.take(i - start)),
            value == decimal_value(digits.take(i - start)),
            value <= max,
        decreases to - i,
    {
        let c = chars[i];
        assert(digits[i - start] == c);
        if c < '0' || c > '9' {
            assert(digit_of(digits[i - start]) is None);
            return None;
        }
        let digit: u32 = c as u32 - '0' as u32;
        let next: u64 = value * 10 + digit as u64;
        proof {
            let longer = digits.take(i - start + 1);
            assert(longer.drop_last() == digits.take(i - start));
            assert(longer.last() == c);
            assert(next == decimal_value(longer));
            assert forall|j: int| 0 <= j < longer.len() implies (#[trigger] digit_of(
                longer[j],
            )) is Some by {
                if j < i - start {
                    assert(digits.take(i - start)[j] == longer[j]);
                }
            }
            lemma_decimal_value_grows(digits, i - start + 1);
        }
        if next > max as u64 {
            return None;
        }
        value = next;
        i += 1;
    }
    assert(digits.take(i - start) == digits);
    Some(value as u32)
}

/// The text that writes the digit `d`.
pub fn digit_text(d: u8) -> (text: &'static str)
    requires
        d < 10,
    ensures
        text@ == seq![digit_char(d as nat)],
{
    proof {
        reveal_strlit("0");
        reveal_strlit("1");
        reveal_strlit("2");
        reveal_strlit("3");
        reveal_strlit("4");
        reveal_strlit("5");
        reveal_strlit("6");
        reveal_strlit("7");
        reveal_strlit("8");
        reveal_strlit("9");
    }
    let text = if d == 0 {
        "0"
    } else if d == 1 {
        "1"
    } else if d == 2 {
        "2"
    } else if d == 3 {
        "3"
    } else if d == 4 {
        "4"
    } else if d == 5 {
        "5"
    } else if d == 6 {
        "6"
    } else if d == 7 {
        "7"
    } else if d == 8 {
        "8"
    } else {
        "9"
    };
    assert(text@ == seq![digit_char(d as nat)]);
    text
}

/// The text that writes `n` in base ten.
pub fn decimal_string(n: u8) -> (text: String)
    ensures
        text@ == decimal_of(n as nat),
{
    let mut text = String::new();
    proof {
        reveal_with_fuel(decimal_of, 3);
    }
    if n >= 100 {
        text.append(digit_text(n / 100));
    }
    if n >= 10 {
        text.append(digit_text((n / 10) % 10));
    }
    text.append(digit_text(n % 10));
    assert(text@ == decimal_of(n as nat));
    text
}

/// Puts `n` blanks at the end of `text`.
pub fn pad(text: &mut String, n: usize)
    ensures
        final(text)@ == old(text)@ + blanks(n as nat),
{
    let mut i: usize = 0;
    proof {
        reveal_strlit(" ");
        assert(text@ + blanks(0) == text@);
    }
    while i < n
        invariant
            i <= n,
            " "@ == seq![' '],
            text@ == old(text)@ + blanks(i as nat),
        decreases n - i,
    {
        text.append(" ");
        i += 1;
        assert(text@ == old(text)@ + blanks(i as nat));
    }
}

/// A copy of an optional text.
pub fn clone_text(text: &Option<String>) -> (copy: Option<String>)
    ensures
        copy.deep_view() == text.deep_view(),
{
    match text {
        Some(text) => Some(text.clone()),
        None => None,
    }
}

/// A copy of a list of texts.
pub fn clone_texts(texts: &Vec<String>) -> (copy: Vec<String>)
    ensures
        copy.deep_view() == texts.deep_view(),
{
    let mut copy: Vec<String> = Vec::new();
    let mut i: usize = 0;
    while i < texts.len()
        invariant
            i <= texts.len(),
            copy.len() == i,
            forall|j: int| 0 <= j < i ==> copy@[j]@ == texts@[j]@,
        decreases texts.len() - i,
    {
        copy.push(texts[i].clone());
        i += 1;
    }
    assert(copy.deep_view() == texts.deep_view());
    copy
}

/// Whether two optional texts say the same.
pub fn same_optional_text(a: &Option<String>, b: &Option<String>) -> (same: bool)
    ensures
        same == (a.deep_view() == b.deep_view()),
{
    match a {
        Some(a) => match b {
            Some(b) => *a == *b,
            None => false,
        },
        None => b.is_none(),
    }
}

/// Whether two lists of texts say the same.
pub fn same_texts(a: &Vec<String>, b: &Vec<String>) -> (same: bool)
    ensures
        same == (a.deep_view() == b.deep_view()),
{
    if a.len() != b.len() {
        assert(a.deep_view().len() != b.deep_view().len());
        return false;
    }
    let mut i: usize = 0;
    while i < a.len()
        invariant
            i <= a.len(),
            a.len() == b.len(),
            forall|j: int| 0 <= j < i ==> a@[j]@ == b@[j]@,
        decreases a.len() - i,
    {
        if a[i] != b[i] {
            assert(a.deep_view()[i as int] != b.deep_view()[i as int]);
            return false;
        }
        i += 1;
    }
    assert(a.deep_view() == b.deep_view());
    true
}

} // verus!

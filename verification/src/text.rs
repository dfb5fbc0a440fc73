//! Text as the settings are written in: white space, letters, numbers, lines.

use vstd::prelude::*;
use vstd::utf8::is_ascii_chars;

verus! {

/// The characters with the Unicode property `White_Space`.
pub open spec fn is_white_space(c: char) -> bool {
    ||| '\u{9}' <= c <= '\u{d}'
    ||| c == '\u{20}'
    ||| c == '\u{85}'
    ||| c == '\u{a0}'
    ||| c == '\u{1680}'
    ||| '\u{2000}' <= c <= '\u{200a}'
    ||| c == '\u{2028}'
    ||| c == '\u{2029}'
    ||| c == '\u{202f}'
    ||| c == '\u{205f}'
    ||| c == '\u{3000}'
}

/// Whether `c` has the Unicode property `White_Space`.
pub fn white_space(c: char) -> (found: bool)
    ensures
        found == is_white_space(c),
{
    ('\u{9}' <= c && c <= '\u{d}') || c == '\u{20}' || c == '\u{85}' || c == '\u{a0}' || c
        == '\u{1680}' || ('\u{2000}' <= c && c <= '\u{200a}') || c == '\u{2028}' || c == '\u{2029}'
        || c == '\u{202f}' || c == '\u{205f}' || c == '\u{3000}'
}

/// `s` without its leading white space.
pub open spec fn trimmed_start(s: Seq<char>) -> Seq<char>
    decreases s.len(),
{
    if s.len() > 0 && is_white_space(s[0]) {
        trimmed_start(s.drop_first())
    } else {
        s
    }
}

/// `s` without its trailing white space.
pub open spec fn trimmed_end(s: Seq<char>) -> Seq<char>
    decreases s.len(),
{
    if s.len() > 0 && is_white_space(s.last()) {
        trimmed_end(s.drop_last())
    } else {
        s
    }
}

/// `s` without its leading and trailing white space.
pub open spec fn trimmed(s: Seq<char>) -> Seq<char> {
    trimmed_end(trimmed_start(s))
}

/// The characters of `s`, in order.
pub fn characters(s: &str) -> (chars: Vec<char>)
    ensures
        chars@ == s@,
{
    let mut chars: Vec<char> = Vec::new();
    for c in it: s.chars()
        invariant
            it.seq() == s@,
            chars@ == s@.take(it.index()),
    {
        proof {
            assert(s@.take(it.index() + 1) == s@.take(it.index()).push(s@[it.index()]));
        }
        chars.push(c);
    }
    assert(s@.take(s@.len() as int) == s@);
    chars
}

/// Strips white space from both ends of `s`.
pub fn trim(s: &str) -> (t: &str)
    ensures
        t@ == trimmed(s@),
{
    let chars = characters(s);
    let n: usize = chars.len();
    let mut from: usize = 0;
    assert(s@.skip(0) == s@);
    while from < n && white_space(chars[from])
        invariant
            chars@ == s@,
            n == chars@.len(),
            from <= n,
            trimmed_start(s@) == trimmed_start(s@.skip(from as int)),
        decreases n - from,
    {
        assert(s@.skip(from as int).drop_first() == s@.skip(from + 1));
        from = from + 1;
    }
    assert(trimmed_start(s@) == s@.skip(from as int));
    let mut to: usize = n;
    assert(s@.subrange(from as int, to as int) == s@.skip(from as int));
    while from < to && white_space(chars[to - 1])
        invariant
            chars@ == s@,
            n == chars@.len(),
            from <= to <= n,
            trimmed(s@) == trimmed_end(s@.subrange(from as int, to as int)),
        decreases to,
    {
        assert(s@.subrange(from as int, to as int).drop_last() == s@.subrange(
            from as int,
            to - 1,
        ));
        to = to - 1;
    }
    s.substring_char(from, to)
}

/// The lower-case letter of an upper-case ASCII letter; any other character itself.
pub open spec fn lower(c: char) -> char {
    if 'A' <= c <= 'Z' {
        (c as int + 32) as char
    } else {
        c
    }
}

/// `s` with its upper-case ASCII letters in lower case.
pub open spec fn lowered(s: Seq<char>) -> Seq<char> {
    s.map_values(|c: char| lower(c))
}

/// The characters of `s`, upper-case ASCII letters in lower case.
pub fn ascii_lowercase(s: &str) -> (chars: Vec<char>)
    ensures
        chars@ == lowered(s@),
{
    let mut chars = characters(s);
    let n: usize = chars.len();
    let mut i: usize = 0;
    while i < n
        invariant
            n == chars@.len() == s@.len(),
            i <= n,
            forall|k: int| 0 <= k < i ==> chars@[k] == lower(s@[k]),
            forall|k: int| i <= k < n ==> chars@[k] == s@[k],
        decreases n - i,
    {
        let c = chars[i];
        if 'A' <= c && c <= 'Z' {
            let code: u8 = c as u8;
            chars.set(i, (code + 32) as char);
        }
        i = i + 1;
    }
    chars
}

/// What `str::to_lowercase` makes of a text, by the case mappings of Unicode.
pub uninterp spec fn unicode_lowercase(s: Seq<char>) -> Seq<char>;

/// `str::to_lowercase` gives the lower-case equivalent of a text, which depends
/// on the text alone. Of text that is all ASCII that is the same text with its
/// letters `A` to `Z` in lower case. How Unicode maps other characters is left
/// unsaid.
pub assume_specification[ str::to_lowercase ](s: &str) -> (result: String)
    ensures
        result@ == unicode_lowercase(s@),
        is_ascii_chars(s@) ==> result@ == lowered(s@),
;

/// `s` in lower case: by `lowered` where it is all ASCII, else by the case
/// mappings of Unicode.
pub open spec fn lower_case(s: Seq<char>) -> Seq<char> {
    if is_ascii_chars(s) {
        lowered(s)
    } else {
        unicode_lowercase(s)
    }
}

/// Whether `chars` spells `word`.
pub fn spells(chars: &[char], word: &str) -> (same: bool)
    ensures
        same == (chars@ == word@),
{
    let word_chars = characters(word);
    if chars.len() != word_chars.len() {
        return false;
    }
    let mut i: usize = 0;
    while i < chars.len()
        invariant
            word_chars@ == word@,
            chars@.len() == word_chars@.len(),
            i <= chars@.len(),
            forall|k: int| 0 <= k < i ==> chars@[k] == word_chars@[k],
        decreases chars@.len() - i,
    {
        if chars[i] != word_chars[i] {
            return false;
        }
        i = i + 1;
    }
    assert(chars@ == word@);
    true
}

/// Whether `c` is an ASCII decimal digit.
pub open spec fn is_digit(c: char) -> bool {
    '0' <= c <= '9'
}

/// Whether `s` is one or more ASCII decimal digits.
pub open spec fn is_digits(s: Seq<char>) -> bool {
    s.len() > 0 && forall|i: int| 0 <= i < s.len() ==> is_digit(#[trigger] s[i])
}

/// The number that a row of decimal digits stands for.
pub open spec fn digits_value(s: Seq<char>) -> nat
    decreases s.len(),
{
    if s.len() == 0 {
        0
    } else {
        10 * digits_value(s.drop_last()) + (s.last() as int - '0' as int) as nat
    }
}

/// `s` without one leading plus sign.
pub open spec fn without_plus(s: Seq<char>) -> Seq<char> {
    if s.len() > 0 && s[0] == '+' {
        s.drop_first()
    } else {
        s
    }
}

/// The unsigned decimal number that `s` spells: an optional plus sign, then
/// nothing but digits, at least one.
pub open spec fn number(s: Seq<char>) -> Option<nat> {
    if is_digits(without_plus(s)) {
        Some(digits_value(without_plus(s)))
    } else {
        None
    }
}

/// A row of digits stands for at least as much as any of its beginnings.
proof fn lemma_digits_value_grows(s: Seq<char>, n: int)
    requires
        is_digits(s),
        0 <= n <= s.len(),
    ensures
        digits_value(s.take(n)) <= digits_value(s),
    decreases s.len() - n,
{
    if n < s.len() {
        lemma_digits_value_grows(s, n + 1);
        assert(s.take(n + 1).drop_last() == s.take(n));
    } else {
        assert(s.take(n) == s);
    }
}

/// Reads the unsigned decimal number that `s` spells, where it fits in 64 bits.
pub fn parse_number(s: &str) -> (parsed: Option<u64>)
    ensures
        parsed == match number(s@) {
            Some(n) => if n <= u64::MAX {
                Some(n as u64)
            } else {
                None
            },
            None => None,
        },
{
    let chars = characters(s);
    let n: usize = chars.len();
    let from: usize = if n > 0 && chars[0] == '+' {
        1
    } else {
        0
    };
    let ghost digits = without_plus(s@);
    assert(digits == s@.skip(from as int));
    if from == n {
        return None;
    }
    let mut value: u64 = 0;
    let mut i: usize = from;
    while i < n
        invariant
            chars@ == s@,
            n == chars@.len(),
            from <= i <= n,
            from < n,
            digits == without_plus(s@),
            digits == s@.skip(from as int),
            forall|k: int| 0 <= k < i - from ==> is_digit(#[trigger] digits[k]),
            value == digits_value(digits.take(i - from)),
        decreases n - i,
    {
        let c = chars[i];
        assert(c == digits[i - from]);
        if !('0' <= c && c <= '9') {
            return None;
        }
        let digit: u64 = c as u64 - '0' as u64;
        assert(digits.take(i + 1 - from).drop_last() == digits.take(i - from));
        assert(digits_value(digits.take(i + 1 - from)) == 10 * value + digit);
        if value > (u64::MAX - digit) / 10 {
            proof {
                if is_digits(digits) {
                    lemma_digits_value_grows(digits, i + 1 - from);
                }
            }
            return None;
        }
        value = value * 10 + digit;
        i = i + 1;
    }
    assert(digits.take(n - from) == digits);
    Some(value)
}

/// `n` in decimal digits, without leading zeros.
pub open spec fn decimal(n: nat) -> Seq<char>
    decreases n,
{
    let last = ('0' as int + n % 10) as char;
    if n < 10 {
        seq![last]
    } else {
        decimal(n / 10).push(last)
    }
}

/// Appends `n` in decimal digits to `out`.
pub fn push_decimal(out: &mut String, n: u64)
    ensures
        final(out)@ == old(out)@ + decimal(n as nat),
    decreases n,
{
    if n >= 10 {
        push_decimal(out, n / 10);
    }
    proof {
        reveal_strlit("0");
        reveal_strlit("1");
        reveal_strlit("2");
        reveal_strlit("3");
        reveal_strlit("4");
        reveal_strlit("5");
        reveal_strlit("6");
        reveal_strlit("7");
        reveal_strlit("8");
        reveal_strlit("9");
    }
    let digit: u64 = n % 10;
    let text = if digit == 0 {
        "0"
    } else if digit == 1 {
        "1"
    } else if digit == 2 {
        "2"
    } else if digit == 3 {
        "3"
    } else if digit == 4 {
        "4"
    } else if digit == 5 {
        "5"
    } else if digit == 6 {
        "6"
    } else if digit == 7 {
        "7"
    } else if digit == 8 {
        "8"
    } else {
        "9"
    };
    assert(text@ == seq![('0' as int + n % 10) as char]);
    out.append(text);
    assert(out@ == old(out)@ + decimal(n as nat));
}

/// What `decimal` writes is digits that `number` reads back, and nothing that
/// trimming would take off.
pub proof fn law_decimal_reads_back(n: nat)
    ensures
        is_digits(decimal(n)),
        number(decimal(n)) == Some(n),
        trimmed(decimal(n)) == decimal(n),
{
    lemma_decimal_digits(n);
}

proof fn lemma_decimal_digits(n: nat)
    ensures
        is_digits(decimal(n)),
        digits_value(decimal(n)) == n,
    decreases n,
{
    let last = ('0' as int + n % 10) as char;
    if n < 10 {
        assert(decimal(n).drop_last() == Seq::<char>::empty());
        assert(digits_value(decimal(n).drop_last()) == 0);
    } else {
        lemma_decimal_digits(n / 10);
        assert(decimal(n).drop_last() == decimal(n / 10));
    }
}

/// How many characters of `s` stand before its first line feed.
pub open spec fn line_length(s: Seq<char>) -> nat
    decreases s.len(),
{
    if s.len() == 0 || s[0] == '\n' {
        0
    } else {
        1 + line_length(s.drop_first())
    }
}

/// `s` without one trailing carriage return.
pub open spec fn without_return(s: Seq<char>) -> Seq<char> {
    if s.len() > 0 && s.last() == '\r' {
        s.drop_last()
    } else {
        s
    }
}

/// The lines of `s`. A line ends with a line feed or with a carriage return and
/// a line feed, which do not belong to it; the last one may lack its ending.
pub open spec fn lines(s: Seq<char>) -> Seq<Seq<char>>
    decreases s.len(),
{
    let n = line_length(s) as int;
    if s.len() == 0 {
        seq![]
    } else if n < s.len() {
        seq![without_return(s.take(n))] + lines(s.skip(n + 1))
    } else {
        seq![s]
    }
}

/// What follows `prefix` in the first of `rows` that begins with it.
pub open spec fn after_prefix(rows: Seq<Seq<char>>, prefix: Seq<char>) -> Option<Seq<char>>
    decreases rows.len(),
{
    if rows.len() == 0 {
        None
    } else if prefix.is_prefix_of(rows[0]) {
        Some(rows[0].skip(prefix.len() as int))
    } else {
        after_prefix(rows.drop_first(), prefix)
    }
}

/// `s` with `suffix` taken off its end as often as it stands there.
pub open spec fn without_suffixes(s: Seq<char>, suffix: Seq<char>) -> Seq<char>
    decreases s.len(),
{
    if suffix.len() > 0 && suffix.is_suffix_of(s) {
        without_suffixes(s.take(s.len() - suffix.len()), suffix)
    } else {
        s
    }
}

proof fn lemma_line_length(s: Seq<char>, n: int)
    requires
        0 <= n <= s.len(),
        forall|k: int| 0 <= k < n ==> s[k] != '\n',
        n < s.len() ==> s[n] == '\n',
    ensures
        line_length(s) == n,
    decreases n,
{
    if n > 0 {
        lemma_line_length(s.drop_first(), n - 1);
    }
}

/// Whether `word` stands in `chars` at `at`.
fn stands_at(chars: &Vec<char>, at: usize, word: &Vec<char>) -> (found: bool)
    requires
        at + word@.len() <= chars@.len(),
    ensures
        found == (chars@.subrange(at as int, at + word@.len()) == word@),
{
    let n: usize = chars.len();
    let mut i: usize = 0;
    while i < word.len()
        invariant
            at + word@.len() <= chars@.len() == n,
            i <= word@.len(),
            forall|k: int| 0 <= k < i ==> chars@[at + k] == word@[k],
        decreases word@.len() - i,
    {
        if chars[at + i] != word[i] {
            assert(chars@.subrange(at as int, at + word@.len())[i as int] != word@[i as int]);
            return false;
        }
        i = i + 1;
    }
    assert(chars@.subrange(at as int, at + word@.len()) == word@);
    true
}

/// What follows `prefix` in the first line of `s` that begins with it.
pub fn find_line<'a>(s: &'a str, prefix: &str) -> (found: Option<&'a str>)
    ensures
        match found {
            Some(rest) => after_prefix(lines(s@), prefix@) == Some(rest@),
            None => after_prefix(lines(s@), prefix@) is None,
        },
{
    let chars = characters(s);
    let prefix_chars = characters(prefix);
    let n: usize = chars.len();
    let m: usize = prefix_chars.len();
    let mut from: usize = 0;
    assert(s@.skip(0) == s@);
    while from < n
        invariant
            chars@ == s@,
            prefix_chars@ == prefix@,
            n == chars@.len(),
            m == prefix_chars@.len(),
            from <= n,
            after_prefix(lines(s@), prefix@) == after_prefix(lines(s@.skip(from as int)), prefix@),
        decreases n - from,
    {
        let ghost left = s@.skip(from as int);
        let mut end: usize = from;
        while end < n && chars[end] != '\n'
            invariant
                chars@ == s@,
                n == chars@.len(),
                from <= end <= n,
                left == s@.skip(from as int),
                forall|k: int| 0 <= k < end - from ==> left[k] != '\n',
            decreases n - end,
        {
            end = end + 1;
        }
        proof {
            lemma_line_length(left, end - from);
        }
        let stop: usize = if end < n && end > from && chars[end - 1] == '\r' {
            end - 1
        } else {
            end
        };
        let ghost line = s@.subrange(from as int, stop as int);
        assert(lines(left).len() > 0 && lines(left)[0] == line) by {
            if end < n {
                assert(left.take(end - from) == s@.subrange(from as int, end as int));
                assert(without_return(left.take(end - from)) == line);
            } else {
                assert(left == line);
            }
        }
        if m <= stop - from {
            if stands_at(&chars, from, &prefix_chars) {
                assert(prefix@.is_prefix_of(line)) by {
                    assert(line.take(m as int) == s@.subrange(from as int, from + m));
                }
                assert(line.skip(m as int) == s@.subrange(from + m, stop as int));
                return Some(s.substring_char(from + m, stop));
            }
            assert(!prefix@.is_prefix_of(line)) by {
                assert(line.take(m as int) == s@.subrange(from as int, from + m));
            }
        }
        if end == n {
            assert(lines(left).drop_first() == Seq::<Seq<char>>::empty());
            assert(after_prefix(Seq::empty(), prefix@) is None);
            return None;
        }
        assert(lines(left).drop_first() == lines(left.skip(end - from + 1)));
        assert(left.skip(end - from + 1) == s@.skip(end + 1));
        from = end + 1;
    }
    assert(s@.skip(n as int) == Seq::<char>::empty());
    None
}

/// Takes `suffix` off the end of `s` as often as it stands there.
pub fn trim_suffixes<'a>(s: &'a str, suffix: &str) -> (t: &'a str)
    ensures
        t@ == without_suffixes(s@, suffix@),
{
    let chars = characters(s);
    let suffix_chars = characters(suffix);
    let m: usize = suffix_chars.len();
    let mut to: usize = chars.len();
    assert(s@.take(to as int) == s@);
    if m == 0 {
        return s;
    }
    while to >= m && stands_at(&chars, to - m, &suffix_chars)
        invariant
            chars@ == s@,
            suffix_chars@ == suffix@,
            m == suffix_chars@.len(),
            m > 0,
            to <= chars@.len(),
            without_suffixes(s@, suffix@) == without_suffixes(s@.take(to as int), suffix@),
        decreases to,
    {
        let ghost before = s@.take(to as int);
        assert(before.skip(to - m) == s@.subrange(to - m, to as int));
        assert(before.take(to - m) == s@.take(to - m));
        to = to - m;
    }
    proof {
        let left = s@.take(to as int);
        if suffix@.is_suffix_of(left) {
            assert(left.skip(to - m) == s@.subrange(to - m, to as int));
        }
    }
    assert(s@.subrange(0, to as int) == s@.take(to as int));
    s.substring_char(0, to)
}

/// Whether `s` is nothing but white space.
pub open spec fn is_blank(s: Seq<char>) -> bool {
    forall|i: int| 0 <= i < s.len() ==> is_white_space(#[trigger] s[i])
}

/// What trimming leaves of a text begins and ends with no white space, and
/// trimming it again changes nothing.
pub proof fn law_trimmed_is_tight(s: Seq<char>)
    ensures
        trimmed(s).len() > 0 ==> !is_white_space(trimmed(s)[0]) && !is_white_space(
            trimmed(s).last(),
        ),
        trimmed(trimmed(s)) == trimmed(s),
{
    lemma_trimmed_start_tight(s);
    lemma_trimmed_end_tight(trimmed_start(s));
}

proof fn lemma_trimmed_start_tight(s: Seq<char>)
    ensures
        trimmed_start(s).len() > 0 ==> !is_white_space(trimmed_start(s)[0]),
    decreases s.len(),
{
    if s.len() > 0 && is_white_space(s[0]) {
        lemma_trimmed_start_tight(s.drop_first());
    }
}

proof fn lemma_trimmed_end_tight(s: Seq<char>)
    ensures
        trimmed_end(s).len() > 0 ==> !is_white_space(trimmed_end(s).last()),
        trimmed_end(s).is_prefix_of(s),
    decreases s.len(),
{
    if s.len() > 0 && is_white_space(s.last()) {
        lemma_trimmed_end_tight(s.drop_last());
    }
}

/// White space around a text makes no difference to what trimming leaves of it.
pub proof fn law_trimmed_ignores_white_space_around(
    before: Seq<char>,
    s: Seq<char>,
    after: Seq<char>,
)
    requires
        is_blank(before),
        is_blank(after),
    ensures
        trimmed(before + s + after) == trimmed(s),
{
    assert(before + s + after == before + (s + after));
    lemma_trimmed_start_concat(before, s + after);
    lemma_trimmed_start_blank(before);
    lemma_trimmed_start_concat(s, after);
    lemma_trimmed_start_blank(after);
    if trimmed_start(s).len() > 0 {
        lemma_trimmed_end_concat(trimmed_start(s), after);
    }
}

proof fn lemma_trimmed_start_blank(s: Seq<char>)
    requires
        is_blank(s),
    ensures
        trimmed_start(s) == Seq::<char>::empty(),
    decreases s.len(),
{
    if s.len() > 0 {
        lemma_trimmed_start_blank(s.drop_first());
    }
}

proof fn lemma_trimmed_start_concat(a: Seq<char>, b: Seq<char>)
    ensures
        trimmed_start(a + b) == if trimmed_start(a).len() > 0 {
            trimmed_start(a) + b
        } else {
            trimmed_start(b)
        },
    decreases a.len(),
{
    if a.len() == 0 {
        assert(a + b == b);
    } else {
        assert((a + b).drop_first() == a.drop_first() + b);
        lemma_trimmed_start_concat(a.drop_first(), b);
    }
}

proof fn lemma_trimmed_end_concat(a: Seq<char>, b: Seq<char>)
    requires
        is_blank(b),
    ensures
        trimmed_end(a + b) == trimmed_end(a),
    decreases b.len(),
{
    if b.len() == 0 {
        assert(a + b == a);
    } else {
        assert((a + b).drop_last() == a + b.drop_last());
        assert((a + b).last() == b.last());
        assert(is_white_space(b[b.len() - 1]));
        lemma_trimmed_end_concat(a, b.drop_last());
    }
}

/// Lower case and trimming do not get in each other's way.
pub proof fn law_lowered_and_trimmed_commute(s: Seq<char>)
    ensures
        lowered(trimmed(s)) == trimmed(lowered(s)),
{
    lemma_lowered_trimmed_start(s);
    lemma_lowered_trimmed_end(trimmed_start(s));
}

proof fn lemma_lowered_trimmed_start(s: Seq<char>)
    ensures
        lowered(trimmed_start(s)) == trimmed_start(lowered(s)),
    decreases s.len(),
{
    if s.len() > 0 {
        assert(lowered(s).drop_first() == lowered(s.drop_first()));
        assert(lowered(s)[0] == lower(s[0]));
        lemma_lowered_trimmed_start(s.drop_first());
    }
}

proof fn lemma_lowered_trimmed_end(s: Seq<char>)
    ensures
        lowered(trimmed_end(s)) == trimmed_end(lowered(s)),
    decreases s.len(),
{
    if s.len() > 0 {
        assert(lowered(s).drop_last() == lowered(s.drop_last()));
        assert(lowered(s).last() == lower(s.last()));
        lemma_lowered_trimmed_end(s.drop_last());
    }
}

/// The first line of a text is what stands before its first line feed, less a
/// carriage return there.
pub proof fn law_first_line(line: Seq<char>, rest: Seq<char>)
    requires
        !line.contains('\n'),
    ensures
        lines(line.push('\n') + rest) == seq![without_return(line)] + lines(rest),
{
    let s = line.push('\n') + rest;
    assert forall|k: int| 0 <= k < line.len() implies s[k] != '\n' by {
        assert(line.contains(line[k]));
    }
    lemma_line_length(s, line.len() as int);
    assert(s.take(line.len() as int) == line);
    assert(s.skip(line.len() as int + 1) == rest);
}

/// Trimming takes off white space at the two ends and leaves all between as it is.
pub proof fn law_trimming_takes_white_space_off_the_ends_only(s: Seq<char>)
    ensures
        exists|before: Seq<char>, after: Seq<char>|
            is_blank(before) && is_blank(after) && s == #[trigger] (before + trimmed(s) + after),
{
    let before = lemma_trimmed_start_rest(s);
    let after = lemma_trimmed_end_rest(trimmed_start(s));
    assert(s == before + trimmed(s) + after);
}

proof fn lemma_trimmed_start_rest(s: Seq<char>) -> (before: Seq<char>)
    ensures
        is_blank(before),
        s == before + trimmed_start(s),
    decreases s.len(),
{
    if s.len() > 0 && is_white_space(s[0]) {
        let rest = lemma_trimmed_start_rest(s.drop_first());
        let before = seq![s[0]] + rest;
        let left = trimmed_start(s.drop_first());
        assert(s == seq![s[0]] + s.drop_first());
        assert(before + left == seq![s[0]] + (rest + left));
        before
    } else {
        assert(s == Seq::<char>::empty() + s);
        Seq::empty()
    }
}

proof fn lemma_trimmed_end_rest(s: Seq<char>) -> (after: Seq<char>)
    ensures
        is_blank(after),
        s == trimmed_end(s) + after,
    decreases s.len(),
{
    if s.len() > 0 && is_white_space(s.last()) {
        let rest = lemma_trimmed_end_rest(s.drop_last());
        let after = rest.push(s.last());
        let left = trimmed_end(s.drop_last());
        assert(s == s.drop_last().push(s.last()));
        assert(left + after == (left + rest).push(s.last()));
        after
    } else {
        assert(s == s + Seq::<char>::empty());
        Seq::empty()
    }
}

/// A text that begins and ends with no white space is what trimming leaves of it,
/// whatever the white space around it.
pub proof fn law_tight_text_is_kept(before: Seq<char>, s: Seq<char>, after: Seq<char>)
    requires
        is_blank(before),
        is_blank(after),
        s.len() > 0 ==> !is_white_space(s[0]) && !is_white_space(s.last()),
    ensures
        trimmed(before + s + after) == s,
{
    law_trimmed_ignores_white_space_around(before, s, after);
}

/// Lower case changes the letters `A` to `Z`, each into the letter 32 further on,
/// and leaves every other character where it is.
pub proof fn law_lowered_changes_upper_case_letters_only(s: Seq<char>, i: int)
    requires
        0 <= i < s.len(),
    ensures
        lowered(s).len() == s.len(),
        'A' <= s[i] <= 'Z' ==> lowered(s)[i] as int == s[i] as int + 32,
        !('A' <= s[i] <= 'Z') ==> lowered(s)[i] == s[i],
{
}

/// Text whose lower case is all ASCII is all ASCII, and its lower case is then
/// that of its letters.
pub proof fn law_lower_case_of_ascii(s: Seq<char>)
    requires
        is_ascii_chars(lowered(s)),
    ensures
        is_ascii_chars(s),
        lower_case(s) == lowered(s),
{
    assert forall|i: int| 0 <= i < s.len() implies '\0' <= #[trigger] s[i] <= '\u{7f}' by {
        assert(lowered(s)[i] == lower(s[i]));
    }
}

/// What spells a number: digits, at least one, with at most one plus sign before
/// them.
pub proof fn law_only_digits_spell_a_number(s: Seq<char>)
    ensures
        number(s) is Some <==> {
            ||| s.len() > 0 && forall|i: int| 0 <= i < s.len() ==> '0' <= #[trigger] s[i] <= '9'
            ||| s.len() > 1 && s[0] == '+' && forall|i: int|
                1 <= i < s.len() ==> '0' <= #[trigger] s[i] <= '9'
        },
{
    if s.len() > 0 && s[0] == '+' {
        let rest = s.drop_first();
        if number(s) is Some {
            assert forall|i: int| 1 <= i < s.len() implies '0' <= #[trigger] s[i] <= '9' by {
                assert(is_digit(rest[i - 1]));
            }
        } else if s.len() > 1 {
            let k = choose|k: int| 0 <= k < rest.len() && !is_digit(#[trigger] rest[k]);
            assert(s[k + 1] == rest[k]);
        }
    } else if number(s) is Some {
        assert forall|i: int| 0 <= i < s.len() implies '0' <= #[trigger] s[i] <= '9' by {
            assert(is_digit(s[i]));
        }
    }
}

/// A further digit multiplies a number by ten and counts itself; a leading zero
/// and a leading plus sign change nothing.
pub proof fn law_digits_count_in_tens(s: Seq<char>, digit: char)
    requires
        s.len() > 0,
        forall|i: int| 0 <= i < s.len() ==> '0' <= #[trigger] s[i] <= '9',
        '0' <= digit <= '9',
    ensures
        number(seq![digit]) == Some((digit as int - '0' as int) as nat),
        number(s) matches Some(n) && number(s.push(digit)) == Some(
            (10 * n + (digit as int - '0' as int)) as nat,
        ),
        number(seq!['0'] + s) == number(s),
        number(seq!['+'] + s) == number(s),
{
    let one = seq![digit];
    assert(one.drop_last() == Seq::<char>::empty());
    assert(digits_value(one.drop_last()) == 0);
    let longer = s.push(digit);
    assert(longer.drop_last() == s);
    let zero = seq!['0'] + s;
    lemma_leading_zero(s);
    assert(is_digits(zero)) by {
        assert forall|i: int| 0 <= i < zero.len() implies is_digit(#[trigger] zero[i]) by {
            if i > 0 {
                assert(zero[i] == s[i - 1]);
            }
        }
    }
    assert((seq!['+'] + s).drop_first() == s);
}

proof fn lemma_leading_zero(s: Seq<char>)
    ensures
        digits_value(seq!['0'] + s) == digits_value(s),
    decreases s.len(),
{
    let zero = seq!['0'] + s;
    if s.len() > 0 {
        assert(zero.drop_last() == seq!['0'] + s.drop_last());
        lemma_leading_zero(s.drop_last());
    } else {
        assert(zero.drop_last() == Seq::<char>::empty());
        assert(digits_value(zero.drop_last()) == 0);
    }
}

/// The decimal digits of a number end in its remainder by ten, after those of its
/// tenth, and never begin with a zero that is not all of it.
pub proof fn law_decimal_counts_in_tens(n: nat)
    ensures
        decimal(n).last() as int == '0' as int + n % 10,
        n < 10 ==> decimal(n).len() == 1,
        n >= 10 ==> decimal(n).drop_last() == decimal(n / 10),
        n > 0 ==> decimal(n)[0] != '0',
    decreases n,
{
    if n >= 10 {
        law_decimal_counts_in_tens(n / 10);
        law_decimal_reads_back(n / 10);
        assert(decimal(n).drop_last() == decimal(n / 10));
        assert(decimal(n)[0] == decimal(n / 10)[0]);
    }
}

/// A word in any case, with white space around it, is read as the word in lower
/// case.
pub proof fn law_padded_word_is_read_in_lower_case(
    before: Seq<char>,
    word: Seq<char>,
    after: Seq<char>,
)
    requires
        is_blank(before),
        is_blank(after),
        word.len() > 0 ==> !is_white_space(lowered(word)[0]) && !is_white_space(
            lowered(word).last(),
        ),
    ensures
        lowered(trimmed(before + word + after)) == lowered(word),
{
    law_trimmed_ignores_white_space_around(before, word, after);
    law_lowered_and_trimmed_commute(word);
}

/// Trimming leaves something of a text exactly where the text is not all white
/// space.
pub proof fn law_only_blank_text_is_trimmed_to_nothing(s: Seq<char>)
    ensures
        trimmed(s).len() == 0 <==> is_blank(s),
{
    if is_blank(s) {
        lemma_trimmed_start_blank(s);
    }
    law_trimming_takes_white_space_off_the_ends_only(s);
    let (before, after) = choose|before: Seq<char>, after: Seq<char>|
        is_blank(before) && is_blank(after) && s == #[trigger] (before + trimmed(s) + after);
    if trimmed(s).len() == 0 {
        assert forall|i: int| 0 <= i < s.len() implies is_white_space(#[trigger] s[i]) by {
            if i < before.len() {
                assert(s[i] == before[i]);
            } else {
                assert(s[i] == after[i - before.len()]);
            }
        }
    }
}

/// Text without a line feed is one line.
pub proof fn law_last_line(line: Seq<char>)
    requires
        !line.contains('\n'),
        line.len() > 0,
    ensures
        lines(line) == seq![line],
{
    assert forall|k: int| 0 <= k < line.len() implies line[k] != '\n' by {
        assert(line.contains(line[k]));
    }
    lemma_line_length(line, line.len() as int);
}

/// A suffix comes off as often as it stands at the end, and nothing else does.
pub proof fn law_suffixes_come_off_one_by_one(s: Seq<char>, suffix: Seq<char>)
    requires
        suffix.len() > 0,
    ensures
        without_suffixes(s + suffix, suffix) == without_suffixes(s, suffix),
        !suffix.is_suffix_of(s) ==> without_suffixes(s, suffix) == s,
        !suffix.is_suffix_of(without_suffixes(s, suffix)),
    decreases s.len(),
{
    let longer = s + suffix;
    assert(suffix == longer.subrange(longer.len() - suffix.len(), longer.len() as int));
    assert(longer.take(longer.len() - suffix.len()) == s);
    if suffix.is_suffix_of(s) {
        law_suffixes_come_off_one_by_one(s.take(s.len() - suffix.len()), suffix);
    }
}

} // verus!

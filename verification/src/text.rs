//! Text as a sequence of characters: search, splitting and building.

use vstd::prelude::*;
use vstd::slice::slice_subrange;

verus! {

/// `pattern` stands in `text` at position `at`.
pub open spec fn occurs_at(text: Seq<char>, at: int, pattern: Seq<char>) -> bool {
    &&& 0 <= at
    &&& at + pattern.len() <= text.len()
    &&& text.subrange(at, at + pattern.len()) == pattern
}

/// `pattern` stands somewhere in `text`.
pub open spec fn occurs(text: Seq<char>, pattern: Seq<char>) -> bool {
    exists|at: int| #[trigger] occurs_at(text, at, pattern)
}

/// `text` begins with `pattern`.
pub open spec fn begins_with(text: Seq<char>, pattern: Seq<char>) -> bool {
    occurs_at(text, 0, pattern)
}

/// `text` ends with `pattern`.
pub open spec fn finishes_with(text: Seq<char>, pattern: Seq<char>) -> bool {
    occurs_at(text, text.len() - pattern.len(), pattern)
}

/// `text[from..to]` is one of the statements that `;` separates.
pub open spec fn statement_at(text: Seq<char>, from: int, to: int) -> bool {
    &&& 0 <= from <= to <= text.len()
    &&& from == 0 || text[from - 1] == ';'
    &&& to == text.len() || text[to] == ';'
    &&& forall|k: int| from <= k < to ==> text[k] != ';'
}

/// Some statement of `text` satisfies `pred`.
pub open spec fn any_statement(text: Seq<char>, pred: spec_fn(Seq<char>) -> bool) -> bool {
    exists|from: int, to: int| #[trigger]
        statement_at(text, from, to) && pred(text.subrange(from, to))
}

/// `text[from..to]` is one line, without its line ending. A line ends at a
/// line feed, at a carriage return followed by a line feed, or at the end of
/// the text.
pub open spec fn line_at(text: Seq<char>, from: int, to: int) -> bool {
    &&& 0 <= from <= to <= text.len()
    &&& from == 0 || text[from - 1] == '\n'
    &&& forall|k: int| from <= k < to ==> text[k] != '\n'
    &&& {
        ||| to < text.len() && text[to] == '\n' && !(from < to && text[to - 1] == '\r')
        ||| to + 1 < text.len() && text[to] == '\r' && text[to + 1] == '\n'
        ||| to == text.len() && from < text.len()
    }
}

/// Some line of `text` satisfies `pred`.
pub open spec fn any_line(text: Seq<char>, pred: spec_fn(Seq<char>) -> bool) -> bool {
    exists|from: int, to: int| #[trigger]
        line_at(text, from, to) && pred(text.subrange(from, to))
}

/// The characters with the Unicode property `White_Space`.
pub open spec fn whitespace(c: char) -> bool {
    ||| '\u{9}' <= c <= '\u{D}'
    ||| c == ' '
    ||| c == '\u{85}'
    ||| c == '\u{A0}'
    ||| c == '\u{1680}'
    ||| '\u{2000}' <= c <= '\u{200A}'
    ||| c == '\u{2028}'
    ||| c == '\u{2029}'
    ||| c == '\u{202F}'
    ||| c == '\u{205F}'
    ||| c == '\u{3000}'
}

/// `text` holds nothing but whitespace.
pub open spec fn blank(text: Seq<char>) -> bool {
    forall|k: int| 0 <= k < text.len() ==> whitespace(#[trigger] text[k])
}

/// The decimal numeral of `n`, without leading zeros.
pub open spec fn decimal(n: nat) -> Seq<char>
    decreases n,
{
    if n < 10 {
        seq![digit(n)]
    } else {
        decimal(n / 10).push(digit(n % 10))
    }
}

/// The decimal digit of `d`.
pub open spec fn digit(d: nat) -> char {
    if d == 0 {
        '0'
    } else if d == 1 {
        '1'
    } else if d == 2 {
        '2'
    } else if d == 3 {
        '3'
    } else if d == 4 {
        '4'
    } else if d == 5 {
        '5'
    } else if d == 6 {
        '6'
    } else if d == 7 {
        '7'
    } else if d == 8 {
        '8'
    } else {
        '9'
    }
}

/// The value of a decimal digit.
pub open spec fn digit_value(c: char) -> Option<nat> {
    if '0' <= c <= '9' {
        Some((c as int - '0' as int) as nat)
    } else {
        None
    }
}

/// The number that a non-empty run of decimal digits spells.
pub open spec fn decimal_value(text: Seq<char>) -> Option<nat>
    decreases text.len(),
{
    if text.len() == 0 {
        None
    } else {
        match digit_value(text.last()) {
            None => None,
            Some(units) => if text.len() == 1 {
                Some(units)
            } else {
                match decimal_value(text.drop_last()) {
                    None => None,
                    Some(tens) => Some(10 * tens + units),
                }
            },
        }
    }
}

/// The parts, each followed by the next, with `separator` in between.
pub open spec fn joined(parts: Seq<Seq<char>>, separator: Seq<char>) -> Seq<char>
    decreases parts.len(),
{
    if parts.len() == 0 {
        seq![]
    } else if parts.len() == 1 {
        parts[0]
    } else {
        joined(parts.drop_last(), separator) + separator + parts.last()
    }
}

/// `String::push` appends the character to the end of the string.
pub assume_specification[ String::push ](text: &mut String, c: char)
    ensures
        final(text)@ == old(text)@.push(c),
;

/// The text of the characters.
pub fn string_of(chars: &[char]) -> (text: String)
    ensures
        text@ == chars@,
{
    let mut text = String::new();
    for i in 0..chars.len()
        invariant
            text@ == chars@.take(i as int),
    {
        text.push(chars[i]);
        proof {
            assert(chars@.take(i + 1) =~= chars@.take(i as int).push(chars@[i as int]));
        }
    }
    proof {
        assert(chars@.take(chars@.len() as int) =~= chars@);
    }
    text
}

/// The characters of `text`.
pub fn chars_of(text: &str) -> (chars: Vec<char>)
    ensures
        chars@ == text@,
{
    let mut chars: Vec<char> = Vec::new();
    for c in it: text.chars()
        invariant
            chars@ == it.seq().take(it.index() as int),
            it.seq() == text@,
    {
        chars.push(c);
    }
    assert(text@.take(text@.len() as int) == text@);
    chars
}

/// Tests whether two texts are the same.
pub fn same_text(left: &str, right: &str) -> (same: bool)
    ensures
        same == (left@ == right@),
{
    left.to_owned() == right.to_owned()
}

/// Tests for `pattern` at position `at`.
pub fn matches_at(text: &[char], at: usize, pattern: &[char]) -> (found: bool)
    ensures
        found == occurs_at(text@, at as int, pattern@),
{
    if pattern.len() > text.len() || at > text.len() - pattern.len() {
        return false;
    }
    let mut k: usize = 0;
    while k < pattern.len()
        invariant
            k <= pattern.len(),
            at + pattern.len() <= text.len(),
            forall|j: int| 0 <= j < k ==> text@[at + j] == pattern@[j],
        decreases pattern.len() - k,
    {
        if text[at + k] != pattern[k] {
            assert(text@.subrange(at as int, at + pattern@.len())[k as int] != pattern@[k as int]);
            return false;
        }
        k += 1;
    }
    assert(text@.subrange(at as int, at + pattern@.len()) =~= pattern@);
    true
}

/// Tests whether `pattern` stands anywhere in `text`.
pub fn contains(text: &[char], pattern: &str) -> (found: bool)
    ensures
        found == occurs(text@, pattern@),
{
    let needle = chars_of(pattern);
    let mut at: usize = 0;
    while at < text.len()
        invariant
            at <= text.len(),
            needle@ == pattern@,
            forall|j: int| 0 <= j < at ==> !occurs_at(text@, j, pattern@),
        decreases text.len() - at,
    {
        if matches_at(text, at, &needle) {
            assert(occurs_at(text@, at as int, pattern@));
            return true;
        }
        at += 1;
    }
    matches_at(text, at, &needle)
}

/// Tests whether `text` begins with `pattern`.
pub fn starts_with(text: &[char], pattern: &str) -> (found: bool)
    ensures
        found == begins_with(text@, pattern@),
{
    matches_at(text, 0, &chars_of(pattern))
}

/// Tests whether `text` ends with `pattern`.
pub fn ends_with(text: &[char], pattern: &str) -> (found: bool)
    ensures
        found == finishes_with(text@, pattern@),
{
    let needle = chars_of(pattern);
    if needle.len() > text.len() {
        return false;
    }
    matches_at(text, text.len() - needle.len(), &needle)
}

/// Tests each statement of `text` in turn.
pub fn some_statement<F: Fn(&[char]) -> bool>(
    text: &[char],
    test: F,
    Ghost(pred): Ghost<spec_fn(Seq<char>) -> bool>,
) -> (found: bool)
    requires
        forall|s: &[char]| call_requires(test, (s,)),
        forall|s: &[char], b: bool| call_ensures(test, (s,), b) ==> b == pred(s@),
    ensures
        found == any_statement(text@, pred),
{
    let mut from: usize = 0;
    let mut to: usize = 0;
    loop
        invariant
            forall|s: &[char]| call_requires(test, (s,)),
            forall|s: &[char], b: bool| call_ensures(test, (s,), b) ==> b == pred(s@),
            from <= to <= text.len(),
            from == 0 || text@[from - 1] == ';',
            forall|k: int| from <= k < to ==> text@[k] != ';',
            forall|f: int, t: int| f < from && #[trigger] statement_at(text@, f, t)
                ==> !pred(text@.subrange(f, t)),
        decreases text.len() - to,
    {
        if to == text.len() || text[to] == ';' {
            if test(slice_subrange(text, from, to)) {
                assert(statement_at(text@, from as int, to as int));
                return true;
            }
            assert forall|f: int, t: int| f <= to && #[trigger] statement_at(
                text@,
                f,
                t,
            ) implies !pred(text@.subrange(f, t)) by {
                if f == from {
                    assert(t == to) by {
                        if t < to {
                            assert(text@[t] != ';');
                        }
                    }
                } else if f > from {
                    assert(text@[f - 1] == ';');
                }
            }
            if to == text.len() {
                return false;
            }
            to += 1;
            from = to;
        } else {
            to += 1;
        }
    }
}

/// Tests each line of `text` in turn.
pub fn some_line<F: Fn(&[char]) -> bool>(
    text: &[char],
    test: F,
    Ghost(pred): Ghost<spec_fn(Seq<char>) -> bool>,
) -> (found: bool)
    requires
        forall|s: &[char]| call_requires(test, (s,)),
        forall|s: &[char], b: bool| call_ensures(test, (s,), b) ==> b == pred(s@),
    ensures
        found == any_line(text@, pred),
{
    let mut from: usize = 0;
    let mut to: usize = 0;
    while from < text.len()
        invariant
            forall|s: &[char]| call_requires(test, (s,)),
            forall|s: &[char], b: bool| call_ensures(test, (s,), b) ==> b == pred(s@),
            from <= to <= text.len(),
            from == 0 || text@[from - 1] == '\n',
            forall|k: int| from <= k < to ==> text@[k] != '\n',
            forall|f: int, t: int| f < from && #[trigger] line_at(text@, f, t)
                ==> !pred(text@.subrange(f, t)),
        decreases text.len() - from, text.len() - to,
    {
        if to == text.len() || text[to] == '\n' {
            let end: usize = if to < text.len() && from < to && text[to - 1] == '\r' {
                to - 1
            } else {
                to
            };
            if test(slice_subrange(text, from, end)) {
                assert(line_at(text@, from as int, end as int));
                return true;
            }
            assert forall|f: int, t: int| f <= to && #[trigger] line_at(
                text@,
                f,
                t,
            ) implies !pred(text@.subrange(f, t)) by {
                if f == from {
                    assert(t == end) by {
                        if t < to {
                            assert(text@[t] != '\n');
                            if t + 1 < to {
                                assert(text@[t + 1] != '\n');
                            }
                        }
                    }
                } else if f > from {
                    assert(text@[f - 1] == '\n');
                }
            }
            if to == text.len() {
                assert forall|f: int, t: int| #[trigger]
                    line_at(text@, f, t) implies !pred(text@.subrange(f, t)) by {}
                return false;
            }
            to += 1;
            from = to;
        } else {
            to += 1;
        }
    }
    false
}

/// Tests for the Unicode property `White_Space`.
pub fn is_whitespace(c: char) -> (found: bool)
    ensures
        found == whitespace(c),
{
    ('\u{9}' <= c && c <= '\u{D}') || c == ' ' || c == '\u{85}' || c == '\u{A0}' || c
        == '\u{1680}' || ('\u{2000}' <= c && c <= '\u{200A}') || c == '\u{2028}' || c
        == '\u{2029}' || c == '\u{202F}' || c == '\u{205F}' || c == '\u{3000}'
}

/// Tests whether `text` holds nothing but whitespace.
pub fn is_blank(text: &str) -> (found: bool)
    ensures
        found == blank(text@),
{
    let chars = chars_of(text);
    for k in 0..chars.len()
        invariant
            chars@ == text@,
            forall|j: int| 0 <= j < k ==> whitespace(#[trigger] text@[j]),
    {
        if !is_whitespace(chars[k]) {
            assert(!whitespace(text@[k as int]));
            return false;
        }
    }
    true
}

/// Appends the decimal numeral of `n`.
pub fn push_decimal(out: &mut String, n: u64)
    ensures
        final(out)@ == old(out)@ + decimal(n as nat),
    decreases n,
{
    if n >= 10 {
        push_decimal(out, n / 10);
    }
    let d: u64 = n % 10;
    let text: &str = if d == 0 {
        "0"
    } else if d == 1 {
        "1"
    } else if d == 2 {
        "2"
    } else if d == 3 {
        "3"
    } else if d == 4 {
        "4"
    } else if d == 5 {
        "5"
    } else if d == 6 {
        "6"
    } else if d == 7 {
        "7"
    } else if d == 8 {
        "8"
    } else {
        "9"
    };
    proof {
        reveal_strlit("0");
        reveal_strlit("1");
        reveal_strlit("2");
        reveal_strlit("3");
        reveal_strlit("4");
        reveal_strlit("5");
        reveal_strlit("6");
        reveal_strlit("7");
        reveal_strlit("8");
        reveal_strlit("9");
        assert(text@ =~= seq![digit(d as nat)]);
    }
    out.append(text);
    proof {
        if n < 10 {
            assert(decimal(n as nat) == seq![digit(n as nat)]);
        } else {
            assert(decimal(n as nat) == decimal((n / 10) as nat).push(digit(d as nat)));
        }
        assert(out@ =~= old(out)@ + decimal(n as nat));
    }
}

/// A numeral reads back as its number, and holds digits only.
pub proof fn lemma_decimal_round_trip(n: nat)
    ensures
        decimal_value(decimal(n)) == Some(n),
        decimal(n).len() > 0,
        forall|k: int| 0 <= k < decimal(n).len() ==> '0' <= #[trigger] decimal(n)[k] <= '9',
    decreases n,
{
    if n >= 10 {
        lemma_decimal_round_trip(n / 10);
        assert(decimal(n).drop_last() =~= decimal(n / 10));
        assert(decimal(n).last() == digit(n % 10));
        assert(digit_value(digit(n % 10)) == Some(n % 10));
        assert forall|k: int| 0 <= k < decimal(n).len() implies '0' <= #[trigger] decimal(
            n,
        )[k] <= '9' by {
            if k < decimal(n / 10).len() {
                assert(decimal(n)[k] == decimal(n / 10)[k]);
            }
        }
    } else {
        assert(digit_value(digit(n)) == Some(n));
    }
}

/// A prefix of a run of digits is no larger than the whole.
proof fn lemma_decimal_prefix(text: Seq<char>, k: int)
    requires
        0 < k <= text.len(),
        decimal_value(text) is Some,
    ensures
        decimal_value(text.take(k)) is Some,
        decimal_value(text.take(k)).unwrap() <= decimal_value(text).unwrap(),
    decreases text.len(),
{
    if k == text.len() {
        assert(text.take(k) =~= text);
    } else {
        lemma_decimal_prefix(text.drop_last(), k);
        assert(text.drop_last().take(k) =~= text.take(k));
    }
}

/// Reads a run of decimal digits, where it fits in 32 bits.
pub fn parse_decimal(text: &[char]) -> (parsed: Option<u32>)
    ensures
        parsed == match decimal_value(text@) {
            Some(value) if value <= u32::MAX => Some(value as u32),
            _ => None,
        },
{
    if text.len() == 0 {
        return None;
    }
    let mut value: u32 = 0;
    let mut k: usize = 0;
    while k < text.len()
        invariant
            k <= text.len(),
            0 < text.len(),
            k == 0 ==> value == 0,
            k > 0 ==> decimal_value(text@.take(k as int)) == Some(value as nat),
        decreases text.len() - k,
    {
        let c = text[k];
        proof {
            let next = text@.take(k + 1);
            assert(next.drop_last() =~= text@.take(k as int));
            assert(next.last() == c);
            if decimal_value(text@) is Some {
                lemma_decimal_prefix(text@, k + 1);
            }
        }
        if !('0' <= c && c <= '9') {
            return None;
        }
        let units: u32 = c as u32 - '0' as u32;
        if value > (u32::MAX - units) / 10 {
            return None;
        }
        value = 10 * value + units;
        k += 1;
    }
    assert(text@.take(k as int) =~= text@);
    Some(value)
}

/// The decimal forms of `numbers`.
pub open spec fn decimals(numbers: Seq<u32>) -> Seq<Seq<char>> {
    Seq::new(numbers.len(), |i: int| decimal(numbers[i] as nat))
}

/// The numbers in square brackets, with a comma and a space between them.
pub open spec fn list_of(numbers: Seq<u32>) -> Seq<char> {
    "["@ + joined(decimals(numbers), ", "@) + "]"@
}

/// Appends [`list_of`] the numbers.
pub fn push_list(out: &mut String, numbers: &[u32])
    ensures
        final(out)@ == old(out)@ + list_of(numbers@),
{
    out.append("[");
    let ghost start = out@;
    let mut i: usize = 0;
    proof {
        assert(decimals(numbers@).take(0) =~= seq![]);
    }
    while i < numbers.len()
        invariant
            i <= numbers.len(),
            start == old(out)@ + "["@,
            out@ =~= start + joined(decimals(numbers@).take(i as int), ", "@),
        decreases numbers.len() - i,
    {
        let ghost parts = decimals(numbers@).take(i + 1);
        if i > 0 {
            out.append(", ");
        }
        push_decimal(out, numbers[i] as u64);
        proof {
            assert(parts.drop_last() =~= decimals(numbers@).take(i as int));
            assert(parts.last() == decimal(numbers@[i as int] as nat));
            if i == 0 {
                assert(parts =~= seq![parts.last()]);
            }
        }
        i += 1;
    }
    proof {
        assert(decimals(numbers@).take(i as int) =~= decimals(numbers@));
    }
    out.append("]");
}

/// The decimal form of a signed number.
pub open spec fn signed_decimal(n: int) -> Seq<char> {
    if n < 0 {
        seq!['-'] + decimal((-n) as nat)
    } else {
        decimal(n as nat)
    }
}

/// Appends the decimal form of `n`.
pub fn push_signed(out: &mut String, n: i32)
    ensures
        final(out)@ == old(out)@ + signed_decimal(n as int),
{
    if n < 0 {
        let magnitude: u64 = (-(n as i64)) as u64;
        out.push('-');
        push_decimal(out, magnitude);
        proof {
            assert(out@ =~= old(out)@ + signed_decimal(n as int));
        }
    } else {
        push_decimal(out, n as u64);
    }
}

/// The number that an optional sign and decimal digits spell, where it fits in
/// 32 bits.
pub open spec fn signed_value(text: Seq<char>) -> Option<i32> {
    if text.len() > 0 && text[0] == '-' {
        match decimal_value(text.drop_first()) {
            Some(value) if value <= 0x8000_0000 => Some((-value) as i32),
            _ => None,
        }
    } else {
        let digits = if text.len() > 0 && text[0] == '+' {
            text.drop_first()
        } else {
            text
        };
        match decimal_value(digits) {
            Some(value) if value <= i32::MAX => Some(value as i32),
            _ => None,
        }
    }
}

/// Reads an optional sign and decimal digits.
pub fn parse_signed(text: &[char]) -> (parsed: Option<i32>)
    ensures
        parsed == signed_value(text@),
{
    if text.len() > 0 && text[0] == '-' {
        let digits = slice_subrange(text, 1, text.len());
        proof {
            assert(digits@ =~= text@.drop_first());
        }
        match parse_decimal(digits) {
            Some(value) => if value <= 0x8000_0000 {
                Some((-(value as i64)) as i32)
            } else {
                None
            },
            None => None,
        }
    } else {
        let start: usize = if text.len() > 0 && text[0] == '+' {
            1
        } else {
            0
        };
        let digits = slice_subrange(text, start, text.len());
        proof {
            if start == 1 {
                assert(digits@ =~= text@.drop_first());
            } else {
                assert(digits@ =~= text@);
            }
        }
        match parse_decimal(digits) {
            Some(value) => if value <= 0x7fff_ffff {
                Some(value as i32)
            } else {
                None
            },
            None => None,
        }
    }
}

/// The decimal form of a signed number is read back as the number, and holds
/// digits and a minus sign only.
pub proof fn lemma_signed_round_trip(n: i32)
    ensures
        signed_value(signed_decimal(n as int)) == Some(n),
        signed_decimal(n as int).len() > 0,
        forall|k: int|
            0 <= k < signed_decimal(n as int).len() ==> #[trigger] signed_decimal(n as int)[k]
                != ',',
{
    let text = signed_decimal(n as int);
    if n < 0 {
        let digits = decimal((-(n as int)) as nat);
        lemma_decimal_round_trip((-(n as int)) as nat);
        assert(text.drop_first() =~= digits);
        assert forall|k: int| 0 <= k < text.len() implies #[trigger] text[k] != ',' by {
            if k > 0 {
                assert(text[k] == digits[k - 1]);
            }
        }
    } else {
        lemma_decimal_round_trip(n as nat);
        assert('0' <= text[0] <= '9');
    }
}

/// The pieces of `text` between the marks.
pub open spec fn pieces(text: Seq<char>, mark: char) -> Seq<Seq<char>>
    decreases text.len(),
{
    if text.len() == 0 {
        seq![seq![]]
    } else {
        let front = pieces(text.drop_last(), mark);
        if text.last() == mark {
            front.push(seq![])
        } else {
            front.drop_last().push(front.last().push(text.last()))
        }
    }
}

/// There is always a piece, and more characters without a mark go to the last.
pub proof fn lemma_pieces_grow(text: Seq<char>, more: Seq<char>, mark: char)
    requires
        forall|k: int| 0 <= k < more.len() ==> #[trigger] more[k] != mark,
    ensures
        pieces(text, mark).len() > 0,
        pieces(text + more, mark) == pieces(text, mark).drop_last().push(
            pieces(text, mark).last() + more,
        ),
    decreases more.len(), text.len(),
{
    if more.len() == 0 {
        if text.len() > 0 {
            lemma_pieces_grow(text.drop_last(), seq![], mark);
        }
        assert(text + more =~= text);
        let whole = pieces(text, mark);
        assert(whole.last() + more =~= whole.last());
        assert(whole.drop_last().push(whole.last()) =~= whole);
    } else {
        let front = more.drop_last();
        assert forall|k: int| 0 <= k < front.len() implies #[trigger] front[k] != mark by {
            assert(front[k] == more[k]);
        }
        lemma_pieces_grow(text, front, mark);
        assert((text + more).drop_last() =~= text + front);
        assert((text + more).last() == more.last());
        assert(more.last() == more[more.len() - 1]);
        let whole = pieces(text, mark);
        let grown = pieces(text + front, mark);
        assert(grown.drop_last() =~= whole.drop_last());
        assert((whole.last() + front).push(more.last()) =~= whole.last() + more);
    }
}

/// Parts without the mark that are joined by the mark are its pieces.
pub proof fn lemma_pieces_of_joined(parts: Seq<Seq<char>>, mark: char)
    requires
        parts.len() > 0,
        forall|i: int, k: int|
            0 <= i < parts.len() && 0 <= k < parts[i].len() ==> #[trigger] parts[i][k] != mark,
    ensures
        pieces(joined(parts, seq![mark]), mark) == parts,
    decreases parts.len(),
{
    let last = parts.last();
    assert forall|k: int| 0 <= k < last.len() implies #[trigger] last[k] != mark by {
        assert(parts[parts.len() - 1][k] != mark);
    }
    if parts.len() == 1 {
        let empty = Seq::<char>::empty();
        lemma_pieces_grow(empty, last, mark);
        assert(empty + last =~= last);
        assert(pieces(last, mark) =~= parts);
    } else {
        let front = parts.drop_last();
        assert forall|i: int, k: int|
            0 <= i < front.len() && 0 <= k < front[i].len() implies #[trigger] front[i][k]
            != mark by {
            assert(parts[i][k] != mark);
        }
        lemma_pieces_of_joined(front, mark);
        let text = joined(front, seq![mark]) + seq![mark];
        assert(text.drop_last() =~= joined(front, seq![mark]));
        lemma_pieces_grow(text, last, mark);
        assert(pieces(text, mark) =~= front.push(seq![]));
        assert(Seq::<char>::empty() + last =~= last);
        assert(pieces(text + last, mark) =~= parts);
    }
}

/// A pattern occurs in a text exactly if the text is something, the pattern and
/// something else; it begins the text if nothing is in front of it, and ends it
/// if nothing is behind it.
#[verifier::rlimit(50)]
pub proof fn occurrences_split_the_text(text: Seq<char>, pattern: Seq<char>)
    ensures
        occurs(text, pattern) <==> exists|front: Seq<char>, back: Seq<char>|
            text == #[trigger] (front + pattern + back),
        begins_with(text, pattern) <==> exists|back: Seq<char>| text == #[trigger] (pattern + back),
        finishes_with(text, pattern) <==> exists|front: Seq<char>|
            text == #[trigger] (front + pattern),
{
    let n = pattern.len() as int;
    if occurs(text, pattern) {
        let at = choose|at: int| #[trigger] occurs_at(text, at, pattern);
        assert(text =~= text.take(at) + text.subrange(at, at + n) + text.skip(at + n));
        assert(text == text.take(at) + pattern + text.skip(at + n));
    }
    assert forall|front: Seq<char>, back: Seq<char>|
        text == #[trigger] (front + pattern + back) implies occurs(text, pattern) by {
        assert(text.subrange(front.len() as int, front.len() + n) =~= pattern);
        assert(occurs_at(text, front.len() as int, pattern));
    }
    if begins_with(text, pattern) {
        assert(text =~= text.subrange(0, n) + text.skip(n));
        assert(text == pattern + text.skip(n));
    }
    assert forall|back: Seq<char>| text == #[trigger] (pattern + back) implies begins_with(
        text,
        pattern,
    ) by {
        assert(text.subrange(0, n) =~= pattern);
    }
    if finishes_with(text, pattern) {
        let at = text.len() - n;
        assert(text =~= text.take(at) + text.subrange(at, at + n));
        assert(text == text.take(at) + pattern);
    }
    assert forall|front: Seq<char>| text == #[trigger] (front + pattern) implies finishes_with(
        text,
        pattern,
    ) by {
        assert(text.subrange(text.len() - n, text.len() - n + n) =~= pattern);
    }
}

/// A text without `;` is one statement, and `;` separates the statements in
/// front of it from those behind it.
#[verifier::rlimit(50)]
pub proof fn semicolons_separate_statements(
    front: Seq<char>,
    back: Seq<char>,
    pred: spec_fn(Seq<char>) -> bool,
)
    ensures
        !front.contains(';') ==> (any_statement(front, pred) <==> pred(front)),
        any_statement(front + seq![';'] + back, pred) <==> any_statement(front, pred)
            || any_statement(back, pred),
{
    if !front.contains(';') {
        assert(front.subrange(0, front.len() as int) =~= front);
        assert forall|k: int| 0 <= k < front.len() implies #[trigger] front[k] != ';' by {
            assert(front.contains(front[k]));
        }
        assert(statement_at(front, 0, front.len() as int));
        if any_statement(front, pred) {
            let (from, to) = choose|from: int, to: int| #[trigger]
                statement_at(front, from, to) && pred(front.subrange(from, to));
            assert(from == 0);
            assert(to == front.len());
        }
    }
    let both = front + seq![';'] + back;
    let cut = front.len() as int;
    if any_statement(front, pred) {
        let (from, to) = choose|from: int, to: int| #[trigger]
            statement_at(front, from, to) && pred(front.subrange(from, to));
        assert(both.subrange(from, to) =~= front.subrange(from, to));
        assert(statement_at(both, from, to)) by {
            assert(from > 0 ==> both[from - 1] == front[from - 1]);
            assert(to < cut ==> both[to] == front[to]);
        }
    }
    if any_statement(back, pred) {
        let (from, to) = choose|from: int, to: int| #[trigger]
            statement_at(back, from, to) && pred(back.subrange(from, to));
        let by = cut + 1;
        assert(both.subrange(by + from, by + to) =~= back.subrange(from, to));
        assert(statement_at(both, by + from, by + to)) by {
            assert(from > 0 ==> both[by + from - 1] == back[from - 1]);
            assert(to < back.len() ==> both[by + to] == back[to]);
            assert forall|k: int| by + from <= k < by + to implies #[trigger] both[k] != ';' by {
                assert(both[k] == back[k - by]);
            }
        }
    }
    if any_statement(both, pred) {
        let (from, to) = choose|from: int, to: int| #[trigger]
            statement_at(both, from, to) && pred(both.subrange(from, to));
        assert(both[cut] == ';');
        if to <= cut {
            assert(both.subrange(from, to) =~= front.subrange(from, to));
            assert(statement_at(front, from, to)) by {
                assert(from > 0 ==> both[from - 1] == front[from - 1]);
                assert(to < cut ==> both[to] == front[to]);
                assert forall|k: int| from <= k < to implies #[trigger] front[k] != ';' by {
                    assert(both[k] == front[k]);
                }
            }
        } else {
            let by = cut + 1;
            assert(from > cut);
            assert(both.subrange(from, to) =~= back.subrange(from - by, to - by));
            assert(statement_at(back, from - by, to - by)) by {
                assert(from > by ==> both[from - 1] == back[from - 1 - by]);
                assert(to < both.len() ==> both[to] == back[to - by]);
                assert forall|k: int| from - by <= k < to - by implies #[trigger] back[k]
                    != ';' by {
                    assert(both[k + by] == back[k]);
                }
            }
        }
    }
}

/// A text without line feeds is one line, but for the empty text, which has
/// none. A line feed ends the line in front of it, together with a carriage
/// return that stands before it, and what is behind it are further lines.
pub proof fn line_feeds_end_lines(
    line: Seq<char>,
    rest: Seq<char>,
    pred: spec_fn(Seq<char>) -> bool,
)
    requires
        !line.contains('\n'),
    ensures
        !any_line(Seq::<char>::empty(), pred),
        line.len() > 0 ==> (any_line(line, pred) <==> pred(line)),
        line.len() == 0 || line.last() != '\r' ==> (any_line(line + seq!['\n'] + rest, pred)
            <==> pred(line) || any_line(rest, pred)),
        any_line(line + seq!['\r', '\n'] + rest, pred) <==> pred(line) || any_line(rest, pred),
{
    assert forall|k: int| 0 <= k < line.len() implies #[trigger] line[k] != '\n' by {
        assert(line.contains(line[k]));
    }
    assert(line.subrange(0, line.len() as int) =~= line);
    if line.len() > 0 {
        assert(line_at(line, 0, line.len() as int));
        if any_line(line, pred) {
            let (from, to) = choose|from: int, to: int| #[trigger]
                line_at(line, from, to) && pred(line.subrange(from, to));
            assert(from == 0);
            assert(to == line.len());
        }
    }
    if line.len() == 0 || line.last() != '\r' {
        lemma_first_line(line, seq!['\n'], rest, pred);
    }
    lemma_first_line(line, seq!['\r', '\n'], rest, pred);
}

/// The first line of a text, given how it ends, and the lines behind it.
#[verifier::rlimit(50)]
proof fn lemma_first_line(
    line: Seq<char>,
    end: Seq<char>,
    rest: Seq<char>,
    pred: spec_fn(Seq<char>) -> bool,
)
    requires
        forall|k: int| 0 <= k < line.len() ==> #[trigger] line[k] != '\n',
        end == seq!['\r', '\n'] || (end == seq!['\n'] && (line.len() == 0 || line.last()
            != '\r')),
    ensures
        any_line(line + end + rest, pred) <==> pred(line) || any_line(rest, pred),
{
    let text = line + end + rest;
    let n = line.len() as int;
    let by = n + end.len();
    assert(text[by - 1] == '\n');
    assert forall|k: int| 0 <= k < by - 1 implies #[trigger] text[k] != '\n' by {
        if k < n {
            assert(text[k] == line[k]);
        }
    }
    assert(text.subrange(0, n) =~= line);
    assert(line_at(text, 0, n)) by {
        if end.len() == 1 && n > 0 {
            assert(text[n - 1] == line.last());
        }
    }
    if any_line(rest, pred) {
        let (from, to) = choose|from: int, to: int| #[trigger]
            line_at(rest, from, to) && pred(rest.subrange(from, to));
        assert(text.subrange(by + from, by + to) =~= rest.subrange(from, to));
        assert(line_at(text, by + from, by + to)) by {
            assert(from > 0 ==> text[by + from - 1] == rest[from - 1]);
            assert(to < rest.len() ==> text[by + to] == rest[to]);
            assert(to + 1 < rest.len() ==> text[by + to + 1] == rest[to + 1]);
            assert(from < to ==> text[by + to - 1] == rest[to - 1]);
            assert forall|k: int| by + from <= k < by + to implies #[trigger] text[k] != '\n' by {
                assert(text[k] == rest[k - by]);
            }
        }
    }
    if any_line(text, pred) {
        let (from, to) = choose|from: int, to: int| #[trigger]
            line_at(text, from, to) && pred(text.subrange(from, to));
        if from < by {
            assert(from == 0);
            assert(to < by);
            assert(to == n) by {
                if end.len() == 2 {
                    assert(text[n] == '\r' && text[n + 1] == '\n');
                    if to == n + 1 {
                        assert(text[to - 1] == '\r');
                    }
                    if to < n {
                        assert(text[to + 1] != '\n');
                    }
                } else {
                    if to < n {
                        assert(text[to] != '\n');
                        if to + 1 == n {
                            assert(text[to] == line.last());
                        } else {
                            assert(text[to + 1] != '\n');
                        }
                    }
                }
            }
        } else {
            assert(text.subrange(from, to) =~= rest.subrange(from - by, to - by));
            assert(line_at(rest, from - by, to - by)) by {
                assert(from > by ==> text[from - 1] == rest[from - 1 - by]);
                assert(to < text.len() ==> text[to] == rest[to - by]);
                assert(to + 1 < text.len() ==> text[to + 1] == rest[to + 1 - by]);
                assert(from < to ==> text[to - 1] == rest[to - 1 - by]);
                assert forall|k: int| from - by <= k < to - by implies #[trigger] rest[k]
                    != '\n' by {
                    assert(text[k + by] == rest[k]);
                }
            }
        }
    }
}

/// The whitespace characters by their code points: the control characters from
/// tab to carriage return, the space, and the spaces and separators beyond
/// ASCII.
pub proof fn whitespace_by_code_point(c: char)
    ensures
        whitespace(c) <==> {
            let point = c as u32;
            ||| 9 <= point <= 13
            ||| point == 32
            ||| point == 133
            ||| point == 160
            ||| point == 5760
            ||| 8192 <= point <= 8202
            ||| point == 8232 || point == 8233
            ||| point == 8239
            ||| point == 8287
            ||| point == 12288
        },
{
}

/// A text is blank exactly if each of its parts is; the empty text is blank.
pub proof fn blank_texts_have_blank_parts(front: Seq<char>, back: Seq<char>, c: char)
    ensures
        blank(Seq::<char>::empty()),
        blank(seq![c]) <==> whitespace(c),
        blank(front + back) <==> blank(front) && blank(back),
{
    assert(seq![c][0] == c);
    if blank(front + back) {
        assert forall|k: int| 0 <= k < front.len() implies whitespace(#[trigger] front[k]) by {
            assert((front + back)[k] == front[k]);
        }
        assert forall|k: int| 0 <= k < back.len() implies whitespace(#[trigger] back[k]) by {
            assert((front + back)[front.len() + k] == back[k]);
        }
    }
}

/// A digit more makes a number ten times as large and adds its own value, which
/// is how far its code point is from that of zero. Nothing but digits spells a
/// number.
pub proof fn digits_count_in_tens(text: Seq<char>, c: char)
    ensures
        decimal_value(Seq::<char>::empty()) is None,
        decimal_value(seq![c]) == (if 48 <= c as u32 <= 57 {
            Some((c as u32 - 48) as nat)
        } else {
            None
        }),
        text.len() > 0 ==> decimal_value(text.push(c)) == (if decimal_value(text) is Some && 48
            <= c as u32 <= 57 {
            Some((10 * decimal_value(text)->Some_0 + (c as u32 - 48)) as nat)
        } else {
            None
        }),
{
    assert(text.push(c).drop_last() =~= text);
    assert(text.push(c).last() == c);
    assert(seq![c].last() == c);
}

/// A numeral has no leading zero but for zero itself.
pub proof fn numerals_have_no_leading_zeros(n: nat)
    ensures
        n > 0 ==> decimal(n)[0] != '0',
        n == 0 ==> decimal(n) == seq!['0'],
    decreases n,
{
    if n >= 10 {
        numerals_have_no_leading_zeros(n / 10);
        lemma_decimal_round_trip(n / 10);
        assert(decimal(n)[0] == decimal(n / 10)[0]);
    }
}

/// A sign in front of digits: a plus sign changes nothing, a minus sign gives the
/// opposite number, and a second sign is none. What 32 bits do not hold is no
/// number.
pub proof fn signs_stand_in_front_of_digits(digits: Seq<char>)
    requires
        digits.len() > 0,
        '0' <= digits[0] <= '9',
    ensures
        signed_value(seq!['+'] + digits) == signed_value(digits),
        signed_value(digits) matches Some(value) ==> value >= 0 && signed_value(
            seq!['-'] + digits,
        ) == Some((-value) as i32),
        signed_value(digits) matches Some(value) ==> decimal_value(digits) == Some(value as nat),
        signed_value(digits) is Some <==> decimal_value(digits) is Some && decimal_value(
            digits,
        )->Some_0 < 0x8000_0000,
        signed_value(seq!['-'] + digits) is Some <==> decimal_value(digits) is Some
            && decimal_value(digits)->Some_0 <= 0x8000_0000,
        signed_value(seq!['-'] + (seq!['-'] + digits)) is None,
        signed_value(seq!['+'] + (seq!['+'] + digits)) is None,
        signed_value(seq!['-'] + (seq!['+'] + digits)) is None,
{
    let plus = seq!['+'] + digits;
    let minus = seq!['-'] + digits;
    assert(plus.drop_first() =~= digits);
    assert(minus.drop_first() =~= digits);
    assert((seq!['-'] + minus).drop_first() =~= minus);
    assert((seq!['+'] + plus).drop_first() =~= plus);
    assert((seq!['-'] + plus).drop_first() =~= plus);
    lemma_digits_only(plus, 0);
    lemma_digits_only(minus, 0);
}

/// What spells a number holds digits only.
proof fn lemma_digits_only(text: Seq<char>, k: int)
    requires
        0 <= k < text.len(),
    ensures
        decimal_value(text) is Some ==> '0' <= text[k] <= '9',
    decreases text.len(),
{
    if k + 1 < text.len() {
        lemma_digits_only(text.drop_last(), k);
        assert(text.drop_last()[k] == text[k]);
    }
}

} // verus!

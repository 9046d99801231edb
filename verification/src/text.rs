//! Text building blocks: concatenation, decimal digits, trimming, first lines, joins and order.

use vstd::prelude::*;

verus! {

/// Whether two texts hold the same characters.
pub fn same_text(a: &str, b: &str) -> (r: bool)
    ensures
        r == (a@ == b@),
{
    a.to_string() == b.to_string()
}

/// The characters of a text, in order.
pub fn characters(s: &str) -> (r: Vec<char>)
    ensures
        r@ == s@,
{
    let mut out: Vec<char> = Vec::new();
    for c in it: s.chars()
        invariant
            out@ == it.seq().take(it.index() as int),
            it.seq() == s@,
    {
        out.push(c);
    }
    out
}

/// The two texts, one after the other.
pub fn cat2(a: &str, b: &str) -> (r: String)
    ensures
        r@ == a@ + b@,
{
    let mut out = a.to_string();
    out.append(b);
    out
}

/// The three texts, one after the other.
pub fn cat3(a: &str, b: &str, c: &str) -> (r: String)
    ensures
        r@ == a@ + b@ + c@,
{
    let mut out = cat2(a, b);
    out.append(c);
    out
}

/// The five texts, one after the other.
pub fn cat5(a: &str, b: &str, c: &str, d: &str, e: &str) -> (r: String)
    ensures
        r@ == a@ + b@ + c@ + d@ + e@,
{
    let mut out = cat3(a, b, c);
    out.append(d);
    out.append(e);
    out
}

/// The seven texts, one after the other.
pub fn cat7(a: &str, b: &str, c: &str, d: &str, e: &str, f: &str, g: &str) -> (r: String)
    ensures
        r@ == a@ + b@ + c@ + d@ + e@ + f@ + g@,
{
    let mut out = cat5(a, b, c, d, e);
    out.append(f);
    out.append(g);
    out
}

/// A copy of an optional text.
pub fn copy_optional(value: &Option<String>) -> (r: Option<String>)
    ensures
        r == *value,
{
    match value {
        Some(text) => Some(text.clone()),
        None => None,
    }
}

/// The characters of each text of a list.
pub open spec fn views(texts: Seq<String>) -> Seq<Seq<char>> {
    Seq::new(texts.len(), |i: int| texts[i]@)
}

// ---------------------------------------------------------------------------
// Order
// ---------------------------------------------------------------------------
/// Lexicographic order of characters by code point, which is also the byte order of UTF-8.
pub open spec fn before(a: Seq<char>, b: Seq<char>) -> bool
    decreases a.len(),
{
    if b.len() == 0 {
        false
    } else if a.len() == 0 {
        true
    } else if a[0] != b[0] {
        a[0] < b[0]
    } else {
        before(a.drop_first(), b.drop_first())
    }
}

/// Whether `a` comes strictly before `b`.
pub fn text_before(a: &str, b: &str) -> (r: bool)
    ensures
        r == before(a@, b@),
{
    let left = characters(a);
    let right = characters(b);
    let mut i: usize = 0;
    assert(left@.skip(0) == left@);
    assert(right@.skip(0) == right@);
    while i < left.len() && i < right.len()
        invariant
            left@ == a@,
            right@ == b@,
            i <= left.len(),
            i <= right.len(),
            before(left@.skip(i as int), right@.skip(i as int)) == before(a@, b@),
        decreases left.len() - i,
    {
        assert(left@.skip(i as int).drop_first() == left@.skip(i + 1));
        assert(right@.skip(i as int).drop_first() == right@.skip(i + 1));
        if left[i] != right[i] {
            return left[i] < right[i];
        }
        i += 1;
    }
    i < right.len()
}

/// No text comes before itself.
pub proof fn lemma_before_irreflexive(a: Seq<char>)
    ensures
        !before(a, a),
    decreases a.len(),
{
    if a.len() > 0 {
        lemma_before_irreflexive(a.drop_first());
    }
}

/// The order is transitive.
pub proof fn lemma_before_transitive(a: Seq<char>, b: Seq<char>, c: Seq<char>)
    requires
        before(a, b),
        before(b, c),
    ensures
        before(a, c),
    decreases a.len(),
{
    if a.len() > 0 && a[0] == b[0] && b[0] == c[0] {
        lemma_before_transitive(a.drop_first(), b.drop_first(), c.drop_first());
    }
}

/// Of two texts, one comes before the other unless they are the same.
pub proof fn lemma_before_total(a: Seq<char>, b: Seq<char>)
    ensures
        before(a, b) || before(b, a) || a == b,
    decreases a.len(),
{
    if a.len() == 0 || b.len() == 0 {
        if a.len() == b.len() {
            assert(a == b);
        }
    } else if a[0] == b[0] {
        lemma_before_total(a.drop_first(), b.drop_first());
        if a.drop_first() == b.drop_first() {
            assert(a == seq![a[0]] + a.drop_first());
            assert(b == seq![b[0]] + b.drop_first());
        }
    }
}

// ---------------------------------------------------------------------------
// Decimal numbers
// ---------------------------------------------------------------------------
/// The decimal digit for a number below ten.
pub open spec fn digit(n: nat) -> char {
    if n == 0 {
        '0'
    } else if n == 1 {
        '1'
    } else if n == 2 {
        '2'
    } else if n == 3 {
        '3'
    } else if n == 4 {
        '4'
    } else if n == 5 {
        '5'
    } else if n == 6 {
        '6'
    } else if n == 7 {
        '7'
    } else if n == 8 {
        '8'
    } else {
        '9'
    }
}

/// The decimal numeral of a natural number, without leading zeros.
pub open spec fn numeral(n: nat) -> Seq<char>
    decreases n,
{
    if n < 10 {
        seq![digit(n)]
    } else {
        numeral(n / 10).push(digit(n % 10))
    }
}

/// The text of one digit.
fn digit_text(n: u64) -> (r: &'static str)
    requires
        n < 10,
    ensures
        r@ == seq![digit(n as nat)],
{
    proof {
        reveal_strlit("0");
        reveal_strlit("1");
        reveal_strlit("2");
        reveal_strlit("3");
        reveal_strlit("4");
        reveal_strlit("5");
        reveal_strlit("6");
        reveal_strlit("7");
        reveal_strlit("8");
        reveal_strlit("9");
    }
    match n {
        0 => "0",
        1 => "1",
        2 => "2",
        3 => "3",
        4 => "4",
        5 => "5",
        6 => "6",
        7 => "7",
        8 => "8",
        _ => "9",
    }
}

/// The decimal numeral of a number.
pub fn decimal(n: u64) -> (r: String)
    ensures
        r@ == numeral(n as nat),
    decreases n,
{
    if n < 10 {
        digit_text(n).to_string()
    } else {
        let mut out = decimal(n / 10);
        out.append(digit_text(n % 10));
        assert(out@ == numeral(n as nat / 10).push(digit(n as nat % 10)));
        out
    }
}

/// `true` or `false`.
pub open spec fn truth_text(value: bool) -> Seq<char> {
    if value {
        "true"@
    } else {
        "false"@
    }
}

/// The word for a truth value.
pub fn truth(value: bool) -> (r: &'static str)
    ensures
        r@ == truth_text(value),
{
    if value {
        "true"
    } else {
        "false"
    }
}

// ---------------------------------------------------------------------------
// Trimming
// ---------------------------------------------------------------------------
/// The characters with the Unicode property `White_Space`.
pub open spec fn is_white_space(c: char) -> bool {
    ||| '\u{9}' <= c <= '\u{d}'
    ||| c == '\u{20}'
    ||| c == '\u{85}'
    ||| c == '\u{a0}'
    ||| c == '\u{1680}'
    ||| '\u{2000}' <= c <= '\u{200a}'
    ||| c == '\u{2028}'
    ||| c == '\u{2029}'
    ||| c == '\u{202f}'
    ||| c == '\u{205f}'
    ||| c == '\u{3000}'
}

/// `char::is_whitespace` tells whether a character has the Unicode property `White_Space`.
pub assume_specification[ char::is_whitespace ](c: char) -> (r: bool)
    ensures
        r == is_white_space(c),
;

/// A text without its leading white space.
pub open spec fn trimmed_front(s: Seq<char>) -> Seq<char>
    decreases s.len(),
{
    if s.len() > 0 && is_white_space(s[0]) {
        trimmed_front(s.drop_first())
    } else {
        s
    }
}

/// A text without its trailing white space.
pub open spec fn trimmed_back(s: Seq<char>) -> Seq<char>
    decreases s.len(),
{
    if s.len() > 0 && is_white_space(s.last()) {
        trimmed_back(s.drop_last())
    } else {
        s
    }
}

/// A text without leading and trailing white space.
pub open spec fn trimmed(s: Seq<char>) -> Seq<char> {
    trimmed_back(trimmed_front(s))
}

/// A text without leading and trailing white space.
pub fn trim(s: &str) -> (r: String)
    ensures
        r@ == trimmed(s@),
{
    let chars = characters(s);
    let mut from: usize = 0;
    assert(chars@.skip(0) == chars@);
    while from < chars.len() && chars[from].is_whitespace()
        invariant
            chars@ == s@,
            from <= chars.len(),
            trimmed_front(chars@.skip(from as int)) == trimmed_front(s@),
        decreases chars.len() - from,
    {
        assert(chars@.skip(from as int).drop_first() == chars@.skip(from + 1));
        from += 1;
    }
    let mut to: usize = chars.len();
    assert(chars@.subrange(from as int, to as int) == chars@.skip(from as int));
    while from < to && chars[to - 1].is_whitespace()
        invariant
            chars@ == s@,
            from <= to <= chars.len(),
            trimmed_back(chars@.subrange(from as int, to as int)) == trimmed(s@),
        decreases to,
    {
        assert(chars@.subrange(from as int, to as int).drop_last() == chars@.subrange(
            from as int,
            to - 1,
        ));
        to -= 1;
    }
    s.substring_char(from, to).to_string()
}

/// A trimmed text is empty, or begins and ends with a character that is not white space.
pub proof fn law_trimmed_edges(s: Seq<char>)
    ensures
        trimmed(s).len() > 0 ==> !is_white_space(trimmed(s)[0]) && !is_white_space(
            trimmed(s).last(),
        ),
{
    lemma_trimmed_front_edge(s);
    lemma_trimmed_back_edge(trimmed_front(s));
}

proof fn lemma_trimmed_front_edge(s: Seq<char>)
    ensures
        trimmed_front(s).len() > 0 ==> !is_white_space(trimmed_front(s)[0]),
    decreases s.len(),
{
    if s.len() > 0 && is_white_space(s[0]) {
        lemma_trimmed_front_edge(s.drop_first());
    }
}

proof fn lemma_trimmed_back_edge(s: Seq<char>)
    ensures
        trimmed_back(s).len() <= s.len(),
        trimmed_back(s).len() > 0 ==> !is_white_space(trimmed_back(s).last()) && trimmed_back(s)[0]
            == s[0],
    decreases s.len(),
{
    if s.len() > 0 && is_white_space(s.last()) {
        lemma_trimmed_back_edge(s.drop_last());
    }
}

// ---------------------------------------------------------------------------
// Lines and joins
// ---------------------------------------------------------------------------
/// The number of characters before the first line feed, or all of them.
pub open spec fn line_end(s: Seq<char>) -> nat
    decreases s.len(),
{
    if s.len() == 0 || s[0] == '\n' {
        0
    } else {
        1 + line_end(s.drop_first())
    }
}

/// The first line of a text: none of an empty text; a carriage return directly before the line
/// feed belongs to the line ending.
pub open spec fn first_line_of(s: Seq<char>) -> Option<Seq<char>> {
    let end = line_end(s) as int;
    if s.len() == 0 {
        None
    } else if 0 < end < s.len() && s[end - 1] == '\r' {
        Some(s.take(end - 1))
    } else {
        Some(s.take(end))
    }
}

/// The first line of a text, if it has one.
pub fn first_line(s: &str) -> (r: Option<String>)
    ensures
        match r {
            Some(line) => first_line_of(s@) == Some(line@),
            None => first_line_of(s@) is None,
        },
{
    let chars = characters(s);
    if chars.len() == 0 {
        return None;
    }
    let mut end: usize = 0;
    assert(chars@.skip(0) == chars@);
    while end < chars.len() && chars[end] != '\n'
        invariant
            chars@ == s@,
            end <= chars.len(),
            line_end(s@) == end + line_end(chars@.skip(end as int)),
        decreases chars.len() - end,
    {
        assert(chars@.skip(end as int).drop_first() == chars@.skip(end + 1));
        end += 1;
    }
    let line = if 0 < end && end < chars.len() && chars[end - 1] == '\r' {
        s.substring_char(0, end - 1)
    } else {
        s.substring_char(0, end)
    };
    assert(line@ == first_line_of(s@)->Some_0);
    Some(line.to_string())
}

/// The texts in order with a separator between neighbours.
pub open spec fn joined(parts: Seq<Seq<char>>, separator: Seq<char>) -> Seq<char>
    decreases parts.len(),
{
    if parts.len() == 0 {
        Seq::empty()
    } else if parts.len() == 1 {
        parts[0]
    } else {
        joined(parts.drop_last(), separator) + separator + parts.last()
    }
}

/// The texts in order with a separator between neighbours.
pub fn join(parts: &Vec<String>, separator: &str) -> (r: String)
    ensures
        r@ == joined(views(parts@), separator@),
{
    let mut out = String::new();
    let mut i: usize = 0;
    while i < parts.len()
        invariant
            i <= parts.len(),
            out@ == joined(views(parts@).take(i as int), separator@),
        decreases parts.len() - i,
    {
        if i > 0 {
            out.append(separator);
        }
        out.append(parts[i].as_str());
        proof {
            let longer = views(parts@).take(i + 1);
            assert(longer.drop_last() == views(parts@).take(i as int));
            assert(longer.last() == parts@[i as int]@);
            if i == 0 {
                assert(out@ == longer[0]);
            }
        }
        i += 1;
    }
    assert(views(parts@).take(i as int) == views(parts@));
    out
}

/// A first line holds no line feed.
pub proof fn law_first_line_is_one_line(s: Seq<char>)
    ensures
        match first_line_of(s) {
            Some(line) => forall|i: int| 0 <= i < line.len() ==> #[trigger] line[i] != '\n',
            None => s.len() == 0,
        },
{
    lemma_line_end(s);
}

proof fn lemma_line_end(s: Seq<char>)
    ensures
        line_end(s) <= s.len(),
        forall|i: int| 0 <= i < line_end(s) ==> #[trigger] s[i] != '\n',
    decreases s.len(),
{
    if s.len() > 0 && s[0] != '\n' {
        lemma_line_end(s.drop_first());
        assert forall|i: int| 0 <= i < line_end(s) implies #[trigger] s[i] != '\n' by {
            if i > 0 {
                assert(s[i] == s.drop_first()[i - 1]);
            }
        }
    }
}

// ---------------------------------------------------------------------------
// Occurrence
// ---------------------------------------------------------------------------
/// Whether a text occurs in another.
pub open spec fn occurs_in(part: Seq<char>, text: Seq<char>) -> bool {
    exists|i: int|
        0 <= i <= text.len() - part.len() && #[trigger] text.subrange(i, i + part.len()) == part
}

/// A text occurs wherever it stands between two others.
pub proof fn lemma_occurs_between(before: Seq<char>, part: Seq<char>, after: Seq<char>)
    ensures
        occurs_in(part, before + part + after),
{
    let text = before + part + after;
    let i = before.len() as int;
    assert(text.subrange(i, i + part.len()) == part);
}

/// A text occurs behind another.
pub proof fn lemma_occurs_at_the_end(before: Seq<char>, part: Seq<char>)
    ensures
        occurs_in(part, before + part),
{
    lemma_occurs_between(before, part, Seq::empty());
    assert(before + part + Seq::<char>::empty() =~= before + part);
}

/// A text that occurs in another occurs in what holds that one between two others.
pub proof fn lemma_occurs_within(
    part: Seq<char>,
    before: Seq<char>,
    text: Seq<char>,
    after: Seq<char>,
)
    requires
        occurs_in(part, text),
    ensures
        occurs_in(part, before + text + after),
{
    let i = choose|i: int|
        0 <= i <= text.len() - part.len() && #[trigger] text.subrange(i, i + part.len()) == part;
    let whole = before + text + after;
    let j = before.len() + i;
    assert(whole.subrange(j, j + part.len()) == text.subrange(i, i + part.len()));
}

// ---------------------------------------------------------------------------
// What the words of this module mean
// ---------------------------------------------------------------------------
/// Trimming takes away white space alone, at the two ends alone, and all of it: what was there is what is
/// left, with white space around it.
pub proof fn law_trimmed_is_the_core(s: Seq<char>) -> (r: (Seq<char>, Seq<char>))
    ensures
        s == r.0 + trimmed(s) + r.1,
        forall|i: int| 0 <= i < r.0.len() ==> is_white_space(#[trigger] r.0[i]),
        forall|i: int| 0 <= i < r.1.len() ==> is_white_space(#[trigger] r.1[i]),
        trimmed(s).len() > 0 ==> !is_white_space(trimmed(s)[0]) && !is_white_space(
            trimmed(s).last(),
        ),
{
    law_trimmed_edges(s);
    let front = lemma_trimmed_front_core(s);
    let back = lemma_trimmed_back_core(trimmed_front(s));
    assert(s == front + trimmed(s) + back);
    (front, back)
}

proof fn lemma_trimmed_front_core(s: Seq<char>) -> (r: Seq<char>)
    ensures
        s == r + trimmed_front(s),
        forall|i: int| 0 <= i < r.len() ==> is_white_space(#[trigger] r[i]),
    decreases s.len(),
{
    if s.len() > 0 && is_white_space(s[0]) {
        let rest = lemma_trimmed_front_core(s.drop_first());
        let r = seq![s[0]] + rest;
        assert(s == seq![s[0]] + s.drop_first());
        assert(s == r + trimmed_front(s));
        r
    } else {
        assert(s == Seq::<char>::empty() + trimmed_front(s));
        Seq::empty()
    }
}

proof fn lemma_trimmed_back_core(s: Seq<char>) -> (r: Seq<char>)
    ensures
        s == trimmed_back(s) + r,
        forall|i: int| 0 <= i < r.len() ==> is_white_space(#[trigger] r[i]),
    decreases s.len(),
{
    if s.len() > 0 && is_white_space(s.last()) {
        let rest = lemma_trimmed_back_core(s.drop_last());
        let r = rest.push(s.last());
        assert(s == s.drop_last().push(s.last()));
        assert(s == trimmed_back(s) + r);
        r
    } else {
        assert(s == trimmed_back(s) + Seq::<char>::empty());
        Seq::empty()
    }
}

/// The first line of a text is all of it up to its first line ending, which is a line feed or a carriage
/// return with a line feed; without one it is the whole text.
pub proof fn law_first_line_ends_at_the_first_ending(s: Seq<char>)
    requires
        s.len() > 0,
    ensures
        first_line_of(s) is Some,
        ({
            let line = first_line_of(s)->Some_0;
            &&& forall|i: int| 0 <= i < line.len() ==> #[trigger] line[i] != '\n'
            &&& {
                ||| line == s
                ||| (line + seq!['\r', '\n']).is_prefix_of(s)
                ||| (line.push('\n')).is_prefix_of(s) && (line.len() == 0 || line.last() != '\r')
            }
        }),
{
    lemma_line_end(s);
    lemma_line_end_stops(s);
    let line = first_line_of(s)->Some_0;
    let end = line_end(s) as int;
    if end == s.len() {
        assert(line == s);
    } else if 0 < end && s[end - 1] == '\r' {
        assert((line + seq!['\r', '\n']) =~= s.take(end + 1));
    } else {
        assert(line.push('\n') =~= s.take(end + 1));
    }
}

proof fn lemma_line_end_stops(s: Seq<char>)
    ensures
        line_end(s) <= s.len(),
        line_end(s) < s.len() ==> s[line_end(s) as int] == '\n',
    decreases s.len(),
{
    if s.len() > 0 && s[0] != '\n' {
        lemma_line_end_stops(s.drop_first());
    }
}

/// The number that decimal digits stand for.
pub open spec fn value_of(digits: Seq<char>) -> int
    decreases digits.len(),
{
    if digits.len() == 0 {
        0
    } else {
        value_of(digits.drop_last()) * 10 + (digits.last() as u32 - '0' as u32)
    }
}

/// A numeral stands for its number, in decimal digits alone and without a leading zero.
pub proof fn law_numeral_stands_for_its_number(n: nat)
    ensures
        value_of(numeral(n)) == n,
        numeral(n).len() > 0,
        forall|i: int| 0 <= i < numeral(n).len() ==> '0' <= #[trigger] numeral(n)[i] <= '9',
        n > 0 ==> numeral(n)[0] != '0',
        n < 10 ==> numeral(n).len() == 1,
    decreases n,
{
    reveal_with_fuel(value_of, 3);
    if n < 10 {
        assert(numeral(n).drop_last() == Seq::<char>::empty());
    } else {
        law_numeral_stands_for_its_number(n / 10);
        assert(numeral(n).drop_last() == numeral(n / 10));
        assert(numeral(n).last() == digit(n % 10));
        assert(numeral(n)[0] == numeral(n / 10)[0]);
    }
}

/// Joined texts stand in order, each separator between two neighbours.
pub proof fn law_joined_puts_separators_between(
    parts: Seq<Seq<char>>,
    last: Seq<char>,
    separator: Seq<char>,
)
    ensures
        joined(Seq::<Seq<char>>::empty(), separator) == Seq::<char>::empty(),
        joined(seq![last], separator) == last,
        parts.len() > 0 ==> joined(parts.push(last), separator) == joined(parts, separator)
            + separator + last,
{
    assert(parts.push(last).drop_last() == parts);
}

/// Of two texts that first differ in a character, the one with the lower character comes first; and a text
/// comes before every longer text that begins with it.
pub proof fn law_order_is_by_the_first_difference(
    common: Seq<char>,
    a: char,
    x: Seq<char>,
    b: char,
    y: Seq<char>,
)
    ensures
        a < b ==> before(common.push(a) + x, common.push(b) + y),
        a < b ==> !before(common.push(b) + y, common.push(a) + x),
        before(common, common.push(a) + x),
        !before(common.push(a) + x, common),
    decreases common.len(),
{
    if common.len() > 0 {
        law_order_is_by_the_first_difference(common.drop_first(), a, x, b, y);
        assert((common.push(a) + x).drop_first() == common.drop_first().push(a) + x);
        assert((common.push(b) + y).drop_first() == common.drop_first().push(b) + y);
    }
}

/// A truth value is shown by its own word.
pub proof fn law_truth_is_shown_by_its_word()
    ensures
        truth_text(true) == "true"@,
        truth_text(false) == "false"@,
{
}

} // verus!

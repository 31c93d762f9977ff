//! Small readings of text: what stands at its margins and its beginning,
//! and where its lines end.
use vstd::prelude::*;

verus! {

/// Whether `s` begins with `p`.
pub open spec fn begins_with(s: Seq<char>, p: Seq<char>) -> bool {
    s.len() >= p.len() && s.take(p.len() as int) == p
}

/// Characters that are blank space in Unicode.
pub open spec fn is_blank(c: char) -> bool {
    ||| '\u{9}' <= c && c <= '\u{d}'
    ||| c == ' '
    ||| c == '\u{85}'
    ||| c == '\u{a0}'
    ||| c == '\u{1680}'
    ||| '\u{2000}' <= c && c <= '\u{200a}'
    ||| c == '\u{2028}'
    ||| c == '\u{2029}'
    ||| c == '\u{202f}'
    ||| c == '\u{205f}'
    ||| c == '\u{3000}'
}

/// What is cut off at the margins of a text.
#[derive(Debug, Clone, Copy, PartialEq, Eq, Structural)]
pub enum Margin {
    Blanks,
    Quotes,
}

/// The character is cut off at a margin.
pub open spec fn is_margin(m: Margin, c: char) -> bool {
    match m {
        Margin::Blanks => is_blank(c),
        Margin::Quotes => c == '"',
    }
}

/// The text without what is cut off at its front.
pub open spec fn cut_front(s: Seq<char>, m: Margin) -> Seq<char>
    decreases s.len(),
{
    if s.len() > 0 && is_margin(m, s[0]) {
        cut_front(s.drop_first(), m)
    } else {
        s
    }
}

/// The text without what is cut off at its back.
pub open spec fn cut_back(s: Seq<char>, m: Margin) -> Seq<char>
    decreases s.len(),
{
    if s.len() > 0 && is_margin(m, s.last()) {
        cut_back(s.drop_last(), m)
    } else {
        s
    }
}

/// The text without its margins.
pub open spec fn trimmed(s: Seq<char>, m: Margin) -> Seq<char> {
    cut_back(cut_front(s, m), m)
}

fn drops(m: Margin, c: char) -> (r: bool)
    ensures
        r == is_margin(m, c),
{
    match m {
        Margin::Blanks => ('\u{9}' <= c && c <= '\u{d}') || c == ' ' || c == '\u{85}' || c
            == '\u{a0}' || c == '\u{1680}' || ('\u{2000}' <= c && c <= '\u{200a}') || c
            == '\u{2028}' || c == '\u{2029}' || c == '\u{202f}' || c == '\u{205f}' || c
            == '\u{3000}',
        Margin::Quotes => c == '"',
    }
}

/// The text without its margins.
pub fn trim<'a>(s: &'a str, m: Margin) -> (r: &'a str)
    ensures
        r@ == trimmed(s@, m),
{
    let n: usize = s.unicode_len();
    let mut a: usize = 0;
    assert(s@.skip(0) =~= s@);
    while a < n && drops(m, s.get_char(a))
        invariant
            a <= n,
            n == s@.len(),
            cut_front(s@, m) == cut_front(s@.skip(a as int), m),
        decreases n - a,
    {
        assert(s@.skip(a as int)[0] == s@[a as int]);
        assert(s@.skip(a as int).drop_first() =~= s@.skip(a + 1));
        a = a + 1;
    }
    let ghost front = s@.skip(a as int);
    assert(a < n ==> front[0] == s@[a as int]);
    assert(cut_front(s@, m) == front);
    let mut b: usize = n;
    assert(s@.subrange(a as int, n as int) =~= front);
    while b > a && drops(m, s.get_char(b - 1))
        invariant
            a <= b <= n,
            n == s@.len(),
            cut_back(front, m) == cut_back(s@.subrange(a as int, b as int), m),
        decreases b - a,
    {
        assert(s@.subrange(a as int, b as int).last() == s@[b - 1]);
        assert(s@.subrange(a as int, b as int).drop_last() =~= s@.subrange(a as int, b - 1));
        b = b - 1;
    }
    assert(b > a ==> s@.subrange(a as int, b as int).last() == s@[b - 1]);
    s.substring_char(a, b)
}

/// What follows `p` at the beginning of the text, if it begins with it.
pub fn after_prefix<'a>(s: &'a str, p: &str) -> (r: Option<&'a str>)
    ensures
        match r {
            Some(rest) => begins_with(s@, p@) && rest@ == s@.skip(p@.len() as int),
            None => !begins_with(s@, p@),
        },
{
    let n: usize = s.unicode_len();
    let k: usize = p.unicode_len();
    if n < k {
        return None;
    }
    let head = s.substring_char(0, k).to_owned();
    assert(head@ =~= s@.take(k as int));
    if head == p.to_owned() {
        let rest = s.substring_char(k, n);
        assert(rest@ =~= s@.skip(k as int));
        Some(rest)
    } else {
        None
    }
}

/// Where the first line ends: at its line feed, or with the text.
pub open spec fn line_end(s: Seq<char>) -> int
    decreases s.len(),
{
    if s.len() == 0 || s[0] == '\n' {
        0
    } else {
        1 + line_end(s.drop_first())
    }
}

pub proof fn lemma_line_end(s: Seq<char>, i: int)
    requires
        0 <= i <= s.len(),
        forall|j: int| 0 <= j < i ==> s[j] != '\n',
        i < s.len() ==> s[i] == '\n',
    ensures
        line_end(s) == i,
    decreases s.len(),
{
    if i > 0 {
        assert(s[0] != '\n');
        lemma_line_end(s.drop_first(), i - 1);
    }
}

pub proof fn lemma_line_end_bounds(s: Seq<char>)
    ensures
        0 <= line_end(s) <= s.len(),
    decreases s.len(),
{
    if s.len() > 0 && s[0] != '\n' {
        lemma_line_end_bounds(s.drop_first());
    }
}

/// The first line of the text, and what follows it.
pub fn first_line<'a>(s: &'a str) -> (r: (&'a str, Option<&'a str>))
    ensures
        r.0@ == s@.take(line_end(s@)),
        match r.1 {
            Some(rest) => line_end(s@) < s@.len() && rest@ == s@.skip(line_end(s@) + 1),
            None => line_end(s@) == s@.len(),
        },
{
    let n: usize = s.unicode_len();
    let mut i: usize = 0;
    while i < n && s.get_char(i) != '\n'
        invariant
            i <= n,
            n == s@.len(),
            forall|j: int| 0 <= j < i ==> s@[j] != '\n',
        decreases n - i,
    {
        i = i + 1;
    }
    proof {
        lemma_line_end(s@, i as int);
    }
    let line = s.substring_char(0, i);
    assert(line@ =~= s@.take(i as int));
    if i < n {
        let rest = s.substring_char(i + 1, n);
        assert(rest@ =~= s@.skip(i + 1));
        (line, Some(rest))
    } else {
        (line, None)
    }
}

/// The number a run of decimal digits stands for.
pub open spec fn digits_value(s: Seq<char>) -> int
    decreases s.len(),
{
    if s.len() == 0 {
        0
    } else {
        digits_value(s.drop_last()) * 10 + (s.last() as int - '0' as int)
    }
}

pub open spec fn is_digit(c: char) -> bool {
    '0' <= c && c <= '9'
}

/// The digits of an unsigned number, past one optional plus sign.
pub open spec fn unsigned_part(s: Seq<char>) -> Seq<char> {
    if s.len() > 1 && s[0] == '+' {
        s.drop_first()
    } else {
        s
    }
}

/// The number a text stands for, if it is one that fits.
pub open spec fn parsed_count(s: Seq<char>) -> Option<u64> {
    let d = unsigned_part(s);
    if d.len() > 0 && (forall|i: int| 0 <= i < d.len() ==> is_digit(#[trigger] d[i]))
        && digits_value(d) <= u64::MAX {
        Some(digits_value(d) as u64)
    } else {
        None
    }
}

proof fn lemma_digits_prefix(s: Seq<char>, i: int)
    requires
        0 <= i <= s.len(),
        forall|j: int| 0 <= j < s.len() ==> is_digit(#[trigger] s[j]),
    ensures
        0 <= digits_value(s.take(i)) <= digits_value(s),
    decreases s.len() - i,
{
    if i < s.len() {
        lemma_digits_prefix(s, i + 1);
        assert(s.take(i + 1).drop_last() =~= s.take(i));
        assert(s.take(i + 1).last() == s[i]);
        assert(is_digit(s[i]));
        lemma_digits_nonneg(s.take(i));
    } else {
        assert(s.take(i) =~= s);
        lemma_digits_nonneg(s);
    }
}

proof fn lemma_digits_nonneg(s: Seq<char>)
    requires
        forall|j: int| 0 <= j < s.len() ==> is_digit(#[trigger] s[j]),
    ensures
        0 <= digits_value(s),
    decreases s.len(),
{
    if s.len() > 0 {
        lemma_digits_nonneg(s.drop_last());
        assert(is_digit(s[s.len() - 1]));
    }
}

/// The decimal digit of a number below ten.
pub open spec fn digit_char(d: int) -> char {
    (d + '0' as int) as char
}

/// A number in decimal digits.
pub open spec fn decimal_digits(n: u64) -> Seq<char>
    decreases n,
{
    if n < 10 {
        seq![digit_char(n as int)]
    } else {
        decimal_digits(n / 10).push(digit_char(n as int % 10))
    }
}

/// A number is read back from its decimal digits.
pub proof fn lemma_decimal_reads_back(n: u64)
    ensures
        decimal_digits(n).len() > 0,
        forall|i: int| 0 <= i < decimal_digits(n).len() ==> is_digit(#[trigger] decimal_digits(n)[i]),
        digits_value(decimal_digits(n)) == n,
        parsed_count(decimal_digits(n)) == Some(n),
    decreases n,
{
    let d = decimal_digits(n);
    if n < 10 {
        assert(d.drop_last() =~= Seq::<char>::empty());
        assert(digits_value(d.drop_last()) == 0);
        assert(d.last() as int == n + '0' as int);
    } else {
        lemma_decimal_reads_back(n / 10);
        assert(d.drop_last() =~= decimal_digits(n / 10));
        assert(d.last() as int == n as int % 10 + '0' as int);
        assert forall|i: int| 0 <= i < d.len() implies is_digit(#[trigger] d[i]) by {
            if i < d.len() - 1 {
                assert(d[i] == decimal_digits(n / 10)[i]);
            }
        }
    }
}

/// Writes one decimal digit.
fn digit(d: u64) -> (r: &'static str)
    requires
        d < 10,
    ensures
        r@ == seq![digit_char(d as int)],
{
    proof {
        reveal_strlit("0");
        reveal_strlit("1");
        reveal_strlit("2");
        reveal_strlit("3");
        reveal_strlit("4");
        reveal_strlit("5");
        reveal_strlit("6");
        reveal_strlit("7");
        reveal_strlit("8");
        reveal_strlit("9");
    }
    let r = if d == 0 {
        "0"
    } else if d == 1 {
        "1"
    } else if d == 2 {
        "2"
    } else if d == 3 {
        "3"
    } else if d == 4 {
        "4"
    } else if d == 5 {
        "5"
    } else if d == 6 {
        "6"
    } else if d == 7 {
        "7"
    } else if d == 8 {
        "8"
    } else {
        "9"
    };
    assert(r@ =~= seq![digit_char(d as int)]);
    r
}

/// Writes a number in decimal digits.
pub fn decimal(n: u64) -> (r: String)
    ensures
        r@ == decimal_digits(n),
    decreases n,
{
    if n < 10 {
        digit(n).to_owned()
    } else {
        let r = decimal(n / 10).concat(digit(n % 10));
        assert(r@ =~= decimal_digits(n));
        r
    }
}

/// Reads an unsigned decimal number.
pub fn parse_count(s: &str) -> (r: Option<u64>)
    ensures
        r == parsed_count(s@),
{
    let n: usize = s.unicode_len();
    let mut i: usize = 0;
    if n > 1 && s.get_char(0) == '+' {
        i = 1;
    }
    let ghost d = unsigned_part(s@);
    let ghost start = i as int;
    assert(d =~= s@.skip(start));
    if i == n {
        return None;
    }
    let mut value: u64 = 0;
    while i < n
        invariant
            start <= i <= n,
            0 <= start <= 1,
            n == s@.len(),
            d == s@.skip(start),
            d == unsigned_part(s@),
            d.len() > 0,
            forall|j: int| 0 <= j < i - start ==> is_digit(#[trigger] d[j]),
            value == digits_value(d.take(i - start)),
        decreases n - i,
    {
        let c = s.get_char(i);
        assert(d[i - start] == c);
        if c < '0' || c > '9' {
            assert(!is_digit(d[i - start]));
            return None;
        }
        let digit: u64 = (c as u32 - '0' as u32) as u64;
        assert(d.take(i - start + 1).drop_last() =~= d.take(i - start));
        assert(d.take(i - start + 1).last() == c);
        if value > (u64::MAX - digit) / 10 {
            proof {
                if forall|j: int| 0 <= j < d.len() ==> is_digit(#[trigger] d[j]) {
                    lemma_digits_prefix(d, i - start + 1);
                }
            }
            return None;
        }
        value = value * 10 + digit;
        i = i + 1;
    }
    assert(d.take(i - start) =~= d);
    Some(value)
}

/// A text between margins is what is left of it: the margins go at both
/// ends and nothing goes in between.
pub proof fn law_margins_are_cut(front: Seq<char>, body: Seq<char>, back: Seq<char>, m: Margin)
    requires
        forall|i: int| 0 <= i < front.len() ==> is_margin(m, #[trigger] front[i]),
        forall|i: int| 0 <= i < back.len() ==> is_margin(m, #[trigger] back[i]),
        body.len() > 0 ==> !is_margin(m, body[0]) && !is_margin(m, body.last()),
    ensures
        trimmed(front + body + back, m) == body,
{
    lemma_front_is_cut(front, body + back, m);
    assert(front + body + back =~= front + (body + back));
    if body.len() > 0 {
        assert((body + back)[0] == body[0]);
        assert(cut_front(body + back, m) == body + back);
        lemma_back_is_cut(body, back, m);
    } else {
        assert(body + back =~= back + Seq::<char>::empty());
        lemma_front_is_cut(back, Seq::empty(), m);
        assert(body =~= Seq::<char>::empty());
    }
}

proof fn lemma_front_is_cut(front: Seq<char>, rest: Seq<char>, m: Margin)
    requires
        forall|i: int| 0 <= i < front.len() ==> is_margin(m, #[trigger] front[i]),
    ensures
        cut_front(front + rest, m) == cut_front(rest, m),
    decreases front.len(),
{
    if front.len() == 0 {
        assert(front + rest =~= rest);
    } else {
        assert(is_margin(m, front[0]));
        let less = front.drop_first();
        assert forall|i: int| 0 <= i < less.len() implies is_margin(m, #[trigger] less[i]) by {
            assert(less[i] == front[i + 1]);
        }
        lemma_front_is_cut(less, rest, m);
        assert((front + rest).drop_first() =~= less + rest);
    }
}

proof fn lemma_back_is_cut(body: Seq<char>, back: Seq<char>, m: Margin)
    requires
        body.len() > 0,
        !is_margin(m, body.last()),
        forall|i: int| 0 <= i < back.len() ==> is_margin(m, #[trigger] back[i]),
    ensures
        cut_back(body + back, m) == body,
    decreases back.len(),
{
    if back.len() == 0 {
        assert(body + back =~= body);
    } else {
        assert(is_margin(m, back[back.len() - 1]));
        let less = back.drop_last();
        assert forall|i: int| 0 <= i < less.len() implies is_margin(m, #[trigger] less[i]) by {
            assert(less[i] == back[i]);
        }
        lemma_back_is_cut(body, less, m);
        assert((body + back).drop_last() =~= body + less);
    }
}

/// A number is read back from its decimal digits, with or without a plus
/// sign before them.
pub proof fn law_number_reads_back(n: u64)
    ensures
        parsed_count(decimal_digits(n)) == Some(n),
        parsed_count(seq!['+'] + decimal_digits(n)) == Some(n),
        parsed_count(Seq::empty()) is None,
{
    lemma_decimal_reads_back(n);
    let s = seq!['+'] + decimal_digits(n);
    assert(s.drop_first() =~= decimal_digits(n));
}

} // verus!

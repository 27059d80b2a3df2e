//! Text helpers shared by the renderers and the path logic.

use vstd::prelude::*;

verus! {

/// The standard library's `String::push`, taken on trust: after the call
/// the string holds what it held before and `ch` behind it.
pub assume_specification[ String::push ](s: &mut String, ch: char)
    ensures
        final(s)@ == old(s)@.push(ch),
;

/// The characters of `text`, where there is a text.
pub open spec fn optional_text(text: Option<String>) -> Option<Seq<char>> {
    match text {
        Some(text) => Some(text@),
        None => None,
    }
}

/// The texts that the strings of `items` hold.
pub open spec fn string_views(items: Seq<String>) -> Seq<Seq<char>> {
    items.map_values(|item: String| item@)
}

/// `true` or `false`, as written.
pub open spec fn bool_text(value: bool) -> Seq<char> {
    if value {
        "true"@
    } else {
        "false"@
    }
}

/// `true` or `false`, as written.
pub fn bool_name(value: bool) -> (name: &'static str)
    ensures
        name@ == bool_text(value),
{
    if value {
        "true"
    } else {
        "false"
    }
}

/// Whether two vectors hold the same characters.
pub fn same_chars(a: &Vec<char>, b: &Vec<char>) -> (same: bool)
    ensures
        same == (a@ == b@),
{
    if a.len() != b.len() {
        return false;
    }
    let mut i: usize = 0;
    while i < a.len()
        invariant
            i <= a.len(),
            a.len() == b.len(),
            forall|j: int| 0 <= j < i ==> a@[j] == b@[j],
        decreases a.len() - i,
    {
        if a[i] != b[i] {
            return false;
        }
        i += 1;
    }
    assert(a@ =~= b@);
    true
}

/// Whether two strings hold the same text.
pub fn same_str(a: &str, b: &str) -> (same: bool)
    ensures
        same == (a@ == b@),
{
    let left = to_chars(a);
    let right = to_chars(b);
    same_chars(&left, &right)
}

/// What follows `prefix` in `text`, where `text` begins with it.
pub open spec fn after_prefix(text: Seq<char>, prefix: Seq<char>) -> Option<Seq<char>> {
    if prefix.is_prefix_of(text) {
        Some(text.skip(prefix.len() as int))
    } else {
        None
    }
}

/// What follows `prefix` in `text`, where `text` begins with it.
pub fn strip_prefix(text: &str, prefix: &str) -> (rest: Option<String>)
    ensures
        optional_text(rest) == after_prefix(text@, prefix@),
{
    let chars = to_chars(text);
    let wanted = to_chars(prefix);
    if wanted.len() > chars.len() {
        return None;
    }
    let mut i: usize = 0;
    while i < wanted.len()
        invariant
            i <= wanted.len(),
            wanted.len() <= chars.len(),
            chars@ == text@,
            wanted@ == prefix@,
            forall|j: int| 0 <= j < i ==> chars@[j] == wanted@[j],
        decreases wanted.len() - i,
    {
        if chars[i] != wanted[i] {
            assert(text@.subrange(0, prefix@.len() as int)[i as int] != prefix@[i as int]);
            return None;
        }
        i += 1;
    }
    assert(wanted@ =~= chars@.subrange(0, wanted@.len() as int));
    assert(chars@.skip(wanted@.len() as int) == chars@.subrange(
        wanted@.len() as int,
        chars@.len() as int,
    ));
    Some(from_chars(&chars, wanted.len(), chars.len()))
}

/// The characters of `s`, in order.
pub fn to_chars(s: &str) -> (v: Vec<char>)
    ensures
        v@ == s@,
{
    let mut v: Vec<char> = Vec::new();
    for c in it: s.chars()
        invariant
            v@ == it.seq().take(it.index() as int),
            it.seq() == s@,
    {
        v.push(c);
    }
    v
}

/// The text made of the characters of `chars` from `from` up to `to`.
pub fn from_chars(chars: &Vec<char>, from: usize, to: usize) -> (text: String)
    requires
        from <= to <= chars.len(),
    ensures
        text@ == chars@.subrange(from as int, to as int),
{
    let mut text = String::new();
    let mut i: usize = from;
    while i < to
        invariant
            from <= i <= to,
            to <= chars.len(),
            text@ == chars@.subrange(from as int, i as int),
        decreases to - i,
    {
        text.push(chars[i]);
        assert(chars@.subrange(from as int, i + 1) == chars@.subrange(from as int, i as int).push(
            chars@[i as int],
        ));
        i += 1;
    }
    text
}

/// The character that stands for the digit `digit`, up to base 16, in
/// lower case.
pub open spec fn digit_char(digit: int) -> char {
    if digit < 10 {
        (48 + digit) as char
    } else {
        (87 + digit) as char
    }
}

/// `count` zeros; none where `count` is not positive.
pub open spec fn zeros(count: int) -> Seq<char> {
    Seq::new(if count > 0 { count as nat } else { 0 }, |i: int| '0')
}

/// The numeral of `n` in `base`, with zeros before it where it has fewer
/// than `width` digits: the last digit, behind the numeral of the rest
/// padded to one digit less.
pub open spec fn padded_numeral(n: nat, base: nat, width: int) -> Seq<char>
    decreases n,
{
    if base < 2 || n < base {
        zeros(width - 1).push(digit_char(n as int))
    } else {
        proof {
            lemma_quotient_is_less(n, base);
        }
        padded_numeral(n / base, base, width - 1).push(digit_char((n % base) as int))
    }
}

/// A number divided by a base of two or more is less than the number.
pub proof fn lemma_quotient_is_less(n: nat, base: nat)
    by (nonlinear_arith)
    requires
        2 <= base <= n,
    ensures
        n / base < n,
{
}

/// The decimal numeral of `n`.
pub open spec fn decimal(n: nat) -> Seq<char> {
    padded_numeral(n, 10, 0)
}

fn digit(value: u64) -> (c: char)
    requires
        value < 16,
    ensures
        c == digit_char(value as int),
{
    if value < 10 {
        (48u8 + value as u8) as char
    } else {
        (87u8 + value as u8) as char
    }
}

/// Append the numeral of `n` in `base`, padded with zeros to `width`
/// digits.
pub fn append_padded(out: &mut String, n: u64, base: u64, width: usize)
    requires
        2 <= base <= 16,
    ensures
        final(out)@ == old(out)@ + padded_numeral(n as nat, base as nat, width as int),
    decreases n,
{
    if n >= base {
        let less = if width > 0 {
            width - 1
        } else {
            0
        };
        proof {
            lemma_quotient_is_less(n as nat, base as nat);
        }
        append_padded(out, n / base, base, less);
        assert(padded_numeral((n / base) as nat, base as nat, less as int) == padded_numeral(
            (n / base) as nat,
            base as nat,
            width - 1,
        )) by {
            if width == 0 {
                lemma_width_below_one((n / base) as nat, base as nat, -1);
            }
        }
        out.push(digit(n % base));
    } else {
        let mut i: usize = 1;
        while i < width
            invariant
                1 <= i,
                i <= width || i == 1,
                out@ == old(out)@ + zeros(i - 1),
            decreases width - i,
        {
            out.push('0');
            assert(zeros(i - 1).push('0') == zeros(i as int));
            i += 1;
        }
        assert(zeros(i - 1) == zeros(width - 1));
        out.push(digit(n));
    }
}

/// A width below one pads nothing, whatever it is.
proof fn lemma_width_below_one(n: nat, base: nat, width: int)
    requires
        width <= 0,
    ensures
        padded_numeral(n, base, width) == padded_numeral(n, base, 0),
    decreases n,
{
    if base < 2 || n < base {
        assert(zeros(width - 1) == zeros(-1));
    } else {
        lemma_quotient_is_less(n, base);
        lemma_width_below_one(n / base, base, width - 1);
        lemma_width_below_one(n / base, base, -1);
    }
}

/// Append the decimal numeral of `n`.
pub fn append_decimal(out: &mut String, n: u64)
    ensures
        final(out)@ == old(out)@ + decimal(n as nat),
{
    append_padded(out, n, 10, 0);
}

/// Where `mark` first stands in `text`; the length of `text` where it does
/// not.
pub open spec fn first_position(text: Seq<char>, mark: char) -> int
    decreases text.len(),
{
    if text.len() == 0 || text[0] == mark {
        0
    } else {
        1 + first_position(text.drop_first(), mark)
    }
}

/// What stands in `text` before the first `mark`; all of `text` where it
/// holds none.
pub open spec fn before_first(text: Seq<char>, mark: char) -> Seq<char> {
    text.take(first_position(text, mark))
}

proof fn lemma_first_position(text: Seq<char>, mark: char, at: int)
    requires
        0 <= at <= text.len(),
        forall|j: int| 0 <= j < at ==> text[j] != mark,
        at == text.len() || text[at] == mark,
    ensures
        first_position(text, mark) == at,
    decreases text.len(),
{
    if at > 0 {
        let rest = text.drop_first();
        assert forall|j: int| 0 <= j < at - 1 implies rest[j] != mark by {
            assert(rest[j] == text[j + 1]);
        }
        lemma_first_position(rest, mark, at - 1);
    }
}

/// What stands in `text` before the first `mark`.
pub fn prefix_before(text: &str, mark: char) -> (prefix: String)
    ensures
        prefix@ == before_first(text@, mark),
{
    let chars = to_chars(text);
    let mut at: usize = 0;
    while at < chars.len() && chars[at] != mark
        invariant
            at <= chars.len(),
            forall|j: int| 0 <= j < at ==> chars@[j] != mark,
        decreases chars.len() - at,
    {
        at += 1;
    }
    proof {
        lemma_first_position(chars@, mark, at as int);
    }
    from_chars(&chars, 0, at)
}

/// Whether `c` is a control character: one of the code points 0 to 1F and
/// 7F to 9F.
pub open spec fn is_control(c: char) -> bool {
    (c as u32) < 0x20 || (0x7f <= (c as u32) && (c as u32) <= 0x9f)
}

/// What stands for `c` inside a JSON string: a short escape for the quote,
/// the backslash, the line feed, the carriage return and the tab; the
/// four-digit escape for any other control character; `c` itself for the
/// rest.
pub open spec fn escaped_char(c: char) -> Seq<char> {
    if c == '"' {
        seq!['\\', '"']
    } else if c == '\\' {
        seq!['\\', '\\']
    } else if c == '\n' {
        seq!['\\', 'n']
    } else if c == '\r' {
        seq!['\\', 'r']
    } else if c == '\t' {
        seq!['\\', 't']
    } else if is_control(c) {
        seq!['\\', 'u'] + padded_numeral((c as u32) as nat, 16, 4)
    } else {
        seq![c]
    }
}

/// `text` with each character as it stands inside a JSON string.
pub open spec fn json_escaped(text: Seq<char>) -> Seq<char>
    decreases text.len(),
{
    if text.len() == 0 {
        Seq::empty()
    } else {
        json_escaped(text.drop_last()) + escaped_char(text.last())
    }
}

fn code_point(c: char) -> (code: u32)
    ensures
        code == c as u32,
{
    c as u32
}

/// Escape a string for JSON output.
pub fn json_escape(s: &str) -> (result: String)
    ensures
        result@ == json_escaped(s@),
{
    let chars = to_chars(s);
    let mut result = String::new();
    let mut i: usize = 0;
    while i < chars.len()
        invariant
            i <= chars.len(),
            result@ == json_escaped(chars@.take(i as int)),
        decreases chars.len() - i,
    {
        let c = chars[i];
        assert(chars@.take(i + 1).drop_last() == chars@.take(i as int));
        let code = code_point(c);
        let ghost before = result@;
        if c == '"' {
            result.push('\\');
            result.push('"');
        } else if c == '\\' {
            result.push('\\');
            result.push('\\');
        } else if c == '\n' {
            result.push('\\');
            result.push('n');
        } else if c == '\r' {
            result.push('\\');
            result.push('r');
        } else if c == '\t' {
            result.push('\\');
            result.push('t');
        } else if code < 0x20 || (0x7f <= code && code <= 0x9f) {
            result.push('\\');
            result.push('u');
            append_padded(&mut result, code as u64, 16, 4);
            assert(before.push('\\').push('u') + padded_numeral(code as nat, 16, 4) =~= before + (
            seq!['\\', 'u'] + padded_numeral(code as nat, 16, 4)));
        } else {
            result.push(c);
        }
        assert(result@ =~= before + escaped_char(c));
        i += 1;
    }
    assert(chars@.take(i as int) == chars@);
    result
}

} // verus!

//! Text helpers with exact contracts over `Seq<char>`.
//!
//! Every function here works on characters, not bytes: positions and lengths
//! count `char`s, and each result is pinned down by a spec function on the
//! viewed sequence.

use vstd::prelude::*;

verus! {

/// `a` followed by `b`.
pub fn concat2(a: &str, b: &str) -> (r: String)
    ensures
        r@ == a@ + b@,
{
    let mut r = a.to_string();
    r.append(b);
    r
}

/// `a`, then `b`, then `c`.
pub fn concat3(a: &str, b: &str, c: &str) -> (r: String)
    ensures
        r@ == a@ + b@ + c@,
{
    let mut r = a.to_string();
    r.append(b);
    r.append(c);
    r
}

/// Whether `c` is white space in the sense of Unicode (`White_Space`).
pub open spec fn is_whitespace(c: char) -> bool {
    let u = c as u32;
    ||| 0x09 <= u <= 0x0D
    ||| u == 0x20
    ||| u == 0x85
    ||| u == 0xA0
    ||| u == 0x1680
    ||| 0x2000 <= u <= 0x200A
    ||| u == 0x2028
    ||| u == 0x2029
    ||| u == 0x202F
    ||| u == 0x205F
    ||| u == 0x3000
}

/// Decides `is_whitespace`.
pub fn char_is_whitespace(c: char) -> (b: bool)
    ensures
        b == is_whitespace(c),
{
    let u: u32 = c as u32;
    (0x09 <= u && u <= 0x0D) || u == 0x20 || u == 0x85 || u == 0xA0 || u == 0x1680 || (0x2000 <= u
        && u <= 0x200A) || u == 0x2028 || u == 0x2029 || u == 0x202F || u == 0x205F || u == 0x3000
}

/// `s` without its leading whitespace.
pub open spec fn trim_start(s: Seq<char>) -> Seq<char>
    decreases s.len(),
{
    if s.len() > 0 && is_whitespace(s.first()) {
        trim_start(s.drop_first())
    } else {
        s
    }
}

/// `s` without its trailing whitespace.
pub open spec fn trim_end(s: Seq<char>) -> Seq<char>
    decreases s.len(),
{
    if s.len() > 0 && is_whitespace(s.last()) {
        trim_end(s.drop_last())
    } else {
        s
    }
}

/// `s` without the whitespace around it.
pub open spec fn trimmed(s: Seq<char>) -> Seq<char> {
    trim_end(trim_start(s))
}

/// Skipping `a` leading whitespace characters, where the next one (if any)
/// is not whitespace, is `trim_start`.
proof fn lemma_trim_start_skip(s: Seq<char>, a: int)
    requires
        0 <= a <= s.len(),
        forall|i: int| 0 <= i < a ==> is_whitespace(#[trigger] s[i]),
        a < s.len() ==> !is_whitespace(s[a]),
    ensures
        trim_start(s) == s.skip(a),
    decreases a,
{
    if a > 0 {
        lemma_trim_start_skip(s.drop_first(), a - 1);
    }
}

/// Keeping the first `b` characters, where everything after them is
/// whitespace and the last kept one (if any) is not, is `trim_end`.
proof fn lemma_trim_end_take(s: Seq<char>, b: int)
    requires
        0 <= b <= s.len(),
        forall|i: int| b <= i < s.len() ==> is_whitespace(#[trigger] s[i]),
        b > 0 ==> !is_whitespace(s[b - 1]),
    ensures
        trim_end(s) == s.take(b),
    decreases s.len() - b,
{
    if b < s.len() {
        lemma_trim_end_take(s.drop_last(), b);
    }
}

/// `s` without the whitespace around it, as a new string.
pub fn trim(s: &str) -> (r: String)
    ensures
        r@ == trimmed(s@),
{
    let total = s.unicode_len();
    let mut pos: usize = 0;
    let mut first: usize = 0;
    let mut end: usize = 0;
    let mut seen = false;
    for c in it: s.chars()
        invariant
            it.seq() == s@,
            total == s@.len(),
            pos == it.index(),
            pos <= total,
            seen ==> first < end <= pos && !is_whitespace(s@[first as int]) && !is_whitespace(
                s@[end - 1],
            ),
            seen ==> forall|i: int| 0 <= i < first ==> is_whitespace(#[trigger] s@[i]),
            seen ==> forall|i: int| end <= i < pos ==> is_whitespace(#[trigger] s@[i]),
            !seen ==> forall|i: int| 0 <= i < pos ==> is_whitespace(#[trigger] s@[i]),
    {
        if !char_is_whitespace(c) {
            if !seen {
                first = pos;
                seen = true;
            }
            end = pos + 1;
        }
        pos = pos + 1;
    }
    if !seen {
        proof {
            lemma_trim_start_skip(s@, s@.len() as int);
        }
        String::new()
    } else {
        proof {
            lemma_trim_start_skip(s@, first as int);
            let rest = s@.skip(first as int);
            lemma_trim_end_take(rest, end - first);
        }
        s.substring_char(first, end).to_string()
    }
}

/// The code point of `c` with ASCII upper-case letters mapped to lower case.
pub open spec fn ascii_lower_code(c: char) -> u32 {
    let u = c as u32;
    if 0x41 <= u <= 0x5A {
        (u + 0x20) as u32
    } else {
        u
    }
}

/// Whether `a` and `b` are the same text once ASCII letters are taken
/// without regard to case.
pub open spec fn equal_ignoring_ascii_case(a: Seq<char>, b: Seq<char>) -> bool {
    &&& a.len() == b.len()
    &&& forall|i: int| 0 <= i < a.len() ==> ascii_lower_code(#[trigger] a[i]) == ascii_lower_code(b[i])
}

fn lower_code(c: char) -> (u: u32)
    ensures
        u == ascii_lower_code(c),
{
    let u: u32 = c as u32;
    if 0x41 <= u && u <= 0x5A {
        u + 0x20
    } else {
        u
    }
}

/// Decides `equal_ignoring_ascii_case`. The cost grows with the square of
/// the length when the two lengths agree, so `b` is meant to be short.
pub fn eq_ignore_ascii_case(a: &str, b: &str) -> (r: bool)
    ensures
        r == equal_ignoring_ascii_case(a@, b@),
{
    let n = b.unicode_len();
    if a.unicode_len() != n {
        return false;
    }
    let mut pos: usize = 0;
    for c in it: a.chars()
        invariant
            it.seq() == a@,
            a@.len() == n,
            b@.len() == n,
            pos == it.index(),
            pos <= n,
            forall|i: int| 0 <= i < pos ==> ascii_lower_code(#[trigger] a@[i]) == ascii_lower_code(b@[i]),
    {
        let d = b.get_char(pos);
        if lower_code(c) != lower_code(d) {
            return false;
        }
        pos = pos + 1;
    }
    true
}

/// The character that writes the digit `d`.
pub open spec fn digit_char(d: nat) -> char {
    if d == 0 {
        '0'
    } else if d == 1 {
        '1'
    } else if d == 2 {
        '2'
    } else if d == 3 {
        '3'
    } else if d == 4 {
        '4'
    } else if d == 5 {
        '5'
    } else if d == 6 {
        '6'
    } else if d == 7 {
        '7'
    } else if d == 8 {
        '8'
    } else {
        '9'
    }
}

/// `n` written in decimal, without sign or leading zeros.
pub open spec fn decimal(n: nat) -> Seq<char>
    decreases n,
{
    if n < 10 {
        seq![digit_char(n)]
    } else {
        decimal(n / 10).push(digit_char(n % 10))
    }
}

fn digit_text(d: u64) -> (r: &'static str)
    requires
        d < 10,
    ensures
        r@ == seq![digit_char(d as nat)],
{
    proof {
        reveal_strlit("0");
        reveal_strlit("1");
        reveal_strlit("2");
        reveal_strlit("3");
        reveal_strlit("4");
        reveal_strlit("5");
        reveal_strlit("6");
        reveal_strlit("7");
        reveal_strlit("8");
        reveal_strlit("9");
    }
    let r = if d == 0 {
        "0"
    } else if d == 1 {
        "1"
    } else if d == 2 {
        "2"
    } else if d == 3 {
        "3"
    } else if d == 4 {
        "4"
    } else if d == 5 {
        "5"
    } else if d == 6 {
        "6"
    } else if d == 7 {
        "7"
    } else if d == 8 {
        "8"
    } else {
        "9"
    };
    r
}

/// Writes `n` in decimal.
pub fn to_decimal(n: u64) -> (r: String)
    ensures
        r@ == decimal(n as nat),
    decreases n,
{
    if n < 10 {
        digit_text(n).to_string()
    } else {
        let mut r = to_decimal(n / 10);
        r.append(digit_text(n % 10));
        r
    }
}

/// Whether `c` is one of the digits `0` to `9`.
pub open spec fn is_digit(c: char) -> bool {
    0x30 <= c as u32 <= 0x39
}

/// The value of the digit `c`.
pub open spec fn digit_value(c: char) -> nat {
    (c as u32 - 0x30) as nat
}

/// The number that the digits `s` write in decimal.
pub open spec fn digits_value(s: Seq<char>) -> nat
    decreases s.len(),
{
    if s.len() == 0 {
        0
    } else {
        digits_value(s.drop_last()) * 10 + digit_value(s.last())
    }
}

/// Whether `s` consists of digits only.
pub open spec fn all_digits(s: Seq<char>) -> bool {
    forall|i: int| 0 <= i < s.len() ==> is_digit(#[trigger] s[i])
}

/// The 32-bit signed integer that `s` writes: an optional sign, `+` or `-`,
/// and then at least one digit and nothing else, the number being in range.
/// `None` for every other text.
pub open spec fn parsed_i32(s: Seq<char>) -> Option<i32> {
    let signed = s.len() > 0 && (s[0] == '-' || s[0] == '+');
    let negative = s.len() > 0 && s[0] == '-';
    let digits = if signed {
        s.skip(1)
    } else {
        s
    };
    let magnitude = digits_value(digits);
    let value = if negative {
        -(magnitude as int)
    } else {
        magnitude as int
    };
    if digits.len() > 0 && all_digits(digits) && i32::MIN <= value <= i32::MAX {
        Some(value as i32)
    } else {
        None
    }
}

/// A prefix of a run of digits writes no larger a number than the whole.
proof fn lemma_digits_value_grows(s: Seq<char>, k: int)
    requires
        0 <= k <= s.len(),
    ensures
        digits_value(s.take(k)) <= digits_value(s),
    decreases s.len() - k,
{
    if k == s.len() {
        assert(s.take(k) == s);
    } else {
        lemma_digits_value_grows(s.drop_last(), k);
        assert(s.drop_last().take(k) == s.take(k));
    }
}

/// Reads a 32-bit signed integer written in decimal.
pub fn parse_i32(s: &str) -> (r: Option<i32>)
    ensures
        r == parsed_i32(s@),
{
    let total = s.unicode_len();
    if total == 0 {
        return None;
    }
    let head = s.get_char(0);
    let signed = head == '-' || head == '+';
    let negative = head == '-';
    let start: usize = if signed {
        1
    } else {
        0
    };
    if start == total {
        return None;
    }
    let ghost digits = s@.skip(start as int);
    let mut acc: u64 = 0;
    let mut pos: usize = 0;
    for c in it: s.chars()
        invariant
            it.seq() == s@,
            total == s@.len(),
            pos == it.index(),
            pos <= total,
            start < total,
            signed == (s@[0] == '-' || s@[0] == '+'),
            negative == (s@[0] == '-'),
            start == if signed { 1usize } else { 0usize },
            digits == s@.skip(start as int),
            digits == if signed { s@.skip(1) } else { s@ },
            pos >= start ==> acc == digits_value(digits.take(pos - start)),
            pos < start ==> acc == 0,
            acc <= 0x8000_0000,
            forall|i: int| 0 <= i < pos - start ==> is_digit(#[trigger] digits[i]),
    {
        if pos >= start {
            let u: u32 = c as u32;
            proof {
                assert(digits[pos - start] == c);
                assert(digits.take(pos - start + 1).drop_last() == digits.take(pos - start));
            }
            if u < 0x30 || u > 0x39 {
                return None;
            }
            acc = acc * 10 + (u - 0x30) as u64;
            if acc > 0x8000_0000 {
                proof {
                    lemma_digits_value_grows(digits, pos - start + 1);
                }
                return None;
            }
        }
        pos = pos + 1;
    }
    assert(digits.take(total - start) == digits);
    if negative {
        if acc == 0x8000_0000 {
            Some(i32::MIN)
        } else {
            Some(-(acc as i32))
        }
    } else {
        if acc == 0x8000_0000 {
            None
        } else {
            Some(acc as i32)
        }
    }
}

/// The pieces of `s` between the occurrences of `sep`, in order. There is
/// always one piece more than there are separators, so the empty text has
/// one empty piece.
pub open spec fn split_on(s: Seq<char>, sep: char) -> Seq<Seq<char>>
    decreases s.len(),
{
    if s.len() == 0 {
        seq![Seq::<char>::empty()]
    } else {
        let before = split_on(s.drop_last(), sep);
        if s.last() == sep {
            before.push(Seq::<char>::empty())
        } else {
            before.drop_last().push(before.last().push(s.last()))
        }
    }
}

/// `split_on` always yields at least one piece.
pub proof fn lemma_split_on_nonempty(s: Seq<char>, sep: char)
    ensures
        split_on(s, sep).len() >= 1,
    decreases s.len(),
{
    if s.len() > 0 {
        lemma_split_on_nonempty(s.drop_last(), sep);
    }
}

/// Splits `s` at every occurrence of `sep`.
pub fn split(s: &str, sep: char) -> (pieces: Vec<String>)
    ensures
        pieces.deep_view() == split_on(s@, sep),
{
    let total = s.unicode_len();
    let mut pieces: Vec<String> = Vec::new();
    let mut start: usize = 0;
    let mut pos: usize = 0;
    assert(s@.take(0) =~= Seq::<char>::empty());
    for c in it: s.chars()
        invariant
            it.seq() == s@,
            total == s@.len(),
            pos == it.index(),
            start <= pos <= total,
            split_on(s@.take(pos as int), sep) == pieces.deep_view().push(
                s@.subrange(start as int, pos as int),
            ),
    {
        assert(s@.take(pos + 1).drop_last() == s@.take(pos as int));
        if c == sep {
            let piece = s.substring_char(start, pos).to_string();
            pieces.push(piece);
            start = pos + 1;
            assert(s@.subrange(pos + 1, pos + 1) =~= Seq::<char>::empty());
        } else {
            assert(s@.subrange(start as int, pos as int).push(c) == s@.subrange(
                start as int,
                pos + 1,
            ));
        }
        pos = pos + 1;
    }
    let piece = s.substring_char(start, total).to_string();
    pieces.push(piece);
    assert(s@.take(total as int) == s@);
    pieces
}

/// The items one per line, each behind the bullet `  - `.
pub open spec fn bullet_list(items: Seq<Seq<char>>) -> Seq<char>
    decreases items.len(),
{
    if items.len() == 0 {
        Seq::<char>::empty()
    } else {
        let head = bullet_list(items.drop_last());
        let lead = if items.len() > 1 {
            head + "\n"@
        } else {
            head
        };
        lead + "  - "@ + items.last()
    }
}

/// Writes `items` as a bullet list.
pub fn render_bullet_list(items: &Vec<String>) -> (r: String)
    ensures
        r@ == bullet_list(items.deep_view()),
{
    let mut r = String::new();
    let mut i: usize = 0;
    while i < items.len()
        invariant
            i <= items.len(),
            r@ == bullet_list(items.deep_view().take(i as int)),
        decreases items.len() - i,
    {
        assert(items.deep_view().take(i + 1).drop_last() == items.deep_view().take(i as int));
        if i > 0 {
            r.append("\n");
        }
        r.append("  - ");
        r.append(items[i].as_str());
        i = i + 1;
    }
    assert(items.deep_view().take(items.len() as int) == items.deep_view());
    r
}

/// Whether `needle` stands somewhere in `hay` as a run of characters.
pub open spec fn contains_text(hay: Seq<char>, needle: Seq<char>) -> bool {
    exists|k: int| is_occurrence(hay, needle, k)
}

/// Whether `needle` stands in `hay` at position `k`.
pub open spec fn is_occurrence(hay: Seq<char>, needle: Seq<char>, k: int) -> bool {
    0 <= k && k + needle.len() <= hay.len() && hay.subrange(k, k + needle.len()) == needle
}

/// What stands in a text stands in every text built around it.
pub proof fn lemma_contains_in_context(before: Seq<char>, hay: Seq<char>, after: Seq<char>, needle: Seq<char>)
    requires
        contains_text(hay, needle),
    ensures
        contains_text(before + hay + after, needle),
{
    let k = choose|k: int| is_occurrence(hay, needle, k);
    let whole = before + hay + after;
    assert(whole.subrange(before.len() + k, before.len() + k + needle.len()) =~= hay.subrange(
        k,
        k + needle.len(),
    ));
    assert(is_occurrence(whole, needle, before.len() + k));
}

/// A bullet list holds each of its items behind a bullet.
pub proof fn lemma_bullet_list_holds_item(items: Seq<Seq<char>>, i: int)
    requires
        0 <= i < items.len(),
    ensures
        contains_text(bullet_list(items), "  - "@ + items[i]),
    decreases items.len(),
{
    let head = bullet_list(items.drop_last());
    let lead = if items.len() > 1 {
        head + "\n"@
    } else {
        head
    };
    let entry = "  - "@ + items.last();
    assert(bullet_list(items) =~= lead + entry);
    if i == items.len() - 1 {
        assert(is_occurrence(entry, entry, 0)) by {
            assert(entry.subrange(0, entry.len() as int) =~= entry);
        }
        lemma_contains_in_context(lead, entry, Seq::empty(), entry);
    } else {
        lemma_bullet_list_holds_item(items.drop_last(), i);
        let needle = "  - "@ + items[i];
        lemma_contains_in_context(Seq::empty(), head, lead.skip(head.len() as int) + entry, needle);
        assert(Seq::<char>::empty() + head + (lead.skip(head.len() as int) + entry) =~= lead
            + entry);
    }
}

/// `s` without the run of `c` at its end.
pub open spec fn without_trailing(s: Seq<char>, c: char) -> Seq<char>
    decreases s.len(),
{
    if s.len() > 0 && s.last() == c {
        without_trailing(s.drop_last(), c)
    } else {
        s
    }
}

/// Keeping the first `b` characters, where everything after them is `c` and
/// the last kept one (if any) is not, is `without_trailing`.
proof fn lemma_without_trailing_take(s: Seq<char>, c: char, b: int)
    requires
        0 <= b <= s.len(),
        forall|i: int| b <= i < s.len() ==> #[trigger] s[i] == c,
        b > 0 ==> s[b - 1] != c,
    ensures
        without_trailing(s, c) == s.take(b),
    decreases s.len() - b,
{
    if b < s.len() {
        lemma_without_trailing_take(s.drop_last(), c, b);
    }
}

/// `s` without the run of `c` at its end, as a new string.
pub fn trim_end_matches(s: &str, c: char) -> (r: String)
    ensures
        r@ == without_trailing(s@, c),
{
    let total = s.unicode_len();
    let mut pos: usize = 0;
    let mut end: usize = 0;
    for d in it: s.chars()
        invariant
            it.seq() == s@,
            total == s@.len(),
            pos == it.index(),
            end <= pos <= total,
            end > 0 ==> s@[end - 1] != c,
            forall|i: int| end <= i < pos ==> #[trigger] s@[i] == c,
    {
        if d != c {
            end = pos + 1;
        }
        pos = pos + 1;
    }
    proof {
        lemma_without_trailing_take(s@, c, end as int);
    }
    s.substring_char(0, end).to_string()
}

/// The items one after the other with `sep` between each two.
pub open spec fn joined_with(items: Seq<Seq<char>>, sep: Seq<char>) -> Seq<char>
    decreases items.len(),
{
    if items.len() == 0 {
        Seq::<char>::empty()
    } else {
        let head = joined_with(items.drop_last(), sep);
        let lead = if items.len() > 1 {
            head + sep
        } else {
            head
        };
        lead + items.last()
    }
}

/// Writes `items` one after the other with `sep` between each two.
pub fn join_with(items: &Vec<String>, sep: &str) -> (r: String)
    ensures
        r@ == joined_with(items.deep_view(), sep@),
{
    let mut r = String::new();
    let mut i: usize = 0;
    while i < items.len()
        invariant
            i <= items.len(),
            r@ == joined_with(items.deep_view().take(i as int), sep@),
        decreases items.len() - i,
    {
        assert(items.deep_view().take(i + 1).drop_last() == items.deep_view().take(i as int));
        if i > 0 {
            r.append(sep);
        }
        r.append(items[i].as_str());
        i = i + 1;
    }
    assert(items.deep_view().take(items.len() as int) == items.deep_view());
    r
}

/// A joined text holds each of its items.
pub proof fn lemma_joined_holds_item(items: Seq<Seq<char>>, sep: Seq<char>, i: int)
    requires
        0 <= i < items.len(),
    ensures
        contains_text(joined_with(items, sep), items[i]),
    decreases items.len(),
{
    let head = joined_with(items.drop_last(), sep);
    let lead = if items.len() > 1 {
        head + sep
    } else {
        head
    };
    let entry = items.last();
    if i == items.len() - 1 {
        assert(is_occurrence(entry, entry, 0)) by {
            assert(entry.subrange(0, entry.len() as int) =~= entry);
        }
        lemma_contains_in_context(lead, entry, Seq::empty(), entry);
        assert(lead + entry + Seq::<char>::empty() =~= joined_with(items, sep));
    } else {
        lemma_joined_holds_item(items.drop_last(), sep, i);
        lemma_contains_in_context(Seq::empty(), head, lead.skip(head.len() as int) + entry, items[i]);
        assert(Seq::<char>::empty() + head + (lead.skip(head.len() as int) + entry)
            =~= joined_with(items, sep));
    }
}

/// The texts of `a` followed by those of `b`.
pub fn chain(a: &Vec<String>, b: &Vec<String>) -> (r: Vec<String>)
    ensures
        r.deep_view() == a.deep_view() + b.deep_view(),
{
    let mut r: Vec<String> = Vec::new();
    let mut i: usize = 0;
    while i < a.len()
        invariant
            i <= a.len(),
            r.deep_view() == a.deep_view().take(i as int),
        decreases a.len() - i,
    {
        let ghost before = r.deep_view();
        let item = a[i].clone();
        assert(item@ == a.deep_view()[i as int]);
        r.push(item);
        assert(r.deep_view() =~= before.push(item@));
        assert(r.deep_view() =~= a.deep_view().take(i + 1));
        i = i + 1;
    }
    assert(a.deep_view().take(a.len() as int) == a.deep_view());
    let mut j: usize = 0;
    while j < b.len()
        invariant
            j <= b.len(),
            r.deep_view() == a.deep_view() + b.deep_view().take(j as int),
        decreases b.len() - j,
    {
        let ghost before = r.deep_view();
        let item = b[j].clone();
        assert(item@ == b.deep_view()[j as int]);
        r.push(item);
        assert(r.deep_view() =~= before.push(item@));
        assert(r.deep_view() =~= a.deep_view() + b.deep_view().take(j + 1));
        j = j + 1;
    }
    assert(b.deep_view().take(b.len() as int) == b.deep_view());
    r
}

} // verus!

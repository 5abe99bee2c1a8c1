//! Text primitives: the vocabulary in which the other modules state what a
//! string holds, and the calls into the standard library that work on strings.
use vstd::prelude::*;

verus! {

/// The code points with the Unicode property `White_Space`.
pub open spec fn white_space(c: char) -> bool {
    let n = c as int;
    ||| 0x9 <= n <= 0xd
    ||| n == 0x20
    ||| n == 0x85
    ||| n == 0xa0
    ||| n == 0x1680
    ||| 0x2000 <= n <= 0x200a
    ||| n == 0x2028
    ||| n == 0x2029
    ||| n == 0x202f
    ||| n == 0x205f
    ||| n == 0x3000
}

/// `s` without its leading white space.
pub open spec fn trimmed_start(s: Seq<char>) -> Seq<char>
    decreases s.len(),
{
    if s.len() > 0 && white_space(s[0]) {
        trimmed_start(s.skip(1))
    } else {
        s
    }
}

/// `s` without its trailing white space.
pub open spec fn trimmed_end(s: Seq<char>) -> Seq<char>
    decreases s.len(),
{
    if s.len() > 0 && white_space(s.last()) {
        trimmed_end(s.drop_last())
    } else {
        s
    }
}

/// `s` without its leading and trailing white space.
pub open spec fn trimmed(s: Seq<char>) -> Seq<char> {
    trimmed_end(trimmed_start(s))
}

/// Whether `part` stands in `s` at position `i`.
pub open spec fn stands_at(part: Seq<char>, s: Seq<char>, i: int) -> bool {
    0 <= i && i + part.len() <= s.len() && s.subrange(i, i + part.len()) == part
}

/// Whether `part` stands somewhere in `s`.
pub open spec fn occurs(part: Seq<char>, s: Seq<char>) -> bool {
    exists|i: int| stands_at(part, s, i)
}

/// The decimal digit of value `d`.
pub open spec fn digit(d: nat) -> char {
    ('0' as int + d) as char
}

/// `n` in decimal, without leading zeros.
pub open spec fn decimal(n: nat) -> Seq<char>
    decreases n,
{
    if n < 10 {
        seq![digit(n)]
    } else {
        decimal(n / 10).push(digit(n % 10))
    }
}

/// A text or the text of an error.
pub open spec fn result_text(r: Result<String, String>) -> Result<Seq<char>, Seq<char>> {
    match r {
        Ok(t) => Ok(t@),
        Err(e) => Err(e@),
    }
}

/// What an optional string holds.
pub open spec fn option_text(o: Option<String>) -> Option<Seq<char>> {
    match o {
        Some(t) => Some(t@),
        None => None,
    }
}

proof fn lemma_trimmed_start(s: Seq<char>)
    ensures
        trimmed_start(s).len() <= s.len(),
        trimmed_start(s) == s.skip(s.len() - trimmed_start(s).len()),
        trimmed_start(s).len() > 0 ==> !white_space(trimmed_start(s)[0]),
        forall|i: int| 0 <= i < s.len() - trimmed_start(s).len() ==> white_space(#[trigger] s[i]),
    decreases s.len(),
{
    if s.len() > 0 && white_space(s[0]) {
        let t = s.skip(1);
        lemma_trimmed_start(t);
        let n = t.len() - trimmed_start(t).len();
        assert(t.skip(n) =~= s.skip(n + 1));
        assert forall|i: int| 0 <= i < n + 1 implies white_space(#[trigger] s[i]) by {
            if i > 0 {
                assert(t[i - 1] == s[i]);
            }
        }
    } else {
        assert(s.skip(0) =~= s);
    }
}

proof fn lemma_trimmed_end(s: Seq<char>)
    ensures
        trimmed_end(s).len() <= s.len(),
        trimmed_end(s) == s.take(trimmed_end(s).len() as int),
        trimmed_end(s).len() > 0 ==> !white_space(trimmed_end(s).last()),
        forall|i: int| trimmed_end(s).len() <= i < s.len() ==> white_space(#[trigger] s[i]),
    decreases s.len(),
{
    if s.len() > 0 && white_space(s.last()) {
        let t = s.drop_last();
        lemma_trimmed_end(t);
        let n = trimmed_end(t).len() as int;
        assert(t.take(n) =~= s.take(n));
        assert forall|i: int| n <= i < s.len() implies white_space(#[trigger] s[i]) by {
            if i < t.len() {
                assert(t[i] == s[i]);
            }
        }
    } else {
        assert(s.take(s.len() as int) =~= s);
    }
}

/// What trimming leaves stands in the text, and neither begins nor ends with
/// white space; nothing is left of a text exactly when it is all white space.
pub proof fn law_trimmed(s: Seq<char>)
    ensures
        occurs(trimmed(s), s),
        trimmed(s).len() > 0 ==> !white_space(trimmed(s)[0]) && !white_space(trimmed(s).last()),
        trimmed(s).len() == 0 <==> forall|i: int| 0 <= i < s.len() ==> white_space(#[trigger] s[i]),
{
    let t = trimmed_start(s);
    let r = trimmed(s);
    lemma_trimmed_start(s);
    lemma_trimmed_end(t);
    let n = s.len() - t.len();
    assert(s.subrange(n, n + r.len()) =~= r);
    assert(stands_at(r, s, n));
    if r.len() == 0 {
        assert forall|i: int| 0 <= i < s.len() implies white_space(#[trigger] s[i]) by {
            if i >= n {
                assert(t[i - n] == s[i]);
            }
        }
    } else {
        assert(r[0] == s[n]);
        assert(!white_space(s[n]));
    }
}

/// Trimming keeps the first `n` characters of a text of which the first and the
/// last are not white space.
pub proof fn lemma_trimmed_keeps(s: Seq<char>, n: int)
    requires
        0 < n <= s.len(),
        !white_space(s[0]),
        !white_space(s[n - 1]),
    ensures
        n <= trimmed(s).len(),
        trimmed(s).take(n) == s.take(n),
{
    assert(trimmed_start(s) == s);
    lemma_trimmed_end(s);
    assert(trimmed(s).take(n) =~= s.take(n));
}

/// Trimming a text twice is trimming it once.
pub proof fn law_trimmed_twice(s: Seq<char>)
    ensures
        trimmed(trimmed(s)) == trimmed(s),
{
    law_trimmed(s);
}

proof fn lemma_leading_white_space(lead: Seq<char>, s: Seq<char>)
    requires
        forall|i: int| 0 <= i < lead.len() ==> white_space(#[trigger] lead[i]),
    ensures
        trimmed_start(lead + s) == trimmed_start(s),
    decreases lead.len(),
{
    if lead.len() > 0 {
        assert(white_space(lead[0]));
        assert((lead + s).skip(1) =~= lead.skip(1) + s);
        lemma_leading_white_space(lead.skip(1), s);
    } else {
        assert(lead + s =~= s);
    }
}

proof fn lemma_trailing_white_space(s: Seq<char>, trail: Seq<char>)
    requires
        forall|i: int| 0 <= i < trail.len() ==> white_space(#[trigger] trail[i]),
    ensures
        trimmed_end(s + trail) == trimmed_end(s),
    decreases trail.len(),
{
    if trail.len() > 0 {
        assert(white_space(trail[trail.len() - 1]));
        assert((s + trail).drop_last() =~= s + trail.drop_last());
        lemma_trailing_white_space(s, trail.drop_last());
    } else {
        assert(s + trail =~= s);
    }
}

/// Trimming takes off the white space around a text, and nothing else of it.
pub proof fn law_trimmed_keeps_the_rest(lead: Seq<char>, s: Seq<char>, trail: Seq<char>)
    requires
        forall|i: int| 0 <= i < lead.len() ==> white_space(#[trigger] lead[i]),
        forall|i: int| 0 <= i < trail.len() ==> white_space(#[trigger] trail[i]),
        s.len() > 0 ==> !white_space(s[0]) && !white_space(s.last()),
    ensures
        trimmed(lead + s + trail) == s,
{
    assert(lead + s + trail =~= lead + (s + trail));
    lemma_leading_white_space(lead, s + trail);
    if s.len() > 0 {
        assert((s + trail)[0] == s[0]);
        lemma_trailing_white_space(s, trail);
    } else {
        assert(s + trail =~= trail + s);
        lemma_leading_white_space(trail, s);
    }
}

/// The first line of a text is what stands before its first line feed, or all of
/// it where there is none.
pub proof fn law_first_line(line: Seq<char>, rest: Seq<char>)
    requires
        forall|i: int| 0 <= i < line.len() ==> #[trigger] line[i] != '\n',
    ensures
        first_line(line) == line,
        first_line(line.push('\n') + rest) == line,
    decreases line.len(),
{
    if line.len() > 0 {
        let tail = line.skip(1);
        assert(line[0] != '\n');
        law_first_line(tail, rest);
        assert((line.push('\n') + rest).skip(1) =~= tail.push('\n') + rest);
        assert(seq![line[0]] + tail =~= line);
    }
}

/// Strings, errors and what may be missing are seen as the texts that they hold.
pub proof fn law_texts_are_seen_whole(t: String)
    ensures
        result_text(Ok(t)) == Ok::<Seq<char>, Seq<char>>(t@),
        result_text(Err(t)) == Err::<Seq<char>, Seq<char>>(t@),
        option_text(Some(t)) == Some(t@),
        option_text(None) == None::<Seq<char>>,
{
}

/// A decimal is made of digits.
proof fn lemma_decimal_digits(n: nat)
    ensures
        decimal(n).len() > 0,
        forall|i: int|
            0 <= i < decimal(n).len() ==> '0' <= #[trigger] decimal(n)[i] && decimal(n)[i] <= '9',
    decreases n,
{
    if n >= 10 {
        lemma_decimal_digits(n / 10);
        assert forall|i: int| 0 <= i < decimal(n).len() implies '0' <= #[trigger] decimal(n)[i]
            && decimal(n)[i] <= '9' by {
            if i < decimal(n).len() - 1 {
                assert(decimal(n)[i] == decimal(n / 10)[i]);
            }
        }
    }
}

/// Two numbers that differ are written differently, and no number begins with a
/// sign.
pub proof fn law_decimal(m: nat, n: nat)
    ensures
        decimal(m) == decimal(n) ==> m == n,
        decimal(n).len() > 0 && '0' <= decimal(n)[0] && decimal(n)[0] <= '9',
    decreases m,
{
    lemma_decimal_digits(m);
    lemma_decimal_digits(n);
    if decimal(m) == decimal(n) {
        if m >= 10 && n >= 10 {
            let a = decimal(m / 10);
            let b = decimal(n / 10);
            assert(decimal(m).drop_last() =~= a);
            assert(decimal(n).drop_last() =~= b);
            law_decimal(m / 10, n / 10);
            assert(decimal(m).last() == digit(m % 10));
            assert(decimal(n).last() == digit(n % 10));
        } else if m >= 10 {
            lemma_decimal_digits(m / 10);
            assert(decimal(m).len() == decimal(m / 10).len() + 1);
        } else if n >= 10 {
            lemma_decimal_digits(n / 10);
            assert(decimal(n).len() == decimal(n / 10).len() + 1);
        } else {
            assert(decimal(m)[0] == digit(m) && decimal(n)[0] == digit(n));
        }
    }
}

/// A text that stands in a part of `s` stands in `s`.
pub proof fn lemma_occurs_within(part: Seq<char>, middle: Seq<char>, s: Seq<char>)
    requires
        occurs(part, middle),
        occurs(middle, s),
    ensures
        occurs(part, s),
{
    let i = choose|i: int| stands_at(part, middle, i);
    let j = choose|j: int| stands_at(middle, s, j);
    assert(s.subrange(i + j, i + j + part.len()) =~= part) by {
        assert(s.subrange(j, j + middle.len()).subrange(i, i + part.len()) =~= s.subrange(
            i + j,
            i + j + part.len(),
        ));
    }
    assert(stands_at(part, s, i + j));
}

/// Whether `c` is an ASCII character or a letter of the Russian alphabet.
pub open spec fn plain(c: char) -> bool {
    let n = c as int;
    n < 0x80 || 0x410 <= n <= 0x44f || n == 0x401 || n == 0x451
}

/// Whether `s` is made of ASCII characters and Russian letters.
pub open spec fn plain_text(s: Seq<char>) -> bool {
    forall|i: int| 0 <= i < s.len() ==> plain(#[trigger] s[i])
}

/// The lower case form of an ASCII character or a Russian letter.
pub open spec fn lower_char(c: char) -> char {
    let n = c as int;
    if 0x41 <= n <= 0x5a || 0x410 <= n <= 0x42f {
        (n + 0x20) as char
    } else if n == 0x401 {
        'ё'
    } else {
        c
    }
}

/// The lower case form of a text of ASCII characters and Russian letters.
pub open spec fn lower_text(s: Seq<char>) -> Seq<char> {
    s.map_values(|c: char| lower_char(c))
}

/// `s` up to its first line feed.
pub open spec fn first_line(s: Seq<char>) -> Seq<char>
    decreases s.len(),
{
    if s.len() == 0 || s[0] == '\n' {
        seq![]
    } else {
        seq![s[0]] + first_line(s.skip(1))
    }
}

/// The lower case form of a text, as Unicode has it.
pub uninterp spec fn lowercased(s: Seq<char>) -> Seq<char>;

/// `str::trim`: the part of `s` between its leading and its trailing white
/// space.
#[verifier::external_body]
pub(crate) fn trim(s: &str) -> (r: &str)
    ensures
        r@ == trimmed(s@),
{
    s.trim()
}

/// `str::to_lowercase`: the result is named, since the mapping is a table of
/// Unicode's; it is a function of the text alone. ASCII characters and Russian
/// letters map one to one, and whatever follows does not change how they map.
#[verifier::external_body]
pub(crate) fn to_lowercase(s: &str) -> (r: String)
    ensures
        r@ == lowercased(s@),
        plain_text(s@) ==> r@ == lower_text(s@),
        forall|k: int|
            0 <= k <= s@.len() && plain_text(#[trigger] s@.take(k)) ==> lower_text(
                s@.take(k),
            ).is_prefix_of(r@),
{
    s.to_lowercase()
}

/// `str::contains` with a string as the pattern: whether the pattern matches a
/// sub-slice of `s`.
#[verifier::external_body]
pub(crate) fn contains(s: &str, part: &str) -> (r: bool)
    ensures
        r == occurs(part@, s@),
{
    s.contains(part)
}

/// `str::split_once` with a string as the delimiter: what stands before and
/// after the first occurrence of the delimiter, or `None` where it does not
/// occur.
#[verifier::external_body]
pub(crate) fn split_once<'a>(s: &'a str, delimiter: &str) -> (r: Option<(&'a str, &'a str)>)
    requires
        delimiter@.len() > 0,
    ensures
        match r {
            Some((before, after)) => {
                &&& s@ == before@ + delimiter@ + after@
                &&& forall|i: int| stands_at(delimiter@, s@, i) ==> before@.len() <= i
            },
            None => !occurs(delimiter@, s@),
        },
{
    s.split_once(delimiter)
}

/// `u16::to_string`: the number in decimal.
#[verifier::external_body]
pub(crate) fn u16_to_string(n: u16) -> (r: String)
    ensures
        r@ == decimal(n as nat),
{
    n.to_string()
}

/// Whether two strings hold the same text.
pub(crate) fn same_text(a: &str, b: &str) -> (r: bool)
    ensures
        r == (a@ == b@),
{
    a.to_string() == b.to_string()
}

/// The strings one after the other.
pub(crate) fn joined3(a: &str, b: &str, c: &str) -> (r: String)
    ensures
        r@ == a@ + b@ + c@,
{
    let mut r = a.to_string();
    r.append(b);
    r.append(c);
    r
}

} // verus!

//! The bot's phrases in one language, and how a phrase is filled in.
use crate::text::{joined3, occurs, split_once, stands_at};
use vstd::prelude::*;

verus! {

/// The phrases of one language. A `{}` in a phrase is a hole, which an
/// argument fills.
#[derive(Debug)]
pub struct LocaleStrings {
    pub greeting: String,
    pub status_check: String,
    pub status_check_command: String,
    pub unknown_command: String,
    pub fallback_reply: String,
    pub error_generic: String,
    pub weather_request_city: String,
    pub weather_fetch_error: String,
    pub weather_response: String,
    pub time_request_city: String,
    pub time_fetch_error: String,
    pub time_response: String,
    pub time_zone_not_found: String,
    pub time_zone_parse_error: String,
    pub time_server_response: String,
    pub time_city_suggestion: String,
    pub about_text: String,
    pub help_extra: String,
}

/// What marks a hole in a phrase.
pub open spec fn hole() -> Seq<char> {
    seq!['{', '}']
}

/// Whether a hole stands in `s` at position `i`.
pub open spec fn hole_at(s: Seq<char>, i: int) -> bool {
    stands_at(hole(), s, i)
}

/// Whether `s` has a hole.
pub open spec fn has_hole(s: Seq<char>) -> bool {
    exists|i: int| hole_at(s, i)
}

/// Whether the leftmost hole of `s` stands at position `i`.
pub open spec fn first_hole(s: Seq<char>, i: int) -> bool {
    &&& hole_at(s, i)
    &&& forall|j: int| hole_at(s, j) ==> i <= j
}

/// `s` with `a` in place of the hole at position `i`.
pub open spec fn plugged(s: Seq<char>, i: int, a: Seq<char>) -> Seq<char> {
    s.take(i) + a + s.skip(i + 2)
}

/// `s` after each argument in turn has been put in place of the leftmost hole
/// there is by then. Arguments for which no hole is left are dropped.
pub open spec fn filled(s: Seq<char>, args: Seq<Seq<char>>) -> Seq<char>
    decreases args.len(),
{
    if args.len() > 0 && has_hole(s) {
        let i = choose|i: int| first_hole(s, i);
        filled(plugged(s, i, args[0]), args.skip(1))
    } else {
        s
    }
}

/// What the strings of a list hold.
pub open spec fn texts(list: Seq<&str>) -> Seq<Seq<char>> {
    list.map_values(|t: &str| t@)
}

/// The pieces behind the one at position `n`, each with a hole before it.
pub open spec fn pieces_after(pieces: Seq<Seq<char>>, n: int) -> Seq<char>
    decreases pieces.len() - n,
{
    if n + 1 >= pieces.len() {
        seq![]
    } else {
        hole() + pieces[n + 1] + pieces_after(pieces, n + 1)
    }
}

/// The pieces with a hole between every two of them.
pub open spec fn template(pieces: Seq<Seq<char>>) -> Seq<char> {
    pieces[0] + pieces_after(pieces, 0)
}

/// The first `n + 1` pieces with the first `n` arguments between them.
pub open spec fn woven(pieces: Seq<Seq<char>>, args: Seq<Seq<char>>, n: int) -> Seq<char>
    decreases n,
{
    if n <= 0 {
        pieces[0]
    } else {
        woven(pieces, args, n - 1) + args[n - 1] + pieces[n]
    }
}

proof fn lemma_first_hole_exists(s: Seq<char>, i: int)
    requires
        hole_at(s, i),
    ensures
        exists|k: int| first_hole(s, k),
    decreases i,
{
    if exists|j: int| hole_at(s, j) && j < i {
        let j = choose|j: int| hole_at(s, j) && j < i;
        lemma_first_hole_exists(s, j);
    } else {
        assert(first_hole(s, i));
    }
}

/// The leftmost hole is the one that `filled` fills.
proof fn lemma_filled_step(s: Seq<char>, i: int, args: Seq<Seq<char>>)
    requires
        first_hole(s, i),
        args.len() > 0,
    ensures
        filled(s, args) == filled(plugged(s, i, args[0]), args.skip(1)),
{
    let k = choose|k: int| first_hole(s, k);
    assert(first_hole(s, k));
    assert(k == i);
}

/// A hole that stands behind a text without holes is the leftmost one.
proof fn lemma_hole_behind(before: Seq<char>, after: Seq<char>)
    requires
        !has_hole(before),
    ensures
        first_hole(before + hole() + after, before.len() as int),
{
    let s = before + hole() + after;
    let n = before.len() as int;
    assert(s.subrange(n, n + 2) =~= hole());
    assert forall|j: int| hole_at(s, j) implies n <= j by {
        if j < n {
            assert(s.subrange(j, j + 2)[0] == s[j]);
            assert(s.subrange(j, j + 2)[1] == s[j + 1]);
            if j + 1 < n {
                assert(before.subrange(j, j + 2) =~= hole());
                assert(hole_at(before, j));
            } else {
                assert(s[j + 1] == '{');
            }
        }
    }
}

/// Filling puts the next argument in place of the leftmost hole, and goes on
/// with the rest of the arguments on the text that this gives.
pub proof fn law_next_argument(before: Seq<char>, after: Seq<char>, args: Seq<Seq<char>>)
    requires
        !has_hole(before),
        args.len() > 0,
    ensures
        filled(before + hole() + after, args) == filled(before + args[0] + after, args.skip(1)),
{
    let s = before + hole() + after;
    let n = before.len() as int;
    lemma_hole_behind(before, after);
    lemma_filled_step(s, n, args);
    assert(plugged(s, n, args[0]) =~= before + args[0] + after);
}

/// One argument for a phrase takes the place of its leftmost hole, whatever the
/// argument holds.
pub proof fn law_single_argument(before: Seq<char>, after: Seq<char>, arg: Seq<char>)
    requires
        !has_hole(before),
    ensures
        filled(before + hole() + after, seq![arg]) == before + arg + after,
{
    law_next_argument(before, after, seq![arg]);
}

/// A phrase without holes stays as it is, whatever the arguments.
pub proof fn law_no_holes(s: Seq<char>, args: Seq<Seq<char>>)
    requires
        !has_hole(s),
    ensures
        filled(s, args) == s,
{
}

/// A hole is a pair of braces, and a phrase has one where such a pair stands in
/// it.
pub proof fn law_hole(s: Seq<char>)
    ensures
        hole() == "{}"@,
        has_hole(s) <==> occurs("{}"@, s),
{
    reveal_strlit("{}");
    assert(hole() =~= "{}"@);
    if has_hole(s) {
        let i = choose|i: int| hole_at(s, i);
        assert(stands_at("{}"@, s, i));
    }
    if occurs("{}"@, s) {
        let i = choose|i: int| stands_at("{}"@, s, i);
        assert(hole_at(s, i));
    }
}

/// Without arguments a phrase stays as it is, holes and all.
pub proof fn law_no_arguments(s: Seq<char>)
    ensures
        filled(s, seq![]) == s,
{
}

/// Two arguments fill two holes in order, each as it is.
pub proof fn law_two_arguments(
    a: Seq<char>,
    b: Seq<char>,
    c: Seq<char>,
    x: Seq<char>,
    y: Seq<char>,
)
    requires
        !has_hole(a),
        !has_hole(a + x + b),
    ensures
        filled(a + hole() + b + hole() + c, seq![x, y]) == a + x + b + y + c,
{
    let args = seq![x, y];
    assert(a + hole() + b + hole() + c =~= a + hole() + (b + hole() + c));
    law_next_argument(a, b + hole() + c, args);
    assert(a + x + (b + hole() + c) =~= a + x + b + hole() + c);
    assert(args.skip(1) =~= seq![y]);
    law_single_argument(a + x + b, c, y);
}

/// Three arguments fill three holes in order, each as it is.
pub proof fn law_three_arguments(
    a: Seq<char>,
    b: Seq<char>,
    c: Seq<char>,
    d: Seq<char>,
    x: Seq<char>,
    y: Seq<char>,
    z: Seq<char>,
)
    requires
        !has_hole(a),
        !has_hole(a + x + b),
        !has_hole(a + x + b + y + c),
    ensures
        filled(a + hole() + b + hole() + c + hole() + d, seq![x, y, z]) == a + x + b + y + c + z
            + d,
{
    let args = seq![x, y, z];
    let rest = b + hole() + c + hole() + d;
    assert(a + hole() + b + hole() + c + hole() + d =~= a + hole() + rest);
    law_next_argument(a, rest, args);
    assert(a + x + rest =~= (a + x + b) + hole() + c + hole() + d);
    assert(args.skip(1) =~= seq![y, z]);
    law_two_arguments(a + x + b, c, d, y, z);
}

/// The texts of a list are those of its strings, one for one.
pub proof fn law_texts(list: Seq<&str>)
    ensures
        texts(list).len() == list.len(),
        forall|i: int| 0 <= i < list.len() ==> #[trigger] texts(list)[i] == list[i]@,
{
}

/// Filling with two lists of arguments, one after the other, is filling with
/// the two lists as one. So holes for which there is no argument yet stay, and
/// arguments for which there is no hole are dropped.
pub proof fn law_filled_in_parts(s: Seq<char>, first: Seq<Seq<char>>, rest: Seq<Seq<char>>)
    ensures
        filled(s, first + rest) == filled(filled(s, first), rest),
    decreases first.len(),
{
    if first.len() == 0 {
        assert(first + rest =~= rest);
    } else if has_hole(s) {
        lemma_first_hole_exists(s, choose|i: int| hole_at(s, i));
        let i = choose|i: int| first_hole(s, i);
        lemma_filled_step(s, i, first);
        lemma_filled_step(s, i, first + rest);
        assert((first + rest).skip(1) =~= first.skip(1) + rest);
        law_filled_in_parts(plugged(s, i, first[0]), first.skip(1), rest);
    }
}

proof fn lemma_holes_from(pieces: Seq<Seq<char>>, args: Seq<Seq<char>>, n: int)
    requires
        0 <= n <= args.len() < pieces.len(),
        forall|k: int| 0 <= k < args.len() ==> !has_hole(#[trigger] woven(pieces, args, k)),
    ensures
        filled(woven(pieces, args, n) + pieces_after(pieces, n), args.skip(n)) == woven(
            pieces,
            args,
            args.len() as int,
        ) + pieces_after(pieces, args.len() as int),
    decreases args.len() - n,
{
    if n < args.len() {
        let before = woven(pieces, args, n);
        let after = pieces[n + 1] + pieces_after(pieces, n + 1);
        assert(before + pieces_after(pieces, n) =~= before + hole() + after);
        law_next_argument(before, after, args.skip(n));
        assert(before + args[n] + after =~= woven(pieces, args, n + 1) + pieces_after(
            pieces,
            n + 1,
        ));
        assert(args.skip(n).skip(1) =~= args.skip(n + 1));
        lemma_holes_from(pieces, args, n + 1);
    }
}

/// The arguments fill the holes of a template in order, and holes for which
/// there is no argument stay. This holds as long as what stands before a hole
/// when its turn comes has no hole of its own, which a piece or an earlier
/// argument may have brought along.
pub proof fn law_holes_in_order(pieces: Seq<Seq<char>>, args: Seq<Seq<char>>)
    requires
        args.len() < pieces.len(),
        forall|n: int| 0 <= n < args.len() ==> !has_hole(#[trigger] woven(pieces, args, n)),
    ensures
        filled(template(pieces), args) == woven(pieces, args, args.len() as int) + pieces_after(
            pieces,
            args.len() as int,
        ),
{
    assert(args.skip(0) =~= args);
    lemma_holes_from(pieces, args, 0);
}

/// The phrase with the arguments in place of its holes: each argument goes
/// where the leftmost hole is when its turn comes.
pub fn format_locale(format_string: &str, args: &[&str]) -> (r: String)
    ensures
        r@ == filled(format_string@, texts(args@)),
{
    let mut result = format_string.to_string();
    let mut k: usize = 0;
    assert(texts(args@).skip(0) =~= texts(args@));
    while k < args.len()
        invariant
            k <= args.len(),
            filled(result@, texts(args@).skip(k as int)) == filled(format_string@, texts(args@)),
        decreases args.len() - k,
    {
        let ghost before_step = result@;
        let ghost rest = texts(args@).skip(k as int);
        proof {
            reveal_strlit("{}");
            assert("{}"@ =~= hole());
        }
        match split_once(result.as_str(), "{}") {
            Some((before, after)) => {
                proof {
                    let i = before@.len() as int;
                    assert(before_step.subrange(i, i + 2) =~= hole());
                    assert(first_hole(before_step, i));
                    lemma_filled_step(before_step, i, rest);
                    assert(plugged(before_step, i, rest[0]) =~= before@ + rest[0] + after@);
                    assert(rest.skip(1) =~= texts(args@).skip(k + 1));
                }
                result = joined3(before, args[k], after);
            },
            None => {
                assert(!has_hole(before_step));
                return result;
            },
        }
        k = k + 1;
    }
    result
}

/// The file that holds the phrases of the language `lang`.
pub fn locale_path(lang: &str) -> (r: String)
    ensures
        r@ == "locales/"@ + lang@ + ".toml"@,
{
    joined3("locales/", lang, ".toml")
}

} // verus!

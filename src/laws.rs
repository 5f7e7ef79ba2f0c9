//! Laws of the command table, proved over the specifications that the
//! executable functions are verified against.
use vstd::prelude::*;

use crate::commands::{before, leftover, BunnyCommand, BunnyCommandTable};
use crate::text::with_space;

verus! {

/// A query equal to a matcher selects that matcher's command with no
/// arguments, unless a matcher earlier in the table already matches it.
pub proof fn lemma_exact_matcher_selects_command(t: BunnyCommandTable, i: int, j: int)
    requires
        t.is_pair(i, j),
        forall|i2: int, j2: int|
            before(i2, j2, i, j) ==> !#[trigger] t.hits(i2, j2, t.matcher_at(i, j)),
    ensures
        t.match_spec(t.matcher_at(i, j)) == Some((t.commands@[i], Seq::<char>::empty())),
{
    let m = t.matcher_at(i, j);
    assert(t.is_first_hit(i, j, m));
    t.lemma_first_hit_unique(m, i, j);
}

/// A matcher, one space and a non-empty argument string that does not start
/// with a space select that matcher's command, with the argument string
/// handed on whole, unless a matcher earlier in the table already matches.
pub proof fn lemma_matcher_with_args_selects_command(
    t: BunnyCommandTable,
    i: int,
    j: int,
    args: Seq<char>,
)
    requires
        t.is_pair(i, j),
        args.len() > 0,
        args[0] != ' ',
        forall|i2: int, j2: int|
            before(i2, j2, i, j) ==> !#[trigger] t.hits(
                i2,
                j2,
                with_space(t.matcher_at(i, j)) + args,
            ),
    ensures
        t.match_spec(with_space(t.matcher_at(i, j)) + args) == Some((t.commands@[i], args)),
{
    let m = t.matcher_at(i, j);
    let q = with_space(m) + args;
    assert(q.len() != m.len());
    assert(q.subrange(0, m.len() as int + 1) =~= with_space(m));
    assert(q.subrange(m.len() as int + 1, q.len() as int) =~= args);
    assert(leftover(m, q) == Some(args));
    assert(t.is_first_hit(i, j, q));
    t.lemma_first_hit_unique(q, i, j);
}

/// A matcher that is a strict prefix of the query, not followed there by a
/// space, does not match it.
pub proof fn lemma_prefix_without_space_misses(t: BunnyCommandTable, i: int, j: int, q: Seq<char>)
    requires
        t.is_pair(i, j),
        t.matcher_at(i, j).len() < q.len(),
        t.matcher_at(i, j).is_prefix_of(q),
        q[t.matcher_at(i, j).len() as int] != ' ',
    ensures
        !t.hits(i, j, q),
        t.first_hit(q) != Some((i, j)),
{
    let m = t.matcher_at(i, j);
    assert(q != m);
    if with_space(m).is_prefix_of(q) {
        assert(q[m.len() as int] == with_space(m)[m.len() as int]);
    }
}

/// When two commands share a matcher, matching that token never selects the
/// later one; it selects the earlier one unless a matcher before that one
/// already matches.
pub proof fn lemma_earlier_command_wins(t: BunnyCommandTable, i1: int, j1: int, i2: int, j2: int)
    requires
        t.is_pair(i1, j1),
        t.is_pair(i2, j2),
        i1 < i2,
        t.matcher_at(i1, j1) == t.matcher_at(i2, j2),
    ensures
        t.first_hit(t.matcher_at(i2, j2)) matches Some((i, j)) && i <= i1 && i != i2,
        (forall|a: int, b: int|
            before(a, b, i1, j1) ==> !#[trigger] t.hits(a, b, t.matcher_at(i1, j1))) ==> t.match_spec(
            t.matcher_at(i2, j2),
        ) == Some((t.commands@[i1], Seq::<char>::empty())),
{
    let m = t.matcher_at(i1, j1);
    assert(t.hits(i1, j1, m));
    t.lemma_first_hit_exists(m, i1, j1);
    if forall|a: int, b: int| before(a, b, i1, j1) ==> !#[trigger] t.hits(a, b, m) {
        lemma_exact_matcher_selects_command(t, i1, j1);
    }
}

/// Filtering by a predicate that holds everywhere keeps the sequence.
proof fn lemma_filter_keeps_all(s: Seq<(BunnyCommand, Seq<char>)>, f: spec_fn((BunnyCommand, Seq<char>)) -> bool)
    requires
        forall|x: (BunnyCommand, Seq<char>)| #[trigger] f(x),
    ensures
        s.filter(f) == s,
    decreases s.len(),
{
    reveal(Seq::filter);
    if s.len() > 0 {
        lemma_filter_keeps_all(s.drop_last(), f);
        assert(s.drop_last().push(s.last()) =~= s);
    }
}

/// The completions of the empty string are all matchers of the table, in
/// table order.
pub proof fn lemma_complete_empty_is_all(t: BunnyCommandTable)
    ensures
        t.completion_spec(Seq::empty()) == t.pairs(),
{
    let f = crate::commands::completes(Seq::empty());
    assert forall|x: (BunnyCommand, Seq<char>)| #[trigger] f(x) by {
        assert(Seq::<char>::empty().is_prefix_of(x.1));
    }
    lemma_filter_keeps_all(t.pairs(), f);
}

/// The completions of `p` are the table's pairs whose matcher starts with
/// `p`, in table order: each of them starts with `p`, each comes from the
/// table, and no pair of the table that starts with `p` is left out.
pub proof fn lemma_completions_are_prefix_matches(t: BunnyCommandTable, p: Seq<char>)
    ensures
        t.completion_spec(p) == t.pairs().filter(crate::commands::completes(p)),
        forall|k: int|
            0 <= k < t.completion_spec(p).len() ==> p.is_prefix_of(
                (#[trigger] t.completion_spec(p)[k]).1,
            ) && t.pairs().contains(t.completion_spec(p)[k]),
        forall|k: int|
            0 <= k < t.pairs().len() && p.is_prefix_of((#[trigger] t.pairs()[k]).1)
                ==> t.completion_spec(p).contains(t.pairs()[k]),
{
    let f = crate::commands::completes(p);
    let s = t.pairs();
    assert forall|k: int| 0 <= k < s.filter(f).len() implies p.is_prefix_of(
        (#[trigger] s.filter(f)[k]).1,
    ) && s.contains(s.filter(f)[k]) by {
        s.lemma_filter_pred(f, k);
        assert(s.filter(f).contains(s.filter(f)[k]));
        s.lemma_filter_contains_rev(f, s.filter(f)[k]);
    }
    assert forall|k: int| 0 <= k < s.len() && p.is_prefix_of((#[trigger] s[k]).1) implies s.filter(
        f,
    ).contains(s[k]) by {
        s.lemma_filter_contains(f, k);
    }
}

/// A query that no command matches goes to the fallback, which receives the
/// whole query as its arguments.
pub proof fn lemma_fallback_gets_whole_query(t: BunnyCommandTable, q: Seq<char>)
    requires
        t.match_spec(q) is None,
        t.fallback is Some,
    ensures
        t.dispatch_spec(Some(q)) == Some(t.fallback->0.destination.resolve(q)),
{
}

/// Without a match and without a fallback, or without a query, dispatch
/// gives the not-found outcome.
pub proof fn lemma_no_match_no_fallback_not_found(t: BunnyCommandTable, q: Seq<char>)
    requires
        t.match_spec(q) is None,
        t.fallback is None,
    ensures
        t.dispatch_spec(Some(q)) is None,
        t.dispatch_spec(None) is None,
{
}

} // verus!

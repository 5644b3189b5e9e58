use vstd::prelude::*;
use crate::text::{chars_of, string_views};

verus! {

/// Whether `a` comes before `b` or equals it, character by character
/// (the order of `str`, as UTF-8 keeps the order of code points).
pub open spec fn lex_le(a: Seq<char>, b: Seq<char>) -> bool
    decreases a.len(),
{
    if a.len() == 0 {
        true
    } else if b.len() == 0 {
        false
    } else if a[0] != b[0] {
        a[0] < b[0]
    } else {
        lex_le(a.drop_first(), b.drop_first())
    }
}

/// Of two names, one comes before the other or equals it.
pub proof fn lemma_lex_total(a: Seq<char>, b: Seq<char>)
    ensures
        lex_le(a, b) || lex_le(b, a),
    decreases a.len(),
{
    if a.len() > 0 && b.len() > 0 && a[0] == b[0] {
        lemma_lex_total(a.drop_first(), b.drop_first());
    }
}

/// The order of names is transitive.
pub proof fn lemma_lex_transitive(a: Seq<char>, b: Seq<char>, c: Seq<char>)
    requires
        lex_le(a, b),
        lex_le(b, c),
    ensures
        lex_le(a, c),
    decreases a.len(),
{
    if a.len() > 0 && b.len() > 0 && c.len() > 0 && a[0] == b[0] && b[0] == c[0] {
        lemma_lex_transitive(a.drop_first(), b.drop_first(), c.drop_first());
    }
}

fn lex_le_exec(a: &Vec<char>, b: &Vec<char>) -> (r: bool)
    ensures
        r == lex_le(a@, b@),
{
    let mut i: usize = 0;
    assert(a@.skip(0) =~= a@);
    assert(b@.skip(0) =~= b@);
    while i < a.len() && i < b.len()
        invariant
            i <= a@.len(),
            i <= b@.len(),
            forall|j: int| 0 <= j < i ==> a@[j] == b@[j],
            lex_le(a@, b@) == lex_le(a@.skip(i as int), b@.skip(i as int)),
        decreases a@.len() - i,
    {
        if a[i] != b[i] {
            assert(a@.skip(i as int)[0] == a@[i as int]);
            assert(b@.skip(i as int)[0] == b@[i as int]);
            return a[i] < b[i];
        }
        assert(a@.skip(i as int).drop_first() =~= a@.skip(i + 1));
        assert(b@.skip(i as int).drop_first() =~= b@.skip(i + 1));
        i = i + 1;
    }
    i == a.len()
}

/// Whether the names are in order.
pub open spec fn names_sorted(s: Seq<Seq<char>>) -> bool {
    forall|i: int| 0 <= i < s.len() - 1 ==> lex_le(#[trigger] s[i], s[i + 1])
}

/// Sorts names in their order (`sort` of `str`), keeping every name.
pub fn sort_names(names: Vec<String>) -> (r: Vec<String>)
    ensures
        names_sorted(string_views(r@)),
        string_views(r@).to_multiset() == string_views(names@).to_multiset(),
{
    broadcast use vstd::seq_lib::group_to_multiset_ensures;
    let ghost all = names@;
    let mut rest = names;
    let mut out: Vec<String> = Vec::new();
    let mut keys: Vec<Vec<char>> = Vec::new();
    while rest.len() > 0
        invariant
            keys@.len() == out@.len(),
            forall|i: int| 0 <= i < keys@.len() ==> (#[trigger] keys@[i])@ == out@[i]@,
            names_sorted(string_views(out@)),
            string_views(out@).to_multiset().add(string_views(rest@).to_multiset())
                == string_views(all).to_multiset(),
        decreases rest@.len(),
    {
        let ghost before_rest = rest@;
        let ghost before_out = string_views(out@);
        let x = rest.pop().unwrap();
        proof {
            assert(before_rest == rest@.push(x));
            assert(string_views(before_rest) =~= string_views(rest@).push(x@));
            vstd::seq_lib::to_multiset_build(string_views(rest@), x@);
        }
        let k = chars_of(x.as_str());
        let mut p = out.len();
        while p > 0 && !lex_le_exec(&keys[p - 1], &k)
            invariant
                p <= out@.len(),
                keys@.len() == out@.len(),
                forall|i: int| 0 <= i < keys@.len() ==> (#[trigger] keys@[i])@ == out@[i]@,
                k@ == x@,
                p < out@.len() ==> !lex_le(out@[p as int]@, x@),
            decreases p,
        {
            p = p - 1;
        }
        let ghost before = string_views(out@);
        proof {
            if p < out@.len() {
                lemma_lex_total(out@[p as int]@, x@);
            }
        }
        out.insert(p, x);
        keys.insert(p, k);
        proof {
            assert(string_views(out@) =~= before.insert(p as int, x@));
            vstd::seq_lib::to_multiset_insert(before, p as int, x@);
            assert(string_views(out@).to_multiset().add(string_views(rest@).to_multiset())
                =~= before_out.to_multiset().add(string_views(before_rest).to_multiset()));
            assert forall|i: int| 0 <= i < string_views(out@).len() - 1 implies lex_le(
                #[trigger] string_views(out@)[i],
                string_views(out@)[i + 1],
            ) by {
                if i + 1 < p {
                    assert(lex_le(before[i], before[i + 1]));
                } else if i + 1 == p {
                } else if i == p {
                } else {
                    assert(lex_le(before[i - 1], before[i]));
                }
            }
            assert forall|i: int| 0 <= i < keys@.len() implies (#[trigger] keys@[i])@ == out@[i]@ by {
                if i < p {
                } else if i == p {
                } else {
                }
            }
        }
    }
    proof {
        assert(string_views(rest@) =~= Seq::<Seq<char>>::empty());
    }
    out
}

} // verus!

verus! {

/// Whether `regex` matches `text` somewhere; none when `pattern` is not a
/// regular expression that `regex` accepts.
pub uninterp spec fn regex_match_result(pattern: Seq<char>, text: Seq<char>) -> Option<bool>;

/// `regex::Regex::new(pattern)` and then `Regex::is_match(text)`; none when
/// `Regex::new` returns an error. What a pattern matches is named, not
/// stated.
#[verifier::external_body]
fn regex_is_match(pattern: &str, text: &str) -> (r: Option<bool>)
    ensures
        r == regex_match_result(pattern@, text@),
{
    match regex::Regex::new(pattern) {
        Ok(re) => Some(re.is_match(text)),
        Err(_) => None,
    }
}

/// The names that `pattern` matches, in their order.
pub open spec fn matching(names: Seq<Seq<char>>, pattern: Seq<char>) -> Seq<Seq<char>> {
    names.filter(|n: Seq<char>| regex_match_result(pattern, n) == Some(true))
}

/// The names whose flag is set, in their order.
pub open spec fn kept(names: Seq<Seq<char>>, flags: Seq<bool>) -> Seq<Seq<char>>
    decreases names.len(),
{
    if names.len() == 0 || flags.len() == 0 {
        Seq::empty()
    } else {
        let rest = kept(names.drop_last(), flags.drop_last());
        if flags.last() {
            rest.push(names.last())
        } else {
            rest
        }
    }
}

proof fn lemma_kept_filter(names: Seq<Seq<char>>, flags: Seq<bool>, pred: spec_fn(Seq<char>) -> bool)
    requires
        names.len() == flags.len(),
        forall|i: int| 0 <= i < names.len() ==> flags[i] == pred(#[trigger] names[i]),
    ensures
        kept(names, flags) == names.filter(pred),
    decreases names.len(),
{
    reveal_with_fuel(Seq::<_>::filter, 1);
    if names.len() > 0 {
        let n = names.len() - 1;
        assert(flags[n] == pred(names[n]));
        lemma_kept_filter(names.drop_last(), flags.drop_last(), pred);
    }
}

/// Keeps the names whose flag is set, in their order.
pub fn keep_matched(names: Vec<String>, matched: &Vec<bool>) -> (r: Vec<String>)
    requires
        names@.len() == matched@.len(),
    ensures
        string_views(r@) == kept(string_views(names@), matched@),
{
    let ghost all = names@;
    let mut rest = names;
    let mut rev: Vec<String> = Vec::new();
    while rest.len() > 0
        invariant
            all == rest@ + rev@.reverse(),
        decreases rest@.len(),
    {
        let ghost before = rest@;
        let x = rest.pop().unwrap();
        assert(before == rest@.push(x));
        rev.push(x);
        assert(rev@.reverse() =~= seq![x] + rev@.drop_last().reverse()) by {
            assert(rev@.drop_last().push(x) == rev@);
        }
        assert(all =~= rest@ + rev@.reverse());
    }
    assert(all =~= rev@.reverse());
    let mut out: Vec<String> = Vec::new();
    let mut k: usize = 0;
    proof {
        vstd::std_specs::vec::axiom_spec_len(matched);
    }
    while rev.len() > 0
        invariant
            all.len() == matched@.len(),
            matched@.len() <= usize::MAX,
            k + rev@.len() == all.len(),
            rev@.reverse() == all.skip(k as int),
            string_views(out@) == kept(string_views(all.take(k as int)), matched@.take(k as int)),
        decreases rev@.len(),
    {
        let ghost before = rev@;
        let x = rev.pop().unwrap();
        proof {
            assert(before == rev@.push(x));
            assert(before.reverse()[0] == x);
            assert(all.skip(k as int)[0] == all[k as int]);
            assert(before.reverse() =~= seq![x] + rev@.reverse());
            assert((seq![x] + rev@.reverse()).drop_first() =~= rev@.reverse());
            assert(all.skip(k as int).drop_first() =~= all.skip(k + 1));
            assert(string_views(all.take(k + 1)).drop_last() =~= string_views(all.take(k as int)));
            assert(matched@.take(k + 1).drop_last() =~= matched@.take(k as int));
            assert(string_views(all.take(k + 1)).last() == x@);
        }
        let ghost before_out = string_views(out@);
        if matched[k] {
            out.push(x);
            assert(string_views(out@) =~= before_out.push(x@));
        }
        k = k + 1;
    }
    assert(all.take(k as int) =~= all);
    assert(matched@.take(k as int) =~= matched@);
    out
}

/// Keeps the names that `pattern` matches, in their order; none when the
/// pattern is not accepted.
pub fn filter_matching(names: Vec<String>, pattern: &str) -> (r: Option<Vec<String>>)
    ensures
        r is None <==> exists|i: int|
            0 <= i < names@.len() && regex_match_result(pattern@, #[trigger] names@[i]@) is None,
        r matches Some(v) ==> string_views(v@) == matching(string_views(names@), pattern@),
{
    let ghost pred = |n: Seq<char>| regex_match_result(pattern@, n) == Some(true);
    let mut flags: Vec<bool> = Vec::new();
    let mut i: usize = 0;
    while i < names.len()
        invariant
            i <= names@.len(),
            flags@.len() == i,
            forall|j: int|
                0 <= j < i ==> regex_match_result(pattern@, #[trigger] names@[j]@) is Some && flags@[j] == (
                regex_match_result(pattern@, names@[j]@) == Some(true)),
        decreases names@.len() - i,
    {
        match regex_is_match(pattern, names[i].as_str()) {
            None => return None,
            Some(m) => flags.push(m),
        }
        i = i + 1;
    }
    proof {
        assert forall|j: int| 0 <= j < flags@.len() implies flags@[j] == pred(
            #[trigger] string_views(names@)[j],
        ) by {
            assert(string_views(names@)[j] == names@[j]@);
        }
        lemma_kept_filter(string_views(names@), flags@, pred);
    }
    Some(keep_matched(names, &flags))
}

/// The names that `pattern` matches, sorted (the listing of a directory's
/// entries whose names match); none when the pattern is not accepted.
pub fn sorted_ls_matches_regex(names: Vec<String>, pattern: &str) -> (r: Option<Vec<String>>)
    ensures
        r is None <==> exists|i: int|
            0 <= i < names@.len() && regex_match_result(pattern@, #[trigger] names@[i]@) is None,
        r matches Some(v) ==> names_sorted(string_views(v@)) && string_views(v@).to_multiset()
            == matching(string_views(names@), pattern@).to_multiset(),
{
    match filter_matching(names, pattern) {
        None => None,
        Some(v) => Some(sort_names(v)),
    }
}

} // verus!

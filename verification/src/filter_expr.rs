use vstd::prelude::*;
use crate::records::NewVideoInfo;
use crate::text::{str_equals, string_views};

verus! {

/// A condition on the tags of a video, as the sort program reads it from its
/// arguments.
#[derive(Debug)]
pub enum FilterExpr {
    /// The inner condition does not hold.
    Not(Box<FilterExpr>),
    /// The video has this tag.
    InTags(String),
    /// Both conditions hold.
    And(Box<FilterExpr>, Box<FilterExpr>),
    /// Either condition holds.
    Or(Box<FilterExpr>, Box<FilterExpr>),
}

/// The abstract form of a `FilterExpr`.
pub enum FilterTerm {
    Not(Box<FilterTerm>),
    InTags(Seq<char>),
    And(Box<FilterTerm>, Box<FilterTerm>),
    Or(Box<FilterTerm>, Box<FilterTerm>),
}

impl View for FilterExpr {
    type V = FilterTerm;

    open spec fn view(&self) -> FilterTerm
        decreases self,
    {
        match self {
            FilterExpr::Not(e) => FilterTerm::Not(Box::new((**e).view())),
            FilterExpr::InTags(t) => FilterTerm::InTags(t@),
            FilterExpr::And(a, b) => FilterTerm::And(Box::new((**a).view()), Box::new((**b).view())),
            FilterExpr::Or(a, b) => FilterTerm::Or(Box::new((**a).view()), Box::new((**b).view())),
        }
    }
}

/// Whether a video with the tags `tags` meets the condition `f`.
pub open spec fn holds(f: FilterTerm, tags: Seq<Seq<char>>) -> bool
    decreases f,
{
    match f {
        FilterTerm::Not(e) => !holds(*e, tags),
        FilterTerm::InTags(t) => tags.contains(t),
        FilterTerm::And(a, b) => holds(*a, tags) && holds(*b, tags),
        FilterTerm::Or(a, b) => holds(*a, tags) || holds(*b, tags),
    }
}

/// Why the words of a condition were not understood.
#[derive(Clone, Copy, Debug, PartialEq, Eq, Structural)]
pub enum FilterParseError {
    /// A condition was expected after "not", "and" or "or", but the words
    /// ended.
    MissingExpr,
    /// A tag name was expected after "in_tags", but the words ended.
    MissingTagName,
    /// The word at this position is not a keyword that fits there.
    UnknownKeyword(usize),
}

/// How the words from position `pos` on are read: nothing when there are no
/// more words; else "not" and a condition, or "in_tags" and a tag name,
/// which may be followed by "and" or "or" and a condition. A condition after
/// "not", "and" or "or" extends to the end of the words.
pub open spec fn parse_from(t: Seq<Seq<char>>, pos: int) -> Result<Option<FilterTerm>, FilterParseError>
    decreases t.len() - pos,
{
    if pos < 0 || pos >= t.len() {
        Ok(None)
    } else if t[pos] == "not"@ {
        match parse_from(t, pos + 1) {
            Err(e) => Err(e),
            Ok(None) => Err(FilterParseError::MissingExpr),
            Ok(Some(inner)) => Ok(Some(FilterTerm::Not(Box::new(inner)))),
        }
    } else if t[pos] == "in_tags"@ {
        if pos + 1 >= t.len() {
            Err(FilterParseError::MissingTagName)
        } else {
            let f = FilterTerm::InTags(t[pos + 1]);
            if pos + 2 >= t.len() {
                Ok(Some(f))
            } else if t[pos + 2] == "and"@ || t[pos + 2] == "or"@ {
                match parse_from(t, pos + 3) {
                    Err(e) => Err(e),
                    Ok(None) => Err(FilterParseError::MissingExpr),
                    Ok(Some(g)) => if t[pos + 2] == "and"@ {
                        Ok(Some(FilterTerm::And(Box::new(f), Box::new(g))))
                    } else {
                        Ok(Some(FilterTerm::Or(Box::new(f), Box::new(g))))
                    },
                }
            } else {
                Err(FilterParseError::UnknownKeyword((pos + 2) as usize))
            }
        }
    } else {
        Err(FilterParseError::UnknownKeyword(pos as usize))
    }
}

fn parse_expr(tokens: &Vec<String>, pos: usize) -> (r: Result<Option<FilterExpr>, FilterParseError>)
    requires
        pos <= tokens@.len(),
    ensures
        match (r, parse_from(string_views(tokens@), pos as int)) {
            (Ok(None), Ok(None)) => true,
            (Ok(Some(e)), Ok(Some(t))) => e@ == t,
            (Err(a), Err(b)) => a == b,
            _ => false,
        },
    decreases tokens@.len() - pos,
{
    let ghost t = string_views(tokens@);
    if pos >= tokens.len() {
        return Ok(None);
    }
    let key = tokens[pos].as_str();
    assert(t[pos as int] == key@);
    if str_equals(key, "not") {
        match parse_expr(tokens, pos + 1) {
            Err(e) => Err(e),
            Ok(None) => Err(FilterParseError::MissingExpr),
            Ok(Some(inner)) => Ok(Some(FilterExpr::Not(Box::new(inner)))),
        }
    } else if str_equals(key, "in_tags") {
        if pos + 1 >= tokens.len() {
            return Err(FilterParseError::MissingTagName);
        }
        let tag = tokens[pos + 1].clone();
        let f = FilterExpr::InTags(tag);
        assert(f@ == FilterTerm::InTags(t[pos + 1]));
        if pos + 2 >= tokens.len() {
            return Ok(Some(f));
        }
        let op = tokens[pos + 2].as_str();
        assert(t[pos + 2] == op@);
        let is_and = str_equals(op, "and");
        let is_or = str_equals(op, "or");
        if is_and || is_or {
            match parse_expr(tokens, pos + 3) {
                Err(e) => Err(e),
                Ok(None) => Err(FilterParseError::MissingExpr),
                Ok(Some(g)) => if is_and {
                    Ok(Some(FilterExpr::And(Box::new(f), Box::new(g))))
                } else {
                    Ok(Some(FilterExpr::Or(Box::new(f), Box::new(g))))
                },
            }
        } else {
            Err(FilterParseError::UnknownKeyword(pos + 2))
        }
    } else {
        Err(FilterParseError::UnknownKeyword(pos))
    }
}

/// Reads a condition from the words of the sort program's arguments; none
/// when there are no words. The words must make a condition (see
/// `parse_from`); `try_parse` says why they do not.
pub fn parse(tokens: &Vec<String>) -> (r: Option<FilterExpr>)
    requires
        parse_from(string_views(tokens@), 0) is Ok,
    ensures
        match (r, parse_from(string_views(tokens@), 0)) {
            (None, Ok(None)) => true,
            (Some(e), Ok(Some(t))) => e@ == t,
            _ => false,
        },
{
    match parse_expr(tokens, 0) {
        Ok(r) => r,
        Err(_) => None,
    }
}

/// Reads a condition from the words of the sort program's arguments; none
/// when there are no words, and the reason when the words make no condition.
pub fn try_parse(tokens: &Vec<String>) -> (r: Result<Option<FilterExpr>, FilterParseError>)
    ensures
        match (r, parse_from(string_views(tokens@), 0)) {
            (Ok(None), Ok(None)) => true,
            (Ok(Some(e)), Ok(Some(t))) => e@ == t,
            (Err(a), Err(b)) => a == b,
            _ => false,
        },
{
    parse_expr(tokens, 0)
}

fn has_tag(tags: &Vec<String>, tag: &String) -> (r: bool)
    ensures
        r == string_views(tags@).contains(tag@),
{
    let mut i: usize = 0;
    while i < tags.len()
        invariant
            i <= tags@.len(),
            forall|j: int| 0 <= j < i ==> tags@[j]@ != tag@,
        decreases tags@.len() - i,
    {
        if str_equals(tags[i].as_str(), tag.as_str()) {
            assert(string_views(tags@)[i as int] == tag@);
            return true;
        }
        i = i + 1;
    }
    assert forall|j: int| 0 <= j < tags@.len() implies string_views(tags@)[j] != tag@ by {}
    false
}

impl FilterExpr {
    /// Whether a video with these tags meets the condition.
    pub fn matches(&self, tags: &Vec<String>) -> (r: bool)
        ensures
            r == holds(self@, string_views(tags@)),
            self matches FilterExpr::InTags(t) ==> (r <==> string_views(tags@).contains(t@)),
            self matches FilterExpr::Not(e) ==> (r <==> !holds(e@, string_views(tags@))),
            self matches FilterExpr::And(a, b) ==> (r <==> holds(a@, string_views(tags@)) && holds(
                b@,
                string_views(tags@),
            )),
            self matches FilterExpr::Or(a, b) ==> (r <==> holds(a@, string_views(tags@)) || holds(
                b@,
                string_views(tags@),
            )),
        decreases self,
    {
        match self {
            FilterExpr::Not(e) => !e.matches(tags),
            FilterExpr::InTags(t) => has_tag(tags, t),
            FilterExpr::And(a, b) => a.matches(tags) && b.matches(tags),
            FilterExpr::Or(a, b) => a.matches(tags) || b.matches(tags),
        }
    }
}

/// The videos that meet `f`, in order.
pub open spec fn meeting(videos: Seq<NewVideoInfo>, f: FilterTerm) -> Seq<NewVideoInfo> {
    videos.filter(|v: NewVideoInfo| holds(f, string_views(v.tags@)))
}

/// Keeps the videos that meet `f`, in their order (`Vec::retain`).
pub fn retain_matching(videos: Vec<NewVideoInfo>, f: &FilterExpr) -> (r: Vec<NewVideoInfo>)
    ensures
        r@ == meeting(videos@, f@),
{
    let ghost all = videos@;
    let mut v = videos;
    let mut rev: Vec<NewVideoInfo> = Vec::new();
    while v.len() > 0
        invariant
            all == v@ + rev@.reverse(),
        decreases v@.len(),
    {
        let ghost before = v@;
        let x = v.pop().unwrap();
        assert(before == v@.push(x));
        rev.push(x);
        assert(rev@.reverse() =~= seq![x] + rev@.drop_last().reverse()) by {
            assert(rev@.drop_last().push(x) == rev@);
        }
        assert(all =~= v@ + rev@.reverse());
    }
    assert(all =~= rev@.reverse());
    let mut out: Vec<NewVideoInfo> = Vec::new();
    let ghost pred = |v: NewVideoInfo| holds(f@, string_views(v.tags@));
    while rev.len() > 0
        invariant
            all.len() >= rev@.len(),
            rev@.reverse() == all.skip(all.len() - rev@.len()),
            out@ == all.take(all.len() - rev@.len()).filter(pred),
            pred == (|v: NewVideoInfo| holds(f@, string_views(v.tags@))),
        decreases rev@.len(),
    {
        let ghost k = all.len() - rev@.len();
        let ghost before = rev@;
        let x = rev.pop().unwrap();
        proof {
            assert(before == rev@.push(x));
            assert(before.reverse()[0] == x);
            assert(all.skip(k)[0] == all[k]);
            assert(before.reverse() =~= seq![x] + rev@.reverse());
            assert((seq![x] + rev@.reverse()).drop_first() =~= rev@.reverse());
            assert(all.skip(k).drop_first() =~= all.skip(k + 1));
            assert(rev@.reverse() =~= all.skip(k + 1));
            assert(all.take(k + 1).drop_last() =~= all.take(k));
            reveal_with_fuel(Seq::<_>::filter, 1);
        }
        if f.matches(&x.tags) {
            out.push(x);
        }
    }
    assert(all.take(all.len() as int) =~= all);
    out
}

/// What a condition means for a tag list: "in_tags t" holds exactly when
/// the list has `t`; "not e" exactly when `e` does not hold; "a and b"
/// exactly when both hold; "a or b" exactly when at least one holds.
pub proof fn law_condition_meaning(a: FilterTerm, b: FilterTerm, t: Seq<char>, tags: Seq<Seq<char>>)
    ensures
        holds(FilterTerm::InTags(t), tags) <==> tags.contains(t),
        holds(FilterTerm::Not(Box::new(a)), tags) <==> !holds(a, tags),
        holds(FilterTerm::And(Box::new(a), Box::new(b)), tags) <==> (holds(a, tags) && holds(b, tags)),
        holds(FilterTerm::Or(Box::new(a), Box::new(b)), tags) <==> (holds(a, tags) || holds(b, tags)),
        !tags.contains(t) ==> !holds(FilterTerm::And(Box::new(FilterTerm::InTags(t)), Box::new(b)), tags),
        !holds(a, tags) ==> !holds(FilterTerm::And(Box::new(a), Box::new(b)), tags),
        !holds(b, tags) ==> !holds(FilterTerm::And(Box::new(a), Box::new(b)), tags),
        holds(a, tags) ==> holds(FilterTerm::Or(Box::new(a), Box::new(b)), tags),
        holds(b, tags) ==> holds(FilterTerm::Or(Box::new(a), Box::new(b)), tags),
{
}

/// The words "in_tags x and ..." (or "or") read as a condition that holds
/// for a tag list exactly when the list has `x` and (or) the condition of
/// the words after "and" (or "or") holds; "not ..." holds exactly when the
/// condition after it does not.
pub proof fn law_words_meaning(words: Seq<Seq<char>>, pos: int, tags: Seq<Seq<char>>)
    requires
        0 <= pos,
    ensures
        pos + 3 < words.len() && words[pos] == "in_tags"@ && words[pos + 2] == "and"@ ==> (parse_from(
            words,
            pos + 3,
        ) matches Ok(Some(g)) ==> (parse_from(words, pos) matches Ok(Some(f)) && (holds(f, tags) <==> (
        tags.contains(words[pos + 1]) && holds(g, tags))))),
        pos + 3 < words.len() && words[pos] == "in_tags"@ && words[pos + 2] == "or"@ ==> (parse_from(
            words,
            pos + 3,
        ) matches Ok(Some(g)) ==> (parse_from(words, pos) matches Ok(Some(f)) && (holds(f, tags) <==> (
        tags.contains(words[pos + 1]) || holds(g, tags))))),
        pos + 2 == words.len() && words[pos] == "in_tags"@ ==> (parse_from(words, pos) matches Ok(Some(f))
            && (holds(f, tags) <==> tags.contains(words[pos + 1]))),
        pos + 1 < words.len() && words[pos] == "not"@ ==> (parse_from(words, pos + 1) matches Ok(Some(g)) ==> (
        parse_from(words, pos) matches Ok(Some(f)) && (holds(f, tags) <==> !holds(g, tags)))),
{
    reveal_with_fuel(holds, 2);
    reveal_strlit("in_tags");
    reveal_strlit("not");
    reveal_strlit("and");
    reveal_strlit("or");
    assert("in_tags"@[0] != "not"@[0]);
    assert("and"@.len() != "or"@.len());
    if pos + 3 < words.len() && words[pos] == "in_tags"@ {
        assert(words[pos] != "not"@);
        if let Ok(Some(g)) = parse_from(words, pos + 3) {
            let f = FilterTerm::InTags(words[pos + 1]);
            if words[pos + 2] == "and"@ {
                assert(parse_from(words, pos) == Ok::<Option<FilterTerm>, FilterParseError>(
                    Some(FilterTerm::And(Box::new(f), Box::new(g))),
                ));
                assert(holds(FilterTerm::And(Box::new(f), Box::new(g)), tags) <==> (tags.contains(
                    words[pos + 1],
                ) && holds(g, tags)));
            }
            if words[pos + 2] == "or"@ {
                assert(words[pos + 2] != "and"@);
                assert(parse_from(words, pos) == Ok::<Option<FilterTerm>, FilterParseError>(
                    Some(FilterTerm::Or(Box::new(f), Box::new(g))),
                ));
                assert(holds(FilterTerm::Or(Box::new(f), Box::new(g)), tags) <==> (tags.contains(
                    words[pos + 1],
                ) || holds(g, tags)));
            }
        }
    }
}

} // verus!

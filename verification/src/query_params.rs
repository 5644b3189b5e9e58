use vstd::prelude::*;
use crate::filter_json::FilterJson;
use vstd::string::StringSliceAdditionalSpecFns;
use crate::text::{chars_equal_from, chars_of, decimal, join_strings, joined, push_char, push_decimal, string_views};

verus! {

/// A field that search results can be sorted by.
#[derive(Clone, Copy, Debug, PartialEq, Eq, Structural)]
pub enum RankingSorting {
    ViewCounter,
    MylistCounter,
    LengthSeconds,
    StartTime,
    CommentCounter,
    LastCommentTime,
}

impl RankingSorting {
    /// The name of the field in the search API.
    pub open spec fn name(self) -> Seq<char> {
        match self {
            RankingSorting::ViewCounter => "viewCounter"@,
            RankingSorting::MylistCounter => "mylistCounter"@,
            RankingSorting::LengthSeconds => "lengthSeconds"@,
            RankingSorting::StartTime => "startTime"@,
            RankingSorting::CommentCounter => "commentCounter"@,
            RankingSorting::LastCommentTime => "lastCommentTime"@,
        }
    }

    /// The field whose name is `s`, if any.
    pub open spec fn from_name(s: Seq<char>) -> Option<RankingSorting> {
        if s == "viewCounter"@ {
            Some(RankingSorting::ViewCounter)
        } else if s == "mylistCounter"@ {
            Some(RankingSorting::MylistCounter)
        } else if s == "lengthSeconds"@ {
            Some(RankingSorting::LengthSeconds)
        } else if s == "startTime"@ {
            Some(RankingSorting::StartTime)
        } else if s == "commentCounter"@ {
            Some(RankingSorting::CommentCounter)
        } else if s == "lastCommentTime"@ {
            Some(RankingSorting::LastCommentTime)
        } else {
            None
        }
    }

    pub fn to_str(&self) -> (r: &'static str)
        ensures
            r@ == self.name(),
    {
        match self {
            RankingSorting::ViewCounter => "viewCounter",
            RankingSorting::MylistCounter => "mylistCounter",
            RankingSorting::LengthSeconds => "lengthSeconds",
            RankingSorting::StartTime => "startTime",
            RankingSorting::CommentCounter => "commentCounter",
            RankingSorting::LastCommentTime => "lastCommentTime",
        }
    }

    /// The field whose name the characters of `c` from `start` on are.
    fn from_chars(c: &Vec<char>, start: usize) -> (r: Option<RankingSorting>)
        requires
            start <= c@.len(),
        ensures
            r == RankingSorting::from_name(c@.skip(start as int)),
    {
        if chars_equal_from(c, start, "viewCounter") {
            Some(RankingSorting::ViewCounter)
        } else if chars_equal_from(c, start, "mylistCounter") {
            Some(RankingSorting::MylistCounter)
        } else if chars_equal_from(c, start, "lengthSeconds") {
            Some(RankingSorting::LengthSeconds)
        } else if chars_equal_from(c, start, "startTime") {
            Some(RankingSorting::StartTime)
        } else if chars_equal_from(c, start, "commentCounter") {
            Some(RankingSorting::CommentCounter)
        } else if chars_equal_from(c, start, "lastCommentTime") {
            Some(RankingSorting::LastCommentTime)
        } else {
            None
        }
    }

    /// The field named `s`, if any.
    pub fn from_str(s: &str) -> (r: Option<RankingSorting>)
        ensures
            r == RankingSorting::from_name(s@),
    {
        let c = chars_of(s);
        assert(c@.skip(0) =~= c@);
        RankingSorting::from_chars(&c, 0)
    }

    /// Sorting by this field, largest first.
    pub fn decreasing(self) -> (r: SortingWithOrder)
        ensures
            r == SortingWithOrder::Decreasing(self),
    {
        SortingWithOrder::Decreasing(self)
    }

    /// Sorting by this field; like `decreasing`, this sorts largest first.
    pub fn increasing(self) -> (r: SortingWithOrder)
        ensures
            r == SortingWithOrder::Decreasing(self),
    {
        SortingWithOrder::Decreasing(self)
    }
}

/// A field to sort by, and the direction.
#[derive(Clone, Copy, Debug, PartialEq, Eq, Structural)]
pub enum SortingWithOrder {
    Decreasing(RankingSorting),
    Increasing(RankingSorting),
}

/// Why a sorting parameter was not understood.
#[derive(Clone, Copy, Debug, PartialEq, Eq, Structural)]
pub enum SortingParseError {
    /// The parameter has at most one byte.
    TooShort,
    /// The parameter does not start with '+' or '-'.
    NoOrderSign,
    /// What follows the sign is not a field name.
    UnknownSorting,
}

impl SortingWithOrder {
    /// The parameter of the search API: '-' for decreasing or '+' for
    /// increasing, then the field name.
    pub open spec fn param_text(self) -> Seq<char> {
        match self {
            SortingWithOrder::Decreasing(s) => seq!['-'] + s.name(),
            SortingWithOrder::Increasing(s) => seq!['+'] + s.name(),
        }
    }

    /// How a parameter of `byte_len` bytes and characters `c` is read.
    pub open spec fn parse_result(byte_len: nat, c: Seq<char>) -> Result<
        SortingWithOrder,
        SortingParseError,
    > {
        if byte_len <= 1 || c.len() == 0 {
            Err(SortingParseError::TooShort)
        } else if c[0] != '-' && c[0] != '+' {
            Err(SortingParseError::NoOrderSign)
        } else {
            match RankingSorting::from_name(c.skip(1)) {
                None => Err(SortingParseError::UnknownSorting),
                Some(s) => if c[0] == '-' {
                    Ok(SortingWithOrder::Decreasing(s))
                } else {
                    Ok(SortingWithOrder::Increasing(s))
                },
            }
        }
    }

    /// The parameter text of this sorting.
    pub fn to_param_string(&self) -> (r: String)
        ensures
            r@ == self.param_text(),
    {
        let mut r = String::new();
        match self {
            SortingWithOrder::Decreasing(s) => {
                push_char(&mut r, '-');
                r.append(s.to_str());
            },
            SortingWithOrder::Increasing(s) => {
                push_char(&mut r, '+');
                r.append(s.to_str());
            },
        }
        assert(r@ =~= self.param_text());
        r
    }

    /// Reads a sorting parameter.
    pub fn parse_param(v: &str) -> (r: Result<SortingWithOrder, SortingParseError>)
        ensures
            r == SortingWithOrder::parse_result(v.len() as nat, v@),
    {
        let c = chars_of(v);
        if v.len() <= 1 || c.len() == 0 {
            return Err(SortingParseError::TooShort);
        }
        let sign = c[0];
        if sign != '-' && sign != '+' {
            return Err(SortingParseError::NoOrderSign);
        }
        match RankingSorting::from_chars(&c, 1) {
            None => Err(SortingParseError::UnknownSorting),
            Some(s) => if sign == '-' {
                Ok(SortingWithOrder::Decreasing(s))
            } else {
                Ok(SortingWithOrder::Increasing(s))
            },
        }
    }
}

/// A field name is read back as the field it names.
pub proof fn law_sorting_name_round_trip(s: RankingSorting)
    ensures
        RankingSorting::from_name(s.name()) == Some(s),
{
    reveal_strlit("viewCounter");
    reveal_strlit("mylistCounter");
    reveal_strlit("lengthSeconds");
    reveal_strlit("startTime");
    reveal_strlit("commentCounter");
    reveal_strlit("lastCommentTime");
    let v = "viewCounter"@;
    let m = "mylistCounter"@;
    let l = "lengthSeconds"@;
    let st = "startTime"@;
    let c = "commentCounter"@;
    let lc = "lastCommentTime"@;
    assert(v[0] != m[0] && v[0] != l[0] && v[0] != st[0] && v[0] != c[0] && v[0] != lc[0]);
    assert(m[0] != l[0] && m[0] != st[0] && m[0] != c[0] && m[0] != lc[0]);
    assert(l.len() != lc.len() && l[0] != st[0] && l[0] != c[0]);
    assert(st[0] != c[0] && st[0] != lc[0]);
    assert(c[0] != lc[0]);
}

/// A sorting parameter is read back as the sorting it was written from.
pub proof fn law_sorting_param_round_trip(x: SortingWithOrder, v: &str)
    requires
        v@ == x.param_text(),
    ensures
        SortingWithOrder::parse_result(v.len() as nat, v@) == Ok::<SortingWithOrder, SortingParseError>(
            x,
        ),
{
    let s = match x {
        SortingWithOrder::Decreasing(s) => s,
        SortingWithOrder::Increasing(s) => s,
    };
    law_sorting_name_round_trip(s);
    reveal_strlit("viewCounter");
    reveal_strlit("mylistCounter");
    reveal_strlit("lengthSeconds");
    reveal_strlit("startTime");
    reveal_strlit("commentCounter");
    reveal_strlit("lastCommentTime");
    assert(x.param_text().skip(1) =~= s.name());
    assert(vstd::utf8::is_ascii_chars(v@));
    vstd::utf8::is_ascii_chars_encode_utf8(v@);
    assert(v.spec_bytes().len() == v@.len());
}

/// The parameters of a snapshot search request.
#[derive(Debug)]
pub struct QueryParams {
    pub q: String,
    pub targets: Vec<String>,
    pub fields: Vec<String>,
    pub json_filter: Option<FilterJson>,
    pub sort: SortingWithOrder,
    pub offset: u32,
    pub limit: u32,
    pub context: Option<String>,
}

/// The views of a list of string slices.
pub open spec fn str_views(v: Seq<&str>) -> Seq<Seq<char>> {
    v.map_values(|s: &str| s@)
}

fn append_owned(list: &mut Vec<String>, args: &[&str])
    ensures
        string_views(final(list)@) == string_views(old(list)@) + str_views(args@),
{
    let mut i: usize = 0;
    while i < args.len()
        invariant
            i <= args@.len(),
            string_views(list@) == string_views(old(list)@) + str_views(args@.take(i as int)),
        decreases args@.len() - i,
    {
        let ghost prev = list@;
        let owned = args[i].to_owned();
        list.push(owned);
        assert(args@.take(i + 1) =~= args@.take(i as int).push(args@[i as int]));
        assert(string_views(list@) =~= string_views(prev).push(args@[i as int]@));
        assert(str_views(args@.take(i + 1)) =~= str_views(args@.take(i as int)).push(args@[i as int]@));
        i = i + 1;
        assert(string_views(list@) =~= string_views(old(list)@) + str_views(args@.take(i as int)));
    }
    assert(args@.take(i as int) =~= args@);
}

impl QueryParams {
    /// A search for `query` sorted by `sorting`: no targets, fields or filter,
    /// from offset 0, 10 results, no context.
    pub fn new(query: &str, sorting: SortingWithOrder) -> (r: QueryParams)
        ensures
            r.q@ == query@,
            r.targets@.len() == 0,
            r.fields@.len() == 0,
            r.json_filter is None,
            r.sort == sorting,
            r.offset == 0,
            r.limit == 10,
            r.context is None,
    {
        QueryParams {
            q: query.to_owned(),
            targets: Vec::new(),
            fields: Vec::new(),
            json_filter: None,
            sort: sorting,
            offset: 0,
            limit: 10,
            context: None,
        }
    }

    /// Replaces the query text.
    pub fn set_query(&mut self, query: String)
        ensures
            final(self).q == query,
            final(self).targets == old(self).targets,
            final(self).fields == old(self).fields,
            final(self).json_filter == old(self).json_filter,
            final(self).sort == old(self).sort,
            final(self).offset == old(self).offset,
            final(self).limit == old(self).limit,
            final(self).context == old(self).context,
    {
        self.q = query;
    }

    /// Adds fields to search the query in.
    pub fn with_targets(&mut self, args: &[&str])
        ensures
            string_views(final(self).targets@) == string_views(old(self).targets@) + str_views(args@),
            final(self).q == old(self).q,
            final(self).fields == old(self).fields,
            final(self).json_filter == old(self).json_filter,
            final(self).sort == old(self).sort,
            final(self).offset == old(self).offset,
            final(self).limit == old(self).limit,
            final(self).context == old(self).context,
    {
        append_owned(&mut self.targets, args);
    }

    /// Adds fields to return for each video.
    pub fn with_fields(&mut self, args: &[&str])
        ensures
            string_views(final(self).fields@) == string_views(old(self).fields@) + str_views(args@),
            final(self).q == old(self).q,
            final(self).targets == old(self).targets,
            final(self).json_filter == old(self).json_filter,
            final(self).sort == old(self).sort,
            final(self).offset == old(self).offset,
            final(self).limit == old(self).limit,
            final(self).context == old(self).context,
    {
        append_owned(&mut self.fields, args);
    }

    /// Sets the filter.
    pub fn set_filter(&mut self, filter: FilterJson)
        ensures
            final(self).json_filter == Some(filter),
            final(self).q == old(self).q,
            final(self).targets == old(self).targets,
            final(self).fields == old(self).fields,
            final(self).sort == old(self).sort,
            final(self).offset == old(self).offset,
            final(self).limit == old(self).limit,
            final(self).context == old(self).context,
    {
        self.json_filter = Some(filter);
    }

    /// Sets the sorting.
    pub fn set_sort(&mut self, sorting: SortingWithOrder)
        ensures
            final(self).sort == sorting,
            final(self).q == old(self).q,
            final(self).targets == old(self).targets,
            final(self).fields == old(self).fields,
            final(self).json_filter == old(self).json_filter,
            final(self).offset == old(self).offset,
            final(self).limit == old(self).limit,
            final(self).context == old(self).context,
    {
        self.sort = sorting;
    }

    /// Sets the offset of the first result; it can be at most 100 000.
    pub fn set_offset(&mut self, offset: u32)
        requires
            offset <= 100_000,
        ensures
            final(self).offset == offset,
            final(self).q == old(self).q,
            final(self).targets == old(self).targets,
            final(self).fields == old(self).fields,
            final(self).json_filter == old(self).json_filter,
            final(self).sort == old(self).sort,
            final(self).limit == old(self).limit,
            final(self).context == old(self).context,
    {
        self.offset = offset;
    }

    /// Sets the number of results; it can be at most 100.
    pub fn set_limit(&mut self, limit: u32)
        requires
            limit <= 100,
        ensures
            final(self).limit == limit,
            final(self).q == old(self).q,
            final(self).targets == old(self).targets,
            final(self).fields == old(self).fields,
            final(self).json_filter == old(self).json_filter,
            final(self).sort == old(self).sort,
            final(self).offset == old(self).offset,
            final(self).context == old(self).context,
    {
        self.limit = limit;
    }

    /// Sets the name of the requesting program; it can be at most 40 bytes.
    pub fn set_context(&mut self, context: &str)
        requires
            context.len() <= 40,
        ensures
            final(self).context matches Some(c) && c@ == context@,
            final(self).q == old(self).q,
            final(self).targets == old(self).targets,
            final(self).fields == old(self).fields,
            final(self).json_filter == old(self).json_filter,
            final(self).sort == old(self).sort,
            final(self).offset == old(self).offset,
            final(self).limit == old(self).limit,
    {
        self.context = Some(context.to_owned());
    }

    /// The request's query string parameters, in order: the query; the
    /// targets and the fields, each joined with ',' and left out when empty;
    /// the filter as JSON text (`filter_text`), left out when there is no
    /// filter; the sorting; the offset, left out when 0; the limit, left out
    /// when 10; the context, left out when there is none.
    pub open spec fn pairs_text(self, filter_text: Seq<char>) -> Seq<(Seq<char>, Seq<char>)> {
        seq![("q"@, self.q@)] + (if self.targets@.len() == 0 {
            Seq::empty()
        } else {
            seq![("targets"@, joined(string_views(self.targets@), ","@))]
        }) + (if self.fields@.len() == 0 {
            Seq::empty()
        } else {
            seq![("fields"@, joined(string_views(self.fields@), ","@))]
        }) + (if self.json_filter is None {
            Seq::empty()
        } else {
            seq![("jsonFilter"@, filter_text)]
        }) + seq![("_sort"@, self.sort.param_text())] + (if self.offset == 0 {
            Seq::empty()
        } else {
            seq![("_offset"@, decimal(self.offset as nat))]
        }) + (if self.limit == 10 {
            Seq::empty()
        } else {
            seq![("_limit"@, decimal(self.limit as nat))]
        }) + (match self.context {
            None => Seq::empty(),
            Some(c) => seq![("_context"@, c@)],
        })
    }

    /// The request's query string parameters (see `pairs_text`); `filter_text`
    /// is the JSON text of the filter.
    pub fn query_pairs(&self, filter_text: &str) -> (r: Vec<(String, String)>)
        ensures
            pair_views(r@) == self.pairs_text(filter_text@),
    {
        let mut r: Vec<(String, String)> = Vec::new();
        let ghost mut e: Seq<(Seq<char>, Seq<char>)> = Seq::empty();
        push_pair(&mut r, "q".to_owned(), self.q.clone());
        proof { e = e + seq![("q"@, self.q@)]; }
        if self.targets.len() != 0 {
            let v = join_strings(&self.targets, ",");
            push_pair(&mut r, "targets".to_owned(), v);
            proof { e = e + seq![("targets"@, joined(string_views(self.targets@), ","@))]; }
        } else {
            proof { e = e + Seq::empty(); }
        }
        assert(pair_views(r@) == e);
        if self.fields.len() != 0 {
            let v = join_strings(&self.fields, ",");
            push_pair(&mut r, "fields".to_owned(), v);
            proof { e = e + seq![("fields"@, joined(string_views(self.fields@), ","@))]; }
        } else {
            proof { e = e + Seq::empty(); }
        }
        if self.json_filter.is_some() {
            push_pair(&mut r, "jsonFilter".to_owned(), filter_text.to_owned());
            proof { e = e + seq![("jsonFilter"@, filter_text@)]; }
        } else {
            proof { e = e + Seq::empty(); }
        }
        push_pair(&mut r, "_sort".to_owned(), self.sort.to_param_string());
        proof { e = e + seq![("_sort"@, self.sort.param_text())]; }
        if !is_zero(&self.offset) {
            let mut v = String::new();
            push_decimal(&mut v, self.offset as u64);
            push_pair(&mut r, "_offset".to_owned(), v);
            proof { e = e + seq![("_offset"@, decimal(self.offset as nat))]; }
        } else {
            proof { e = e + Seq::empty(); }
        }
        if !is_ten(&self.limit) {
            let mut v = String::new();
            push_decimal(&mut v, self.limit as u64);
            push_pair(&mut r, "_limit".to_owned(), v);
            proof { e = e + seq![("_limit"@, decimal(self.limit as nat))]; }
        } else {
            proof { e = e + Seq::empty(); }
        }
        match &self.context {
            None => {
                proof { e = e + Seq::empty(); }
            },
            Some(c) => {
                push_pair(&mut r, "_context".to_owned(), c.clone());
                proof { e = e + seq![("_context"@, c@)]; }
            },
        }
        assert(e =~= self.pairs_text(filter_text@));
        r
    }
}

/// The views of a list of string pairs.
pub open spec fn pair_views(v: Seq<(String, String)>) -> Seq<(Seq<char>, Seq<char>)> {
    v.map_values(|p: (String, String)| (p.0@, p.1@))
}

fn push_pair(r: &mut Vec<(String, String)>, k: String, v: String)
    ensures
        pair_views(final(r)@) == pair_views(old(r)@) + seq![(k@, v@)],
{
    r.push((k, v));
    assert(pair_views(final(r)@) =~= pair_views(old(r)@) + seq![(k@, v@)]);
}

/// The offset is left out of a request when it is 0.
pub fn is_zero(v: &u32) -> (r: bool)
    ensures
        r == (*v == 0),
{
    *v == 0
}

/// The limit is left out of a request when it is 10.
pub fn is_ten(v: &u32) -> (r: bool)
    ensures
        r == (*v == 10),
{
    *v == 10
}

} // verus!

use vstd::prelude::*;
use crate::datetime::{date_text, OffsetDateTime, TimeDelta};
use crate::text::{decimal, push_decimal};

verus! {

/// "`secs` s `nanos` ns", the text of a span that is not negative.
pub open spec fn duration_text(dur: TimeDelta) -> Seq<char> {
    decimal(dur.secs as nat) + " s "@ + decimal(dur.nanos as nat) + " ns"@
}

/// The text of a span that is not negative, in seconds and nanoseconds.
pub fn duration_to_string(dur: TimeDelta) -> (r: String)
    requires
        dur.secs >= 0,
    ensures
        r@ == duration_text(dur),
{
    let mut s = String::new();
    push_decimal(&mut s, dur.secs as u64);
    s.append(" s ");
    push_decimal(&mut s, dur.nanos as u64);
    s.append(" ns");
    s
}

/// An option and its value, or nothing when the value is not given.
pub open spec fn option_part(name: Seq<char>, value: Option<Seq<char>>) -> Seq<Seq<char>> {
    match value {
        None => Seq::empty(),
        Some(v) => seq![name, v],
    }
}

/// The arguments of the gathering program for a run, the dates given as
/// their texts: the start date after "--since", the end date after
/// "--until", the span per request after "--duration" (in seconds and
/// nanoseconds, a form that the span parser of the gathering program
/// reads) and the path of the filter file after "--filter". Each is left
/// out when not given.
pub open spec fn args_with_date_text(
    since_text: Option<Seq<char>>,
    until_text: Option<Seq<char>>,
    duration: Option<TimeDelta>,
    filter_path: Option<Seq<char>>,
) -> Seq<Seq<char>> {
    let duration_part = match duration {
        None => None,
        Some(d) => Some(duration_text(d)),
    };
    option_part("--since"@, since_text) + option_part("--until"@, until_text) + option_part(
        "--duration"@,
        duration_part,
    ) + option_part("--filter"@, filter_path)
}

/// The text of an optional date as `chrono` formats it ("yyyy/mm/dd"):
/// `Some(None)` when there is no date, none when the date has no text.
pub open spec fn optional_date_text(d: Option<OffsetDateTime>) -> Option<Option<Seq<char>>> {
    match d {
        None => Some(None),
        Some(t) => match date_text(t.secs, t.nanos, t.offset) {
            None => None,
            Some(x) => Some(Some(x)),
        },
    }
}

/// The arguments of the gathering program for a run (see
/// `args_with_date_text`), the dates as `chrono` formats them; none when a
/// date that is given has no text.
pub open spec fn get_nico_data_args_text(
    since: Option<OffsetDateTime>,
    until: Option<OffsetDateTime>,
    duration: Option<TimeDelta>,
    filter_path: Option<Seq<char>>,
) -> Option<Seq<Seq<char>>> {
    match (optional_date_text(since), optional_date_text(until)) {
        (Some(s), Some(u)) => Some(args_with_date_text(s, u, duration, filter_path)),
        _ => None,
    }
}

fn push_arg(args: &mut Vec<String>, a: String)
    ensures
        crate::text::string_views(final(args)@) == crate::text::string_views(old(args)@).push(a@),
{
    args.push(a);
    assert(crate::text::string_views(final(args)@) =~= crate::text::string_views(old(args)@).push(a@));
}

fn push_option(args: &mut Vec<String>, name: &str, value: Option<String>)
    ensures
        crate::text::string_views(final(args)@) == crate::text::string_views(old(args)@) + option_part(
            name@,
            value.deep_view(),
        ),
{
    match value {
        None => {
            assert(crate::text::string_views(final(args)@) =~= crate::text::string_views(old(args)@)
                + option_part(name@, value.deep_view()));
        },
        Some(v) => {
            push_arg(args, name.to_owned());
            push_arg(args, v);
            assert(crate::text::string_views(final(args)@) =~= crate::text::string_views(old(args)@)
                + option_part(name@, value.deep_view()));
        },
    }
}

/// The arguments of the gathering program (see `args_with_date_text`).
pub fn get_nico_data_args_with_date(
    since_text: Option<String>,
    until_text: Option<String>,
    duration: Option<TimeDelta>,
    filter_path: Option<String>,
) -> (r: Vec<String>)
    requires
        duration matches Some(d) ==> d.secs >= 0,
    ensures
        crate::text::string_views(r@) == args_with_date_text(
            since_text.deep_view(),
            until_text.deep_view(),
            duration,
            filter_path.deep_view(),
        ),
{
    let mut args: Vec<String> = Vec::new();
    push_option(&mut args, "--since", since_text);
    push_option(&mut args, "--until", until_text);
    let duration_value = match duration {
        None => None,
        Some(d) => Some(duration_to_string(d)),
    };
    push_option(&mut args, "--duration", duration_value);
    push_option(&mut args, "--filter", filter_path);
    assert(crate::text::string_views(args@) =~= args_with_date_text(
        since_text.deep_view(),
        until_text.deep_view(),
        duration,
        filter_path.deep_view(),
    ));
    args
}

fn optional_date_string(d: Option<OffsetDateTime>) -> (r: Option<Option<String>>)
    ensures
        r.deep_view() == optional_date_text(d),
{
    match d {
        None => Some(None),
        Some(t) => match t.to_date_string() {
            None => None,
            Some(x) => Some(Some(x)),
        },
    }
}

/// The arguments of the gathering program (see `get_nico_data_args_text`).
pub fn get_nico_data_args(
    since: Option<OffsetDateTime>,
    until: Option<OffsetDateTime>,
    duration: Option<TimeDelta>,
    filter_path: Option<String>,
) -> (r: Option<Vec<String>>)
    requires
        duration matches Some(d) ==> d.secs >= 0,
    ensures
        r.deep_view() == get_nico_data_args_text(since, until, duration, filter_path.deep_view()),
{
    let since_text = match optional_date_string(since) {
        None => return None,
        Some(t) => t,
    };
    let until_text = match optional_date_string(until) {
        None => return None,
        Some(t) => t,
    };
    Some(get_nico_data_args_with_date(since_text, until_text, duration, filter_path))
}

} // verus!

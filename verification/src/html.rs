use vstd::prelude::*;
use crate::duration::{ymd_text, ymd_to_string, Duration};
use crate::numeral::{numeral_text, numeral_to_string};
use crate::page::{
    chunk_count_of, chunk_summary, index_chunk, plan_index, spec_start_rank, LinkTarget, PageInfo,
    RankingPage, ROOT_PAGE_COUNT_LIMIT,
};
use crate::records::NewVideoInfo;
use crate::text::{decimal, push_decimal, replace_all, replaced};

verus! {

/// The three templates that every page is built from: the contents of the
/// head (with a `{title}` placeholder), the start of the body and its end.
pub struct PageTemplates {
    pub head: String,
    pub body_head: String,
    pub body_foot: String,
}

/// "`first`位〜`last`位"
pub open spec fn rank_range_text(first: int, last: int) -> Seq<char> {
    decimal(first as nat) + "位〜"@ + decimal(last as nat) + "位"@
}

/// The link to the previous page, or to the index from the first page.
pub open spec fn prev_link_text(info: PageInfo) -> Seq<char> {
    if info.page_number == 0 {
        "    <a href=\"index.html\" class=\"left\">← prev (ランキングトップ)</a>\n"@
    } else {
        let first = spec_start_rank(info.per_page as int, info.page_number - 1);
        "    <a href=\"ranking-"@ + decimal((info.page_number - 1) as nat) + ".html\" class=\"left\">← prev ("@
            + rank_range_text(first, first + info.per_page - 1) + ")</a>\n"@
    }
}

/// The link to the next page, or to the index from the last page.
pub open spec fn next_link_text(info: PageInfo) -> Seq<char> {
    if !info.has_next {
        "    <a href=\"index.html\" class=\"right\">(ランキングトップ) next →</a>\n"@
    } else {
        let first = spec_start_rank(info.per_page as int, info.page_number + 1);
        "    <a href=\"ranking-"@ + decimal((info.page_number + 1) as nat) + ".html\" class=\"right\">("@
            + rank_range_text(first, first + info.page_count - 1) + ") next →</a>\n"@
    }
}

/// The links to the previous and next page and the ranks of this page.
pub open spec fn prev_cur_next_text(info: PageInfo) -> Seq<char> {
    prev_link_text(info) + next_link_text(info) + "    <div class=\"center\">"@ + rank_range_text(
        info.spec_first(),
        info.spec_last(),
    ) + "</div>\n"@
}

/// The start of a ranking page, up to and with its header.
pub open spec fn heading_text(info: PageInfo, head: Seq<char>, body_head: Seq<char>) -> Seq<char> {
    let title = "人類が動画にかけた時間のランキング("@ + rank_range_text(info.spec_first(), info.spec_last())
        + ")"@;
    "<!DOCTYPE html>\n<html lang=\"en\">\n<head>\n"@ + replaced(head, "{title}"@, title)
        + "\n</head>\n<body>\n"@ + body_head + "\n<header class=\"header\">\n"@
        + prev_cur_next_text(info) + "</header>\n"@
}

/// The end of a ranking page, from its footer on.
pub open spec fn footing_text(info: PageInfo, body_foot: Seq<char>) -> Seq<char> {
    "<footer class=\"footer\">\n"@ + prev_cur_next_text(info) + "</footer>\n"@ + body_foot
        + "\n</body>\n</html>\n"@
}

/// `s` followed by a line end.
fn push_line(s: &mut String, line: &str)
    ensures
        final(s)@ == old(s)@ + line@ + "\n"@,
{
    s.append(line);
    s.append("\n");
}

fn push_rank_range(s: &mut String, first: u64, last: u64)
    ensures
        final(s)@ == old(s)@ + rank_range_text(first as int, last as int),
{
    push_decimal(s, first);
    s.append("位〜");
    push_decimal(s, last);
    s.append("位");
    assert(final(s)@ =~= old(s)@ + rank_range_text(first as int, last as int));
}

fn push_prev_link(s: &mut String, info: &PageInfo)
    requires
        info.ranks_fit_with_next(),
    ensures
        final(s)@ == old(s)@ + prev_link_text(*info),
{
    match info.prev_rank_range() {
        None => {
            s.append("    <a href=\"index.html\" class=\"left\">← prev (ランキングトップ)</a>\n");
        },
        Some((since, last)) => {
            s.append("    <a href=\"ranking-");
            push_decimal(s, info.page_number - 1);
            s.append(".html\" class=\"left\">← prev (");
            push_rank_range(s, since, last);
            s.append(")</a>\n");
        },
    }
    assert(final(s)@ =~= old(s)@ + prev_link_text(*info));
}

fn push_next_link(s: &mut String, info: &PageInfo)
    requires
        info.ranks_fit_with_next(),
    ensures
        final(s)@ == old(s)@ + next_link_text(*info),
{
    match info.next_rank_range() {
        None => {
            s.append("    <a href=\"index.html\" class=\"right\">(ランキングトップ) next →</a>\n");
        },
        Some((since, last)) => {
            s.append("    <a href=\"ranking-");
            push_decimal(s, info.page_number + 1);
            s.append(".html\" class=\"right\">(");
            push_rank_range(s, since, last);
            s.append(") next →</a>\n");
        },
    }
    assert(final(s)@ =~= old(s)@ + next_link_text(*info));
}

/// Appends the links to the previous and next page and the ranks of this page.
pub fn write_prev_cur_next(s: &mut String, info: &PageInfo)
    requires
        info.ranks_fit_with_next(),
    ensures
        final(s)@ == old(s)@ + prev_cur_next_text(*info),
{
    let (start_rank, last_rank) = info.page_rank_range();
    push_prev_link(s, info);
    push_next_link(s, info);
    s.append("    <div class=\"center\">");
    push_rank_range(s, start_rank, last_rank);
    s.append("</div>\n");
    assert(final(s)@ =~= old(s)@ + prev_cur_next_text(*info));
}

/// Appends the start of a ranking page.
pub fn write_heading(s: &mut String, info: &PageInfo, templates: &PageTemplates)
    requires
        info.ranks_fit_with_next(),
    ensures
        final(s)@ == old(s)@ + heading_text(*info, templates.head@, templates.body_head@),
{
    let (start_rank, last_rank) = info.page_rank_range();
    let mut title = String::new();
    title.append("人類が動画にかけた時間のランキング(");
    push_rank_range(&mut title, start_rank, last_rank);
    title.append(")");
    s.append("<!DOCTYPE html>\n<html lang=\"en\">\n<head>\n");
    proof {
        reveal_strlit("{title}");
    }
    let head = replace_all(templates.head.as_str(), "{title}", title.as_str());
    s.append(head.as_str());
    s.append("\n</head>\n<body>\n");
    s.append(templates.body_head.as_str());
    s.append("\n<header class=\"header\">\n");
    write_prev_cur_next(s, info);
    s.append("</header>\n");
    assert(title@ =~= "人類が動画にかけた時間のランキング("@ + rank_range_text(
        info.spec_first(),
        info.spec_last(),
    ) + ")"@);
    assert(final(s)@ =~= old(s)@ + heading_text(*info, templates.head@, templates.body_head@));
}

/// Appends the end of a ranking page.
pub fn write_footing(s: &mut String, info: &PageInfo, templates: &PageTemplates)
    requires
        info.ranks_fit_with_next(),
    ensures
        final(s)@ == old(s)@ + footing_text(*info, templates.body_foot@),
{
    s.append("<footer class=\"footer\">\n");
    write_prev_cur_next(s, info);
    s.append("</footer>\n");
    s.append(templates.body_foot.as_str());
    s.append("\n</body>\n</html>\n");
    assert(final(s)@ =~= old(s)@ + footing_text(*info, templates.body_foot@));
}

} // verus!

verus! {

/// The whole seconds of `length` times `views`.
pub open spec fn watch_secs(length: Duration, views: u32) -> int {
    length.secs() * views + (length.nanos() as int * views) / 1_000_000_000
}

/// A video can be shown: its view count is below one hundred million and
/// its total watch time fits in a `Duration`.
pub open spec fn renderable(v: NewVideoInfo) -> bool {
    &&& v.view_counter < 100_000_000
    &&& watch_secs(v.length_seconds, v.view_counter) <= u64::MAX
}

/// The header line of the list item of the video at (0-based) position
/// `rank`: a link to the video's page.
pub open spec fn video_header_text(rank: int, v: NewVideoInfo) -> Seq<char> {
    "        <div class=\"ranking-header\"><a href=\"https://nicovideo.jp/watch/"@ + v.content_id@
        + "\" class=\"ranking-header-link\">#"@ + decimal(rank as nat) + "</a></div>\n"@
}

/// The lines with the total watch time, the length and the view count.
pub open spec fn video_times_text(v: NewVideoInfo) -> Seq<char> {
    "            <div>"@ + ymd_text(watch_secs(v.length_seconds, v.view_counter) as nat) + "</div>\n"@
        + "            <div>"@ + ymd_text(v.length_seconds.secs() as nat) + " "@
        + numeral_text(v.view_counter as nat) + "回再生</div>\n"@
}

/// The line with the video's embedded thumbnail.
pub open spec fn video_frame_text(v: NewVideoInfo) -> Seq<char> {
    "            <iframe class=\"nico-frame lazy\" width=\"312\" height=\"176\" scrolling=\"no\" data-src=\"https://ext.nicovideo.jp/thumb/"@
        + v.content_id@ + "\"></iframe>\n"@
}

/// The list item of the video at (0-based) position `rank`.
pub open spec fn video_item_text(rank: int, v: NewVideoInfo) -> Seq<char> {
    "    <li class=\"grid-item\">\n"@ + video_header_text(rank, v) + "        <div>\n"@
        + video_times_text(v) + video_frame_text(v) + "        </div>\n"@ + "    </li>\n"@
}

/// The list items of the videos at positions `from` to `to` (excluded).
pub open spec fn video_items_text(videos: Seq<NewVideoInfo>, from: int, to: int) -> Seq<char>
    decreases to - from,
{
    if to <= from {
        Seq::empty()
    } else {
        video_items_text(videos, from, to - 1) + video_item_text(to - 1, videos[to - 1])
    }
}

/// The times lines of a video's list item start with its total watch time
/// rendered as years to seconds, and end with its view count rendered as a
/// count (thousands separators, or units of ten thousand) followed by
/// "回再生"; the length rendered as years to seconds stands between them.
pub proof fn law_video_times_lines(v: NewVideoInfo)
    ensures
        ("            <div>"@ + ymd_text(watch_secs(v.length_seconds, v.view_counter) as nat) + "</div>\n"@).is_prefix_of(
            video_times_text(v),
        ),
        (numeral_text(v.view_counter as nat) + "回再生</div>\n"@).is_suffix_of(video_times_text(v)),
        video_times_text(v).subrange(
            ("            <div>"@ + ymd_text(watch_secs(v.length_seconds, v.view_counter) as nat) + "</div>\n"@
                + "            <div>"@).len() as int,
            ("            <div>"@ + ymd_text(watch_secs(v.length_seconds, v.view_counter) as nat) + "</div>\n"@
                + "            <div>"@ + ymd_text(v.length_seconds.secs() as nat)).len() as int,
        ) == ymd_text(v.length_seconds.secs() as nat),
{
    let a = "            <div>"@ + ymd_text(watch_secs(v.length_seconds, v.view_counter) as nat) + "</div>\n"@;
    let b = "            <div>"@;
    let c = ymd_text(v.length_seconds.secs() as nat);
    let d = " "@;
    let e = numeral_text(v.view_counter as nat) + "回再生</div>\n"@;
    let t = video_times_text(v);
    assert(t =~= a + b + c + d + e);
    assert(t.subrange(0, a.len() as int) =~= a);
    assert(t.subrange(t.len() - e.len(), t.len() as int) =~= e);
    assert(t.subrange((a + b).len() as int, (a + b + c).len() as int) =~= c);
}

/// A whole ranking page.
pub open spec fn ranking_page_text(
    videos: Seq<NewVideoInfo>,
    from: int,
    to: int,
    info: PageInfo,
    head: Seq<char>,
    body_head: Seq<char>,
    body_foot: Seq<char>,
) -> Seq<char> {
    heading_text(info, head, body_head) + "<ul class=\"container\">\n"@ + video_items_text(videos, from, to)
        + "</ul>\n"@ + footing_text(info, body_foot)
}

fn push_video_header(s: &mut String, rank: usize, v: &NewVideoInfo)
    ensures
        final(s)@ == old(s)@ + video_header_text(rank as int, *v),
{
    s.append("        <div class=\"ranking-header\"><a href=\"https://nicovideo.jp/watch/");
    s.append(v.content_id.as_str());
    s.append("\" class=\"ranking-header-link\">#");
    push_decimal(s, rank as u64);
    s.append("</a></div>\n");
    assert(final(s)@ =~= old(s)@ + video_header_text(rank as int, *v));
}

fn push_video_times(s: &mut String, v: &NewVideoInfo)
    requires
        renderable(*v),
    ensures
        final(s)@ == old(s)@ + video_times_text(*v),
{
    let sum_dur = v.length_seconds.mul_u32(v.view_counter);
    let sum_text = ymd_to_string(sum_dur);
    let length_text = ymd_to_string(v.length_seconds);
    let count_text = numeral_to_string(v.view_counter as u64);
    s.append("            <div>");
    s.append(sum_text.as_str());
    s.append("</div>\n");
    s.append("            <div>");
    s.append(length_text.as_str());
    s.append(" ");
    s.append(count_text.as_str());
    s.append("回再生</div>\n");
    assert(final(s)@ =~= old(s)@ + video_times_text(*v));
}

fn push_video_frame(s: &mut String, v: &NewVideoInfo)
    ensures
        final(s)@ == old(s)@ + video_frame_text(*v),
{
    s.append("            <iframe class=\"nico-frame lazy\" width=\"312\" height=\"176\" scrolling=\"no\" data-src=\"https://ext.nicovideo.jp/thumb/");
    s.append(v.content_id.as_str());
    s.append("\"></iframe>\n");
    assert(final(s)@ =~= old(s)@ + video_frame_text(*v));
}

fn push_video_item(s: &mut String, rank: usize, v: &NewVideoInfo)
    requires
        renderable(*v),
    ensures
        final(s)@ == old(s)@ + video_item_text(rank as int, *v),
{
    s.append("    <li class=\"grid-item\">\n");
    push_video_header(s, rank, v);
    s.append("        <div>\n");
    push_video_times(s, v);
    push_video_frame(s, v);
    s.append("        </div>\n");
    s.append("    </li>\n");
    assert(final(s)@ =~= old(s)@ + video_item_text(rank as int, *v));
}

/// The ranking page of the videos at positions `from` to `to` (excluded), and
/// the number of videos on it.
pub fn render_ranking_page(
    videos: &Vec<NewVideoInfo>,
    from: usize,
    to: usize,
    info: &PageInfo,
    templates: &PageTemplates,
) -> (r: (String, u64))
    requires
        from <= to <= videos@.len(),
        info.ranks_fit_with_next(),
        forall|i: int| from <= i < to ==> renderable(#[trigger] videos@[i]),
    ensures
        r.0@ == ranking_page_text(
            videos@,
            from as int,
            to as int,
            *info,
            templates.head@,
            templates.body_head@,
            templates.body_foot@,
        ),
        r.1 == to - from,
{
    let mut s = String::new();
    let mut count: u64 = 0;
    write_heading(&mut s, info, templates);
    s.append("<ul class=\"container\">\n");
    let ghost prefix = s@;
    let mut rank = from;
    while rank < to
        invariant
            from <= rank <= to <= videos@.len(),
            forall|i: int| from <= i < to ==> renderable(#[trigger] videos@[i]),
            s@ == prefix + video_items_text(videos@, from as int, rank as int),
            count == rank - from,
        decreases to - rank,
    {
        push_video_item(&mut s, rank, &videos[rank]);
        count = count + 1;
        rank = rank + 1;
        assert(s@ =~= prefix + video_items_text(videos@, from as int, rank as int));
    }
    s.append("</ul>\n");
    write_footing(&mut s, info, templates);
    assert(s@ =~= ranking_page_text(
        videos@,
        from as int,
        to as int,
        *info,
        templates.head@,
        templates.body_head@,
        templates.body_foot@,
    ));
    (s, count)
}

/// The file name of ranking page `n`: "ranking-`n`.html".
pub fn ranking_file_name(n: u64) -> (r: String)
    ensures
        r@ == "ranking-"@ + decimal(n as nat) + ".html"@,
{
    let mut s = String::new();
    s.append("ranking-");
    push_decimal(&mut s, n);
    s.append(".html");
    s
}

/// The file name of an index page: "index.html" for the root, else
/// "index-`n`.html".
pub fn index_file_name(number: Option<u64>) -> (r: String)
    ensures
        r@ == match number {
            None => "index.html"@,
            Some(n) => "index-"@ + decimal(n as nat) + ".html"@,
        },
{
    let mut s = String::new();
    match number {
        None => {
            s.append("index.html");
        },
        Some(n) => {
            s.append("index-");
            push_decimal(&mut s, n);
            s.append(".html");
        },
    }
    s
}

/// "`first`位~`last`位", the range of an index entry.
pub open spec fn index_range_text(first: u64, last: u64) -> Seq<char> {
    decimal(first as nat) + "位~"@ + decimal(last as nat) + "位"@
}

pub open spec fn link_prefix(link: LinkTarget) -> Seq<char> {
    match link {
        LinkTarget::RankingPages => "ranking-"@,
        LinkTarget::IndexPages => "index-"@,
    }
}

/// The list items of an index page.
pub open spec fn index_items_text(entries: Seq<RankingPage>, link: LinkTarget) -> Seq<char>
    decreases entries.len(),
{
    if entries.len() == 0 {
        Seq::empty()
    } else {
        let x = entries.last();
        index_items_text(entries.drop_last(), link) + "    <li class=\"grid-item\"><a href=\""@
            + link_prefix(link) + decimal(x.index as nat) + ".html\">"@ + index_range_text(
            x.first_rank,
            x.last_rank,
        ) + "</a></li>\n"@
    }
}

/// A whole index page. The root index has no range; another index page shows
/// the range from the first rank of its first entry to the last rank of its
/// last entry in its title and header.
pub open spec fn index_page_text(
    entries: Seq<RankingPage>,
    is_root: bool,
    link: LinkTarget,
    head: Seq<char>,
    body_head: Seq<char>,
    body_foot: Seq<char>,
) -> Seq<char> {
    let range = index_range_text(entries[0].first_rank, entries.last().last_rank);
    let title = if is_root {
        "人類が動画にかけた時間のランキング"@
    } else {
        "人類が動画にかけた時間のランキング("@ + range + ")"@
    };
    let header = if is_root {
        Seq::empty()
    } else {
        "<header class=\"header\">\n"@ + "    <div class=\"center\">"@ + range + "</div>\n"@
            + "</header>\n"@
    };
    "<!DOCTYPE html>\n<html lang=\"en\">\n<head>\n"@ + replaced(head, "{title}"@, title)
        + "\n</head>\n<body>\n"@ + body_head + "\n"@ + header + "<ul class=\"container\">\n"@
        + index_items_text(entries, link) + "</ul>\n"@ + body_foot + "\n</body>\n</html>\n"@
}

fn push_index_range(s: &mut String, first: u64, last: u64)
    ensures
        final(s)@ == old(s)@ + index_range_text(first, last),
{
    push_decimal(s, first);
    s.append("位~");
    push_decimal(s, last);
    s.append("位");
    assert(final(s)@ =~= old(s)@ + index_range_text(first, last));
}

/// An index page listing `entries`, each linking to the page it names.
pub fn render_index(
    entries: &Vec<RankingPage>,
    is_root: bool,
    link: LinkTarget,
    templates: &PageTemplates,
) -> (r: String)
    requires
        !is_root ==> entries@.len() > 0,
    ensures
        r@ == index_page_text(
            entries@,
            is_root,
            link,
            templates.head@,
            templates.body_head@,
            templates.body_foot@,
        ),
{
    let mut range = String::new();
    if !is_root {
        push_index_range(&mut range, entries[0].first_rank, entries[entries.len() - 1].last_rank);
    }
    let mut title = String::new();
    if is_root {
        title.append("人類が動画にかけた時間のランキング");
    } else {
        title.append("人類が動画にかけた時間のランキング(");
        title.append(range.as_str());
        title.append(")");
    }
    let mut s = String::new();
    s.append("<!DOCTYPE html>\n<html lang=\"en\">\n<head>\n");
    proof {
        reveal_strlit("{title}");
    }
    let head = replace_all(templates.head.as_str(), "{title}", title.as_str());
    s.append(head.as_str());
    s.append("\n</head>\n<body>\n");
    s.append(templates.body_head.as_str());
    s.append("\n");
    if !is_root {
        s.append("<header class=\"header\">\n");
        s.append("    <div class=\"center\">");
        s.append(range.as_str());
        s.append("</div>\n");
        s.append("</header>\n");
    }
    s.append("<ul class=\"container\">\n");
    let ghost prefix = s@;
    let mut k: usize = 0;
    while k < entries.len()
        invariant
            k <= entries@.len(),
            s@ == prefix + index_items_text(entries@.take(k as int), link),
        decreases entries@.len() - k,
    {
        let x = entries[k];
        s.append("    <li class=\"grid-item\"><a href=\"");
        match link {
            LinkTarget::RankingPages => s.append("ranking-"),
            LinkTarget::IndexPages => s.append("index-"),
        }
        push_decimal(&mut s, x.index);
        s.append(".html\">");
        push_index_range(&mut s, x.first_rank, x.last_rank);
        s.append("</a></li>\n");
        assert(entries@.take(k + 1).drop_last() =~= entries@.take(k as int));
        k = k + 1;
        assert(s@ =~= prefix + index_items_text(entries@.take(k as int), link));
    }
    assert(entries@.take(k as int) =~= entries@);
    s.append("</ul>\n");
    s.append(templates.body_foot.as_str());
    s.append("\n</body>\n</html>\n");
    assert(s@ =~= index_page_text(
        entries@,
        is_root,
        link,
        templates.head@,
        templates.body_head@,
        templates.body_foot@,
    ));
    s
}

/// The entries of the root index when the pages make more than one chunk:
/// one summary for each chunk.
pub open spec fn index_summaries(pages: Seq<RankingPage>) -> Seq<RankingPage> {
    Seq::new(chunk_count_of(pages.len() as int) as nat, |i: int| chunk_summary(index_chunk(pages, i), i))
}

/// The file name of index page `i`: "index-`i`.html".
pub open spec fn index_page_name(i: int) -> Seq<char> {
    "index-"@ + decimal(i as nat) + ".html"@
}

proof fn lemma_chunks_not_empty(pages: Seq<RankingPage>, i: int)
    requires
        0 <= i < chunk_count_of(pages.len() as int),
    ensures
        index_chunk(pages, i).len() > 0,
{
    let l = ROOT_PAGE_COUNT_LIMIT as int;
    let len = pages.len() as int;
    assert(i * l < len) by (nonlinear_arith)
        requires
            0 <= i,
            l == 10000,
            len >= 0,
            i < if len % l == 0 { len / l } else { len / l + 1 },
    ;
    assert((i + 1) * l == i * l + l) by (nonlinear_arith);
}

/// The index pages of a ranking whose pages are `page_infos`, each as its
/// file name and its text. When the pages make one chunk of
/// `ROOT_PAGE_COUNT_LIMIT` pages, "index.html" lists them all; otherwise
/// "index-`i`.html" lists chunk `i`, and "index.html", which comes last,
/// lists one summary for each chunk and links to those index pages.
pub fn index_file(page_infos: &Vec<RankingPage>, templates: &PageTemplates) -> (r: Vec<(String, String)>)
    requires
        page_infos@.len() + ROOT_PAGE_COUNT_LIMIT < usize::MAX,
    ensures
        ({
            let pages = page_infos@;
            let n = chunk_count_of(pages.len() as int);
            let (head, body_head, body_foot) = (templates.head@, templates.body_head@, templates.body_foot@);
            if n == 1 {
                &&& r@.len() == 1
                &&& r@[0].0@ == "index.html"@
                &&& r@[0].1@ == index_page_text(pages, true, LinkTarget::RankingPages, head, body_head, body_foot)
            } else {
                &&& r@.len() == n + 1
                &&& forall|i: int|
                    0 <= i < n ==> {
                        &&& (#[trigger] r@[i]).0@ == index_page_name(i)
                        &&& r@[i].1@ == index_page_text(
                            index_chunk(pages, i),
                            false,
                            LinkTarget::RankingPages,
                            head,
                            body_head,
                            body_foot,
                        )
                    }
                &&& r@[n].0@ == "index.html"@
                &&& r@[n].1@ == index_page_text(
                    index_summaries(pages),
                    true,
                    LinkTarget::IndexPages,
                    head,
                    body_head,
                    body_foot,
                )
            }
        }),
{
    let docs = plan_index(page_infos);
    let ghost n = chunk_count_of(page_infos@.len() as int);
    proof {
        if n != 1 {
            assert(docs@[n].entries@ =~= index_summaries(page_infos@));
        }
    }
    let mut out: Vec<(String, String)> = Vec::new();
    let mut k: usize = 0;
    while k < docs.len()
        invariant
            k <= docs@.len(),
            out@.len() == k,
            n == chunk_count_of(page_infos@.len() as int),
            n == 1 ==> docs@.len() == 1 && docs@[0].number is None && docs@[0].entries@ == page_infos@
                && docs@[0].is_root && docs@[0].link == LinkTarget::RankingPages,
            n != 1 ==> {
                &&& docs@.len() == n + 1
                &&& forall|i: int|
                    0 <= i < n ==> {
                        &&& (#[trigger] docs@[i]).number == Some(i as u64)
                        &&& docs@[i].entries@ == index_chunk(page_infos@, i)
                        &&& !docs@[i].is_root
                        &&& docs@[i].link == LinkTarget::RankingPages
                    }
                &&& docs@[n].number is None
                &&& docs@[n].is_root
                &&& docs@[n].link == LinkTarget::IndexPages
                &&& docs@[n].entries@ == index_summaries(page_infos@)
            },
            forall|j: int|
                0 <= j < k ==> {
                    &&& (#[trigger] out@[j]).0@ == match docs@[j].number {
                        None => "index.html"@,
                        Some(m) => index_page_name(m as int),
                    }
                    &&& out@[j].1@ == index_page_text(
                        docs@[j].entries@,
                        docs@[j].is_root,
                        docs@[j].link,
                        templates.head@,
                        templates.body_head@,
                        templates.body_foot@,
                    )
                },
        decreases docs@.len() - k,
    {
        let doc = &docs[k];
        proof {
            if !doc.is_root {
                lemma_chunks_not_empty(page_infos@, k as int);
            }
        }
        let name = index_file_name(doc.number);
        let text = render_index(&doc.entries, doc.is_root, doc.link, templates);
        out.push((name, text));
        k = k + 1;
    }
    out
}

} // verus!

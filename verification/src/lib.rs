//! Verified core of the video watch-time ranking tools: duration and number
//! rendering, ranking pages, snapshot-search query building, ranking sort and
//! filters, and the decisions of the data-gathering and merging programs.

pub mod text;
pub mod duration;
pub mod numeral;
pub mod page;
pub mod datetime;
pub mod records;
pub mod html;
pub mod iter_util;
pub mod filter_json;
pub mod query_params;
pub mod ranking;
pub mod filter_expr;
pub mod merge_rankings;
pub mod file_names;
pub mod merge_weeks;
pub mod phase;
pub mod options;
pub mod pipeline;
pub mod fetch;

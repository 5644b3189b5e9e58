use vstd::prelude::*;
use crate::datetime::{OffsetDateTime, UtcDateTime};
use crate::duration::Duration;

verus! {

/// The version stamp of the search snapshot that a week of data was taken from.
#[derive(Debug)]
pub struct VersionJson {
    pub last_modified: OffsetDateTime,
}

/// One file of ranking data: its meta data and its videos.
#[derive(Debug)]
pub struct RankingJson {
    pub meta: RankingMeta,
    pub data: Vec<RankingVideoData>,
}

/// The number of videos of a ranking file and the snapshot version.
#[derive(Debug)]
pub struct RankingMeta {
    pub total_count: u64,
    pub last_modified: Option<OffsetDateTime>,
}

/// One video of a ranking file.
#[derive(Debug)]
pub struct RankingVideoData {
    pub content_id: String,
    pub length_seconds: u32,
    pub view_counter: u32,
    pub start_time: OffsetDateTime,
}

/// A sorted ranking: its meta data and its videos.
#[derive(Debug)]
pub struct RankingBin {
    pub meta: RankingMeta,
    pub data: Vec<RankingVideoDataBin>,
}

/// One video of a sorted ranking, with the value it was ranked by.
#[derive(Debug)]
pub struct RankingVideoDataBin {
    pub content_id: String,
    pub length_seconds: u32,
    pub view_counter: u32,
    pub start_time: OffsetDateTime,
    pub ranking_counter: u64,
}

/// One video as the gathering program stores it.
#[derive(Debug)]
pub struct NewVideoInfo {
    pub last_modified: UtcDateTime,
    pub content_id: String,
    pub title: String,
    pub description: Option<String>,
    pub view_counter: u32,
    pub mylist_counter: u32,
    pub length_seconds: Duration,
    pub thumbnail_url: Option<String>,
    pub start_time: UtcDateTime,
    pub last_res_body: Option<String>,
    pub comment_counter: u32,
    pub last_comment_time: Option<UtcDateTime>,
    pub category_tags: Option<String>,
    pub tags: Vec<String>,
    pub genre: Option<String>,
}

/// The ranking file of `data`: its meta data counts the videos and carries
/// the snapshot version.
pub fn ranking_json(data: Vec<RankingVideoData>, last_modified: OffsetDateTime) -> (r: RankingJson)
    ensures
        r.meta.total_count == data@.len(),
        r.meta.last_modified == Some(last_modified),
        r.data@ == data@,
{
    let total_count = data.len() as u64;
    RankingJson { meta: RankingMeta { total_count, last_modified: Some(last_modified) }, data }
}

} // verus!

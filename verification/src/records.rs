//! The record types that flow through the system: one fetched update item,
//! the weekday-keyed collection of items a fetch produces, and the rows and
//! transfer objects of the persistence layer.

use vstd::prelude::*;

verus! {

use crate::clock::format_timestamp;
use crate::clock::get_week_day_of_today;
use crate::clock::spec_weekday_name_cn;
use crate::textutil::str_eq;

/// One update entry scraped from a platform.
#[derive(Debug, Clone, PartialEq, Eq)]
pub struct AniItem {
    pub title: String,
    pub update_count: String,
    pub update_info: String,
    pub image_url: String,
    pub detail_url: String,
    pub update_time: String,
    pub platform: String,
}

/// A fetch result: update items grouped by weekday name. The keys are
/// pairwise distinct, so each weekday appears at most once.
#[derive(Debug, Clone, PartialEq, Eq)]
pub struct AniItemResult {
    pub entries: Vec<(String, Vec<AniItem>)>,
}

impl AniItemResult {
    /// The keys are pairwise distinct.
    pub open spec fn wf(&self) -> bool {
        forall|i: int, j: int|
            0 <= i < j < self.entries@.len() ==> self.entries@[i].0@ != self.entries@[j].0@
    }

    /// The item list stored under `key`, if any.
    pub fn get(&self, key: &str) -> (r: Option<&Vec<AniItem>>)
        ensures
            match r {
                Some(v) => exists|i: int|
                    0 <= i < self.entries@.len() && self.entries@[i].0@ == key@ && v@
                        == self.entries@[i].1@,
                None => forall|i: int|
                    0 <= i < self.entries@.len() ==> self.entries@[i].0@ != key@,
            },
    {
        let n = self.entries.len();
        let mut i: usize = 0;
        while i < n
            invariant
                n == self.entries@.len(),
                i <= n,
                forall|k: int| 0 <= k < i ==> self.entries@[k].0@ != key@,
            decreases n - i,
        {
            if str_eq(self.entries[i].0.as_str(), key) {
                return Some(&self.entries[i].1);
            }
            i = i + 1;
        }
        None
    }
}

/// An empty result for today: exactly one weekday key, holding no items.
pub fn create_empty_result() -> (r: AniItemResult)
    ensures
        r.wf(),
        r.entries@.len() == 1,
        r.entries@[0].1@.len() == 0,
        exists|n: int| 0 <= n < 7 && r.entries@[0].0@ == spec_weekday_name_cn(n),
{
    let weekday = get_week_day_of_today();
    let items: Vec<AniItem> = Vec::new();
    let mut entries: Vec<(String, Vec<AniItem>)> = Vec::new();
    entries.push((weekday, items));
    AniItemResult { entries }
}

/// A stored update row.
#[derive(Debug, Clone, PartialEq, Eq)]
pub struct Ani {
    pub id: i64,
    pub title: String,
    pub update_count: String,
    pub update_info: String,
    pub image_url: String,
    pub detail_url: String,
    pub update_time: i64,
    pub platform: String,
}

/// A collection (favourite) row.
#[derive(Debug, Clone, PartialEq, Eq)]
pub struct AniCollect {
    pub id: i64,
    pub user_id: String,
    pub ani_item_id: i64,
    pub ani_title: String,
    pub collect_time: i64,
    pub is_watched: bool,
}

/// A watch-history row.
#[derive(Debug, Clone, PartialEq, Eq)]
pub struct AniWatchHistory {
    pub id: i64,
    pub user_id: String,
    pub ani_item_id: i64,
    pub watched_time: i64,
}

/// The transfer form of an [`Ani`] row, with the update time also rendered
/// as text.
#[derive(Debug, Clone, PartialEq, Eq)]
pub struct AniDto {
    pub id: i64,
    pub title: String,
    pub update_count: String,
    pub update_info: String,
    pub image_url: String,
    pub detail_url: String,
    pub update_time: i64,
    pub update_time_str: String,
    pub platform: String,
}

impl AniDto {
    /// Carry an [`Ani`] row over, rendering its update time; the rendered
    /// text depends on the machine's time zone and is not pinned down.
    pub fn from_ani(a: Ani) -> (r: AniDto)
        ensures
            r.id == a.id,
            r.title@ == a.title@,
            r.update_count@ == a.update_count@,
            r.update_info@ == a.update_info@,
            r.image_url@ == a.image_url@,
            r.detail_url@ == a.detail_url@,
            r.update_time == a.update_time,
            r.platform@ == a.platform@,
    {
        let update_time_str = format_timestamp(a.update_time, "%Y-%m-%d %H:%M:%S");
        AniDto {
            id: a.id,
            title: a.title,
            update_count: a.update_count,
            update_info: a.update_info,
            image_url: a.image_url,
            detail_url: a.detail_url,
            update_time: a.update_time,
            update_time_str,
            platform: a.platform,
        }
    }
}

/// A collection row as it is written back by the UI.
#[derive(Debug, Clone, PartialEq, Eq)]
pub struct AniColl {
    pub user_id: String,
    pub ani_item_id: i64,
    pub ani_title: String,
    pub collect_time: String,
    pub is_watched: bool,
}

/// A watch event as it is written back by the UI.
#[derive(Debug, Clone, PartialEq, Eq)]
pub struct AniWatch {
    pub user_id: String,
    pub ani_item_id: i64,
    pub watched_time: i64,
}

/// A joined history row: an update together with its watch state.
#[derive(Debug, Clone, PartialEq, Eq)]
pub struct AniHistoryInfo {
    pub id: i64,
    pub title: String,
    pub update_count: String,
    pub update_info: String,
    pub image_url: String,
    pub detail_url: String,
    pub is_watched: bool,
    pub user_id: String,
    pub update_time: i64,
    pub watched_time: Option<i64>,
    pub platform: String,
    pub total_count: i64,
}

} // verus!

//! The configuration types: data sources grouped by category, and the
//! extraction of timer-job descriptors from the `anime` category.
//!
//! The surrounding application reads these from a configuration file; the
//! library receives them as plain values.

use vstd::prelude::*;

verus! {

use crate::task::TaskMeta;
use crate::task::TaskMetaView;
use crate::textutil::str_eq;

/// One configured data source.
#[derive(Debug, Clone, PartialEq, Eq)]
pub struct DataSource {
    pub name: String,
    pub url: String,
    pub cmd: String,
    pub cron_expr: String,
    pub retry_times: u8,
}

/// The abstract value of a [`DataSource`].
pub struct DataSourceView {
    pub name: Seq<char>,
    pub url: Seq<char>,
    pub cmd: Seq<char>,
    pub cron_expr: Seq<char>,
    pub retry_times: u8,
}

impl View for DataSource {
    type V = DataSourceView;

    open spec fn view(&self) -> DataSourceView {
        DataSourceView {
            name: self.name@,
            url: self.url@,
            cmd: self.cmd@,
            cron_expr: self.cron_expr@,
            retry_times: self.retry_times,
        }
    }
}

/// The data sources of one category, keyed by the category's name.
#[derive(Debug, Clone, PartialEq, Eq)]
pub struct SourceCategory {
    pub category: String,
    pub sources: Vec<DataSource>,
}

/// The application configuration: data sources grouped by category. The
/// category names are pairwise distinct, as keys of a map.
#[derive(Debug, Clone, PartialEq, Eq)]
pub struct AppConfig {
    pub datasource: Vec<SourceCategory>,
}

impl AppConfig {
    /// The category names are pairwise distinct.
    pub open spec fn wf(&self) -> bool {
        forall|i: int, j: int|
            0 <= i < j < self.datasource@.len() ==> self.datasource@[i].category@
                != self.datasource@[j].category@
    }

    /// The sources filed under `key`, if that category exists.
    pub fn get(&self, key: &str) -> (r: Option<&Vec<DataSource>>)
        ensures
            match r {
                Some(v) => exists|i: int|
                    0 <= i < self.datasource@.len() && self.datasource@[i].category@ == key@ && v@
                        == self.datasource@[i].sources@,
                None => forall|i: int|
                    0 <= i < self.datasource@.len() ==> self.datasource@[i].category@ != key@,
            },
    {
        let n = self.datasource.len();
        let mut i: usize = 0;
        while i < n
            invariant
                n == self.datasource@.len(),
                i <= n,
                forall|k: int| 0 <= k < i ==> self.datasource@[k].category@ != key@,
            decreases n - i,
        {
            if str_eq(self.datasource[i].category.as_str(), key) {
                return Some(&self.datasource[i].sources);
            }
            i = i + 1;
        }
        None
    }
}

/// The job descriptor a data source configures: the source's URL becomes
/// the action's argument, the other fields carry over.
pub open spec fn meta_view_of_source(d: DataSourceView) -> TaskMetaView {
    TaskMetaView {
        name: d.name,
        cron_expr: d.cron_expr,
        cmd: d.cmd,
        arg: d.url,
        retry_times: d.retry_times,
    }
}

/// Why no descriptors could be extracted from the configuration.
#[derive(Debug, Clone, PartialEq, Eq, Structural)]
pub enum ConfigError {
    MissingAnimeCategory,
}

/// The timer-job descriptors of the `anime` category, one per configured
/// source and in configuration order; an error when that category is
/// absent.
pub fn load_timer_tasks_config(config: &AppConfig) -> (r: Result<Vec<TaskMeta>, ConfigError>)
    ensures
        match r {
            Ok(metas) => exists|i: int|
                0 <= i < config.datasource@.len() && config.datasource@[i].category@ == "anime"@
                    && metas@.map_values(|m: TaskMeta| m@)
                    == config.datasource@[i].sources@.map_values(
                    |d: DataSource| meta_view_of_source(d@),
                ),
            Err(e) => e == ConfigError::MissingAnimeCategory && forall|i: int|
                0 <= i < config.datasource@.len() ==> config.datasource@[i].category@ != "anime"@,
        },
{
    let sources = match config.get("anime") {
        Some(v) => v,
        None => {
            return Err(ConfigError::MissingAnimeCategory);
        },
    };
    let n = sources.len();
    let mut metas: Vec<TaskMeta> = Vec::new();
    let mut i: usize = 0;
    while i < n
        invariant
            n == sources@.len(),
            i <= n,
            metas@.map_values(|m: TaskMeta| m@) == sources@.subrange(0, i as int).map_values(
                |d: DataSource| meta_view_of_source(d@),
            ),
        decreases n - i,
    {
        let d = &sources[i];
        let meta = TaskMeta {
            name: d.name.clone(),
            cron_expr: d.cron_expr.clone(),
            cmd: d.cmd.clone(),
            arg: d.url.clone(),
            retry_times: d.retry_times,
        };
        let ghost old_metas = metas@;
        let ghost mv = meta@;
        proof {
            assert(mv == meta_view_of_source(sources@[i as int]@));
        }
        metas.push(meta);
        proof {
            assert(metas@.map_values(|m: TaskMeta| m@) =~= old_metas.map_values(
                |m: TaskMeta| m@,
            ).push(mv));
            assert(sources@.subrange(0, i + 1).map_values(|d: DataSource| meta_view_of_source(d@))
                =~= sources@.subrange(0, i as int).map_values(
                |d: DataSource| meta_view_of_source(d@),
            ).push(mv));
            assert(metas@.map_values(|m: TaskMeta| m@) =~= sources@.subrange(0, i + 1).map_values(
                |d: DataSource| meta_view_of_source(d@),
            ));
        }
        i = i + 1;
    }
    proof {
        assert(sources@.subrange(0, n as int) =~= sources@);
    }
    Ok(metas)
}

} // verus!

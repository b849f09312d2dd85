//! The settings that shape a changelog: link templates and the date format.

use vstd::prelude::*;

verus! {

/// Where a changelog is taken from; kept in the settings, not yet acted upon.
#[derive(Debug, Clone, Copy, PartialEq, Eq, Structural)]
pub enum ChangelogSource {
    File,
    Tag,
}

/// An instant as seconds and nanoseconds since the UNIX epoch.
#[derive(Debug, Clone, Copy, PartialEq, Eq, Structural)]
pub struct Timestamp {
    pub secs_since_epoch: u64,
    pub nanos_since_epoch: u32,
}

/// The settings of a run.
pub struct Configuration {
    pub source: ChangelogSource,
    pub last_generation: Timestamp,
    pub date_format: String,
    pub diff_format: String,
    pub commit_detail_page_format: String,
}

pub const DEFAULT_DATE_FORMAT: &'static str = "%Y-%m-%d";

pub const DEFAULT_DIFF_FORMAT: &'static str = "{{repositoryUri}}/branchCompare?baseVersion=GC{{base}}&targetVersion=GC{{latest}}&_a=files";

pub const DEFAULT_COMMIT_DETAIL_PAGE_FORMAT: &'static str = "{{repositoryUri}}/commit/{{commit}}";

/// The settings written where none are stored.
pub open spec fn is_default_configuration(c: Configuration) -> bool {
    &&& c.source == ChangelogSource::File
    &&& c.last_generation == Timestamp { secs_since_epoch: 0, nanos_since_epoch: 0 }
    &&& c.date_format@ == DEFAULT_DATE_FORMAT@
    &&& c.diff_format@ == DEFAULT_DIFF_FORMAT@
    &&& c.commit_detail_page_format@ == DEFAULT_COMMIT_DETAIL_PAGE_FORMAT@
}

impl Configuration {
    /// The settings to use, given what was read from storage: the stored settings where they
    /// could be read, the defaults where they are absent or could not be parsed.
    pub fn new(stored: Option<Configuration>) -> (r: Self)
        ensures
            stored is Some ==> r == stored->Some_0,
            stored is None ==> is_default_configuration(r),
    {
        match stored {
            Some(configuration) => configuration,
            None => Configuration::defaults(),
        }
    }

    /// The default settings: file source, the epoch as last generation, an ISO date and the
    /// two default link templates.
    pub fn defaults() -> (r: Self)
        ensures
            is_default_configuration(r),
    {
        Configuration {
            source: ChangelogSource::File,
            last_generation: Timestamp { secs_since_epoch: 0, nanos_since_epoch: 0 },
            date_format: String::from_str(DEFAULT_DATE_FORMAT),
            diff_format: String::from_str(DEFAULT_DIFF_FORMAT),
            commit_detail_page_format: String::from_str(DEFAULT_COMMIT_DETAIL_PAGE_FORMAT),
        }
    }
}

} // verus!

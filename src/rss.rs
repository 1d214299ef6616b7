//! Automatic download rules for RSS feeds.
use vstd::prelude::*;

verus! {

/// An automatic download rule for RSS feeds.
#[derive(Debug, Clone)]
pub struct RssAutoDownloadRule {
    /// Whether the rule is enabled.
    pub enabled: bool,
    /// The text that a torrent name must contain.
    pub must_contain: String,
    /// The text that a torrent name must not contain.
    pub must_not_contain: String,
    /// Whether the texts that a name must and must not contain are regular expressions.
    pub use_regex: bool,
    /// The episode filter.
    pub episode_filter: String,
    /// Whether the smart episode filter is on.
    pub smart_filter: bool,
    /// The episode ids that the smart filter already matched.
    pub previously_matched_episodes: Vec<String>,
    /// The URLs of the feeds that the rule applies to.
    pub affected_feeds: Vec<String>,
    /// For how many days later matches are ignored.
    pub ignore_days: usize,
    /// When the rule last matched.
    pub last_match: String,
    /// Whether matched torrents are added paused.
    pub add_paused: bool,
    /// The category given to matched torrents.
    pub assigned_category: String,
    /// The directory that matched torrents are saved to.
    pub save_path: String,
}

impl RssAutoDownloadRule {
    /// A builder with nothing set.
    pub fn builder() -> (r: RssAutoDownloadRuleBuilder)
        ensures
            r.is_empty(),
    {
        RssAutoDownloadRuleBuilder::new()
    }
}

/// Builds an `RssAutoDownloadRule`; a field left unset is off, zero or empty.
#[derive(Debug, Clone)]
pub struct RssAutoDownloadRuleBuilder {
    pub enabled: Option<bool>,
    pub must_contain: Option<String>,
    pub must_not_contain: Option<String>,
    pub use_regex: Option<bool>,
    pub episode_filter: Option<String>,
    pub smart_filter: Option<bool>,
    pub previously_matched_episodes: Option<Vec<String>>,
    pub affected_feeds: Option<Vec<String>>,
    pub ignore_days: Option<usize>,
    pub last_match: Option<String>,
    pub add_paused: Option<bool>,
    pub assigned_category: Option<String>,
    pub save_path: Option<String>,
}

impl RssAutoDownloadRuleBuilder {
    /// Whether no field is set.
    pub open spec fn is_empty(&self) -> bool {
        &&& self.enabled is None
        &&& self.must_contain is None
        &&& self.must_not_contain is None
        &&& self.use_regex is None
        &&& self.episode_filter is None
        &&& self.smart_filter is None
        &&& self.previously_matched_episodes is None
        &&& self.affected_feeds is None
        &&& self.ignore_days is None
        &&& self.last_match is None
        &&& self.add_paused is None
        &&& self.assigned_category is None
        &&& self.save_path is None
    }

    /// A builder with nothing set.
    pub fn new() -> (r: RssAutoDownloadRuleBuilder)
        ensures
            r.is_empty(),
    {
        RssAutoDownloadRuleBuilder {
            enabled: None,
            must_contain: None,
            must_not_contain: None,
            use_regex: None,
            episode_filter: None,
            smart_filter: None,
            previously_matched_episodes: None,
            affected_feeds: None,
            ignore_days: None,
            last_match: None,
            add_paused: None,
            assigned_category: None,
            save_path: None,
        }
    }

    /// The rule: each field as set, or off, zero or empty where unset.
    pub fn build(self) -> (r: RssAutoDownloadRule)
        ensures
            r.enabled == match self.enabled {
                Some(v) => v,
                None => false,
            },
            match self.must_contain {
                Some(v) => r.must_contain == v,
                None => r.must_contain@.len() == 0,
            },
            match self.must_not_contain {
                Some(v) => r.must_not_contain == v,
                None => r.must_not_contain@.len() == 0,
            },
            r.use_regex == match self.use_regex {
                Some(v) => v,
                None => false,
            },
            match self.episode_filter {
                Some(v) => r.episode_filter == v,
                None => r.episode_filter@.len() == 0,
            },
            r.smart_filter == match self.smart_filter {
                Some(v) => v,
                None => false,
            },
            match self.previously_matched_episodes {
                Some(v) => r.previously_matched_episodes == v,
                None => r.previously_matched_episodes@.len() == 0,
            },
            match self.affected_feeds {
                Some(v) => r.affected_feeds == v,
                None => r.affected_feeds@.len() == 0,
            },
            r.ignore_days == match self.ignore_days {
                Some(v) => v,
                None => 0,
            },
            match self.last_match {
                Some(v) => r.last_match == v,
                None => r.last_match@.len() == 0,
            },
            r.add_paused == match self.add_paused {
                Some(v) => v,
                None => false,
            },
            match self.assigned_category {
                Some(v) => r.assigned_category == v,
                None => r.assigned_category@.len() == 0,
            },
            match self.save_path {
                Some(v) => r.save_path == v,
                None => r.save_path@.len() == 0,
            },
    {
        let enabled = match self.enabled {
            Some(v) => v,
            None => false,
        };
        let must_contain = match self.must_contain {
            Some(v) => v,
            None => String::new(),
        };
        let must_not_contain = match self.must_not_contain {
            Some(v) => v,
            None => String::new(),
        };
        let use_regex = match self.use_regex {
            Some(v) => v,
            None => false,
        };
        let episode_filter = match self.episode_filter {
            Some(v) => v,
            None => String::new(),
        };
        let smart_filter = match self.smart_filter {
            Some(v) => v,
            None => false,
        };
        let previously_matched_episodes = match self.previously_matched_episodes {
            Some(v) => v,
            None => Vec::new(),
        };
        let affected_feeds = match self.affected_feeds {
            Some(v) => v,
            None => Vec::new(),
        };
        let ignore_days = match self.ignore_days {
            Some(v) => v,
            None => 0,
        };
        let last_match = match self.last_match {
            Some(v) => v,
            None => String::new(),
        };
        let add_paused = match self.add_paused {
            Some(v) => v,
            None => false,
        };
        let assigned_category = match self.assigned_category {
            Some(v) => v,
            None => String::new(),
        };
        let save_path = match self.save_path {
            Some(v) => v,
            None => String::new(),
        };
        RssAutoDownloadRule {
            enabled,
            must_contain,
            must_not_contain,
            use_regex,
            episode_filter,
            smart_filter,
            previously_matched_episodes,
            affected_feeds,
            ignore_days,
            last_match,
            add_paused,
            assigned_category,
            save_path,
        }
    }

    /// Sets whether the rule is enabled.
    pub fn enabled(self, value: bool) -> (r: Self)
        ensures
            r == (RssAutoDownloadRuleBuilder { enabled: Some(value), ..self }),
    {
        RssAutoDownloadRuleBuilder { enabled: Some(value), ..self }
    }

    /// Sets the text that a torrent name must contain.
    pub fn must_contain(self, value: String) -> (r: Self)
        ensures
            r == (RssAutoDownloadRuleBuilder { must_contain: Some(value), ..self }),
    {
        RssAutoDownloadRuleBuilder { must_contain: Some(value), ..self }
    }

    /// Sets the text that a torrent name must not contain.
    pub fn must_not_contain(self, value: String) -> (r: Self)
        ensures
            r == (RssAutoDownloadRuleBuilder { must_not_contain: Some(value), ..self }),
    {
        RssAutoDownloadRuleBuilder { must_not_contain: Some(value), ..self }
    }

    /// Sets whether the texts that a name must and must not contain are regular expressions.
    pub fn use_regex(self, value: bool) -> (r: Self)
        ensures
            r == (RssAutoDownloadRuleBuilder { use_regex: Some(value), ..self }),
    {
        RssAutoDownloadRuleBuilder { use_regex: Some(value), ..self }
    }

    /// Sets the episode filter.
    pub fn episode_filter(self, value: String) -> (r: Self)
        ensures
            r == (RssAutoDownloadRuleBuilder { episode_filter: Some(value), ..self }),
    {
        RssAutoDownloadRuleBuilder { episode_filter: Some(value), ..self }
    }

    /// Sets whether the smart episode filter is on.
    pub fn smart_filter(self, value: bool) -> (r: Self)
        ensures
            r == (RssAutoDownloadRuleBuilder { smart_filter: Some(value), ..self }),
    {
        RssAutoDownloadRuleBuilder { smart_filter: Some(value), ..self }
    }

    /// Sets the episode ids that the smart filter already matched.
    pub fn previously_matched_episodes(self, value: Vec<String>) -> (r: Self)
        ensures
            r == (RssAutoDownloadRuleBuilder { previously_matched_episodes: Some(value), ..self }),
    {
        RssAutoDownloadRuleBuilder { previously_matched_episodes: Some(value), ..self }
    }

    /// Sets the URLs of the feeds that the rule applies to.
    pub fn affected_feeds(self, value: Vec<String>) -> (r: Self)
        ensures
            r == (RssAutoDownloadRuleBuilder { affected_feeds: Some(value), ..self }),
    {
        RssAutoDownloadRuleBuilder { affected_feeds: Some(value), ..self }
    }

    /// Sets for how many days later matches are ignored.
    pub fn ignore_days(self, value: usize) -> (r: Self)
        ensures
            r == (RssAutoDownloadRuleBuilder { ignore_days: Some(value), ..self }),
    {
        RssAutoDownloadRuleBuilder { ignore_days: Some(value), ..self }
    }

    /// Sets when the rule last matched.
    pub fn last_match(self, value: String) -> (r: Self)
        ensures
            r == (RssAutoDownloadRuleBuilder { last_match: Some(value), ..self }),
    {
        RssAutoDownloadRuleBuilder { last_match: Some(value), ..self }
    }

    /// Sets whether matched torrents are added paused.
    pub fn add_paused(self, value: bool) -> (r: Self)
        ensures
            r == (RssAutoDownloadRuleBuilder { add_paused: Some(value), ..self }),
    {
        RssAutoDownloadRuleBuilder { add_paused: Some(value), ..self }
    }

    /// Sets the category given to matched torrents.
    pub fn assigned_category(self, value: String) -> (r: Self)
        ensures
            r == (RssAutoDownloadRuleBuilder { assigned_category: Some(value), ..self }),
    {
        RssAutoDownloadRuleBuilder { assigned_category: Some(value), ..self }
    }

    /// Sets the directory that matched torrents are saved to.
    pub fn save_path(self, value: String) -> (r: Self)
        ensures
            r == (RssAutoDownloadRuleBuilder { save_path: Some(value), ..self }),
    {
        RssAutoDownloadRuleBuilder { save_path: Some(value), ..self }
    }
}

} // verus!

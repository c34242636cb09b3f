//! Run configuration: the download manager's session options and the
//! channels to follow.

use vstd::prelude::*;

use crate::rule::Rule;

verus! {

/// Process-wide settings: where the channel list and the download manager
/// live, and the session options to apply to the manager.
#[derive(Debug)]
pub struct Config {
    pub channels_config_url: String,
    pub transmission_url: String,
    pub download_dir: Option<String>,
    pub speed_limit_up: Option<i32>,
    pub speed_limit_down: Option<i32>,
    pub download_queue_size: Option<i32>,
    pub seed_queue_size: Option<i32>,
}

/// Session options to send to the download manager. Each limit that is set
/// comes with its switch turned on; one that is not set leaves both alone.
#[derive(Debug)]
pub struct SessionSettings {
    pub download_dir: Option<String>,
    pub speed_limit_up_enabled: Option<bool>,
    pub speed_limit_up: Option<i32>,
    pub speed_limit_down_enabled: Option<bool>,
    pub speed_limit_down: Option<i32>,
    pub download_queue_enabled: Option<bool>,
    pub download_queue_size: Option<i32>,
    pub seed_queue_enabled: Option<bool>,
    pub seed_queue_size: Option<i32>,
}

/// The switch that goes with an optional limit: on when the limit is set,
/// untouched otherwise.
pub open spec fn switch_for(v: Option<i32>) -> Option<bool> {
    if v is Some {
        Some(true)
    } else {
        None
    }
}

fn switch_of(v: Option<i32>) -> (r: Option<bool>)
    ensures
        r == switch_for(v),
{
    if v.is_some() {
        Some(true)
    } else {
        None
    }
}

impl Config {
    /// The session options that this configuration asks of the download manager.
    pub fn session_settings(&self) -> (r: SessionSettings)
        ensures
            r.download_dir == self.download_dir,
            r.speed_limit_up == self.speed_limit_up,
            r.speed_limit_up_enabled == switch_for(self.speed_limit_up),
            r.speed_limit_down == self.speed_limit_down,
            r.speed_limit_down_enabled == switch_for(self.speed_limit_down),
            r.download_queue_size == self.download_queue_size,
            r.download_queue_enabled == switch_for(self.download_queue_size),
            r.seed_queue_size == self.seed_queue_size,
            r.seed_queue_enabled == switch_for(self.seed_queue_size),
    {
        let download_dir = match &self.download_dir {
            Some(d) => Some(d.clone()),
            None => None,
        };
        SessionSettings {
            download_dir,
            speed_limit_up_enabled: switch_of(self.speed_limit_up),
            speed_limit_up: self.speed_limit_up,
            speed_limit_down_enabled: switch_of(self.speed_limit_down),
            speed_limit_down: self.speed_limit_down,
            download_queue_enabled: switch_of(self.download_queue_size),
            download_queue_size: self.download_queue_size,
            seed_queue_enabled: switch_of(self.seed_queue_size),
            seed_queue_size: self.seed_queue_size,
        }
    }
}

/// One followed feed: its address, the base directory of its downloads, and
/// its rules in the order in which they are tried.
#[derive(Debug)]
pub struct ChannelConfig {
    pub url: String,
    pub directory: String,
    pub rules: Vec<Rule>,
}

/// Why a channel's rules were refused.
#[derive(Debug, Clone, Copy, PartialEq, Eq, Structural)]
pub enum RuleError {
    /// The rule at this position asks for pattern matching.
    PatternUnsupported { rule: usize },
}

impl ChannelConfig {
    /// Every rule of the channel can be applied.
    pub open spec fn supported(&self) -> bool {
        forall|i: int| 0 <= i < self.rules@.len() ==> #[trigger] self.rules@[i].supported()
    }

    /// Refuses a channel whose rules cannot all be applied, naming the first
    /// rule that asks for pattern matching.
    pub fn check_rules(&self) -> (r: Result<(), RuleError>)
        ensures
            r is Ok <==> self.supported(),
            r matches Err(RuleError::PatternUnsupported { rule }) ==> {
                &&& rule < self.rules@.len()
                &&& !self.rules@[rule as int].supported()
                &&& forall|j: int| 0 <= j < rule ==> #[trigger] self.rules@[j].supported()
            },
    {
        let mut i: usize = 0;
        while i < self.rules.len()
            invariant
                i <= self.rules@.len(),
                forall|j: int| 0 <= j < i ==> #[trigger] self.rules@[j].supported(),
            decreases self.rules@.len() - i,
        {
            if self.rules[i].regex {
                assert(!self.rules@[i as int].supported());
                return Err(RuleError::PatternUnsupported { rule: i });
            }
            i = i + 1;
        }
        Ok(())
    }
}

} // verus!

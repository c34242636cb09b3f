//! Matching rules: which feed titles a channel wants, and where they go.

use vstd::prelude::*;

use crate::text::{contains_text, is_substring, join_dir, join_path, lower_of, to_lower};

verus! {

/// The episode number that a rule counts from when it names none.
pub fn default_starts_episode_at() -> (r: isize)
    ensures
        r == 1,
{
    1
}

/// One rule of a channel: a title that contains `pattern` is wanted, and goes
/// to `directory` under the channel's base directory.
///
/// A rule with `regex` set asks for pattern matching, which this library does
/// not offer: such a rule is refused when a channel is loaded (see
/// `ChannelConfig::check_rules`).
#[derive(Debug)]
pub struct Rule {
    pub regex: bool,
    pub case_insensitive: bool,
    pub pattern: String,
    pub starts_episode_at: isize,
    pub directory: String,
}

impl Rule {
    /// The rule can be applied: it asks for literal matching.
    pub open spec fn supported(&self) -> bool {
        !self.regex
    }

    /// The rule accepts the title `t`: `pattern` is contained in it, after
    /// both are folded to lower case when the rule ignores case.
    pub open spec fn accepts(&self, t: Seq<char>) -> bool {
        if self.case_insensitive {
            is_substring(lower_of(self.pattern@), lower_of(t))
        } else {
            is_substring(self.pattern@, t)
        }
    }

    /// The directory that a title accepted by this rule goes to.
    pub open spec fn target_of(&self, base: Seq<char>) -> Seq<char> {
        join_path(base, self.directory@)
    }

    /// Whether this rule accepts the title `target`.
    pub fn test(&self, target: &str) -> (r: bool)
        requires
            self.supported(),
        ensures
            r == self.accepts(target@),
    {
        if self.case_insensitive {
            let t = to_lower(target);
            let p = to_lower(self.pattern.as_str());
            contains_text(t.as_str(), p.as_str())
        } else {
            contains_text(target, self.pattern.as_str())
        }
    }

    /// The directory `base` joined with this rule's own subdirectory.
    pub fn directory(&self, base: &str) -> (r: String)
        ensures
            r@ == self.target_of(base@),
    {
        join_dir(base, self.directory.as_str())
    }
}

} // verus!

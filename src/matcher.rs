//! Selecting the feed entries that a channel's rules want.

use vstd::prelude::*;

use crate::config::ChannelConfig;
use crate::rule::Rule;

verus! {

/// One entry of a feed: its title and the link that a transfer is made from.
#[derive(Debug, Clone)]
pub struct FeedEntry {
    pub title: String,
    pub link: String,
}

/// A channel whose feed was read: its configuration and the entries it held.
#[derive(Debug)]
pub struct ParsedChannel {
    pub config: ChannelConfig,
    pub entries: Vec<FeedEntry>,
}

/// An entry that a rule accepted: which channel and entry, which rule, and
/// the directory its transfer goes to.
#[derive(Debug, Clone)]
pub struct MatchResult {
    pub channel: usize,
    pub entry: usize,
    pub rule: usize,
    pub directory: String,
}

/// A match as values: channel, entry, rule, target directory.
pub type MatchView = (int, int, int, Seq<char>);

impl View for MatchResult {
    type V = MatchView;

    open spec fn view(&self) -> MatchView {
        (self.channel as int, self.entry as int, self.rule as int, self.directory@)
    }
}

/// The first rule at position `k` or later that accepts the title `t`.
pub open spec fn first_from(rules: Seq<Rule>, t: Seq<char>, k: int) -> Option<int>
    decreases rules.len() - k,
{
    if k < 0 || k >= rules.len() {
        None
    } else if rules[k].accepts(t) {
        Some(k)
    } else {
        first_from(rules, t, k + 1)
    }
}

/// The first rule, in declared order, that accepts the title `t`.
pub open spec fn first_match(rules: Seq<Rule>, t: Seq<char>) -> Option<int> {
    first_from(rules, t, 0)
}

proof fn lemma_first_from(rules: Seq<Rule>, t: Seq<char>, k: int)
    requires
        0 <= k <= rules.len(),
    ensures
        match first_from(rules, t, k) {
            Some(m) => {
                &&& k <= m < rules.len()
                &&& rules[m].accepts(t)
                &&& forall|j: int| k <= j < m ==> !#[trigger] rules[j].accepts(t)
            },
            None => forall|j: int| k <= j < rules.len() ==> !#[trigger] rules[j].accepts(t),
        },
    decreases rules.len() - k,
{
    if k < rules.len() && !rules[k].accepts(t) {
        lemma_first_from(rules, t, k + 1);
    }
}

/// Rules are tried in declared order: when two rules accept a title, the
/// match is never the later one, and it is the earlier one unless a rule
/// before that accepts too. In particular a title that the first rule
/// accepts goes by the first rule.
pub proof fn lemma_earlier_rule_wins(rules: Seq<Rule>, t: Seq<char>, i: int, j: int)
    requires
        0 <= i < j < rules.len(),
        rules[i].accepts(t),
        rules[j].accepts(t),
    ensures
        first_match(rules, t) != Some(j),
        first_match(rules, t) is Some,
        first_match(rules, t)->0 <= i,
        i == 0 ==> first_match(rules, t) == Some(0int),
{
    lemma_first_from(rules, t, 0);
}

/// Every rule of the sequence can be applied.
pub open spec fn all_supported(rules: Seq<Rule>) -> bool {
    forall|i: int| 0 <= i < rules.len() ==> #[trigger] rules[i].supported()
}

/// The position of the first rule that accepts `title`; `None` when none does.
pub fn find_rule(title: &str, rules: &Vec<Rule>) -> (r: Option<usize>)
    requires
        all_supported(rules@),
    ensures
        match r {
            Some(i) => first_match(rules@, title@) == Some(i as int),
            None => first_match(rules@, title@) is None,
        },
        match r {
            Some(i) => {
                &&& i < rules@.len()
                &&& rules@[i as int].accepts(title@)
                &&& forall|j: int| 0 <= j < i ==> !#[trigger] rules@[j].accepts(title@)
            },
            None => forall|j: int| 0 <= j < rules@.len() ==> !#[trigger] rules@[j].accepts(title@),
        },
{
    let mut i: usize = 0;
    while i < rules.len()
        invariant
            all_supported(rules@),
            i <= rules@.len(),
            first_match(rules@, title@) == first_from(rules@, title@, i as int),
            forall|j: int| 0 <= j < i ==> !#[trigger] rules@[j].accepts(title@),
        decreases rules@.len() - i,
    {
        assert(rules@[i as int].supported());
        if rules[i].test(title) {
            return Some(i);
        }
        i = i + 1;
    }
    None
}

/// The match that entry `e` of channel `ci` gives, if any.
pub open spec fn entry_match(ci: int, c: ParsedChannel, e: int) -> Option<MatchView> {
    match first_match(c.config.rules@, c.entries@[e].title@) {
        Some(ri) => Some((ci, e, ri, c.config.rules@[ri].target_of(c.config.directory@))),
        None => None,
    }
}

/// The matches of the first `n` entries of channel `ci`, in entry order.
pub open spec fn channel_matches(ci: int, c: ParsedChannel, n: int) -> Seq<MatchView>
    decreases n,
{
    if n <= 0 {
        Seq::empty()
    } else {
        let prev = channel_matches(ci, c, n - 1);
        match entry_match(ci, c, n - 1) {
            Some(m) => prev.push(m),
            None => prev,
        }
    }
}

/// The matches of the first `n` channels, channel by channel.
pub open spec fn all_matches(cs: Seq<ParsedChannel>, n: int) -> Seq<MatchView>
    decreases n,
{
    if n <= 0 {
        Seq::empty()
    } else {
        all_matches(cs, n - 1) + channel_matches(n - 1, cs[n - 1], cs[n - 1].entries@.len() as int)
    }
}

/// Every channel's rules can be applied.
pub open spec fn channels_supported(cs: Seq<ParsedChannel>) -> bool {
    forall|i: int| 0 <= i < cs.len() ==> #[trigger] cs[i].config.supported()
}

/// Views of a sequence of matches.
pub open spec fn views_of(ms: Seq<MatchResult>) -> Seq<MatchView> {
    ms.map_values(|m: MatchResult| m@)
}

/// Each entry of each channel, tried against its channel's rules: the
/// entries that some rule accepts, with the first such rule and its target
/// directory, channel by channel and in feed order.
pub fn collect_matches(channels: &Vec<ParsedChannel>) -> (r: Vec<MatchResult>)
    requires
        channels_supported(channels@),
    ensures
        views_of(r@) == all_matches(channels@, channels@.len() as int),
{
    let mut out: Vec<MatchResult> = Vec::new();
    let mut ci: usize = 0;
    while ci < channels.len()
        invariant
            channels_supported(channels@),
            ci <= channels@.len(),
            views_of(out@) == all_matches(channels@, ci as int),
        decreases channels@.len() - ci,
    {
        let c = &channels[ci];
        assert(c.config.supported());
        let mut e: usize = 0;
        while e < c.entries.len()
            invariant
                c == channels@[ci as int],
                c.config.supported(),
                ci < channels@.len(),
                e <= c.entries@.len(),
                views_of(out@) == all_matches(channels@, ci as int) + channel_matches(
                    ci as int,
                    *c,
                    e as int,
                ),
            decreases c.entries@.len() - e,
        {
            let found = find_rule(c.entries[e].title.as_str(), &c.config.rules);
            let ghost before = views_of(out@);
            match found {
                Some(ri) => {
                    let directory = c.config.rules[ri].directory(c.config.directory.as_str());
                    let m = MatchResult { channel: ci, entry: e, rule: ri, directory };
                    out.push(m);
                    assert(views_of(out@) =~= before.push(m@));
                },
                None => {},
            }
            assert(views_of(out@) =~= all_matches(channels@, ci as int) + channel_matches(
                ci as int,
                *c,
                e + 1,
            ));
            e = e + 1;
        }
        ci = ci + 1;
    }
    out
}

} // verus!

//! The configuration: global settings and the list of sync rules.

use vstd::prelude::*;
use vstd::string::*;
use crate::text::{contains, str_contains};

verus! {

/// The nanoseconds in one second.
pub const NANOS_PER_SEC: u64 = 1_000_000_000;

/// One rule of the configuration: a source tree and where it is mirrored to.
#[derive(Debug, Clone, PartialEq, Eq)]
pub struct SyncRuleToml {
    pub name: String,
    pub source: String,
    pub destinations: Vec<String>,
    pub sync_on_start: bool,
    pub ignore: String,
    pub options: String,
}

/// The global settings, the rules, and the file they were read from.
#[derive(Debug, Clone, PartialEq, Eq)]
pub struct Config {
    /// The debounce interval, in nanoseconds.
    pub debounce: u64,
    pub verbose: bool,
    pub sync: Vec<SyncRuleToml>,
    pub config_path: String,
}

/// A rule as plain values.
pub struct RuleView {
    pub name: Seq<char>,
    pub source: Seq<char>,
    pub destinations: Seq<Seq<char>>,
    pub sync_on_start: bool,
    pub ignore: Seq<char>,
    pub options: Seq<char>,
}

/// A configuration as plain values.
pub struct ConfigView {
    pub debounce: u64,
    pub verbose: bool,
    pub sync: Seq<RuleView>,
    pub config_path: Seq<char>,
}

impl View for SyncRuleToml {
    type V = RuleView;

    open spec fn view(&self) -> RuleView {
        RuleView {
            name: self.name@,
            source: self.source@,
            destinations: self.destinations.deep_view(),
            sync_on_start: self.sync_on_start,
            ignore: self.ignore@,
            options: self.options@,
        }
    }
}

impl DeepView for SyncRuleToml {
    type V = RuleView;

    open spec fn deep_view(&self) -> RuleView {
        self@
    }
}

impl View for Config {
    type V = ConfigView;

    open spec fn view(&self) -> ConfigView {
        ConfigView {
            debounce: self.debounce,
            verbose: self.verbose,
            sync: self.sync.deep_view(),
            config_path: self.config_path@,
        }
    }
}

/// The test that a destination passes when it holds the filter text.
pub open spec fn keeps(filter: Seq<char>) -> spec_fn(Seq<char>) -> bool {
    |destination: Seq<char>| contains(destination, filter)
}

/// The test that a rule passes when it has a destination left.
pub open spec fn has_destination() -> spec_fn(RuleView) -> bool {
    |rule: RuleView| rule.destinations.len() > 0
}

impl RuleView {
    /// The rule with only those destinations that hold the filter text, in
    /// their order.
    pub open spec fn retain(self, filter: Seq<char>) -> RuleView {
        RuleView { destinations: self.destinations.filter(keeps(filter)), ..self }
    }
}

/// The rules after filtering: each keeps its matching destinations, and a
/// rule without any is dropped.
pub open spec fn retain_rules(rules: Seq<RuleView>, filter: Seq<char>) -> Seq<RuleView> {
    rules.map_values(|rule: RuleView| rule.retain(filter)).filter(has_destination())
}

impl ConfigView {
    /// The configuration with its rules filtered by destination.
    pub open spec fn retain(self, filter: Seq<char>) -> ConfigView {
        ConfigView { sync: retain_rules(self.sync, filter), ..self }
    }
}

/// Whether a rule syncs at startup when it does not say.
pub fn default_sync_on_start() -> (on_start: bool)
    ensures
        !on_start,
{
    false
}

/// The ignore patterns of a rule that names none.
pub fn default_ignore() -> (ignore: String)
    ensures
        ignore@ == ".git\n"@,
{
    String::from_str(".git\n")
}

/// The debounce interval of a configuration that names none: 80 ms, in
/// nanoseconds.
pub fn default_debounce() -> (debounce: u64)
    ensures
        debounce == 80_000_000,
{
    80_000_000
}

/// Filtering the rules one more rule at a time.
pub proof fn lemma_retain_rules_push(rules: Seq<RuleView>, rule: RuleView, filter: Seq<char>)
    ensures
        retain_rules(rules.push(rule), filter) == if rule.retain(filter).destinations.len() > 0 {
            retain_rules(rules, filter).push(rule.retain(filter))
        } else {
            retain_rules(rules, filter)
        },
{
    let each = |rule: RuleView| rule.retain(filter);
    assert(rules.push(rule).map_values(each) =~= rules.map_values(each).push(each(rule)));
    rules.map_values(each).lemma_filter_push(each(rule), has_destination());
}

/// The destinations among `destinations` that hold `filter`, in their order.
pub fn matching_destinations(destinations: &Vec<String>, filter: &str) -> (kept: Vec<String>)
    ensures
        kept.deep_view() == destinations.deep_view().filter(keeps(filter@)),
{
    let mut kept: Vec<String> = Vec::new();
    let mut i: usize = 0;
    while i < destinations.len()
        invariant
            i <= destinations.len(),
            kept.deep_view() == destinations.deep_view().take(i as int).filter(keeps(filter@)),
        decreases destinations.len() - i,
    {
        let ghost seen = destinations.deep_view().take(i as int);
        let destination = &destinations[i];
        proof {
            assert(destinations.deep_view().take(i + 1) =~= seen.push(destination@));
            seen.lemma_filter_push(destination@, keeps(filter@));
        }
        if str_contains(destination.as_str(), filter) {
            kept.push(destination.clone());
        }
        i += 1;
    }
    proof {
        assert(destinations.deep_view().take(i as int) =~= destinations.deep_view());
    }
    kept
}

impl SyncRuleToml {
    /// The rule restricted to the destinations that hold `filter`.
    pub fn retain_destinations(&self, filter: &str) -> (kept: SyncRuleToml)
        ensures
            kept@ == self@.retain(filter@),
    {
        SyncRuleToml {
            name: self.name.clone(),
            source: self.source.clone(),
            destinations: matching_destinations(&self.destinations, filter),
            sync_on_start: self.sync_on_start,
            ignore: self.ignore.clone(),
            options: self.options.clone(),
        }
    }
}

impl Config {
    /// Keeps, in every rule, only the destinations that hold `filter`, and
    /// drops the rules that are left without a destination. Everything else
    /// stays as it is.
    pub fn retain_destinations(&mut self, filter: &str)
        ensures
            final(self)@ == old(self)@.retain(filter@),
    {
        let mut rules: Vec<SyncRuleToml> = Vec::new();
        let mut i: usize = 0;
        while i < self.sync.len()
            invariant
                i <= self.sync.len(),
                *self == *old(self),
                rules.deep_view() == retain_rules(self.sync.deep_view().take(i as int), filter@),
            decreases self.sync.len() - i,
        {
            let ghost seen = self.sync.deep_view().take(i as int);
            let kept = self.sync[i].retain_destinations(filter);
            proof {
                assert(self.sync.deep_view().take(i + 1) =~= seen.push(self.sync[i as int]@));
                lemma_retain_rules_push(seen, self.sync[i as int]@, filter@);
            }
            if kept.destinations.len() > 0 {
                rules.push(kept);
            }
            i += 1;
        }
        proof {
            assert(self.sync.deep_view().take(i as int) =~= self.sync.deep_view());
        }
        self.sync = rules;
    }
}

} // verus!

//! The items of one generation: every rule fanned out by destination, and
//! the item that watches the configuration file.

use vstd::prelude::*;
use vstd::string::*;
use crate::config::{keeps, lemma_retain_rules_push, retain_rules};
use crate::config::{Config, ConfigView, RuleView, SyncRuleToml};
use crate::sync_item::{ItemView, SyncItem, Target};
use crate::text::contains;

verus! {

impl RuleView {
    /// The item that mirrors the rule's source to `destination`: it has the
    /// rule's name, source, start flag, ignore patterns and options, and the
    /// global debounce interval and verbosity.
    pub open spec fn item(self, destination: Seq<char>, debounce: u64, verbose: bool) -> ItemView {
        ItemView {
            name: self.name,
            source: self.source,
            destination,
            sync_on_start: self.sync_on_start,
            ignore: self.ignore,
            options: self.options,
            debounce,
            verbose,
            target: Target::Project,
        }
    }

    /// The rule's items: one for each destination, in their order.
    pub open spec fn items(self, debounce: u64, verbose: bool) -> Seq<ItemView> {
        Seq::new(
            self.destinations.len(),
            |j: int| self.item(self.destinations[j], debounce, verbose),
        )
    }
}

/// The items of all rules, rule after rule.
pub open spec fn fan_out(rules: Seq<RuleView>, debounce: u64, verbose: bool) -> Seq<ItemView>
    decreases rules.len(),
{
    if rules.len() == 0 {
        Seq::empty()
    } else {
        fan_out(rules.drop_last(), debounce, verbose) + rules.last().items(debounce, verbose)
    }
}

/// The items of a generation: those of the rules, then the one item that
/// watches the configuration file.
pub open spec fn generation(config: ConfigView) -> Seq<ItemView> {
    fan_out(config.sync, config.debounce, config.verbose).push(
        ItemView::config_file(config.config_path, config.debounce, config.verbose),
    )
}

/// The test that an item passes when its destination holds the filter text.
pub open spec fn reaches(filter: Seq<char>) -> spec_fn(ItemView) -> bool {
    |item: ItemView| contains(item.destination, filter)
}

/// The configuration that a generation is built from: the one read, with
/// its destinations filtered if there is a filter, and with the verbosity
/// asked for.
pub open spec fn selected(config: ConfigView, filter: Option<Seq<char>>, verbose: bool) -> ConfigView {
    let kept = match filter {
        Some(text) => config.retain(text),
        None => config,
    };
    ConfigView { verbose, ..kept }
}

/// The items of one generation.
#[derive(Debug, Clone, PartialEq, Eq)]
pub struct Projects(pub Vec<SyncItem>);

impl View for Projects {
    type V = Seq<ItemView>;

    open spec fn view(&self) -> Seq<ItemView> {
        self.0.deep_view()
    }
}

impl SyncRuleToml {
    /// The item that mirrors the rule's source to `destination`.
    pub fn item(&self, destination: &str, debounce: u64, verbose: bool) -> (item: SyncItem)
        ensures
            item@ == self@.item(destination@, debounce, verbose),
    {
        SyncItem {
            name: self.name.clone(),
            source: self.source.clone(),
            destination: String::from_str(destination),
            sync_on_start: self.sync_on_start,
            ignore: self.ignore.clone(),
            options: self.options.clone(),
            debounce,
            verbose,
            target: Target::Project,
        }
    }
}

impl Projects {
    /// Builds the items of a generation from its configuration, and from
    /// nothing else: one item for each destination of each rule, in the
    /// order of the rules and of their destinations, then the item that
    /// watches the configuration file.
    pub fn new(config: Config) -> (projects: Projects)
        ensures
            projects@ == generation(config@),
    {
        let mut items: Vec<SyncItem> = Vec::new();
        let mut i: usize = 0;
        while i < config.sync.len()
            invariant
                i <= config.sync.len(),
                items.deep_view() == fan_out(
                    config.sync.deep_view().take(i as int),
                    config.debounce,
                    config.verbose,
                ),
            decreases config.sync.len() - i,
        {
            let rule = &config.sync[i];
            let ghost done = items.deep_view();
            let ghost all = rule@.items(config.debounce, config.verbose);
            let mut j: usize = 0;
            while j < rule.destinations.len()
                invariant
                    j <= rule.destinations.len(),
                    all == rule@.items(config.debounce, config.verbose),
                    items.deep_view() == done + all.take(j as int),
                decreases rule.destinations.len() - j,
            {
                let ghost before = items.deep_view();
                let item = rule.item(rule.destinations[j].as_str(), config.debounce, config.verbose);
                items.push(item);
                proof {
                    assert(items.deep_view() =~= before.push(item@));
                }
                j += 1;
            }
            proof {
                let seen = config.sync.deep_view().take(i + 1);
                assert(seen.drop_last() =~= config.sync.deep_view().take(i as int));
            }
            i += 1;
        }
        let watch = SyncItem::new_config_file_sync(
            config.config_path.as_str(),
            config.debounce,
            config.verbose,
        );
        items.push(watch);
        proof {
            assert(config.sync.deep_view().take(i as int) =~= config.sync.deep_view());
        }
        Projects(items)
    }

    /// Builds the items of the next generation from a configuration as it
    /// was read: with a filter, only the destinations that hold it are
    /// kept; the verbosity asked for replaces the configuration's own.
    pub fn rebuild(config: Config, filter: Option<&str>, verbose: bool) -> (projects: Projects)
        ensures
            projects@ == generation(
                selected(
                    config@,
                    match filter {
                        Some(text) => Some(text@),
                        None => None,
                    },
                    verbose,
                ),
            ),
    {
        let mut config = config;
        match filter {
            Some(text) => {
                config.retain_destinations(text);
            },
            None => {},
        }
        config.verbose = verbose;
        Projects::new(config)
    }

    /// How many items the generation has.
    pub fn len(&self) -> (len: usize)
        ensures
            len == self@.len(),
    {
        self.0.len()
    }
}

/// The items of the rules, with one more rule at the end.
pub proof fn lemma_fan_out_push(rules: Seq<RuleView>, rule: RuleView, debounce: u64, verbose: bool)
    ensures
        fan_out(rules.push(rule), debounce, verbose) == fan_out(rules, debounce, verbose)
            + rule.items(debounce, verbose),
{
    assert(rules.push(rule).drop_last() =~= rules);
}

/// A generation has one item for each destination of each rule and one
/// more; the last one watches the configuration file, and every other one
/// is a project item with the global debounce interval and verbosity.
pub proof fn lemma_generation_shape(config: ConfigView)
    ensures
        generation(config).len() >= 1,
        generation(config).last() == ItemView::config_file(
            config.config_path,
            config.debounce,
            config.verbose,
        ),
        forall|k: int|
            0 <= k < generation(config).len() - 1 ==> {
                &&& (#[trigger] generation(config)[k]).target is Project
                &&& generation(config)[k].debounce == config.debounce
                &&& generation(config)[k].verbose == config.verbose
            },
{
    lemma_fan_out_items(config.sync, config.debounce, config.verbose);
}

/// Every item of the rules comes from one rule and one of its destinations.
pub proof fn lemma_fan_out_items(rules: Seq<RuleView>, debounce: u64, verbose: bool)
    ensures
        forall|k: int|
            0 <= k < fan_out(rules, debounce, verbose).len() ==> exists|i: int, j: int|
                {
                    &&& 0 <= i < rules.len()
                    &&& 0 <= j < rules[i].destinations.len()
                    &&& #[trigger] fan_out(rules, debounce, verbose)[k] == #[trigger] rules[i].item(
                        rules[i].destinations[j],
                        debounce,
                        verbose,
                    )
                },
    decreases rules.len(),
{
    if rules.len() > 0 {
        let front = rules.drop_last();
        let last = rules.last();
        lemma_fan_out_items(front, debounce, verbose);
        let all = fan_out(rules, debounce, verbose);
        let head = fan_out(front, debounce, verbose);
        assert forall|k: int| 0 <= k < all.len() implies exists|i: int, j: int|
            {
                &&& 0 <= i < rules.len()
                &&& 0 <= j < rules[i].destinations.len()
                &&& #[trigger] all[k] == #[trigger] rules[i].item(
                    rules[i].destinations[j],
                    debounce,
                    verbose,
                )
            } by {
            if k < head.len() {
                let (i, j) = choose|i: int, j: int|
                    {
                        &&& 0 <= i < front.len()
                        &&& 0 <= j < front[i].destinations.len()
                        &&& #[trigger] head[k] == #[trigger] front[i].item(
                            front[i].destinations[j],
                            debounce,
                            verbose,
                        )
                    };
                assert(all[k] == rules[i].item(rules[i].destinations[j], debounce, verbose));
            }
        }
    }
}

/// The items that a rule makes for a list of destinations.
spec fn items_for(rule: RuleView, destinations: Seq<Seq<char>>, debounce: u64, verbose: bool) -> Seq<
    ItemView,
> {
    Seq::new(destinations.len(), |j: int| rule.item(destinations[j], debounce, verbose))
}

proof fn lemma_items_for_filtered(
    rule: RuleView,
    destinations: Seq<Seq<char>>,
    filter: Seq<char>,
    debounce: u64,
    verbose: bool,
)
    ensures
        items_for(rule, destinations.filter(keeps(filter)), debounce, verbose) == items_for(
            rule,
            destinations,
            debounce,
            verbose,
        ).filter(reaches(filter)),
    decreases destinations.len(),
{
    reveal(Seq::filter);
    if destinations.len() == 0 {
        assert(items_for(rule, destinations.filter(keeps(filter)), debounce, verbose)
            =~= Seq::<ItemView>::empty());
    } else {
        let front = destinations.drop_last();
        let last = destinations.last();
        lemma_items_for_filtered(rule, front, filter, debounce, verbose);
        let made = items_for(rule, front, debounce, verbose);
        let item = rule.item(last, debounce, verbose);
        assert(items_for(rule, destinations, debounce, verbose) =~= made.push(item));
        made.lemma_filter_push(item, reaches(filter));
        let kept = front.filter(keeps(filter));
        assert(items_for(rule, kept.push(last), debounce, verbose) =~= items_for(
            rule,
            kept,
            debounce,
            verbose,
        ).push(item));
    }
}

/// Filtering a rule's destinations and then making its items gives the
/// rule's items whose destination holds the filter text.
pub proof fn lemma_rule_filtered(rule: RuleView, filter: Seq<char>, debounce: u64, verbose: bool)
    ensures
        rule.retain(filter).items(debounce, verbose) == rule.items(debounce, verbose).filter(
            reaches(filter),
        ),
{
    lemma_items_for_filtered(rule, rule.destinations, filter, debounce, verbose);
    assert(rule.retain(filter).items(debounce, verbose) =~= items_for(
        rule,
        rule.destinations.filter(keeps(filter)),
        debounce,
        verbose,
    ));
}

/// Filtering selects a subset of the destinations and changes nothing else:
/// the project items built from the filtered rules are exactly those built
/// from all rules whose destination holds the filter text, in the same
/// order.
pub proof fn lemma_fan_out_filtered(
    rules: Seq<RuleView>,
    filter: Seq<char>,
    debounce: u64,
    verbose: bool,
)
    ensures
        fan_out(retain_rules(rules, filter), debounce, verbose) == fan_out(
            rules,
            debounce,
            verbose,
        ).filter(reaches(filter)),
    decreases rules.len(),
{
    if rules.len() > 0 {
        let front = rules.drop_last();
        let last = rules.last();
        lemma_fan_out_filtered(front, filter, debounce, verbose);
        assert(rules =~= front.push(last));
        lemma_retain_rules_push(front, last, filter);
        lemma_rule_filtered(last, filter, debounce, verbose);
        lemma_fan_out_push(retain_rules(front, filter), last.retain(filter), debounce, verbose);
        Seq::filter_distributes_over_add(
            fan_out(front, debounce, verbose),
            last.items(debounce, verbose),
            reaches(filter),
        );
        if last.retain(filter).destinations.len() == 0 {
            assert(fan_out(front, debounce, verbose).filter(reaches(filter)) + Seq::<
                ItemView,
            >::empty() =~= fan_out(front, debounce, verbose).filter(reaches(filter)));
        }
    }
}

} // verus!

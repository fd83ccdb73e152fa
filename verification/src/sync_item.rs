//! A watched item: one source tree, one destination, and how its transfer
//! is invoked.

use vstd::prelude::*;
use vstd::string::*;
use crate::paths::{home_expanded, join, path_join, tilde};
use crate::text::ends_with;

verus! {

/// The name of the item that watches the configuration file.
pub const SELF_CONFIG: &'static str = "project-sync-self-config";

/// The options that every transfer is invoked with: a timeout on the
/// transfer and one on the connection.
pub const RSYNC_DEFAULT_OPTIONS: &'static str = "--timeout=64 -az -e 'ssh -o ConnectTimeout=64'";

/// The directory that holds the ignore lists, before home expansion.
pub const CACHE_DIR: &'static str = "~/.cache/project-sync";

/// What is appended to an item's name to name its ignore list.
pub const IGNORE_SUFFIX: &'static str = ".rsync-ignore";

/// What a change on a watched path means.
#[derive(Debug, Clone, Copy, PartialEq, Eq, Structural)]
pub enum Target {
    /// A source tree: a change is mirrored to the destination.
    Project,
    /// The configuration file: a change ends the generation.
    ConfigReload,
}

/// A change notification: the item it belongs to and when it was detected.
#[derive(Debug, Clone, PartialEq, Eq)]
pub struct SyncUpdate {
    pub name: String,
    /// The time of detection, in nanoseconds.
    pub update: u64,
}

/// One source tree and one destination, with the settings of the rule they
/// come from.
#[derive(Debug, Clone, PartialEq, Eq)]
pub struct SyncItem {
    pub name: String,
    pub source: String,
    pub destination: String,
    pub sync_on_start: bool,
    pub ignore: String,
    pub options: String,
    /// The debounce interval, in nanoseconds.
    pub debounce: u64,
    pub verbose: bool,
    pub target: Target,
}

/// An item as plain values.
pub struct ItemView {
    pub name: Seq<char>,
    pub source: Seq<char>,
    pub destination: Seq<char>,
    pub sync_on_start: bool,
    pub ignore: Seq<char>,
    pub options: Seq<char>,
    pub debounce: u64,
    pub verbose: bool,
    pub target: Target,
}

impl View for SyncItem {
    type V = ItemView;

    open spec fn view(&self) -> ItemView {
        ItemView {
            name: self.name@,
            source: self.source@,
            destination: self.destination@,
            sync_on_start: self.sync_on_start,
            ignore: self.ignore@,
            options: self.options@,
            debounce: self.debounce,
            verbose: self.verbose,
            target: self.target,
        }
    }
}

impl DeepView for SyncItem {
    type V = ItemView;

    open spec fn deep_view(&self) -> ItemView {
        self@
    }
}

impl ItemView {
    /// The item that watches the configuration file at `config_path`: source
    /// and destination are both that path, it never syncs at startup, and it
    /// has neither ignore patterns nor options.
    pub open spec fn config_file(config_path: Seq<char>, debounce: u64, verbose: bool) -> ItemView {
        ItemView {
            name: SELF_CONFIG@,
            source: config_path,
            destination: config_path,
            sync_on_start: false,
            ignore: Seq::empty(),
            options: Seq::empty(),
            debounce,
            verbose,
            target: Target::ConfigReload,
        }
    }

    /// The name of the file that holds the item's ignore patterns. Items of
    /// one rule share the name, and so the file.
    pub open spec fn ignore_file_name(self) -> Seq<char> {
        self.name + IGNORE_SUFFIX@
    }

    /// The part of the command line that the rule decides: its options, if
    /// it has any, and the reference to the ignore list at `ignore_path`.
    pub open spec fn rsync_extras(self, ignore_path: Seq<char>) -> Seq<char> {
        let options = if self.options.len() == 0 {
            Seq::<char>::empty()
        } else {
            self.options + " "@
        };
        options + "--exclude-from='"@ + ignore_path + "'"@
    }

    /// The command line of a transfer: the tool, the flag that lists changes
    /// if the item is verbose, the default options, the rule's part, the
    /// source, and the destination in single quotes.
    pub open spec fn command_line(self, ignore_path: Seq<char>) -> Seq<char> {
        let verbosity = if self.verbose {
            "--itemize-changes "@
        } else {
            Seq::<char>::empty()
        };
        "rsync "@ + verbosity + RSYNC_DEFAULT_OPTIONS@ + " "@ + self.rsync_extras(ignore_path)
            + " "@ + self.source + " '"@ + self.destination + "'"@
    }
}

/// The directory that holds the ignore lists, home-expanded.
pub fn cache_dir() -> (dir: String)
    ensures
        home_expanded(CACHE_DIR@, dir@),
        ends_with(dir@, "/.cache/project-sync"@),
{
    proof {
        reveal_strlit("~/.cache/project-sync");
        reveal_strlit("/.cache/project-sync");
        assert(CACHE_DIR@.skip(1) =~= "/.cache/project-sync"@);
    }
    tilde(CACHE_DIR)
}

impl SyncItem {
    /// The item that watches the configuration file itself.
    pub fn new_config_file_sync(config_path: &str, debounce: u64, verbose: bool) -> (item: SyncItem)
        ensures
            item@ == ItemView::config_file(config_path@, debounce, verbose),
    {
        SyncItem {
            name: String::from_str(SELF_CONFIG),
            source: String::from_str(config_path),
            destination: String::from_str(config_path),
            sync_on_start: false,
            ignore: String::new(),
            options: String::new(),
            debounce,
            verbose,
            target: Target::ConfigReload,
        }
    }

    /// Whether this is the item that watches the configuration file.
    pub fn is_config_reload(&self) -> (is_reload: bool)
        ensures
            is_reload == (self.target is ConfigReload),
    {
        match self.target {
            Target::ConfigReload => true,
            Target::Project => false,
        }
    }

    /// The path to subscribe to: the source, home-expanded.
    pub fn watch_path(&self) -> (path: String)
        ensures
            home_expanded(self.source@, path@),
    {
        tilde(self.source.as_str())
    }

    /// The name of the file that holds the item's ignore patterns.
    pub fn ignore_file_name(&self) -> (file_name: String)
        ensures
            file_name@ == self@.ignore_file_name(),
    {
        self.name.clone().concat(IGNORE_SUFFIX)
    }

    /// The path of the item's ignore list below the directory `cache_dir`.
    pub fn ignore_file_path(&self, cache_dir: &str) -> (path: String)
        ensures
            path@ == path_join(cache_dir@, self@.ignore_file_name()),
    {
        let file_name = self.ignore_file_name();
        join(cache_dir, file_name.as_str())
    }

    /// The part of the command line that the rule decides, for the ignore
    /// list at `ignore_path`.
    pub fn rsync_extras(&self, ignore_path: &str) -> (extras: String)
        ensures
            extras@ == self@.rsync_extras(ignore_path@),
    {
        let mut extras = String::new();
        if !self.options.as_str().is_empty() {
            extras.append(self.options.as_str());
            extras.append(" ");
        }
        extras.append("--exclude-from='");
        extras.append(ignore_path);
        extras.append("'");
        extras
    }

    /// The command line that transfers the item, for the ignore list at
    /// `ignore_path`.
    pub fn command_line(&self, ignore_path: &str) -> (line: String)
        ensures
            line@ == self@.command_line(ignore_path@),
    {
        let extras = self.rsync_extras(ignore_path);
        let mut line = String::from_str("rsync ");
        if self.verbose {
            line.append("--itemize-changes ");
        }
        line.append(RSYNC_DEFAULT_OPTIONS);
        line.append(" ");
        line.append(extras.as_str());
        line.append(" ");
        line.append(self.source.as_str());
        line.append(" '");
        line.append(self.destination.as_str());
        line.append("'");
        line
    }
}

} // verus!

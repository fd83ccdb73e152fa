use project_sync::sync_item::{cache_dir, SyncItem, SyncUpdate, Target};
use project_sync::sync_item::{CACHE_DIR, IGNORE_SUFFIX, RSYNC_DEFAULT_OPTIONS, SELF_CONFIG};

fn item(name: &str, source: &str, destination: &str) -> SyncItem {
    SyncItem {
        name: name.to_string(),
        source: source.to_string(),
        destination: destination.to_string(),
        sync_on_start: false,
        ignore: ".git\n".to_string(),
        options: String::new(),
        debounce: 80_000_000,
        verbose: false,
        target: Target::Project,
    }
}

#[test]
fn constants_have_their_values() {
    assert_eq!(SELF_CONFIG, "project-sync-self-config");
    assert_eq!(RSYNC_DEFAULT_OPTIONS, "--timeout=64 -az -e 'ssh -o ConnectTimeout=64'");
    assert_eq!(CACHE_DIR, "~/.cache/project-sync");
    assert_eq!(IGNORE_SUFFIX, ".rsync-ignore");
}

#[test]
fn configuration_item_watches_the_file_itself() {
    let watch = SyncItem::new_config_file_sync("/home/u/sync.toml", 1_000, true);
    assert_eq!(watch.name, "project-sync-self-config");
    assert_eq!(watch.source, "/home/u/sync.toml");
    assert_eq!(watch.destination, "/home/u/sync.toml");
    assert!(!watch.sync_on_start);
    assert_eq!(watch.ignore, "");
    assert_eq!(watch.options, "");
    assert_eq!(watch.debounce, 1_000);
    assert!(watch.verbose);
    assert_eq!(watch.target, Target::ConfigReload);
    assert!(watch.is_config_reload());
}

#[test]
fn project_item_is_no_configuration_item() {
    assert!(!item("a", "/x", "h:/a").is_config_reload());
}

#[test]
fn ignore_file_is_named_after_the_item() {
    assert_eq!(item("web", "/x", "h:/a").ignore_file_name(), "web.rsync-ignore");
    assert_eq!(item("", "/x", "h:/a").ignore_file_name(), ".rsync-ignore");
}

#[test]
fn items_of_one_rule_share_the_ignore_file() {
    let first = item("web", "/x", "h1:/a");
    let second = item("web", "/x", "h2:/b");
    assert_eq!(first.ignore_file_path("/cache"), second.ignore_file_path("/cache"));
}

#[test]
fn ignore_file_lies_below_the_cache_directory() {
    let it = item("web", "/x", "h:/a");
    assert_eq!(it.ignore_file_path("/home/u/.cache/project-sync"), "/home/u/.cache/project-sync/web.rsync-ignore");
    assert_eq!(it.ignore_file_path("/cache/"), "/cache/web.rsync-ignore");
    assert_eq!(it.ignore_file_path(""), "web.rsync-ignore");
}

#[test]
fn ignore_file_of_an_absolute_name_replaces_the_directory() {
    let it = item("/tmp/web", "/x", "h:/a");
    assert_eq!(it.ignore_file_path("/cache"), "/tmp/web.rsync-ignore");
}

#[test]
fn extras_without_options_are_the_exclusion() {
    let it = item("web", "/x", "h:/a");
    assert_eq!(it.rsync_extras("/c/web.rsync-ignore"), "--exclude-from='/c/web.rsync-ignore'");
}

#[test]
fn extras_put_the_options_first() {
    let mut it = item("web", "/x", "h:/a");
    it.options = "--delete -e 'ssh -p 2222'".to_string();
    assert_eq!(
        it.rsync_extras("/c/web.rsync-ignore"),
        "--delete -e 'ssh -p 2222' --exclude-from='/c/web.rsync-ignore'"
    );
}

#[test]
fn command_line_of_a_quiet_item() {
    let it = item("web", "~/src/web/", "host1:/srv/web");
    assert_eq!(
        it.command_line("/c/web.rsync-ignore"),
        "rsync --timeout=64 -az -e 'ssh -o ConnectTimeout=64' \
         --exclude-from='/c/web.rsync-ignore' ~/src/web/ 'host1:/srv/web'"
    );
}

#[test]
fn command_line_of_a_verbose_item_with_options() {
    let mut it = item("web", "/src/web/", "host1:/srv/my web");
    it.verbose = true;
    it.options = "--delete".to_string();
    assert_eq!(
        it.command_line("/c/web.rsync-ignore"),
        "rsync --itemize-changes --timeout=64 -az -e 'ssh -o ConnectTimeout=64' \
         --delete --exclude-from='/c/web.rsync-ignore' /src/web/ 'host1:/srv/my web'"
    );
}

#[test]
fn command_line_differs_only_in_the_destination_within_a_rule() {
    let first = item("web", "/x", "h1:/a").command_line("/c/i");
    let second = item("web", "/x", "h2:/b").command_line("/c/i");
    assert_ne!(first, second);
    assert_eq!(first.replace("h1:/a", "h2:/b"), second);
}

#[test]
fn watch_path_without_a_tilde_is_the_source() {
    assert_eq!(item("a", "/srv/data", "h:/a").watch_path(), "/srv/data");
    assert_eq!(item("a", "relative/dir", "h:/a").watch_path(), "relative/dir");
    assert_eq!(item("a", "", "h:/a").watch_path(), "");
    assert_eq!(item("a", "/srv/~/data", "h:/a").watch_path(), "/srv/~/data");
}

#[test]
fn watch_path_of_another_user_is_the_source() {
    assert_eq!(item("a", "~other/data", "h:/a").watch_path(), "~other/data");
}

#[test]
fn watch_path_keeps_what_follows_the_tilde() {
    let path = item("a", "~/projects/web", "h:/a").watch_path();
    assert!(path.ends_with("/projects/web"));
    let home = item("a", "~", "h:/a").watch_path();
    assert_eq!(format!("{}/projects/web", home), path);
}

#[test]
fn cache_directory_ends_with_its_name() {
    let dir = cache_dir();
    assert!(dir.ends_with("/.cache/project-sync"));
    assert_eq!(dir, item("a", CACHE_DIR, "h:/a").watch_path());
}

#[test]
fn update_carries_name_and_time() {
    let update = SyncUpdate { name: "web".to_string(), update: 12 };
    assert_eq!(update.clone(), update);
    assert_eq!(update.name, "web");
    assert_eq!(update.update, 12);
}

#[test]
fn watch_path_replaces_the_tilde_by_the_home_directory() {
    let home = shellexpand::tilde("~").into_owned();
    let path = item("a", "~/projects/web", "h:/a").watch_path();
    assert_eq!(path, format!("{}/projects/web", home));
    assert_eq!(cache_dir(), format!("{}/.cache/project-sync", home));
}

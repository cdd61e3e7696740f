//! Where the files live: the configuration file, the data file, the sync
//! directory and the snapshot in it, all derived from the user's home
//! directory and the configuration file.
//!
//! A configured path wins over the default whenever it is set and not empty;
//! it is returned as it stands, without a look at the disk.

use crate::config::{stored_configuration, Configuration};
use crate::error::{text_outcome, Fault, StoreError};
use crate::json::json_parsed;
use crate::texts::{owned_text_of, text_of};
use vstd::prelude::*;
use vstd::string::*;

verus! {

/// A path with a relative name adjoined: the separator is added unless the
/// base is empty or already ends in one.
pub open spec fn joined(base: Seq<char>, name: Seq<char>) -> Seq<char> {
    if base.len() == 0 || base.last() == '/' {
        base + name
    } else {
        base + seq!['/'] + name
    }
}

/// The directory that holds the configuration file and the default data file.
pub open spec fn settings_dir(home: Seq<char>) -> Seq<char> {
    joined(joined(home, ".config"@), "focus-gtd"@)
}

/// The configuration file's path.
pub open spec fn config_path(home: Seq<char>) -> Seq<char> {
    joined(settings_dir(home), "config.json"@)
}

/// The data file's path where none is configured.
pub open spec fn default_data_path(home: Seq<char>) -> Seq<char> {
    joined(settings_dir(home), "data.json"@)
}

/// The sync directory where none is configured.
pub open spec fn default_sync_path(home: Seq<char>) -> Seq<char> {
    joined(joined(home, "Sync"@), "focus-gtd"@)
}

/// The snapshot's path in a sync directory.
pub open spec fn snapshot_in(sync_dir: Seq<char>) -> Seq<char> {
    joined(sync_dir, "focus-gtd-sync.json"@)
}

/// Whether a path is configured: set, and not the empty string.
pub open spec fn is_configured(configured: Option<Seq<char>>) -> bool {
    configured matches Some(path) && path.len() > 0
}

/// The configured path where there is one, else the fallback.
pub open spec fn effective(configured: Option<Seq<char>>, fallback: Seq<char>) -> Seq<char> {
    if is_configured(configured) {
        configured->0
    } else {
        fallback
    }
}

/// Adjoins the relative `name` to `base`.
fn join(base: &str, name: &str) -> (out: String)
    ensures
        out@ == joined(base@, name@),
{
    let mut out = base.to_owned();
    let n: usize = base.unicode_len();
    if n > 0 && base.get_char(n - 1) != '/' {
        proof {
            reveal_strlit("/");
        }
        out.append("/");
        assert("/"@ =~= seq!['/']);
    }
    out.append(name);
    out
}

fn settings_directory(home: &str) -> (dir: String)
    ensures
        dir@ == settings_dir(home@),
{
    let base = join(home, ".config");
    join(base.as_str(), "focus-gtd")
}

fn choose_path(configured: &Option<String>, fallback: String) -> (path: String)
    ensures
        path@ == effective(owned_text_of(*configured), fallback@),
{
    match configured {
        Some(p) => if p.as_str().is_empty() {
            fallback
        } else {
            p.clone()
        },
        None => fallback,
    }
}

/// The home directory as the host found it, or the error that is reported
/// where the host could not determine it: without a home directory no path is
/// made up.
pub fn home_or_error(home: Option<&str>) -> (found: Result<String, StoreError>)
    ensures
        text_outcome(found) == match home {
            Some(dir) => Ok::<Seq<char>, Fault>(dir@),
            None => Err::<Seq<char>, Fault>(Fault::HomeUnknown),
        },
{
    match home {
        Some(dir) => Ok(dir.to_owned()),
        None => Err(StoreError::HomeUnknown),
    }
}

/// The configuration file's path: `config.json` in `.config/focus-gtd` under
/// the home directory.
pub fn resolve_config_path(home: &str) -> (path: String)
    ensures
        path@ == config_path(home@),
{
    let dir = settings_directory(home);
    join(dir.as_str(), "config.json")
}

/// The data file's path under a configuration: the configured path verbatim
/// where it is set and not empty, else `data.json` in `.config/focus-gtd`
/// under the home directory.
pub fn data_path_for(home: &str, config: &Configuration) -> (path: String)
    ensures
        path@ == effective(config@.data_file_path, default_data_path(home@)),
{
    let dir = settings_directory(home);
    choose_path(&config.data_file_path, join(dir.as_str(), "data.json"))
}

/// The sync directory under a configuration: the configured path verbatim
/// where it is set and not empty, else `Sync/focus-gtd` under the home
/// directory.
pub fn sync_path_for(home: &str, config: &Configuration) -> (path: String)
    ensures
        path@ == effective(config@.sync_path, default_sync_path(home@)),
{
    let base = join(home, "Sync");
    choose_path(&config.sync_path, join(base.as_str(), "focus-gtd"))
}

/// The data file's path. `config_file` is the content of the configuration
/// file, `None` where it is missing or unreadable. The configured
/// `dataFilePath` is returned verbatim where it is a non-empty string; in
/// every other case, a malformed file among them, the path is `data.json` in
/// `.config/focus-gtd` under the home directory.
pub fn resolve_data_path(home: &str, config_file: Option<&str>) -> (path: String)
    ensures
        path@ == effective(
            stored_configuration(text_of(config_file)).data_file_path,
            default_data_path(home@),
        ),
        is_configured(stored_configuration(text_of(config_file)).data_file_path) ==> path@
            == stored_configuration(text_of(config_file)).data_file_path->0,
        !is_configured(stored_configuration(text_of(config_file)).data_file_path) ==> path@
            == default_data_path(home@),
{
    let config = Configuration::load(config_file);
    data_path_for(home, &config)
}

/// The sync directory. `config_file` is the content of the configuration
/// file, `None` where it is missing or unreadable. The configured `syncPath`
/// is returned verbatim where it is a non-empty string; in every other case
/// the directory is `Sync/focus-gtd` under the home directory.
pub fn resolve_sync_path(home: &str, config_file: Option<&str>) -> (path: String)
    ensures
        path@ == effective(
            stored_configuration(text_of(config_file)).sync_path,
            default_sync_path(home@),
        ),
        is_configured(stored_configuration(text_of(config_file)).sync_path) ==> path@
            == stored_configuration(text_of(config_file)).sync_path->0,
        !is_configured(stored_configuration(text_of(config_file)).sync_path) ==> path@
            == default_sync_path(home@),
{
    let config = Configuration::load(config_file);
    sync_path_for(home, &config)
}

/// The snapshot's path: `focus-gtd-sync.json` in the sync directory.
pub fn snapshot_path(sync_dir: &str) -> (path: String)
    ensures
        path@ == snapshot_in(sync_dir@),
{
    join(sync_dir, "focus-gtd-sync.json")
}

/// A configuration file that is missing, unreadable or not JSON configures
/// nothing: the data file and the sync directory are at their defaults.
pub proof fn lemma_unusable_config_gives_defaults(home: Seq<char>, config_file: Option<Seq<char>>)
    ensures
        (config_file matches Some(text) ==> json_parsed(text) is Err) ==> {
            &&& effective(stored_configuration(config_file).data_file_path, default_data_path(home))
                == default_data_path(home)
            &&& effective(stored_configuration(config_file).sync_path, default_sync_path(home))
                == default_sync_path(home)
        },
{
}

/// Under a home directory that is not empty and does not end in a separator,
/// every default path is the home directory followed by a fixed suffix.
pub proof fn lemma_default_paths(home: Seq<char>)
    requires
        home.len() > 0,
        home.last() != '/',
    ensures
        config_path(home) == home + "/.config/focus-gtd/config.json"@,
        default_data_path(home) == home + "/.config/focus-gtd/data.json"@,
        default_sync_path(home) == home + "/Sync/focus-gtd"@,
{
    reveal_strlit(".config");
    reveal_strlit("focus-gtd");
    reveal_strlit("config.json");
    reveal_strlit("data.json");
    reveal_strlit("Sync");
    reveal_strlit("/.config/focus-gtd/config.json");
    reveal_strlit("/.config/focus-gtd/data.json");
    reveal_strlit("/Sync/focus-gtd");
    let a = joined(home, ".config"@);
    let b = joined(a, "focus-gtd"@);
    let s = joined(home, "Sync"@);
    assert(a.last() == 'g');
    assert(b.last() == 'd');
    assert(s.last() == 'c');
    assert(config_path(home) =~= home + "/.config/focus-gtd/config.json"@);
    assert(default_data_path(home) =~= home + "/.config/focus-gtd/data.json"@);
    assert(default_sync_path(home) =~= home + "/Sync/focus-gtd"@);
}

} // verus!

//! The records the application persists and where they live on disk.
//!
//! The core builds the paths and the records; reading and writing the
//! files, and the JSON encoding, happen in the unverified shell, which
//! hands records in and takes records out as plain values.
use vstd::prelude::*;

use crate::theme::ThemeName;
use crate::todo::Task;

verus! {

/// The saved task list: the tasks and the next fresh task id.
pub struct TaskData {
    pub tasks: Vec<Task>,
    pub next_id: u64,
}

impl Default for TaskData {
    /// What loading falls back to when there is no saved file.
    fn default() -> (d: TaskData)
        ensures
            d.tasks@.len() == 0,
            d.next_id == 0,
    {
        TaskData { tasks: Vec::new(), next_id: 0 }
    }
}

/// The saved configuration.
pub struct Config {
    pub theme: ThemeName,
}

impl Default for Config {
    fn default() -> (c: Config)
        ensures
            c.theme is Bladerunner,
    {
        Config { theme: ThemeName::Bladerunner }
    }
}

/// Relies on dirs::data_dir: the platform's data directory, if the
/// platform reports one. The result depends on the environment, so
/// nothing is promised of it.
#[verifier::external_body]
fn platform_data_dir() -> (r: Option<String>) {
    dirs::data_dir().map(|p| p.to_string_lossy().into_owned())
}

/// `base` and `rel` joined with a path separator.
fn join_path(base: &str, rel: &str) -> (r: String)
    ensures
        r@ == base@ + "/"@ + rel@,
{
    let mut s = String::from_str(base);
    s.append("/");
    s.append(rel);
    s
}

/// The directory this application keeps its files in: the platform
/// data directory, or the working directory when the platform
/// reports none.
fn data_dir() -> (r: String)
    ensures
        exists|base: Seq<char>| r@ == base + "/"@ + "loshell"@,
{
    let base = match platform_data_dir() {
        Some(b) => b,
        None => String::from_str("."),
    };
    let r = join_path(base.as_str(), "loshell");
    proof {
        assert(r@ == base@ + "/"@ + "loshell"@);
    }
    r
}

/// Where the task list is saved: `tasks.json` under the data directory.
pub fn get_data_path() -> (r: String)
    ensures
        exists|base: Seq<char>| r@ == base + "/"@ + "loshell"@ + "/"@ + "tasks.json"@,
{
    let dir = data_dir();
    let r = join_path(dir.as_str(), "tasks.json");
    proof {
        let base = choose|b: Seq<char>| dir@ == b + "/"@ + "loshell"@;
        assert(r@ == base + "/"@ + "loshell"@ + "/"@ + "tasks.json"@);
    }
    r
}

/// Where the configuration is saved: `config.json` under the data
/// directory.
pub fn config_path() -> (r: String)
    ensures
        exists|base: Seq<char>| r@ == base + "/"@ + "loshell"@ + "/"@ + "config.json"@,
{
    let dir = data_dir();
    let r = join_path(dir.as_str(), "config.json");
    proof {
        let base = choose|b: Seq<char>| dir@ == b + "/"@ + "loshell"@;
        assert(r@ == base + "/"@ + "loshell"@ + "/"@ + "config.json"@);
    }
    r
}

} // verus!

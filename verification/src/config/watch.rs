//! Watching the configuration file: what to do with each notification.

use super::Config;
use vstd::prelude::*;

verus! {

/// The file to watch for a configuration: the file it was read from. Where
/// that file is not known there is nothing to watch, which is no failure:
/// the configuration stays as it is until the program ends.
pub fn watched_path(config: &Config) -> (path: Option<&String>)
    ensures
        path is Some <==> config.file_path is Some,
        path matches Some(file) ==> config.file_path == Some(*file),
{
    config.file_path.as_ref()
}

/// What the watcher does with one notification from the file system.
#[derive(Debug, PartialEq, Eq)]
pub enum WatchStep {
    /// The notification does not concern the watched file: keep waiting.
    Ignore,
    /// The watched file changed: load the configuration again.
    Reload,
    /// The notification was an error of the watcher itself: stop watching,
    /// with the detail. A load that fails never leads here.
    Stop(String),
}

/// Whether `watched` is one of `paths`, compared exactly.
pub open spec fn names_path(paths: Seq<String>, watched: Seq<char>) -> bool {
    exists|i: int| 0 <= i < paths.len() && (#[trigger] paths[i])@ == watched
}

/// The step that follows a notification: an error stops the watcher, a
/// change that names the watched file asks for a reload, any other is ignored.
pub open spec fn watch_step(watched: Seq<char>, event: Result<Vec<String>, String>) -> WatchStep {
    match event {
        Err(detail) => WatchStep::Stop(detail),
        Ok(paths) => if names_path(paths@, watched) {
            WatchStep::Reload
        } else {
            WatchStep::Ignore
        },
    }
}

/// Whether `watched` is one of `paths`, compared exactly.
pub fn event_names_path(paths: &Vec<String>, watched: &String) -> (found: bool)
    ensures
        found == names_path(paths@, watched@),
{
    let count: usize = paths.len();
    let mut i: usize = 0;
    while i < count
        invariant
            count == paths@.len(),
            i <= count,
            forall|j: int| 0 <= j < i ==> (#[trigger] paths@[j])@ != watched@,
        decreases count - i,
    {
        if paths[i] == *watched {
            return true;
        }
        i = i + 1;
    }
    false
}

/// Decides what the watcher does with one notification about the directory
/// of the watched file: the paths that changed, or the watcher's error.
pub fn on_notification(watched: &String, event: Result<Vec<String>, String>) -> (step: WatchStep)
    ensures
        step == watch_step(watched@, event),
{
    match event {
        Err(detail) => WatchStep::Stop(detail),
        Ok(paths) => {
            if event_names_path(&paths, watched) {
                WatchStep::Reload
            } else {
                WatchStep::Ignore
            }
        },
    }
}

} // verus!

use vstd::prelude::*;
use vstd::string::StringExecFns;
use crate::classify::{is_series, is_series_name};
use crate::text::{join_path, joined};

verus! {

/// The settings of one run, read once and passed to each part.
pub struct Config {
    /// The service's address, without a trailing separator.
    pub base_url: String,
    /// The structural prefix that every node url starts with.
    pub url_prefix: String,
    /// Where entries go by default.
    pub download_dir: String,
    /// Where series go, when entries are sorted by name.
    pub series_dir: Option<String>,
    /// Where the lock file, the run log and the transfer log live.
    pub log_dir: String,
}

fn concat(a: &str, b: &str) -> (r: String)
    ensures
        r@ == a@ + b@,
{
    let mut r = a.to_owned();
    r.append(b);
    r
}

impl Config {
    /// The address of the folder listing.
    pub fn listing_url(&self) -> (r: String)
        ensures
            r@ == self.base_url@ + "/folder"@,
    {
        concat(self.base_url.as_str(), "/folder")
    }

    /// The address of the remote node or file at `path`.
    pub fn remote_url(&self, path: &str) -> (r: String)
        ensures
            r@ == self.base_url@ + path@,
    {
        concat(self.base_url.as_str(), path)
    }

    /// The transfer tool's log.
    pub fn transfer_log_path(&self) -> (r: String)
        ensures
            r@ == joined(self.log_dir@, "wget.log"@),
    {
        join_path(self.log_dir.as_str(), "wget.log")
    }

    /// The run's own log.
    pub fn run_log_path(&self) -> (r: String)
        ensures
            r@ == joined(self.log_dir@, "tcad.log"@),
    {
        join_path(self.log_dir.as_str(), "tcad.log")
    }

    /// The file that is locked while a run is active.
    pub fn lock_path(&self) -> (r: String)
        ensures
            r@ == joined(self.log_dir@, ".tcad.lock"@),
    {
        join_path(self.log_dir.as_str(), ".tcad.lock")
    }

    /// The destination root of the top-level entry `name`: the series
    /// directory for a series name where one is set, else the download
    /// directory.
    pub fn destination_for(&self, name: &str) -> (r: String)
        ensures
            r@ == (match self.series_dir {
                Some(d) => if is_series(name@) {
                    d@
                } else {
                    self.download_dir@
                },
                None => self.download_dir@,
            }),
    {
        match &self.series_dir {
            Some(d) => if is_series_name(name) {
                d.clone()
            } else {
                self.download_dir.clone()
            },
            None => self.download_dir.clone(),
        }
    }
}

/// An event of the run log.
pub enum RunEvent {
    Started,
    Downloading { name: String },
    Finished { name: String },
    Notifying,
    Exiting,
}

/// The text that the run log records for `e`.
pub open spec fn event_text(e: RunEvent) -> Seq<char> {
    match e {
        RunEvent::Started => "Active Instance"@,
        RunEvent::Downloading { name } => "Downloading "@ + name@,
        RunEvent::Finished { name } => "Finished download: "@ + name@,
        RunEvent::Notifying => "Sending notification"@,
        RunEvent::Exiting => "Exiting.."@,
    }
}

/// The run-log line for `e` at the time `stamp`.
pub fn run_log_line(stamp: &str, e: &RunEvent) -> (r: String)
    ensures
        r@ == "["@ + stamp@ + "] "@ + event_text(*e),
{
    let mut r = concat("[", stamp);
    r.append("] ");
    match e {
        RunEvent::Started => r.append("Active Instance"),
        RunEvent::Downloading { name } => {
            r.append("Downloading ");
            r.append(name.as_str());
        },
        RunEvent::Finished { name } => {
            r.append("Finished download: ");
            r.append(name.as_str());
        },
        RunEvent::Notifying => r.append("Sending notification"),
        RunEvent::Exiting => r.append("Exiting.."),
    }
    r
}

} // verus!

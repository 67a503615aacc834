//! The change-watch session: at most one watched file at a time, and the
//! filter that decides which filesystem events are reported.
//!
//! The watch itself (a directory watch delivering raw events) is kept by
//! the caller; the session says what to watch, what to tear down, and which
//! events to pass on.
use vstd::prelude::*;
use crate::paths::{name_start, name_start_exec, Platform};
use crate::text::{chars_of, same_text, substring_of};

verus! {

/// The watch state: idle, or watching one file (by its canonical path).
pub struct WatchSession {
    watched: Option<String>,
}

pub open spec fn option_text(o: Option<String>) -> Option<Seq<char>> {
    match o {
        Some(s) => Some(s@),
        None => None,
    }
}

/// An event is reported when it is a modification, a file is watched, and
/// the event's first path is that file, character for character.
pub open spec fn notifies(watched: Option<Seq<char>>, is_modify: bool, path: Option<Seq<char>>) -> bool {
    is_modify && watched is Some && path == watched
}

/// The directory watched for a file: its path up to and including the last
/// separator; none for a bare file name.
pub open spec fn watch_dir_of(file: Seq<char>, platform: Platform) -> Option<Seq<char>> {
    let n = name_start(file, platform, file.len() as int);
    if n == 0 {
        None
    } else {
        Some(file.subrange(0, n))
    }
}

/// The state after a watch on `file` is started: that file alone.
pub open spec fn started(state: Option<Seq<char>>, file: Seq<char>) -> Option<Seq<char>> {
    Some(file)
}

/// The state after the watch is stopped: idle.
pub open spec fn stopped(state: Option<Seq<char>>) -> Option<Seq<char>> {
    None
}

impl View for WatchSession {
    type V = Option<Seq<char>>;

    closed spec fn view(&self) -> Option<Seq<char>> {
        option_text(self.watched)
    }
}

impl WatchSession {
    /// An idle session.
    pub fn new() -> (r: WatchSession)
        ensures
            r@ is None,
    {
        WatchSession { watched: None }
    }

    /// The file watched, if any.
    pub fn watched(&self) -> (r: Option<String>)
        ensures
            option_text(r) == self@,
    {
        match &self.watched {
            Some(w) => Some(w.clone()),
            None => None,
        }
    }

    /// Starts watching `file`, replacing any earlier watch, which is
    /// returned so that it can be torn down first.
    pub fn start(&mut self, file: &str) -> (previous: Option<String>)
        ensures
            final(self)@ == started(old(self)@, file@),
            option_text(previous) == old(self)@,
    {
        let previous = self.watched.take();
        self.watched = Some(String::from_str(file));
        previous
    }

    /// Stops watching; a no-op when idle. Returns the watch that ended.
    pub fn stop(&mut self) -> (previous: Option<String>)
        ensures
            final(self)@ == stopped(old(self)@),
            option_text(previous) == old(self)@,
    {
        self.watched.take()
    }

    /// Whether an event (a modification or not, with its first path) is
    /// reported.
    pub fn should_notify(&self, is_modify: bool, path: Option<&str>) -> (r: bool)
        ensures
            r == notifies(
                self@,
                is_modify,
                match path {
                    Some(p) => Some(p@),
                    None => None,
                },
            ),
    {
        if !is_modify {
            return false;
        }
        match (&self.watched, path) {
            (Some(w), Some(p)) => same_text(w.as_str(), p),
            _ => false,
        }
    }
}

/// The directory to watch for `file`: the parent, so that editors that
/// replace a file on save are followed.
pub fn watch_dir(file: &str, platform: Platform) -> (r: Option<String>)
    ensures
        option_text(r) == watch_dir_of(file@, platform),
{
    let s = chars_of(file);
    let i = name_start_exec(&s, platform);
    if i == 0 {
        None
    } else {
        Some(substring_of(&s, 0, i))
    }
}

/// After a watch on `a` is replaced by one on `b`, no event on `a` is
/// reported any more, whatever its kind and whatever the state before.
pub proof fn lemma_restart_silences_previous(
    state: Option<Seq<char>>,
    a: Seq<char>,
    b: Seq<char>,
    is_modify: bool,
)
    requires
        a != b,
    ensures
        !notifies(started(started(state, a), b), is_modify, Some(a)),
{
}

/// Once stopped, no event is reported.
pub proof fn lemma_stop_silences(state: Option<Seq<char>>, is_modify: bool, path: Option<Seq<char>>)
    ensures
        !notifies(stopped(state), is_modify, path),
{
}

} // verus!

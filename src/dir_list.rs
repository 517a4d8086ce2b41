//! The decisions of a directory listing: which search pattern to start
//! with, which entries to skip, and how an entry's full path is made. The
//! native search calls are made by the caller, which feeds their outcome
//! back in.

use vstd::prelude::*;
use vstd::string::{StrSliceExecFns, StringExecFns};

verus! {

/// The path without one trailing backslash, if it has one.
pub open spec fn rtrim_backslash_spec(path: Seq<char>) -> Seq<char> {
    if path.len() > 0 && path.last() == '\\' {
        path.drop_last()
    } else {
        path
    }
}

/// The search pattern of a directory: everything in it, or the entries that
/// match `filter`.
pub open spec fn search_pattern(dir: Seq<char>, filter: Option<Seq<char>>) -> Seq<char> {
    match filter {
        Some(f) => dir + seq!['\\'] + f,
        None => dir + seq!['\\', '*'],
    }
}

/// Whether a name is one of the `.` and `..` entries of every directory.
pub open spec fn is_dot_entry(name: Seq<char>) -> bool {
    name == seq!['.'] || name == seq!['.', '.']
}

/// Removes one trailing backslash from a path.
pub fn rtrim_backslash(path: &str) -> (r: String)
    ensures
        r@ == rtrim_backslash_spec(path@),
{
    let n = path.unicode_len();
    if n > 0 && path.get_char(n - 1) == '\\' {
        String::from_str(path.substring_char(0, n - 1))
    } else {
        String::from_str(path)
    }
}

/// What the caller does next for a listing.
pub enum DirListAction {
    /// Starts the search with this pattern.
    FindFirst(String),
    /// Asks for the next entry of the search under way.
    FindNext,
    /// The listing is over.
    Done,
}

/// The outcome of a search call.
pub enum DirListEvent {
    /// An entry of this name was found.
    Found(String),
    /// There are no more entries.
    NotFound,
    /// The call failed with this error code.
    Failed(u32),
}

/// What a listing yields for an event.
pub enum DirListOutput {
    /// The full path of an entry.
    Entry(String),
    /// An error, after which the listing is over.
    Error(u32),
    /// Nothing: the entry is skipped, ask for the next one.
    Skip,
    /// The listing is over.
    End,
}

/// A listing of one directory, driven one search call at a time.
pub struct DirList {
    dir_path: String,
    filter: Option<String>,
    started: bool,
    no_more: bool,
}

impl DirList {
    /// The directory being listed, without a trailing backslash.
    pub closed spec fn spec_dir(&self) -> Seq<char> {
        self.dir_path@
    }

    /// The filter entries must match, if any.
    pub closed spec fn spec_filter(&self) -> Option<Seq<char>> {
        match self.filter {
            Some(f) => Some(f@),
            None => None,
        }
    }

    /// Whether the search has been started.
    pub closed spec fn spec_started(&self) -> bool {
        self.started
    }

    /// Whether the listing has ended on an error.
    pub closed spec fn spec_no_more(&self) -> bool {
        self.no_more
    }

    /// A listing of `dir_path`, optionally restricted to the entries that
    /// match `filter`.
    pub fn new(dir_path: &str, filter: Option<&str>) -> (r: DirList)
        ensures
            r.spec_dir() == rtrim_backslash_spec(dir_path@),
            r.spec_filter() == (match filter {
                Some(f) => Some(f@),
                None => None,
            }),
            !r.spec_started(),
            !r.spec_no_more(),
    {
        let filter = match filter {
            Some(f) => Some(String::from_str(f)),
            None => None,
        };
        DirList { dir_path: rtrim_backslash(dir_path), filter, started: false, no_more: false }
    }

    /// The next search call to make.
    pub fn next_action(&self) -> (r: DirListAction)
        ensures
            self.spec_no_more() ==> r is Done,
            !self.spec_no_more() && !self.spec_started() ==> (r matches DirListAction::FindFirst(
                p,
            ) && p@ == search_pattern(self.spec_dir(), self.spec_filter())),
            !self.spec_no_more() && self.spec_started() ==> r is FindNext,
    {
        if self.no_more {
            return DirListAction::Done;
        }
        if self.started {
            return DirListAction::FindNext;
        }
        let mut pattern = String::from_str(self.dir_path.as_str());
        match &self.filter {
            Some(f) => {
                pattern.append("\\");
                pattern.append(f.as_str());
            },
            None => {
                pattern.append("\\*");
            },
        }
        proof {
            reveal_strlit("\\");
            reveal_strlit("\\*");
        }
        DirListAction::FindFirst(pattern)
    }

    /// Takes the outcome of the search call made, and says what the listing
    /// yields: the full path of a found entry, `Skip` for the `.` and `..`
    /// entries, `End` when no entry is left, and an error once, after which
    /// the listing is over.
    pub fn on_event(&mut self, event: DirListEvent) -> (r: DirListOutput)
        ensures
            final(self).spec_dir() == old(self).spec_dir(),
            final(self).spec_filter() == old(self).spec_filter(),
            event matches DirListEvent::Failed(e) ==> {
                &&& r == DirListOutput::Error(e)
                &&& final(self).spec_no_more()
                &&& final(self).spec_started() == old(self).spec_started()
            },
            event is NotFound ==> {
                &&& r is End
                &&& final(self).spec_no_more() == old(self).spec_no_more()
                &&& final(self).spec_started() == old(self).spec_started()
            },
            event matches DirListEvent::Found(name) ==> {
                &&& final(self).spec_started()
                &&& final(self).spec_no_more() == old(self).spec_no_more()
                &&& is_dot_entry(name@) ==> r is Skip
                &&& !is_dot_entry(name@) ==> (r matches DirListOutput::Entry(p) && p@
                    == old(self).spec_dir() + seq!['\\'] + name@)
            },
    {
        match event {
            DirListEvent::Failed(e) => {
                self.no_more = true;
                DirListOutput::Error(e)
            },
            DirListEvent::NotFound => DirListOutput::End,
            DirListEvent::Found(name) => {
                self.started = true;
                if is_dot_name(name.as_str()) {
                    DirListOutput::Skip
                } else {
                    let mut path = String::from_str(self.dir_path.as_str());
                    path.append("\\");
                    path.append(name.as_str());
                    proof {
                        reveal_strlit("\\");
                    }
                    DirListOutput::Entry(path)
                }
            },
        }
    }
}

/// Whether a name is `.` or `..`.
fn is_dot_name(name: &str) -> (r: bool)
    ensures
        r == is_dot_entry(name@),
{
    let n = name.unicode_len();
    if n == 1 {
        let r = name.get_char(0) == '.';
        assert(r ==> name@ =~= seq!['.']);
        r
    } else if n == 2 {
        let r = name.get_char(0) == '.' && name.get_char(1) == '.';
        assert(r ==> name@ =~= seq!['.', '.']);
        r
    } else {
        false
    }
}

} // verus!

//! The search for a binary of the language server that is already there.
//!
//! The search asks the host one question at a time and goes on by the
//! answer: first for an executable under the server's own name, then for one
//! under the name of the platform's build, then for the binary that an
//! earlier install left. Only when all three fail is a release installed.

use vstd::prelude::*;
use crate::extension::target_triple;
use crate::extension::triple_of;
use crate::extension::Architecture;
use crate::extension::Os;
use crate::extension::SERVER_NAME;
use crate::text::text_of;

verus! {

/// A question to the host.
#[derive(Clone, Debug)]
pub enum Probe {
    /// Where, if anywhere, is an executable of this name on the path?
    Executable(String),
    /// Which platform does the editor run on?
    Platform,
    /// Is this path a file?
    File(String),
}

/// A [`Probe`] as plain mathematical values.
pub enum ProbeView {
    Executable(Seq<char>),
    Platform,
    File(Seq<char>),
}

impl View for Probe {
    type V = ProbeView;

    open spec fn view(&self) -> ProbeView {
        match *self {
            Probe::Executable(name) => ProbeView::Executable(name@),
            Probe::Platform => ProbeView::Platform,
            Probe::File(path) => ProbeView::File(path@),
        }
    }
}

/// The probe, if any, as plain mathematical values.
pub open spec fn probe_of(probe: Option<Probe>) -> Option<ProbeView> {
    match probe {
        Some(probe) => Some(probe@),
        None => None,
    }
}

/// How far the search is. The first four states wait for an answer; the last
/// three are its ends.
#[derive(Clone, Debug)]
pub enum Search {
    /// Waiting to hear of an executable under the server's name.
    ByName { cached: Option<String> },
    /// Waiting to hear the platform.
    ByPlatform { cached: Option<String> },
    /// Waiting to hear of an executable under the name of the platform's
    /// build.
    ByTriple { triple: String, cached: Option<String> },
    /// Waiting to hear whether the binary of an earlier install is still
    /// there.
    ByCache { path: String },
    /// The binary to run.
    Found(String),
    /// No binary is there: a release has to be installed.
    Install,
    /// The search cannot go on: the platform has no build.
    Failed(String),
}

/// A [`Search`] as plain mathematical values.
pub enum SearchView {
    ByName { cached: Option<Seq<char>> },
    ByPlatform { cached: Option<Seq<char>> },
    ByTriple { triple: Seq<char>, cached: Option<Seq<char>> },
    ByCache { path: Seq<char> },
    Found(Seq<char>),
    Install,
    Failed(Seq<char>),
}

impl View for Search {
    type V = SearchView;

    open spec fn view(&self) -> SearchView {
        match *self {
            Search::ByName { cached } => SearchView::ByName { cached: text_of(cached) },
            Search::ByPlatform { cached } => SearchView::ByPlatform { cached: text_of(cached) },
            Search::ByTriple { triple, cached } => SearchView::ByTriple {
                triple: triple@,
                cached: text_of(cached),
            },
            Search::ByCache { path } => SearchView::ByCache { path: path@ },
            Search::Found(path) => SearchView::Found(path@),
            Search::Install => SearchView::Install,
            Search::Failed(reason) => SearchView::Failed(reason@),
        }
    }
}

impl SearchView {
    /// The search before its first question, with the binary that an earlier
    /// install left, if any.
    pub open spec fn start(cached: Option<Seq<char>>) -> SearchView {
        SearchView::ByName { cached }
    }

    /// What the search has to ask next; nothing once it has ended.
    pub open spec fn question(self) -> Option<ProbeView> {
        match self {
            SearchView::ByName { .. } => Some(ProbeView::Executable(SERVER_NAME@)),
            SearchView::ByPlatform { .. } => Some(ProbeView::Platform),
            SearchView::ByTriple { triple, .. } => Some(ProbeView::Executable(triple)),
            SearchView::ByCache { path } => Some(ProbeView::File(path)),
            _ => None,
        }
    }

    /// The step that falls back on the earlier install: ask whether its
    /// binary is still there, or install where there was none.
    pub open spec fn fall_back(cached: Option<Seq<char>>) -> SearchView {
        match cached {
            Some(path) => SearchView::ByCache { path },
            None => SearchView::Install,
        }
    }

    /// The search after it heard where the executable it asked for is. One
    /// that was found ends the search. A search that did not ask for an
    /// executable stays as it is.
    pub open spec fn after_executable(self, found: Option<Seq<char>>) -> SearchView {
        match self {
            SearchView::ByName { cached } => match found {
                Some(path) => SearchView::Found(path),
                None => SearchView::ByPlatform { cached },
            },
            SearchView::ByTriple { cached, .. } => match found {
                Some(path) => SearchView::Found(path),
                None => Self::fall_back(cached),
            },
            _ => self,
        }
    }

    /// The search after it heard the platform: it asks for the platform's
    /// build, or fails where there is none. A search that did not ask for
    /// the platform stays as it is.
    pub open spec fn after_platform(self, os: Os, arch: Architecture) -> SearchView {
        match self {
            SearchView::ByPlatform { cached } => match triple_of(os, arch) {
                Ok(triple) => SearchView::ByTriple { triple, cached },
                Err(reason) => SearchView::Failed(reason),
            },
            _ => self,
        }
    }

    /// The search after it heard whether the earlier install's binary is a
    /// file. A search that did not ask for a file stays as it is.
    pub open spec fn after_file(self, is_file: bool) -> SearchView {
        match self {
            SearchView::ByCache { path } => if is_file {
                SearchView::Found(path)
            } else {
                SearchView::Install
            },
            _ => self,
        }
    }

    /// How many questions the search may still ask.
    pub open spec fn questions_left(self) -> nat {
        match self {
            SearchView::ByName { .. } => 4,
            SearchView::ByPlatform { .. } => 3,
            SearchView::ByTriple { .. } => 2,
            SearchView::ByCache { .. } => 1,
            _ => 0,
        }
    }
}

impl Search {
    /// Begins a search; `cached` is the binary that an earlier install left.
    pub fn start(cached: Option<String>) -> (search: Search)
        ensures
            search@ == SearchView::start(text_of(cached)),
    {
        Search::ByName { cached }
    }

    /// What to ask the host next; nothing once the search has ended.
    pub fn question(&self) -> (probe: Option<Probe>)
        ensures
            probe_of(probe) == self@.question(),
    {
        match self {
            Search::ByName { .. } => Some(Probe::Executable(SERVER_NAME.to_string())),
            Search::ByPlatform { .. } => Some(Probe::Platform),
            Search::ByTriple { triple, .. } => Some(Probe::Executable(triple.clone())),
            Search::ByCache { path } => Some(Probe::File(path.clone())),
            _ => None,
        }
    }

    /// Goes on after the host said where the executable asked for is.
    pub fn on_executable(self, found: Option<String>) -> (next: Search)
        ensures
            next@ == self@.after_executable(text_of(found)),
    {
        match self {
            Search::ByName { cached } => match found {
                Some(path) => Search::Found(path),
                None => Search::ByPlatform { cached },
            },
            Search::ByTriple { triple, cached } => match found {
                Some(path) => Search::Found(path),
                None => match cached {
                    Some(path) => Search::ByCache { path },
                    None => Search::Install,
                },
            },
            other => other,
        }
    }

    /// Goes on after the host named the platform.
    pub fn on_platform(self, os: Os, arch: Architecture) -> (next: Search)
        ensures
            next@ == self@.after_platform(os, arch),
    {
        match self {
            Search::ByPlatform { cached } => match target_triple(os, arch) {
                Ok(triple) => Search::ByTriple { triple, cached },
                Err(reason) => Search::Failed(reason),
            },
            other => other,
        }
    }

    /// Goes on after the host said whether the earlier install's binary is a
    /// file.
    pub fn on_file(self, is_file: bool) -> (next: Search)
        ensures
            next@ == self@.after_file(is_file),
    {
        match self {
            Search::ByCache { path } => if is_file {
                Search::Found(path)
            } else {
                Search::Install
            },
            other => other,
        }
    }
}

/// An executable under the server's own name ends the search at once,
/// whatever the platform and whatever was installed before.
pub proof fn lemma_own_name_wins(cached: Option<Seq<char>>, path: Seq<char>)
    ensures
        SearchView::start(cached).after_executable(Some(path)) == SearchView::Found(path),
{
}

/// The answer to the question that a search asks brings it nearer its end,
/// so a search ends after four answers at most.
pub proof fn lemma_answers_make_progress(
    search: SearchView,
    found: Option<Seq<char>>,
    os: Os,
    arch: Architecture,
    is_file: bool,
)
    ensures
        search.question() is None <==> search.questions_left() == 0,
        search.question() matches Some(ProbeView::Executable(_)) ==> search.after_executable(
            found,
        ).questions_left() < search.questions_left(),
        search.question() == Some(ProbeView::Platform) ==> search.after_platform(
            os,
            arch,
        ).questions_left() < search.questions_left(),
        search.question() matches Some(ProbeView::File(_)) ==> search.after_file(
            is_file,
        ).questions_left() < search.questions_left(),
{
}

/// A release is installed only after every question was answered without a
/// binary: none under the server's name, none under the platform's build,
/// and none left by an earlier install.
pub proof fn lemma_install_is_the_last_resort(
    cached: Option<Seq<char>>,
    by_name: Option<Seq<char>>,
    os: Os,
    arch: Architecture,
    by_triple: Option<Seq<char>>,
    is_file: bool,
)
    requires
        SearchView::start(cached).after_executable(by_name).after_platform(
            os,
            arch,
        ).after_executable(by_triple).after_file(is_file) == SearchView::Install,
    ensures
        by_name is None,
        by_triple is None,
        triple_of(os, arch) is Ok,
        cached is Some ==> !is_file,
{
}

} // verus!

//! A scan over a workspace: which directory entries are repositories, and the
//! sync of each of them in turn.

use crate::engine::{Action, ActionView, Event, EventView, Outcome, RepoSync, SyncView};
use crate::record::Timestamp;
use crate::resolver::SurveyView;
use vstd::prelude::*;

verus! {

/// How far below the workspace root a repository's working copy lies.
pub const REPOSITORY_DEPTH: usize = 2;

/// One entry met while walking the workspace.
#[derive(Debug, PartialEq, Eq)]
pub struct Entry {
    /// The entry's file name.
    pub name: String,
    /// The entry's full path.
    pub path: String,
    /// Whether the entry is a directory.
    pub is_dir: bool,
    /// How many levels below the workspace root the entry lies.
    pub depth: usize,
}

/// A repository's working copy: a unit of work of the scan.
#[derive(Debug, PartialEq, Eq)]
pub struct Repository {
    /// The repository's name, the key of its record.
    pub name: String,
    /// Where the working copy lies.
    pub path: String,
}

/// The mathematical content of an [`Entry`].
pub ghost struct EntryView {
    pub name: Seq<char>,
    pub path: Seq<char>,
    pub is_dir: bool,
    pub depth: nat,
}

/// The mathematical content of a [`Repository`].
pub ghost struct RepositoryView {
    pub name: Seq<char>,
    pub path: Seq<char>,
}

impl View for Entry {
    type V = EntryView;

    open spec fn view(&self) -> EntryView {
        EntryView {
            name: self.name@,
            path: self.path@,
            is_dir: self.is_dir,
            depth: self.depth as nat,
        }
    }
}

impl View for Repository {
    type V = RepositoryView;

    open spec fn view(&self) -> RepositoryView {
        RepositoryView { name: self.name@, path: self.path@ }
    }
}

/// The contents of a list of entries.
pub open spec fn entry_views(entries: Seq<Entry>) -> Seq<EntryView> {
    entries.map_values(|entry: Entry| entry@)
}

/// The contents of a list of repositories.
pub open spec fn repository_views(repositories: Seq<Repository>) -> Seq<RepositoryView> {
    repositories.map_values(|repository: Repository| repository@)
}

/// Whether an entry has the shape of a repository: a directory at
/// [`REPOSITORY_DEPTH`].
pub open spec fn is_repository(entry: EntryView) -> bool {
    entry.is_dir && entry.depth == REPOSITORY_DEPTH
}

/// The repository that an entry stands for.
pub open spec fn repository_of(entry: EntryView) -> RepositoryView {
    RepositoryView { name: entry.name, path: entry.path }
}

/// The repositories among `entries`, in the order of the walk.
pub open spec fn discovered(entries: Seq<EntryView>) -> Seq<RepositoryView> {
    entries.filter(|entry: EntryView| is_repository(entry)).map_values(
        |entry: EntryView| repository_of(entry),
    )
}

/// Whether `entry` has the shape of a repository.
pub fn has_repository_shape(entry: &Entry) -> (shaped: bool)
    ensures
        shaped == is_repository(entry@),
{
    entry.is_dir && entry.depth == REPOSITORY_DEPTH
}

/// Picks the repositories out of the entries of a walk. Entries of another
/// shape are passed over; the order of the walk is kept.
pub fn discover(entries: &Vec<Entry>) -> (repositories: Vec<Repository>)
    ensures
        repository_views(repositories@) == discovered(entry_views(entries@)),
{
    let mut repositories: Vec<Repository> = Vec::new();
    let ghost shape = |entry: EntryView| is_repository(entry);
    let ghost project = |entry: EntryView| repository_of(entry);
    let ghost content = |entry: Entry| entry@;
    let ghost repo_content = |repository: Repository| repository@;
    let mut i: usize = 0;
    while i < entries.len()
        invariant
            i <= entries.len(),
            shape == |entry: EntryView| is_repository(entry),
            project == |entry: EntryView| repository_of(entry),
            content == |entry: Entry| entry@,
            repo_content == |repository: Repository| repository@,
            repositories@.map_values(repo_content) == entries@.take(i as int).map_values(
                content,
            ).filter(shape).map_values(project),
        decreases entries.len() - i,
    {
        let entry = &entries[i];
        proof {
            let before = entries@.take(i as int);
            assert(entries@.take(i + 1) =~= before.push(*entry));
            before.lemma_push_map_commute(content, *entry);
            before.map_values(content).lemma_filter_push(entry@, shape);
            before.map_values(content).filter(shape).lemma_push_map_commute(project, entry@);
        }
        if has_repository_shape(entry) {
            let repository = Repository { name: entry.name.clone(), path: entry.path.clone() };
            proof {
                repositories@.lemma_push_map_commute(repo_content, repository);
            }
            repositories.push(repository);
        }
        i += 1;
    }
    assert(entries@.take(i as int) =~= entries@);
    repositories
}

/// What the scan asks the driver to do next.
#[derive(Debug, PartialEq, Eq)]
pub enum Directive {
    /// Perform `action` on the repository at index `repository` of the scan.
    Perform { repository: usize, action: Action },
    /// Every repository has been processed.
    Complete,
}

/// The mathematical content of a [`Directive`].
pub ghost enum DirectiveView {
    Perform { repository: nat, action: ActionView },
    Complete,
}

impl View for Directive {
    type V = DirectiveView;

    open spec fn view(&self) -> DirectiveView {
        match self {
            Directive::Perform { repository, action } => DirectiveView::Perform {
                repository: *repository as nat,
                action: action@,
            },
            Directive::Complete => DirectiveView::Complete,
        }
    }
}

/// A scan in progress: the repositories, the outcomes of those that are
/// finished, and the sync of the one that is being worked on.
#[derive(Debug)]
pub struct Scan {
    repositories: Vec<Repository>,
    outcomes: Vec<Outcome>,
    current: Option<RepoSync>,
}

/// The mathematical content of a [`Scan`].
pub ghost struct ScanView {
    /// The repositories of the scan, in the order in which they are processed.
    pub repositories: Seq<RepositoryView>,
    /// The outcomes of the repositories that are finished, in that order.
    pub outcomes: Seq<Outcome>,
    /// The sync of the repository that is being worked on, if one is.
    pub current: Option<SyncView>,
}

impl View for Scan {
    type V = ScanView;

    closed spec fn view(&self) -> ScanView {
        ScanView {
            repositories: repository_views(self.repositories@),
            outcomes: self.outcomes@,
            current: match self.current {
                Some(sync) => Some(sync@),
                None => None,
            },
        }
    }
}

impl ScanView {
    /// What holds in every state that a scan reaches: the repository worked on
    /// is the first one without an outcome, and a scan without one has an
    /// outcome for every repository.
    pub open spec fn well_formed(self) -> bool {
        &&& self.outcomes.len() <= self.repositories.len()
        &&& match self.current {
            Some(sync) => {
                &&& self.outcomes.len() < self.repositories.len()
                &&& sync.name == self.repositories[self.outcomes.len() as int].name
                &&& sync.well_formed()
            },
            None => self.outcomes.len() == self.repositories.len(),
        }
    }

    /// The scan turns to the first repository without an outcome, or is
    /// complete if there is none.
    pub open spec fn turn_to_next(
        repositories: Seq<RepositoryView>,
        outcomes: Seq<Outcome>,
    ) -> (ScanView, DirectiveView) {
        if outcomes.len() < repositories.len() {
            let (sync, action) = SyncView::begin(repositories[outcomes.len() as int].name);
            (
                ScanView { repositories, outcomes, current: Some(sync) },
                DirectiveView::Perform { repository: outcomes.len(), action },
            )
        } else {
            (ScanView { repositories, outcomes, current: None }, DirectiveView::Complete)
        }
    }

    /// The scan over `repositories`, and its first directive.
    pub open spec fn start(repositories: Seq<RepositoryView>) -> (ScanView, DirectiveView) {
        Self::turn_to_next(repositories, Seq::empty())
    }

    /// The next state and directive after `event` at time `now`, where a
    /// listing of the remotes has been read as `findings`. When the
    /// repository worked on is finished, whatever its outcome, the outcome is
    /// noted and the scan turns to the next repository.
    pub open spec fn step_with(self, event: EventView, findings: SurveyView, now: Timestamp) -> (
        ScanView,
        DirectiveView,
    ) {
        match self.current {
            None => (self, DirectiveView::Complete),
            Some(sync) => {
                let (next, action) = sync.step_with(event, findings, now);
                match action {
                    ActionView::Finish { outcome } => Self::turn_to_next(
                        self.repositories,
                        self.outcomes.push(outcome),
                    ),
                    _ => (
                        ScanView { current: Some(next), ..self },
                        DirectiveView::Perform { repository: self.outcomes.len(), action },
                    ),
                }
            },
        }
    }

    /// The next state and directive after `event` at time `now`.
    pub open spec fn step(self, event: EventView, now: Timestamp) -> (ScanView, DirectiveView) {
        self.step_with(event, SyncView::findings_of(event), now)
    }
}

impl Scan {
    /// The fields fit together as in every scan that was started with
    /// [`Scan::start`].
    #[verifier::type_invariant]
    spec fn inv(&self) -> bool {
        self@.well_formed()
    }

    fn turn_to_next(repositories: Vec<Repository>, outcomes: Vec<Outcome>) -> (next: (
        Scan,
        Directive,
    ))
        requires
            outcomes.len() <= repositories.len(),
        ensures
            (next.0@, next.1@) == ScanView::turn_to_next(
                repository_views(repositories@),
                outcomes@,
            ),
            next.0@.well_formed(),
    {
        let position: usize = outcomes.len();
        if position < repositories.len() {
            let (sync, action) = RepoSync::begin(repositories[position].name.clone());
            (
                Scan { repositories, outcomes, current: Some(sync) },
                Directive::Perform { repository: position, action },
            )
        } else {
            (Scan { repositories, outcomes, current: None }, Directive::Complete)
        }
    }

    /// Starts a scan over `repositories`. The first directive is the first
    /// request for the first repository, or `Complete` if there is none.
    pub fn start(repositories: Vec<Repository>) -> (started: (Scan, Directive))
        ensures
            (started.0@, started.1@) == ScanView::start(repository_views(repositories@)),
            started.0@.well_formed(),
    {
        Self::turn_to_next(repositories, Vec::new())
    }

    /// The repositories of the scan.
    pub fn repositories(&self) -> (repositories: &Vec<Repository>)
        ensures
            repository_views(repositories@) == self@.repositories,
    {
        &self.repositories
    }

    /// The outcomes of the repositories that are finished, in the order of
    /// the scan.
    pub fn outcomes(&self) -> (outcomes: &Vec<Outcome>)
        ensures
            outcomes@ == self@.outcomes,
    {
        &self.outcomes
    }

    /// The sync of the repository that is being worked on.
    pub fn current(&self) -> (current: &Option<RepoSync>)
        ensures
            match *current {
                Some(sync) => self@.current == Some(sync@),
                None => self@.current is None,
            },
    {
        &self.current
    }

    /// Whether every repository has been processed.
    pub fn is_complete(&self) -> (complete: bool)
        ensures
            complete == (self@.current is None),
    {
        self.current.is_none()
    }

    /// Takes one step of the scan: hands `event` to the sync of the
    /// repository worked on and names the next directive.
    pub fn step(self, event: Event, now: Timestamp) -> (next: (Scan, Directive))
        ensures
            (next.0@, next.1@) == self@.step(event@, now),
            self@.well_formed(),
            next.0@.well_formed(),
    {
        proof {
            use_type_invariant(&self);
        }
        let Scan { repositories, outcomes, current } = self;
        match current {
            None => (Scan { repositories, outcomes, current: None }, Directive::Complete),
            Some(sync) => {
                let (sync, action) = sync.step(event, now);
                match action {
                    Action::Finish { outcome } => {
                        let mut outcomes = outcomes;
                        outcomes.push(outcome);
                        Self::turn_to_next(repositories, outcomes)
                    },
                    action => {
                        let position: usize = outcomes.len();
                        (
                            Scan { repositories, outcomes, current: Some(sync) },
                            Directive::Perform { repository: position, action },
                        )
                    },
                }
            },
        }
    }
}

} // verus!

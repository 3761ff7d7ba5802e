//! Locating the shell's icon list view: `Progman → SHELLDLL_DefView →
//! SysListView32`, or else the same chain under one `WorkerW` window after
//! another. Window handles are plain integers; 0 stands for "no window"
//! (the call failed or found nothing).

use vstd::prelude::*;

verus! {

/// The window classes the search asks the window system for.
#[derive(Clone, Copy, Debug, PartialEq, Eq, Structural)]
pub enum WindowClass {
    /// `Progman`, the program manager window.
    Progman,
    /// `SHELLDLL_DefView`, the shell's default view.
    ShellView,
    /// `SysListView32`, the list view that holds the desktop icons.
    ListView,
    /// `WorkerW`, a shell worker window.
    Worker,
}

/// A window lookup: the top-level window of a class, or the first child of
/// `parent` of a class that comes after `after` (0: the first one; a parent
/// of 0 means the top-level windows).
#[derive(Clone, Copy, Debug, PartialEq, Eq, Structural)]
pub enum Lookup {
    TopLevel { class: WindowClass },
    Child { parent: usize, after: usize, class: WindowClass },
}

/// Where the search stands, each state waiting for the answer to one lookup.
#[derive(Clone, Copy, Debug, PartialEq, Eq, Structural)]
pub enum ListViewSearch {
    /// Waiting for the `Progman` window.
    Progman,
    /// Waiting for the shell view under `Progman`.
    ProgmanView { progman: usize },
    /// Waiting for the list view under that shell view.
    ProgmanList { view: usize },
    /// Waiting for the next `WorkerW` window after `after`.
    Worker { after: usize },
    /// Waiting for the shell view under a `WorkerW` window.
    WorkerView { worker: usize },
    /// Waiting for the list view under a `WorkerW`'s shell view.
    WorkerList { worker: usize, view: usize },
}

/// What one answer leads to.
#[derive(Clone, Copy, Debug, PartialEq, Eq, Structural)]
pub enum SearchStep {
    /// Ask the next lookup.
    Continue(ListViewSearch),
    /// The desktop list view was found.
    Found(usize),
    /// No `WorkerW` window is left to try.
    NotFound,
}

/// The lookup that a search state waits for.
pub open spec fn lookup_of(s: ListViewSearch) -> Lookup {
    match s {
        ListViewSearch::Progman => Lookup::TopLevel { class: WindowClass::Progman },
        ListViewSearch::ProgmanView { progman } =>
            Lookup::Child { parent: progman, after: 0, class: WindowClass::ShellView },
        ListViewSearch::ProgmanList { view } =>
            Lookup::Child { parent: view, after: 0, class: WindowClass::ListView },
        ListViewSearch::Worker { after } =>
            Lookup::Child { parent: 0, after: after, class: WindowClass::Worker },
        ListViewSearch::WorkerView { worker } =>
            Lookup::Child { parent: worker, after: 0, class: WindowClass::ShellView },
        ListViewSearch::WorkerList { worker, view } =>
            Lookup::Child { parent: view, after: 0, class: WindowClass::ListView },
    }
}

/// The search's transitions. A failure anywhere on the `Progman` chain falls
/// back to the `WorkerW` windows; a failure under one `WorkerW` moves on to
/// the next one; running out of `WorkerW` windows ends the search.
pub open spec fn search_next(s: ListViewSearch, answer: usize) -> SearchStep {
    match s {
        ListViewSearch::Progman => if answer != 0 {
            SearchStep::Continue(ListViewSearch::ProgmanView { progman: answer })
        } else {
            SearchStep::Continue(ListViewSearch::Worker { after: 0 })
        },
        ListViewSearch::ProgmanView { progman } => if answer != 0 {
            SearchStep::Continue(ListViewSearch::ProgmanList { view: answer })
        } else {
            SearchStep::Continue(ListViewSearch::Worker { after: 0 })
        },
        ListViewSearch::ProgmanList { view } => if answer != 0 {
            SearchStep::Found(answer)
        } else {
            SearchStep::Continue(ListViewSearch::Worker { after: 0 })
        },
        ListViewSearch::Worker { after } => if answer != 0 {
            SearchStep::Continue(ListViewSearch::WorkerView { worker: answer })
        } else {
            SearchStep::NotFound
        },
        ListViewSearch::WorkerView { worker } => if answer != 0 {
            SearchStep::Continue(ListViewSearch::WorkerList { worker: worker, view: answer })
        } else {
            SearchStep::Continue(ListViewSearch::Worker { after: worker })
        },
        ListViewSearch::WorkerList { worker, view } => if answer != 0 {
            SearchStep::Found(answer)
        } else {
            SearchStep::Continue(ListViewSearch::Worker { after: worker })
        },
    }
}

impl ListViewSearch {
    /// A fresh search, which first asks for the `Progman` window.
    pub fn start() -> (r: ListViewSearch)
        ensures
            r == ListViewSearch::Progman,
            lookup_of(r) == (Lookup::TopLevel { class: WindowClass::Progman }),
    {
        ListViewSearch::Progman
    }

    /// The lookup this state waits for.
    pub fn lookup(&self) -> (r: Lookup)
        ensures
            r == lookup_of(*self),
    {
        match *self {
            ListViewSearch::Progman => Lookup::TopLevel { class: WindowClass::Progman },
            ListViewSearch::ProgmanView { progman } =>
                Lookup::Child { parent: progman, after: 0, class: WindowClass::ShellView },
            ListViewSearch::ProgmanList { view } =>
                Lookup::Child { parent: view, after: 0, class: WindowClass::ListView },
            ListViewSearch::Worker { after } =>
                Lookup::Child { parent: 0, after: after, class: WindowClass::Worker },
            ListViewSearch::WorkerView { worker } =>
                Lookup::Child { parent: worker, after: 0, class: WindowClass::ShellView },
            ListViewSearch::WorkerList { worker, view } =>
                Lookup::Child { parent: view, after: 0, class: WindowClass::ListView },
        }
    }

    /// Takes the answer (a window handle, 0 for none) to this state's lookup.
    pub fn advance(&self, answer: usize) -> (r: SearchStep)
        ensures
            r == search_next(*self, answer),
    {
        match *self {
            ListViewSearch::Progman => if answer != 0 {
                SearchStep::Continue(ListViewSearch::ProgmanView { progman: answer })
            } else {
                SearchStep::Continue(ListViewSearch::Worker { after: 0 })
            },
            ListViewSearch::ProgmanView { progman } => if answer != 0 {
                SearchStep::Continue(ListViewSearch::ProgmanList { view: answer })
            } else {
                SearchStep::Continue(ListViewSearch::Worker { after: 0 })
            },
            ListViewSearch::ProgmanList { view } => if answer != 0 {
                SearchStep::Found(answer)
            } else {
                SearchStep::Continue(ListViewSearch::Worker { after: 0 })
            },
            ListViewSearch::Worker { after } => if answer != 0 {
                SearchStep::Continue(ListViewSearch::WorkerView { worker: answer })
            } else {
                SearchStep::NotFound
            },
            ListViewSearch::WorkerView { worker } => if answer != 0 {
                SearchStep::Continue(ListViewSearch::WorkerList { worker: worker, view: answer })
            } else {
                SearchStep::Continue(ListViewSearch::Worker { after: worker })
            },
            ListViewSearch::WorkerList { worker, view } => if answer != 0 {
                SearchStep::Found(answer)
            } else {
                SearchStep::Continue(ListViewSearch::Worker { after: worker })
            },
        }
    }
}

/// Every handle a search state carries is a window that a lookup returned.
pub open spec fn search_wf(s: ListViewSearch) -> bool {
    match s {
        ListViewSearch::Progman => true,
        ListViewSearch::ProgmanView { progman } => progman != 0,
        ListViewSearch::ProgmanList { view } => view != 0,
        ListViewSearch::Worker { after } => true,
        ListViewSearch::WorkerView { worker } => worker != 0,
        ListViewSearch::WorkerList { worker, view } => worker != 0 && view != 0,
    }
}

/// The search never asks a null window for its children: a fresh search is
/// well formed, every transition keeps it so, and in a well-formed state
/// every lookup of a shell view or list view names a real parent window.
pub proof fn lemma_search_keeps_handles(s: ListViewSearch, answer: usize)
    ensures
        search_wf(ListViewSearch::Progman),
        search_wf(s) ==> (search_next(s, answer) matches SearchStep::Continue(t) ==> search_wf(t)),
        search_wf(s) ==> (lookup_of(s) matches Lookup::Child { parent, after, class }
            ==> (class != WindowClass::Worker ==> parent != 0)),
{
}

/// A search ends with a window only when that window is a non-null answer to
/// a lookup of the list-view class.
pub proof fn lemma_found_is_list_view(s: ListViewSearch, answer: usize)
    ensures
        search_next(s, answer) matches SearchStep::Found(h) ==> {
            &&& h == answer
            &&& h != 0
            &&& lookup_of(s) matches Lookup::Child { parent, after, class }
            &&& class == WindowClass::ListView
        },
        search_next(s, answer) is NotFound ==> answer == 0 && s is Worker,
{
}

/// When `Progman`, its shell view and that view's list view all exist, the
/// search returns that list view after exactly three lookups.
pub proof fn lemma_progman_chain_preferred(progman: usize, view: usize, list: usize)
    requires
        progman != 0,
        view != 0,
        list != 0,
    ensures
        search_next(ListViewSearch::Progman, progman)
            == SearchStep::Continue(ListViewSearch::ProgmanView { progman }),
        search_next(ListViewSearch::ProgmanView { progman }, view)
            == SearchStep::Continue(ListViewSearch::ProgmanList { view }),
        search_next(ListViewSearch::ProgmanList { view }, list) == SearchStep::Found(list),
{
}

/// A `WorkerW` window without the icon list view is skipped: the next lookup
/// asks for the `WorkerW` window that comes after it.
pub proof fn lemma_workers_are_tried_in_turn(worker: usize, view: usize)
    requires
        worker != 0,
    ensures
        search_next(ListViewSearch::WorkerView { worker }, 0)
            == SearchStep::Continue(ListViewSearch::Worker { after: worker }),
        search_next(ListViewSearch::WorkerList { worker, view }, 0)
            == SearchStep::Continue(ListViewSearch::Worker { after: worker }),
        lookup_of(ListViewSearch::Worker { after: worker })
            == (Lookup::Child { parent: 0, after: worker, class: WindowClass::Worker }),
{
}

/// Each search state asks the window system for exactly one lookup: `Progman`
/// at top level, the shell view under `Progman`, the list view under that
/// shell view, the next `WorkerW` after the last one tried, the shell view
/// under a `WorkerW`, and the list view under that `WorkerW`'s shell view.
pub proof fn lemma_lookup_table(progman: usize, view: usize, worker: usize, after: usize)
    ensures
        lookup_of(ListViewSearch::Progman) == (Lookup::TopLevel { class: WindowClass::Progman }),
        lookup_of(ListViewSearch::ProgmanView { progman })
            == (Lookup::Child { parent: progman, after: 0, class: WindowClass::ShellView }),
        lookup_of(ListViewSearch::ProgmanList { view })
            == (Lookup::Child { parent: view, after: 0, class: WindowClass::ListView }),
        lookup_of(ListViewSearch::Worker { after })
            == (Lookup::Child { parent: 0, after, class: WindowClass::Worker }),
        lookup_of(ListViewSearch::WorkerView { worker })
            == (Lookup::Child { parent: worker, after: 0, class: WindowClass::ShellView }),
        lookup_of(ListViewSearch::WorkerList { worker, view })
            == (Lookup::Child { parent: view, after: 0, class: WindowClass::ListView }),
{
}

/// When the `Progman` chain breaks, the search turns to the first `WorkerW`,
/// and a `WorkerW` whose shell view holds a list view yields that list view:
/// a `WorkerW`, its shell view and that view's list view found in turn end the
/// search with the list view.
pub proof fn lemma_worker_chain_found(worker: usize, view: usize, list: usize)
    requires
        worker != 0,
        view != 0,
        list != 0,
    ensures
        search_next(ListViewSearch::Progman, 0) == SearchStep::Continue(ListViewSearch::Worker { after: 0 }),
        forall|p: usize| p != 0 ==> search_next(ListViewSearch::ProgmanView { progman: p }, 0)
            == SearchStep::Continue(ListViewSearch::Worker { after: 0 }),
        forall|v: usize| v != 0 ==> search_next(ListViewSearch::ProgmanList { view: v }, 0)
            == SearchStep::Continue(ListViewSearch::Worker { after: 0 }),
        forall|a: usize| search_next(ListViewSearch::Worker { after: a }, worker)
            == SearchStep::Continue(ListViewSearch::WorkerView { worker }),
        forall|a: usize| search_next(ListViewSearch::Worker { after: a }, 0) == SearchStep::NotFound,
        search_next(ListViewSearch::WorkerView { worker }, view)
            == SearchStep::Continue(ListViewSearch::WorkerList { worker, view }),
        search_next(ListViewSearch::WorkerList { worker, view }, list) == SearchStep::Found(list),
{
}

} // verus!

//! Looking for the sidecar program: each candidate path in turn, then `which`.
use vstd::prelude::*;
use crate::paths::opt_string_view;
use crate::sidecar::{
    missing_program, opt_str_view, program_candidates, program_candidates_of, spec_missing_program,
    strings_view, which_answer,
};
use crate::text::trim;

verus! {

/// Where a search for the program stands.
pub enum SearchModel {
    /// Asking whether candidate `next` exists.
    Probe { next: nat },
    /// Asking `which` for the program.
    Which,
    Found { path: Seq<char> },
    Missing,
}

/// What a search asks its driver to do.
pub enum SearchActionView {
    CheckExists { path: Seq<char> },
    AskWhich,
    /// The search is over: the program's path, or the message that it is
    /// nowhere.
    Finish(Result<Seq<char>, Seq<char>>),
}

/// The answer to a search's action.
pub enum SearchOutcomeView {
    Exists(bool),
    /// The output of `which`, or none when it could not be run.
    WhichOutput(Option<Seq<char>>),
}

pub open spec fn search_wf(candidates: Seq<Seq<char>>, m: SearchModel) -> bool {
    m matches SearchModel::Probe { next } ==> next < candidates.len()
}

pub open spec fn search_action(candidates: Seq<Seq<char>>, m: SearchModel) -> SearchActionView {
    match m {
        SearchModel::Probe { next } => SearchActionView::CheckExists { path: candidates[next as int] },
        SearchModel::Which => SearchActionView::AskWhich,
        SearchModel::Found { path } => SearchActionView::Finish(Ok(path)),
        SearchModel::Missing => SearchActionView::Finish(Err(spec_missing_program())),
    }
}

/// The search after its action had outcome `o`: the first candidate that
/// exists is the answer; when none does, `which` is asked, and its trimmed
/// output, unless empty, is the answer. An outcome that does not answer the
/// action leaves the search as it was.
pub open spec fn search_next(
    candidates: Seq<Seq<char>>,
    m: SearchModel,
    o: SearchOutcomeView,
) -> SearchModel {
    match m {
        SearchModel::Probe { next } => match o {
            SearchOutcomeView::Exists(true) => SearchModel::Found { path: candidates[next as int] },
            SearchOutcomeView::Exists(false) => if next + 1 < candidates.len() {
                SearchModel::Probe { next: next + 1 }
            } else {
                SearchModel::Which
            },
            _ => m,
        },
        SearchModel::Which => match o {
            SearchOutcomeView::WhichOutput(Some(out)) => if trim(out).len() > 0 {
                SearchModel::Found { path: trim(out) }
            } else {
                SearchModel::Missing
            },
            SearchOutcomeView::WhichOutput(None) => SearchModel::Missing,
            _ => m,
        },
        _ => m,
    }
}

/// What the search asks for.
#[derive(Debug, PartialEq, Eq)]
pub enum SearchAction {
    CheckExists { path: String },
    AskWhich,
    Finish(Result<String, String>),
}

impl View for SearchAction {
    type V = SearchActionView;

    open spec fn view(&self) -> SearchActionView {
        match self {
            SearchAction::CheckExists { path } => SearchActionView::CheckExists { path: path@ },
            SearchAction::AskWhich => SearchActionView::AskWhich,
            SearchAction::Finish(Ok(p)) => SearchActionView::Finish(Ok(p@)),
            SearchAction::Finish(Err(e)) => SearchActionView::Finish(Err(e@)),
        }
    }
}

/// The answer to a search's action.
#[derive(Debug, PartialEq, Eq)]
pub enum SearchOutcome {
    Exists(bool),
    WhichOutput(Option<String>),
}

impl View for SearchOutcome {
    type V = SearchOutcomeView;

    open spec fn view(&self) -> SearchOutcomeView {
        match self {
            SearchOutcome::Exists(b) => SearchOutcomeView::Exists(*b),
            SearchOutcome::WhichOutput(o) => SearchOutcomeView::WhichOutput(opt_string_view(*o)),
        }
    }
}

enum SearchPhase {
    Probe { next: usize },
    Which,
    Found { path: String },
    Missing,
}

spec fn phase_view(p: SearchPhase) -> SearchModel {
    match p {
        SearchPhase::Probe { next } => SearchModel::Probe { next: next as nat },
        SearchPhase::Which => SearchModel::Which,
        SearchPhase::Found { path } => SearchModel::Found { path: path@ },
        SearchPhase::Missing => SearchModel::Missing,
    }
}

/// A search for the sidecar program in progress.
pub struct ProgramSearch {
    candidates: Vec<String>,
    phase: SearchPhase,
}

/// The candidates a search tries, and where it stands.
pub struct ProgramSearchView {
    pub candidates: Seq<Seq<char>>,
    pub phase: SearchModel,
}

impl View for ProgramSearch {
    type V = ProgramSearchView;

    closed spec fn view(&self) -> ProgramSearchView {
        ProgramSearchView { candidates: strings_view(self.candidates@), phase: phase_view(self.phase) }
    }
}

impl ProgramSearch {
    #[verifier::type_invariant]
    spec fn well_formed(self) -> bool {
        search_wf(strings_view(self.candidates@), phase_view(self.phase))
    }

    /// A search through the candidates of `program_candidates`, from the
    /// first.
    pub fn new(env_bin: Option<&str>, exe: Option<&str>, home: Option<&str>) -> (s: ProgramSearch)
        ensures
            s@.candidates == program_candidates(
                opt_str_view(env_bin),
                opt_str_view(exe),
                opt_str_view(home),
            ),
            s@.phase == (SearchModel::Probe { next: 0 }),
    {
        let candidates = program_candidates_of(env_bin, exe, home);
        assert(strings_view(candidates@).len() >= 3);
        ProgramSearch { candidates, phase: SearchPhase::Probe { next: 0 } }
    }

    /// What the search asks for.
    pub fn action(&self) -> (a: SearchAction)
        ensures
            a@ == search_action(self@.candidates, self@.phase),
    {
        proof {
            use_type_invariant(self);
        }
        match &self.phase {
            SearchPhase::Probe { next } => {
                let path = self.candidates[*next].clone();
                SearchAction::CheckExists { path }
            },
            SearchPhase::Which => SearchAction::AskWhich,
            SearchPhase::Found { path } => SearchAction::Finish(Ok(path.clone())),
            SearchPhase::Missing => SearchAction::Finish(Err(missing_program())),
        }
    }

    /// The search after its action had outcome `o`.
    pub fn advance(self, o: &SearchOutcome) -> (s: ProgramSearch)
        ensures
            s@.candidates == self@.candidates,
            s@.phase == search_next(self@.candidates, self@.phase, o@),
    {
        proof {
            use_type_invariant(&self);
        }
        let ProgramSearch { candidates, phase } = self;
        let phase = match phase {
            SearchPhase::Probe { next } => match o {
                SearchOutcome::Exists(true) => SearchPhase::Found {
                    path: candidates[next].clone(),
                },
                SearchOutcome::Exists(false) => if next < candidates.len() - 1 {
                    SearchPhase::Probe { next: next + 1 }
                } else {
                    SearchPhase::Which
                },
                _ => SearchPhase::Probe { next },
            },
            SearchPhase::Which => match o {
                SearchOutcome::WhichOutput(Some(out)) => match which_answer(out.as_str()) {
                    Some(path) => SearchPhase::Found { path },
                    None => SearchPhase::Missing,
                },
                SearchOutcome::WhichOutput(None) => SearchPhase::Missing,
                _ => SearchPhase::Which,
            },
            SearchPhase::Found { path } => SearchPhase::Found { path },
            SearchPhase::Missing => SearchPhase::Missing,
        };
        ProgramSearch { candidates, phase }
    }
}

/// The search over `candidates` from `m`, after the first `k` outcomes of
/// `outs`.
pub open spec fn search_after(
    candidates: Seq<Seq<char>>,
    m: SearchModel,
    outs: Seq<SearchOutcomeView>,
    k: nat,
) -> SearchModel
    decreases k,
{
    if k == 0 {
        m
    } else {
        search_next(candidates, search_after(candidates, m, outs, (k - 1) as nat), outs[k - 1])
    }
}

/// The search has gone past candidate `i`.
pub open spec fn search_past(s: SearchModel, i: nat) -> bool {
    match s {
        SearchModel::Probe { next } => next > i,
        SearchModel::Which => true,
        SearchModel::Missing => true,
        SearchModel::Found { .. } => false,
    }
}

proof fn lemma_search_wf(candidates: Seq<Seq<char>>, outs: Seq<SearchOutcomeView>, k: nat)
    requires
        candidates.len() > 0,
    ensures
        search_wf(candidates, search_after(candidates, SearchModel::Probe { next: 0 }, outs, k)),
    decreases k,
{
    if k > 0 {
        lemma_search_wf(candidates, outs, (k - 1) as nat);
    }
}

proof fn lemma_search_past(
    candidates: Seq<Seq<char>>,
    outs: Seq<SearchOutcomeView>,
    k: nat,
    i: nat,
)
    requires
        candidates.len() > 0,
        i < candidates.len(),
    ensures
        search_past(search_after(candidates, SearchModel::Probe { next: 0 }, outs, k), i)
            ==> exists|a: nat|
            a < k && search_after(candidates, SearchModel::Probe { next: 0 }, outs, a) == (
            SearchModel::Probe { next: i }) && outs[a as int] == SearchOutcomeView::Exists(false),
    decreases k,
{
    let start = SearchModel::Probe { next: 0 };
    if k > 0 {
        let p = (k - 1) as nat;
        lemma_search_past(candidates, outs, p, i);
        lemma_search_wf(candidates, outs, p);
        let s = search_after(candidates, start, outs, p);
        if search_past(search_after(candidates, start, outs, k), i) && !search_past(s, i) {
            assert(s == (SearchModel::Probe { next: i }));
            assert(outs[p as int] == SearchOutcomeView::Exists(false));
        }
    }
}

/// The search checks the candidates in order: while it stands at candidate
/// `n` (or has gone on to `which`), every earlier candidate was checked and
/// reported missing. So a candidate is reported found only when it is the
/// first one that exists, and `which` is asked only when none exists.
pub proof fn law_search_in_order(
    candidates: Seq<Seq<char>>,
    outs: Seq<SearchOutcomeView>,
    k: nat,
    i: nat,
)
    requires
        candidates.len() > 0,
        match search_after(candidates, SearchModel::Probe { next: 0 }, outs, k) {
            SearchModel::Probe { next } => i < next,
            SearchModel::Which => i < candidates.len(),
            _ => false,
        },
    ensures
        exists|a: nat|
            a < k && #[trigger] search_action(
                candidates,
                search_after(candidates, SearchModel::Probe { next: 0 }, outs, a),
            ) == (SearchActionView::CheckExists { path: candidates[i as int] }) && outs[a as int]
                == SearchOutcomeView::Exists(false),
{
    lemma_search_wf(candidates, outs, k);
    lemma_search_past(candidates, outs, k, i);
    let a = choose|a: nat|
        a < k && search_after(candidates, SearchModel::Probe { next: 0 }, outs, a) == (
        SearchModel::Probe { next: i }) && outs[a as int] == SearchOutcomeView::Exists(false);
    assert(search_action(
        candidates,
        search_after(candidates, SearchModel::Probe { next: 0 }, outs, a),
    ) == (SearchActionView::CheckExists { path: candidates[i as int] }));
}

/// How a search ends after `which` answered `o`: its trimmed output, unless
/// empty, is the path; otherwise the program is missing.
pub open spec fn which_result(o: SearchOutcomeView) -> SearchActionView {
    let missing = "找不到 Ever-Living sidecar。请安装 ever-living 命令。"@;
    match o {
        SearchOutcomeView::WhichOutput(Some(out)) => if trim(out).len() > 0 {
            SearchActionView::Finish(Ok(trim(out)))
        } else {
            SearchActionView::Finish(Err(missing))
        },
        _ => SearchActionView::Finish(Err(missing)),
    }
}

/// The search answers with what was found: a candidate reported to exist is
/// the program's path; after `which` is asked, its trimmed output is the
/// path unless it is empty, and otherwise (or when `which` could not be run)
/// the search reports the program missing.
pub proof fn law_search_answers(candidates: Seq<Seq<char>>, outs: Seq<SearchOutcomeView>, k: nat)
    requires
        candidates.len() > 0,
    ensures
        ({
            let a = search_action(
                candidates,
                search_after(candidates, SearchModel::Probe { next: 0 }, outs, k),
            );
            let b = search_action(
                candidates,
                search_after(candidates, SearchModel::Probe { next: 0 }, outs, k + 1),
            );
            &&& (a matches SearchActionView::CheckExists { path } && outs[k as int]
                == SearchOutcomeView::Exists(true)) ==> b == SearchActionView::Finish(
                Ok(a->CheckExists_path),
            )
            &&& (a is AskWhich && outs[k as int] is WhichOutput) ==> b == which_result(outs[k as int])
        }),
{
    lemma_search_wf(candidates, outs, k);
}

} // verus!

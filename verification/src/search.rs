//! Looking for a tool in one place after the other.
//!
//! The search says what it wants to know next; the caller finds it out and
//! answers, until the search is done.

use crate::env_check;
use crate::paths::Joined;
use crate::text;
use vstd::prelude::*;

verus! {

/// Where something is: a starting point and the names joined to it.
pub type PlaceView = (Seq<char>, Seq<Seq<char>>);

/// What a place says.
pub open spec fn place(j: Joined<String>) -> PlaceView {
    (j.base@, j.names.deep_view())
}

fn copy_place(j: &Joined<String>) -> (r: Joined<String>)
    ensures
        place(r) == place(*j),
{
    Joined { base: j.base.clone(), names: text::copy_list(&j.names) }
}

/// The place that a text spells out.
fn spelled(path: String) -> (r: Joined<String>)
    ensures
        place(r) == (path@, Seq::<Seq<char>>::empty()),
{
    let names: Vec<String> = Vec::new();
    assert(names.deep_view() =~= Seq::<Seq<char>>::empty());
    Joined { base: path, names }
}

/// Somewhere to look.
#[derive(Debug)]
pub enum Candidate {
    /// Whatever the system finds under a name on its search path.
    OnPath(String),
    /// A fixed place.
    At(Joined<String>),
}

/// What a `Candidate` says.
#[verifier::ext_equal]
pub enum CandidateView {
    OnPath(Seq<char>),
    At(PlaceView),
}

impl DeepView for Candidate {
    type V = CandidateView;

    open spec fn deep_view(&self) -> CandidateView {
        match self {
            Candidate::OnPath(name) => CandidateView::OnPath(name@),
            Candidate::At(j) => CandidateView::At(place(*j)),
        }
    }
}

/// What the search wants to know.
#[derive(Debug)]
pub enum Ask {
    /// What the system's lookup command prints for a name.
    Locate(String),
    /// Whether there is anything at a place.
    Exists(Joined<String>),
    /// What the program at a place prints when asked for its version.
    Version(Joined<String>),
    /// Nothing more: this is what was found.
    Done(Option<Joined<String>>),
}

/// What an `Ask` says.
#[verifier::ext_equal]
pub enum AskView {
    Locate(Seq<char>),
    Exists(PlaceView),
    Version(PlaceView),
    Done(Option<PlaceView>),
}

impl View for Ask {
    type V = AskView;

    open spec fn view(&self) -> AskView {
        match self {
            Ask::Locate(name) => AskView::Locate(name@),
            Ask::Exists(j) => AskView::Exists(place(*j)),
            Ask::Version(j) => AskView::Version(place(*j)),
            Ask::Done(Some(j)) => AskView::Done(Some(place(*j))),
            Ask::Done(None) => AskView::Done(None),
        }
    }
}

/// What the caller found out. `None` stands for a command that could not be run.
#[derive(Debug)]
pub enum Answer {
    Located(Option<String>),
    Exists(bool),
    Version(Option<String>),
}

/// What an `Answer` says.
#[verifier::ext_equal]
pub enum AnswerView {
    Located(Option<Seq<char>>),
    Exists(bool),
    Version(Option<Seq<char>>),
}

impl View for Answer {
    type V = AnswerView;

    open spec fn view(&self) -> AnswerView {
        match self {
            Answer::Located(t) => AnswerView::Located(t.deep_view()),
            Answer::Exists(b) => AnswerView::Exists(*b),
            Answer::Version(t) => AnswerView::Version(t.deep_view()),
        }
    }
}

/// Whether an answer is one to that question.
pub open spec fn answers(ask: AskView, answer: AnswerView) -> bool {
    match ask {
        AskView::Locate(_) => answer is Located,
        AskView::Exists(_) => answer is Exists,
        AskView::Version(_) => answer is Version,
        AskView::Done(_) => false,
    }
}

/// How far a search has come.
#[verifier::ext_equal]
pub enum StageView {
    /// The first of the remaining candidates is being looked at.
    Look,
    /// The first of the remaining candidates turned out to be at this place,
    /// which is being confirmed.
    Confirm(PlaceView),
    /// The tool is at this place.
    Found(PlaceView),
}

/// What a search says.
#[verifier::ext_equal]
pub struct SearchView {
    /// The candidates that are not ruled out.
    pub rest: Seq<CandidateView>,
    /// How far the search has come.
    pub stage: StageView,
    /// Whether the tool must be a Python that is new enough.
    pub wants_python: bool,
}

/// What the search wants to know next.
pub open spec fn pending(s: SearchView) -> AskView {
    match s.stage {
        StageView::Found(p) => AskView::Done(Some(p)),
        StageView::Confirm(p) => if s.wants_python {
            AskView::Version(p)
        } else {
            AskView::Exists(p)
        },
        StageView::Look => if s.rest.len() == 0 {
            AskView::Done(None)
        } else {
            match s.rest[0] {
                CandidateView::OnPath(name) => AskView::Locate(name),
                CandidateView::At(p) => AskView::Exists(p),
            }
        },
    }
}

/// The path that a lookup command printed: its first line, trimmed.
pub open spec fn located_path(output: Seq<char>) -> Seq<char> {
    text::trimmed(text::first_line_of(output))
}

/// The search with its first candidate ruled out.
pub open spec fn rule_out(s: SearchView) -> SearchView {
    SearchView { rest: s.rest.drop_first(), stage: StageView::Look, ..s }
}

/// The search after an answer to what it wanted to know.
pub open spec fn after(s: SearchView, answer: AnswerView) -> SearchView {
    match answer {
        AnswerView::Located(Some(output)) => if located_path(output).len() == 0 {
            rule_out(s)
        } else {
            SearchView {
                stage: StageView::Confirm(
                    (located_path(output), Seq::<Seq<char>>::empty()),
                ),
                ..s
            }
        },
        AnswerView::Located(None) => rule_out(s),
        AnswerView::Exists(false) => rule_out(s),
        AnswerView::Exists(true) => match s.stage {
            StageView::Look => match s.rest[0] {
                CandidateView::At(p) => if s.wants_python {
                    SearchView { stage: StageView::Confirm(p), ..s }
                } else {
                    SearchView { stage: StageView::Found(p), ..s }
                },
                CandidateView::OnPath(_) => s,
            },
            StageView::Confirm(p) => SearchView { stage: StageView::Found(p), ..s },
            StageView::Found(_) => s,
        },
        AnswerView::Version(output) => match s.stage {
            StageView::Confirm(p) => if output is Some && env_check::supported(output->0) {
                SearchView { stage: StageView::Found(p), ..s }
            } else {
                rule_out(s)
            },
            _ => s,
        },
    }
}

#[derive(Debug)]
enum Stage {
    Look,
    Confirm(Joined<String>),
    Found(Joined<String>),
}

/// A search under way.
#[derive(Debug)]
pub struct ToolSearch {
    candidates: Vec<Candidate>,
    next: usize,
    stage: Stage,
    wants_python: bool,
}

impl View for ToolSearch {
    type V = SearchView;

    closed spec fn view(&self) -> SearchView {
        SearchView {
            rest: self.candidates.deep_view().skip(self.next as int),
            stage: match self.stage {
                Stage::Look => StageView::Look,
                Stage::Confirm(j) => StageView::Confirm(place(j)),
                Stage::Found(j) => StageView::Found(place(j)),
            },
            wants_python: self.wants_python,
        }
    }
}

impl ToolSearch {
    #[verifier::type_invariant]
    spec fn valid(&self) -> bool {
        &&& self.next <= self.candidates.len()
        &&& self.stage is Confirm ==> self.next < self.candidates.len()
    }

    /// A search that has not begun.
    pub fn new(candidates: Vec<Candidate>, wants_python: bool) -> (r: Self)
        ensures
            r@ == (SearchView {
                rest: candidates.deep_view(),
                stage: StageView::Look,
                wants_python,
            }),
    {
        let r = ToolSearch { candidates, next: 0, stage: Stage::Look, wants_python };
        assert(r@.rest =~= candidates.deep_view());
        r
    }

    /// What the search wants to know next.
    pub fn ask(&self) -> (r: Ask)
        ensures
            r@ == pending(self@),
    {
        proof {
            use_type_invariant(self);
        }
        match &self.stage {
            Stage::Found(j) => Ask::Done(Some(copy_place(j))),
            Stage::Confirm(j) => if self.wants_python {
                Ask::Version(copy_place(j))
            } else {
                Ask::Exists(copy_place(j))
            },
            Stage::Look => {
                if self.next == self.candidates.len() {
                    return Ask::Done(None);
                }
                assert(self@.rest[0] == self.candidates[self.next as int].deep_view());
                match &self.candidates[self.next] {
                    Candidate::OnPath(name) => Ask::Locate(name.clone()),
                    Candidate::At(j) => Ask::Exists(copy_place(j)),
                }
            },
        }
    }

    /// The search after an answer to what it wanted to know.
    pub fn answer(self, answer: Answer) -> (r: Self)
        requires
            answers(pending(self@), answer@),
        ensures
            r@ == after(self@, answer@),
    {
        proof {
            use_type_invariant(&self);
        }
        let ghost before = self@;
        let ToolSearch { candidates, next, stage, wants_python } = self;
        assert(next < candidates.len());
        assert(before.rest[0] == candidates[next as int].deep_view());
        assert(before.rest.drop_first() =~= candidates.deep_view().skip(next + 1));
        let stage = match (answer, stage) {
            (Answer::Located(Some(output)), _) => {
                let path = text::trim(text::first_line(output.as_str()).as_str()).to_string();
                if path.as_str().is_empty() {
                    None
                } else {
                    Some(Stage::Confirm(spelled(path)))
                }
            },
            (Answer::Exists(true), Stage::Confirm(j)) => Some(Stage::Found(j)),
            (Answer::Exists(true), _) => match &candidates[next] {
                Candidate::At(j) => if wants_python {
                    Some(Stage::Confirm(copy_place(j)))
                } else {
                    Some(Stage::Found(copy_place(j)))
                },
                Candidate::OnPath(_) => None,
            },
            (Answer::Version(Some(output)), Stage::Confirm(j)) => {
                if env_check::check_python_version(output.as_str()) {
                    Some(Stage::Found(j))
                } else {
                    None
                }
            },
            (_, _) => None,
        };
        match stage {
            Some(stage) => ToolSearch { candidates, next, stage, wants_python },
            None => ToolSearch { candidates, next: next + 1, stage: Stage::Look, wants_python },
        }
    }
}

/// What there is to be found out about a system.
pub struct World {
    /// What the lookup command prints for a name, where it can be run.
    pub located: spec_fn(Seq<char>) -> Option<Seq<char>>,
    /// Whether there is anything at a place.
    pub exists: spec_fn(PlaceView) -> bool,
    /// What the program at a place prints when asked for its version.
    pub version: spec_fn(PlaceView) -> Option<Seq<char>>,
}

/// The true answer to a question.
pub open spec fn truth(w: World, ask: AskView) -> AnswerView {
    match ask {
        AskView::Locate(name) => AnswerView::Located((w.located)(name)),
        AskView::Exists(p) => AnswerView::Exists((w.exists)(p)),
        AskView::Version(p) => AnswerView::Version((w.version)(p)),
        AskView::Done(_) => AnswerView::Exists(false),
    }
}

/// Whether the program at a place is a Python that is new enough.
pub open spec fn good_python(w: World, p: PlaceView) -> bool {
    match (w.version)(p) {
        Some(output) => env_check::supported(output),
        None => false,
    }
}

/// Where a candidate turns out to be, if it is any good. A Python that the
/// system's lookup named is good if it is new enough, another tool if it is
/// there; at a fixed place both must be there, and a Python be new enough.
pub open spec fn accepted(w: World, c: CandidateView, wants_python: bool) -> Option<PlaceView> {
    match c {
        CandidateView::OnPath(name) => match (w.located)(name) {
            Some(output) => {
                let p: PlaceView = (located_path(output), Seq::<Seq<char>>::empty());
                if p.0.len() > 0 && (if wants_python {
                    good_python(w, p)
                } else {
                    (w.exists)(p)
                }) {
                    Some(p)
                } else {
                    None
                }
            },
            None => None,
        },
        CandidateView::At(p) => if (w.exists)(p) && (wants_python ==> good_python(w, p)) {
            Some(p)
        } else {
            None
        },
    }
}

/// Where the first candidate that is any good turns out to be.
pub open spec fn first_accepted(
    w: World,
    candidates: Seq<CandidateView>,
    wants_python: bool,
) -> Option<PlaceView>
    decreases candidates.len(),
{
    if candidates.len() == 0 {
        None
    } else if accepted(w, candidates[0], wants_python) is Some {
        accepted(w, candidates[0], wants_python)
    } else {
        first_accepted(w, candidates.drop_first(), wants_python)
    }
}

/// What a search that has come this far will find.
pub open spec fn outcome(w: World, s: SearchView) -> Option<PlaceView> {
    match s.stage {
        StageView::Look => first_accepted(w, s.rest, s.wants_python),
        StageView::Confirm(p) => if (if s.wants_python {
            good_python(w, p)
        } else {
            (w.exists)(p)
        }) {
            Some(p)
        } else {
            first_accepted(w, s.rest.drop_first(), s.wants_python)
        },
        StageView::Found(p) => Some(p),
    }
}

/// How much is left to ask.
pub open spec fn effort(s: SearchView) -> int {
    match s.stage {
        StageView::Look => 2 * s.rest.len() as int,
        StageView::Confirm(_) => 2 * s.rest.len() as int - 1,
        StageView::Found(_) => 0,
    }
}

/// True answers do not change what a search will find, each brings it nearer to
/// its end, and when it is done it says just that.
pub proof fn search_finds_the_first(w: World, s: SearchView)
    requires
        s.stage is Confirm ==> s.rest.len() > 0,
    ensures
        pending(s) matches AskView::Done(found) ==> found == outcome(w, s),
        !(pending(s) is Done) ==> {
            let next = after(s, truth(w, pending(s)));
            &&& answers(pending(s), truth(w, pending(s)))
            &&& outcome(w, next) == outcome(w, s)
            &&& 0 <= effort(next) < effort(s)
            &&& next.stage is Confirm ==> next.rest.len() > 0
        },
{
}

/// What comes of a search whose every question is answered truly.
pub open spec fn run(w: World, s: SearchView) -> Option<PlaceView>
    decreases effort(s),
    when s.stage is Confirm ==> s.rest.len() > 0
{
    proof {
        search_finds_the_first(w, s);
    }
    match pending(s) {
        AskView::Done(found) => found,
        _ => run(w, after(s, truth(w, pending(s)))),
    }
}

proof fn lemma_run(w: World, s: SearchView)
    requires
        s.stage is Confirm ==> s.rest.len() > 0,
    ensures
        run(w, s) == outcome(w, s),
    decreases effort(s),
{
    search_finds_the_first(w, s);
    if !(pending(s) is Done) {
        lemma_run(w, after(s, truth(w, pending(s))));
    }
}

/// A search from its beginning finds the first of its candidates that is any
/// good, and nothing where none is.
pub proof fn whole_search_finds_the_first(
    w: World,
    candidates: Seq<CandidateView>,
    wants_python: bool,
)
    ensures
        run(w, SearchView { rest: candidates, stage: StageView::Look, wants_python })
            == first_accepted(w, candidates, wants_python),
{
    lemma_run(w, SearchView { rest: candidates, stage: StageView::Look, wants_python });
}

/// A Python that a search finds is new enough.
pub proof fn found_python_is_good(w: World, candidates: Seq<CandidateView>)
    ensures
        first_accepted(w, candidates, true) matches Some(p) ==> good_python(w, p),
    decreases candidates.len(),
{
    if candidates.len() > 0 {
        found_python_is_good(w, candidates.drop_first());
    }
}

} // verus!

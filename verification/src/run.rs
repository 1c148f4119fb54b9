//! The run over the categories that were asked for.
//!
//! A [`Run`] decides and its driver acts: the driver asks for the pending
//! [`Action`], performs it, and reports the [`Outcome`]. Categories are
//! handled one at a time, in order; within a category the images are
//! handled one at a time, in the order of the selection. The first failure
//! ends the run: nothing is retried and no later element or category is
//! touched. This includes an element without download — it is not skipped,
//! so that a page whose structure changed is noticed at once — and a
//! category without selection rule, which fails when its page has been
//! fetched. Images that were stored before the failure stay stored.

use crate::args::{configs_of, configs_view, selected_targets, Args};
use crate::error::DownloadError;
use crate::page::{Page, MAX_PAGE_BYTES};
use crate::plan::{plan_of, plan_view};
use crate::resolve::{destination_path, ResolvedDownload, ResolvedDownloadView};
use crate::rule::{rule_of, SelectionRule};
use crate::target::{TargetConfig, TargetConfigView};
use vstd::prelude::*;
use vstd::utf8::encode_utf8;

verus! {

/// How far the run has come.
#[derive(Clone, Copy, Debug, PartialEq, Eq, Structural)]
pub enum Stage {
    /// The current category has not been touched; its directory is due.
    Pending,
    /// The directory exists; the page of the current category is due.
    Fetching,
    /// The page was parsed and its elements selected; the image with this
    /// index in the plan is due.
    Downloading(usize),
    /// Every category is complete.
    Done,
    /// The run has stopped for this reason.
    Failed(DownloadError),
}

/// The mathematical content of a [`Stage`].
pub enum StageView {
    Pending,
    Fetching,
    Downloading(nat),
    Done,
    Failed(DownloadError),
}

impl View for Stage {
    type V = StageView;

    open spec fn view(&self) -> StageView {
        match *self {
            Stage::Pending => StageView::Pending,
            Stage::Fetching => StageView::Fetching,
            Stage::Downloading(index) => StageView::Downloading(index as nat),
            Stage::Done => StageView::Done,
            Stage::Failed(error) => StageView::Failed(error),
        }
    }
}

/// What the driver has to do next.
#[derive(Debug, PartialEq, Eq)]
pub enum Action {
    /// Make sure that the directory exists, with all its parents.
    EnsureDirectory { path: String },
    /// Fetch the page at this address as text.
    FetchPage { url: String },
    /// Fetch the image at this address and write it to this path,
    /// replacing a file that is already there.
    SaveImage { url: String, path: String },
    /// Nothing more: the run has ended in this way.
    Finish { result: Result<(), DownloadError> },
}

/// The mathematical content of an [`Action`].
pub enum ActionView {
    EnsureDirectory { path: Seq<char> },
    FetchPage { url: Seq<char> },
    SaveImage { url: Seq<char>, path: Seq<char> },
    Finish { result: Result<(), DownloadError> },
}

impl View for Action {
    type V = ActionView;

    open spec fn view(&self) -> ActionView {
        match *self {
            Action::EnsureDirectory { path } => ActionView::EnsureDirectory { path: path@ },
            Action::FetchPage { url } => ActionView::FetchPage { url: url@ },
            Action::SaveImage { url, path } => ActionView::SaveImage { url: url@, path: path@ },
            Action::Finish { result } => ActionView::Finish { result },
        }
    }
}

/// Why the driver could not perform an action.
#[derive(Clone, Copy, Debug, PartialEq, Eq, Structural)]
pub enum Failure {
    /// A request failed in transport or was answered with an error status.
    Network,
    /// The file system refused.
    Io,
}

/// What came of the action that the driver performed.
#[derive(Debug)]
pub enum Outcome {
    /// The directory exists, or the image is stored.
    Completed,
    /// The page was fetched.
    Fetched(Page),
    /// The action failed.
    Failed(Failure),
}

impl Outcome {
    /// The outcome of a fetch that brought `text`: the page, or a network
    /// failure where the text is longer than a page may be.
    pub fn fetched(text: String) -> (outcome: Outcome)
        ensures
            outcome@ == if encode_utf8(text@).len() <= MAX_PAGE_BYTES {
                OutcomeView::Fetched(text@)
            } else {
                OutcomeView::Failed(Failure::Network)
            },
    {
        match Page::new(text) {
            Some(page) => Outcome::Fetched(page),
            None => Outcome::Failed(Failure::Network),
        }
    }
}

/// The mathematical content of an [`Outcome`].
pub enum OutcomeView {
    Completed,
    Fetched(Seq<char>),
    Failed(Failure),
}

impl View for Outcome {
    type V = OutcomeView;

    open spec fn view(&self) -> OutcomeView {
        match *self {
            Outcome::Completed => OutcomeView::Completed,
            Outcome::Fetched(page) => OutcomeView::Fetched(page@),
            Outcome::Failed(failure) => OutcomeView::Failed(failure),
        }
    }
}

/// The error that a failure of the driver stands for.
pub open spec fn error_of(failure: Failure) -> DownloadError {
    match failure {
        Failure::Network => DownloadError::NetworkError,
        Failure::Io => DownloadError::IoError,
    }
}

/// A run: the categories, which of them is current, and how far it is.
#[derive(Debug)]
pub struct Run {
    targets: Vec<TargetConfig>,
    current: usize,
    stage: Stage,
    plan: Vec<Result<ResolvedDownload, DownloadError>>,
}

/// The mathematical content of a [`Run`].
pub struct RunView {
    /// The categories of the run, in order.
    pub targets: Seq<TargetConfigView>,
    /// How many categories are complete.
    pub current: nat,
    /// How far the current category is.
    pub stage: StageView,
    /// The plan of the current category while it is downloading, else
    /// empty.
    pub plan: Seq<Result<ResolvedDownloadView, DownloadError>>,
}

impl RunView {
    /// What holds of every run: the stage fits the position, and a
    /// download that is due exists.
    pub open spec fn well_formed(self) -> bool {
        &&& self.current <= self.targets.len()
        &&& self.stage == StageView::Done <==> self.current == self.targets.len()
        &&& match self.stage {
            StageView::Downloading(i) => i < self.plan.len() && self.plan[i as int] is Ok,
            _ => self.plan.len() == 0,
        }
    }

    /// Whether the run has ended.
    pub open spec fn ended(self) -> bool {
        self.stage == StageView::Done || self.stage is Failed
    }
}

/// The run at the beginning of the category with index `current`, or at
/// its end if there is no such category.
pub open spec fn begin(targets: Seq<TargetConfigView>, current: nat) -> RunView {
    RunView {
        targets,
        current,
        stage: if current < targets.len() {
            StageView::Pending
        } else {
            StageView::Done
        },
        plan: Seq::empty(),
    }
}

/// The run stopped by `error`.
pub open spec fn fail(run: RunView, error: DownloadError) -> RunView {
    RunView { stage: StageView::Failed(error), plan: Seq::empty(), ..run }
}

/// The run when entry `index` of `plan` is next: it is due if it is a
/// download, it stops the run if it is an error, and past the last entry
/// the next category begins.
pub open spec fn proceed(
    run: RunView,
    plan: Seq<Result<ResolvedDownloadView, DownloadError>>,
    index: nat,
) -> RunView {
    if index >= plan.len() {
        begin(run.targets, run.current + 1)
    } else {
        match plan[index as int] {
            Ok(_) => RunView { stage: StageView::Downloading(index), plan, ..run },
            Err(e) => fail(run, e),
        }
    }
}

/// The run after the driver has reported `outcome`. An outcome that does
/// not answer the pending action changes nothing.
pub open spec fn next(run: RunView, outcome: OutcomeView) -> RunView {
    match (run.stage, outcome) {
        (StageView::Pending, OutcomeView::Completed) => RunView {
            stage: StageView::Fetching,
            ..run
        },
        (StageView::Pending, OutcomeView::Failed(failure)) => fail(run, error_of(failure)),
        (StageView::Fetching, OutcomeView::Fetched(page)) => match plan_of(
            run.targets[run.current as int].target,
            page,
        ) {
            Ok(plan) => proceed(run, plan, 0),
            Err(e) => fail(run, e),
        },
        (StageView::Fetching, OutcomeView::Failed(failure)) => fail(run, error_of(failure)),
        (StageView::Downloading(i), OutcomeView::Completed) => proceed(run, run.plan, i + 1),
        (StageView::Downloading(i), OutcomeView::Failed(failure)) => fail(
            run,
            error_of(failure),
        ),
        _ => run,
    }
}

/// What the driver has to do in this state of the run.
pub open spec fn action_of(run: RunView) -> ActionView {
    match run.stage {
        StageView::Pending => ActionView::EnsureDirectory {
            path: run.targets[run.current as int].tar_dir,
        },
        StageView::Fetching => ActionView::FetchPage {
            url: run.targets[run.current as int].src_url,
        },
        StageView::Downloading(i) => ActionView::SaveImage {
            url: run.plan[i as int]->Ok_0.absolute_url,
            path: destination_path(
                run.targets[run.current as int].tar_dir,
                run.plan[i as int]->Ok_0,
            ),
        },
        StageView::Done => ActionView::Finish { result: Ok(()) },
        StageView::Failed(e) => ActionView::Finish { result: Err(e) },
    }
}

/// The run after a sequence of outcomes, reported one after the other.
pub open spec fn run_after(run: RunView, outcomes: Seq<OutcomeView>) -> RunView
    decreases outcomes.len(),
{
    if outcomes.len() == 0 {
        run
    } else {
        run_after(next(run, outcomes[0]), outcomes.drop_first())
    }
}

/// A step keeps a run well formed.
pub proof fn lemma_next_well_formed(run: RunView, outcome: OutcomeView)
    requires
        run.well_formed(),
    ensures
        next(run, outcome).well_formed(),
{
}

/// Images are saved only while a category is downloading: before its page
/// has been fetched and selected, and after the run has ended, none is.
pub proof fn lemma_saves_only_while_downloading(run: RunView)
    ensures
        action_of(run) is SaveImage <==> run.stage is Downloading,
{
}

/// A run that has ended stays as it is, whatever is reported to it, and
/// asks for nothing but to finish.
pub proof fn lemma_ended_run_stays(run: RunView, outcomes: Seq<OutcomeView>)
    requires
        run.ended(),
    ensures
        run_after(run, outcomes) == run,
        action_of(run) is Finish,
    decreases outcomes.len(),
{
    if outcomes.len() > 0 {
        lemma_ended_run_stays(run, outcomes.drop_first());
    }
}

/// A page that cannot be fetched ends the run with the failure that was
/// reported: from then on the only action is to finish with that error,
/// so no image of the category is fetched and no file is written for it.
pub proof fn lemma_failed_fetch_ends_run(
    run: RunView,
    failure: Failure,
    later: Seq<OutcomeView>,
)
    requires
        run.well_formed(),
        run.stage == StageView::Fetching,
    ensures
        action_of(run) is FetchPage,
        action_of(run_after(next(run, OutcomeView::Failed(failure)), later)) == (
        ActionView::Finish { result: Err(error_of(failure)) }),
{
    lemma_ended_run_stays(next(run, OutcomeView::Failed(failure)), later);
}

/// `count` outcomes that each report a completed action.
pub open spec fn completions(count: nat) -> Seq<OutcomeView> {
    Seq::new(count, |i: int| OutcomeView::Completed)
}

/// Reporting one more outcome is one more step.
pub proof fn lemma_run_after_push(run: RunView, outcomes: Seq<OutcomeView>, last: OutcomeView)
    ensures
        run_after(run, outcomes.push(last)) == next(run_after(run, outcomes), last),
    decreases outcomes.len(),
{
    if outcomes.len() == 0 {
        assert(outcomes.push(last).drop_first() =~= Seq::<OutcomeView>::empty());
    } else {
        assert(outcomes.push(last).drop_first() =~= outcomes.drop_first().push(last));
        lemma_run_after_push(next(run, outcomes[0]), outcomes.drop_first(), last);
    }
}

/// The images of a category are handled in the order of its plan: once
/// the page has arrived and the first `count` entries have been saved, the
/// run stands at entry `count`. There it saves the next image, or stops
/// with the error of that entry, or turns to the next category when the
/// plan is exhausted.
pub proof fn lemma_run_follows_plan(run: RunView, page: Seq<char>, count: nat)
    requires
        run.well_formed(),
        run.stage == StageView::Fetching,
        plan_of(run.targets[run.current as int].target, page) is Ok,
        count <= plan_of(run.targets[run.current as int].target, page)->Ok_0.len(),
        forall|j: int|
            0 <= j < count ==> (#[trigger] plan_of(
                run.targets[run.current as int].target,
                page,
            )->Ok_0[j]) is Ok,
    ensures
        run_after(next(run, OutcomeView::Fetched(page)), completions(count)) == proceed(
            run,
            plan_of(run.targets[run.current as int].target, page)->Ok_0,
            count,
        ),
    decreases count,
{
    let plan = plan_of(run.targets[run.current as int].target, page)->Ok_0;
    let arrived = next(run, OutcomeView::Fetched(page));
    if count == 0 {
        assert(completions(0) =~= Seq::<OutcomeView>::empty());
    } else {
        let before = (count - 1) as nat;
        lemma_run_follows_plan(run, page, before);
        assert(completions(count) =~= completions(before).push(OutcomeView::Completed));
        lemma_run_after_push(arrived, completions(before), OutcomeView::Completed);
        assert(plan[before as int] is Ok);
    }
}

/// A category without selection rule fails when its page arrives: the run
/// stops with [`DownloadError::Unimplemented`] and does not go on as if
/// the page held no image.
pub proof fn lemma_category_without_rule_fails(run: RunView, page: Seq<char>)
    requires
        run.well_formed(),
        run.stage == StageView::Fetching,
        rule_of(run.targets[run.current as int].target) == SelectionRule::NotYetSupported,
    ensures
        next(run, OutcomeView::Fetched(page)) == fail(
            run,
            DownloadError::Unimplemented(run.targets[run.current as int].target),
        ),
{
}

impl View for Run {
    type V = RunView;

    closed spec fn view(&self) -> RunView {
        RunView {
            targets: configs_view(self.targets@),
            current: self.current as nat,
            stage: self.stage@,
            plan: plan_view(self.plan@),
        }
    }
}

impl Run {
    #[verifier::type_invariant]
    spec fn sound(self) -> bool {
        self@.well_formed()
    }

    /// A run over `targets`, in their order, with nothing done yet.
    pub fn new(targets: Vec<TargetConfig>) -> (run: Run)
        ensures
            run@ == begin(configs_view(targets@), 0),
            run@.well_formed(),
    {
        Run::at(targets, 0)
    }

    /// How far the run has come.
    pub fn stage(&self) -> (stage: Stage)
        ensures
            stage@ == self@.stage,
            self@.well_formed(),
    {
        proof {
            use_type_invariant(self);
        }
        self.stage
    }

    /// How many categories are complete.
    pub fn completed(&self) -> (count: usize)
        ensures
            count == self@.current,
    {
        self.current
    }

    /// The result of the run, once it has ended.
    pub fn result(&self) -> (result: Option<Result<(), DownloadError>>)
        ensures
            result == match self@.stage {
                StageView::Done => Some(Ok::<(), DownloadError>(())),
                StageView::Failed(e) => Some(Err::<(), _>(e)),
                _ => None,
            },
    {
        match self.stage {
            Stage::Done => Some(Ok(())),
            Stage::Failed(e) => Some(Err(e)),
            _ => None,
        }
    }

    /// What the driver has to do now.
    pub fn action(&self) -> (action: Action)
        ensures
            action@ == action_of(self@),
            self@.well_formed(),
    {
        proof {
            use_type_invariant(self);
        }
        match self.stage {
            Stage::Pending => Action::EnsureDirectory {
                path: self.targets[self.current].tar_dir.clone(),
            },
            Stage::Fetching => Action::FetchPage {
                url: self.targets[self.current].src_url.clone(),
            },
            Stage::Downloading(i) => {
                assert(plan_view(self.plan@)[i as int] is Ok);
                match &self.plan[i] {
                    Ok(download) => Action::SaveImage {
                        url: download.absolute_url.clone(),
                        path: download.destination(self.targets[self.current].tar_dir.as_str()),
                    },
                    Err(e) => Action::Finish { result: Err(*e) },
                }
            },
            Stage::Done => Action::Finish { result: Ok(()) },
            Stage::Failed(e) => Action::Finish { result: Err(e) },
        }
    }

    /// Takes the outcome of the pending action and gives the run after it.
    pub fn step(self, outcome: Outcome) -> (after: Run)
        ensures
            after@ == next(self@, outcome@),
            after@.well_formed(),
    {
        proof {
            use_type_invariant(&self);
        }
        let Run { targets, current, stage, plan } = self;
        match (stage, outcome) {
            (Stage::Pending, Outcome::Completed) => Run {
                targets,
                current,
                stage: Stage::Fetching,
                plan,
            },
            (Stage::Pending, Outcome::Failed(failure)) => Run::stopped(
                targets,
                current,
                error_for(failure),
            ),
            (Stage::Fetching, Outcome::Fetched(page)) => {
                match targets[current].download(&page) {
                    Ok(entries) => Run::settled(targets, current, entries, 0),
                    Err(e) => Run::stopped(targets, current, e),
                }
            },
            (Stage::Fetching, Outcome::Failed(failure)) => Run::stopped(
                targets,
                current,
                error_for(failure),
            ),
            (Stage::Downloading(i), Outcome::Completed) => {
                let length: usize = plan.len();
                assert(i < length) by {
                    assert(plan_view(plan@).len() == plan@.len());
                }
                Run::settled(targets, current, plan, i + 1)
            },
            (Stage::Downloading(_), Outcome::Failed(failure)) => Run::stopped(
                targets,
                current,
                error_for(failure),
            ),
            (stage, _) => Run { targets, current, stage, plan },
        }
    }

    fn at(targets: Vec<TargetConfig>, current: usize) -> (run: Run)
        requires
            current <= targets.len(),
        ensures
            run@ == begin(configs_view(targets@), current as nat),
            run@.well_formed(),
    {
        let stage = if current < targets.len() {
            Stage::Pending
        } else {
            Stage::Done
        };
        let plan: Vec<Result<ResolvedDownload, DownloadError>> = Vec::new();
        assert(plan_view(plan@) =~= Seq::empty());
        Run { targets, current, stage, plan }
    }

    fn stopped(targets: Vec<TargetConfig>, current: usize, error: DownloadError) -> (run: Run)
        requires
            current < targets.len(),
        ensures
            run@ == fail(begin(configs_view(targets@), current as nat), error),
            run@.well_formed(),
    {
        let plan: Vec<Result<ResolvedDownload, DownloadError>> = Vec::new();
        assert(plan_view(plan@) =~= Seq::empty());
        Run { targets, current, stage: Stage::Failed(error), plan }
    }

    fn settled(
        targets: Vec<TargetConfig>,
        current: usize,
        plan: Vec<Result<ResolvedDownload, DownloadError>>,
        index: usize,
    ) -> (run: Run)
        requires
            current < targets.len(),
            index <= plan.len(),
        ensures
            run@ == proceed(
                begin(configs_view(targets@), current as nat),
                plan_view(plan@),
                index as nat,
            ),
            run@.well_formed(),
    {
        if index >= plan.len() {
            Run::at(targets, current + 1)
        } else {
            match &plan[index] {
                Ok(_) => Run { targets, current, stage: Stage::Downloading(index), plan },
                Err(e) => {
                    let error = *e;
                    Run::stopped(targets, current, error)
                },
            }
        }
    }
}

fn error_for(failure: Failure) -> (error: DownloadError)
    ensures
        error == error_of(failure),
{
    match failure {
        Failure::Network => DownloadError::NetworkError,
        Failure::Io => DownloadError::IoError,
    }
}

/// Begins the run over the categories that `args` asks for. With no
/// switch set the run is complete from the start.
pub fn run(args: &Args) -> (run: Run)
    ensures
        run@ == begin(configs_of(selected_targets(*args)), 0),
        run@.well_formed(),
{
    Run::new(args.get_targets())
}

} // verus!

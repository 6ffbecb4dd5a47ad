//! The merge-and-export pipeline as a state machine. The caller performs
//! each action it is handed (run the merger, find the targets, run the
//! exporter on one target) and reports back what came of it; the machine
//! decides what happens next. Fragments are merged once, before any export;
//! exports follow one target at a time in discovery order, and a failed
//! export only costs that target its report.

use vstd::prelude::*;
use vstd::string::*;
use crate::discovery::texts;

verus! {

/// The file name of the merged profile inside the working directory.
pub const PROFDATA_FILE: &'static str = "grcov.profdata";

/// The merger's arguments: a sparse merge of `fragments` into `profdata`.
pub open spec fn merge_args(fragments: Seq<Seq<char>>, profdata: Seq<char>) -> Seq<Seq<char>> {
    seq!["merge"@, "-sparse"@, "-o"@, profdata] + fragments
}

/// The exporter's arguments: the lcov report of `binary` under `profdata`.
pub open spec fn export_args(binary: Seq<char>, profdata: Seq<char>) -> Seq<Seq<char>> {
    seq!["export"@, binary, "--instr-profile"@, profdata, "--format"@, "lcov"@]
}

/// What came of one export: the report's bytes, or the error's text.
pub type ExportOutcome = Result<Seq<u8>, Seq<char>>;

/// An export's result, as the pipeline records it.
pub open spec fn outcome_view(o: Result<Vec<u8>, String>) -> ExportOutcome {
    match o {
        Ok(b) => Ok(b@),
        Err(e) => Err(e@),
    }
}

/// The reports of the exports that succeeded, in order.
pub open spec fn successes(outcomes: Seq<ExportOutcome>) -> Seq<Seq<u8>>
    decreases outcomes.len(),
{
    if outcomes.len() == 0 {
        seq![]
    } else {
        let rest = successes(outcomes.drop_last());
        match outcomes.last() {
            Ok(b) => rest.push(b),
            Err(_) => rest,
        }
    }
}

/// Each export that failed, as its target and the error, in order.
pub open spec fn failures_of(targets: Seq<Seq<char>>, outcomes: Seq<ExportOutcome>) -> Seq<
    (Seq<char>, Seq<char>),
>
    decreases outcomes.len(),
{
    if outcomes.len() == 0 {
        seq![]
    } else {
        let n = outcomes.len() - 1;
        let rest = failures_of(targets, outcomes.drop_last());
        match outcomes.last() {
            Ok(_) => rest,
            Err(e) => rest.push((targets[n], e)),
        }
    }
}

/// Where a pipeline stands.
#[derive(Clone, Copy, Debug, PartialEq, Eq, Structural)]
pub enum Stage {
    /// The merge has been asked for; its outcome is awaited.
    Merging,
    /// The merge succeeded; the targets are awaited.
    Discovering,
    /// The export of the next target has been asked for.
    Exporting,
    /// Every target has been tried; the reports are ready.
    Finished,
    /// The merge failed; nothing more happens.
    Failed,
}

/// What the caller is to do next.
pub enum Action {
    /// Run the profile merger with these arguments.
    Merge(Vec<String>),
    /// Find the binary targets.
    Discover,
    /// Run the profile exporter on `binary` with these arguments.
    Export { binary: String, args: Vec<String> },
    /// Nothing is left to do: the reports can be taken.
    Finish,
    /// The whole call fails with this error.
    Abort(String),
}

/// The abstract state of a pipeline. `exports` counts the export actions
/// handed out so far.
pub struct PipelineView {
    pub stage: Stage,
    pub profdata: Seq<char>,
    pub targets: Seq<Seq<char>>,
    pub outcomes: Seq<ExportOutcome>,
    pub reports: Seq<Seq<u8>>,
    pub failures: Seq<(Seq<char>, Seq<char>)>,
    pub exports: nat,
}

impl PipelineView {
    /// The reports and failures are exactly what the
    /// outcomes so far give; and the exports asked for match the stage.
    pub open spec fn wf(self) -> bool {
        &&& self.outcomes.len() <= self.targets.len()
        &&& self.reports == successes(self.outcomes)
        &&& self.failures == failures_of(self.targets, self.outcomes)
        &&& match self.stage {
            Stage::Exporting => self.outcomes.len() < self.targets.len() && self.exports
                == self.outcomes.len() + 1,
            Stage::Finished => self.outcomes.len() == self.targets.len() && self.exports
                == self.targets.len(),
            _ => self.targets.len() == 0 && self.outcomes.len() == 0 && self.exports == 0,
        }
    }
}

/// A merge-and-export pipeline in progress.
pub struct Pipeline {
    profdata: String,
    stage: Stage,
    targets: Vec<String>,
    next: usize,
    reports: Vec<Vec<u8>>,
    failures: Vec<(String, String)>,
    outcomes: Ghost<Seq<ExportOutcome>>,
    exports: Ghost<nat>,
}

/// The bytes of each report.
pub open spec fn report_views(v: Seq<Vec<u8>>) -> Seq<Seq<u8>> {
    v.map_values(|b: Vec<u8>| b@)
}

/// The texts of each failure's target and error.
pub open spec fn failure_views(v: Seq<(String, String)>) -> Seq<(Seq<char>, Seq<char>)> {
    v.map_values(|f: (String, String)| (f.0@, f.1@))
}

impl View for Pipeline {
    type V = PipelineView;

    closed spec fn view(&self) -> PipelineView {
        PipelineView {
            stage: self.stage,
            profdata: self.profdata@,
            targets: texts(self.targets@),
            outcomes: self.outcomes@,
            reports: report_views(self.reports@),
            failures: failure_views(self.failures@),
            exports: self.exports@,
        }
    }
}

/// The exporter's arguments for `binary`.
fn export_command(binary: &String, profdata: &String) -> (r: Vec<String>)
    ensures
        texts(r@) == export_args(binary@, profdata@),
{
    let mut r: Vec<String> = Vec::new();
    r.push(String::from_str("export"));
    r.push(binary.clone());
    r.push(String::from_str("--instr-profile"));
    r.push(profdata.clone());
    r.push(String::from_str("--format"));
    r.push(String::from_str("lcov"));
    assert(texts(r@) =~= export_args(binary@, profdata@));
    r
}

impl Pipeline {
    /// The pipeline's invariant: its view is well formed and the next
    /// target to export is the one after the outcomes received.
    pub closed spec fn inv(&self) -> bool {
        &&& self@.wf()
        &&& self.next == self.outcomes@.len()
    }

    /// Starts a pipeline that merges `fragments` into the profile at
    /// `profdata`; the action returned asks for that merge.
    pub fn new(fragments: &Vec<String>, profdata: String) -> (r: (Pipeline, Action))
        ensures
            r.0.inv(),
            r.0@.wf(),
            r.0@.stage == Stage::Merging,
            r.0@.profdata == profdata@,
            r.1 matches Action::Merge(args) && texts(args@) == merge_args(
                texts(fragments@),
                profdata@,
            ),
    {
        let mut args: Vec<String> = Vec::new();
        args.push(String::from_str("merge"));
        args.push(String::from_str("-sparse"));
        args.push(String::from_str("-o"));
        args.push(profdata.clone());
        assert(texts(args@) =~= merge_args(texts(fragments@.subrange(0, 0)), profdata@));
        let mut i: usize = 0;
        while i < fragments.len()
            invariant
                i <= fragments@.len(),
                texts(args@) == merge_args(texts(fragments@.subrange(0, i as int)), profdata@),
            decreases fragments@.len() - i,
        {
            let ghost before = args@;
            args.push(fragments[i].clone());
            assert(texts(args@) =~= texts(before).push(fragments@[i as int]@));
            assert(texts(fragments@.subrange(0, i + 1)) =~= texts(
                fragments@.subrange(0, i as int),
            ).push(fragments@[i as int]@));
            i = i + 1;
        }
        assert(fragments@.subrange(0, fragments@.len() as int) =~= fragments@);
        let p = Pipeline {
            profdata,
            stage: Stage::Merging,
            targets: Vec::new(),
            next: 0,
            reports: Vec::new(),
            failures: Vec::new(),
            outcomes: Ghost(Seq::empty()),
            exports: Ghost(0),
        };
        assert(p@.targets =~= seq![]);
        assert(p@.reports =~= seq![]);
        assert(p@.failures =~= seq![]);
        (p, Action::Merge(args))
    }

    /// Takes the merger's outcome. A failure aborts the whole call with
    /// the merger's error and no export is ever asked for; on success the
    /// targets are asked for.
    pub fn merged(&mut self, outcome: Result<Vec<u8>, String>) -> (a: Action)
        requires
            old(self).inv(),
            old(self)@.stage == Stage::Merging,
        ensures
            final(self).inv(),
            final(self)@.wf(),
            !(a is Merge),
            final(self)@.profdata == old(self)@.profdata,
            final(self)@.exports == 0,
            match outcome {
                Err(e) => final(self)@.stage == Stage::Failed && a == Action::Abort(e),
                Ok(_) => final(self)@.stage == Stage::Discovering && a is Discover,
            },
    {
        match outcome {
            Err(e) => {
                self.stage = Stage::Failed;
                Action::Abort(e)
            },
            Ok(_) => {
                self.stage = Stage::Discovering;
                Action::Discover
            },
        }
    }

    /// Takes the targets found, in discovery order. With none the pipeline
    /// is finished; otherwise the export of the first is asked for.
    pub fn discovered(&mut self, targets: Vec<String>) -> (a: Action)
        requires
            old(self).inv(),
            old(self)@.stage == Stage::Discovering,
        ensures
            final(self).inv(),
            final(self)@.wf(),
            !(a is Merge),
            final(self)@.profdata == old(self)@.profdata,
            final(self)@.targets == texts(targets@),
            final(self)@.outcomes.len() == 0,
            final(self)@.reports.len() == 0,
            final(self)@.failures.len() == 0,
            if targets@.len() == 0 {
                final(self)@.stage == Stage::Finished && a is Finish
            } else {
                &&& final(self)@.stage == Stage::Exporting
                &&& final(self)@.exports == 1
                &&& a matches Action::Export { binary, args }
                &&& binary@ == targets@[0]@
                &&& texts(args@) == export_args(binary@, final(self)@.profdata)
            },
    {
        self.targets = targets;
        if self.targets.len() == 0 {
            self.stage = Stage::Finished;
            Action::Finish
        } else {
            self.stage = Stage::Exporting;
            self.exports = Ghost(1);
            let binary = self.targets[0].clone();
            let args = export_command(&binary, &self.profdata);
            Action::Export { binary, args }
        }
    }

    /// Takes the outcome of the export asked for last. A report is kept, a
    /// failure is recorded with its target; then the next target's export
    /// is asked for, or the pipeline is finished after the last.
    pub fn exported(&mut self, outcome: Result<Vec<u8>, String>) -> (a: Action)
        requires
            old(self).inv(),
            old(self)@.stage == Stage::Exporting,
        ensures
            final(self).inv(),
            final(self)@.wf(),
            !(a is Merge),
            final(self)@.profdata == old(self)@.profdata,
            final(self)@.targets == old(self)@.targets,
            final(self)@.outcomes == old(self)@.outcomes.push(outcome_view(outcome)),
            match outcome {
                Ok(b) => {
                    &&& final(self)@.reports == old(self)@.reports.push(b@)
                    &&& final(self)@.failures == old(self)@.failures
                },
                Err(e) => {
                    &&& final(self)@.reports == old(self)@.reports
                    &&& final(self)@.failures == old(self)@.failures.push(
                        (old(self)@.targets[old(self)@.outcomes.len() as int], e@),
                    )
                },
            },
            ({
                let n = final(self)@.outcomes.len();
                let targets = final(self)@.targets;
                if n == targets.len() {
                    final(self)@.stage == Stage::Finished && a is Finish
                } else {
                    &&& final(self)@.stage == Stage::Exporting
                    &&& final(self)@.exports == old(self)@.exports + 1
                    &&& a matches Action::Export { binary, args }
                    &&& binary@ == targets[n as int]
                    &&& texts(args@) == export_args(binary@, final(self)@.profdata)
                }
            }),
    {
        let ghost old_outcomes = self.outcomes@;
        let ghost targets = texts(self.targets@);
        assert(targets.len() == self.targets@.len());
        let ghost new_outcomes = old_outcomes.push(outcome_view(outcome));
        assert(new_outcomes.drop_last() == old_outcomes);
        assert(targets[self.next as int] == self.targets@[self.next as int]@);
        let ghost old_reports = self.reports@;
        let ghost old_failures = self.failures@;
        match outcome {
            Ok(report) => {
                self.reports.push(report);
                assert(report_views(self.reports@) =~= report_views(old_reports).push(report@));
            },
            Err(e) => {
                let binary = self.targets[self.next].clone();
                self.failures.push((binary, e));
                assert(failure_views(self.failures@) =~= failure_views(old_failures).push(
                    (targets[self.next as int], e@),
                ));
            },
        }
        let count = self.targets.len();
        self.outcomes = Ghost(new_outcomes);
        self.next = self.next + 1;
        if self.next == count {
            self.stage = Stage::Finished;
            Action::Finish
        } else {
            self.exports = Ghost(self.exports@ + 1);
            let binary = self.targets[self.next].clone();
            let args = export_command(&binary, &self.profdata);
            Action::Export { binary, args }
        }
    }

    /// The reports of a finished pipeline, one per target whose export
    /// succeeded, in target order.
    pub fn into_reports(self) -> (r: Vec<Vec<u8>>)
        requires
            self.inv(),
            self@.stage == Stage::Finished,
        ensures
            report_views(r@) == self@.reports,
            report_views(r@) == successes(self@.outcomes),
            r@.len() == self@.reports.len(),
            forall|i: int| 0 <= i < r@.len() ==> #[trigger] r@[i]@ == self@.reports[i],
            r@.len() <= self@.targets.len(),
    {
        proof {
            lemma_reports_within_targets(self@);
            assert(report_views(self.reports@).len() == self.reports@.len());
            assert forall|i: int| 0 <= i < self.reports@.len() implies #[trigger] self.reports@[i]@
                == self@.reports[i] by {
                assert(report_views(self.reports@)[i] == self.reports@[i]@);
            }
        }
        self.reports
    }

    /// The exports that failed so far, each as its target and the error.
    pub fn failures(&self) -> (r: &Vec<(String, String)>)
        ensures
            failure_views(r@) == self@.failures,
    {
        &self.failures
    }

    /// Where the pipeline stands.
    pub fn stage(&self) -> (r: Stage)
        ensures
            r == self@.stage,
    {
        self.stage
    }
}

/// A pipeline's view is well formed.
pub proof fn lemma_inv_wf(p: &Pipeline)
    requires
        p.inv(),
    ensures
        p@.wf(),
{
}

proof fn lemma_successes_len(outcomes: Seq<ExportOutcome>)
    ensures
        successes(outcomes).len() <= outcomes.len(),
    decreases outcomes.len(),
{
    if outcomes.len() > 0 {
        lemma_successes_len(outcomes.drop_last());
    }
}

/// A pipeline never holds more reports than it has targets: each target
/// gives at most one report.
pub proof fn lemma_reports_within_targets(v: PipelineView)
    requires
        v.wf(),
    ensures
        v.reports.len() <= v.targets.len(),
{
    lemma_successes_len(v.outcomes);
}

/// A pipeline whose merge failed has asked for no export and holds no
/// report.
pub proof fn lemma_failed_merge_exports_nothing(v: PipelineView)
    requires
        v.wf(),
        v.stage == Stage::Failed,
    ensures
        v.exports == 0,
        v.targets.len() == 0,
        v.reports.len() == 0,
{
}

/// A failed export takes nothing from the other targets: the reports are
/// those that the successful exports would give without it, in the same
/// order.
pub proof fn lemma_failure_spares_others(outcomes: Seq<ExportOutcome>, i: int)
    requires
        0 <= i < outcomes.len(),
        outcomes[i] is Err,
    ensures
        successes(outcomes) == successes(outcomes.remove(i)),
    decreases outcomes.len(),
{
    let n = outcomes.len() - 1;
    if i == n {
        assert(outcomes.remove(i) =~= outcomes.drop_last());
    } else {
        let rest = outcomes.remove(i);
        assert(rest.drop_last() =~= outcomes.drop_last().remove(i));
        assert(rest.last() == outcomes.last());
        lemma_failure_spares_others(outcomes.drop_last(), i);
    }
}

/// The reports are a function of what the exports gave alone: two runs
/// whose exports gave the same, in whatever working directory, hold the
/// same reports.
pub proof fn lemma_reports_follow_outcomes(a: PipelineView, b: PipelineView)
    requires
        a.wf(),
        b.wf(),
        a.outcomes == b.outcomes,
    ensures
        a.reports == b.reports,
{
}

} // verus!

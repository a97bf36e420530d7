//! The commit-wrapped operation: a transactional envelope that primes the VCS
//! working state, runs a mutating operation, and optionally finalizes a
//! commit holding exactly that mutation. The library decides every step; the
//! caller only executes the planned invocations and reports their outcomes,
//! and each method's contract pins the whole exchange down as a trace of
//! steps.

use vstd::prelude::*;

use crate::command::{InvocationModel, ToolInvocation};
use crate::text::{spec_trim, str_eq, trim};
use crate::vcs::{vcs_or_infer, VcsError, VcsKind};

verus! {

/// Where an operation stands: constructed, primed for the mutation, finished,
/// or failed for good.
#[derive(Debug, Clone, Copy, PartialEq, Eq, Structural)]
pub enum OpPhase {
    Idle,
    Prepared,
    Completed,
    Failed,
}

/// What can go wrong during a commit-wrapped operation.
#[derive(Debug)]
pub enum OpError {
    /// The clean-state query of this VCS gave no output.
    StatusUnavailable(VcsKind),
    /// The Git working tree holds uncommitted changes, so the mutation's diff
    /// could not be isolated.
    DirtyWorkingTree,
    /// The VCS does not support commit-wrapped operations.
    UnsupportedVcs,
    /// A VCS mutation command failed, with its error output.
    ToolFailed(String),
    /// The wrapped operation itself failed, with its error.
    OperationFailed(String),
}

/// The mathematical shape of an operation error.
pub ghost enum OpErrorModel {
    StatusUnavailable(VcsKind),
    DirtyWorkingTree,
    UnsupportedVcs,
    ToolFailed(Seq<char>),
    OperationFailed(Seq<char>),
}

impl View for OpError {
    type V = OpErrorModel;

    open spec fn view(&self) -> OpErrorModel {
        match self {
            OpError::StatusUnavailable(k) => OpErrorModel::StatusUnavailable(*k),
            OpError::DirtyWorkingTree => OpErrorModel::DirtyWorkingTree,
            OpError::UnsupportedVcs => OpErrorModel::UnsupportedVcs,
            OpError::ToolFailed(e) => OpErrorModel::ToolFailed(e@),
            OpError::OperationFailed(e) => OpErrorModel::OperationFailed(e@),
        }
    }
}

/// The message of an operation error, as printed to the user.
pub open spec fn spec_op_error_message(e: OpErrorModel) -> Seq<char> {
    match e {
        OpErrorModel::StatusUnavailable(VcsKind::Jj) => "Could not get `jj log` output."@,
        OpErrorModel::StatusUnavailable(_) => "Could not get `git status` output"@,
        OpErrorModel::DirtyWorkingTree => "`git status` is not clean."@,
        OpErrorModel::UnsupportedVcs => "Mercurial is unsupported for this operation."@,
        OpErrorModel::ToolFailed(e) => e,
        OpErrorModel::OperationFailed(e) => e,
    }
}

impl OpError {
    /// The user-facing message for this error.
    pub fn message(&self) -> (r: String)
        ensures
            r@ == spec_op_error_message(self@),
    {
        match self {
            OpError::StatusUnavailable(VcsKind::Jj) => String::from_str(
                "Could not get `jj log` output.",
            ),
            OpError::StatusUnavailable(_) => String::from_str("Could not get `git status` output"),
            OpError::DirtyWorkingTree => String::from_str("`git status` is not clean."),
            OpError::UnsupportedVcs => String::from_str(
                "Mercurial is unsupported for this operation.",
            ),
            OpError::ToolFailed(e) => e.clone(),
            OpError::OperationFailed(e) => e.clone(),
        }
    }
}

/// One step of an operation's exchange with the outside: a query command and
/// its captured output, a mutation command and whether it succeeded, or the
/// run of the wrapped operation itself.
#[derive(Debug)]
pub enum OpStep {
    Queried { invocation: ToolInvocation, output: Option<String> },
    Ran { invocation: ToolInvocation, outcome: Result<(), String> },
    Operated { outcome: Result<String, String> },
}

/// The mathematical shape of a step.
pub ghost enum OpStepModel {
    Queried { invocation: InvocationModel, output: Option<Seq<char>> },
    Ran { invocation: InvocationModel, outcome: Result<(), Seq<char>> },
    Operated { outcome: Result<Seq<char>, Seq<char>> },
}

impl View for OpStep {
    type V = OpStepModel;

    open spec fn view(&self) -> OpStepModel {
        match self {
            OpStep::Queried { invocation, output } => OpStepModel::Queried {
                invocation: invocation@,
                output: output.deep_view(),
            },
            OpStep::Ran { invocation, outcome } => OpStepModel::Ran {
                invocation: invocation@,
                outcome: match outcome {
                    Ok(u) => Ok(*u),
                    Err(e) => Err(e@),
                },
            },
            OpStep::Operated { outcome } => OpStepModel::Operated {
                outcome: match outcome {
                    Ok(m) => Ok(m@),
                    Err(e) => Err(e@),
                },
            },
        }
    }
}

impl DeepView for OpStep {
    type V = OpStepModel;

    open spec fn deep_view(&self) -> OpStepModel {
        self@
    }
}

/// The model of an operation outcome.
pub open spec fn spec_op_result(r: Result<(), OpError>) -> Result<(), OpErrorModel> {
    match r {
        Ok(u) => Ok(u),
        Err(e) => Err(e@),
    }
}

/// The Git clean-tree query: `git status --porcelain`, whose output must be
/// empty for the tree to count as clean.
pub open spec fn spec_git_status_invocation() -> InvocationModel {
    InvocationModel { program: "git"@, args: seq!["status"@, "--porcelain"@] }
}

/// Plans the Git clean-tree query.
pub fn git_status_invocation() -> (r: ToolInvocation)
    ensures
        r@ == spec_git_status_invocation(),
{
    let mut r = ToolInvocation::new("git");
    r.arg("status");
    r.arg("--porcelain");
    proof {
        assert(r@.args =~= spec_git_status_invocation().args);
    }
    r
}

/// The Jj clean-slate query: a log filtered to whether the current change is
/// already an empty, non-merge, undescribed commit; it prints a single dot
/// exactly then.
pub open spec fn spec_jj_clean_check_invocation() -> InvocationModel {
    InvocationModel {
        program: "jj"@,
        args: seq![
            "log"@,
            "--color=never"@,
            "--no-graph"@,
            "--revisions"@,
            "@ & empty() & ~merges() & description(exact:\"\")"@,
            "--template"@,
            "'.'"@,
        ],
    }
}

/// Plans the Jj clean-slate query.
pub fn jj_clean_check_invocation() -> (r: ToolInvocation)
    ensures
        r@ == spec_jj_clean_check_invocation(),
{
    let mut r = ToolInvocation::new("jj");
    r.arg("log");
    r.arg("--color=never");
    r.arg("--no-graph");
    r.arg("--revisions");
    r.arg("@ & empty() & ~merges() & description(exact:\"\")");
    r.arg("--template");
    r.arg("'.'");
    proof {
        assert(r@.args =~= spec_jj_clean_check_invocation().args);
    }
    r
}

/// Creating a fresh empty change on top of the current one: `jj new`.
pub open spec fn spec_jj_new_invocation() -> InvocationModel {
    InvocationModel { program: "jj"@, args: seq!["new"@] }
}

/// Plans the `jj new` run.
pub fn jj_new_invocation() -> (r: ToolInvocation)
    ensures
        r@ == spec_jj_new_invocation(),
{
    let mut r = ToolInvocation::new("jj");
    r.arg("new");
    proof {
        assert(r@.args =~= spec_jj_new_invocation().args);
    }
    r
}

/// The Git finalize commit: `git commit --all --message <msg>`.
pub open spec fn spec_git_commit_invocation(msg: Seq<char>) -> InvocationModel {
    InvocationModel { program: "git"@, args: seq!["commit"@, "--all"@, "--message"@, msg] }
}

/// Plans the Git finalize commit.
pub fn git_commit_invocation(message: &str) -> (r: ToolInvocation)
    ensures
        r@ == spec_git_commit_invocation(message@),
{
    let mut r = ToolInvocation::new("git");
    r.arg("commit");
    r.arg("--all");
    r.arg("--message");
    r.arg(message);
    proof {
        assert(r@.args =~= spec_git_commit_invocation(message@).args);
    }
    r
}

/// The Jj finalize commit: `jj commit --message <msg>`, which also advances
/// the working copy to a fresh empty child.
pub open spec fn spec_jj_commit_invocation(msg: Seq<char>) -> InvocationModel {
    InvocationModel { program: "jj"@, args: seq!["commit"@, "--message"@, msg] }
}

/// Plans the Jj finalize commit.
pub fn jj_commit_invocation(message: &str) -> (r: ToolInvocation)
    ensures
        r@ == spec_jj_commit_invocation(message@),
{
    let mut r = ToolInvocation::new("jj");
    r.arg("commit");
    r.arg("--message");
    r.arg(message);
    proof {
        assert(r@.args =~= spec_jj_commit_invocation(message@).args);
    }
    r
}

/// A valid prepare exchange for a VCS: which steps ran, in order, and the
/// outcome they force. Git queries its status and refuses anything but a
/// clean tree; Jj queries whether the current change is already a clean
/// slate and manufactures one with `jj new` when it is not; Mercurial fails
/// without running anything.
pub open spec fn spec_prep_trace(
    kind: VcsKind,
    steps: Seq<OpStepModel>,
    r: Result<(), OpErrorModel>,
) -> bool {
    match kind {
        VcsKind::Mercurial => steps =~= Seq::<OpStepModel>::empty() && r == Err::<
            (),
            OpErrorModel,
        >(OpErrorModel::UnsupportedVcs),
        VcsKind::Git => steps.len() >= 1 && match steps[0] {
            OpStepModel::Queried { invocation, output } => invocation
                == spec_git_status_invocation() && match output {
                None => steps.len() == 1 && r == Err::<(), OpErrorModel>(
                    OpErrorModel::StatusUnavailable(VcsKind::Git),
                ),
                Some(out) => {
                    if spec_trim(out).len() == 0 {
                        steps.len() == 1 && r == Ok::<(), OpErrorModel>(())
                    } else {
                        steps.len() == 1 && r == Err::<(), OpErrorModel>(
                            OpErrorModel::DirtyWorkingTree,
                        )
                    }
                },
            },
            _ => false,
        },
        VcsKind::Jj => steps.len() >= 1 && match steps[0] {
            OpStepModel::Queried { invocation, output } => invocation
                == spec_jj_clean_check_invocation() && match output {
                None => steps.len() == 1 && r == Err::<(), OpErrorModel>(
                    OpErrorModel::StatusUnavailable(VcsKind::Jj),
                ),
                Some(out) => {
                    if spec_trim(out) == "."@ {
                        steps.len() == 1 && r == Ok::<(), OpErrorModel>(())
                    } else {
                        steps.len() == 2 && match steps[1] {
                            OpStepModel::Ran { invocation: new_inv, outcome } => new_inv
                                == spec_jj_new_invocation() && match outcome {
                                Ok(u) => r == Ok::<(), OpErrorModel>(()),
                                Err(e) => r == Err::<(), OpErrorModel>(
                                    OpErrorModel::ToolFailed(e),
                                ),
                            },
                            _ => false,
                        }
                    }
                },
            },
            _ => false,
        },
    }
}

/// A valid finalize exchange: nothing runs when no commit was asked for; Git
/// stages everything and commits with the message; Jj commits the current
/// change with the message; Mercurial fails without running anything.
pub open spec fn spec_finalize_trace(
    perform_commit: bool,
    kind: VcsKind,
    msg: Seq<char>,
    steps: Seq<OpStepModel>,
    r: Result<(), OpErrorModel>,
) -> bool {
    if !perform_commit {
        steps =~= Seq::<OpStepModel>::empty() && r == Ok::<(), OpErrorModel>(())
    } else {
        match kind {
            VcsKind::Mercurial => steps =~= Seq::<OpStepModel>::empty() && r == Err::<
                (),
                OpErrorModel,
            >(OpErrorModel::UnsupportedVcs),
            VcsKind::Git => steps.len() == 1 && match steps[0] {
                OpStepModel::Ran { invocation, outcome } => invocation
                    == spec_git_commit_invocation(msg) && match outcome {
                    Ok(u) => r == Ok::<(), OpErrorModel>(()),
                    Err(e) => r == Err::<(), OpErrorModel>(OpErrorModel::ToolFailed(e)),
                },
                _ => false,
            },
            VcsKind::Jj => steps.len() == 1 && match steps[0] {
                OpStepModel::Ran { invocation, outcome } => invocation
                    == spec_jj_commit_invocation(msg) && match outcome {
                    Ok(u) => r == Ok::<(), OpErrorModel>(()),
                    Err(e) => r == Err::<(), OpErrorModel>(OpErrorModel::ToolFailed(e)),
                },
                _ => false,
            },
        }
    }
}

/// What follows a successful prepare: the wrapped operation runs exactly
/// once; its failure aborts everything before any finalize step; its summary
/// becomes the commit message of the finalize exchange.
pub open spec fn spec_after_prep_trace(
    perform_commit: bool,
    kind: VcsKind,
    steps: Seq<OpStepModel>,
    r: Result<(), OpErrorModel>,
) -> bool {
    steps.len() >= 1 && match steps[0] {
        OpStepModel::Operated { outcome } => match outcome {
            Err(e) => steps.len() == 1 && r == Err::<(), OpErrorModel>(
                OpErrorModel::OperationFailed(e),
            ),
            Ok(msg) => spec_finalize_trace(
                perform_commit,
                kind,
                msg,
                steps.subrange(1, steps.len() as int),
                r,
            ),
        },
        _ => false,
    }
}

/// A valid whole-operation exchange: the prepare steps come first and any
/// prepare failure is final — in particular the wrapped operation never runs
/// after one; only a clean prepare is followed by the operation and, on its
/// success, the finalize steps.
pub open spec fn spec_perform_trace(
    perform_commit: bool,
    kind: VcsKind,
    steps: Seq<OpStepModel>,
    r: Result<(), OpErrorModel>,
) -> bool {
    match kind {
        VcsKind::Mercurial => steps =~= Seq::<OpStepModel>::empty() && r == Err::<
            (),
            OpErrorModel,
        >(OpErrorModel::UnsupportedVcs),
        VcsKind::Git => steps.len() >= 1 && match steps[0] {
            OpStepModel::Queried { invocation, output } => invocation
                == spec_git_status_invocation() && match output {
                None => steps.len() == 1 && r == Err::<(), OpErrorModel>(
                    OpErrorModel::StatusUnavailable(VcsKind::Git),
                ),
                Some(out) => {
                    if spec_trim(out).len() == 0 {
                        spec_after_prep_trace(
                            perform_commit,
                            kind,
                            steps.subrange(1, steps.len() as int),
                            r,
                        )
                    } else {
                        steps.len() == 1 && r == Err::<(), OpErrorModel>(
                            OpErrorModel::DirtyWorkingTree,
                        )
                    }
                },
            },
            _ => false,
        },
        VcsKind::Jj => steps.len() >= 1 && match steps[0] {
            OpStepModel::Queried { invocation, output } => invocation
                == spec_jj_clean_check_invocation() && match output {
                None => steps.len() == 1 && r == Err::<(), OpErrorModel>(
                    OpErrorModel::StatusUnavailable(VcsKind::Jj),
                ),
                Some(out) => {
                    if spec_trim(out) == "."@ {
                        spec_after_prep_trace(
                            perform_commit,
                            kind,
                            steps.subrange(1, steps.len() as int),
                            r,
                        )
                    } else {
                        steps.len() >= 2 && match steps[1] {
                            OpStepModel::Ran { invocation: new_inv, outcome } => new_inv
                                == spec_jj_new_invocation() && match outcome {
                                Err(e) => steps.len() == 2 && r == Err::<(), OpErrorModel>(
                                    OpErrorModel::ToolFailed(e),
                                ),
                                Ok(u) => spec_after_prep_trace(
                                    perform_commit,
                                    kind,
                                    steps.subrange(2, steps.len() as int),
                                    r,
                                ),
                            },
                            _ => false,
                        }
                    }
                },
            },
            _ => false,
        },
    }
}

/// The mathematical shape of a commit-wrapped operation.
pub ghost struct OpModel {
    pub perform_commit: bool,
    pub commit_using: VcsKind,
    pub phase: OpPhase,
}

/// A transactional envelope around one repository mutation: whether to
/// actually create a commit, which VCS to use, and where the two-phase
/// protocol stands. `prep_commit` must succeed before `finalize_commit` may
/// run, so the finalize diff holds exactly the wrapped mutation's effect.
#[derive(Debug)]
pub struct CommitWrappedOperation {
    perform_commit: bool,
    commit_using: VcsKind,
    phase: OpPhase,
}

impl View for CommitWrappedOperation {
    type V = OpModel;

    closed spec fn view(&self) -> OpModel {
        OpModel {
            perform_commit: self.perform_commit,
            commit_using: self.commit_using,
            phase: self.phase,
        }
    }
}

impl CommitWrappedOperation {
    /// A fresh operation, not yet prepared.
    pub fn new(perform_commit: bool, commit_using: VcsKind) -> (r: Self)
        ensures
            r@ == (OpModel { perform_commit, commit_using, phase: OpPhase::Idle }),
    {
        CommitWrappedOperation { perform_commit, commit_using, phase: OpPhase::Idle }
    }

    /// Builds an operation from command-line intent: an explicit VCS choice
    /// wins, else the detected one; failing to resolve a VCS is a
    /// construction-time error, never deferred.
    pub fn from_args(
        perform_commit: bool,
        commit_using: Option<VcsKind>,
        detected: &Option<(VcsKind, String)>,
    ) -> (r: Result<Self, VcsError>)
        ensures
            match r {
                Ok(op) => {
                    &&& op@.perform_commit == perform_commit
                    &&& op@.phase == OpPhase::Idle
                    &&& (match commit_using {
                        Some(k) => op@.commit_using == k,
                        None => match detected {
                            Some(d) => op@.commit_using == d.0,
                            None => false,
                        },
                    })
                },
                Err(e) => commit_using is None && detected is None && e == VcsError::NoVcsFound,
            },
    {
        match vcs_or_infer(commit_using, detected) {
            Ok(kind) => Ok(Self::new(perform_commit, kind)),
            Err(e) => Err(e),
        }
    }

    /// Whether this operation will create a commit when finalized.
    pub fn perform_commit(&self) -> (r: bool)
        ensures
            r == self@.perform_commit,
    {
        self.perform_commit
    }

    /// The VCS this operation drives.
    pub fn commit_using(&self) -> (r: VcsKind)
        ensures
            r == self@.commit_using,
    {
        self.commit_using
    }

    /// Where the protocol stands.
    pub fn phase(&self) -> (r: OpPhase)
        ensures
            r == self@.phase,
    {
        self.phase
    }

    /// Primes the VCS so the upcoming mutation is isolated: `query` runs a
    /// command and hands back its captured output when it exited cleanly;
    /// `run` runs a command for effect and reports failure with the error
    /// text. The returned steps record the exchange, and the contract forces
    /// it to follow the prepare protocol of the chosen VCS.
    pub fn prep_commit<Q, R>(&mut self, query: &Q, run: &R) -> (res: (
        Result<(), OpError>,
        Vec<OpStep>,
    )) where
        Q: Fn(&ToolInvocation) -> Option<String>,
        R: Fn(&ToolInvocation) -> Result<(), String>,

        requires
            old(self)@.phase == OpPhase::Idle,
            forall|inv: &ToolInvocation| call_requires(*query, (inv,)),
            forall|inv: &ToolInvocation| call_requires(*run, (inv,)),
        ensures
            final(self)@.perform_commit == old(self)@.perform_commit,
            final(self)@.commit_using == old(self)@.commit_using,
            spec_prep_trace(old(self)@.commit_using, res.1.deep_view(), spec_op_result(res.0)),
            res.0 is Ok <==> final(self)@.phase == OpPhase::Prepared,
            res.0 is Err ==> final(self)@.phase == OpPhase::Failed,
    {
        let mut steps: Vec<OpStep> = Vec::new();
        match self.commit_using {
            VcsKind::Mercurial => {
                self.phase = OpPhase::Failed;
                proof {
                    assert(steps.deep_view() =~= Seq::<OpStepModel>::empty());
                }
                (Err(OpError::UnsupportedVcs), steps)
            },
            VcsKind::Git => {
                let inv = git_status_invocation();
                let output = query(&inv);
                let decision: Result<(), OpError> = match &output {
                    None => Err(OpError::StatusUnavailable(VcsKind::Git)),
                    Some(out) => {
                        let trimmed = trim(out.as_str());
                        if trimmed.as_str().is_empty() {
                            Ok(())
                        } else {
                            Err(OpError::DirtyWorkingTree)
                        }
                    },
                };
                steps.push(OpStep::Queried { invocation: inv, output });
                proof {
                    assert(steps.deep_view() =~= seq![steps@[0]@]);
                }
                match decision {
                    Ok(u) => {
                        self.phase = OpPhase::Prepared;
                        (Ok(u), steps)
                    },
                    Err(e) => {
                        self.phase = OpPhase::Failed;
                        (Err(e), steps)
                    },
                }
            },
            VcsKind::Jj => {
                let inv = jj_clean_check_invocation();
                let output = query(&inv);
                match &output {
                    None => {
                        steps.push(OpStep::Queried { invocation: inv, output });
                        proof {
                            assert(steps.deep_view() =~= seq![steps@[0]@]);
                        }
                        self.phase = OpPhase::Failed;
                        (Err(OpError::StatusUnavailable(VcsKind::Jj)), steps)
                    },
                    Some(out) => {
                        let trimmed = trim(out.as_str());
                        let already_clean = str_eq(trimmed.as_str(), ".");
                        steps.push(OpStep::Queried { invocation: inv, output });
                        proof {
                            assert(steps.deep_view() =~= seq![steps@[0]@]);
                        }
                        if already_clean {
                            self.phase = OpPhase::Prepared;
                            (Ok(()), steps)
                        } else {
                            let new_inv = jj_new_invocation();
                            let outcome = run(&new_inv);
                            let decision: Result<(), OpError> = match &outcome {
                                Ok(u) => Ok(()),
                                Err(e) => Err(OpError::ToolFailed(e.clone())),
                            };
                            steps.push(OpStep::Ran { invocation: new_inv, outcome });
                            proof {
                                assert(steps.deep_view() =~= seq![steps@[0]@, steps@[1]@]);
                            }
                            match decision {
                                Ok(u) => {
                                    self.phase = OpPhase::Prepared;
                                    (Ok(u), steps)
                                },
                                Err(e) => {
                                    self.phase = OpPhase::Failed;
                                    (Err(e), steps)
                                },
                            }
                        }
                    },
                }
            },
        }
    }

    /// Finalizes the commit that holds everything changed since
    /// `prep_commit`: a no-op success when no commit was asked for, else the
    /// chosen VCS's commit command with the given message.
    pub fn finalize_commit<R>(&mut self, run: &R, message: &str) -> (res: (
        Result<(), OpError>,
        Vec<OpStep>,
    )) where R: Fn(&ToolInvocation) -> Result<(), String>
        requires
            old(self)@.phase == OpPhase::Prepared,
            forall|inv: &ToolInvocation| call_requires(*run, (inv,)),
        ensures
            final(self)@.perform_commit == old(self)@.perform_commit,
            final(self)@.commit_using == old(self)@.commit_using,
            spec_finalize_trace(
                old(self)@.perform_commit,
                old(self)@.commit_using,
                message@,
                res.1.deep_view(),
                spec_op_result(res.0),
            ),
            res.0 is Ok <==> final(self)@.phase == OpPhase::Completed,
            res.0 is Err ==> final(self)@.phase == OpPhase::Failed,
    {
        let mut steps: Vec<OpStep> = Vec::new();
        proof {
            assert(steps.deep_view() =~= Seq::<OpStepModel>::empty());
        }
        if !self.perform_commit {
            self.phase = OpPhase::Completed;
            return (Ok(()), steps);
        }
        match self.commit_using {
            VcsKind::Mercurial => {
                self.phase = OpPhase::Failed;
                (Err(OpError::UnsupportedVcs), steps)
            },
            VcsKind::Git => {
                let inv = git_commit_invocation(message);
                let outcome = run(&inv);
                let decision: Result<(), OpError> = match &outcome {
                    Ok(u) => Ok(()),
                    Err(e) => Err(OpError::ToolFailed(e.clone())),
                };
                steps.push(OpStep::Ran { invocation: inv, outcome });
                proof {
                    assert(steps.deep_view() =~= seq![steps@[0]@]);
                }
                match decision {
                    Ok(u) => {
                        self.phase = OpPhase::Completed;
                        (Ok(u), steps)
                    },
                    Err(e) => {
                        self.phase = OpPhase::Failed;
                        (Err(e), steps)
                    },
                }
            },
            VcsKind::Jj => {
                let inv = jj_commit_invocation(message);
                let outcome = run(&inv);
                let decision: Result<(), OpError> = match &outcome {
                    Ok(u) => Ok(()),
                    Err(e) => Err(OpError::ToolFailed(e.clone())),
                };
                steps.push(OpStep::Ran { invocation: inv, outcome });
                proof {
                    assert(steps.deep_view() =~= seq![steps@[0]@]);
                }
                match decision {
                    Ok(u) => {
                        self.phase = OpPhase::Completed;
                        (Ok(u), steps)
                    },
                    Err(e) => {
                        self.phase = OpPhase::Failed;
                        (Err(e), steps)
                    },
                }
            },
        }
    }

    /// The whole protocol in one call: prepare, run the wrapped operation,
    /// finalize a commit under its summary. Any failure is final and
    /// surfaces immediately; the returned steps record exactly what ran, and
    /// the contract forces the operation to run only after a clean prepare.
    pub fn perform_operation<Q, R, F>(&mut self, query: &Q, run: &R, operation: F) -> (res: (
        Result<(), OpError>,
        Vec<OpStep>,
    )) where
        Q: Fn(&ToolInvocation) -> Option<String>,
        R: Fn(&ToolInvocation) -> Result<(), String>,
        F: FnOnce() -> Result<String, String>,

        requires
            old(self)@.phase == OpPhase::Idle,
            forall|inv: &ToolInvocation| call_requires(*query, (inv,)),
            forall|inv: &ToolInvocation| call_requires(*run, (inv,)),
            call_requires(operation, ()),
        ensures
            final(self)@.perform_commit == old(self)@.perform_commit,
            final(self)@.commit_using == old(self)@.commit_using,
            spec_perform_trace(
                old(self)@.perform_commit,
                old(self)@.commit_using,
                res.1.deep_view(),
                spec_op_result(res.0),
            ),
            res.0 is Ok <==> final(self)@.phase == OpPhase::Completed,
            res.0 is Err ==> final(self)@.phase == OpPhase::Failed,
    {
        let ghost pc = self@.perform_commit;
        let ghost kind = self@.commit_using;
        let (prep_result, mut steps) = self.prep_commit(query, run);
        let ghost prep_steps = steps.deep_view();
        if let Err(e) = prep_result {
            proof {
                lemma_prep_fail_is_perform_trace(pc, kind, prep_steps, e@);
            }
            return (Err(e), steps);
        }
        let op_outcome = operation();
        match op_outcome {
            Err(e) => {
                let failure = OpError::OperationFailed(e.clone());
                steps.push(OpStep::Operated { outcome: Err(e) });
                self.phase = OpPhase::Failed;
                proof {
                    assert(steps.deep_view() =~= prep_steps + seq![
                        OpStepModel::Operated { outcome: Err(failure@->OperationFailed_0) },
                    ]);
                    lemma_prep_then_tail_is_perform_trace(
                        pc,
                        kind,
                        prep_steps,
                        seq![OpStepModel::Operated { outcome: Err(failure@->OperationFailed_0) }],
                        Err(failure@),
                    );
                }
                (Err(failure), steps)
            },
            Ok(message) => {
                steps.push(OpStep::Operated { outcome: Ok(message.clone()) });
                let (fin_result, mut fin_steps) = self.finalize_commit(run, message.as_str());
                let ghost mid_steps = steps.deep_view();
                let ghost fin_view = fin_steps.deep_view();
                steps.append(&mut fin_steps);
                proof {
                    assert(steps.deep_view() =~= mid_steps + fin_view);
                    assert(mid_steps + fin_view =~= prep_steps + (seq![
                        OpStepModel::Operated { outcome: Ok(message@) },
                    ] + fin_view));
                    assert(spec_after_prep_trace(
                        pc,
                        kind,
                        seq![OpStepModel::Operated { outcome: Ok(message@) }] + fin_view,
                        spec_op_result(fin_result),
                    )) by {
                        assert((seq![OpStepModel::Operated { outcome: Ok(message@) }]
                            + fin_view).subrange(
                            1,
                            (seq![OpStepModel::Operated { outcome: Ok(message@) }]
                                + fin_view).len() as int,
                        ) =~= fin_view);
                    }
                    lemma_prep_then_tail_is_perform_trace(
                        pc,
                        kind,
                        prep_steps,
                        seq![OpStepModel::Operated { outcome: Ok(message@) }] + fin_view,
                        spec_op_result(fin_result),
                    );
                }
                (fin_result, steps)
            },
        }
    }
}

/// Law: under Git with a dirty working tree, a whole operation fails with the
/// dirty-tree error before the wrapped operation is invoked: the exchange
/// holds no operation step and no mutating step at all, so the working tree
/// is left untouched.
pub proof fn lemma_git_dirty_tree_fails_before_operation(
    perform_commit: bool,
    steps: Seq<OpStepModel>,
    r: Result<(), OpErrorModel>,
    out: Seq<char>,
)
    requires
        spec_perform_trace(perform_commit, VcsKind::Git, steps, r),
        steps.len() >= 1,
        steps[0] == (OpStepModel::Queried {
            invocation: spec_git_status_invocation(),
            output: Some(out),
        }),
        spec_trim(out).len() != 0,
    ensures
        r == Err::<(), OpErrorModel>(OpErrorModel::DirtyWorkingTree),
        steps.len() == 1,
        forall|i: int| 0 <= i < steps.len() ==> !(steps[i] is Operated),
        forall|i: int| 0 <= i < steps.len() ==> !(steps[i] is Ran),
{
}

/// Law: under Jj starting from a current change that is not already a clean
/// slate, the prepare phase makes a fresh empty change current — a
/// successful `jj new` — strictly before the wrapped operation runs; and
/// when the operation succeeds and a commit was asked for, the finalize step
/// is exactly the Jj commit of that change under the operation's summary.
pub proof fn lemma_jj_prep_isolates_before_operation(
    perform_commit: bool,
    steps: Seq<OpStepModel>,
    r: Result<(), OpErrorModel>,
    out: Seq<char>,
)
    requires
        spec_perform_trace(perform_commit, VcsKind::Jj, steps, r),
        steps.len() >= 1,
        steps[0] == (OpStepModel::Queried {
            invocation: spec_jj_clean_check_invocation(),
            output: Some(out),
        }),
        spec_trim(out) != "."@,
        exists|i: int| 0 <= i < steps.len() && steps[i] is Operated,
    ensures
        steps.len() >= 3,
        steps[1] == (OpStepModel::Ran {
            invocation: spec_jj_new_invocation(),
            outcome: Ok::<(), Seq<char>>(()),
        }),
        steps[2] is Operated,
        forall|i: int| 0 <= i < steps.len() && steps[i] is Operated ==> i == 2,
        (match steps[2] {
            OpStepModel::Operated { outcome: Ok(msg) } => perform_commit ==> steps.len() == 4
                && (match steps[3] {
                OpStepModel::Ran { invocation, outcome } => invocation
                    == spec_jj_commit_invocation(msg),
                _ => false,
            }),
            _ => true,
        }),
{
    let i = choose|i: int| 0 <= i < steps.len() && steps[i] is Operated;
    match steps[1] {
        OpStepModel::Ran { invocation: new_inv, outcome } => {
            match outcome {
                Err(e) => {
                    assert(steps.len() == 2);
                    assert(false);
                },
                Ok(u) => {
                    let tail = steps.subrange(2, steps.len() as int);
                    assert(spec_after_prep_trace(perform_commit, VcsKind::Jj, tail, r));
                    assert(steps[2] == tail[0]);
                    match tail[0] {
                        OpStepModel::Operated { outcome: op_outcome } => {
                            match op_outcome {
                                Err(e) => {
                                    assert(tail.len() == 1);
                                    assert(steps.len() == 3);
                                },
                                Ok(msg) => {
                                    let fin = tail.subrange(1, tail.len() as int);
                                    assert(spec_finalize_trace(
                                        perform_commit,
                                        VcsKind::Jj,
                                        msg,
                                        fin,
                                        r,
                                    ));
                                    if perform_commit {
                                        assert(fin.len() == 1);
                                        assert(steps[3] == fin[0]);
                                        assert(steps.len() == 4);
                                    } else {
                                        assert(fin.len() == 0);
                                        assert(steps.len() == 3);
                                    }
                                },
                            }
                        },
                        _ => {
                            assert(false);
                        },
                    }
                },
            }
        },
        _ => {
            assert(false);
        },
    }
}

/// A prepare exchange that failed is a whole valid exchange on its own: in
/// particular, the operation never ran.
proof fn lemma_prep_fail_is_perform_trace(
    pc: bool,
    kind: VcsKind,
    steps: Seq<OpStepModel>,
    e: OpErrorModel,
)
    requires
        spec_prep_trace(kind, steps, Err(e)),
    ensures
        spec_perform_trace(pc, kind, steps, Err(e)),
{
}

/// A successful prepare exchange followed by a valid post-prepare tail is a
/// whole valid exchange.
proof fn lemma_prep_then_tail_is_perform_trace(
    pc: bool,
    kind: VcsKind,
    prep_steps: Seq<OpStepModel>,
    tail: Seq<OpStepModel>,
    r: Result<(), OpErrorModel>,
)
    requires
        spec_prep_trace(kind, prep_steps, Ok(())),
        spec_after_prep_trace(pc, kind, tail, r),
    ensures
        spec_perform_trace(pc, kind, prep_steps + tail, r),
{
    let whole = prep_steps + tail;
    match kind {
        VcsKind::Mercurial => {},
        VcsKind::Git => {
            assert(whole.subrange(1, whole.len() as int) =~= tail);
        },
        VcsKind::Jj => {
            if prep_steps.len() == 1 {
                assert(whole.subrange(1, whole.len() as int) =~= tail);
            } else {
                assert(whole.subrange(2, whole.len() as int) =~= tail);
            }
        },
    }
}

} // verus!

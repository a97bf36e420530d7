use std::cell::{Cell, RefCell};

use repo::command::ToolInvocation;
use repo::commit_wrapped_operation::{
    git_commit_invocation, git_status_invocation, jj_clean_check_invocation, jj_commit_invocation,
    jj_new_invocation, CommitWrappedOperation, OpError, OpPhase, OpStep,
};
use repo::vcs::{VcsError, VcsKind};

fn no_queries(_inv: &ToolInvocation) -> Option<String> {
    panic!("no query expected");
}

fn no_runs(_inv: &ToolInvocation) -> Result<(), String> {
    panic!("no mutation expected");
}

#[test]
fn invocation_plans_are_exact() {
    let inv = git_status_invocation();
    assert_eq!(inv.program, "git");
    assert_eq!(inv.args, vec!["status", "--porcelain"]);
    let inv = jj_clean_check_invocation();
    assert_eq!(inv.program, "jj");
    assert_eq!(
        inv.args,
        vec![
            "log",
            "--color=never",
            "--no-graph",
            "--revisions",
            "@ & empty() & ~merges() & description(exact:\"\")",
            "--template",
            "'.'",
        ]
    );
    let inv = jj_new_invocation();
    assert_eq!(inv.program, "jj");
    assert_eq!(inv.args, vec!["new"]);
    let inv = git_commit_invocation("a message");
    assert_eq!(inv.program, "git");
    assert_eq!(inv.args, vec!["commit", "--all", "--message", "a message"]);
    let inv = jj_commit_invocation("a message");
    assert_eq!(inv.program, "jj");
    assert_eq!(inv.args, vec!["commit", "--message", "a message"]);
}

#[test]
fn construction_resolves_the_vcs_up_front() {
    let detected = Some((VcsKind::Jj, String::from("/repo")));
    let op = CommitWrappedOperation::from_args(true, None, &detected).expect("resolved");
    assert_eq!(op.commit_using(), VcsKind::Jj);
    assert!(op.perform_commit());
    assert_eq!(op.phase(), OpPhase::Idle);
    let op = CommitWrappedOperation::from_args(false, Some(VcsKind::Git), &None).expect("resolved");
    assert_eq!(op.commit_using(), VcsKind::Git);
    assert!(!op.perform_commit());
    assert!(matches!(
        CommitWrappedOperation::from_args(true, None, &None),
        Err(VcsError::NoVcsFound)
    ));
}

#[test]
fn git_dirty_tree_fails_before_the_operation_runs() {
    let mut op = CommitWrappedOperation::new(true, VcsKind::Git);
    let operation_ran = Cell::new(false);
    let query = |inv: &ToolInvocation| -> Option<String> {
        assert_eq!(inv.args, vec!["status", "--porcelain"]);
        Some(String::from(" M src/lib.rs\n"))
    };
    let (result, steps) = op.perform_operation(&query, &no_runs, || {
        operation_ran.set(true);
        Ok(String::from("must never be used"))
    });
    assert!(matches!(result, Err(OpError::DirtyWorkingTree)));
    assert!(!operation_ran.get());
    assert_eq!(op.phase(), OpPhase::Failed);
    assert_eq!(steps.len(), 1);
    assert!(matches!(&steps[0], OpStep::Queried { .. }));
    assert_eq!(
        OpError::DirtyWorkingTree.message(),
        "`git status` is not clean."
    );
}

#[test]
fn git_clean_tree_runs_and_commits_with_the_summary() {
    let mut op = CommitWrappedOperation::new(true, VcsKind::Git);
    let committed: RefCell<Vec<String>> = RefCell::new(Vec::new());
    let query = |_inv: &ToolInvocation| -> Option<String> { Some(String::from("\n")) };
    let run = |inv: &ToolInvocation| -> Result<(), String> {
        committed.borrow_mut().extend(inv.args.iter().cloned());
        Ok(())
    };
    let (result, steps) =
        op.perform_operation(&query, &run, || Ok(String::from("Set version to: `v2.0.0`")));
    assert!(result.is_ok());
    assert_eq!(op.phase(), OpPhase::Completed);
    assert_eq!(steps.len(), 3);
    assert_eq!(
        committed.borrow().as_slice(),
        ["commit", "--all", "--message", "Set version to: `v2.0.0`"]
    );
}

#[test]
fn no_commit_requested_means_no_finalize_command() {
    let mut op = CommitWrappedOperation::new(false, VcsKind::Git);
    let query = |_inv: &ToolInvocation| -> Option<String> { Some(String::from("")) };
    let (result, steps) = op.perform_operation(&query, &no_runs, || Ok(String::from("summary")));
    assert!(result.is_ok());
    assert_eq!(op.phase(), OpPhase::Completed);
    // The status query and the operation itself; no commit step.
    assert_eq!(steps.len(), 2);
}

#[test]
fn jj_non_empty_current_change_gets_a_fresh_one_before_the_operation() {
    let mut op = CommitWrappedOperation::new(true, VcsKind::Jj);
    let order: RefCell<Vec<String>> = RefCell::new(Vec::new());
    let query = |_inv: &ToolInvocation| -> Option<String> {
        order.borrow_mut().push(String::from("clean-check"));
        // Anything but a lone dot: the current change is not a clean slate.
        Some(String::from(""))
    };
    let run = |inv: &ToolInvocation| -> Result<(), String> {
        order.borrow_mut().push(inv.args.join(" "));
        Ok(())
    };
    let (result, steps) = op.perform_operation(&query, &run, || {
        order.borrow_mut().push(String::from("operation"));
        Ok(String::from("Roll dependency"))
    });
    assert!(result.is_ok());
    assert_eq!(op.phase(), OpPhase::Completed);
    assert_eq!(steps.len(), 4);
    assert_eq!(
        order.borrow().as_slice(),
        ["clean-check", "new", "operation", "commit --message Roll dependency"]
    );
}

#[test]
fn jj_already_clean_slate_skips_the_new_change() {
    let mut op = CommitWrappedOperation::new(true, VcsKind::Jj);
    let ran: RefCell<Vec<String>> = RefCell::new(Vec::new());
    // The clean-slate log prints a lone dot for a current change that is
    // already empty, non-merge and undescribed.
    let query = |_inv: &ToolInvocation| -> Option<String> { Some(String::from(".\n")) };
    let run = |inv: &ToolInvocation| -> Result<(), String> {
        ran.borrow_mut().push(inv.args[0].clone());
        Ok(())
    };
    let (result, steps) = op.perform_operation(&query, &run, || Ok(String::from("msg")));
    assert!(result.is_ok());
    // Clean check, operation, commit: no `jj new`.
    assert_eq!(steps.len(), 3);
    assert_eq!(ran.borrow().as_slice(), ["commit"]);
}

#[test]
fn jj_unavailable_log_fails_prep() {
    let mut op = CommitWrappedOperation::new(true, VcsKind::Jj);
    let query = |_inv: &ToolInvocation| -> Option<String> { None };
    let (result, steps) = op.prep_commit(&query, &no_runs);
    assert!(matches!(result, Err(OpError::StatusUnavailable(VcsKind::Jj))));
    assert_eq!(steps.len(), 1);
    assert_eq!(op.phase(), OpPhase::Failed);
    assert_eq!(
        OpError::StatusUnavailable(VcsKind::Jj).message(),
        "Could not get `jj log` output."
    );
    assert_eq!(
        OpError::StatusUnavailable(VcsKind::Git).message(),
        "Could not get `git status` output"
    );
}

#[test]
fn jj_new_failure_aborts_before_the_operation() {
    let mut op = CommitWrappedOperation::new(true, VcsKind::Jj);
    let operation_ran = Cell::new(false);
    let query = |_inv: &ToolInvocation| -> Option<String> { Some(String::from("")) };
    let run = |_inv: &ToolInvocation| -> Result<(), String> { Err(String::from("boom")) };
    let (result, _steps) = op.perform_operation(&query, &run, || {
        operation_ran.set(true);
        Ok(String::from("unused"))
    });
    match result {
        Err(OpError::ToolFailed(text)) => assert_eq!(text, "boom"),
        other => panic!("expected a tool failure, got {:?}", other),
    }
    assert!(!operation_ran.get());
    assert_eq!(op.phase(), OpPhase::Failed);
}

#[test]
fn failing_operation_aborts_before_finalize() {
    let mut op = CommitWrappedOperation::new(true, VcsKind::Git);
    let query = |_inv: &ToolInvocation| -> Option<String> { Some(String::from("")) };
    let (result, steps) =
        op.perform_operation(&query, &no_runs, || Err(String::from("mutation failed")));
    match result {
        Err(OpError::OperationFailed(text)) => assert_eq!(text, "mutation failed"),
        other => panic!("expected an operation failure, got {:?}", other),
    }
    assert_eq!(op.phase(), OpPhase::Failed);
    assert_eq!(steps.len(), 2);
}

#[test]
fn mercurial_is_refused_not_ignored() {
    let mut op = CommitWrappedOperation::new(true, VcsKind::Mercurial);
    let operation_ran = Cell::new(false);
    let (result, steps) = op.perform_operation(&no_queries, &no_runs, || {
        operation_ran.set(true);
        Ok(String::from("unused"))
    });
    assert!(matches!(result, Err(OpError::UnsupportedVcs)));
    assert!(!operation_ran.get());
    assert!(steps.is_empty());
    assert_eq!(op.phase(), OpPhase::Failed);
    assert_eq!(
        OpError::UnsupportedVcs.message(),
        "Mercurial is unsupported for this operation."
    );
}

#[test]
fn finalize_commit_failure_is_reported() {
    let mut op = CommitWrappedOperation::new(true, VcsKind::Jj);
    let query = |_inv: &ToolInvocation| -> Option<String> { Some(String::from(".")) };
    let (prep, _) = op.prep_commit(&query, &no_runs);
    assert!(prep.is_ok());
    assert_eq!(op.phase(), OpPhase::Prepared);
    let run = |_inv: &ToolInvocation| -> Result<(), String> { Err(String::from("denied")) };
    let (result, steps) = op.finalize_commit(&run, "msg");
    match result {
        Err(OpError::ToolFailed(text)) => assert_eq!(text, "denied"),
        other => panic!("expected a tool failure, got {:?}", other),
    }
    assert_eq!(steps.len(), 1);
    assert_eq!(op.phase(), OpPhase::Failed);
}

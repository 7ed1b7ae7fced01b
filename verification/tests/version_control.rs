use zcad::version_control::{
    BranchId, CommitId, CommitType, GitOutcome, Timestamp, VCConfig, VCError, VcEvent, VcOutput,
    VcStep, VcTask, VersionControl,
};

#[test]
fn test_branch_id() {
    let main = BranchId::main();
    let custom = BranchId::new("feature-x");

    assert_eq!(main.name(), "main");
    assert_eq!(custom.name(), "feature-x");
}

#[test]
fn test_commit_id() {
    let id1 = CommitId::null();
    let id2 = CommitId::from_bytes([1; 20]);

    assert_eq!(id1, CommitId::null());
    assert_ne!(id1, id2);

    let hex = id2.to_hex();
    let id3 = CommitId::from_hex(&hex).unwrap();
    assert_eq!(id2, id3);
}

#[test]
fn commit_id_hex_text() {
    let mut bytes = [0u8; 20];
    bytes[0] = 0xab;
    bytes[19] = 0x0f;
    let id = CommitId::from_bytes(bytes);
    let hex = id.to_hex();
    assert_eq!(hex.len(), 40);
    assert!(hex.starts_with("ab00"));
    assert!(hex.ends_with("0f"));
    assert_eq!(CommitId::from_hex(&hex.to_uppercase()).unwrap(), id);
    assert_eq!(CommitId::from_hex("abc").unwrap_err(), "Odd number of digits");
    assert_eq!(CommitId::from_hex("abcd").unwrap_err(), "Invalid commit ID length");
    assert!(CommitId::from_hex("zz").is_err());
    assert_eq!(id.as_bytes()[0], 0xab);
}

fn ok(stdout: &str) -> VcEvent {
    VcEvent::Git(GitOutcome::Exited {
        success: true,
        stdout: stdout.to_string(),
        stderr: String::new(),
    })
}

fn failed(stderr: &str) -> VcEvent {
    VcEvent::Git(GitOutcome::Exited {
        success: false,
        stdout: String::new(),
        stderr: stderr.to_string(),
    })
}

const NOW: Timestamp = Timestamp { secs: 1_700_000_000, nanos: 5 };

fn args(step: &VcStep) -> Vec<String> {
    match step {
        VcStep::Run(_, a) => a.clone(),
        _ => panic!("expected a git command"),
    }
}

/// Runs the step with the replies in order; returns the finished result.
fn drive(vc: &mut VersionControl, mut step: VcStep, replies: Vec<VcEvent>) -> (Vec<Vec<String>>, Result<VcOutput, VCError>) {
    let mut seen = Vec::new();
    let mut replies = replies.into_iter();
    loop {
        match step {
            VcStep::Run(task, a) => {
                seen.push(a);
                let reply = replies.next().expect("more replies");
                step = vc.resume(task, reply, NOW);
            }
            VcStep::Write(task, name, _) => {
                seen.push(vec![name]);
                step = vc.resume(task, VcEvent::Written(Ok(())), NOW);
            }
            VcStep::Finished(r) => return (seen, r),
        }
    }
}

fn opened() -> VersionControl {
    let (mut vc, step) = VersionControl::open("/tmp/project".to_string(), true).unwrap();
    let (seen, r) = drive(&mut vc, step, vec![ok("* main\n"), ok("main\n")]);
    assert_eq!(seen[0], vec!["branch", "-a"]);
    assert_eq!(seen[1], vec!["rev-parse", "--abbrev-ref", "HEAD"]);
    assert!(matches!(r, Ok(VcOutput::Nothing)));
    vc
}

const H1: &str = "1111111111111111111111111111111111111111";
const H2: &str = "2222222222222222222222222222222222222222";

#[test]
fn open_requires_repository() {
    assert!(matches!(VersionControl::open("/x".to_string(), false), Err(VCError::NotInitialized)));
    assert!(matches!(VersionControl::init("/x".to_string(), true), Err(VCError::AlreadyInitialized)));
    let vc = opened();
    assert_eq!(vc.current_branch().name(), "main");
    assert_eq!(vc.stats().total_commits, 0);
}

#[test]
fn manual_commit_flow() {
    let mut vc = opened();
    let step = vc.manual_commit("draw walls", vec![]);
    let replies = vec![
        ok(" M plan.zcad\n"),
        ok(""),
        ok(""),
        ok(&format!("{}\n", H1)),
        ok(&format!("{}\n", H2)),
        ok("plan.zcad\nnotes.txt\n"),
    ];
    let (seen, r) = drive(&mut vc, step, replies);
    assert_eq!(seen[0], vec!["status", "--porcelain"]);
    assert_eq!(seen[1], vec!["add", "."]);
    assert_eq!(seen[2], vec!["commit", "-m", "draw walls"]);
    assert_eq!(seen[3], vec!["log", "-1", "--format=%H"]);
    assert_eq!(seen[4], vec!["rev-parse", "HEAD~1"]);
    assert_eq!(seen[5], vec!["diff", "--name-only", "HEAD~1"]);
    match r {
        Ok(VcOutput::Committed(id)) => assert_eq!(id.to_hex(), H1),
        _ => panic!("expected a commit"),
    }
    assert_eq!(vc.stats().total_commits, 1);
    assert_eq!(vc.stats().manual_commits, 1);
    assert_eq!(vc.stats().last_commit_time, Some(NOW));
}

#[test]
fn commit_without_changes() {
    let mut vc = opened();
    let step = vc.manual_commit("nothing", vec![]);
    let (_, r) = drive(&mut vc, step, vec![ok("")]);
    assert!(matches!(r, Err(VCError::NoChanges)));
    let step = vc.manual_commit("broken", vec![]);
    let (_, r) = drive(&mut vc, step, vec![failed("fatal: not a repo")]);
    match r {
        Err(VCError::GitError(m)) => assert_eq!(m, "fatal: not a repo"),
        _ => panic!("expected a git error"),
    }
    let step = vc.manual_commit("bad hash", vec![]);
    let (_, r) = drive(&mut vc, step, vec![ok("x\n"), ok(""), ok(""), ok("not-a-hash\n")]);
    assert!(matches!(r, Err(VCError::StringError(_))));
    assert_eq!(vc.stats().total_commits, 0);
}

#[test]
fn auto_commit_message_and_switch() {
    let mut vc = opened();
    let step = vc.auto_commit(12, "walls");
    match &step {
        VcStep::Run(VcTask::CommitStatus(r), a) => {
            assert_eq!(r.message, "Auto-commit: 12 operations");
            assert_eq!(r.commit_type, CommitType::Auto);
            assert_eq!(a, &vec!["status".to_string(), "--porcelain".to_string()]);
        }
        _ => panic!("expected a status command"),
    }
    let mut config = VCConfig::default();
    config.auto_commit_enabled = false;
    config.author_name = "Ann".to_string();
    let step = vc.update_config(config);
    assert_eq!(args(&step), vec!["config", "user.name", "Ann"]);
    let (seen, r) = drive(&mut vc, step, vec![ok(""), ok(""), ok(""), failed("ignored")]);
    assert_eq!(seen.len(), 4);
    assert_eq!(seen[3], vec!["config", "core.safecrlf", "false"]);
    assert!(matches!(r, Ok(VcOutput::Nothing)));
    assert!(matches!(vc.auto_commit(1, "x"), VcStep::Finished(Err(VCError::AutoCommitDisabled))));
}

#[test]
fn branches_create_switch_merge() {
    let mut vc = opened();
    assert!(matches!(
        vc.switch_branch(&BranchId::new("dev")),
        VcStep::Finished(Err(VCError::BranchNotFound(_)))
    ));
    let step = vc.create_branch(BranchId::new("dev"), "work".to_string());
    let replies = vec![
        ok(""),
        ok(&format!("{}\n", H2)),
        ok(" M a\n"),
        ok(""),
        ok(""),
        ok(&format!("{}\n", H1)),
        ok(&format!("{}\n", H2)),
        ok("a\n"),
    ];
    let (seen, r) = drive(&mut vc, step, replies);
    assert_eq!(seen[0], vec!["checkout", "-b", "dev"]);
    assert_eq!(seen[1], vec!["rev-parse", "HEAD"]);
    assert_eq!(seen[4], vec!["commit", "-m", "Create branch 'dev'"]);
    assert!(matches!(r, Ok(VcOutput::Nothing)));
    assert_eq!(vc.branches().len(), 1);
    assert_eq!(vc.branches()[0].id.name(), "dev");
    assert_eq!(vc.stats().total_branches, 1);
    assert!(matches!(
        vc.create_branch(BranchId::new("dev"), String::new()),
        VcStep::Finished(Err(VCError::BranchExists(_)))
    ));

    // merging into "main", which is not a known branch, stops after the merge
    let step = vc.merge_branch(&BranchId::new("dev"), "merge it");
    let (seen, r) = drive(&mut vc, step, vec![ok(""), ok("")]);
    assert_eq!(seen[0], vec!["checkout", "dev"]);
    assert_eq!(seen[1], vec!["merge", "main", "--no-ff", "-m", "merge it"]);
    assert!(matches!(r, Err(VCError::BranchNotFound(_))));
    assert_eq!(vc.current_branch().name(), "dev");

    let step = vc.switch_branch(&BranchId::new("dev"));
    let (seen, r) = drive(&mut vc, step, vec![ok("")]);
    assert_eq!(seen[0], vec!["checkout", "dev"]);
    assert!(matches!(r, Ok(VcOutput::Nothing)));
    assert_eq!(vc.current_branch().name(), "dev");
}

#[test]
fn history_diff_and_revert() {
    let mut vc = opened();
    let step = vc.get_commit_history(2);
    assert_eq!(args(&step), vec!["log", "--oneline", "-n", "2", "--format=%H|%s|%an|%at"]);
    let out = format!("{}|first|Ann|100\nshort|line\n{}|second|Bob|oops\n", H1, H2);
    let (_, r) = drive(&mut vc, step, vec![ok(&out)]);
    match r {
        Ok(VcOutput::History(v)) => {
            assert_eq!(v.len(), 2);
            assert_eq!(v[0].message, "first");
            assert_eq!(v[0].author, "Ann");
            assert_eq!(v[0].timestamp, Timestamp { secs: 100, nanos: 0 });
            assert_eq!(v[1].id.to_hex(), H2);
            assert_eq!(v[1].timestamp.secs, 0);
        }
        _ => panic!("expected a history"),
    }
    let a = CommitId::from_bytes([0xaa; 20]);
    let b = CommitId::null();
    let step = vc.get_diff(&a, &b);
    assert_eq!(args(&step)[1], "a".repeat(40));
    let (_, r) = drive(&mut vc, step, vec![ok("+line\n")]);
    match r {
        Ok(VcOutput::Diff(d)) => assert_eq!(d, "+line\n"),
        _ => panic!("expected a diff"),
    }
    let step = vc.revert_to_commit(&b);
    assert_eq!(args(&step)[0..2], ["reset".to_string(), "--hard".to_string()]);
}

#[test]
fn test_version_control_init() {
    let (mut vc, step) = VersionControl::init("/tmp/new".to_string(), false).unwrap();
    assert_eq!(args(&step), vec!["init"]);
    let replies = vec![
        ok(""),
        ok(""),
        ok(""),
        ok(""),
        ok(""),
        ok(""),
        ok(&format!("{}\n", H1)),
        ok("?? x\n"),
        ok(""),
        ok(""),
        ok(&format!("{}\n", H2)),
        ok(&format!("{}\n", H1)),
        ok("x\n"),
        ok(""),
        ok(""),
    ];
    let (seen, r) = drive(&mut vc, step, replies);
    assert_eq!(seen[5], vec!["checkout", "-b", "main"]);
    assert_eq!(seen[13], vec![".zcadignore"]);
    assert_eq!(seen[14], vec!["README.md"]);
    assert_eq!(seen[16], vec!["commit", "-m", "Initial commit"]);
    assert!(matches!(r, Ok(VcOutput::Nothing)));
    assert_eq!(vc.stats().total_branches, 1);
    assert!(vc.stats().last_commit_time.is_some());
}

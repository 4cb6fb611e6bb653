use gitp_ush::dispatch::{
    after_branch_query, after_push, after_run, branch_query, dispatch, push_args, push_invocation,
    Failure, ProcessOutcome, Step,
};
use gitp_ush::text::{is_whitespace, join_args, split_words, starts_with, trim_end};
use gitp_ush::typo::autocorrect_typo;

fn strings(v: &[&str]) -> Vec<String> {
    v.iter().map(|s| s.to_string()).collect()
}

fn exit_of(step: Step) -> (i32, Option<Failure>) {
    match step {
        Step::Exit { code, error } => (code, error),
        other => panic!("expected an exit, got {:?}", other),
    }
}

#[test]
fn input_without_typo_is_unchanged() {
    for s in ["git status", "", "   ", "ls -la", "git pull", "gitpush", "git ps", "gi"] {
        assert_eq!(autocorrect_typo(s), s);
    }
}

#[test]
fn each_typo_is_corrected_with_suffix_kept() {
    let table = [
        "gitp ush", "git psuh", "git puhs", "git pus", "gi tpush", "gti push",
    ];
    for typo in table {
        for suffix in ["", " --tags", "  -f  origin", "x", "é ü"] {
            let input = format!("{}{}", typo, suffix);
            assert_eq!(autocorrect_typo(&input), format!("git push{}", suffix));
        }
    }
}

#[test]
fn only_one_correction_is_applied() {
    assert_eq!(autocorrect_typo("git pus git psuh"), "git push git psuh");
    assert_eq!(autocorrect_typo("gitp ush gitp ush"), "git push gitp ush");
}

#[test]
fn literal_prefix_matches_inside_a_word() {
    assert_eq!(autocorrect_typo("git push"), "git pushh");
    assert_eq!(autocorrect_typo("git pusher"), "git pushher");
    assert_eq!(autocorrect_typo("git pusx"), "git pushx");
}

#[test]
fn words_split_on_runs_of_whitespace() {
    assert_eq!(split_words("  git \t push\n--tags  "), strings(&["git", "push", "--tags"]));
    assert_eq!(split_words(""), Vec::<String>::new());
    assert_eq!(split_words(" \u{3000}\u{a0} "), Vec::<String>::new());
    assert_eq!(split_words("a\u{2003}b"), strings(&["a", "b"]));
}

#[test]
fn whitespace_matches_std() {
    for v in 0u32..0x3100 {
        if let Some(c) = char::from_u32(v) {
            assert_eq!(is_whitespace(c), c.is_whitespace(), "{:x}", v);
        }
    }
}

#[test]
fn prefix_test() {
    assert!(starts_with("git push", "git"));
    assert!(starts_with("git", ""));
    assert!(!starts_with("gi", "git"));
    assert!(!starts_with("gat push", "git"));
}

#[test]
fn trailing_whitespace_is_trimmed() {
    assert_eq!(trim_end("feature/x\n"), "feature/x");
    assert_eq!(trim_end("main \r\n\t"), "main");
    assert_eq!(trim_end(" main"), " main");
    assert_eq!(trim_end("\n"), "");
}

#[test]
fn arguments_are_joined_with_spaces() {
    assert_eq!(join_args(&strings(&["git", "psuh", "--tags"])), "git psuh --tags");
    assert_eq!(join_args(&strings(&["one"])), "one");
    assert_eq!(join_args(&Vec::new()), "");
    assert_eq!(join_args(&strings(&["a", "", "b"])), "a  b");
}

#[test]
fn push_verb_pair_queries_branch() {
    match dispatch("git push --force") {
        Step::QueryBranch { extra } => assert_eq!(extra, strings(&["--force"])),
        other => panic!("unexpected {:?}", other),
    }
    match dispatch("  git   push ") {
        Step::QueryBranch { extra } => assert!(extra.is_empty()),
        other => panic!("unexpected {:?}", other),
    }
}

#[test]
fn other_commands_run_as_they_stand() {
    match dispatch("git status -s") {
        Step::Run { program, args } => {
            assert_eq!(program, "git");
            assert_eq!(args, strings(&["status", "-s"]));
        }
        other => panic!("unexpected {:?}", other),
    }
    match dispatch("push git") {
        Step::Run { program, args } => {
            assert_eq!(program, "push");
            assert_eq!(args, strings(&["git"]));
        }
        other => panic!("unexpected {:?}", other),
    }
    match dispatch("git") {
        Step::Run { program, args } => {
            assert_eq!(program, "git");
            assert!(args.is_empty());
        }
        other => panic!("unexpected {:?}", other),
    }
}

#[test]
fn empty_input_exits_zero() {
    assert_eq!(exit_of(dispatch("")), (0, None));
    assert_eq!(exit_of(dispatch(" \t\n ")), (0, None));
}

#[test]
fn push_arguments_name_branch_then_extra() {
    assert_eq!(
        push_args("main", &strings(&["--force"])),
        strings(&["-u", "origin", "main", "--force"])
    );
    assert_eq!(push_args("dev", &Vec::new()), strings(&["-u", "origin", "dev"]));
}

#[test]
fn mocked_branch_query_builds_push() {
    let ok = ProcessOutcome::Exited { code: Some(0) };
    match after_branch_query(ok, Some("main".to_string()), &strings(&["--force"])) {
        Step::Push { branch, args } => {
            assert_eq!(branch, "main");
            assert_eq!(args, strings(&["-u", "origin", "main", "--force"]));
        }
        other => panic!("unexpected {:?}", other),
    }
}

#[test]
fn failed_branch_query_exits_one() {
    let extra = strings(&["--tags"]);
    let cases = [
        (ProcessOutcome::Exited { code: Some(128) }, Some("main\n".to_string())),
        (ProcessOutcome::Exited { code: None }, Some("main\n".to_string())),
        (ProcessOutcome::NotStarted, None),
        (ProcessOutcome::Exited { code: Some(0) }, None),
    ];
    for (status, output) in cases {
        assert_eq!(
            exit_of(after_branch_query(status, output, &extra)),
            (1, Some(Failure::BranchLookup))
        );
    }
}

#[test]
fn exit_code_seven_is_forwarded() {
    let seven = ProcessOutcome::Exited { code: Some(7) };
    assert_eq!(exit_of(after_run(seven)), (7, None));
    assert_eq!(exit_of(after_push(seven)), (7, None));
}

#[test]
fn push_outcomes_end_the_run() {
    assert_eq!(exit_of(after_push(ProcessOutcome::Exited { code: Some(0) })), (0, None));
    assert_eq!(exit_of(after_push(ProcessOutcome::Exited { code: None })), (1, None));
    assert_eq!(exit_of(after_push(ProcessOutcome::NotStarted)), (1, Some(Failure::Launch)));
}

#[test]
fn run_outcomes_end_the_run() {
    assert_eq!(exit_of(after_run(ProcessOutcome::Exited { code: Some(0) })), (0, None));
    assert_eq!(exit_of(after_run(ProcessOutcome::Exited { code: None })), (1, None));
    assert_eq!(exit_of(after_run(ProcessOutcome::NotStarted)), (1, Some(Failure::Launch)));
}

#[test]
fn typo_with_tags_pushes_feature_branch() {
    let input = join_args(&strings(&["git", "psuh", "--tags"]));
    assert_eq!(input, "git psuh --tags");
    let corrected = autocorrect_typo(&input);
    assert_eq!(corrected, "git push --tags");
    let extra = match dispatch(&corrected) {
        Step::QueryBranch { extra } => extra,
        other => panic!("unexpected {:?}", other),
    };
    assert_eq!(extra, strings(&["--tags"]));
    let ok = ProcessOutcome::Exited { code: Some(0) };
    match after_branch_query(ok, Some("feature/x\n".to_string()), &extra) {
        Step::Push { branch, args } => {
            assert_eq!(branch, "feature/x");
            assert_eq!(args, strings(&["-u", "origin", "feature/x", "--tags"]));
        }
        other => panic!("unexpected {:?}", other),
    }
}

#[test]
fn killed_command_exits_one() {
    let killed = ProcessOutcome::Exited { code: None };
    assert_eq!(exit_of(after_run(killed)), (1, None));
    assert_eq!(exit_of(after_push(killed)), (1, None));
}

#[test]
fn branch_query_is_rev_parse() {
    let q = branch_query();
    assert_eq!(q.program, "git");
    assert_eq!(q.args, strings(&["rev-parse", "--abbrev-ref", "HEAD"]));
}

#[test]
fn push_invocation_runs_git_push() {
    let p = push_invocation(&strings(&["-u", "origin", "feature/x", "--tags"]));
    assert_eq!(p.program, "git");
    assert_eq!(p.args, strings(&["push", "-u", "origin", "feature/x", "--tags"]));
    let bare = push_invocation(&Vec::new());
    assert_eq!(bare.args, strings(&["push"]));
}

use branch_cli::branch::BranchInfo;
use branch_cli::catalog::{prefix_code, prefix_entries, PREFIX_COUNT};
use branch_cli::runner::{
    command_display_line, confirmation_message, plan_run, select_prefix_code, Opt, RunError,
    RunPlan,
};

fn sample_info() -> BranchInfo {
    BranchInfo::new(
        String::from("feat"),
        String::from("issue-1"),
        String::from("新機能追加"),
        String::from("origin/main"),
    )
}

#[test]
fn catalog_has_the_four_fixed_entries() {
    let entries = prefix_entries();
    assert_eq!(entries.len(), PREFIX_COUNT);
    let codes: Vec<&str> = entries.iter().map(|e| e.code.as_str()).collect();
    assert_eq!(codes, vec!["feat", "fix", "refactor", "chore"]);
    let labels: Vec<&str> = entries.iter().map(|e| e.label.as_str()).collect();
    assert_eq!(labels, vec!["新機能追加", "バグ修正", "コード修正", "それ以外"]);
}

#[test]
fn display_labels_join_code_and_label() {
    let entries = prefix_entries();
    let lines: Vec<String> = entries.iter().map(|e| e.display_label()).collect();
    assert_eq!(
        lines,
        vec![
            "feat: 新機能追加",
            "fix: バグ修正",
            "refactor: コード修正",
            "chore: それ以外",
        ]
    );
}

#[test]
fn prefix_code_matches_catalog_order() {
    assert_eq!(prefix_code(0), "feat");
    assert_eq!(prefix_code(1), "fix");
    assert_eq!(prefix_code(2), "refactor");
    assert_eq!(prefix_code(3), "chore");
}

#[test]
fn selecting_an_entry_yields_its_code() {
    for index in 0..PREFIX_COUNT {
        let code = select_prefix_code(Some(index)).unwrap();
        assert_eq!(code, prefix_code(index));
    }
}

#[test]
fn cancelled_selection_is_no_prefix_selected() {
    let r = select_prefix_code(None);
    assert!(matches!(r, Err(RunError::NoPrefixSelected)));
}

#[test]
fn cancelled_collection_aborts_without_a_command() {
    for execute in [false, true] {
        let plan = plan_run(Err(RunError::NoPrefixSelected), execute);
        assert!(matches!(
            plan,
            RunPlan::Abort {
                error: RunError::NoPrefixSelected
            }
        ));
    }
}

#[test]
fn input_failure_aborts_with_that_error() {
    let plan = plan_run(Err(RunError::InputError(String::from("stream closed"))), true);
    match plan {
        RunPlan::Abort {
            error: RunError::InputError(detail),
        } => assert_eq!(detail, "stream closed"),
        _ => panic!("expected an abort carrying the input error"),
    }
}

#[test]
fn dry_run_only_shows_the_command() {
    let plan = plan_run(Ok(sample_info()), false);
    match plan {
        RunPlan::DryRun { command } => {
            assert_eq!(command, "git checkout -b feat/issue-1/新機能追加 origin/main");
        }
        _ => panic!("expected a dry run"),
    }
}

#[test]
fn execute_flag_hands_the_command_on() {
    let plan = plan_run(Ok(sample_info()), true);
    match plan {
        RunPlan::Execute {
            command,
            branch_name,
        } => {
            assert_eq!(command, "git checkout -b feat/issue-1/新機能追加 origin/main");
            assert_eq!(branch_name, "feat/issue-1/新機能追加");
        }
        _ => panic!("expected an executing plan"),
    }
}

#[test]
fn error_messages_match_each_variant() {
    assert_eq!(
        RunError::NoPrefixSelected.message(),
        "プレフィックスが選択されていません"
    );
    assert_eq!(
        RunError::InputError(String::from("stream closed")).message(),
        "stream closed"
    );
    assert_eq!(
        RunError::ExecError(String::from("not found")).message(),
        "コマンド実行エラー: not found"
    );
}

#[test]
fn command_display_line_prefixes_the_command() {
    assert_eq!(
        command_display_line("git checkout -b feat/x"),
        "コマンド: $ git checkout -b feat/x"
    );
}

#[test]
fn confirmation_message_names_the_branch() {
    assert_eq!(
        confirmation_message("feat/x"),
        "新しいブランチを作成しました: feat/x"
    );
}

#[test]
fn debug_hook_runs_only_in_debug_mode() {
    let mut called = false;
    Opt::new(true, false).debug(|| called = true);
    assert!(called);

    let mut called_again = false;
    Opt::new(false, true).debug(|| called_again = true);
    assert!(!called_again);
}

use executive_console::{plan, run_outcome, Exit, LogLevel, Plugin, Profile, Target};

#[test]
fn macos_sets_input_method_flag() {
    for profile in [Profile::Debug, Profile::Release] {
        let p = plan(Target::MacOs, profile);
        let env = p.env.expect("macOS build sets the variable");
        assert_eq!(env.name, "OS_ACTIVITY_MODE");
        assert_eq!(env.value, "disable");
    }
}

#[test]
fn other_targets_leave_environment_alone() {
    for profile in [Profile::Debug, Profile::Release] {
        assert!(plan(Target::Other, profile).env.is_none());
    }
}

#[test]
fn debug_build_attaches_info_logging() {
    for target in [Target::MacOs, Target::Other] {
        let p = plan(target, Profile::Debug);
        assert_eq!(p.setup_plugins, vec![Plugin::Log { level: LogLevel::Info }]);
    }
}

#[test]
fn release_build_has_no_logging() {
    for target in [Target::MacOs, Target::Other] {
        let p = plan(target, Profile::Release);
        assert!(p.setup_plugins.is_empty());
        assert!(!p.plugins.iter().any(|q| matches!(q, Plugin::Log { .. })));
    }
}

#[test]
fn filesystem_and_dialog_in_every_build() {
    for target in [Target::MacOs, Target::Other] {
        for profile in [Profile::Debug, Profile::Release] {
            let p = plan(target, profile);
            assert_eq!(p.plugins, vec![Plugin::Filesystem, Plugin::Dialog]);
        }
    }
}

#[test]
fn started_run_loop_finishes_normally() {
    let r: Exit<String> = run_outcome(Ok(()));
    assert!(matches!(r, Exit::Finished));
}

#[test]
fn failed_start_aborts_with_message() {
    match run_outcome(Err(7u32)) {
        Exit::Abort { message, cause } => {
            assert_eq!(message, "error while running tauri application");
            assert_eq!(cause, 7);
        }
        Exit::Finished => panic!("a failed start must not finish normally"),
    }
}

use macos_liquid_glass::bundle::{
    after_check, counts_toward_staleness, BuildCheck, ENV_ORDER, info_plist, launch_env, log_file_name, makes_stale, parse_task,
    running_instance_pattern, Task, KNOBS,
};

fn args(list: &[&str]) -> Vec<String> {
    list.iter().map(|s| s.to_string()).collect()
}

#[test]
fn the_plist_names_the_example_and_its_floor() {
    let plist = info_plist();
    assert!(plist.starts_with("<?xml version=\"1.0\" encoding=\"UTF-8\"?>\n"));
    assert!(plist.contains("<key>CFBundleExecutable</key><string>borderless</string>"));
    assert!(plist.contains(
        "<key>CFBundleIdentifier</key><string>com.logger.macosliquidglass.borderless</string>"
    ));
    assert!(plist.contains("<key>LSMinimumSystemVersion</key><string>27.0</string>"));
    assert!(plist.ends_with("</dict></plist>\n"));
}

#[test]
fn tasks_are_read_from_the_arguments() {
    assert_eq!(parse_task(&args(&[])), Ok(Task::Run { tag: "run".to_string() }));
    assert_eq!(parse_task(&args(&["run"])), Ok(Task::Run { tag: "run".to_string() }));
    assert_eq!(
        parse_task(&args(&["run", "sweep3"])),
        Ok(Task::Run { tag: "sweep3".to_string() })
    );
    assert_eq!(parse_task(&args(&["bundle", "x"])), Ok(Task::Bundle));
    assert_eq!(
        parse_task(&args(&["lanch"])),
        Err("unknown task \"lanch\"; expected `run` or `bundle`".to_string())
    );
}

#[test]
fn only_sources_and_manifests_count_toward_staleness() {
    assert!(counts_toward_staleness(Some("rs")));
    assert!(counts_toward_staleness(Some("toml")));
    assert!(!counts_toward_staleness(Some("md")));
    assert!(!counts_toward_staleness(Some("RS")));
    assert!(!counts_toward_staleness(None));
}

#[test]
fn the_log_and_process_names_follow_the_example() {
    assert_eq!(log_file_name("run"), "borderless_run.log");
    assert_eq!(running_instance_pattern(), "borderless.app/Contents/MacOS");
}

#[test]
fn the_launch_environment_forwards_set_knobs_only() {
    let mut values: Vec<Option<String>> = vec![None; KNOBS.len()];
    values[1] = Some("clear".to_string());
    values[4] = Some(String::new());
    values[13] = Some("250".to_string());
    let env = launch_env(None, &values);
    assert_eq!(
        env,
        vec![
            ("GN_GLASS".to_string(), "clear".to_string()),
            ("GN_POLL".to_string(), "250".to_string()),
            ("GN_SECS".to_string(), "600".to_string()),
        ]
    );
    let env = launch_env(Some("30".to_string()), &vec![None; KNOBS.len()]);
    assert_eq!(env, vec![("GN_SECS".to_string(), "30".to_string())]);
}

#[test]
fn the_unknown_task_message_wraps_the_quoted_name() {
    assert_eq!(
        macos_liquid_glass::bundle::unknown_task_message_quoting("'x'"),
        "unknown task 'x'; expected `run` or `bundle`"
    );
}

#[test]
fn only_a_newer_counted_regular_file_makes_the_bundle_stale() {
    assert!(makes_stale(true, Some("rs"), Some(true)));
    assert!(makes_stale(true, Some("toml"), Some(true)));
    assert!(!makes_stale(true, Some("rs"), Some(false)));
    assert!(!makes_stale(true, Some("rs"), None));
    assert!(!makes_stale(false, Some("rs"), Some(true)));
    assert!(!makes_stale(true, Some("md"), Some(true)));
    assert!(!makes_stale(true, None, Some(true)));
}

#[test]
fn the_launch_environment_is_ordered_by_name() {
    let values: Vec<Option<String>> = KNOBS.iter().map(|k| Some(k.to_lowercase())).collect();
    let env = launch_env(Some("5".to_string()), &values);
    let names: Vec<&str> = env.iter().map(|(k, _)| k.as_str()).collect();
    let mut sorted = names.clone();
    sorted.sort();
    assert_eq!(names, sorted);
    assert_eq!(names, ENV_ORDER.to_vec());
    assert_eq!(env.len(), KNOBS.len() + 1);
    assert_eq!(env[10], ("GN_SECS".to_string(), "5".to_string()));
    assert_eq!(env[0], ("GN_GLASS".to_string(), "gn_glass".to_string()));
    assert_eq!(env[14], ("GN_TINT_SPACE".to_string(), "gn_tint_space".to_string()));
}

#[test]
fn the_build_checks_run_in_order_and_refuse_with_their_reason() {
    assert_eq!(after_check(BuildCheck::Built, true, ""), Ok(Some(BuildCheck::BinaryPresent)));
    assert_eq!(after_check(BuildCheck::BinaryPresent, true, "/b"), Ok(Some(BuildCheck::Fresh)));
    assert_eq!(after_check(BuildCheck::Fresh, true, ""), Ok(None));
    assert_eq!(
        after_check(BuildCheck::Built, false, ""),
        Err("BUILD FAILED — nothing bundled".to_string())
    );
    assert_eq!(
        after_check(BuildCheck::BinaryPresent, false, "/r/target/release/examples/borderless"),
        Err("BINARY MISSING — cargo reported success but produced nothing at /r/target/release/examples/borderless".to_string())
    );
    assert_eq!(
        after_check(BuildCheck::Fresh, false, "/r/src/lib.rs"),
        Err("BINARY STALE — /r/src/lib.rs is newer than the build; refusing".to_string())
    );
}

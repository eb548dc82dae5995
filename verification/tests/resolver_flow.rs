use sidecar_supervisor::descriptor::ExecutableDescriptor;
use sidecar_supervisor::profile::Profile;
use sidecar_supervisor::resolver::{
    after_existence_check, after_lookup, after_probe, after_search, candidate_in, check_path,
    find_on_search_path, search_plan, Lookup, SearchPlan, Step,
};

fn acme() -> Profile {
    Profile {
        product: "Acme Code".to_string(),
        executable: "acme".to_string(),
        helper: "acme-code-server".to_string(),
        override_variable: "ACME_CODE_EXECUTABLE_PATH".to_string(),
        override_flag: "--acme-path".to_string(),
    }
}

fn parts(d: &ExecutableDescriptor) -> (bool, Option<&str>, Option<&str>, Option<&str>) {
    (d.found(), d.path().as_deref(), d.version().as_deref(), d.error().as_deref())
}

fn never_probe(_path: &str) -> Option<String> {
    panic!("the probe must not be run")
}

fn completed(success: bool, stdout: &str) -> impl FnOnce(SearchPlan) -> Lookup {
    let stdout = stdout.as_bytes().to_vec();
    move |_plan| Lookup::Completed { success, stdout }
}

#[test]
fn check_path_on_a_missing_file() {
    let d = check_path(&acme(), "/nonexistent".to_string(), |_p| false, never_probe);
    assert_eq!(parts(&d), (false, Some("/nonexistent"), None, Some("File does not exist")));
}

#[test]
fn check_path_asks_about_the_given_path() {
    let d = check_path(
        &acme(),
        "/usr/local/bin/acme".to_string(),
        |p| {
            assert_eq!(p, "/usr/local/bin/acme");
            true
        },
        |p| {
            assert_eq!(p, "/usr/local/bin/acme");
            Some("2.0.1".to_string())
        },
    );
    assert_eq!(parts(&d), (true, Some("/usr/local/bin/acme"), Some("2.0.1"), None));
}

#[test]
fn check_path_on_a_file_that_gives_no_version() {
    let d = check_path(&acme(), "/bin/true".to_string(), |_p| true, |_p| None);
    assert_eq!(
        parts(&d),
        (
            false,
            Some("/bin/true"),
            None,
            Some("File exists but does not appear to be Acme Code (could not get version)")
        )
    );
}

#[test]
fn check_path_never_probes_the_empty_path() {
    let d = check_path(&acme(), String::new(), |_p| true, never_probe);
    assert_eq!(parts(&d), (false, Some(""), None, Some("File does not exist")));
}

#[test]
fn existence_check_decides_between_probe_and_report() {
    match after_existence_check("/a/b".to_string(), true) {
        Step::Probe { path } => assert_eq!(path, "/a/b"),
        Step::Report(d) => panic!("unexpected report: {:?}", d),
    }
    match after_existence_check("/a/b".to_string(), false) {
        Step::Report(d) => {
            assert_eq!(parts(&d), (false, Some("/a/b"), None, Some("File does not exist")))
        }
        Step::Probe { path } => panic!("unexpected probe of {}", path),
    }
}

#[test]
fn find_reports_not_found_when_the_search_fails_to_match() {
    let d = find_on_search_path(&acme(), false, completed(false, ""), never_probe);
    assert_eq!(parts(&d), (false, None, None, Some("Acme Code not found in system PATH")));
}

#[test]
fn find_ignores_output_of_an_unsuccessful_search() {
    let d = find_on_search_path(&acme(), false, completed(false, "/usr/bin/acme\n"), never_probe);
    assert_eq!(parts(&d), (false, None, None, Some("Acme Code not found in system PATH")));
}

#[test]
fn find_reports_not_found_on_empty_output() {
    for output in ["", "\n", "   \n/usr/bin/acme\n", "\r\n", " \t \r\n"] {
        let d = find_on_search_path(&acme(), false, completed(true, output), never_probe);
        assert_eq!(
            parts(&d),
            (false, None, None, Some("Acme Code not found in system PATH")),
            "output {:?}",
            output
        );
    }
}

#[test]
fn find_reports_a_search_that_could_not_run() {
    let d = find_on_search_path(
        &acme(),
        true,
        |_plan| Lookup::Failed { reason: "program not found".to_string() },
        never_probe,
    );
    assert_eq!(
        parts(&d),
        (false, None, None, Some("Failed to search for Acme Code: program not found"))
    );
}

#[test]
fn find_probes_the_first_line_of_the_output() {
    let d = find_on_search_path(
        &acme(),
        true,
        completed(true, "C:\\Users\\me\\acme.cmd\r\nC:\\Users\\me\\acme\r\n"),
        |p| {
            assert_eq!(p, "C:\\Users\\me\\acme.cmd");
            Some("1.0.3 (Acme Code)".to_string())
        },
    );
    assert_eq!(
        parts(&d),
        (true, Some("C:\\Users\\me\\acme.cmd"), Some("1.0.3 (Acme Code)"), None)
    );
}

#[test]
fn find_does_not_trust_a_candidate_without_a_version() {
    let d = find_on_search_path(&acme(), false, completed(true, "/usr/bin/acme\n"), |_p| None);
    assert_eq!(
        parts(&d),
        (
            false,
            Some("/usr/bin/acme"),
            None,
            Some("File exists but does not appear to be Acme Code (could not get version)")
        )
    );
}

#[test]
fn find_runs_the_search_command_of_the_platform() {
    for (windows, program) in [(false, "which"), (true, "where")] {
        let d = find_on_search_path(
            &acme(),
            windows,
            |plan| {
                assert_eq!(plan.program, program);
                assert_eq!(plan.args, vec!["acme".to_string()]);
                Lookup::Completed { success: false, stdout: Vec::new() }
            },
            never_probe,
        );
        assert!(!d.found());
    }
}

#[test]
fn search_plan_names_the_locator_and_the_executable() {
    let unix = search_plan("acme", false);
    assert_eq!(unix.program, "which");
    assert_eq!(unix.args, vec!["acme".to_string()]);
    let windows = search_plan("acme", true);
    assert_eq!(windows.program, "where");
    assert_eq!(windows.args, vec!["acme".to_string()]);
}

#[test]
fn candidate_is_the_trimmed_first_line() {
    assert_eq!(candidate_in("/usr/bin/acme\n"), "/usr/bin/acme");
    assert_eq!(candidate_in("  /usr/bin/acme  \n/other\n"), "/usr/bin/acme");
    assert_eq!(candidate_in("/a b/acme"), "/a b/acme");
    assert_eq!(candidate_in("/x\r\n/y\r\n"), "/x");
    assert_eq!(candidate_in("\n/usr/bin/acme\n"), "");
    assert_eq!(candidate_in(""), "");
}

#[test]
fn after_search_needs_success_and_a_candidate() {
    assert!(matches!(after_search("Acme Code", true, "/bin/acme\n"), Step::Probe { path } if path == "/bin/acme"));
    assert!(matches!(after_search("Acme Code", false, "/bin/acme\n"), Step::Report(_)));
    assert!(matches!(after_search("Acme Code", true, " \n"), Step::Report(_)));
}

#[test]
fn after_lookup_decodes_the_output_lossily() {
    let stdout = vec![b'/', b'o', b'p', b't', b'/', 0xff, b'\n'];
    match after_lookup("Acme Code", Lookup::Completed { success: true, stdout }) {
        Step::Probe { path } => assert_eq!(path, "/opt/\u{FFFD}"),
        Step::Report(d) => panic!("unexpected report: {:?}", d),
    }
}

#[test]
fn after_probe_reports_found_only_with_a_version() {
    let found = after_probe("Acme Code", "/p".to_string(), Some("3.1".to_string()));
    assert_eq!(parts(&found), (true, Some("/p"), Some("3.1"), None));
    let not_found = after_probe("Acme Code", "/p".to_string(), None);
    assert!(!not_found.found());
    assert_eq!(not_found.path().as_deref(), Some("/p"));
    assert!(not_found.version().is_none());
    assert!(not_found.error().is_some());
}

#[test]
fn descriptors_hold_a_version_or_an_error() {
    let all = [
        ExecutableDescriptor::verified("/p".to_string(), "1".to_string()),
        ExecutableDescriptor::unverified("/p".to_string(), "Acme Code"),
        ExecutableDescriptor::missing("/p".to_string()),
        ExecutableDescriptor::not_found("Acme Code"),
        ExecutableDescriptor::search_failed("Acme Code", "x"),
    ];
    for d in all.iter() {
        assert_eq!(d.found(), d.version().is_some());
        assert_eq!(d.found(), d.error().is_none());
        if d.found() {
            assert!(d.path().is_some());
        }
    }
}

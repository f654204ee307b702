use mastra_supervisor::launch::{make_launch_plan, resolve_dev_source_components};
use mastra_supervisor::numfmt::u64_to_string;
use mastra_supervisor::ports::{port_probe_verdict, ReclaimOutcome};
use mastra_supervisor::reclaim::{
    classify_reclaim, dedup_pids, parse_lsof_pids, parse_netstat_pids, parse_pid_per_line,
    parse_u32,
};

#[test]
fn decimal_rendering() {
    assert_eq!(u64_to_string(0), "0");
    assert_eq!(u64_to_string(4111), "4111");
    assert_eq!(u64_to_string(65535), "65535");
    assert_eq!(u64_to_string(u64::MAX), "18446744073709551615");
}

#[test]
fn parse_u32_reads_numerals_only() {
    assert_eq!(parse_u32(b"0"), Some(0));
    assert_eq!(parse_u32(b"1234"), Some(1234));
    assert_eq!(parse_u32(b"4294967295"), Some(u32::MAX));
    assert_eq!(parse_u32(b"4294967296"), None);
    assert_eq!(parse_u32(b""), None);
    assert_eq!(parse_u32(b"12a4"), None);
    assert_eq!(parse_u32(b"-5"), None);
    assert_eq!(parse_u32(b" 5"), None);
}

#[test]
fn netstat_lines_yield_their_fifth_column() {
    let out = b"  TCP    0.0.0.0:8000    0.0.0.0:0    LISTENING    1234\r\n  TCP    [::]:8000    [::]:0    LISTENING    1234\nmalformed line\n";
    assert_eq!(parse_netstat_pids(out), vec![1234, 1234]);
}

#[test]
fn lsof_lines_yield_their_second_column_after_the_header() {
    let out = b"COMMAND   PID   USER   FD   TYPE\nnode    5678   u    23u  IPv4\nnode    5678   u    24u  IPv6\nnode    9012   u    25u  IPv4\n";
    assert_eq!(parse_lsof_pids(out), vec![5678, 5678, 9012]);
}

#[test]
fn lsof_header_alone_yields_nothing() {
    assert_eq!(parse_lsof_pids(b"COMMAND   PID   USER\n"), vec![]);
    assert_eq!(parse_lsof_pids(b""), vec![]);
}

#[test]
fn pid_per_line_trims_and_rejects_extra_tokens() {
    let out = b" 42 \r\n99\nnot-a-pid\n12 34\n\n7";
    assert_eq!(parse_pid_per_line(out), vec![42, 99, 7]);
}

#[test]
fn duplicate_pids_are_signalled_once() {
    let pids = vec![1234, 1234, 77, 1234, 77];
    assert_eq!(dedup_pids(&pids), vec![1234, 77]);
    let none: Vec<u32> = Vec::new();
    assert_eq!(dedup_pids(&none), vec![]);
}

#[test]
fn reclaim_is_reported_from_what_was_signalled() {
    assert_eq!(classify_reclaim(2, 1), ReclaimOutcome::Reclaimed);
    assert_eq!(classify_reclaim(2, 2), ReclaimOutcome::Reclaimed);
    assert_eq!(classify_reclaim(0, 0), ReclaimOutcome::NotFound);
    assert_eq!(classify_reclaim(3, 0), ReclaimOutcome::NotFound);
}

#[test]
fn probe_verdict_flags_any_failed_bind() {
    assert!(!port_probe_verdict(false, false, false));
    assert!(port_probe_verdict(true, false, false));
    assert!(port_probe_verdict(false, true, false));
    assert!(port_probe_verdict(false, false, true));
    assert!(port_probe_verdict(true, true, true));
}

#[test]
fn launch_plan_runs_the_entry_artifact_in_production() {
    let plan = make_launch_plan(true, 4111, String::from("/data/mastrax/index.mjs"));
    assert_eq!(plan.program, "/data/mastrax/index.mjs");
    assert!(plan.args.is_empty());
    assert_eq!(plan.port_env_value, "4111");
}

#[test]
fn launch_plan_runs_the_dev_task_in_development() {
    let plan = make_launch_plan(false, 8001, String::from("/usr/local/bin/bun"));
    assert_eq!(plan.program, "/usr/local/bin/bun");
    assert_eq!(plan.args, vec!["run", "dev"]);
    assert_eq!(plan.port_env_value, "8001");
}

#[test]
fn dev_source_dir_is_the_sibling_of_the_build_tooling_dir() {
    let cwd = vec![
        String::from("home"),
        String::from("app"),
        String::from("src-tauri"),
    ];
    assert_eq!(
        resolve_dev_source_components(&cwd),
        vec!["home", "app", "mastrax"]
    );

    let cwd = vec![String::from("home"), String::from("app")];
    assert_eq!(
        resolve_dev_source_components(&cwd),
        vec!["home", "app", "mastrax"]
    );

    let empty: Vec<String> = Vec::new();
    assert_eq!(resolve_dev_source_components(&empty), vec!["mastrax"]);
}

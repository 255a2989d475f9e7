use steeloxide::actions::{entry_path_of, procstat_command, query_command};
use steeloxide::record::{
    decimal_string, next_procstat, Facet, LookupError, PIDInfo, ProcEntries, Source, ToolOutput,
};

fn entries(exe: &str, root: &str, cwd: &str, cmdline: &str, environ: &str) -> ProcEntries {
    ProcEntries {
        exe: Some(exe.to_string()),
        root: Some(root.to_string()),
        cwd: Some(cwd.to_string()),
        cmdline: Some(cmdline.to_string()),
        environ: Some(environ.to_string()),
    }
}

fn ok_output(s: &str) -> ToolOutput {
    ToolOutput { success: true, stdout: s.to_string() }
}

fn procstat_outputs() -> Vec<ToolOutput> {
    vec![
        ok_output("  PID COMM                OSREL PATH\n 1234 evil              1300139 /tmp/evil\n"),
        ok_output("  PID COMM     CWD\n 1234 evil     /tmp\n"),
        ok_output("1234: evil --flag\nargv[0]: evil\nargv[1]: --flag\n"),
        ok_output("1234: evil\nenvp[0]: HOME=/root\n"),
    ]
}

#[test]
fn scenario_procfs_record_and_rendering() {
    let src = Source::Procfs(entries("/tmp/evil", "/", "/tmp", "evil\0--flag\0", "HOME=/root\0"));
    let rec = PIDInfo::new(1234, src).unwrap();
    assert_eq!(rec.pid, 1234);
    assert_eq!(rec.exe, "/tmp/evil");
    assert_eq!(rec.root, "/");
    assert_eq!(rec.cwd, "/tmp");
    assert!(rec.cmdline.contains("evil"));
    assert!(rec.cmdline.contains("--flag"));
    assert_eq!(rec.environ, "HOME=/root\0");
    assert_eq!(rec.render(), "1234 | /tmp/evil | / | /tmp | evil\0--flag\0");
}

#[test]
fn procfs_fields_equal_simulated_values() {
    let rec = PIDInfo::new(7, Source::Procfs(entries("/a b", "/r", "/c", "x\0", "E=1\0F=2\0"))).unwrap();
    assert_eq!(
        (rec.exe.as_str(), rec.root.as_str(), rec.cwd.as_str(), rec.cmdline.as_str(), rec.environ.as_str()),
        ("/a b", "/r", "/c", "x\0", "E=1\0F=2\0")
    );
}

#[test]
fn procfs_single_failed_read_fails_lookup() {
    let facets = [Facet::Exe, Facet::Root, Facet::Cwd, Facet::Cmdline, Facet::Environ];
    for (k, facet) in facets.iter().enumerate() {
        let mut e = entries("/tmp/evil", "/", "/tmp", "evil\0", "");
        match k {
            0 => e.exe = None,
            1 => e.root = None,
            2 => e.cwd = None,
            3 => e.cmdline = None,
            _ => e.environ = None,
        }
        let r = PIDInfo::new(1234, Source::Procfs(e));
        assert_eq!(r.err(), Some(LookupError::ReadFailed(*facet)));
    }
}

#[test]
fn repeated_lookups_give_identical_records() {
    let a = PIDInfo::new(1234, Source::Procfs(entries("/tmp/evil", "/", "/tmp", "evil\0", "X=1\0"))).unwrap();
    let b = PIDInfo::new(1234, Source::Procfs(entries("/tmp/evil", "/", "/tmp", "evil\0", "X=1\0"))).unwrap();
    assert_eq!(a.render(), b.render());
    assert_eq!(a.environ, b.environ);
    let c = PIDInfo::new(1234, Source::Procstat(procstat_outputs())).unwrap();
    let d = PIDInfo::new(1234, Source::Procstat(procstat_outputs())).unwrap();
    assert_eq!(c.render(), d.render());
    assert_eq!(c.environ, d.environ);
}

#[test]
fn procstat_lookup_parses_each_facet() {
    let rec = PIDInfo::new(1234, Source::Procstat(procstat_outputs())).unwrap();
    assert_eq!(rec.exe, "/tmp/evil");
    assert_eq!(rec.root, "N/A");
    assert_eq!(rec.cwd, "/tmp");
    assert_eq!(rec.cmdline, "[\"evil\", \"--flag\"]");
    assert_eq!(rec.environ, "[\"HOME=/root\"]");
}

#[test]
fn procstat_failed_run_fails_lookup() {
    let mut o = procstat_outputs();
    o[2].success = false;
    assert_eq!(PIDInfo::new(1, Source::Procstat(o)).err(), Some(LookupError::ToolFailed(Facet::Cmdline)));
    let mut o = procstat_outputs();
    o[0].success = false;
    assert_eq!(PIDInfo::new(1, Source::Procstat(o)).err(), Some(LookupError::ToolFailed(Facet::Exe)));
    let mut o = procstat_outputs();
    o[1].success = false;
    assert_eq!(PIDInfo::new(1, Source::Procstat(o)).err(), Some(LookupError::ToolFailed(Facet::Cwd)));
    let mut o = procstat_outputs();
    o[3].success = false;
    assert_eq!(PIDInfo::new(1, Source::Procstat(o)).err(), Some(LookupError::ToolFailed(Facet::Environ)));
}

#[test]
fn procstat_empty_binary_output_is_malformed() {
    let mut o = procstat_outputs();
    o[0] = ok_output("  \n ");
    assert_eq!(PIDInfo::new(1, Source::Procstat(o)).err(), Some(LookupError::Malformed(Facet::Exe)));
    let mut o = procstat_outputs();
    o[1] = ok_output("");
    assert_eq!(PIDInfo::new(1, Source::Procstat(o)).err(), Some(LookupError::Malformed(Facet::Cwd)));
}

#[test]
fn procstat_header_only_gives_empty_lists() {
    let mut o = procstat_outputs();
    o[2] = ok_output("1234: evil");
    o[3] = ok_output("1234: evil\nno colon here\n");
    let rec = PIDInfo::new(1234, Source::Procstat(o)).unwrap();
    assert_eq!(rec.cmdline, "[]");
    assert_eq!(rec.environ, "[]");
}

#[test]
fn query_lookup_assigns_by_label() {
    let out = ok_output(
        "\r\nExecutablePath : C:\\evil\\evil.exe\r\nCommandLine    : evil.exe --flag\r\nOther: x\r\nnoise\r\n\r\n",
    );
    let rec = PIDInfo::new(42, Source::Wmi(out)).unwrap();
    assert_eq!(rec.exe, "C:\\evil\\evil.exe");
    assert_eq!(rec.cmdline, "evil.exe --flag");
    assert_eq!(rec.root, "N/A");
    assert_eq!(rec.cwd, "N/A");
    assert_eq!(rec.environ, "N/A");
    assert_eq!(rec.render(), "42 | C:\\evil\\evil.exe | N/A | N/A | evil.exe --flag");
}

#[test]
fn query_lookup_without_labels_reports_unavailable() {
    let rec = PIDInfo::new(42, Source::Wmi(ok_output("nothing useful\r\n"))).unwrap();
    assert_eq!(rec.exe, "N/A");
    assert_eq!(rec.cmdline, "N/A");
}

#[test]
fn query_lookup_failure() {
    let out = ToolOutput { success: false, stdout: "ExecutablePath : C:\\x.exe\r\n".to_string() };
    assert_eq!(PIDInfo::new(42, Source::Wmi(out)).err(), Some(LookupError::ToolFailed(Facet::Exe)));
}

#[test]
fn decimal_rendering() {
    assert_eq!(decimal_string(0), "0");
    assert_eq!(decimal_string(9), "9");
    assert_eq!(decimal_string(10), "10");
    assert_eq!(decimal_string(1234), "1234");
    assert_eq!(decimal_string(u64::MAX), "18446744073709551615");
}

#[test]
fn lookup_invocations() {
    assert_eq!(entry_path_of(1234, Facet::Exe), "/proc/1234/exe");
    assert_eq!(entry_path_of(1234, Facet::Environ), "/proc/1234/environ");
    assert_eq!(entry_path_of(5, Facet::Root), "/proc/5/root");
    let i = procstat_command(1234, Facet::Cmdline).unwrap();
    assert_eq!(i.program, "procstat");
    assert_eq!(i.args, vec!["pargs".to_string(), "1234".to_string()]);
    assert_eq!(procstat_command(1234, Facet::Exe).unwrap().args[0], "-b");
    assert!(procstat_command(1234, Facet::Root).is_none());
    let q = query_command(77);
    assert_eq!(q.program, "powershell");
    assert_eq!(
        q.args,
        vec![
            "-ExecutionPolicy".to_string(),
            "Bypass".to_string(),
            "Get-WmiObject Win32_Process -Filter \"ProcessId = 77\" | Select-Object ExecutablePath, CommandLine | Format-List".to_string(),
        ]
    );
}

#[test]
fn procstat_header_never_gives_the_word() {
    let mut o = procstat_outputs();
    o[0] = ok_output("  PID COMM                OSREL PATH\n");
    assert_eq!(PIDInfo::new(1, Source::Procstat(o)).err(), Some(LookupError::Malformed(Facet::Exe)));
    let mut o = procstat_outputs();
    o[1] = ok_output("  PID COMM     CWD");
    assert_eq!(PIDInfo::new(1, Source::Procstat(o)).err(), Some(LookupError::Malformed(Facet::Cwd)));
}

#[test]
fn procstat_missing_runs_fail_lookup() {
    let mut o = procstat_outputs();
    o.truncate(3);
    assert_eq!(PIDInfo::new(1, Source::Procstat(o)).err(), Some(LookupError::ToolFailed(Facet::Environ)));
    assert_eq!(PIDInfo::new(1, Source::Procstat(Vec::new())).err(), Some(LookupError::ToolFailed(Facet::Exe)));
}

#[test]
fn procstat_runs_in_order_and_stop_after_failure() {
    let mut runs: Vec<ToolOutput> = Vec::new();
    assert_eq!(next_procstat(&runs), Some(Facet::Exe));
    runs.push(ok_output("h\n1 evil /tmp/evil"));
    assert_eq!(next_procstat(&runs), Some(Facet::Cwd));
    runs.push(ok_output("h\n1 /tmp"));
    assert_eq!(next_procstat(&runs), Some(Facet::Cmdline));
    runs.push(ToolOutput { success: false, stdout: String::new() });
    assert_eq!(next_procstat(&runs), None);
    runs.pop();
    runs.push(ok_output("h"));
    assert_eq!(next_procstat(&runs), Some(Facet::Environ));
    runs.push(ok_output("h"));
    assert_eq!(next_procstat(&runs), None);
    let first_failed = vec![ToolOutput { success: false, stdout: String::new() }];
    assert_eq!(next_procstat(&first_failed), None);
}

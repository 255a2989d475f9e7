use steeloxide::actions::Family;
use steeloxide::record::PIDInfo;

fn record(pid: u64, exe: &str) -> PIDInfo {
    PIDInfo {
        pid,
        exe: exe.to_string(),
        root: "/".to_string(),
        cwd: "/tmp".to_string(),
        cmdline: "evil\0".to_string(),
        environ: String::new(),
    }
}

#[test]
fn scenario_quarantine_move_ok_chmod_fails() {
    let rec = record(1234, "/tmp/evil");
    let out = rec.quarantine(true, false);
    assert!(out.moved.success);
    assert_eq!(out.moved.diagnostic, None);
    assert!(!out.locked.success);
    assert_eq!(out.locked.diagnostic, Some("Failed to chmod exe /tmp/evil".to_string()));
    assert!(!out.success());
}

#[test]
fn quarantine_move_fails_chmod_ok() {
    let rec = record(1234, "/tmp/evil");
    let out = rec.quarantine(false, true);
    assert!(!out.moved.success);
    assert_eq!(out.moved.diagnostic, Some("Failed to move exe /tmp/evil".to_string()));
    assert!(out.locked.success);
    assert_eq!(out.locked.diagnostic, None);
    assert!(!out.success());
    let both = rec.quarantine(true, true);
    assert!(both.success());
}

#[test]
fn permission_step_targets_original_path() {
    let rec = record(1234, "/tmp/evil");
    let lock = rec.lock_command(Family::Linux);
    assert_eq!(lock.program, "chmod");
    assert_eq!(lock.args, vec!["444".to_string(), "/tmp/evil".to_string()]);
    let lock = rec.lock_command(Family::FreeBsd);
    assert_eq!(lock.args[1], "/tmp/evil");
    let lock = rec.lock_command(Family::Windows);
    assert_eq!(lock.program, "icacls");
    assert_eq!(
        lock.args,
        vec!["/tmp/evil".to_string(), "/deny".to_string(), "*S-1-1-0:(X,W)".to_string()]
    );
    let mv = rec.move_command(Family::Linux);
    assert_eq!(mv.program, "mv");
    assert_eq!(mv.args, vec!["/tmp/evil".to_string(), "./quarantine".to_string()]);
    let mv = rec.move_command(Family::Windows);
    assert_eq!(mv.program, "move");
    assert_eq!(mv.args, vec!["/tmp/evil".to_string(), ".\\quarantine".to_string()]);
}

#[test]
fn windows_quarantine_runs_both_steps() {
    let rec = record(9, "C:\\evil.exe");
    let lock = rec.lock_command(Family::Windows);
    assert_eq!(lock.args[0], "C:\\evil.exe");
    let out = rec.quarantine(false, true);
    assert!(!out.moved.success);
    assert_eq!(out.moved.diagnostic, Some("Failed to move exe C:\\evil.exe".to_string()));
    assert!(out.locked.success);
    assert_eq!(out.locked.diagnostic, None);
}

#[test]
fn terminate_commands_and_outcomes() {
    let rec = record(1234, "/tmp/evil");
    let k = rec.kill_command(Family::Linux);
    assert_eq!(k.program, "kill");
    assert_eq!(k.args, vec!["-9".to_string(), "1234".to_string()]);
    let k = rec.kill_command(Family::Windows);
    assert_eq!(k.program, "taskkill");
    assert_eq!(k.args, vec!["/PID".to_string(), "1234".to_string(), "/F".to_string()]);
    let ok = rec.terminate(true);
    assert!(ok.success);
    assert_eq!(ok.diagnostic, None);
    let failed = rec.terminate(false);
    assert!(!failed.success);
    assert_eq!(failed.diagnostic, Some("Failed to terminate PID 1234".to_string()));
}

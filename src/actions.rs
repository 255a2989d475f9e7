//! The commands that the platform tools are run with, and the outcomes of
//! the corrective actions on a record.
use vstd::prelude::*;
use crate::record::{decimal, decimal_string, Facet, PIDInfo, RecordModel};
use crate::text::views;

verus! {

/// The operating-system family that the program was built for.
#[derive(PartialEq, Eq, Structural, Clone, Copy, Debug)]
pub enum Family {
    Linux,
    FreeBsd,
    Windows,
}

/// A program to run, with its arguments.
pub struct Invocation {
    pub program: String,
    pub args: Vec<String>,
}

impl View for Invocation {
    type V = (Seq<char>, Seq<Seq<char>>);

    open spec fn view(&self) -> (Seq<char>, Seq<Seq<char>>) {
        (self.program@, views(self.args@))
    }
}

/// The outcome of one step of an action: whether it succeeded, and a
/// diagnostic for the log where it did not.
pub struct ActionOutcome {
    pub success: bool,
    pub diagnostic: Option<String>,
}

impl View for ActionOutcome {
    type V = (bool, Option<Seq<char>>);

    open spec fn view(&self) -> (bool, Option<Seq<char>>) {
        (self.success, match self.diagnostic {
            Some(d) => Some(d@),
            None => None,
        })
    }
}

/// The outcome of a quarantine: its move step and its permission step, each
/// kept on its own.
pub struct QuarantineOutcome {
    pub moved: ActionOutcome,
    pub locked: ActionOutcome,
}

/// A step that succeeded when `ok`, and otherwise failed with `failure`.
pub open spec fn step(ok: bool, failure: Seq<char>) -> (bool, Option<Seq<char>>) {
    if ok {
        (true, None)
    } else {
        (false, Some(failure))
    }
}

/// The name of a facet's pseudo-filesystem entry.
pub open spec fn entry_name(f: Facet) -> Seq<char> {
    match f {
        Facet::Exe => "exe"@,
        Facet::Root => "root"@,
        Facet::Cwd => "cwd"@,
        Facet::Cmdline => "cmdline"@,
        Facet::Environ => "environ"@,
    }
}

/// The pseudo-filesystem path of a facet of process `pid`.
pub open spec fn entry_path(pid: u64, f: Facet) -> Seq<char> {
    "/proc/"@ + decimal(pid as nat) + "/"@ + entry_name(f)
}

/// The process-status tool's sub-command for a facet; the root has none.
pub open spec fn procstat_option(f: Facet) -> Option<Seq<char>> {
    match f {
        Facet::Exe => Some("-b"@),
        Facet::Root => None,
        Facet::Cwd => Some("pwdx"@),
        Facet::Cmdline => Some("pargs"@),
        Facet::Environ => Some("penv"@),
    }
}

/// The administrative query for the executable path and command line of `pid`.
pub open spec fn query_text(pid: u64) -> Seq<char> {
    "Get-WmiObject Win32_Process -Filter \"ProcessId = "@ + decimal(pid as nat)
        + "\" | Select-Object ExecutablePath, CommandLine | Format-List"@
}

/// The forced termination of `pid`.
pub open spec fn kill_invocation(pid: u64, family: Family) -> (Seq<char>, Seq<Seq<char>>) {
    match family {
        Family::Windows => ("taskkill"@, seq!["/PID"@, decimal(pid as nat), "/F"@]),
        _ => ("kill"@, seq!["-9"@, decimal(pid as nat)]),
    }
}

/// The move of `exe` into the quarantine directory.
pub open spec fn move_invocation(exe: Seq<char>, family: Family) -> (Seq<char>, Seq<Seq<char>>) {
    match family {
        Family::Windows => ("move"@, seq![exe, ".\\quarantine"@]),
        _ => ("mv"@, seq![exe, "./quarantine"@]),
    }
}

/// The removal of write and execute permission from `exe`: on Windows a
/// deny entry for everyone, elsewhere a read-only mode.
pub open spec fn lock_invocation(exe: Seq<char>, family: Family) -> (Seq<char>, Seq<Seq<char>>) {
    match family {
        Family::Windows => ("icacls"@, seq![exe, "/deny"@, "*S-1-1-0:(X,W)"@]),
        _ => ("chmod"@, seq!["444"@, exe]),
    }
}

/// The diagnostic of a failed termination.
pub open spec fn kill_failure(pid: u64) -> Seq<char> {
    "Failed to terminate PID "@ + decimal(pid as nat)
}

/// The diagnostic of a failed move.
pub open spec fn move_failure(exe: Seq<char>) -> Seq<char> {
    "Failed to move exe "@ + exe
}

/// The diagnostic of a failed permission change.
pub open spec fn lock_failure(exe: Seq<char>) -> Seq<char> {
    "Failed to chmod exe "@ + exe
}

/// The outcome of a quarantine of `rec`, from the move's result and the
/// permission step's result.
pub open spec fn quarantine_model(rec: RecordModel, moved: bool, locked: bool) -> (
    (bool, Option<Seq<char>>),
    (bool, Option<Seq<char>>),
) {
    (step(moved, move_failure(rec.exe)), step(locked, lock_failure(rec.exe)))
}

fn outcome(ok: bool, failure: String) -> (r: ActionOutcome)
    ensures
        r@ == step(ok, failure@),
{
    if ok {
        ActionOutcome { success: true, diagnostic: None }
    } else {
        ActionOutcome { success: false, diagnostic: Some(failure) }
    }
}

fn joined(a: &str, b: &str) -> (r: String)
    ensures
        r@ == a@ + b@,
{
    let mut s = a.to_string();
    s.append(b);
    s
}

fn entry_name_str(f: Facet) -> (r: &'static str)
    ensures
        r@ == entry_name(f),
{
    match f {
        Facet::Exe => "exe",
        Facet::Root => "root",
        Facet::Cwd => "cwd",
        Facet::Cmdline => "cmdline",
        Facet::Environ => "environ",
    }
}

/// The pseudo-filesystem path of a facet of process `pid`.
pub fn entry_path_of(pid: u64, facet: Facet) -> (r: String)
    ensures
        r@ == entry_path(pid, facet),
{
    let mut s = "/proc/".to_string();
    let n = decimal_string(pid);
    s.append(n.as_str());
    s.append("/");
    s.append(entry_name_str(facet));
    s
}

/// The run of the process-status tool that reports a facet of `pid`; the
/// root has none.
pub fn procstat_command(pid: u64, facet: Facet) -> (r: Option<Invocation>)
    ensures
        match procstat_option(facet) {
            Some(opt) => r matches Some(i) && i@ == ("procstat"@, seq![opt, decimal(pid as nat)]),
            None => r is None,
        },
{
    let opt = match facet {
        Facet::Exe => "-b",
        Facet::Root => {
            return None;
        },
        Facet::Cwd => "pwdx",
        Facet::Cmdline => "pargs",
        Facet::Environ => "penv",
    };
    let args = vec![opt.to_string(), decimal_string(pid)];
    let r = Invocation { program: "procstat".to_string(), args };
    assert(r@.1 =~= seq![opt@, decimal(pid as nat)]);
    Some(r)
}

/// The administrative query for the executable path and command line of `pid`.
pub fn query_command(pid: u64) -> (r: Invocation)
    ensures
        r@ == ("powershell"@, seq!["-ExecutionPolicy"@, "Bypass"@, query_text(pid)]),
{
    let mut q = "Get-WmiObject Win32_Process -Filter \"ProcessId = ".to_string();
    let n = decimal_string(pid);
    q.append(n.as_str());
    q.append("\" | Select-Object ExecutablePath, CommandLine | Format-List");
    let args = vec!["-ExecutionPolicy".to_string(), "Bypass".to_string(), q];
    let r = Invocation { program: "powershell".to_string(), args };
    assert(r@.1 =~= seq!["-ExecutionPolicy"@, "Bypass"@, query_text(pid)]);
    r
}

impl QuarantineOutcome {
    /// Whether both steps succeeded.
    pub fn success(&self) -> (r: bool)
        ensures
            r == (self.moved.success && self.locked.success),
    {
        self.moved.success && self.locked.success
    }
}

impl PIDInfo {
    /// The forced termination of this record's process.
    pub fn kill_command(&self, family: Family) -> (r: Invocation)
        ensures
            r@ == kill_invocation(self.pid, family),
    {
        let n = decimal_string(self.pid);
        let r = match family {
            Family::Windows => Invocation {
                program: "taskkill".to_string(),
                args: vec!["/PID".to_string(), n, "/F".to_string()],
            },
            _ => Invocation { program: "kill".to_string(), args: vec!["-9".to_string(), n] },
        };
        assert(r@.1 =~= kill_invocation(self.pid, family).1);
        r
    }

    /// The outcome of a termination whose kill request succeeded when
    /// `killed`; a failure names the pid.
    pub fn terminate(&self, killed: bool) -> (r: ActionOutcome)
        ensures
            r@ == step(killed, kill_failure(self.pid)),
    {
        let n = decimal_string(self.pid);
        outcome(killed, joined("Failed to terminate PID ", n.as_str()))
    }

    /// The move of this record's executable into the quarantine directory.
    pub fn move_command(&self, family: Family) -> (r: Invocation)
        ensures
            r@ == move_invocation(self.exe@, family),
    {
        let exe = self.exe.clone();
        let r = match family {
            Family::Windows => Invocation {
                program: "move".to_string(),
                args: vec![exe, ".\\quarantine".to_string()],
            },
            _ => Invocation { program: "mv".to_string(), args: vec![exe, "./quarantine".to_string()] },
        };
        assert(r@.1 =~= move_invocation(self.exe@, family).1);
        r
    }

    /// The removal of write and execute permission from the executable's
    /// recorded path, run whatever became of the move.
    pub fn lock_command(&self, family: Family) -> (r: Invocation)
        ensures
            r@ == lock_invocation(self.exe@, family),
    {
        let exe = self.exe.clone();
        let r = match family {
            Family::Windows => Invocation {
                program: "icacls".to_string(),
                args: vec![exe, "/deny".to_string(), "*S-1-1-0:(X,W)".to_string()],
            },
            _ => Invocation { program: "chmod".to_string(), args: vec!["444".to_string(), exe] },
        };
        assert(r@.1 =~= lock_invocation(self.exe@, family).1);
        r
    }

    /// The outcome of a quarantine, from the move's result and the
    /// permission step's result. Each step keeps its own outcome.
    pub fn quarantine(&self, moved: bool, locked: bool) -> (r: QuarantineOutcome)
        ensures
            (r.moved@, r.locked@) == quarantine_model(self@, moved, locked),
    {
        let move_step = outcome(moved, joined("Failed to move exe ", self.exe.as_str()));
        let lock_step = outcome(locked, joined("Failed to chmod exe ", self.exe.as_str()));
        QuarantineOutcome { moved: move_step, locked: lock_step }
    }
}

/// The two steps of a quarantine are reported apart, each by its own result:
/// a failed move leaves the permission step's outcome as it is, and the
/// reverse. The permission step targets the recorded path, whatever became
/// of the move, on every platform.
pub proof fn lemma_quarantine_independent(
    rec: RecordModel,
    family: Family,
    moved: bool,
    locked: bool,
    other_moved: bool,
    other_locked: bool,
)
    ensures
        quarantine_model(rec, moved, locked).0 == step(moved, move_failure(rec.exe)),
        quarantine_model(rec, moved, locked).1 == step(locked, lock_failure(rec.exe)),
        quarantine_model(rec, moved, locked).1 == quarantine_model(rec, other_moved, locked).1,
        quarantine_model(rec, moved, locked).0 == quarantine_model(rec, moved, other_locked).0,
        lock_invocation(rec.exe, family).1.contains(rec.exe),
{
    let args = lock_invocation(rec.exe, family).1;
    match family {
        Family::Windows => assert(args[0] == rec.exe),
        _ => assert(args[1] == rec.exe),
    }
}

} // verus!

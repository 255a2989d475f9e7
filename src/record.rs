//! The forensic record of one process, and the three ways of locating it.
use vstd::prelude::*;
use crate::text::{
    after_header, data_rows, data_rows_of, labelled_rows, label_of, last_word, last_word_after_header,
    lemma_label_line, pair_views, rows, split_on, views, white_space,
};

verus! {

/// The decimal digits, in order.
pub open spec fn digits() -> Seq<char> {
    seq!['0', '1', '2', '3', '4', '5', '6', '7', '8', '9']
}

/// The decimal rendering of `n`, without sign or leading zeros.
pub open spec fn decimal(n: nat) -> Seq<char>
    decreases n,
{
    if n < 10 {
        seq![digits()[n as int]]
    } else {
        decimal(n / 10).push(digits()[(n % 10) as int])
    }
}

/// The text that stands for a facet that cannot be observed.
pub open spec fn unavailable() -> Seq<char> {
    seq!['N', '/', 'A']
}

/// The separator of the single-line rendering.
pub open spec fn bar() -> Seq<char> {
    seq![' ', '|', ' ']
}

/// The decimal rendering of `n`.
pub fn decimal_string(n: u64) -> (r: String)
    ensures
        r@ == decimal(n as nat),
    decreases n,
{
    let all = "0123456789";
    proof {
        reveal_strlit("0123456789");
        assert(all@ =~= digits());
    }
    let d = (n % 10) as usize;
    let last = all.substring_char(d, d + 1);
    assert(last@ =~= seq![digits()[d as int]]);
    if n < 10 {
        last.to_string()
    } else {
        let mut s = decimal_string(n / 10);
        s.append(last);
        assert(s@ =~= decimal(n as nat));
        s
    }
}

/// The text that stands for a facet that cannot be observed.
pub fn unavailable_string() -> (r: String)
    ensures
        r@ == unavailable(),
{
    let s = "N/A";
    proof {
        reveal_strlit("N/A");
    }
    assert(s@ =~= unavailable());
    s.to_string()
}

/// A facet of a process's record.
#[derive(PartialEq, Eq, Structural, Clone, Copy, Debug)]
pub enum Facet {
    Exe,
    Root,
    Cwd,
    Cmdline,
    Environ,
}

/// Why a lookup gave no record.
#[derive(PartialEq, Eq, Structural, Clone, Copy, Debug)]
pub enum LookupError {
    /// A pseudo-filesystem entry could not be read.
    ReadFailed(Facet),
    /// A platform tool ended with a failure status.
    ToolFailed(Facet),
    /// A platform tool's output did not hold the expected value.
    Malformed(Facet),
}

/// What one run of a platform tool produced.
pub struct ToolOutput {
    pub success: bool,
    pub stdout: String,
}

/// The pseudo-filesystem entries of a process, each `None` where its read failed.
pub struct ProcEntries {
    pub exe: Option<String>,
    pub root: Option<String>,
    pub cwd: Option<String>,
    pub cmdline: Option<String>,
    pub environ: Option<String>,
}

/// What the platform gave about a process, in the shape of its strategy.
pub enum Source {
    /// Direct introspection of the process's pseudo-filesystem entries.
    Procfs(ProcEntries),
    /// The runs of the process-status tool, in the order that
    /// `next_procstat` gives: binary path, working directory, arguments,
    /// environment. The runs stop after the first that failed.
    Procstat(Vec<ToolOutput>),
    /// One administrative query for the executable path and command line.
    Wmi(ToolOutput),
}

/// The model of a record.
pub ghost struct RecordModel {
    pub pid: u64,
    pub exe: Seq<char>,
    pub root: Seq<char>,
    pub cwd: Seq<char>,
    pub cmdline: Seq<char>,
    pub environ: Seq<char>,
}

/// A snapshot of one process: binary path, filesystem root, working
/// directory, command line and environment.
pub struct PIDInfo {
    pub pid: u64,
    pub exe: String,
    pub root: String,
    pub cwd: String,
    pub cmdline: String,
    pub environ: String,
}

impl View for PIDInfo {
    type V = RecordModel;

    open spec fn view(&self) -> RecordModel {
        RecordModel {
            pid: self.pid,
            exe: self.exe@,
            root: self.root@,
            cwd: self.cwd@,
            cmdline: self.cmdline@,
            environ: self.environ@,
        }
    }
}

/// The Rust debug rendering of a list of strings.
pub uninterp spec fn debug_list(items: Seq<Seq<char>>) -> Seq<char>;

/// Relies on the `Debug` impl of `Vec<String>` through `format!("{:?}")`: the
/// rendering depends on the strings alone, and an empty list renders as `[]`.
#[verifier::external_body]
fn debug_list_string(items: &Vec<String>) -> (r: String)
    ensures
        r@ == debug_list(views(items@)),
        items@.len() == 0 ==> r@ == seq!['[', ']'],
{
    format!("{:?}", items)
}

/// The values of labelled rows, in order.
pub open spec fn values(rows: Seq<(Seq<char>, Seq<char>)>) -> Seq<Seq<char>> {
    rows.map_values(|p: (Seq<char>, Seq<char>)| p.1)
}

/// The value of the last row labelled `label`, or `default` where none is.
pub open spec fn field(rows: Seq<(Seq<char>, Seq<char>)>, label: Seq<char>, default: Seq<char>) -> Seq<char>
    decreases rows.len(),
{
    if rows.len() == 0 {
        default
    } else if rows.last().0 == label {
        rows.last().1
    } else {
        field(rows.drop_last(), label, default)
    }
}

/// The label of the executable path in the administrative query's answer.
pub open spec fn exe_label() -> Seq<char> {
    seq!['E', 'x', 'e', 'c', 'u', 't', 'a', 'b', 'l', 'e', 'P', 'a', 't', 'h']
}

/// The label of the command line in the administrative query's answer.
pub open spec fn cmdline_label() -> Seq<char> {
    seq!['C', 'o', 'm', 'm', 'a', 'n', 'd', 'L', 'i', 'n', 'e']
}

/// The line terminator of the administrative query's answer.
pub open spec fn crlf() -> Seq<char> {
    seq!['\r', '\n']
}

/// The lookup from pseudo-filesystem entries.
pub open spec fn from_entries(pid: u64, e: ProcEntries) -> Result<RecordModel, LookupError> {
    if e.exe is None {
        Err(LookupError::ReadFailed(Facet::Exe))
    } else if e.root is None {
        Err(LookupError::ReadFailed(Facet::Root))
    } else if e.cwd is None {
        Err(LookupError::ReadFailed(Facet::Cwd))
    } else if e.cmdline is None {
        Err(LookupError::ReadFailed(Facet::Cmdline))
    } else if e.environ is None {
        Err(LookupError::ReadFailed(Facet::Environ))
    } else {
        Ok(RecordModel {
            pid,
            exe: e.exe->0@,
            root: e.root->0@,
            cwd: e.cwd->0@,
            cmdline: e.cmdline->0@,
            environ: e.environ->0@,
        })
    }
}

/// The facets that the process-status tool is run for, in order.
pub open spec fn procstat_order() -> Seq<Facet> {
    seq![Facet::Exe, Facet::Cwd, Facet::Cmdline, Facet::Environ]
}

/// Whether the `i`-th run of the process-status tool took place and succeeded.
pub open spec fn run_ok(runs: Seq<ToolOutput>, i: int) -> bool {
    0 <= i < runs.len() && runs[i].success
}

/// The facet that the process-status tool is run for next, after `runs`:
/// none once a run has failed or all four have succeeded.
pub open spec fn next_run(runs: Seq<ToolOutput>) -> Option<Facet> {
    if runs.len() > 0 && !runs.last().success {
        None
    } else if runs.len() < 4 {
        Some(procstat_order()[runs.len() as int])
    } else {
        None
    }
}

/// The lookup from the process-status tool's runs. The binary path and the
/// working directory are the last word after the header line of their
/// outputs; the arguments and environment are the values of the data rows
/// after the header. A run that failed or never took place fails the lookup.
pub open spec fn from_procstat(pid: u64, runs: Seq<ToolOutput>) -> Result<RecordModel, LookupError> {
    if !run_ok(runs, 0) {
        Err(LookupError::ToolFailed(Facet::Exe))
    } else if last_word(after_header(runs[0].stdout@)) is None {
        Err(LookupError::Malformed(Facet::Exe))
    } else if !run_ok(runs, 1) {
        Err(LookupError::ToolFailed(Facet::Cwd))
    } else if last_word(after_header(runs[1].stdout@)) is None {
        Err(LookupError::Malformed(Facet::Cwd))
    } else if !run_ok(runs, 2) {
        Err(LookupError::ToolFailed(Facet::Cmdline))
    } else if !run_ok(runs, 3) {
        Err(LookupError::ToolFailed(Facet::Environ))
    } else {
        Ok(RecordModel {
            pid,
            exe: last_word(after_header(runs[0].stdout@))->0,
            root: unavailable(),
            cwd: last_word(after_header(runs[1].stdout@))->0,
            cmdline: debug_list(values(data_rows_of(split_on(runs[2].stdout@, seq!['\n'])))),
            environ: debug_list(values(data_rows_of(split_on(runs[3].stdout@, seq!['\n'])))),
        })
    }
}

/// Whether a block, after its header line, holds no labelled row.
pub open spec fn no_rows(out: Seq<char>) -> bool {
    data_rows_of(split_on(out, seq!['\n'])).len() == 0
}

/// The lookup from the administrative query's answer.
pub open spec fn from_query(pid: u64, o: ToolOutput) -> Result<RecordModel, LookupError> {
    if !o.success {
        Err(LookupError::ToolFailed(Facet::Exe))
    } else {
        let r = rows(split_on(o.stdout@, crlf()));
        Ok(RecordModel {
            pid,
            exe: field(r, exe_label(), unavailable()),
            root: unavailable(),
            cwd: unavailable(),
            cmdline: field(r, cmdline_label(), unavailable()),
            environ: unavailable(),
        })
    }
}

/// The record, or the failure, that a lookup of `pid` gives from `src`.
pub open spec fn located(pid: u64, src: Source) -> Result<RecordModel, LookupError> {
    match src {
        Source::Procfs(e) => from_entries(pid, e),
        Source::Procstat(o) => from_procstat(pid, o@),
        Source::Wmi(o) => from_query(pid, o),
    }
}

/// The model of a lookup's result.
pub open spec fn result_view(r: Result<PIDInfo, LookupError>) -> Result<RecordModel, LookupError> {
    match r {
        Ok(p) => Ok(p@),
        Err(e) => Err(e),
    }
}

/// The single-line rendering of a record: pid, binary path, root, working
/// directory and command line, separated by bars; the environment is left out.
pub open spec fn rendering(m: RecordModel) -> Seq<char> {
    decimal(m.pid as nat) + bar() + m.exe + bar() + m.root + bar() + m.cwd + bar() + m.cmdline
}

/// The values of `rows`, in order.
fn values_of(rows: &Vec<(String, String)>) -> (r: Vec<String>)
    ensures
        views(r@) == values(pair_views(rows@)),
{
    let mut out: Vec<String> = Vec::new();
    let mut i: usize = 0;
    while i < rows.len()
        invariant
            i <= rows@.len(),
            views(out@) == values(pair_views(rows@)).subrange(0, i as int),
        decreases rows@.len() - i,
    {
        let ghost before = out@;
        let v = rows[i].1.clone();
        assert(v@ == values(pair_views(rows@))[i as int]);
        out.push(v);
        assert(views(out@) =~= views(before).push(v@));
        i = i + 1;
        assert(views(out@) =~= values(pair_views(rows@)).subrange(0, i as int));
    }
    assert(values(pair_views(rows@)).subrange(0, i as int) =~= values(pair_views(rows@)));
    out
}

/// The value of the last row labelled `label`, or `default` where none is.
fn field_value(rows: &Vec<(String, String)>, label: &String, default: String) -> (r: String)
    ensures
        r@ == field(pair_views(rows@), label@, default@),
{
    let mut cur = default;
    let mut i: usize = 0;
    while i < rows.len()
        invariant
            i <= rows@.len(),
            cur@ == field(pair_views(rows@).subrange(0, i as int), label@, default@),
        decreases rows@.len() - i,
    {
        proof {
            let s = pair_views(rows@).subrange(0, i + 1);
            assert(s.drop_last() =~= pair_views(rows@).subrange(0, i as int));
            assert(s.last() == (rows@[i as int].0@, rows@[i as int].1@));
        }
        if rows[i].0 == *label {
            cur = rows[i].1.clone();
        }
        i = i + 1;
    }
    assert(pair_views(rows@).subrange(0, i as int) =~= pair_views(rows@));
    cur
}

/// The facet that the process-status tool is run for next, after `runs`;
/// `None` once a run has failed or all four have succeeded.
pub fn next_procstat(runs: &Vec<ToolOutput>) -> (r: Option<Facet>)
    ensures
        r == next_run(runs@),
{
    let n = runs.len();
    if n > 0 && !runs[n - 1].success {
        None
    } else if n == 0 {
        Some(Facet::Exe)
    } else if n == 1 {
        Some(Facet::Cwd)
    } else if n == 2 {
        Some(Facet::Cmdline)
    } else if n == 3 {
        Some(Facet::Environ)
    } else {
        None
    }
}

fn take(v: Option<String>, facet: Facet) -> (r: Result<String, LookupError>)
    ensures
        match v {
            Some(s) => r == Ok::<String, LookupError>(s),
            None => r == Err::<String, LookupError>(LookupError::ReadFailed(facet)),
        },
{
    match v {
        Some(s) => Ok(s),
        None => Err(LookupError::ReadFailed(facet)),
    }
}

impl PIDInfo {
    fn from_entries(pid: u64, e: ProcEntries) -> (r: Result<PIDInfo, LookupError>)
        ensures
            result_view(r) == from_entries(pid, e),
    {
        let ProcEntries { exe, root, cwd, cmdline, environ } = e;
        let exe = take(exe, Facet::Exe)?;
        let root = take(root, Facet::Root)?;
        let cwd = take(cwd, Facet::Cwd)?;
        let cmdline = take(cmdline, Facet::Cmdline)?;
        let environ = take(environ, Facet::Environ)?;
        Ok(PIDInfo { pid, exe, root, cwd, cmdline, environ })
    }

    fn from_procstat(pid: u64, runs: Vec<ToolOutput>) -> (r: Result<PIDInfo, LookupError>)
        ensures
            result_view(r) == from_procstat(pid, runs@),
            r is Ok && no_rows(runs@[2].stdout@) ==> r->Ok_0.cmdline@ == seq!['[', ']'],
            r is Ok && no_rows(runs@[3].stdout@) ==> r->Ok_0.environ@ == seq!['[', ']'],
    {
        if runs.len() < 1 || !runs[0].success {
            return Err(LookupError::ToolFailed(Facet::Exe));
        }
        let exe = match last_word_after_header(runs[0].stdout.as_str()) {
            Some(w) => w,
            None => {
                return Err(LookupError::Malformed(Facet::Exe));
            },
        };
        if runs.len() < 2 || !runs[1].success {
            return Err(LookupError::ToolFailed(Facet::Cwd));
        }
        let cwd = match last_word_after_header(runs[1].stdout.as_str()) {
            Some(w) => w,
            None => {
                return Err(LookupError::Malformed(Facet::Cwd));
            },
        };
        if runs.len() < 3 || !runs[2].success {
            return Err(LookupError::ToolFailed(Facet::Cmdline));
        }
        if runs.len() < 4 || !runs[3].success {
            return Err(LookupError::ToolFailed(Facet::Environ));
        }
        let args = values_of(&data_rows(runs[2].stdout.as_str()));
        let env = values_of(&data_rows(runs[3].stdout.as_str()));
        assert(views(args@).len() == args@.len());
        assert(views(env@).len() == env@.len());
        Ok(PIDInfo {
            pid,
            exe,
            root: unavailable_string(),
            cwd,
            cmdline: debug_list_string(&args),
            environ: debug_list_string(&env),
        })
    }

    fn from_query(pid: u64, o: ToolOutput) -> (r: Result<PIDInfo, LookupError>)
        ensures
            result_view(r) == from_query(pid, o),
    {
        if !o.success {
            return Err(LookupError::ToolFailed(Facet::Exe));
        }
        let term = "\r\n";
        let exe_key = "ExecutablePath".to_string();
        let cmd_key = "CommandLine".to_string();
        proof {
            reveal_strlit("\r\n");
            reveal_strlit("ExecutablePath");
            reveal_strlit("CommandLine");
            assert(term@ =~= crlf());
            assert(exe_key@ =~= exe_label());
            assert(cmd_key@ =~= cmdline_label());
        }
        let rows = labelled_rows(o.stdout.as_str(), term);
        Ok(PIDInfo {
            pid,
            exe: field_value(&rows, &exe_key, unavailable_string()),
            root: unavailable_string(),
            cwd: unavailable_string(),
            cmdline: field_value(&rows, &cmd_key, unavailable_string()),
            environ: unavailable_string(),
        })
    }

    /// Locates the record of `pid` from what the platform gave. Any failed
    /// read or tool run fails the whole lookup: no partial record is given.
    pub fn new(pid: u64, source: Source) -> (r: Result<PIDInfo, LookupError>)
        ensures
            result_view(r) == located(pid, source),
            match source {
                Source::Procstat(runs) => {
                    &&& r is Ok && no_rows(runs@[2].stdout@) ==> r->Ok_0.cmdline@ == seq!['[', ']']
                    &&& r is Ok && no_rows(runs@[3].stdout@) ==> r->Ok_0.environ@ == seq!['[', ']']
                },
                _ => true,
            },
    {
        match source {
            Source::Procfs(e) => PIDInfo::from_entries(pid, e),
            Source::Procstat(o) => PIDInfo::from_procstat(pid, o),
            Source::Wmi(o) => PIDInfo::from_query(pid, o),
        }
    }

    /// The single-line rendering `pid | exe | root | cwd | cmdline`.
    pub fn render(&self) -> (r: String)
        ensures
            r@ == rendering(self@),
    {
        let sep = " | ";
        proof {
            reveal_strlit(" | ");
            assert(sep@ =~= bar());
        }
        let mut s = decimal_string(self.pid);
        s.append(sep);
        s.append(self.exe.as_str());
        s.append(sep);
        s.append(self.root.as_str());
        s.append(sep);
        s.append(self.cwd.as_str());
        s.append(sep);
        s.append(self.cmdline.as_str());
        s
    }
}

/// Whether an entry, a tool run or the query that a lookup needs failed.
pub open spec fn some_read_failed(src: Source) -> bool {
    match src {
        Source::Procfs(e) => e.exe is None || e.root is None || e.cwd is None || e.cmdline is None
            || e.environ is None,
        Source::Procstat(o) => !run_ok(o@, 0) || !run_ok(o@, 1) || !run_ok(o@, 2) || !run_ok(o@, 3),
        Source::Wmi(o) => !o.success,
    }
}

/// A lookup whose every pseudo-filesystem entry was read gives a record that
/// holds exactly what was read.
pub proof fn lemma_lookup_faithful(pid: u64, e: ProcEntries)
    requires
        e.exe is Some,
        e.root is Some,
        e.cwd is Some,
        e.cmdline is Some,
        e.environ is Some,
    ensures
        located(pid, Source::Procfs(e)) == Ok::<RecordModel, LookupError>(
            RecordModel {
                pid,
                exe: e.exe->0@,
                root: e.root->0@,
                cwd: e.cwd->0@,
                cmdline: e.cmdline->0@,
                environ: e.environ->0@,
            },
        ),
{
}

/// A lookup in which one required read or tool run failed gives a failure,
/// never a partial record.
pub proof fn lemma_no_partial_record(pid: u64, src: Source)
    requires
        some_read_failed(src),
    ensures
        located(pid, src) is Err,
{
}

/// The view of an entry that may have failed to be read.
pub open spec fn entry_view(e: Option<String>) -> Option<Seq<char>> {
    match e {
        Some(s) => Some(s@),
        None => None,
    }
}

/// Whether two tool runs produced the same status and the same text.
pub open spec fn same_output(a: ToolOutput, b: ToolOutput) -> bool {
    a.success == b.success && a.stdout@ == b.stdout@
}

/// Whether two observations of a process saw the same thing.
pub open spec fn same_observation(a: Source, b: Source) -> bool {
    match (a, b) {
        (Source::Procfs(x), Source::Procfs(y)) => {
            &&& entry_view(x.exe) == entry_view(y.exe)
            &&& entry_view(x.root) == entry_view(y.root)
            &&& entry_view(x.cwd) == entry_view(y.cwd)
            &&& entry_view(x.cmdline) == entry_view(y.cmdline)
            &&& entry_view(x.environ) == entry_view(y.environ)
        },
        (Source::Procstat(x), Source::Procstat(y)) => {
            &&& x@.len() == y@.len()
            &&& forall|i: int| 0 <= i < x@.len() ==> #[trigger] same_output(x@[i], y@[i])
        },
        (Source::Wmi(x), Source::Wmi(y)) => same_output(x, y),
        _ => false,
    }
}

/// Two lookups of the same pid from observations that saw the same thing
/// give the same record, or the same failure.
pub proof fn lemma_lookup_repeatable(pid: u64, a: Source, b: Source)
    requires
        same_observation(a, b),
    ensures
        located(pid, a) == located(pid, b),
{
    match (a, b) {
        (Source::Procstat(x), Source::Procstat(y)) => {
            if x@.len() > 0 {
                assert(same_output(x@[0], y@[0]));
            }
            if x@.len() > 1 {
                assert(same_output(x@[1], y@[1]));
            }
            if x@.len() > 2 {
                assert(same_output(x@[2], y@[2]));
            }
            if x@.len() > 3 {
                assert(same_output(x@[3], y@[3]));
            }
        },
        _ => {},
    }
}

/// A value that a query line can carry whole: not empty, and neither
/// beginning nor ending in white space.
pub open spec fn plain_value(v: Seq<char>) -> bool {
    v.len() > 0 && !white_space(v[0]) && !white_space(v.last())
}

/// A successful query whose answer is the two lines `ExecutablePath : x`
/// and `CommandLine : y` gives a record with binary path `x` and command
/// line `y`; root, working directory and environment are unavailable.
pub proof fn lemma_query_fields(pid: u64, o: ToolOutput, x: Seq<char>, y: Seq<char>)
    requires
        o.success,
        plain_value(x),
        plain_value(y),
        split_on(o.stdout@, crlf()) == seq![
            exe_label() + seq![' ', ':', ' '] + x,
            cmdline_label() + seq![' ', ':', ' '] + y,
        ],
    ensures
        located(pid, Source::Wmi(o)) == Ok::<RecordModel, LookupError>(
            RecordModel {
                pid,
                exe: x,
                root: unavailable(),
                cwd: unavailable(),
                cmdline: y,
                environ: unavailable(),
            },
        ),
{
    let e = exe_label();
    let c = cmdline_label();
    assert forall|i: int| 0 <= i < e.len() implies e[i] != ':' by {}
    assert forall|i: int| 0 <= i < c.len() implies c[i] != ':' by {}
    assert(!white_space(e[0]) && !white_space(e.last()));
    assert(!white_space(c[0]) && !white_space(c.last()));
    lemma_label_line(e, x);
    lemma_label_line(c, y);
    let l1 = e + seq![' ', ':', ' '] + x;
    let l2 = c + seq![' ', ':', ' '] + y;
    let lines = seq![l1, l2];
    assert(lines.drop_last() =~= seq![l1]);
    assert(seq![l1].drop_last() =~= Seq::<Seq<char>>::empty());
    assert(lines.last() == l2);
    assert(seq![l1].last() == l1);
    assert(label_of(l1) == Some((e, x)));
    assert(label_of(l2) == Some((c, y)));
    assert(rows(Seq::<Seq<char>>::empty()) == Seq::<(Seq<char>, Seq<char>)>::empty());
    assert(rows(seq![l1]) == rows(Seq::<Seq<char>>::empty()).push((e, x)));
    assert(rows(lines) == rows(seq![l1]).push((c, y)));
    let r = rows(lines);
    assert(r =~= seq![(e, x), (c, y)]);
    assert(r.last().0 != e) by {
        assert(r.last().0.len() != e.len());
    }
    assert(r.drop_last() =~= seq![(e, x)]);
    assert(r.drop_last().last() == (e, x));
    assert(field(r.drop_last(), e, unavailable()) == x);
    assert(field(r, e, unavailable()) == x);
    assert(field(r, c, unavailable()) == y);
}

/// Four successful runs of the process-status tool whose binary-path and
/// working-directory outputs hold a word after their header give a record
/// of exactly those words, and of the values of the argument and
/// environment rows after their headers.
pub proof fn lemma_procstat_record(pid: u64, runs: Seq<ToolOutput>)
    requires
        runs.len() == 4,
        forall|i: int| 0 <= i < 4 ==> #[trigger] runs[i].success,
        last_word(after_header(runs[0].stdout@)) is Some,
        last_word(after_header(runs[1].stdout@)) is Some,
    ensures
        from_procstat(pid, runs) == Ok::<RecordModel, LookupError>(
            RecordModel {
                pid,
                exe: last_word(after_header(runs[0].stdout@))->0,
                root: unavailable(),
                cwd: last_word(after_header(runs[1].stdout@))->0,
                cmdline: debug_list(values(data_rows_of(split_on(runs[2].stdout@, seq!['\n'])))),
                environ: debug_list(values(data_rows_of(split_on(runs[3].stdout@, seq!['\n'])))),
            },
        ),
{
    assert(runs[0].success && runs[1].success && runs[2].success && runs[3].success);
}

} // verus!

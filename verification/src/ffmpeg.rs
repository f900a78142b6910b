//! The decisions around running ffmpeg: the registry of running conversions, which lines
//! of ffmpeg's output are kept for the error report, what each conversion reports, and
//! which archive entries are the tools.
use vstd::prelude::*;
use std::collections::HashSet;

use crate::text::{
    chars_of, contains, contains_vec, copy_str, is_blank, join, join_strings, replace_char,
    str_eq, str_replace_char, string_from_range, trim, u64_to_decimal, decimal, views,
};

verus! {

broadcast use vstd::std_specs::hash::group_hash_axioms;

/// The registry of running conversions: whether they were cancelled, and the process ids
/// of the ffmpeg processes running.
#[derive(Debug)]
pub struct Jobs {
    pub cancel: bool,
    pub pids: HashSet<u32>,
}

impl Jobs {
    /// An empty registry, not cancelled.
    pub fn new() -> (res: Self)
        ensures
            !res.cancel,
            res.pids@ == Set::<u32>::empty(),
    {
        Jobs { cancel: false, pids: HashSet::new() }
    }

    /// Prepares for a new batch: clears the cancel flag and forgets all processes.
    pub fn reset(&mut self)
        ensures
            !final(self).cancel,
            final(self).pids@ == Set::<u32>::empty(),
    {
        self.cancel = false;
        self.pids.clear();
    }

    /// Records a started process.
    pub fn register(&mut self, pid: u32)
        ensures
            final(self).cancel == old(self).cancel,
            final(self).pids@ == old(self).pids@.insert(pid),
    {
        self.pids.insert(pid);
    }

    /// Forgets a finished process.
    pub fn unregister(&mut self, pid: u32)
        ensures
            final(self).cancel == old(self).cancel,
            final(self).pids@ == old(self).pids@.remove(pid),
    {
        self.pids.remove(&pid);
    }

    /// Cancels the batch: sets the flag and returns every running process, each once, to
    /// be killed. The registry still lists them until they are unregistered.
    pub fn cancel_all(&mut self) -> (res: Vec<u32>)
        ensures
            final(self).cancel,
            final(self).pids@ == old(self).pids@,
            res@.to_set() == old(self).pids@,
            res@.no_duplicates(),
    {
        self.cancel = true;
        let ghost rem = vstd::std_specs::iter::IteratorSpec::remaining(&vstd::std_specs::hash::spec_hash_keys_iter(&self.pids));
        let mut out: Vec<u32> = Vec::new();
        for p in it: self.pids.iter()
            invariant
                it.seq() == rem,
                out@ == rem.take(it.index() as int).unref(),
        {
            assert(rem.take(it.index() + 1).unref() =~= rem.take(it.index() as int).unref().push(*p));
            out.push(*p);
        }
        assert(rem.take(rem.len() as int) =~= rem);
        out
    }
}

/// What ffmpeg's progress lines hold.
pub open spec fn is_progress_line(line: Seq<char>) -> bool {
    contains(line, "time="@) || contains(line, "frame="@)
}

/// How a line of ffmpeg's error output is used.
#[derive(Debug, Clone, Copy, PartialEq, Eq, Structural)]
pub enum LineKind {
    /// A progress line, reported as it comes.
    Progress,
    /// A diagnostic line, kept for the error report.
    Diagnostic,
    /// A blank line, dropped.
    Blank,
}

/// How a line of ffmpeg's error output is used.
pub open spec fn line_kind(line: Seq<char>) -> LineKind {
    if is_progress_line(line) {
        LineKind::Progress
    } else if trim(line).len() > 0 {
        LineKind::Diagnostic
    } else {
        LineKind::Blank
    }
}

/// How a line of ffmpeg's error output is used: progress lines are reported, other
/// non-blank lines kept for the error report, blank lines dropped.
pub fn classify_line(line: &str) -> (res: LineKind)
    ensures
        res == line_kind(line@),
{
    let cs = chars_of(line);
    if contains_vec(&cs, &chars_of("time=")) || contains_vec(&cs, &chars_of("frame=")) {
        LineKind::Progress
    } else if !is_blank(line) {
        LineKind::Diagnostic
    } else {
        LineKind::Blank
    }
}

/// How many diagnostic lines are kept.
pub const TAIL_LINES: usize = 8;

/// The kept lines after one more diagnostic line: the oldest goes once eight are kept.
pub open spec fn tail_after(lines: Seq<Seq<char>>, line: Seq<char>) -> Seq<Seq<char>> {
    if lines.len() >= TAIL_LINES {
        lines.drop_first().push(line)
    } else {
        lines.push(line)
    }
}

/// The last diagnostic lines of ffmpeg's output, at most eight.
#[derive(Debug)]
pub struct StderrTail {
    lines: Vec<String>,
}

impl StderrTail {
    /// The kept lines, oldest first.
    pub closed spec fn kept(&self) -> Seq<Seq<char>> {
        views(self.lines@)
    }

    /// The tail's invariant: at most eight lines.
    pub closed spec fn wf(&self) -> bool {
        self.lines.len() <= TAIL_LINES
    }

    /// A tail that keeps nothing yet.
    pub fn new() -> (res: Self)
        ensures
            res.wf(),
            res.kept() == Seq::<Seq<char>>::empty(),
    {
        let res = StderrTail { lines: Vec::new() };
        assert(res.kept() =~= Seq::<Seq<char>>::empty());
        res
    }

    /// Keeps one more diagnostic line, dropping the oldest once eight are kept.
    pub fn push(&mut self, line: String)
        requires
            old(self).wf(),
        ensures
            final(self).wf(),
            final(self).kept() == tail_after(old(self).kept(), line@),
            final(self).kept().len() <= TAIL_LINES,
    {
        let ghost before = views(self.lines@);
        if self.lines.len() >= TAIL_LINES {
            self.lines.remove(0);
            assert(views(self.lines@) =~= before.drop_first());
        }
        let ghost mid = views(self.lines@);
        let ghost l = line@;
        self.lines.push(line);
        assert(views(self.lines@) =~= mid.push(l));
    }

    /// The kept lines, oldest first.
    pub fn lines(&self) -> (res: &Vec<String>)
        ensures
            views(res@) == self.kept(),
    {
        &self.lines
    }
}

/// The most characters of diagnostics an error report carries.
pub const DIAG_LIMIT: usize = 700;

/// The error report from the kept lines: joined by line breaks, the whole text where it
/// holds at most 700 characters, otherwise its last 700 characters.
pub open spec fn diagnostic(lines: Seq<Seq<char>>) -> Seq<char> {
    let d = join(lines, "\n"@);
    if d.len() > DIAG_LIMIT {
        d.skip(d.len() - DIAG_LIMIT)
    } else {
        d
    }
}

/// The error report from the kept lines.
pub fn diagnostic_text(lines: &Vec<String>) -> (res: String)
    ensures
        res@ == diagnostic(views(lines@)),
{
    let d = join_strings(lines, "\n");
    let cs = chars_of(d.as_str());
    if cs.len() > DIAG_LIMIT {
        assert(cs@.skip(cs.len() - DIAG_LIMIT) =~= cs@.subrange(
            cs.len() - DIAG_LIMIT,
            cs.len() as int,
        ));
        string_from_range(&cs, cs.len() - DIAG_LIMIT, cs.len())
    } else {
        d
    }
}

/// An event that reports the progress of one conversion.
#[derive(Debug)]
pub struct ConversionEvent {
    pub input: String,
    /// `start`, `line`, `done`, `error` or `cancelled`.
    pub stage: String,
    pub message: String,
    pub output: Option<String>,
}

/// An event with the given stage and message, without output.
fn event(input: &str, stage: &str, message: String) -> (res: ConversionEvent)
    ensures
        res.input@ == input@,
        res.stage@ == stage@,
        res.message@ == message@,
        res.output is None,
{
    ConversionEvent { input: copy_str(input), stage: copy_str(stage), message, output: None }
}

/// The event that reports a conversion skipped or stopped by cancellation.
pub fn cancelled_event(input: &str) -> (res: ConversionEvent)
    ensures
        res.input@ == input@,
        res.stage@ == "cancelled"@,
        res.message@ == "Отменено"@,
        res.output is None,
{
    event(input, "cancelled", copy_str("Отменено"))
}

/// Whether a queued conversion is still run: once the batch is cancelled it is not
/// started, and the event that reports it cancelled is returned instead; otherwise `None`.
pub fn start_decision(cancel: bool, input: &str) -> (res: Option<ConversionEvent>)
    ensures
        cancel ==> (res matches Some(e) && e.input@ == input@ && e.stage@ == "cancelled"@
            && e.message@ == "Отменено"@ && e.output is None),
        !cancel ==> res is None,
{
    if cancel {
        Some(cancelled_event(input))
    } else {
        None
    }
}

/// The event that reports the start of a conversion.
pub fn start_event(input: &str) -> (res: ConversionEvent)
    ensures
        res.input@ == input@,
        res.stage@ == "start"@,
        res.message@ == "Запуск: "@ + input@,
        res.output is None,
{
    let mut m = copy_str("Запуск: ");
    m.append(input);
    event(input, "start", m)
}

/// The event that reports a progress line of ffmpeg.
pub fn progress_event(input: &str, line: String) -> (res: ConversionEvent)
    ensures
        res.input@ == input@,
        res.stage@ == "line"@,
        res.message@ == line@,
        res.output is None,
{
    event(input, "line", line)
}

/// The event that reports that ffmpeg could not be started, with the system's reason.
pub fn spawn_failed_event(input: &str, reason: &str) -> (res: ConversionEvent)
    ensures
        res.input@ == input@,
        res.stage@ == "error"@,
        res.message@ == "Не удалось запустить ffmpeg: "@ + reason@,
        res.output is None,
{
    let mut m = copy_str("Не удалось запустить ffmpeg: ");
    m.append(reason);
    event(input, "error", m)
}

/// How the ffmpeg process ended.
#[derive(Debug)]
pub enum ProcessOutcome {
    /// It exited successfully.
    Succeeded,
    /// It exited unsuccessfully; the exit status as the system describes it.
    Failed(String),
    /// Waiting for it failed; the system's reason.
    WaitFailed(String),
}

/// The event that ends a conversion: done on success; cancelled where the batch was
/// cancelled; otherwise an error with the exit status and the diagnostics, or with the
/// reason waiting failed.
pub fn finish_event(
    input: &str,
    output: &str,
    outcome: &ProcessOutcome,
    cancelled: bool,
    diag: &str,
) -> (res: ConversionEvent)
    ensures
        res.input@ == input@,
        match outcome {
            ProcessOutcome::Succeeded => {
                &&& res.stage@ == "done"@
                &&& res.message@ == "Готово: "@ + output@
                &&& res.output matches Some(o) && o@ == output@
            },
            ProcessOutcome::Failed(status) => if cancelled {
                res.stage@ == "cancelled"@ && res.message@ == "Отменено"@ && res.output is None
            } else {
                &&& res.stage@ == "error"@
                &&& res.message@ == "ffmpeg завершился с кодом "@ + status@ + "\n"@ + diag@
                &&& res.output is None
            },
            ProcessOutcome::WaitFailed(reason) => if cancelled {
                res.stage@ == "cancelled"@ && res.message@ == "Отменено"@ && res.output is None
            } else {
                &&& res.stage@ == "error"@
                &&& res.message@ == "Ошибка процесса: "@ + reason@
                &&& res.output is None
            },
        },
{
    match outcome {
        ProcessOutcome::Succeeded => {
            let mut m = copy_str("Готово: ");
            m.append(output);
            ConversionEvent {
                input: copy_str(input),
                stage: copy_str("done"),
                message: m,
                output: Some(copy_str(output)),
            }
        },
        ProcessOutcome::Failed(status) => {
            if cancelled {
                cancelled_event(input)
            } else {
                let mut m = copy_str("ffmpeg завершился с кодом ");
                m.append(status.as_str());
                m.append("\n");
                m.append(diag);
                event(input, "error", m)
            }
        },
        ProcessOutcome::WaitFailed(reason) => {
            if cancelled {
                cancelled_event(input)
            } else {
                let mut m = copy_str("Ошибка процесса: ");
                m.append(reason.as_str());
                event(input, "error", m)
            }
        },
    }
}

/// The file name of an executable: `<base>.exe` on Windows, `<base>` elsewhere.
pub open spec fn exe_file_name(base: Seq<char>, windows: bool) -> Seq<char> {
    if windows {
        base + ".exe"@
    } else {
        base
    }
}

/// The file name of an executable: `<base>.exe` on Windows, `<base>` elsewhere.
pub fn exe_name(base: &str, windows: bool) -> (res: String)
    ensures
        res@ == exe_file_name(base@, windows),
{
    let mut n = copy_str(base);
    if windows {
        n.append(".exe");
    }
    n
}

/// What follows the last `/` of `s` (all of `s` where it holds none).
pub open spec fn after_last_slash(s: Seq<char>) -> Seq<char>
    decreases s.len(),
{
    if s.len() == 0 {
        s
    } else if s.last() == '/' {
        seq![]
    } else {
        after_last_slash(s.drop_last()).push(s.last())
    }
}

/// The base name of an archive entry: the entry's path with `\` read as `/`, after its
/// last separator.
pub open spec fn entry_base(name: Seq<char>) -> Seq<char> {
    after_last_slash(replace_char(name, '\\', "/"@))
}

proof fn lemma_after_last_slash(s: Seq<char>, j: int)
    requires
        0 <= j <= s.len(),
        forall|k: int| j <= k < s.len() ==> s[k] != '/',
        j == 0 || s[j - 1] == '/',
    ensures
        after_last_slash(s) == s.subrange(j, s.len() as int),
    decreases s.len(),
{
    if s.len() == 0 {
        assert(s.subrange(j, 0) =~= s);
    } else if j == s.len() {
        assert(s.subrange(j, s.len() as int) =~= Seq::<char>::empty());
    } else {
        lemma_after_last_slash(s.drop_last(), j);
        assert(s.subrange(j, s.len() as int) =~= s.drop_last().subrange(j, s.len() - 1).push(
            s.last(),
        ));
    }
}

/// The base name of an archive entry.
pub fn entry_base_name(name: &str) -> (res: String)
    ensures
        res@ == entry_base(name@),
{
    let normalized = str_replace_char(name, '\\', "/");
    let cs = chars_of(normalized.as_str());
    let mut j: usize = cs.len();
    while j > 0 && cs[j - 1] != '/'
        invariant
            j <= cs.len(),
            forall|k: int| j <= k < cs.len() ==> cs@[k] != '/',
        decreases j,
    {
        j -= 1;
    }
    proof {
        lemma_after_last_slash(cs@, j as int);
    }
    string_from_range(&cs, j, cs.len())
}

/// Whether a base name is that of one of the tools taken out of the archive: ffmpeg
/// or ffprobe.
pub open spec fn is_tool_name(base: Seq<char>, windows: bool) -> bool {
    base == exe_file_name("ffmpeg"@, windows) || base == exe_file_name("ffprobe"@, windows)
}

/// The file to write for an archive entry: its base name where that is one of the
/// tools; `None` for every other entry, which is skipped.
pub fn tool_entry(name: &str, windows: bool) -> (res: Option<String>)
    ensures
        match res {
            Some(b) => b@ == entry_base(name@) && is_tool_name(entry_base(name@), windows),
            None => !is_tool_name(entry_base(name@), windows),
        },
{
    let base = entry_base_name(name);
    let ffmpeg = exe_name("ffmpeg", windows);
    let ffprobe = exe_name("ffprobe", windows);
    if str_eq(base.as_str(), ffmpeg.as_str()) || str_eq(base.as_str(), ffprobe.as_str()) {
        Some(base)
    } else {
        None
    }
}

/// The outcome of taking the tools out of the archive, given how many were found: an
/// error where none was.
pub fn extraction_result(found: usize) -> (res: Result<(), String>)
    ensures
        found == 0 ==> (res matches Err(e) && e@ == "В архиве не найдены ffmpeg/ffprobe"@),
        found > 0 ==> res is Ok,
{
    if found == 0 {
        Err(copy_str("В архиве не найдены ffmpeg/ffprobe"))
    } else {
        Ok(())
    }
}

/// Bytes in a megabyte, as the download reports count them.
pub const MEGABYTE: u64 = 1048576;

/// The progress report of a download of unknown size: the whole megabytes received.
pub open spec fn downloaded_text(bytes: u64) -> Seq<char> {
    "Загружено "@ + decimal((bytes / MEGABYTE) as nat) + " МБ"@
}

/// The progress report of a download of unknown size.
pub fn downloaded_message(bytes: u64) -> (res: String)
    ensures
        res@ == downloaded_text(bytes),
{
    let mut m = copy_str("Загружено ");
    let mb = u64_to_decimal(bytes / MEGABYTE);
    m.append(mb.as_str());
    m.append(" МБ");
    m
}

/// How many conversions run at once.
pub const MAX_PARALLEL: usize = 2;

/// How many workers a batch of `jobs` conversions gets: at most `MAX_PARALLEL`, at
/// least one.
pub fn worker_count(jobs: usize) -> (res: usize)
    ensures
        res == (if jobs == 0 { 1 } else if jobs < MAX_PARALLEL { jobs } else { MAX_PARALLEL }),
        1 <= res <= MAX_PARALLEL,
{
    let n = if jobs < MAX_PARALLEL { jobs } else { MAX_PARALLEL };
    if n < 1 { 1 } else { n }
}

} // verus!

//! In-editor compsys completion: the request a client sends, the match
//! list it gets back, and the decisions of the service that answers.
//!
//! The service is split in two halves that talk through plain values:
//!
//! * the client side ([`complete_at`]) decides from the shared
//!   [`ShellService`] state whether a request is answered at once (cold
//!   start, or a finished dispatch cached for the same line and cursor)
//!   or handed to the shell thread as a [`Job`];
//! * the shell thread refuses jobs whose deadline already passed
//!   ([`job_time_left`], [`start_job`]), runs one dispatch per job
//!   ([`dispatch_on_shell_thread`]) and publishes a non-empty result for
//!   the client's retry ([`finish_job`]).
//!
//! A dispatch sets the line editor's buffers, parameters and completion
//! state up as a fresh first Tab would find them, runs the completion
//! engine, drains the `compadd` capture, and puts back everything it
//! changed. The engine itself is a parameter: the dispatch is verified
//! for every engine. While the engine runs, its capture can be shared
//! ([`LiveCapture`]) so a client whose wait ran out still gets the
//! partial list captured by then ([`partial_capture`], [`finish_wait`]).

use std::time::{Duration, Instant};
use vstd::prelude::*;

use crate::compsys::clock::{clock_now, duration_div, instant_checked_add, millis, nanos_between};
use crate::compsys::cursor::{
    char_cursor, char_cursor_of, cursor_on_char_boundary, same_text, word_start, word_start_of,
};

verus! {

/// Budget of a request built with [`CompsysRequest::new_with_default_budget`],
/// in milliseconds (the LSP default).
pub const DEFAULT_BUDGET_MS: u64 = 200;

/// How long a cached dispatch stays servable, in nanoseconds (three
/// seconds): long enough for an editor's re-request round trip, short
/// enough that a completer whose output depends on the working tree is not
/// answered from a stale run.
pub const LAST_RESULT_TTL_NANOS: u128 = 3_000_000_000;

/// Grace added to a client's remaining budget while it waits for the
/// reply, in nanoseconds (20 ms), so a dispatch that finishes right at the
/// deadline still gets delivered.
pub const REPLY_GRACE_NANOS: u128 = 20_000_000;

/// Terminal width a dispatch runs under (zsh's own no-terminal fallback).
pub const DISPATCH_COLUMNS: i64 = 80;

/// Terminal height a dispatch runs under.
pub const DISPATCH_LINES: i64 = 24;

/// Request a compsys completion at `(line, cursor)`.
#[derive(Debug)]
pub struct CompsysRequest<'a> {
    /// The entire logical command line as the user has typed it.
    pub line: &'a str,
    /// 0-based byte column the cursor sits at inside `line`.
    pub cursor: usize,
    /// Hard deadline for the dispatch.
    pub deadline: Instant,
    /// When `false`, completion functions that shell out get no
    /// subprocess; when `true` the subprocess runs but is killed at
    /// `deadline`.
    pub allow_exec: bool,
}

/// How many times [`deadline_after`] halves a budget that leaves the
/// clock's range before it settles for `now`.
pub const BUDGET_HALVINGS: u32 = 128;

/// The deadline `budget` after `now`. A budget so large that the deadline
/// would leave the clock's range (where std's `Instant + Duration`
/// panics) is halved until the deadline fits; after
/// [`BUDGET_HALVINGS`] halvings the deadline is `now` itself. So an
/// unrepresentable budget yields one at least half the latest
/// representable deadline, and never a panic.
fn deadline_after(now: Instant, budget: Duration) -> Instant {
    let mut b = budget;
    let mut tries: u32 = 0;
    while tries < BUDGET_HALVINGS
        decreases BUDGET_HALVINGS - tries,
    {
        match instant_checked_add(now, b) {
            Some(deadline) => {
                return deadline;
            },
            None => {
                b = duration_div(b, 2);
                tries = tries + 1;
            },
        }
    }
    now
}

impl<'a> CompsysRequest<'a> {
    /// Build a request with the LSP-default 200 ms deadline, exec allowed.
    pub fn new_with_default_budget(line: &'a str, cursor: usize) -> (r: Self)
        ensures
            r.line == line,
            r.cursor == cursor,
            r.allow_exec,
    {
        let now = clock_now();
        let budget = millis(DEFAULT_BUDGET_MS);
        CompsysRequest { line, cursor, deadline: deadline_after(now, budget), allow_exec: true }
    }

    /// Same, with an explicit budget. A budget whose deadline the clock
    /// cannot represent is cut down as [`deadline_after`] describes.
    pub fn new_with_budget(line: &'a str, cursor: usize, budget: Duration) -> (r: Self)
        ensures
            r.line == line,
            r.cursor == cursor,
            r.allow_exec,
    {
        let now = clock_now();
        CompsysRequest { line, cursor, deadline: deadline_after(now, budget), allow_exec: true }
    }
}

/// A single completion match.
#[derive(Debug, Clone)]
pub struct CompsysMatch {
    pub completion: String,
    pub description: Option<String>,
    /// Group label from `_tags` / `_describe`.
    pub group: Option<String>,
    /// Byte offset in `line` where the match-replacement region starts.
    pub replace_start: usize,
}

/// A complete response from compsys dispatch.
#[derive(Debug)]
pub struct CompsysResponse {
    pub matches: Vec<CompsysMatch>,
    /// `true` when the deadline cut a dispatch short.
    pub is_incomplete: bool,
}

impl Default for CompsysResponse {
    fn default() -> (r: Self)
        ensures
            r.matches@.len() == 0,
            !r.is_incomplete,
    {
        CompsysResponse { matches: Vec::new(), is_incomplete: false }
    }
}

/// The answer that tells a client to ask again: no matches, incomplete.
pub open spec fn ask_again(r: CompsysResponse) -> bool {
    r.matches@.len() == 0 && r.is_incomplete
}

fn incomplete_response() -> (r: CompsysResponse)
    ensures
        ask_again(r),
{
    CompsysResponse { matches: Vec::new(), is_incomplete: true }
}

/// A copy of one match, field for field.
pub fn copy_match(m: &CompsysMatch) -> (r: CompsysMatch)
    ensures
        r == *m,
{
    CompsysMatch {
        completion: m.completion.clone(),
        description: match &m.description {
            Some(d) => Some(d.clone()),
            None => None,
        },
        group: match &m.group {
            Some(g) => Some(g.clone()),
            None => None,
        },
        replace_start: m.replace_start,
    }
}

/// A copy of a match list, in order.
pub fn copy_matches(v: &Vec<CompsysMatch>) -> (r: Vec<CompsysMatch>)
    ensures
        r@ == v@,
{
    let mut r: Vec<CompsysMatch> = Vec::new();
    let mut i: usize = 0;
    while i < v.len()
        invariant
            i <= v@.len(),
            r@ == v@.take(i as int),
        decreases v@.len() - i,
    {
        r.push(copy_match(&v[i]));
        assert(v@.take(i + 1) == v@.take(i as int).push(v@[i as int]));
        i = i + 1;
    }
    assert(v@.take(v@.len() as int) == v@);
    r
}

/// One completion request as the shell thread receives it.
#[derive(Debug)]
pub struct Job {
    pub line: String,
    pub cursor: usize,
    pub allow_exec: bool,
    pub deadline: Instant,
}

/// Menu-completion state the interactive engine keeps between Tab
/// presses: the continuation flags and the current menu position.
#[derive(Debug, Clone, Copy, PartialEq, Eq)]
pub struct MenuState {
    pub menucmp: i32,
    pub oldmenucmp: i32,
    pub lastambig: i32,
    pub validlist: i32,
    pub showagain: i32,
    pub showinglist: i32,
    pub listshown: i32,
    pub hasoldlist: i32,
    pub lastpermmnum: i32,
    pub minfo_cur: Option<usize>,
    pub minfo_group: Option<usize>,
    pub minfo_cur_idx: usize,
    pub minfo_group_idx: usize,
}

/// The state of a first Tab: no menu to step, no earlier list to reuse.
pub open spec fn fresh_menu() -> MenuState {
    MenuState {
        menucmp: 0,
        oldmenucmp: 0,
        lastambig: 0,
        validlist: 0,
        showagain: 0,
        showinglist: 0,
        listshown: 0,
        hasoldlist: 0,
        lastpermmnum: 0,
        minfo_cur: None,
        minfo_group: None,
        minfo_cur_idx: 0,
        minfo_group_idx: 0,
    }
}

impl MenuState {
    /// The state of a first Tab.
    pub fn fresh() -> (r: MenuState)
        ensures
            r == fresh_menu(),
    {
        MenuState {
            menucmp: 0,
            oldmenucmp: 0,
            lastambig: 0,
            validlist: 0,
            showagain: 0,
            showinglist: 0,
            listshown: 0,
            hasoldlist: 0,
            lastpermmnum: 0,
            minfo_cur: None,
            minfo_group: None,
            minfo_cur_idx: 0,
            minfo_group_idx: 0,
        }
    }
}

/// The shell-thread state a dispatch reads, sets and puts back: the
/// completion and editor line buffers with their cursor and length, the
/// `curcontext`, `COLUMNS` and `LINES` parameters, the completion widget
/// function, the `compadd` capture buffer, the menu-completion state and
/// the exec policy of the dispatch in progress.
#[derive(Debug)]
pub struct EditorState {
    /// The completion buffer (a string).
    pub comp_line: String,
    pub comp_cursor: i32,
    pub comp_len: i32,
    /// The editor buffer (characters).
    pub edit_line: Vec<char>,
    pub edit_cursor: usize,
    pub edit_len: usize,
    pub curcontext: Option<String>,
    pub columns: i64,
    pub lines: i64,
    pub compfunc: Option<String>,
    /// `None`: `compadd` writes to the real match list. `Some`: it
    /// routes its matches into the buffer.
    pub capture: Option<Vec<CompsysMatch>>,
    pub menu: MenuState,
    /// `Some((allow, deadline))` while a dispatch runs, `None` otherwise.
    pub exec_policy: Option<(bool, Instant)>,
    /// Byte offset where the word under the cursor starts: where the
    /// matches `compadd` captures replace the line.
    pub replace_start: usize,
}

impl EditorState {
    /// The state of a shell thread that has not served a dispatch.
    pub fn new() -> (r: EditorState)
        ensures
            r.comp_line@.len() == 0,
            r.comp_cursor == 0,
            r.comp_len == 0,
            r.edit_line@.len() == 0,
            r.edit_cursor == 0,
            r.edit_len == 0,
            r.columns == 0,
            r.lines == 0,
            r.curcontext is None,
            r.compfunc is None,
            r.capture is None,
            r.menu == fresh_menu(),
            r.exec_policy is None,
            r.replace_start == 0,
    {
        EditorState {
            comp_line: String::new(),
            comp_cursor: 0,
            comp_len: 0,
            edit_line: Vec::new(),
            edit_cursor: 0,
            edit_len: 0,
            curcontext: None,
            columns: 0,
            lines: 0,
            compfunc: None,
            capture: None,
            menu: MenuState::fresh(),
            exec_policy: None,
            replace_start: 0,
        }
    }
}

/// `s` with the exec policy `policy`, everything else as it was.
pub open spec fn with_policy(s: EditorState, policy: Option<(bool, Instant)>) -> EditorState {
    EditorState { exec_policy: policy, ..s }
}

/// Arm the in-editor exec policy for one dispatch.
pub fn set_exec_policy(state: &mut EditorState, allow_exec: bool, deadline: Instant)
    ensures
        *final(state) == with_policy(*old(state), Some((allow_exec, deadline))),
{
    state.exec_policy = Some((allow_exec, deadline));
}

/// Disarm it.
pub fn clear_exec_policy(state: &mut EditorState)
    ensures
        *final(state) == with_policy(*old(state), None),
{
    state.exec_policy = None;
}

/// Clearing undoes arming, and clearing twice is clearing once: after a
/// clear there is no exec policy, whatever was armed before.
pub proof fn lemma_clear_undoes_set(s: EditorState, allow_exec: bool, deadline: Instant)
    ensures
        with_policy(with_policy(s, Some((allow_exec, deadline))), None) == with_policy(s, None),
        with_policy(with_policy(s, None), None) == with_policy(s, None),
        with_policy(s, None).exec_policy is None,
{
}

/// The exec policy in force: `None` outside an in-editor dispatch,
/// `Some((allow_exec, deadline))` inside one.
pub fn exec_policy(state: &EditorState) -> (r: Option<(bool, Instant)>)
    ensures
        r == state.exec_policy,
{
    state.exec_policy
}

/// The characters of `line`, in order.
fn chars_of(line: &str) -> (r: Vec<char>)
    ensures
        r@ == line@,
{
    let mut v: Vec<char> = Vec::new();
    for ch in it: line.chars()
        invariant
            it.seq() == line@,
            v@ == it.seq().take(it.index() as int),
    {
        v.push(ch);
    }
    v
}

/// The state a dispatch hands the completion engine, for a job on a
/// shell thread that was in state `s`: the job's line in both buffers
/// with the cursor as a character position, `curcontext` set to `:::`,
/// an 80x24 terminal, `_main_complete` as the completion widget
/// function, an empty active capture buffer, the menu state of a first
/// Tab, and the job's exec policy armed.
pub open spec fn is_prepared(p: EditorState, s: EditorState, job: Job) -> bool {
    &&& p.comp_line@ == job.line@
    &&& p.comp_cursor == char_cursor(job.line@, job.cursor) as i32
    &&& p.comp_len == job.line@.len() as i32
    &&& p.edit_line@ == job.line@
    &&& p.edit_cursor == char_cursor(job.line@, job.cursor)
    &&& p.edit_len == job.line@.len()
    &&& p.curcontext matches Some(c) && c@ == ":::"@
    &&& p.columns == DISPATCH_COLUMNS
    &&& p.lines == DISPATCH_LINES
    &&& p.compfunc matches Some(f) && f@ == "_main_complete"@
    &&& p.capture matches Some(v) && v@.len() == 0
    &&& p.menu == fresh_menu()
    &&& p.exec_policy == Some((job.allow_exec, job.deadline))
    &&& p.replace_start == word_start(job.line@, job.cursor)
}

/// The state a dispatch leaves behind, after the engine left `mid`, on a
/// shell thread that was in state `s`: buffers, cursors, lengths,
/// `curcontext`, `COLUMNS`, `LINES` and the widget function as they were
/// in `s`, no capture buffer, no exec policy, and the menu state the
/// engine left.
pub open spec fn is_restored(f: EditorState, mid: EditorState, s: EditorState) -> bool {
    &&& f.comp_line == s.comp_line
    &&& f.comp_cursor == s.comp_cursor
    &&& f.comp_len == s.comp_len
    &&& f.edit_line == s.edit_line
    &&& f.edit_cursor == s.edit_cursor
    &&& f.edit_len == s.edit_len
    &&& f.curcontext == s.curcontext
    &&& f.columns == s.columns
    &&& f.lines == s.lines
    &&& f.compfunc == s.compfunc
    &&& f.capture is None
    &&& f.exec_policy is None
    &&& f.menu == mid.menu
    &&& f.replace_start == s.replace_start
}

/// What the capture buffer of `mid` holds (nothing when it is inactive).
pub open spec fn captured(mid: EditorState) -> Seq<CompsysMatch> {
    match mid.capture {
        Some(v) => v@,
        None => Seq::empty(),
    }
}

/// The matches `ms`, each replacing the line from byte `start`.
pub open spec fn placed(ms: Seq<CompsysMatch>, start: usize) -> Seq<CompsysMatch> {
    Seq::new(ms.len(), |i: int| CompsysMatch { replace_start: start, ..ms[i] })
}

/// Copies of the matches `v`, each replacing the line from byte `start`.
pub fn place_matches(v: &Vec<CompsysMatch>, start: usize) -> (r: Vec<CompsysMatch>)
    ensures
        r@ == placed(v@, start),
{
    let mut r: Vec<CompsysMatch> = Vec::new();
    let mut i: usize = 0;
    while i < v.len()
        invariant
            i <= v@.len(),
            r@ == placed(v@, start).take(i as int),
        decreases v@.len() - i,
    {
        let mut m = copy_match(&v[i]);
        m.replace_start = start;
        r.push(m);
        assert(placed(v@, start).take(i + 1) =~= placed(v@, start).take(i as int).push(
            placed(v@, start)[i as int],
        ));
        i = i + 1;
    }
    assert(placed(v@, start).take(v@.len() as int) =~= placed(v@, start));
    r
}

/// Whether a dispatch that took `elapsed_nanos` overran a budget of
/// `budget_nanos` (the time from its start to its deadline).
pub fn dispatch_overran(elapsed_nanos: u128, budget_nanos: u128) -> (r: bool)
    ensures
        r == (elapsed_nanos >= budget_nanos),
{
    elapsed_nanos >= budget_nanos
}

/// Drive compsys dispatch the way a Tab keypress does, on the shell
/// thread whose state is `state`: set the line, cursor and completion
/// state up (see [`is_prepared`]), run `engine` (the completion entry
/// point, which routes every `compadd` into the capture buffer), drain
/// the capture, and put back what was set (see [`is_restored`]). The
/// response holds the captured matches, each replacing the line from the
/// start of the word under the cursor; it is incomplete when the dispatch
/// ran past the job's deadline (the engine then cut short, what it
/// captured so far is the partial list).
///
/// The cursor is a byte offset; one that splits a character's encoding
/// is left out, as slicing the line there is refused.
pub fn dispatch_on_shell_thread<F>(state: EditorState, job: &Job, engine: F) -> (r: (
    EditorState,
    CompsysResponse,
)) where F: FnOnce(EditorState) -> EditorState
    requires
        cursor_on_char_boundary(job.line@, job.cursor),
        forall|p: EditorState| is_prepared(p, state, *job) ==> call_requires(engine, (p,)),
    ensures
        exists|p: EditorState, mid: EditorState|
            #![trigger is_prepared(p, state, *job), call_ensures(engine, (p,), mid)]
            {
                &&& is_prepared(p, state, *job)
                &&& call_ensures(engine, (p,), mid)
                &&& is_restored(r.0, mid, state)
                &&& r.1.matches@ == placed(captured(mid), word_start(job.line@, job.cursor) as usize)
            },
{
    let started = clock_now();
    let budget_nanos = nanos_between(started, job.deadline);
    let ghost old_state = state;
    let EditorState {
        comp_line,
        comp_cursor,
        comp_len,
        edit_line,
        edit_cursor,
        edit_len,
        curcontext,
        columns,
        lines,
        compfunc,
        capture: _,
        menu: _,
        exec_policy: _,
        replace_start,
    } = state;

    let cursor_chars = char_cursor_of(job.line.as_str(), job.cursor);
    let line_chars = chars_of(job.line.as_str());
    let len_chars = line_chars.len();
    let word_start_byte = word_start_of(job.line.as_str(), job.cursor);
    let mut prepared = EditorState {
        comp_line: job.line.clone(),
        comp_cursor: cursor_chars as i32,
        comp_len: len_chars as i32,
        edit_line: line_chars,
        edit_cursor: cursor_chars,
        edit_len: len_chars,
        curcontext: Some(":::".to_owned()),
        columns: DISPATCH_COLUMNS,
        lines: DISPATCH_LINES,
        compfunc: Some("_main_complete".to_owned()),
        capture: Some(Vec::new()),
        menu: MenuState::fresh(),
        exec_policy: None,
        replace_start: word_start_byte,
    };
    set_exec_policy(&mut prepared, job.allow_exec, job.deadline);
    let ghost p = prepared;
    assert(is_prepared(p, old_state, *job));

    let mut mid = engine(prepared);
    let ghost mid0 = mid;
    let captured_matches = match mid.capture.take() {
        Some(v) => v,
        None => Vec::new(),
    };
    let matches = place_matches(&captured_matches, word_start_byte);
    clear_exec_policy(&mut mid);

    let finished = EditorState {
        comp_line,
        comp_cursor,
        comp_len,
        edit_line,
        edit_cursor,
        edit_len,
        curcontext,
        columns,
        lines,
        compfunc,
        capture: None,
        menu: mid.menu,
        exec_policy: None,
        replace_start,
    };
    let elapsed = nanos_between(started, clock_now());
    let resp = CompsysResponse { matches, is_incomplete: dispatch_overran(elapsed, budget_nanos) };
    assert(is_restored(finished, mid0, old_state));
    (finished, resp)
}

/// A finished dispatch kept for the client's retry: the line and cursor
/// it answered, its matches, and when it finished.
#[derive(Debug)]
pub struct CachedDispatch {
    pub line: String,
    pub cursor: usize,
    pub matches: Vec<CompsysMatch>,
    pub finished_at: Instant,
}

/// A cached dispatch as the contracts read it.
pub struct CachedView {
    pub line: Seq<char>,
    pub cursor: usize,
    pub matches: Seq<CompsysMatch>,
}

impl View for CachedDispatch {
    type V = CachedView;

    open spec fn view(&self) -> CachedView {
        CachedView { line: self.line@, cursor: self.cursor, matches: self.matches@ }
    }
}

/// The service as the contracts read it: whether the shell thread was
/// started, whether it finished its bootstrap and serves requests,
/// whether it is inside a dispatch, how many recorder-shard rows the
/// bootstrap applied, and the last non-empty dispatch (one entry).
pub struct ServiceView {
    pub started: bool,
    pub ready: bool,
    pub busy: bool,
    pub shard_rows: usize,
    pub last_result: Option<CachedView>,
}

/// Every match of a cached dispatch replaces the line from the start of
/// the word under its cursor.
pub open spec fn well_placed(e: CachedView) -> bool {
    forall|i: int|
        0 <= i < e.matches.len() ==> #[trigger] e.matches[i].replace_start == word_start(e.line, e.cursor) as usize
}

/// What every service keeps: it serves only after its shell thread was
/// started, it dispatches only while serving, and its cached dispatch is
/// well placed.
pub open spec fn service_wf(v: ServiceView) -> bool {
    &&& v.ready ==> v.started
    &&& v.busy ==> v.ready
    &&& (v.last_result matches Some(e) ==> well_placed(e))
}

/// What clients and the shell thread share (see [`ServiceView`]).
#[derive(Debug)]
pub struct ShellService {
    started: bool,
    ready: bool,
    busy: bool,
    shard_rows: usize,
    last_result: Option<CachedDispatch>,
}

impl View for ShellService {
    type V = ServiceView;

    closed spec fn view(&self) -> ServiceView {
        ServiceView {
            started: self.started,
            ready: self.ready,
            busy: self.busy,
            shard_rows: self.shard_rows,
            last_result: match self.last_result {
                Some(e) => Some(e@),
                None => None,
            },
        }
    }
}

impl ShellService {
    #[verifier::type_invariant]
    spec fn inv(self) -> bool {
        service_wf(self@)
    }

    /// A service whose shell thread was never started.
    pub fn new() -> (r: ShellService)
        ensures
            r@ == (ServiceView { started: false, ready: false, busy: false, shard_rows: 0, last_result: None }),
    {
        ShellService { started: false, ready: false, busy: false, shard_rows: 0, last_result: None }
    }

    /// Whether the shell thread is inside a dispatch.
    pub fn is_busy(&self) -> (r: bool)
        ensures
            r == self@.busy,
    {
        self.busy
    }

    /// The cached dispatch, if any.
    pub fn last_result(&self) -> (r: Option<&CachedDispatch>)
        ensures
            match r {
                Some(e) => self@.last_result == Some(e@),
                None => self@.last_result is None,
            },
    {
        match &self.last_result {
            Some(e) => Some(e),
            None => None,
        }
    }

    /// Every service keeps [`service_wf`].
    pub fn check_wf(&self)
        ensures
            service_wf(self@),
    {
        proof {
            use_type_invariant(self);
        }
    }
}

/// Mark the shell thread as started; `true` when the caller must spawn
/// it (it was not started before).
fn shell_thread(service: &mut ShellService) -> (spawn: bool)
    ensures
        spawn == !old(service)@.started,
        final(service)@ == (ServiceView { started: true, ..old(service)@ }),
{
    proof {
        use_type_invariant(&*service);
    }
    let spawn = !service.started;
    service.started = true;
    spawn
}

/// Start the shell thread if it isn't running: `true` when the caller
/// must spawn it now, `false` when it was started before (the call then
/// changes nothing).
pub fn bootstrap(service: &mut ShellService) -> (spawn: bool)
    ensures
        spawn == !old(service)@.started,
        final(service)@ == (ServiceView { started: true, ..old(service)@ }),
{
    shell_thread(service)
}

/// The shell thread may finish its bootstrap: it was started and does not
/// serve yet.
pub open spec fn may_finish_bootstrap(v: ServiceView) -> bool {
    v.started && !v.ready
}

/// The shell thread may take up a job: it serves and no dispatch runs.
pub open spec fn may_take_job(v: ServiceView) -> bool {
    v.ready && !v.busy
}

/// The end of the shell thread's bootstrap: record how many rows the
/// recorder shard contributed and start serving requests. It runs once,
/// after the thread was started and before the service is ready; from
/// then on no function of the service changes the row count.
pub fn bootstrap_shell(service: &mut ShellService, applied_rows: usize)
    requires
        may_finish_bootstrap(old(service)@),
    ensures
        final(service)@ == (ServiceView { shard_rows: applied_rows, ready: true, ..old(service)@ }),
{
    proof {
        use_type_invariant(&*service);
    }
    service.shard_rows = applied_rows;
    service.ready = true;
}

/// Rows applied from the recorder shard at bootstrap (0: no shard).
pub fn shard_rows(service: &ShellService) -> (r: usize)
    ensures
        r == service@.shard_rows,
{
    service.shard_rows
}

/// `true` once the shell thread is serving requests.
pub fn is_ready(service: &ShellService) -> (r: bool)
    ensures
        r == service@.ready,
{
    service.ready
}

/// A cached dispatch answers a request for `line` at `cursor` when it was
/// made for that same line and cursor and is younger than the cache's
/// time to live.
pub open spec fn serves_from_cache(entry: CachedView, line: Seq<char>, cursor: usize, age_nanos: u128) -> bool {
    &&& entry.line == line
    &&& entry.cursor == cursor
    &&& age_nanos < LAST_RESULT_TTL_NANOS
}

/// Whether `entry`, finished `age_nanos` ago, answers a request for
/// `line` at `cursor`.
pub fn cached_for(entry: &CachedDispatch, line: &str, cursor: usize, age_nanos: u128) -> (r: bool)
    ensures
        r == serves_from_cache(entry@, line@, cursor, age_nanos),
{
    entry.cursor == cursor && age_nanos < LAST_RESULT_TTL_NANOS && same_text(entry.line.as_str(), line)
}

/// The service answers a request for `line` at `cursor` from its cache,
/// the cached dispatch being `age_nanos` old.
pub open spec fn answered_from_cache(service: ServiceView, line: Seq<char>, cursor: usize, age_nanos: u128) -> bool {
    &&& service.ready
    &&& service.last_result matches Some(e) && serves_from_cache(e, line, cursor, age_nanos)
}

/// The cache answers, its entry having been read `age_nanos` old
/// (`None`: no age was read, there being no entry).
pub open spec fn cache_hit(service: ServiceView, line: Seq<char>, cursor: usize, age_nanos: Option<u128>) -> bool {
    age_nanos matches Some(a) && answered_from_cache(service, line, cursor, a)
}

/// How long a client waits for the shell thread's reply: its remaining
/// budget plus the grace, saturating.
pub open spec fn reply_wait(remaining_nanos: u128) -> u128 {
    if remaining_nanos + REPLY_GRACE_NANOS > u128::MAX {
        u128::MAX
    } else {
        (remaining_nanos + REPLY_GRACE_NANOS) as u128
    }
}

/// How long a client with `remaining_nanos` of budget left waits for the
/// reply.
pub fn reply_wait_nanos(remaining_nanos: u128) -> (r: u128)
    ensures
        r == reply_wait(remaining_nanos),
        r >= REPLY_GRACE_NANOS,
{
    remaining_nanos.saturating_add(REPLY_GRACE_NANOS)
}

/// What a client does with a request.
#[derive(Debug)]
pub enum CompleteStep {
    /// Answer now.
    Answer(CompsysResponse),
    /// Queue `job` for the shell thread and wait for its reply at most
    /// `wait_nanos`.
    Dispatch { job: Job, wait_nanos: u128 },
}

/// The plan for one request: whether the shell thread must be spawned
/// first, then the step.
#[derive(Debug)]
pub struct CompletePlan {
    pub spawn_shell_thread: bool,
    pub step: CompleteStep,
}

/// `r` is the plan for a request for `line` at `cursor` (with exec
/// allowed or not, and its deadline), on a service that was `old` and is
/// `new` after the plan, the cached dispatch read `age_nanos` old and the
/// deadline `remaining_nanos` away.
///
/// Cold start: answer "ask again". A cache hit (see [`cache_hit`]):
/// answer with the cached matches, complete, and empty the cache.
/// Otherwise: a job with the request's fields, waited for the remaining
/// budget plus the grace. The shell thread is marked started in any case.
pub open spec fn is_plan(
    old: ServiceView,
    new: ServiceView,
    line: Seq<char>,
    cursor: usize,
    allow_exec: bool,
    deadline: Instant,
    age_nanos: Option<u128>,
    remaining_nanos: u128,
    r: CompletePlan,
) -> bool {
    &&& r.spawn_shell_thread == !old.started
    &&& !old.ready ==> {
        &&& r.step matches CompleteStep::Answer(a) && ask_again(a)
        &&& new == (ServiceView { started: true, ..old })
    }
    &&& old.ready && cache_hit(old, line, cursor, age_nanos) ==> {
        &&& r.step matches CompleteStep::Answer(a) && a.matches@ == old.last_result->0.matches
            && !a.is_incomplete
        &&& new == (ServiceView { started: true, last_result: None, ..old })
    }
    &&& old.ready && !cache_hit(old, line, cursor, age_nanos) ==> {
        &&& r.step matches CompleteStep::Dispatch { job, wait_nanos } && job.line@ == line
            && job.cursor == cursor && job.allow_exec == allow_exec && job.deadline == deadline
            && wait_nanos == reply_wait(remaining_nanos)
        &&& new == (ServiceView { started: true, ..old })
    }
}

/// Decide how to answer `req` from the clock readings taken for it: the
/// cached dispatch's age (`None` when there is no cached dispatch) and
/// the time left to the request's deadline. See [`is_plan`].
pub fn plan_request(
    req: CompsysRequest<'_>,
    service: &mut ShellService,
    age_nanos: Option<u128>,
    remaining_nanos: u128,
) -> (r: CompletePlan)
    ensures
        is_plan(
            old(service)@,
            final(service)@,
            req.line@,
            req.cursor,
            req.allow_exec,
            req.deadline,
            age_nanos,
            remaining_nanos,
            r,
        ),
{
    proof {
        use_type_invariant(&*service);
    }
    let spawn = shell_thread(service);
    if !is_ready(service) {
        return CompletePlan { spawn_shell_thread: spawn, step: CompleteStep::Answer(incomplete_response()) };
    }
    let hit = match (&service.last_result, age_nanos) {
        (Some(e), Some(a)) => cached_for(e, req.line, req.cursor, a),
        _ => false,
    };
    if hit {
        let mut taken: Option<CachedDispatch> = None;
        std::mem::swap(&mut taken, &mut service.last_result);
        let entry = taken.unwrap();
        let step = CompleteStep::Answer(CompsysResponse { matches: entry.matches, is_incomplete: false });
        return CompletePlan { spawn_shell_thread: spawn, step };
    }
    let job = Job {
        line: req.line.to_owned(),
        cursor: req.cursor,
        allow_exec: req.allow_exec,
        deadline: req.deadline,
    };
    CompletePlan {
        spawn_shell_thread: spawn,
        step: CompleteStep::Dispatch { job, wait_nanos: reply_wait_nanos(remaining_nanos) },
    }
}

/// Decide how to answer `req`, starting the shell thread if needed: read
/// the clock (the cached dispatch's age, the time left to the deadline)
/// and plan from those readings (see [`plan_request`] and [`is_plan`]).
/// The readings themselves depend on when the call runs.
pub fn complete_at(req: CompsysRequest<'_>, service: &mut ShellService) -> (r: CompletePlan)
    ensures
        exists|age_nanos: Option<u128>, remaining_nanos: u128|
            #![trigger is_plan(old(service)@, final(service)@, req.line@, req.cursor, req.allow_exec, req.deadline, age_nanos, remaining_nanos, r)]
            {
                &&& is_plan(
                    old(service)@,
                    final(service)@,
                    req.line@,
                    req.cursor,
                    req.allow_exec,
                    req.deadline,
                    age_nanos,
                    remaining_nanos,
                    r,
                )
                &&& (age_nanos is Some <==> old(service)@.last_result is Some)
            },
{
    let now = clock_now();
    let age_nanos = match &service.last_result {
        Some(e) => Some(nanos_between(e.finished_at, now)),
        None => None,
    };
    let remaining_nanos = nanos_between(now, req.deadline);
    plan_request(req, service, age_nanos, remaining_nanos)
}

/// The capture of the dispatch in progress, shared with the clients:
/// the job's line and cursor, where its matches replace the line, and
/// the buffer `compadd` fills (`None` when no dispatch captures).
#[derive(Debug)]
pub struct LiveCapture {
    pub line: String,
    pub cursor: usize,
    pub replace_start: usize,
    pub buffer: Option<Vec<CompsysMatch>>,
}

impl LiveCapture {
    /// No dispatch capturing.
    pub fn new() -> (r: LiveCapture)
        ensures
            r.line@.len() == 0,
            r.cursor == 0,
            r.replace_start == 0,
            r.buffer is None,
    {
        LiveCapture { line: String::new(), cursor: 0, replace_start: 0, buffer: None }
    }
}

/// Share the capture of the dispatch of `job`, whose engine is about to
/// run on `state`: the capture buffer moves from the state to `live`.
pub fn open_live_capture(live: &mut LiveCapture, state: EditorState, job: &Job) -> (r: EditorState)
    ensures
        final(live).line@ == job.line@,
        final(live).cursor == job.cursor,
        final(live).replace_start == state.replace_start,
        final(live).buffer == state.capture,
        r == (EditorState { capture: None, ..state }),
{
    let mut st = state;
    live.line = job.line.clone();
    live.cursor = job.cursor;
    live.replace_start = st.replace_start;
    live.buffer = st.capture.take();
    st
}

/// Stop sharing once the engine returned `state`: the capture buffer
/// moves back into the state, and `live` captures nothing.
pub fn close_live_capture(live: &mut LiveCapture, state: EditorState) -> (r: EditorState)
    ensures
        r == (EditorState { capture: old(live).buffer, ..state }),
        final(live).buffer is None,
        final(live).line == old(live).line,
        final(live).cursor == old(live).cursor,
        final(live).replace_start == old(live).replace_start,
{
    let mut st = state;
    st.capture = live.buffer.take();
    st
}

/// What the dispatch in progress captured so far for a request for
/// `line` at `cursor`, each match replacing the line from the start of
/// the word under the cursor; `None` when no dispatch for that line and
/// cursor is capturing.
pub fn partial_capture(live: &LiveCapture, line: &str, cursor: usize) -> (r: Option<Vec<CompsysMatch>>)
    ensures
        match r {
            Some(v) => {
                &&& live.buffer is Some
                &&& live.line@ == line@
                &&& live.cursor == cursor
                &&& v@ == placed(live.buffer->0@, word_start(line@, cursor) as usize)
            },
            None => live.buffer is None || live.line@ != line@ || live.cursor != cursor,
        },
{
    match &live.buffer {
        Some(buf) => {
            if live.cursor == cursor && same_text(live.line.as_str(), line) {
                Some(place_matches(buf, word_start_of(line, cursor)))
            } else {
                None
            }
        },
        None => None,
    }
}

/// The answer a client gives its caller once it stopped waiting: the
/// shell thread's reply when one came; otherwise (the queue was full, or
/// the deadline cut the dispatch short) the partial list `partial` that
/// was captured by then, or no match, marked incomplete so the client
/// asks again.
pub fn finish_wait(reply: Option<CompsysResponse>, partial: Option<Vec<CompsysMatch>>) -> (r: CompsysResponse)
    ensures
        match reply {
            Some(resp) => r == resp,
            None => {
                &&& r.is_incomplete
                &&& r.matches@ == match partial {
                    Some(v) => v@,
                    None => Seq::empty(),
                }
            },
        },
{
    match reply {
        Some(resp) => resp,
        None => match partial {
            Some(v) => CompsysResponse { matches: v, is_incomplete: true },
            None => incomplete_response(),
        },
    }
}

/// A job whose deadline is `remaining_nanos` away has expired: the
/// clock reached its deadline while it sat in the queue.
pub fn job_expired(remaining_nanos: u128) -> (r: bool)
    ensures
        r == (remaining_nanos == 0),
{
    remaining_nanos == 0
}

/// What serving a job published for the client's retry: a non-empty
/// result replaces the cached dispatch with one for the job's line and
/// cursor; an empty one leaves the cache as it was.
pub open spec fn published(before: Option<CachedView>, after: Option<CachedView>, job: Job, resp: CompsysResponse) -> bool {
    if resp.matches@.len() > 0 {
        after matches Some(e) && e.line == job.line@ && e.cursor == job.cursor && e.matches == resp.matches@
    } else {
        after == before
    }
}

/// How long before its deadline the job is, in nanoseconds, read off the
/// clock now: zero once the deadline is reached. Nothing is claimed of
/// the number, which depends on when the call runs.
pub fn job_time_left(job: &Job) -> (remaining_nanos: u128) {
    let now = clock_now();
    nanos_between(now, job.deadline)
}

/// Take up one job on the shell thread, `remaining_nanos` before its
/// deadline (see [`job_time_left`]). A job whose deadline passed while it
/// sat in the queue (nothing remaining) is a stale line, the client
/// stopped waiting: it is refused (`false`) and nothing changes. A live
/// job marks the service busy for its dispatch. Jobs are taken only
/// once the bootstrap made the service ready, and one at a time.
pub fn start_job(service: &mut ShellService, remaining_nanos: u128) -> (live: bool)
    requires
        may_take_job(old(service)@),
    ensures
        live == (remaining_nanos != 0),
        !live ==> final(service)@ == old(service)@,
        live ==> final(service)@ == (ServiceView { busy: true, ..old(service)@ }),
{
    proof {
        use_type_invariant(&*service);
    }
    if job_expired(remaining_nanos) {
        return false;
    }
    service.busy = true;
    true
}

/// Close one job on the shell thread once its dispatch answered `resp`
/// (whose matches, as a dispatch's are, replace the line from the start
/// of the word under the job's cursor): the service is no longer busy,
/// and a non-empty result is published for the client's retry (see
/// [`published`]); an empty one leaves the cache as it was. The reply to
/// send is handed back only after that, so the result is published
/// before the client can see it.
pub fn finish_job(service: &mut ShellService, job: Job, resp: CompsysResponse) -> (reply: CompsysResponse)
    requires
        old(service)@.busy,
        forall|i: int|
            0 <= i < resp.matches@.len() ==> #[trigger] resp.matches@[i].replace_start == word_start(
                job.line@,
                job.cursor,
            ) as usize,
    ensures
        reply == resp,
        final(service)@.started == old(service)@.started,
        final(service)@.ready == old(service)@.ready,
        final(service)@.shard_rows == old(service)@.shard_rows,
        !final(service)@.busy,
        published(old(service)@.last_result, final(service)@.last_result, job, resp),
{
    proof {
        use_type_invariant(&*service);
    }
    service.busy = false;
    if resp.matches.len() > 0 {
        let finished_at = clock_now();
        let matches = copy_matches(&resp.matches);
        let entry = CachedDispatch { line: job.line, cursor: job.cursor, matches, finished_at };
        assert(well_placed(entry@));
        service.last_result = Some(entry);
    }
    resp
}

/// The exec policy is armed exactly while the engine runs: the engine
/// sees the job's `(allow_exec, deadline)`, and the shell thread is left
/// with none once the dispatch is over.
pub proof fn lemma_exec_policy_only_during_dispatch(
    p: EditorState,
    mid: EditorState,
    f: EditorState,
    s: EditorState,
    job: Job,
)
    requires
        is_prepared(p, s, job),
        is_restored(f, mid, s),
    ensures
        p.exec_policy == Some((job.allow_exec, job.deadline)),
        f.exec_policy is None,
{
}

/// Every dispatch is a fresh first Tab: whatever menu state the shell
/// thread was in, the engine starts from no menu, no earlier list, and an
/// empty capture.
pub proof fn lemma_dispatch_starts_fresh(p: EditorState, s: EditorState, job: Job)
    requires
        is_prepared(p, s, job),
    ensures
        p.menu == fresh_menu(),
        p.capture matches Some(v) && v@.len() == 0,
{
}

/// Dispatching the same job twice hands the engine the same state, field
/// by field, whatever state (menu, buffers, parameters) the shell thread
/// was in before each: the menu a first dispatch leaves cannot turn the
/// second into a menu step. An engine that depends only on what it is
/// handed therefore captures the same matches both times.
pub proof fn lemma_same_job_same_start(p1: EditorState, s1: EditorState, p2: EditorState, s2: EditorState, job: Job)
    requires
        is_prepared(p1, s1, job),
        is_prepared(p2, s2, job),
    ensures
        p1.comp_line@ == p2.comp_line@,
        p1.comp_cursor == p2.comp_cursor,
        p1.comp_len == p2.comp_len,
        p1.edit_line@ == p2.edit_line@,
        p1.edit_cursor == p2.edit_cursor,
        p1.edit_len == p2.edit_len,
        p1.curcontext->0@ == p2.curcontext->0@,
        p1.columns == p2.columns,
        p1.lines == p2.lines,
        p1.compfunc->0@ == p2.compfunc->0@,
        p1.capture->0@ == p2.capture->0@,
        p1.menu == p2.menu,
        p1.exec_policy == p2.exec_policy,
        p1.replace_start == p2.replace_start,
{
    assert(p1.capture->0@ =~= p2.capture->0@);
}

/// A dispatch leaves the shell thread as it found it, but for the menu
/// state the engine left: on a thread with no capture and no exec policy
/// (as between dispatches), everything else is restored.
pub proof fn lemma_dispatch_restores_state(f: EditorState, mid: EditorState, s: EditorState)
    requires
        is_restored(f, mid, s),
        s.capture is None,
        s.exec_policy is None,
    ensures
        f == (EditorState { menu: mid.menu, ..s }),
{
}

/// Starting the shell thread is idempotent: on a started service the
/// bootstrap changes nothing (and reports nothing to spawn).
pub proof fn lemma_bootstrap_idempotent(v: ServiceView)
    requires
        v.started,
    ensures
        (ServiceView { started: true, ..v }) == v,
{
}

/// The shell thread's protocol: it finishes its bootstrap once, before it
/// takes any job; after the bootstrap it takes jobs one at a time, and it
/// never bootstraps again.
pub proof fn lemma_bootstrap_then_jobs(v: ServiceView, rows: usize)
    requires
        service_wf(v),
    ensures
        may_finish_bootstrap(v) ==> !may_take_job(v),
        may_take_job(v) ==> !may_finish_bootstrap(v),
        v.busy ==> !may_take_job(v) && !may_finish_bootstrap(v),
        may_finish_bootstrap(v) ==> {
            let after = ServiceView { shard_rows: rows, ready: true, ..v };
            &&& !may_finish_bootstrap(after)
            &&& may_take_job(after)
        },
        may_take_job(v) ==> {
            let busy = ServiceView { busy: true, ..v };
            &&& !may_take_job(busy)
            &&& !may_finish_bootstrap(busy)
        },
{
}

/// A dispatch that overran its budget finished in the background and was
/// published; the client's retry for the same line and cursor, while the
/// published dispatch is younger than the time to live, is answered from
/// the cache with exactly the published matches.
pub proof fn lemma_published_result_answers_retry(
    before: ServiceView,
    after: ServiceView,
    job: Job,
    resp: CompsysResponse,
    age_nanos: u128,
)
    requires
        after.ready,
        published(before.last_result, after.last_result, job, resp),
        resp.matches@.len() > 0,
        age_nanos < LAST_RESULT_TTL_NANOS,
    ensures
        cache_hit(after, job.line@, job.cursor, Some(age_nanos)),
        after.last_result->0.matches == resp.matches@,
{
}

/// A cached dispatch answers only its own line and cursor, and only while
/// it is younger than the time to live.
pub proof fn lemma_cache_answers_only_its_request(
    service: ServiceView,
    line: Seq<char>,
    cursor: usize,
    age_nanos: u128,
)
    requires
        answered_from_cache(service, line, cursor, age_nanos),
    ensures
        service.last_result->0.line == line,
        service.last_result->0.cursor == cursor,
        age_nanos < LAST_RESULT_TTL_NANOS,
{
}

/// A cached dispatch is served once: after a request was answered from
/// the cache (which the answer empties), no request is answered from it
/// again until another dispatch is published.
pub proof fn lemma_cache_served_once(service: ServiceView, line: Seq<char>, cursor: usize, age_nanos: Option<u128>)
    requires
        service.last_result is None,
    ensures
        !cache_hit(service, line, cursor, age_nanos),
{
}

/// A plan never serves a cached dispatch that was read as old as the time
/// to live or older, nor one made for another line or cursor: such a
/// request is dispatched afresh and the cache is kept. A fresh one for the
/// same line and cursor, on a serving service, is always served.
pub proof fn lemma_plan_serves_only_fresh_entries(
    old: ServiceView,
    new: ServiceView,
    line: Seq<char>,
    cursor: usize,
    allow_exec: bool,
    deadline: Instant,
    age_nanos: u128,
    remaining_nanos: u128,
    r: CompletePlan,
)
    requires
        old.ready,
        old.last_result is Some,
        is_plan(old, new, line, cursor, allow_exec, deadline, Some(age_nanos), remaining_nanos, r),
    ensures
        (age_nanos >= LAST_RESULT_TTL_NANOS || old.last_result->0.line != line
            || old.last_result->0.cursor != cursor) ==> {
            &&& r.step is Dispatch
            &&& new.last_result == old.last_result
        },
        (age_nanos < LAST_RESULT_TTL_NANOS && old.last_result->0.line == line
            && old.last_result->0.cursor == cursor) ==> {
            &&& r.step matches CompleteStep::Answer(a) && a.matches@ == old.last_result->0.matches
                && !a.is_incomplete
            &&& new.last_result is None
        },
{
}

} // verus!

//! The batch-rename engine.
//!
//! A [`RenameEngine`] owns an immutable snapshot of a directory's entries,
//! captured once when the directory is opened, together with a cursor into
//! that snapshot, a `skip_count` truncation parameter, a status message and
//! an idle/running flag.  An external driver lists directories, supplies
//! timestamps, invokes one [`RenameEngine::step`] per timer tick while the
//! engine is running, and performs the [`RenameRequest`] that each step
//! returns.  Timestamps are plain unsigned ticks in whatever unit the driver
//! chooses (the driver in this crate uses milliseconds).

use vstd::prelude::*;
use vstd::string::StrSliceExecFns;
use vstd::string::StringExecFns;

verus! {

/// One directory entry as captured when a directory is opened: its full
/// path, its base name, and whether it is itself a directory.
#[derive(Debug, Clone, PartialEq, Eq)]
pub struct FsEntry {
    /// Path of the entry, as the directory listing reported it.
    pub path: String,
    /// Base name of the entry (the final path component).
    pub name: String,
    /// Whether the entry is a directory; directories are never renamed.
    pub is_dir: bool,
}

/// The mathematical value of an [`FsEntry`]: both strings as character
/// sequences.
pub ghost struct FsEntryView {
    pub path: Seq<char>,
    pub name: Seq<char>,
    pub is_dir: bool,
}

impl View for FsEntry {
    type V = FsEntryView;

    open spec fn view(&self) -> FsEntryView {
        FsEntryView { path: self.path@, name: self.name@, is_dir: self.is_dir }
    }
}

/// The views of a sequence of entries, in order.
pub open spec fn entries_view(s: Seq<FsEntry>) -> Seq<FsEntryView> {
    s.map_values(|e: FsEntry| e@)
}

/// Why an engine operation failed.
#[derive(Clone, Copy, Debug, PartialEq, Eq, Structural)]
pub enum EngineError {
    /// The path handed to `open_directory` could not be listed.
    DirectoryUnreadable,
    /// `start` was invoked before any directory was opened.
    NothingToProcess,
    /// `step` was invoked with the cursor already past the last entry; the
    /// run is abandoned and the engine forced back to idle.
    NoCurrentEntry,
}

/// The new base name for a file: its name with the first `k` characters
/// dropped; the empty sequence when `k` exceeds the name's length.
pub open spec fn spec_new_name(name: Seq<char>, k: int) -> Seq<char> {
    if k <= name.len() {
        name.skip(k)
    } else {
        Seq::empty()
    }
}

/// The destination path for a renamed file: the directory path, a `/`
/// separator, and the new base name.
pub open spec fn spec_dest_path(dir: Seq<char>, name: Seq<char>) -> Seq<char> {
    dir + seq!['/'] + name
}

/// Computes the new base name for a file: `name` with its first `k`
/// characters removed, or the empty string when `k` exceeds the number of
/// characters in `name`.
pub fn compute_new_name(name: &str, k: usize) -> (r: String)
    ensures
        r@ == spec_new_name(name@, k as int),
{
    let len = name.unicode_len();
    if k <= len {
        let tail = name.substring_char(k, len);
        tail.to_owned()
    } else {
        String::new()
    }
}

/// Whether the engine is idle or in the middle of a run; while running it
/// remembers the timestamp of the most recent step.
#[derive(Clone, Copy, Debug, PartialEq, Eq, Structural)]
pub enum EngineState {
    Idle,
    Running { last_tick: u64 },
}

/// The mathematical value of an [`EngineState`].
pub ghost enum StateView {
    Idle,
    Running { last_tick: int },
}

impl View for EngineState {
    type V = StateView;

    open spec fn view(&self) -> StateView {
        match self {
            EngineState::Idle => StateView::Idle,
            EngineState::Running { last_tick } => StateView::Running {
                last_tick: *last_tick as int,
            },
        }
    }
}

/// A rename the driver is asked to carry out: move the file at `from` to
/// `to`.  The engine never touches the filesystem itself.
#[derive(Debug, Clone, PartialEq, Eq)]
pub struct RenameRequest {
    pub from: String,
    pub to: String,
}

/// The mathematical value of a [`RenameRequest`].
pub ghost struct RenameRequestView {
    pub from: Seq<char>,
    pub to: Seq<char>,
}

impl View for RenameRequest {
    type V = RenameRequestView;

    open spec fn view(&self) -> RenameRequestView {
        RenameRequestView { from: self.from@, to: self.to@ }
    }
}

/// What one step hands back to the driver: the updated progress percentage,
/// the accumulated elapsed time, the current status message, and the rename
/// to perform, if the entry just processed was a file.
#[derive(Debug, Clone, PartialEq, Eq)]
pub struct StepOutcome {
    pub progress: u64,
    pub elapsed: u64,
    pub message: String,
    pub action: Option<RenameRequest>,
}

/// The mathematical value of a [`StepOutcome`].
pub ghost struct StepOutcomeView {
    pub progress: int,
    pub elapsed: int,
    pub message: Seq<char>,
    pub action: Option<RenameRequestView>,
}

impl View for StepOutcome {
    type V = StepOutcomeView;

    open spec fn view(&self) -> StepOutcomeView {
        StepOutcomeView {
            progress: self.progress as int,
            elapsed: self.elapsed as int,
            message: self.message@,
            action: match self.action {
                Option::None => Option::None,
                Option::Some(rr) => Option::Some(rr@),
            },
        }
    }
}

/// Joins a directory path and a base name with a `/` separator.
pub fn join_path(dir: &str, name: &str) -> (r: String)
    ensures
        r@ == spec_dest_path(dir@, name@),
{
    let mut out = dir.to_owned();
    out.append("/");
    out.append(name);
    proof {
        reveal_strlit("/");
        assert("/"@ =~= seq!['/']);
        assert(out@ =~= spec_dest_path(dir@, name@));
    }
    out
}

/// The mathematical value of a [`RenameEngine`]: every contract below is
/// stated as a transition on this record.
#[verifier::ext_equal]
pub ghost struct EngineView {
    /// Path of the opened directory; empty while none has been opened.
    pub dir_path: Seq<char>,
    /// The snapshot: the entries listed when the directory was opened.
    pub entries: Seq<FsEntryView>,
    /// How many leading characters each file's base name loses.
    pub skip_count: int,
    /// Cursor: how many entries of the snapshot have been processed.
    pub index: int,
    /// The status message: the new name of the last file processed.
    pub message: Seq<char>,
    /// Accumulated run time, in driver ticks.
    pub elapsed: int,
    /// Idle, or running with the timestamp of the most recent step.
    pub state: StateView,
}

/// `elapsed` advanced by the time from `last` to `now`, never negative and
/// saturating at the largest representable tick count.
pub open spec fn advance_elapsed(elapsed: int, last: int, now: int) -> int {
    let delta = if now >= last {
        now - last
    } else {
        0
    };
    if elapsed + delta <= u64::MAX {
        elapsed + delta
    } else {
        u64::MAX as int
    }
}

impl EngineView {
    /// How many entries the snapshot holds.
    pub open spec fn total(self) -> int {
        self.entries.len() as int
    }

    /// The derived progress percentage: the share of the snapshot already
    /// processed, in whole percentage points; 0 for an empty snapshot.
    pub open spec fn progress(self) -> int {
        if self.total() == 0 {
            0
        } else {
            self.index * 100 / self.total()
        }
    }

    /// The engine's invariant: the cursor stays within the snapshot, and a
    /// running engine always has a current entry (unless the snapshot is
    /// empty, in which case the first step abandons the run).
    pub open spec fn inv(self) -> bool {
        &&& 0 <= self.index <= self.total()
        &&& self.state is Running ==> self.index < self.total() || self.total() == 0
    }

    /// The freshly constructed engine: nothing opened, everything empty.
    pub open spec fn init() -> EngineView {
        EngineView {
            dir_path: Seq::empty(),
            entries: Seq::empty(),
            skip_count: 0,
            index: 0,
            message: Seq::empty(),
            elapsed: 0,
            state: StateView::Idle,
        }
    }

    /// After a directory is opened: the snapshot is replaced, the cursor
    /// and the status message are reset, and the engine is idle.
    pub open spec fn opened(self, path: Seq<char>, listing: Seq<FsEntryView>) -> EngineView {
        EngineView {
            dir_path: path,
            entries: listing,
            index: 0,
            message: Seq::empty(),
            state: StateView::Idle,
            ..self
        }
    }

    /// After a successful `start`: the cursor and the accumulated time are
    /// reset and the engine runs, with `now` recorded as the last tick.
    /// Starting is refused while no directory is opened, and is a no-op on
    /// an engine that is already running.
    pub open spec fn started(self, now: int) -> EngineView {
        if self.dir_path.len() == 0 || self.state is Running {
            self
        } else {
            EngineView {
                index: 0,
                elapsed: 0,
                state: StateView::Running { last_tick: now },
                ..self
            }
        }
    }

    /// The entry the cursor points at.
    pub open spec fn current_entry(self) -> FsEntryView
        recommends
            0 <= self.index < self.total(),
    {
        self.entries[self.index]
    }

    /// The status message after one running step: unchanged for a
    /// directory entry, the computed new name for a file.
    pub open spec fn step_message(self) -> Seq<char>
        recommends
            0 <= self.index < self.total(),
    {
        if self.current_entry().is_dir {
            self.message
        } else {
            spec_new_name(self.current_entry().name, self.skip_count)
        }
    }

    /// The rename one running step asks the driver to perform: none for a
    /// directory entry; for a file, from its snapshotted path to the opened
    /// directory joined with the computed new name.
    pub open spec fn step_action(self) -> Option<RenameRequestView>
        recommends
            0 <= self.index < self.total(),
    {
        if self.current_entry().is_dir {
            Option::None
        } else {
            Option::Some(
                RenameRequestView {
                    from: self.current_entry().path,
                    to: spec_dest_path(
                        self.dir_path,
                        spec_new_name(self.current_entry().name, self.skip_count),
                    ),
                },
            )
        }
    }

    /// One running step over the current entry: the message is updated, the
    /// elapsed time advances to `now`, the cursor moves on, and the engine
    /// goes idle when the snapshot is exhausted.
    pub open spec fn stepped(self, now: int) -> EngineView
        recommends
            self.state is Running,
            0 <= self.index < self.total(),
    {
        EngineView {
            message: self.step_message(),
            elapsed: advance_elapsed(self.elapsed, self.state->last_tick, now),
            index: self.index + 1,
            state: if self.index + 1 == self.total() {
                StateView::Idle
            } else {
                StateView::Running { last_tick: now }
            },
            ..self
        }
    }

    /// The full transition of one `step` call: with the cursor past the end
    /// the run is abandoned and the engine forced idle; an idle engine is
    /// left untouched; a running engine processes its current entry.
    pub open spec fn next_state(self, now: int) -> EngineView {
        if self.index >= self.total() {
            EngineView { state: StateView::Idle, ..self }
        } else if self.state is Running {
            self.stepped(now)
        } else {
            self
        }
    }
}

/// A read-only snapshot of the engine for rendering: the state, the
/// derived progress percentage, the status message and the elapsed time.
#[derive(Debug, Clone, PartialEq, Eq)]
pub struct EngineStatus {
    pub state: EngineState,
    pub progress: u64,
    pub message: String,
    pub elapsed: u64,
}

/// The batch-rename engine.  See the module documentation for the driving
/// protocol.
pub struct RenameEngine {
    dir_path: String,
    entries: Vec<FsEntry>,
    skip_count: usize,
    index: usize,
    message: String,
    elapsed: u64,
    state: EngineState,
}

impl View for RenameEngine {
    type V = EngineView;

    closed spec fn view(&self) -> EngineView {
        EngineView {
            dir_path: self.dir_path@,
            entries: entries_view(self.entries@),
            skip_count: self.skip_count as int,
            index: self.index as int,
            message: self.message@,
            elapsed: self.elapsed as int,
            state: self.state@,
        }
    }
}

impl RenameEngine {
    /// Well-formedness: the engine's invariant holds of its value.
    pub open spec fn wf(self) -> bool {
        self@.inv()
    }

    /// A fresh engine: no directory opened, empty snapshot, idle.
    pub fn new() -> (e: RenameEngine)
        ensures
            e.wf(),
            e@ == EngineView::init(),
    {
        let e = RenameEngine {
            dir_path: String::new(),
            entries: Vec::new(),
            skip_count: 0,
            index: 0,
            message: String::new(),
            elapsed: 0,
            state: EngineState::Idle,
        };
        proof {
            assert(e@ =~= EngineView::init());
        }
        e
    }

    /// Replaces the snapshot with the listing of `path`, as the driver's
    /// directory-listing collaborator reported it: `Some` entries on
    /// success, `None` where the path does not exist, is not a directory,
    /// or could not be listed.  On success the cursor, progress and status
    /// message are reset and the engine is idle; on failure the engine —
    /// the prior snapshot included — is left exactly as it was.
    pub fn open_directory(&mut self, path: &str, listing: Option<Vec<FsEntry>>) -> (r: Result<
        (),
        EngineError,
    >)
        requires
            old(self).wf(),
        ensures
            final(self).wf(),
            r is Ok <==> listing is Some,
            r matches Err(e) ==> e == EngineError::DirectoryUnreadable,
            listing is None ==> *final(self) == *old(self),
            listing matches Some(es) ==> final(self)@ == old(self)@.opened(
                path@,
                entries_view(es@),
            ),
    {
        match listing {
            Option::None => Err(EngineError::DirectoryUnreadable),
            Option::Some(es) => {
                self.dir_path = path.to_owned();
                self.entries = es;
                self.index = 0;
                self.message = String::new();
                self.state = EngineState::Idle;
                proof {
                    assert(self@ =~= old(self)@.opened(path@, entries_view(self.entries@)));
                }
                Ok(())
            },
        }
    }

    /// Stores `n` as the number of leading characters to drop.  Meaningful
    /// only between runs: while the engine is running the call is a no-op,
    /// so that a run never changes parameters midway.
    pub fn set_skip_count(&mut self, n: usize)
        requires
            old(self).wf(),
        ensures
            final(self).wf(),
            old(self)@.state is Idle ==> final(self)@ == (EngineView {
                skip_count: n as int,
                ..old(self)@
            }),
            old(self)@.state is Running ==> *final(self) == *old(self),
    {
        match self.state {
            EngineState::Idle => {
                self.skip_count = n;
                proof {
                    assert(self@ =~= EngineView { skip_count: n as int, ..old(self)@ });
                }
            },
            EngineState::Running { .. } => {},
        }
    }

    /// Begins a run: resets the cursor, the progress and the accumulated
    /// time, and records `now` as the last tick.  Fails with
    /// `NothingToProcess`, leaving the engine untouched, when no directory
    /// has been opened; a no-op when already running.
    pub fn start(&mut self, now: u64) -> (r: Result<(), EngineError>)
        requires
            old(self).wf(),
        ensures
            final(self).wf(),
            final(self)@ == old(self)@.started(now as int),
            r is Err <==> old(self)@.dir_path.len() == 0,
            r matches Err(e) ==> e == EngineError::NothingToProcess,
            old(self)@.dir_path.len() == 0 ==> *final(self) == *old(self),
    {
        if self.dir_path.as_str().is_empty() {
            return Err(EngineError::NothingToProcess);
        }
        match self.state {
            EngineState::Running { .. } => Ok(()),
            EngineState::Idle => {
                self.index = 0;
                self.elapsed = 0;
                self.state = EngineState::Running { last_tick: now };
                proof {
                    assert(self@ =~= old(self)@.started(now as int));
                }
                Ok(())
            },
        }
    }

    /// The derived progress percentage, between 0 and 100.
    pub fn current_progress(&self) -> (p: u64)
        requires
            self.wf(),
        ensures
            p as int == self@.progress(),
            0 <= p <= 100,
    {
        let total = self.entries.len();
        if total == 0 {
            0
        } else {
            let wide: u128 = (self.index as u128) * 100 / (total as u128);
            proof {
                lemma_progress_bounded(self.index as int, total as int);
            }
            wide as u64
        }
    }

    /// A read-only snapshot of the engine for rendering; no side effects.
    pub fn current_state(&self) -> (s: EngineStatus)
        requires
            self.wf(),
        ensures
            s.state@ == self@.state,
            s.progress as int == self@.progress(),
            s.message@ == self@.message,
            s.elapsed as int == self@.elapsed,
    {
        EngineStatus {
            state: self.state,
            progress: self.current_progress(),
            message: self.message.clone(),
            elapsed: self.elapsed,
        }
    }

    /// The configured number of leading characters to drop.
    pub fn skip_count(&self) -> (n: usize)
        ensures
            n as int == self@.skip_count,
    {
        self.skip_count
    }

    /// The current snapshot.
    pub fn entries(&self) -> (r: &Vec<FsEntry>)
        ensures
            entries_view(r@) == self@.entries,
    {
        &self.entries
    }

    /// One unit of work, to be invoked by the driver once per timer tick
    /// while the engine is running.  Processes the entry under the cursor:
    /// a directory is skipped; for a file the new name is computed, the
    /// status message is set to it, and the returned outcome carries the
    /// rename for the driver to attempt (the driver ignores its failure,
    /// and progress advances either way).  With the cursor already past the
    /// last entry the call fails with `NoCurrentEntry` and forces the
    /// engine idle; on an idle engine with entries left it changes nothing
    /// and reports the current standing.
    pub fn step(&mut self, now: u64) -> (r: Result<StepOutcome, EngineError>)
        requires
            old(self).wf(),
        ensures
            final(self).wf(),
            final(self)@ == old(self)@.next_state(now as int),
            r is Err <==> old(self)@.index >= old(self)@.total(),
            r matches Err(e) ==> e == EngineError::NoCurrentEntry,
            r matches Ok(out) ==> out@ == (StepOutcomeView {
                progress: final(self)@.progress(),
                elapsed: final(self)@.elapsed,
                message: final(self)@.message,
                action: if old(self)@.state is Running {
                    old(self)@.step_action()
                } else {
                    Option::None
                },
            }),
    {
        let total = self.entries.len();
        if self.index >= total {
            self.state = EngineState::Idle;
            proof {
                assert(self@ =~= EngineView { state: StateView::Idle, ..old(self)@ });
            }
            return Err(EngineError::NoCurrentEntry);
        }
        match self.state {
            EngineState::Idle => {
                let out = StepOutcome {
                    progress: self.current_progress(),
                    elapsed: self.elapsed,
                    message: self.message.clone(),
                    action: None,
                };
                Ok(out)
            },
            EngineState::Running { last_tick } => {
                let is_dir = self.entries[self.index].is_dir;
                let mut action: Option<RenameRequest> = None;
                if !is_dir {
                    let new_name = compute_new_name(
                        self.entries[self.index].name.as_str(),
                        self.skip_count,
                    );
                    let from = self.entries[self.index].path.clone();
                    let to = join_path(self.dir_path.as_str(), new_name.as_str());
                    action = Some(RenameRequest { from, to });
                    self.message = new_name;
                }
                let delta: u64 = if now >= last_tick {
                    now - last_tick
                } else {
                    0
                };
                self.elapsed = if delta <= u64::MAX - self.elapsed {
                    self.elapsed + delta
                } else {
                    u64::MAX
                };
                self.index = self.index + 1;
                if self.index == total {
                    self.state = EngineState::Idle;
                } else {
                    self.state = EngineState::Running { last_tick: now };
                }
                proof {
                    assert(self@ =~= old(self)@.stepped(now as int));
                }
                let out = StepOutcome {
                    progress: self.current_progress(),
                    elapsed: self.elapsed,
                    message: self.message.clone(),
                    action,
                };
                Ok(out)
            },
        }
    }
}

impl Default for RenameEngine {
    /// The same engine [`RenameEngine::new`] builds.
    fn default() -> (e: RenameEngine)
        ensures
            e.wf(),
            e@ == EngineView::init(),
    {
        RenameEngine::new()
    }
}

/// The engine after a whole sequence of steps: one [`EngineView::next_state`]
/// transition per timestamp in `nows`, in order.
pub open spec fn run_steps(v: EngineView, nows: Seq<int>) -> EngineView
    decreases nows.len(),
{
    if nows.len() == 0 {
        v
    } else {
        run_steps(v.next_state(nows[0]), nows.skip(1))
    }
}

/// Law: opening a directory twice with the same path and the same listing
/// gives the same engine as opening it once, and either opening leaves the
/// derived progress at 0.
pub proof fn lemma_open_directory_idempotent(
    v: EngineView,
    path: Seq<char>,
    listing: Seq<FsEntryView>,
)
    ensures
        v.opened(path, listing).opened(path, listing) == v.opened(path, listing),
        v.opened(path, listing).progress() == 0,
{
    assert(v.opened(path, listing).opened(path, listing) =~= v.opened(path, listing));
}

/// Law: a step over a directory entry issues no rename, yet advances the
/// cursor by one, so that the entry still counts toward the derived
/// progress percentage.
pub proof fn lemma_directory_entry_skipped(v: EngineView, now: int)
    requires
        v.inv(),
        v.state is Running,
        v.index < v.total(),
        v.current_entry().is_dir,
    ensures
        v.step_action() is None,
        v.next_state(now).index == v.index + 1,
        v.next_state(now).message == v.message,
        v.next_state(now).progress() == (v.index + 1) * 100 / v.total(),
{
}

/// A running engine with entries left finishes after exactly as many steps
/// as entries remain: the run ends idle, with the cursor on the snapshot's
/// end and the snapshot itself untouched.
proof fn lemma_running_run_completes(v: EngineView, nows: Seq<int>)
    requires
        v.inv(),
        v.state is Running,
        0 < v.total(),
        v.index + nows.len() == v.total(),
    ensures
        run_steps(v, nows).state is Idle,
        run_steps(v, nows).index == v.total(),
        run_steps(v, nows).entries == v.entries,
    decreases nows.len(),
{
    assert(v.index < v.total());
    let stepped = v.next_state(nows[0]);
    assert(stepped == v.stepped(nows[0]));
    if nows.len() == 1 {
        assert(stepped.state is Idle);
        assert(run_steps(stepped, nows.skip(1)) == stepped);
    } else {
        assert(stepped.state is Running);
        lemma_running_run_completes(stepped, nows.skip(1));
    }
}

/// Law: after a directory with `N > 0` entries is opened and a run is
/// started, exactly `N` steps finish the run: the engine ends idle, its
/// snapshot is still the listing it was opened with, and the derived
/// progress is exactly 100.
pub proof fn lemma_run_completes(
    v: EngineView,
    path: Seq<char>,
    listing: Seq<FsEntryView>,
    start_time: int,
    nows: Seq<int>,
)
    requires
        path.len() > 0,
        listing.len() > 0,
        nows.len() == listing.len(),
    ensures
        ({
            let done = run_steps(v.opened(path, listing).started(start_time), nows);
            &&& done.state is Idle
            &&& done.entries == listing
            &&& done.progress() == 100
        }),
{
    let started = v.opened(path, listing).started(start_time);
    assert(started.state is Running);
    assert(started.inv());
    lemma_running_run_completes(started, nows);
    let done = run_steps(started, nows);
    assert(done.index == listing.len());
    assert(done.progress() == done.index * 100 / done.total());
    assert(listing.len() as int * 100 / listing.len() as int == 100) by (nonlinear_arith)
        requires
            listing.len() > 0,
    ;
}

/// For `0 <= index <= total` with `total > 0`, the derived percentage
/// `index * 100 / total` lies between 0 and 100.
proof fn lemma_progress_bounded(index: int, total: int)
    requires
        0 <= index <= total,
        0 < total,
    ensures
        0 <= index * 100 / total <= 100,
{
    assert(0 <= index * 100 / total <= 100) by (nonlinear_arith)
        requires
            0 <= index <= total,
            0 < total,
    ;
}

} // verus!

//! The concurrent shortcut launcher: filtering a directory listing to
//! the indirect launch targets, classifying the numeric result code of
//! the OS "open" call, and aggregating per-target outcomes without
//! aborting the batch; plus the state machine of one run of the batch
//! launcher, from the persisted shortcut-directory lookup through the
//! first-run prompt to the launch.

use vstd::prelude::*;
use crate::text::{has_lnk_ext, trimmed, trim_spaces, chars_of, path_has_lnk_ext};
use crate::sources::{Hive, StoreQuery};

verus! {

/// The store entry that persists the shortcut directory between runs.
pub fn shortcut_dir_query() -> (q: StoreQuery)
    ensures
        q.hive == Hive::CurrentUser,
        q.subkey@ == "Software\\QuickLauncher"@,
        q.value_name@ == "ShortcutDir"@,
{
    StoreQuery {
        hive: Hive::CurrentUser,
        subkey: "Software\\QuickLauncher",
        value_name: "ShortcutDir",
    }
}

// ---------------------------------------------------------------------------
// Target filtering
// ---------------------------------------------------------------------------

/// The filter for indirect launch targets: paths whose extension is
/// exactly `lnk` (the match is case-sensitive).
pub open spec fn lnk_filter() -> spec_fn(Seq<char>) -> bool {
    |p: Seq<char>| has_lnk_ext(p)
}

/// Keeps, in order, the paths of regular files whose extension marks
/// them as shortcut files.
pub fn shortcut_targets(files: &Vec<String>) -> (r: Vec<String>)
    ensures
        r.deep_view() == files.deep_view().filter(lnk_filter()),
{
    let mut r: Vec<String> = Vec::new();
    proof {
        assert(files.deep_view().take(0) =~= Seq::<Seq<char>>::empty());
        reveal(Seq::filter);
    }
    let mut i: usize = 0;
    while i < files.len()
        invariant
            i <= files.len(),
            r.deep_view() == files.deep_view().take(i as int).filter(lnk_filter()),
        decreases files.len() - i,
    {
        let v = chars_of(files[i].as_str());
        if path_has_lnk_ext(&v) {
            r.push(files[i].clone());
        }
        proof {
            let fv = files.deep_view();
            assert(fv.take(i + 1).drop_last() =~= fv.take(i as int));
            assert(fv.take(i + 1).last() == fv[i as int]);
            reveal(Seq::filter);
            assert(r.deep_view() =~= fv.take(i + 1).filter(lnk_filter()));
        }
        i = i + 1;
    }
    proof {
        assert(files.deep_view().take(files@.len() as int) =~= files.deep_view());
    }
    r
}

// ---------------------------------------------------------------------------
// Result codes of the OS "open" call
// ---------------------------------------------------------------------------

/// The largest result code that still indicates failure.
pub const FAILURE_CODE_MAX: usize = 32;

/// Whether an "open" result code indicates failure.
pub open spec fn is_failure_code_spec(code: usize) -> bool {
    code <= 32
}

/// Runtime counterpart of [`is_failure_code_spec`].
pub fn is_failure_code(code: usize) -> (b: bool)
    ensures
        b == is_failure_code_spec(code),
{
    code <= FAILURE_CODE_MAX
}

/// The human-readable reason behind a failing "open" result code.
#[derive(Clone, Copy, PartialEq, Eq, Structural, Debug)]
pub enum FailureReason {
    OutOfResources,
    FileNotFound,
    PathNotFound,
    AccessDenied,
    OutOfMemory,
    InvalidFormat,
    SharingViolation,
    IncompleteAssociation,
    DdeTimeout,
    DdeFailed,
    DdeBusy,
    DdeNoResponse,
    DdeAdviseTimeout,
    Unknown,
}

/// The fixed, total code-to-reason table, with its explicit default.
pub open spec fn reason_spec(code: usize) -> FailureReason {
    if code == 0 {
        FailureReason::OutOfResources
    } else if code == 2 {
        FailureReason::FileNotFound
    } else if code == 3 {
        FailureReason::PathNotFound
    } else if code == 5 {
        FailureReason::AccessDenied
    } else if code == 8 {
        FailureReason::OutOfMemory
    } else if code == 11 {
        FailureReason::InvalidFormat
    } else if code == 26 {
        FailureReason::SharingViolation
    } else if code == 27 {
        FailureReason::IncompleteAssociation
    } else if code == 28 {
        FailureReason::DdeTimeout
    } else if code == 29 {
        FailureReason::DdeFailed
    } else if code == 30 {
        FailureReason::DdeBusy
    } else if code == 31 {
        FailureReason::DdeNoResponse
    } else if code == 32 {
        FailureReason::DdeAdviseTimeout
    } else {
        FailureReason::Unknown
    }
}

/// Runtime counterpart of [`reason_spec`].
pub fn reason_for_code(code: usize) -> (r: FailureReason)
    ensures
        r == reason_spec(code),
{
    if code == 0 {
        FailureReason::OutOfResources
    } else if code == 2 {
        FailureReason::FileNotFound
    } else if code == 3 {
        FailureReason::PathNotFound
    } else if code == 5 {
        FailureReason::AccessDenied
    } else if code == 8 {
        FailureReason::OutOfMemory
    } else if code == 11 {
        FailureReason::InvalidFormat
    } else if code == 26 {
        FailureReason::SharingViolation
    } else if code == 27 {
        FailureReason::IncompleteAssociation
    } else if code == 28 {
        FailureReason::DdeTimeout
    } else if code == 29 {
        FailureReason::DdeFailed
    } else if code == 30 {
        FailureReason::DdeBusy
    } else if code == 31 {
        FailureReason::DdeNoResponse
    } else if code == 32 {
        FailureReason::DdeAdviseTimeout
    } else {
        FailureReason::Unknown
    }
}

/// The diagnostic text of each reason.
pub open spec fn reason_message_spec(r: FailureReason) -> Seq<char> {
    match r {
        FailureReason::OutOfResources => "out of memory or system resources"@,
        FailureReason::FileNotFound => "file not found"@,
        FailureReason::PathNotFound => "path not found"@,
        FailureReason::AccessDenied => "access denied"@,
        FailureReason::OutOfMemory => "out of memory"@,
        FailureReason::InvalidFormat => "invalid executable format"@,
        FailureReason::SharingViolation => "sharing violation"@,
        FailureReason::IncompleteAssociation => "file association incomplete or invalid"@,
        FailureReason::DdeTimeout => "DDE transaction timed out"@,
        FailureReason::DdeFailed => "DDE transaction failed"@,
        FailureReason::DdeBusy => "DDE is busy"@,
        FailureReason::DdeNoResponse => "no response from DDE"@,
        FailureReason::DdeAdviseTimeout => "DDE advise timed out"@,
        FailureReason::Unknown => "unknown error"@,
    }
}

/// Runtime counterpart of [`reason_message_spec`].
pub fn reason_message(r: FailureReason) -> (m: String)
    ensures
        m@ == reason_message_spec(r),
{
    match r {
        FailureReason::OutOfResources => String::from_str("out of memory or system resources"),
        FailureReason::FileNotFound => String::from_str("file not found"),
        FailureReason::PathNotFound => String::from_str("path not found"),
        FailureReason::AccessDenied => String::from_str("access denied"),
        FailureReason::OutOfMemory => String::from_str("out of memory"),
        FailureReason::InvalidFormat => String::from_str("invalid executable format"),
        FailureReason::SharingViolation => String::from_str("sharing violation"),
        FailureReason::IncompleteAssociation => String::from_str(
            "file association incomplete or invalid",
        ),
        FailureReason::DdeTimeout => String::from_str("DDE transaction timed out"),
        FailureReason::DdeFailed => String::from_str("DDE transaction failed"),
        FailureReason::DdeBusy => String::from_str("DDE is busy"),
        FailureReason::DdeNoResponse => String::from_str("no response from DDE"),
        FailureReason::DdeAdviseTimeout => String::from_str("DDE advise timed out"),
        FailureReason::Unknown => String::from_str("unknown error"),
    }
}

// ---------------------------------------------------------------------------
// Per-target outcome aggregation
// ---------------------------------------------------------------------------

/// The raw outcome one worker reports: the target it opened and the
/// numeric result code of the call.
pub struct ShellOpenResult {
    pub path: String,
    pub code: usize,
}

/// A classified failure of one target.
pub struct LaunchFailure {
    pub path: String,
    pub code: usize,
    pub reason: FailureReason,
}

/// The filter for failing (path, code) outcomes.
pub open spec fn failure_filter() -> spec_fn((Seq<char>, usize)) -> bool {
    |pc: (Seq<char>, usize)| pc.1 <= 32
}

/// A (path, code) view of worker outcomes.
pub open spec fn outcome_pairs(rs: Seq<ShellOpenResult>) -> Seq<(Seq<char>, usize)> {
    rs.map_values(|r: ShellOpenResult| (r.path@, r.code))
}

/// A (path, code) view of classified failures.
pub open spec fn failure_pairs(fs: Seq<LaunchFailure>) -> Seq<(Seq<char>, usize)> {
    fs.map_values(|f: LaunchFailure| (f.path@, f.code))
}

/// Collects the failing outcomes of a batch: exactly the outcomes whose
/// code is at or below the failure threshold, in report order, each
/// attributed to its own target and classified by the fixed table.
/// Successes are dropped; no failure aborts the collection.
pub fn batch_failures(results: &Vec<ShellOpenResult>) -> (fails: Vec<LaunchFailure>)
    ensures
        failure_pairs(fails@) == outcome_pairs(results@).filter(failure_filter()),
        forall|i: int| 0 <= i < fails@.len() ==> (#[trigger] fails@[i]).reason == reason_spec(
            fails@[i].code,
        ),
{
    let mut fails: Vec<LaunchFailure> = Vec::new();
    proof {
        assert(outcome_pairs(results@.take(0)) =~= Seq::<(Seq<char>, usize)>::empty());
        reveal(Seq::filter);
        assert(failure_pairs(fails@) =~= outcome_pairs(results@.take(0)).filter(failure_filter()));
    }
    let mut i: usize = 0;
    while i < results.len()
        invariant
            i <= results.len(),
            failure_pairs(fails@) == outcome_pairs(results@.take(i as int)).filter(
                failure_filter(),
            ),
            forall|k: int| 0 <= k < fails@.len() ==> (#[trigger] fails@[k]).reason == reason_spec(
                fails@[k].code,
            ),
        decreases results.len() - i,
    {
        let code = results[i].code;
        if is_failure_code(code) {
            let reason = reason_for_code(code);
            fails.push(
                LaunchFailure { path: results[i].path.clone(), code, reason },
            );
        }
        proof {
            let pairs = outcome_pairs(results@.take(i + 1));
            assert(pairs.drop_last() =~= outcome_pairs(results@.take(i as int)));
            assert(pairs.last() == (results@[i as int].path@, results@[i as int].code));
            reveal(Seq::filter);
            assert(failure_pairs(fails@) =~= pairs.filter(failure_filter()));
        }
        i = i + 1;
    }
    proof {
        assert(results@.take(results@.len() as int) =~= results@);
    }
    fails
}

proof fn lemma_filter_none(ps: Seq<(Seq<char>, usize)>)
    requires
        forall|j: int| 0 <= j < ps.len() ==> !failure_filter()((#[trigger] ps[j])),
    ensures
        ps.filter(failure_filter()) =~= Seq::<(Seq<char>, usize)>::empty(),
    decreases ps.len(),
{
    reveal(Seq::filter);
    if ps.len() > 0 {
        lemma_filter_none(ps.drop_last());
    }
}

/// A batch in which exactly one worker fails reports exactly one
/// failure, attributed to that worker's target: joining the others'
/// successes neither hides the failure nor invents another.
pub proof fn lemma_single_failure(ps: Seq<(Seq<char>, usize)>, k: int)
    requires
        0 <= k < ps.len(),
        ps[k].1 <= 32,
        forall|j: int| 0 <= j < ps.len() && j != k ==> (#[trigger] ps[j]).1 > 32,
    ensures
        ps.filter(failure_filter()) =~= seq![ps[k]],
    decreases ps.len(),
{
    reveal(Seq::filter);
    if k == ps.len() - 1 {
        lemma_filter_none(ps.drop_last());
    } else {
        lemma_single_failure(ps.drop_last(), k);
    }
}

// ---------------------------------------------------------------------------
// The batch launcher's run
// ---------------------------------------------------------------------------

/// What the batch machine awaits.
#[derive(Clone, Copy, PartialEq, Eq, Structural, Debug)]
pub enum BatchPhase {
    /// Awaiting the persisted shortcut-directory value.
    ReadingDir,
    /// Awaiting the directory-existence check of the stored value.
    CheckingDir,
    /// First run: awaiting the user's choice whether to pick a directory.
    Confirming,
    /// Awaiting the directory picker's result.
    PickingDir,
    /// Awaiting the result of persisting the picked directory.
    SavingDir,
    /// Awaiting completion of the concurrent batch launch.
    Launching,
    /// The run is over.
    Done,
}

/// What the surrounding program must perform next for the batch run.
pub enum BatchAction {
    /// Read the persisted shortcut-directory value; answer with
    /// `BatchEvent::Value`.
    ReadDir,
    /// Check whether the path is an existing directory; answer with
    /// `BatchEvent::DirIs`.
    CheckDir(String),
    /// Ask whether to pick the shortcut directory now (first run);
    /// answer with `BatchEvent::ConfirmIs`.
    AskConfirm,
    /// Show a directory picker; answer with `BatchEvent::Picked`.
    AskPick,
    /// Persist the path as the shortcut directory; answer with
    /// `BatchEvent::SaveDone` (a failed write is only a warning).
    SaveDir(String),
    /// Launch every shortcut file of the directory concurrently, one
    /// worker per target, join them all, and report each failure
    /// individually; answer with `BatchEvent::LaunchDone`.
    LaunchAll(String),
    /// Terminal: the run is over.
    Finish(BatchEnd),
}

/// The outside world's answer to the pending [`BatchAction`].
pub enum BatchEvent {
    Value(Option<String>),
    DirIs(bool),
    ConfirmIs(bool),
    Picked(Option<String>),
    SaveDone(bool),
    LaunchDone,
}

/// How a run of the batch launcher ended.
#[derive(Clone, Copy, PartialEq, Eq, Structural, Debug)]
pub enum BatchEnd {
    /// The shortcut directory was launched.
    Launched,
    /// No directory was chosen (declined, or nothing picked).
    NoDirChosen,
}

/// One run of the batch launcher.
pub struct BatchSession {
    /// What the machine awaits.
    pub phase: BatchPhase,
    /// The shortcut directory at hand.
    pub dir: String,
    /// Whether `dir` came from the persisted store (else from the picker).
    pub from_store: bool,
    /// How the run ended (in `Done`).
    pub end: BatchEnd,
    /// The store write issued, if any.
    pub saved: Ghost<Option<Seq<char>>>,
    /// The directory handed to the batch launch, if any.
    pub launched: Ghost<Option<Seq<char>>>,
}

impl BatchSession {
    /// Well-formedness: what holds of every reachable state.
    pub open spec fn wf(self) -> bool {
        match self.phase {
            BatchPhase::ReadingDir => self.saved@ is None && self.launched@ is None,
            BatchPhase::CheckingDir => self.saved@ is None && self.launched@ is None
                && self.from_store,
            BatchPhase::Confirming => self.saved@ is None && self.launched@ is None,
            BatchPhase::PickingDir => self.saved@ is None && self.launched@ is None,
            BatchPhase::SavingDir => self.saved@ == Option::Some(self.dir@) && self.launched@
                is None && !self.from_store,
            BatchPhase::Launching => {
                &&& self.launched@ == Option::Some(self.dir@)
                &&& if self.from_store {
                    self.saved@ is None
                } else {
                    self.saved@ == Option::Some(self.dir@)
                }
            },
            BatchPhase::Done => match self.end {
                BatchEnd::Launched => {
                    &&& self.launched@ == Option::Some(self.dir@)
                    &&& if self.from_store {
                        self.saved@ is None
                    } else {
                        self.saved@ == Option::Some(self.dir@)
                    }
                },
                BatchEnd::NoDirChosen => self.saved@ is None && self.launched@ is None,
            },
        }
    }

    /// Whether `e` answers what the machine awaits.
    pub open spec fn event_fits(self, e: BatchEvent) -> bool {
        match self.phase {
            BatchPhase::ReadingDir => e matches BatchEvent::Value(_),
            BatchPhase::CheckingDir => e matches BatchEvent::DirIs(_),
            BatchPhase::Confirming => e matches BatchEvent::ConfirmIs(_),
            BatchPhase::PickingDir => e matches BatchEvent::Picked(_),
            BatchPhase::SavingDir => e matches BatchEvent::SaveDone(_),
            BatchPhase::Launching => e matches BatchEvent::LaunchDone,
            BatchPhase::Done => false,
        }
    }

    /// The action pending in this state, as `current_action` returns it.
    pub open spec fn action_spec(self, a: BatchAction) -> bool {
        match self.phase {
            BatchPhase::ReadingDir => a is ReadDir,
            BatchPhase::CheckingDir => a matches BatchAction::CheckDir(p) && p@ == self.dir@,
            BatchPhase::Confirming => a is AskConfirm,
            BatchPhase::PickingDir => a is AskPick,
            BatchPhase::SavingDir => a matches BatchAction::SaveDir(p) && p@ == self.dir@,
            BatchPhase::Launching => a matches BatchAction::LaunchAll(p) && p@ == self.dir@,
            BatchPhase::Done => a matches BatchAction::Finish(e) && e == self.end,
        }
    }

    /// The transition relation of [`BatchSession::step`].
    pub open spec fn step_rel(pre: BatchSession, e: BatchEvent, post: BatchSession) -> bool {
        match pre.phase {
            BatchPhase::ReadingDir => (e matches BatchEvent::Value(v) && match v {
                Option::Some(raw) => {
                    &&& post.phase is CheckingDir
                    &&& post.dir@ == trimmed(raw@)
                    &&& post.from_store == true
                    &&& post.saved@ == pre.saved@
                    &&& post.launched@ == pre.launched@
                },
                Option::None => {
                    &&& post.phase is Confirming
                    &&& post.saved@ == pre.saved@
                    &&& post.launched@ == pre.launched@
                },
            }),
            BatchPhase::CheckingDir => (e matches BatchEvent::DirIs(b) && if b {
                &&& post.phase is Launching
                &&& post.dir@ == pre.dir@
                &&& post.from_store == pre.from_store
                &&& post.saved@ == pre.saved@
                &&& post.launched@ == Option::Some(pre.dir@)
            } else {
                &&& post.phase is Confirming
                &&& post.saved@ == pre.saved@
                &&& post.launched@ == pre.launched@
            }),
            BatchPhase::Confirming => (e matches BatchEvent::ConfirmIs(b) && if b {
                &&& post.phase is PickingDir
                &&& post.saved@ == pre.saved@
                &&& post.launched@ == pre.launched@
            } else {
                &&& post.phase is Done
                &&& post.end == BatchEnd::NoDirChosen
                &&& post.saved@ == pre.saved@
                &&& post.launched@ == pre.launched@
            }),
            BatchPhase::PickingDir => (e matches BatchEvent::Picked(p) && match p {
                Option::Some(d) => {
                    &&& post.phase is SavingDir
                    &&& post.dir@ == d@
                    &&& post.from_store == false
                    &&& post.saved@ == Option::Some(d@)
                    &&& post.launched@ == pre.launched@
                },
                Option::None => {
                    &&& post.phase is Done
                    &&& post.end == BatchEnd::NoDirChosen
                    &&& post.saved@ == pre.saved@
                    &&& post.launched@ == pre.launched@
                },
            }),
            BatchPhase::SavingDir => (e matches BatchEvent::SaveDone(_) && {
                // A failed write is non-fatal: the run proceeds with
                // the in-memory directory either way.
                &&& post.phase is Launching
                &&& post.dir@ == pre.dir@
                &&& post.from_store == pre.from_store
                &&& post.saved@ == pre.saved@
                &&& post.launched@ == Option::Some(pre.dir@)
            }),
            BatchPhase::Launching => (e matches BatchEvent::LaunchDone && {
                &&& post.phase is Done
                &&& post.end == BatchEnd::Launched
                &&& post.dir@ == pre.dir@
                &&& post.from_store == pre.from_store
                &&& post.saved@ == pre.saved@
                &&& post.launched@ == pre.launched@
            }),
            BatchPhase::Done => false,
        }
    }

    /// A fresh batch run: about to read the persisted directory.
    pub fn new() -> (s: BatchSession)
        ensures
            s.wf(),
            s.phase is ReadingDir,
            s.saved@ is None,
            s.launched@ is None,
    {
        BatchSession {
            phase: BatchPhase::ReadingDir,
            dir: String::new(),
            from_store: true,
            end: BatchEnd::NoDirChosen,
            saved: Ghost(Option::None),
            launched: Ghost(Option::None),
        }
    }

    /// The action the surrounding program must perform next.
    pub fn current_action(&self) -> (a: BatchAction)
        ensures
            self.action_spec(a),
    {
        match self.phase {
            BatchPhase::ReadingDir => BatchAction::ReadDir,
            BatchPhase::CheckingDir => BatchAction::CheckDir(self.dir.clone()),
            BatchPhase::Confirming => BatchAction::AskConfirm,
            BatchPhase::PickingDir => BatchAction::AskPick,
            BatchPhase::SavingDir => BatchAction::SaveDir(self.dir.clone()),
            BatchPhase::Launching => BatchAction::LaunchAll(self.dir.clone()),
            BatchPhase::Done => BatchAction::Finish(self.end),
        }
    }

    /// Feeds the answer to the pending action into the machine.
    pub fn step(&mut self, e: BatchEvent)
        requires
            old(self).wf(),
            old(self).event_fits(e),
        ensures
            final(self).wf(),
            Self::step_rel(*old(self), e, *final(self)),
    {
        match self.phase {
            BatchPhase::ReadingDir => {
                if let BatchEvent::Value(v) = e {
                    match v {
                        Option::Some(raw) => {
                            self.dir = trim_spaces(raw.as_str());
                            self.from_store = true;
                            self.phase = BatchPhase::CheckingDir;
                        },
                        Option::None => {
                            self.phase = BatchPhase::Confirming;
                        },
                    }
                }
            },
            BatchPhase::CheckingDir => {
                if let BatchEvent::DirIs(b) = e {
                    if b {
                        proof {
                            self.launched@ = Option::Some(self.dir@);
                        }
                        self.phase = BatchPhase::Launching;
                    } else {
                        self.phase = BatchPhase::Confirming;
                    }
                }
            },
            BatchPhase::Confirming => {
                if let BatchEvent::ConfirmIs(b) = e {
                    if b {
                        self.phase = BatchPhase::PickingDir;
                    } else {
                        self.end = BatchEnd::NoDirChosen;
                        self.phase = BatchPhase::Done;
                    }
                }
            },
            BatchPhase::PickingDir => {
                if let BatchEvent::Picked(p) = e {
                    match p {
                        Option::Some(d) => {
                            self.dir = d;
                            self.from_store = false;
                            proof {
                                self.saved@ = Option::Some(self.dir@);
                            }
                            self.phase = BatchPhase::SavingDir;
                        },
                        Option::None => {
                            self.end = BatchEnd::NoDirChosen;
                            self.phase = BatchPhase::Done;
                        },
                    }
                }
            },
            BatchPhase::SavingDir => {
                if let BatchEvent::SaveDone(_) = e {
                    proof {
                        self.launched@ = Option::Some(self.dir@);
                    }
                    self.phase = BatchPhase::Launching;
                }
            },
            BatchPhase::Launching => {
                if let BatchEvent::LaunchDone = e {
                    self.end = BatchEnd::Launched;
                    self.phase = BatchPhase::Done;
                }
            },
            BatchPhase::Done => {
            },
        }
    }
}

/// The batch launcher writes the store only for a directory the user
/// just picked, and launches only a directory that was verified (from
/// the store) or picked: a run that ends without a chosen directory
/// has written and launched nothing.
pub proof fn lemma_batch_store_discipline(s: BatchSession)
    requires
        s.wf(),
        s.phase is Done,
    ensures
        s.end == BatchEnd::NoDirChosen ==> s.saved@ is None && s.launched@ is None,
        s.saved@ is Some ==> !s.from_store && s.saved@ == Option::Some(s.dir@),
        s.end == BatchEnd::Launched ==> s.launched@ == Option::Some(s.dir@),
{
}

} // verus!

//! The resolver session: a state machine covering one run of the
//! repeat launcher, from the ordered probing of candidate sources,
//! through the interactive manual fallback and the persisted override
//! write, to the final launch and the exit code.
//!
//! The machine owns every decision; it never touches the outside world
//! itself.  Each state awaits one answer (a store value, a
//! file-existence check, a user choice, a save result), and
//! [`Session::current_action`] tells the surrounding program what to
//! perform next.  Ghost fields record the whole interaction — the store
//! values received, every file probe with its answer, and the one
//! override write, if any — so that the resolution order and the
//! persistence discipline are stated and proved over real runs.

use vstd::prelude::*;
use crate::launch::RunEnd;
use crate::sources::{SOURCE_COUNT, candidates_spec, candidates_for};

verus! {

/// What the machine awaits.
#[derive(Clone, Copy, PartialEq, Eq, Structural, Debug)]
pub enum Phase {
    /// Awaiting the raw store value of source `pos`.
    Reading,
    /// Awaiting the existence check of candidate `next` of source `pos`.
    Checking,
    /// Resolution failed; awaiting the user's choice whether to pick a path.
    Confirming,
    /// Awaiting the manually picked path, if any.
    Picking,
    /// Awaiting the existence check of the manually picked path.
    ManualCheck,
    /// Awaiting the result of persisting the manual path as the override.
    Saving,
    /// Awaiting the final existence re-check of the resolution result.
    FinalCheck,
    /// Awaiting the result of the current launch of the repeat loop.
    Launching,
    /// The run is over.
    Done,
}

/// What the surrounding program must perform next.
pub enum Action {
    /// Read the store entry of the given source (see `source_query`);
    /// answer with `Event::Value`.
    ReadSource(usize),
    /// Check whether the path is an existing regular file; answer with
    /// `Event::FileIs`.
    CheckFile(String),
    /// Show the attempted sources and ask whether to pick a path
    /// manually; answer with `Event::ConfirmIs`.
    AskConfirm,
    /// Show a file picker; answer with `Event::Picked`.
    AskPick,
    /// Persist the path as the user override; answer with
    /// `Event::SaveDone` (a failed write is only a warning).
    SaveOverride(String),
    /// Launch the path once, detached, reporting a failure without
    /// aborting the run; answer with `Event::LaunchResult`.  The
    /// machine issues this action exactly `count` times, sequentially.
    LaunchOne(String),
    /// Terminal: exit with `exit_code` of the given ending.
    Finish(RunEnd),
}

/// The outside world's answer to the pending [`Action`].
pub enum Event {
    Value(Option<String>),
    FileIs(bool),
    ConfirmIs(bool),
    Picked(Option<String>),
    SaveDone(bool),
    LaunchResult(bool),
}

/// The probes of a candidate list, each answered "not a file".
pub open spec fn denied(cs: Seq<Seq<char>>) -> Seq<(Seq<char>, bool)> {
    cs.map_values(|c: Seq<char>| (c, false))
}

/// The full, ordered probe record of sources `0 .. n` when none of
/// their candidates was an existing file.
pub open spec fn all_denied_upto(rs: Seq<Option<Seq<char>>>, n: int) -> Seq<(Seq<char>, bool)>
    decreases n,
{
    if n <= 0 {
        Seq::empty()
    } else {
        all_denied_upto(rs, n - 1) + denied(candidates_spec(n - 1, rs[n - 1]))
    }
}

proof fn lemma_all_denied_prefix(rs1: Seq<Option<Seq<char>>>, rs2: Seq<Option<Seq<char>>>, n: int)
    requires
        forall|k: int| 0 <= k < n ==> rs1[k] == rs2[k],
    ensures
        all_denied_upto(rs1, n) == all_denied_upto(rs2, n),
    decreases n,
{
    if n > 0 {
        lemma_all_denied_prefix(rs1, rs2, n - 1);
    }
}

/// One run of the repeat launcher.
pub struct Session {
    /// The repeat count, already clamped into `[1, 10]`.
    pub count: u32,
    /// What the machine awaits.
    pub phase: Phase,
    /// The source currently probed; after a hit, the winning source.
    pub pos: usize,
    /// The candidate paths of source `pos` (during `Checking`).
    pub cands: Vec<String>,
    /// The candidate currently awaiting its existence check.
    pub next: usize,
    /// The resolution result so far (from `ManualCheck` on, or after a hit).
    pub path: String,
    /// Whether `path` came from the manual pick rather than a source.
    pub manual: bool,
    /// How the run ended (in `Done`).
    pub end: RunEnd,
    /// How many launches of the repeat loop are still owed (in
    /// `Launching`).
    pub remaining: u32,
    /// The sources probed so far, in order: the diagnostic attempt list.
    pub tried: Vec<usize>,
    /// The result of every launch performed so far, in order.
    pub launches: Ghost<Seq<bool>>,
    /// The raw store value received for each source read so far.
    pub regs: Ghost<Seq<Option<Seq<char>>>>,
    /// Every resolver file probe issued, in order, with its answer.
    pub probes: Ghost<Seq<(Seq<char>, bool)>>,
    /// The override write issued, if any.
    pub saved: Ghost<Option<Seq<char>>>,
}

impl Session {
    /// The diagnostic attempt list grows as `0, 1, ..., pos`.
    pub open spec fn tried_is_prefix(self) -> bool {
        self.tried@ == Seq::new((self.pos + 1) as nat, |k: int| k as usize)
    }

    /// Every source was read and every candidate it yielded was denied.
    pub open spec fn resolver_exhausted(self) -> bool {
        &&& self.regs@.len() == SOURCE_COUNT
        &&& self.pos == SOURCE_COUNT - 1
        &&& self.tried_is_prefix()
        &&& self.probes@ == all_denied_upto(self.regs@, SOURCE_COUNT as int)
    }

    /// A source yielded `path`: it is candidate `next` of source `pos`,
    /// every candidate before it (of this and of every earlier source)
    /// was probed and denied, and no later source was ever read.
    pub open spec fn resolved_first_hit(self) -> bool {
        &&& self.pos < SOURCE_COUNT
        &&& self.tried_is_prefix()
        &&& self.regs@.len() == self.pos + 1
        &&& self.cands.deep_view() == candidates_spec(self.pos as int, self.regs@[self.pos as int])
        &&& self.next < self.cands@.len()
        &&& self.path@ == self.cands.deep_view()[self.next as int]
        &&& self.probes@ == all_denied_upto(self.regs@, self.pos as int) + denied(
            self.cands.deep_view().take(self.next as int),
        ) + seq![(self.path@, true)]
    }

    /// The resolution result in hand, by origin.
    pub open spec fn holds_result(self) -> bool {
        if self.manual {
            &&& self.resolver_exhausted()
            &&& self.saved@ == Option::Some(self.path@)
        } else {
            &&& self.resolved_first_hit()
            &&& self.saved@ is None
        }
    }

    /// Well-formedness: what holds of every reachable state.
    pub open spec fn wf(self) -> bool {
        &&& 1 <= self.count <= 10
        &&& match self.phase {
            Phase::Reading => {
                &&& self.pos < SOURCE_COUNT
                &&& self.tried_is_prefix()
                &&& self.regs@.len() == self.pos
                &&& self.probes@ == all_denied_upto(self.regs@, self.pos as int)
                &&& self.saved@ is None
            },
            Phase::Checking => {
                &&& self.pos < SOURCE_COUNT
                &&& self.tried_is_prefix()
                &&& self.regs@.len() == self.pos + 1
                &&& self.cands.deep_view() == candidates_spec(
                    self.pos as int,
                    self.regs@[self.pos as int],
                )
                &&& self.next < self.cands@.len()
                &&& self.probes@ == all_denied_upto(self.regs@, self.pos as int) + denied(
                    self.cands.deep_view().take(self.next as int),
                )
                &&& self.saved@ is None
            },
            Phase::Confirming => self.resolver_exhausted() && self.saved@ is None,
            Phase::Picking => self.resolver_exhausted() && self.saved@ is None,
            Phase::ManualCheck => self.resolver_exhausted() && self.saved@ is None && self.manual,
            Phase::Saving => self.resolver_exhausted() && self.saved@ == Option::Some(self.path@)
                && self.manual,
            Phase::FinalCheck => self.holds_result(),
            Phase::Launching => {
                &&& self.holds_result()
                &&& 1 <= self.remaining <= self.count
                &&& self.launches@.len() + self.remaining == self.count
            },
            Phase::Done => match self.end {
                RunEnd::Launched => self.holds_result() && self.launches@.len() == self.count,
                RunEnd::Declined => self.resolver_exhausted() && self.saved@ is None,
                RunEnd::ManualNone => self.resolver_exhausted() && self.saved@ is None,
                RunEnd::ManualInvalid => self.resolver_exhausted() && self.saved@ is None,
                RunEnd::ResolvedInvalid => self.holds_result(),
                RunEnd::NoResolution => false,
            },
        }
    }

    /// Whether `e` answers what the machine awaits.
    pub open spec fn event_fits(self, e: Event) -> bool {
        match self.phase {
            Phase::Reading => e matches Event::Value(_),
            Phase::Checking => e matches Event::FileIs(_),
            Phase::Confirming => e matches Event::ConfirmIs(_),
            Phase::Picking => e matches Event::Picked(_),
            Phase::ManualCheck => e matches Event::FileIs(_),
            Phase::Saving => e matches Event::SaveDone(_),
            Phase::FinalCheck => e matches Event::FileIs(_),
            Phase::Launching => e matches Event::LaunchResult(_),
            Phase::Done => false,
        }
    }

    /// The action pending in state `s`, as `current_action` returns it.
    pub open spec fn action_spec(self, a: Action) -> bool {
        match self.phase {
            Phase::Reading => a matches Action::ReadSource(i) && i == self.pos,
            Phase::Checking => a matches Action::CheckFile(p) && p@ == self.cands.deep_view()[
                self.next as int
            ],
            Phase::Confirming => a is AskConfirm,
            Phase::Picking => a is AskPick,
            Phase::ManualCheck => a matches Action::CheckFile(p) && p@ == self.path@,
            Phase::Saving => a matches Action::SaveOverride(p) && p@ == self.path@,
            Phase::FinalCheck => a matches Action::CheckFile(p) && p@ == self.path@,
            Phase::Launching => a matches Action::LaunchOne(p) && p@ == self.path@,
            Phase::Done => a matches Action::Finish(e) && e == self.end,
        }
    }

    /// Fields the machine never changes after creation.
    pub open spec fn same_count(pre: Session, post: Session) -> bool {
        post.count == pre.count
    }

    /// The record fields, unchanged.
    pub open spec fn same_record(pre: Session, post: Session) -> bool {
        &&& post.tried@ == pre.tried@
        &&& post.regs@ == pre.regs@
        &&& post.probes@ == pre.probes@
        &&& post.saved@ == pre.saved@
    }

    /// Moving past source `pre.pos`, its record already updated to
    /// `rs` / `pr`: on to the next source, or to the manual fallback
    /// when none is left.
    pub open spec fn advance_rel(
        pre: Session,
        post: Session,
        rs: Seq<Option<Seq<char>>>,
        pr: Seq<(Seq<char>, bool)>,
    ) -> bool {
        &&& Self::same_count(pre, post)
        &&& post.regs@ == rs
        &&& post.probes@ == pr
        &&& post.saved@ == pre.saved@
        &&& post.manual == pre.manual
        &&& if pre.pos + 1 < SOURCE_COUNT {
            &&& post.phase is Reading
            &&& post.pos == pre.pos + 1
            &&& post.tried@ == pre.tried@.push((pre.pos + 1) as usize)
        } else {
            &&& post.phase is Confirming
            &&& post.pos == pre.pos
            &&& post.tried@ == pre.tried@
        }
    }

    /// The run ends with `end`; the whole record is kept.
    pub open spec fn done_rel(pre: Session, post: Session, end: RunEnd) -> bool {
        &&& Self::same_count(pre, post)
        &&& Self::same_record(pre, post)
        &&& post.path@ == pre.path@
        &&& post.manual == pre.manual
        &&& post.phase is Done
        &&& post.end == end
    }

    /// The transition relation of [`Session::step`]: what each event
    /// does to each awaiting state.
    pub open spec fn step_rel(pre: Session, e: Event, post: Session) -> bool {
        match pre.phase {
            Phase::Reading => (e matches Event::Value(v) && {
                let rs = pre.regs@.push(v.deep_view());
                let cs = candidates_spec(pre.pos as int, v.deep_view());
                if cs.len() > 0 {
                    &&& Self::same_count(pre, post)
                    &&& post.phase is Checking
                    &&& post.pos == pre.pos
                    &&& post.tried@ == pre.tried@
                    &&& post.regs@ == rs
                    &&& post.probes@ == pre.probes@
                    &&& post.saved@ == pre.saved@
                    &&& post.manual == pre.manual
                    &&& post.cands.deep_view() == cs
                    &&& post.next == 0
                } else {
                    Self::advance_rel(pre, post, rs, pre.probes@)
                }
            }),
            Phase::Checking => (e matches Event::FileIs(b) && {
                let probed = pre.probes@.push((pre.cands.deep_view()[pre.next as int], b));
                if b {
                    &&& Self::same_count(pre, post)
                    &&& post.phase is FinalCheck
                    &&& post.pos == pre.pos
                    &&& post.tried@ == pre.tried@
                    &&& post.regs@ == pre.regs@
                    &&& post.probes@ == probed
                    &&& post.saved@ == pre.saved@
                    &&& post.manual == false
                    &&& post.cands.deep_view() == pre.cands.deep_view()
                    &&& post.next == pre.next
                    &&& post.path@ == pre.cands.deep_view()[pre.next as int]
                } else if pre.next + 1 < pre.cands@.len() {
                    &&& Self::same_count(pre, post)
                    &&& post.phase is Checking
                    &&& post.pos == pre.pos
                    &&& post.tried@ == pre.tried@
                    &&& post.regs@ == pre.regs@
                    &&& post.probes@ == probed
                    &&& post.saved@ == pre.saved@
                    &&& post.manual == pre.manual
                    &&& post.cands.deep_view() == pre.cands.deep_view()
                    &&& post.next == pre.next + 1
                } else {
                    Self::advance_rel(pre, post, pre.regs@, probed)
                }
            }),
            Phase::Confirming => (e matches Event::ConfirmIs(b) && if b {
                &&& Self::same_count(pre, post)
                &&& Self::same_record(pre, post)
                &&& post.phase is Picking
                &&& post.pos == pre.pos
                &&& post.manual == pre.manual
            } else {
                Self::done_rel(pre, post, RunEnd::Declined)
            }),
            Phase::Picking => (e matches Event::Picked(p) && match p {
                Option::Some(pp) => {
                    &&& Self::same_count(pre, post)
                    &&& Self::same_record(pre, post)
                    &&& post.phase is ManualCheck
                    &&& post.pos == pre.pos
                    &&& post.path@ == pp@
                    &&& post.manual == true
                },
                Option::None => Self::done_rel(pre, post, RunEnd::ManualNone),
            }),
            Phase::ManualCheck => (e matches Event::FileIs(b) && if b {
                &&& Self::same_count(pre, post)
                &&& post.phase is Saving
                &&& post.pos == pre.pos
                &&& post.tried@ == pre.tried@
                &&& post.regs@ == pre.regs@
                &&& post.probes@ == pre.probes@
                &&& post.saved@ == Option::Some(pre.path@)
                &&& post.path@ == pre.path@
                &&& post.manual == pre.manual
            } else {
                Self::done_rel(pre, post, RunEnd::ManualInvalid)
            }),
            Phase::Saving => (e matches Event::SaveDone(_) && {
                &&& Self::same_count(pre, post)
                &&& Self::same_record(pre, post)
                &&& post.phase is FinalCheck
                &&& post.pos == pre.pos
                &&& post.path@ == pre.path@
                &&& post.manual == pre.manual
            }),
            Phase::FinalCheck => (e matches Event::FileIs(b) && if b {
                &&& Self::same_count(pre, post)
                &&& Self::same_record(pre, post)
                &&& post.phase is Launching
                &&& post.pos == pre.pos
                &&& post.cands.deep_view() == pre.cands.deep_view()
                &&& post.next == pre.next
                &&& post.path@ == pre.path@
                &&& post.manual == pre.manual
                &&& post.remaining == pre.count
                &&& post.launches@ == Seq::<bool>::empty()
            } else {
                &&& Self::done_rel(pre, post, RunEnd::ResolvedInvalid)
                &&& post.cands.deep_view() == pre.cands.deep_view()
                &&& post.next == pre.next
            }),
            Phase::Launching => (e matches Event::LaunchResult(ok) && {
                &&& Self::same_count(pre, post)
                &&& Self::same_record(pre, post)
                &&& post.pos == pre.pos
                &&& post.cands.deep_view() == pre.cands.deep_view()
                &&& post.next == pre.next
                &&& post.path@ == pre.path@
                &&& post.manual == pre.manual
                &&& post.launches@ == pre.launches@.push(ok)
                &&& if pre.remaining > 1 {
                    &&& post.phase is Launching
                    &&& post.remaining == pre.remaining - 1
                } else {
                    &&& post.phase is Done
                    &&& post.end == RunEnd::Launched
                    &&& post.remaining == 0
                }
            }),
            Phase::Done => false,
        }
    }

    /// A fresh session for one run, with the repeat count already
    /// derived: about to probe the highest-priority source.
    pub fn new(count: u32) -> (s: Session)
        requires
            1 <= count <= 10,
        ensures
            s.wf(),
            s.phase is Reading,
            s.pos == 0,
            s.count == count,
            s.regs@ == Seq::<Option<Seq<char>>>::empty(),
            s.probes@ == Seq::<(Seq<char>, bool)>::empty(),
            s.saved@ is None,
            s.tried@ == seq![0usize],
    {
        let mut tried: Vec<usize> = Vec::new();
        tried.push(0);
        let s = Session {
            count,
            phase: Phase::Reading,
            pos: 0,
            cands: Vec::new(),
            next: 0,
            path: String::new(),
            manual: false,
            end: RunEnd::NoResolution,
            remaining: 0,
            tried,
            launches: Ghost(Seq::empty()),
            regs: Ghost(Seq::empty()),
            probes: Ghost(Seq::empty()),
            saved: Ghost(Option::None),
        };
        proof {
            assert(s.tried@ =~= Seq::new(1nat, |k: int| k as usize));
        }
        s
    }

    /// The action the surrounding program must perform next.
    pub fn current_action(&self) -> (a: Action)
        requires
            self.wf(),
        ensures
            self.action_spec(a),
    {
        match self.phase {
            Phase::Reading => Action::ReadSource(self.pos),
            Phase::Checking => Action::CheckFile(self.cands[self.next].clone()),
            Phase::Confirming => Action::AskConfirm,
            Phase::Picking => Action::AskPick,
            Phase::ManualCheck => Action::CheckFile(self.path.clone()),
            Phase::Saving => Action::SaveOverride(self.path.clone()),
            Phase::FinalCheck => Action::CheckFile(self.path.clone()),
            Phase::Launching => Action::LaunchOne(self.path.clone()),
            Phase::Done => Action::Finish(self.end),
        }
    }

    /// Feeds the answer to the pending action into the machine.
    pub fn step(&mut self, e: Event)
        requires
            old(self).wf(),
            old(self).event_fits(e),
        ensures
            final(self).wf(),
            Self::step_rel(*old(self), e, *final(self)),
    {
        match self.phase {
            Phase::Reading => {
                if let Event::Value(v) = e {
                    let cs = candidates_for(self.pos, &v);
                    proof {
                        self.regs@ = self.regs@.push(v.deep_view());
                        lemma_all_denied_prefix(
                            old(self).regs@,
                            self.regs@,
                            old(self).pos as int,
                        );
                    }
                    if cs.len() > 0 {
                        self.cands = cs;
                        self.next = 0;
                        self.phase = Phase::Checking;
                        proof {
                            assert(self.cands.deep_view().take(0) =~= Seq::<Seq<char>>::empty());
                            assert(denied(self.cands.deep_view().take(0)) =~= Seq::<(
                                Seq<char>,
                                bool,
                            )>::empty());
                            assert(self.probes@ =~= all_denied_upto(self.regs@, self.pos as int)
                                + denied(self.cands.deep_view().take(self.next as int)));
                        }
                    } else {
                        proof {
                            assert(denied(candidates_spec(self.pos as int, v.deep_view())) =~= Seq::<
                                (Seq<char>, bool),
                            >::empty());
                            assert(self.probes@ =~= all_denied_upto(
                                self.regs@,
                                self.pos as int + 1,
                            ));
                        }
                        self.advance();
                    }
                }
            },
            Phase::Checking => {
                if let Event::FileIs(b) = e {
                    proof {
                        self.probes@ = self.probes@.push(
                            (self.cands.deep_view()[self.next as int], b),
                        );
                    }
                    if b {
                        self.path = self.cands[self.next].clone();
                        self.manual = false;
                        self.phase = Phase::FinalCheck;
                        proof {
                            assert(self.probes@ =~= all_denied_upto(self.regs@, self.pos as int)
                                + denied(self.cands.deep_view().take(self.next as int)) + seq![
                                (self.path@, true),
                            ]);
                        }
                    } else if self.next < self.cands.len() - 1 {
                        self.next = self.next + 1;
                        proof {
                            let cs = self.cands.deep_view();
                            assert(denied(cs.take(self.next as int)) =~= denied(
                                cs.take(self.next as int - 1),
                            ).push((cs[self.next as int - 1], false)));
                            assert(self.probes@ =~= all_denied_upto(self.regs@, self.pos as int)
                                + denied(cs.take(self.next as int)));
                        }
                    } else {
                        proof {
                            let cs = self.cands.deep_view();
                            assert(cs.take(cs.len() as int) =~= cs);
                            assert(denied(cs.take(self.next as int + 1)) =~= denied(
                                cs.take(self.next as int),
                            ).push((cs[self.next as int], false)));
                            assert(self.probes@ =~= all_denied_upto(
                                self.regs@,
                                self.pos as int + 1,
                            ));
                        }
                        self.advance();
                    }
                }
            },
            Phase::Confirming => {
                if let Event::ConfirmIs(b) = e {
                    if b {
                        self.phase = Phase::Picking;
                    } else {
                        self.end = RunEnd::Declined;
                        self.phase = Phase::Done;
                    }
                }
            },
            Phase::Picking => {
                if let Event::Picked(p) = e {
                    match p {
                        Option::Some(pp) => {
                            self.path = pp;
                            self.manual = true;
                            self.phase = Phase::ManualCheck;
                        },
                        Option::None => {
                            self.end = RunEnd::ManualNone;
                            self.phase = Phase::Done;
                        },
                    }
                }
            },
            Phase::ManualCheck => {
                if let Event::FileIs(b) = e {
                    if b {
                        proof {
                            self.saved@ = Option::Some(self.path@);
                        }
                        self.phase = Phase::Saving;
                    } else {
                        self.end = RunEnd::ManualInvalid;
                        self.phase = Phase::Done;
                    }
                }
            },
            Phase::Saving => {
                if let Event::SaveDone(_) = e {
                    self.phase = Phase::FinalCheck;
                }
            },
            Phase::FinalCheck => {
                if let Event::FileIs(b) = e {
                    if b {
                        self.remaining = self.count;
                        self.launches = Ghost(Seq::empty());
                        self.phase = Phase::Launching;
                    } else {
                        self.end = RunEnd::ResolvedInvalid;
                        self.phase = Phase::Done;
                    }
                }
            },
            Phase::Launching => {
                if let Event::LaunchResult(ok) = e {
                    proof {
                        self.launches@ = self.launches@.push(ok);
                    }
                    if self.remaining > 1 {
                        self.remaining = self.remaining - 1;
                    } else {
                        self.remaining = 0;
                        self.end = RunEnd::Launched;
                        self.phase = Phase::Done;
                    }
                }
            },
            Phase::Done => {
            },
        }
    }

    /// Moves past the current source: on to the next, or to the manual
    /// fallback when every source has been probed.
    fn advance(&mut self)
        requires
            old(self).pos < SOURCE_COUNT,
        ensures
            Self::advance_rel(
                *old(self),
                *final(self),
                old(self).regs@,
                old(self).probes@,
            ),
            final(self).cands.deep_view() == old(self).cands.deep_view(),
            final(self).next == old(self).next,
            final(self).path@ == old(self).path@,
            final(self).end == old(self).end,
            old(self).tried_is_prefix() ==> final(self).tried_is_prefix(),
    {
        if self.pos + 1 < SOURCE_COUNT {
            self.pos = self.pos + 1;
            self.tried.push(self.pos);
            self.phase = Phase::Reading;
            proof {
                if old(self).tried_is_prefix() {
                    assert(self.tried@ =~= Seq::new((self.pos + 1) as nat, |k: int| k as usize));
                }
            }
        } else {
            self.phase = Phase::Confirming;
        }
    }
}

proof fn lemma_all_denied_all_false(rs: Seq<Option<Seq<char>>>, n: int)
    ensures
        forall|i: int| 0 <= i < all_denied_upto(rs, n).len() ==> !(#[trigger] all_denied_upto(
            rs,
            n,
        )[i]).1,
    decreases n,
{
    if n > 0 {
        lemma_all_denied_all_false(rs, n - 1);
        let prev = all_denied_upto(rs, n - 1);
        let ds = denied(candidates_spec(n - 1, rs[n - 1]));
        assert forall|i: int| 0 <= i < all_denied_upto(rs, n).len() implies !(#[trigger] all_denied_upto(
            rs,
            n,
        )[i]).1 by {
            if i < prev.len() {
                assert(all_denied_upto(rs, n)[i] == prev[i]);
            } else {
                assert(all_denied_upto(rs, n)[i] == ds[i - prev.len()]);
            }
        }
    }
}

/// The resolver returns the first source, by the fixed priority order,
/// that verifiably yields an existing file: once a hit is in hand, the
/// probe record shows every candidate of every earlier source (and
/// every earlier candidate of the winning source) asked, in priority
/// order, and denied; the hit is the one affirmed probe and the last
/// one; and no source past the winner was ever read.
pub proof fn lemma_first_verified_source_wins(s: Session)
    requires
        s.wf(),
        s.phase is FinalCheck || s.phase is Launching || (s.phase is Done && s.end
            == RunEnd::Launched),
        !s.manual,
    ensures
        s.pos < SOURCE_COUNT,
        s.regs@.len() == s.pos + 1,
        s.cands.deep_view() == candidates_spec(s.pos as int, s.regs@[s.pos as int]),
        s.path@ == s.cands.deep_view()[s.next as int],
        s.probes@ == all_denied_upto(s.regs@, s.pos as int) + denied(
            s.cands.deep_view().take(s.next as int),
        ) + seq![(s.path@, true)],
        s.probes@.len() > 0 && s.probes@.last() == (s.path@, true),
        forall|i: int| 0 <= i < s.probes@.len() - 1 ==> !(#[trigger] s.probes@[i]).1,
{
    lemma_all_denied_all_false(s.regs@, s.pos as int);
    let front = all_denied_upto(s.regs@, s.pos as int) + denied(
        s.cands.deep_view().take(s.next as int),
    );
    assert forall|i: int| 0 <= i < s.probes@.len() - 1 implies !(#[trigger] s.probes@[i]).1 by {
        if i < all_denied_upto(s.regs@, s.pos as int).len() {
            assert(s.probes@[i] == all_denied_upto(s.regs@, s.pos as int)[i]);
        } else {
            let j = i - all_denied_upto(s.regs@, s.pos as int).len();
            assert(s.probes@[i] == denied(s.cands.deep_view().take(s.next as int))[j]);
        }
    }
}

/// A persisted override pointing at a file that does not exist is
/// treated as absent: when the override source's one candidate is
/// denied, the machine moves on to the next source, and no store write
/// (let alone a delete — the machine has no such action) is issued.
pub proof fn lemma_stale_override_skipped(pre: Session, e: Event, post: Session)
    requires
        pre.wf(),
        pre.phase is Checking,
        pre.pos == 0,
        e matches Event::FileIs(false),
        Session::step_rel(pre, e, post),
    ensures
        post.phase is Reading,
        post.pos == 1,
        post.regs@ == pre.regs@,
        post.saved@ is None,
        post.probes@ == pre.probes@.push((pre.cands.deep_view()[pre.next as int], false)),
{
    assert(pre.cands.deep_view().len() == 1);
}

/// A successful manual resolution persists exactly the picked path:
/// when a run that went through the manual fallback ends launched, the
/// one override write issued carried that path.
pub proof fn lemma_manual_resolution_persisted(s: Session)
    requires
        s.wf(),
        s.phase is Done,
        s.end == RunEnd::Launched,
        s.manual,
    ensures
        s.saved@ == Option::Some(s.path@),
{
}

/// The override store is written only by a successful manual
/// resolution, and then with the resolution result itself: in every
/// other ending of a run no write was issued.
pub proof fn lemma_saved_only_by_manual(s: Session)
    requires
        s.wf(),
        s.phase is Done,
    ensures
        s.saved@ is Some ==> s.manual && s.saved@ == Option::Some(s.path@) && (s.end
            == RunEnd::Launched || s.end == RunEnd::ResolvedInvalid),
{
}

/// When resolution fails everywhere and the user declines the manual
/// entry, the run ends with exit code 1 and no persisted write.
pub proof fn lemma_declined_leaves_no_trace(s: Session)
    requires
        s.wf(),
        s.phase is Done,
        s.end == RunEnd::Declined,
    ensures
        s.saved@ is None,
        crate::launch::exit_code_spec(s.end) == 1,
{
}

/// Every run ends through one of the distinct exits: the unrecovered
/// fallback ending exists only as a reserved code, and the machine
/// never produces it.
pub proof fn lemma_every_end_is_distinct(s: Session)
    requires
        s.wf(),
        s.phase is Done,
    ensures
        s.end != RunEnd::NoResolution,
{
}

/// The repeat loop performs exactly `count` launches, no matter how
/// many of them fail: a launched run records one result per owed
/// launch, and a failing launch neither aborts the loop (the machine
/// keeps asking while launches are owed) nor alters the count.
pub proof fn lemma_repeat_count_exact(s: Session)
    requires
        s.wf(),
        s.phase is Done,
        s.end == RunEnd::Launched,
    ensures
        s.launches@.len() == s.count,
{
}

/// A failing launch does not block the launches after it: while more
/// launches are owed, the machine asks for the next one whatever the
/// previous result was.
pub proof fn lemma_launch_failure_does_not_abort(pre: Session, ok: bool, post: Session)
    requires
        pre.wf(),
        pre.phase is Launching,
        pre.remaining > 1,
        Session::step_rel(pre, Event::LaunchResult(ok), post),
    ensures
        post.phase is Launching,
        post.remaining == pre.remaining - 1,
        post.launches@ == pre.launches@.push(ok),
{
}

/// The diagnostic attempt list is append-only: no step shortens or
/// rewrites it, and the probe record only ever grows as well.
pub proof fn lemma_records_append_only(pre: Session, e: Event, post: Session)
    requires
        Session::step_rel(pre, e, post),
    ensures
        pre.tried@.is_prefix_of(post.tried@),
        pre.probes@.is_prefix_of(post.probes@),
{
    assert(pre.tried@.is_prefix_of(pre.tried@));
    assert(pre.probes@.is_prefix_of(pre.probes@));
    assert forall|x: usize| pre.tried@.is_prefix_of(#[trigger] pre.tried@.push(x)) by {
        assert(pre.tried@ =~= pre.tried@.push(x).subrange(0, pre.tried@.len() as int));
    }
    assert forall|p: (Seq<char>, bool)| pre.probes@.is_prefix_of(
        #[trigger] pre.probes@.push(p),
    ) by {
        assert(pre.probes@ =~= pre.probes@.push(p).subrange(0, pre.probes@.len() as int));
    }
}

/// A persisted override takes absolute priority: a fresh session whose
/// override value trims to a non-empty path, affirmed by the file
/// check, resolves to exactly that path with no other source read.
pub proof fn lemma_override_short_circuits(
    s0: Session,
    e0: Event,
    s1: Session,
    e1: Event,
    s2: Session,
)
    requires
        s0.wf(),
        s0.phase is Reading,
        s0.pos == 0,
        s0.regs@.len() == 0,
        e0 matches Event::Value(raw),
        (e0 matches Event::Value(raw) ==> raw.deep_view() is Some && crate::text::trimmed(
            raw.deep_view()->0,
        ).len() > 0),
        Session::step_rel(s0, e0, s1),
        e1 matches Event::FileIs(true),
        Session::step_rel(s1, e1, s2),
    ensures
        s2.phase is FinalCheck,
        s2.regs@.len() == 1,
        e0 matches Event::Value(raw) ==> s2.path@ == crate::text::trimmed(raw.deep_view()->0),
{
}

} // verus!

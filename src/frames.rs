//! The frame synchronizer: a ring of in-flight frame slots, each with an
//! availability semaphore, a completion semaphore, a completion fence and a
//! command buffer, driven one event at a time through
//! wait → acquire → reset → record → submit → present.
//!
//! The machine decides; its caller performs each returned action on the GPU
//! and reports back what happened as the next event.
use vstd::prelude::*;
use vstd::set_lib::*;

use crate::targets::FrameTargets;

verus! {

/// The number of frame slots the renderer cycles through.
pub const MAX_FRAMES_IN_FLIGHT: usize = 2;

/// What an image acquisition or a presentation reported.
#[derive(Clone, Copy, Debug, PartialEq, Eq, Structural)]
pub enum SurfaceOutcome {
    Success,
    /// The operation succeeded but the surface no longer matches the swap chain exactly.
    Suboptimal,
    /// The surface no longer matches the swap chain: it must be recreated.
    Stale,
    /// Any other failure.
    Fatal,
}

/// What the caller reports to the machine.
#[derive(Clone, Copy, Debug, PartialEq, Eq, Structural)]
pub enum FrameEvent {
    /// The window asks for a new frame.
    RedrawRequested,
    /// The fence of the current slot was observed signaled.
    FenceSignaled,
    /// Image acquisition finished; `image` is meaningful on success only.
    Acquired { outcome: SurfaceOutcome, image: u32 },
    /// Presentation finished.
    Presented { outcome: SurfaceOutcome },
}

/// What the machine asks the caller to do next.
#[derive(Clone, Copy, Debug, PartialEq, Eq, Structural)]
pub enum FrameAction {
    /// Block until the fence of `slot` is signaled.
    WaitFence { slot: usize },
    /// Acquire the next presentation image, signaling the availability
    /// semaphore of `slot`, with no timeout.
    Acquire { slot: usize },
    /// Reset the fence and the command buffer of `slot`; record the buffer
    /// against `framebuffer`, the frame target of `image`; submit it waiting
    /// on the availability semaphore of `slot` and signaling its completion
    /// semaphore and fence; then present `image` gated on that completion
    /// semaphore.
    Submit { slot: usize, image: u32, framebuffer: u64 },
    /// Wait for the device to go idle, then tear down and rebuild the swap
    /// chain and its frame targets.
    Recreate,
    /// The frame is finished.
    Done,
    /// An unrecoverable failure, or an event that does not fit the phase.
    Abort,
}

/// Where the machine stands within a frame.
#[derive(Clone, Copy, Debug, PartialEq, Eq, Structural)]
pub enum Phase {
    Idle,
    AwaitingFence,
    AwaitingImage,
    AwaitingPresent,
}

/// The abstract state of the synchronizer.
pub struct SyncView {
    pub slot_count: nat,
    pub current: nat,
    pub phase: Phase,
    /// Slots whose last submission has not been observed complete.
    pub pending: Set<int>,
    pub targets: Option<FrameTargets>,
}

impl SyncView {
    pub open spec fn wf(self) -> bool {
        &&& self.slot_count >= 1
        &&& self.current < self.slot_count
        &&& forall|i: int| #[trigger] self.pending.contains(i) ==> 0 <= i < self.slot_count
        &&& self.phase == Phase::AwaitingImage ==> !self.pending.contains(self.current as int)
        &&& self.phase == Phase::AwaitingPresent ==> self.pending.contains(self.current as int)
        &&& self.targets matches Some(t) ==> t.wf()
    }

    pub open spec fn with_phase(self, phase: Phase) -> SyncView {
        SyncView { phase, ..self }
    }

    /// The number of frames in flight.
    pub open spec fn in_flight(self) -> nat {
        self.pending.len()
    }
}

/// The decision the machine takes on `e` in state `v`: the next state and
/// the action asked of the caller.
pub open spec fn transition(v: SyncView, e: FrameEvent) -> (SyncView, FrameAction) {
    match (v.phase, e) {
        (Phase::Idle, FrameEvent::RedrawRequested) => {
            if v.targets is None {
                (v, FrameAction::Recreate)
            } else {
                (v.with_phase(Phase::AwaitingFence), FrameAction::WaitFence { slot: v.current as usize })
            }
        },
        (Phase::AwaitingFence, FrameEvent::FenceSignaled) => (
            SyncView { phase: Phase::AwaitingImage, pending: v.pending.remove(v.current as int), ..v },
            FrameAction::Acquire { slot: v.current as usize },
        ),
        (Phase::AwaitingImage, FrameEvent::Acquired { outcome, image }) => {
            match outcome {
                SurfaceOutcome::Stale => (v.with_phase(Phase::Idle), FrameAction::Recreate),
                SurfaceOutcome::Fatal => (v.with_phase(Phase::Idle), FrameAction::Abort),
                _ => {
                    match v.targets {
                        Some(t) => {
                            if image < t.framebuffers().len() {
                                (
                                    SyncView {
                                        phase: Phase::AwaitingPresent,
                                        pending: v.pending.insert(v.current as int),
                                        ..v
                                    },
                                    FrameAction::Submit {
                                        slot: v.current as usize,
                                        image,
                                        framebuffer: t.framebuffers()[image as int],
                                    },
                                )
                            } else {
                                (v.with_phase(Phase::Idle), FrameAction::Abort)
                            }
                        },
                        None => (v.with_phase(Phase::Idle), FrameAction::Abort),
                    }
                },
            }
        },
        (Phase::AwaitingPresent, FrameEvent::Presented { outcome }) => {
            let next = SyncView {
                phase: Phase::Idle,
                current: ((v.current + 1) % v.slot_count) as nat,
                ..v
            };
            match outcome {
                SurfaceOutcome::Success => (next, FrameAction::Done),
                SurfaceOutcome::Fatal => (next, FrameAction::Abort),
                _ => (next, FrameAction::Recreate),
            }
        },
        _ => (v, FrameAction::Abort),
    }
}

/// Taking the target set away for teardown: only between frames.
pub open spec fn retire_spec(v: SyncView) -> (SyncView, Option<FrameTargets>) {
    if v.phase == Phase::Idle {
        (SyncView { targets: None, ..v }, v.targets)
    } else {
        (v, None)
    }
}

/// Putting a fresh target set in place, handing back any set still there.
pub open spec fn install_spec(v: SyncView, t: FrameTargets) -> (SyncView, Option<FrameTargets>) {
    (SyncView { targets: Some(t), ..v }, v.targets)
}

/// The synchronizer's state: the slot ring position, the phase of the
/// current frame and the frame targets of the current swap chain.
pub struct FrameSync {
    slot_count: usize,
    current: usize,
    phase: Phase,
    pending: Ghost<Set<int>>,
    targets: Option<FrameTargets>,
}

impl View for FrameSync {
    type V = SyncView;

    closed spec fn view(&self) -> SyncView {
        SyncView {
            slot_count: self.slot_count as nat,
            current: self.current as nat,
            phase: self.phase,
            pending: self.pending@,
            targets: self.targets,
        }
    }
}

impl FrameSync {
    pub open spec fn wf(&self) -> bool {
        self@.wf()
    }

    /// A synchronizer over `slot_count` slots whose fences all start
    /// signaled, at slot 0, drawing into `targets`.
    pub fn new(slot_count: usize, targets: FrameTargets) -> (r: FrameSync)
        requires
            slot_count >= 1,
            targets.wf(),
        ensures
            r.wf(),
            r@.slot_count == slot_count,
            r@.current == 0,
            r@.phase == Phase::Idle,
            r@.pending == Set::<int>::empty(),
            r@.targets == Some(targets),
    {
        FrameSync { slot_count, current: 0, phase: Phase::Idle, pending: Ghost(Set::empty()), targets: Some(targets) }
    }

    /// The slot the current or next frame uses.
    pub fn current(&self) -> (r: usize)
        ensures
            r == self@.current,
    {
        self.current
    }

    pub fn phase(&self) -> (r: Phase)
        ensures
            r == self@.phase,
    {
        self.phase
    }

    pub fn slot_count(&self) -> (r: usize)
        ensures
            r == self@.slot_count,
    {
        self.slot_count
    }

    /// The frame targets in use, if any.
    pub fn targets(&self) -> (r: Option<&FrameTargets>)
        ensures
            r matches Some(t) ==> self@.targets == Some(*t),
            r is None ==> self@.targets is None,
    {
        match &self.targets {
            Some(t) => Some(t),
            None => None,
        }
    }

    /// Takes one decision: moves to the next state and says what to do.
    pub fn step(&mut self, event: FrameEvent) -> (r: FrameAction)
        requires
            old(self).wf(),
        ensures
            final(self).wf(),
            (final(self)@, r) == transition(old(self)@, event),
    {
        proof {
            lemma_transition_wf(self@, event);
        }
        match (self.phase, event) {
            (Phase::Idle, FrameEvent::RedrawRequested) => {
                if self.targets.is_none() {
                    FrameAction::Recreate
                } else {
                    self.phase = Phase::AwaitingFence;
                    FrameAction::WaitFence { slot: self.current }
                }
            },
            (Phase::AwaitingFence, FrameEvent::FenceSignaled) => {
                self.pending = Ghost(self.pending@.remove(self.current as int));
                self.phase = Phase::AwaitingImage;
                FrameAction::Acquire { slot: self.current }
            },
            (Phase::AwaitingImage, FrameEvent::Acquired { outcome, image }) => {
                match outcome {
                    SurfaceOutcome::Stale => {
                        self.phase = Phase::Idle;
                        FrameAction::Recreate
                    },
                    SurfaceOutcome::Fatal => {
                        self.phase = Phase::Idle;
                        FrameAction::Abort
                    },
                    _ => {
                        let target = match &self.targets {
                            Some(t) => t.framebuffer(image),
                            None => None,
                        };
                        match target {
                            Some(framebuffer) => {
                                self.pending = Ghost(self.pending@.insert(self.current as int));
                                self.phase = Phase::AwaitingPresent;
                                FrameAction::Submit { slot: self.current, image, framebuffer }
                            },
                            None => {
                                self.phase = Phase::Idle;
                                FrameAction::Abort
                            },
                        }
                    },
                }
            },
            (Phase::AwaitingPresent, FrameEvent::Presented { outcome }) => {
                self.phase = Phase::Idle;
                self.current = (self.current + 1) % self.slot_count;
                match outcome {
                    SurfaceOutcome::Success => FrameAction::Done,
                    SurfaceOutcome::Fatal => FrameAction::Abort,
                    _ => FrameAction::Recreate,
                }
            },
            _ => FrameAction::Abort,
        }
    }

    /// Between frames, takes the target set away so that it can be torn
    /// down; within a frame, takes nothing.
    pub fn retire_targets(&mut self) -> (r: Option<FrameTargets>)
        requires
            old(self).wf(),
        ensures
            final(self).wf(),
            (final(self)@, r) == retire_spec(old(self)@),
    {
        proof {
            lemma_targets_exchange_wf(self@);
        }
        if self.phase == Phase::Idle {
            self.targets.take()
        } else {
            None
        }
    }

    /// Puts a freshly built target set in place; a set that was still there
    /// is handed back for teardown.
    pub fn install_targets(&mut self, targets: FrameTargets) -> (r: Option<FrameTargets>)
        requires
            old(self).wf(),
            targets.wf(),
        ensures
            final(self).wf(),
            (final(self)@, r) == install_spec(old(self)@, targets),
    {
        proof {
            lemma_targets_exchange_wf(self@);
        }
        let prior = self.targets.take();
        self.targets = Some(targets);
        prior
    }
}

/// Every transition keeps the state well formed.
pub proof fn lemma_transition_wf(v: SyncView, e: FrameEvent)
    requires
        v.wf(),
    ensures
        transition(v, e).0.wf(),
{
}

/// Retiring a target set, or installing a well-formed one, keeps the state
/// well formed.
pub proof fn lemma_targets_exchange_wf(v: SyncView)
    requires
        v.wf(),
    ensures
        retire_spec(v).0.wf(),
        forall|t: FrameTargets| t.wf() ==> (#[trigger] install_spec(v, t)).0.wf(),
{
}

/// No more than one frame per slot is ever in flight, and a frame is
/// submitted only when its slot's fence has been observed signaled, with at
/// most `slot_count - 1` other frames in flight.
pub proof fn lemma_in_flight_bound(v: SyncView, e: FrameEvent)
    requires
        v.wf(),
    ensures
        v.pending.finite(),
        v.in_flight() <= v.slot_count,
        transition(v, e).1 is Submit ==> {
            &&& !v.pending.contains(v.current as int)
            &&& v.in_flight() + 1 <= v.slot_count
            &&& transition(v, e).0.pending == v.pending.insert(v.current as int)
            &&& transition(v, e).0.in_flight() <= v.slot_count
        },
{
    let all = set_int_range(0, v.slot_count as int);
    lemma_int_range(0, v.slot_count as int);
    assert(v.pending.subset_of(all));
    lemma_len_subset(v.pending, all);
    if transition(v, e).1 is Submit {
        let others = all.remove(v.current as int);
        assert(v.pending.subset_of(others));
        lemma_len_subset(v.pending, others);
        let after = v.pending.insert(v.current as int);
        assert(after.subset_of(all));
        lemma_len_subset(after, all);
    }
}

/// Once an image is acquired, the slot's command buffer is recorded against
/// the frame target of the acquired image, whatever the slot index is.
pub proof fn lemma_records_acquired_image(v: SyncView, outcome: SurfaceOutcome, image: u32)
    requires
        v.wf(),
        v.phase == Phase::AwaitingImage,
        outcome == SurfaceOutcome::Success || outcome == SurfaceOutcome::Suboptimal,
        v.targets matches Some(t) && image < t.framebuffers().len(),
    ensures
        transition(v, FrameEvent::Acquired { outcome, image }).1 == (FrameAction::Submit {
            slot: v.current as usize,
            image,
            framebuffer: v.targets->Some_0.framebuffers()[image as int],
        }),
{
}

/// After a recreation installs a fresh target set, there is exactly one
/// frame target, and one view, per presentation image.
pub proof fn lemma_recreated_targets_match_images(v: SyncView, fresh: FrameTargets)
    requires
        v.wf(),
        fresh.wf(),
    ensures
        ({
            let after = install_spec(retire_spec(v).0, fresh).0;
            &&& after.wf()
            &&& after.targets == Some(fresh)
            &&& after.targets->Some_0.framebuffers().len() == after.targets->Some_0.images().len()
            &&& after.targets->Some_0.views().len() == after.targets->Some_0.images().len()
        }),
{
}

/// Recreating twice in succession leaves exactly the second fresh target
/// set in place, with one view and one frame target per image, and hands
/// every earlier set back for teardown exactly once.
pub proof fn lemma_recreate_twice(v: SyncView, first: FrameTargets, second: FrameTargets)
    requires
        v.wf(),
        v.phase == Phase::Idle,
        first.wf(),
        second.wf(),
    ensures
        ({
            let (v1, gone0) = retire_spec(v);
            let (v2, left1) = install_spec(v1, first);
            let (v3, gone1) = retire_spec(v2);
            let (v4, left2) = install_spec(v3, second);
            &&& gone0 == v.targets
            &&& left1 is None
            &&& gone1 == Some(first)
            &&& left2 is None
            &&& v4.wf()
            &&& v4.targets == Some(second)
            &&& v4.targets->Some_0.framebuffers().len() == v4.targets->Some_0.images().len()
            &&& v4.targets->Some_0.views().len() == v4.targets->Some_0.images().len()
            &&& v4.current == v.current
            &&& v4.pending == v.pending
        }),
{
}

} // verus!

//! Lifecycle of a frame capture: construction, polling, teardown.
//!
//! A capture owns two kernel-side resources: the loader (the attached
//! filter program together with its event-source descriptor) and the
//! ring-buffer consumer bound to that descriptor.  The consumer
//! references the descriptor the loader owns, so it must always be
//! released strictly before the loader.
//!
//! Construction is driven as a state machine: the caller performs one
//! acquisition at a time and reports its outcome as a [`BuildEvent`];
//! [`Builder::step`] decides what to do next.  At every failure point it
//! names exactly the resources acquired so far, in reverse acquisition
//! order, as the ones to release — nothing stays held.
//!
//! A ready capture turns the callback-driven delivery of samples into a
//! pull-style poll cycle: clear the mailbox, run the blocking poll
//! primitive (during which [`Capture::on_sample`] is invoked once per
//! delivered sample), then read the mailbox out.

use vstd::prelude::*;
use crate::frame::decode_sample;
use crate::frame::decoded_frame;
use crate::mailbox::Mailbox;
use crate::mailbox::slot_after_deposit;

verus! {

/// The failures a capture can surface.
#[derive(Debug, Clone, Copy, PartialEq, Eq, Structural)]
pub enum CaptureError {
    /// The loader could not attach the filter program (null handle).
    Attach,
    /// The loader handed back a negative event-source descriptor.
    Descriptor(i32),
    /// The ring-buffer consumer could not be created (null handle).
    ChannelCreate,
    /// The poll primitive returned a negative count.
    Poll(i32),
}

/// The kernel-side resources a capture acquires.
#[derive(Debug, Clone, Copy, PartialEq, Eq, Structural)]
pub enum KernelResource {
    /// The attached filter program and its event-source descriptor.
    Loader,
    /// The ring-buffer consumer bound to that descriptor.
    Channel,
}

/// Where construction stands: which acquisition outcome it awaits.
#[derive(Debug, Clone, Copy, PartialEq, Eq, Structural)]
pub enum BuildState {
    /// Awaiting the outcome of loader attachment.
    AwaitLoader,
    /// Loader attached; awaiting its event-source descriptor.
    AwaitFd,
    /// Descriptor in hand; awaiting ring-consumer creation.
    AwaitChannel { fd: i32 },
    /// Construction over, successfully or not.
    Finished,
}

/// The outcome of one acquisition step, reported by the caller.
#[derive(Debug, Clone, Copy, PartialEq, Eq, Structural)]
pub enum BuildEvent {
    /// Whether loader attachment produced a handle.
    LoaderInit { ok: bool },
    /// The descriptor the loader returned (negative means failure).
    EventFd { fd: i32 },
    /// Whether ring-consumer creation produced a handle.
    ChannelCreate { ok: bool },
}

/// The next acquisition the caller is asked to perform.
#[derive(Debug, Clone, Copy, PartialEq, Eq, Structural)]
pub enum BuildAction {
    /// Ask the loader for its event-source descriptor.
    GetEventFd,
    /// Create the ring consumer on this descriptor.
    CreateChannel { fd: i32 },
}

/// What one construction step decided.
pub enum StepOutcome {
    /// Perform this acquisition next and report its outcome.
    Advance { action: BuildAction },
    /// Construction complete: the capture is ready.
    Complete { capture: Capture },
    /// Construction failed: release these resources, in this order.
    Abort { error: CaptureError, release: Vec<KernelResource> },
}

/// The resources held in each construction state, in acquisition order.
pub open spec fn held_by(s: BuildState) -> Seq<KernelResource> {
    match s {
        BuildState::AwaitLoader => Seq::empty(),
        BuildState::AwaitFd => seq![KernelResource::Loader],
        BuildState::AwaitChannel { .. } => seq![KernelResource::Loader],
        BuildState::Finished => Seq::empty(),
    }
}

/// Whether an event is the outcome of the acquisition the state awaits.
pub open spec fn event_fits(s: BuildState, e: BuildEvent) -> bool {
    match s {
        BuildState::AwaitLoader => e is LoaderInit,
        BuildState::AwaitFd => e is EventFd,
        BuildState::AwaitChannel { .. } => e is ChannelCreate,
        BuildState::Finished => false,
    }
}

/// Whether the reported outcome is a failure of its step.
pub open spec fn step_fails(s: BuildState, e: BuildEvent) -> bool
    recommends
        event_fits(s, e),
{
    match e {
        BuildEvent::LoaderInit { ok } => !ok,
        BuildEvent::EventFd { fd } => fd < 0,
        BuildEvent::ChannelCreate { ok } => !ok,
    }
}

/// The construction state after one reported outcome.
pub open spec fn next_state(s: BuildState, e: BuildEvent) -> BuildState
    recommends
        event_fits(s, e),
{
    match (s, e) {
        (BuildState::AwaitLoader, BuildEvent::LoaderInit { ok }) => if ok {
            BuildState::AwaitFd
        } else {
            BuildState::Finished
        },
        (BuildState::AwaitFd, BuildEvent::EventFd { fd }) => if fd >= 0 {
            BuildState::AwaitChannel { fd }
        } else {
            BuildState::Finished
        },
        _ => BuildState::Finished,
    }
}

/// The error surfaced when the awaited step fails.
pub open spec fn failure_error(s: BuildState, e: BuildEvent) -> CaptureError
    recommends
        event_fits(s, e),
        step_fails(s, e),
{
    match e {
        BuildEvent::LoaderInit { .. } => CaptureError::Attach,
        BuildEvent::EventFd { fd } => CaptureError::Descriptor(fd),
        BuildEvent::ChannelCreate { .. } => CaptureError::ChannelCreate,
    }
}

/// A construction state is well formed when the descriptor it carries,
/// if any, was accepted — that is, non-negative.
pub open spec fn build_state_wf(s: BuildState) -> bool {
    match s {
        BuildState::AwaitChannel { fd } => fd >= 0,
        _ => true,
    }
}

/// The resources to release at a failure point: everything acquired
/// before it, in reverse acquisition order.
pub open spec fn release_plan(s: BuildState) -> Seq<KernelResource> {
    held_by(s).reverse()
}

/// Drives construction: one acquisition at a time, deciding after each
/// reported outcome whether to advance, complete, or tear down.
pub struct Builder {
    state: BuildState,
}

impl Builder {
    /// The construction state the builder is in.
    pub closed spec fn state(&self) -> BuildState {
        self.state
    }

    /// Starts construction: nothing acquired, loader attachment first.
    pub fn new() -> (b: Builder)
        ensures
            b.state() == BuildState::AwaitLoader,
            build_state_wf(b.state()),
    {
        Builder { state: BuildState::AwaitLoader }
    }

    /// Advances construction by one reported acquisition outcome.
    ///
    /// On a failure it aborts, naming exactly the resources acquired so
    /// far, in reverse acquisition order, as the ones to release.
    pub fn step(&mut self, event: BuildEvent) -> (r: StepOutcome)
        requires
            event_fits(old(self).state(), event),
            build_state_wf(old(self).state()),
        ensures
            final(self).state() == next_state(old(self).state(), event),
            build_state_wf(final(self).state()),
            step_fails(old(self).state(), event) ==> (r matches StepOutcome::Abort {
                error,
                release,
            } && error == failure_error(old(self).state(), event) && release@ == release_plan(
                old(self).state(),
            )),
            !step_fails(old(self).state(), event) ==> match old(self).state() {
                BuildState::AwaitLoader => r matches StepOutcome::Advance { action }
                    && action == BuildAction::GetEventFd,
                BuildState::AwaitFd => r matches StepOutcome::Advance { action } && (event matches
                BuildEvent::EventFd { fd } && action == (BuildAction::CreateChannel { fd })),
                BuildState::AwaitChannel { fd } => r matches StepOutcome::Complete { capture }
                    && capture.lifecycle() is Ready && capture.spec_ringbuf_fd() == fd
                    && capture.slot() is None,
                BuildState::Finished => false,
            },
    {
        let s = self.state;
        match (s, event) {
            (BuildState::AwaitLoader, BuildEvent::LoaderInit { ok }) => {
                if ok {
                    self.state = BuildState::AwaitFd;
                    StepOutcome::Advance { action: BuildAction::GetEventFd }
                } else {
                    self.state = BuildState::Finished;
                    proof {
                        assert(release_plan(s) =~= Seq::<KernelResource>::empty());
                    }
                    StepOutcome::Abort { error: CaptureError::Attach, release: Vec::new() }
                }
            },
            (BuildState::AwaitFd, BuildEvent::EventFd { fd }) => {
                if fd >= 0 {
                    self.state = BuildState::AwaitChannel { fd };
                    StepOutcome::Advance { action: BuildAction::CreateChannel { fd } }
                } else {
                    self.state = BuildState::Finished;
                    let mut release: Vec<KernelResource> = Vec::new();
                    release.push(KernelResource::Loader);
                    proof {
                        assert(release_plan(s) =~= seq![KernelResource::Loader]);
                    }
                    StepOutcome::Abort { error: CaptureError::Descriptor(fd), release }
                }
            },
            (BuildState::AwaitChannel { fd }, BuildEvent::ChannelCreate { ok }) => {
                self.state = BuildState::Finished;
                if ok {
                    StepOutcome::Complete { capture: Capture::ready_on(fd) }
                } else {
                    let mut release: Vec<KernelResource> = Vec::new();
                    release.push(KernelResource::Loader);
                    proof {
                        assert(release_plan(s) =~= seq![KernelResource::Loader]);
                    }
                    StepOutcome::Abort { error: CaptureError::ChannelCreate, release }
                }
            },
            _ => vstd::pervasive::unreached(),
        }
    }
}

/// Teardown ordering at the construction failure points: whichever step
/// fails — loader attachment refused, negative descriptor, or ring
/// consumer refused — exactly the resources acquired before that step
/// are released, in reverse acquisition order, and nothing stays held.
pub proof fn lemma_construction_teardown(s: BuildState, e: BuildEvent)
    requires
        event_fits(s, e),
        step_fails(s, e),
    ensures
        release_plan(s) == held_by(s).reverse(),
        held_by(next_state(s, e)) == Seq::<KernelResource>::empty(),
        forall|r: KernelResource| release_plan(s).contains(r) <==> held_by(s).contains(r),
{
    match s {
        BuildState::AwaitLoader | BuildState::Finished => {
            assert(release_plan(s) =~= Seq::<KernelResource>::empty());
        },
        BuildState::AwaitFd | BuildState::AwaitChannel { .. } => {
            assert(release_plan(s) =~= seq![KernelResource::Loader]);
        },
    }
}

/// The phases of a capture's life.
#[derive(Debug, Clone, Copy, PartialEq, Eq, Structural)]
pub enum Lifecycle {
    /// Resources acquired; polling is allowed.
    Ready,
    /// Resources released; nothing further is allowed.
    Closed,
}

/// The operations a capture exposes.
#[derive(Debug, Clone, Copy, PartialEq, Eq, Structural)]
pub enum CaptureOp {
    /// Clear the mailbox at the start of a poll cycle.
    BeginPoll,
    /// Deposit one delivered sample during the cycle.
    OnSample,
    /// Read the cycle's result out of the mailbox.
    FinishPoll,
    /// Release the resources and end the capture's life.
    Close,
}

/// Whether an operation is allowed in a lifecycle phase: everything
/// requires `Ready`; nothing at all is enabled once `Closed`.
pub open spec fn op_enabled(l: Lifecycle, op: CaptureOp) -> bool {
    l is Ready
}

/// The lifecycle phase after an operation: only `Close` changes it.
pub open spec fn lifecycle_next(l: Lifecycle, op: CaptureOp) -> Lifecycle {
    match op {
        CaptureOp::Close => Lifecycle::Closed,
        _ => l,
    }
}

/// The resources a capture holds in each phase, in acquisition order.
pub open spec fn capture_held(l: Lifecycle) -> Seq<KernelResource> {
    match l {
        Lifecycle::Ready => seq![KernelResource::Loader, KernelResource::Channel],
        Lifecycle::Closed => Seq::empty(),
    }
}

/// What one poll cycle yields: a negative count from the poll primitive
/// is surfaced as a failure; otherwise the cycle yields whatever the
/// mailbox holds — possibly nothing.
pub open spec fn poll_verdict(slot: Option<Seq<u8>>, count: i32) -> Result<
    Option<Seq<u8>>,
    CaptureError,
> {
    if count < 0 {
        Err(CaptureError::Poll(count))
    } else {
        Ok(slot)
    }
}

/// A ready capture: the event-source descriptor its ring consumer polls,
/// and the mailbox bridging callback delivery to synchronous reads.
pub struct Capture {
    lifecycle: Lifecycle,
    ringbuf_fd: i32,
    mailbox: Mailbox,
}

impl Capture {
    /// The phase the capture is in.
    pub closed spec fn lifecycle(&self) -> Lifecycle {
        self.lifecycle
    }

    /// The event-source descriptor the ring consumer is bound to.
    pub closed spec fn spec_ringbuf_fd(&self) -> i32 {
        self.ringbuf_fd
    }

    /// What the mailbox holds.
    pub closed spec fn slot(&self) -> Option<Seq<u8>> {
        self.mailbox@
    }

    /// A valid capture never carries a negative descriptor while ready.
    pub open spec fn wf(&self) -> bool {
        self.lifecycle() is Ready ==> self.spec_ringbuf_fd() >= 0
    }

    /// A capture fresh out of construction: ready, mailbox empty.
    fn ready_on(fd: i32) -> (c: Capture)
        requires
            fd >= 0,
        ensures
            c.lifecycle() is Ready,
            c.spec_ringbuf_fd() == fd,
            c.slot() is None,
            c.wf(),
    {
        Capture { lifecycle: Lifecycle::Ready, ringbuf_fd: fd, mailbox: Mailbox::new() }
    }

    /// Whether the capture is still ready — that is, not yet closed.
    pub fn is_ready(&self) -> (r: bool)
        ensures
            r == (self.lifecycle() is Ready),
    {
        matches!(self.lifecycle, Lifecycle::Ready)
    }

    /// The ring buffer's event-source descriptor, for polling or mapping.
    pub fn ringbuf_fd(&self) -> (fd: i32)
        ensures
            fd == self.spec_ringbuf_fd(),
    {
        self.ringbuf_fd
    }

    /// Starts one poll cycle: drops any frame left from an earlier cycle.
    pub fn begin_poll(&mut self)
        requires
            op_enabled(old(self).lifecycle(), CaptureOp::BeginPoll),
        ensures
            final(self).lifecycle() == lifecycle_next(old(self).lifecycle(), CaptureOp::BeginPoll),
            final(self).lifecycle() is Ready,
            final(self).spec_ringbuf_fd() == old(self).spec_ringbuf_fd(),
            final(self).slot() is None,
            old(self).wf() ==> final(self).wf(),
    {
        self.mailbox.clear();
    }

    /// Accepts one sample delivered during the cycle: decodes it and
    /// deposits the frame, overwriting any frame already pending.
    pub fn on_sample(&mut self, sample: &[u8])
        requires
            op_enabled(old(self).lifecycle(), CaptureOp::OnSample),
            sample@.len() >= 4,
        ensures
            final(self).lifecycle() == lifecycle_next(old(self).lifecycle(), CaptureOp::OnSample),
            final(self).lifecycle() is Ready,
            final(self).spec_ringbuf_fd() == old(self).spec_ringbuf_fd(),
            final(self).slot() == slot_after_deposit(old(self).slot(), decoded_frame(sample@)),
            final(self).slot() == Some(decoded_frame(sample@)),
            old(self).wf() ==> final(self).wf(),
    {
        let frame = decode_sample(sample);
        self.mailbox.deposit(frame);
    }

    /// Ends one poll cycle given the poll primitive's return count: a
    /// negative count is a per-call failure (the capture stays ready and
    /// may be polled again); otherwise the cycle yields whatever the
    /// mailbox holds, and the mailbox is left empty.
    pub fn finish_poll(&mut self, count: i32) -> (r: Result<Option<Vec<u8>>, CaptureError>)
        requires
            op_enabled(old(self).lifecycle(), CaptureOp::FinishPoll),
        ensures
            final(self).lifecycle() == lifecycle_next(old(self).lifecycle(), CaptureOp::FinishPoll),
            final(self).lifecycle() is Ready,
            final(self).spec_ringbuf_fd() == old(self).spec_ringbuf_fd(),
            match r {
                Ok(f) => poll_verdict(old(self).slot(), count) == Ok::<
                    Option<Seq<u8>>,
                    CaptureError,
                >(
                    match f {
                        Some(v) => Some(v@),
                        None => None,
                    },
                ) && final(self).slot() is None,
                Err(e) => poll_verdict(old(self).slot(), count) == Err::<
                    Option<Seq<u8>>,
                    CaptureError,
                >(e) && final(self).slot() == old(self).slot(),
            },
            old(self).wf() ==> final(self).wf(),
    {
        if count < 0 {
            Err(CaptureError::Poll(count))
        } else {
            Ok(self.mailbox.take())
        }
    }

    /// Ends the capture's life.  The returned list names the resources to
    /// release, in reverse acquisition order: the ring consumer strictly
    /// before the loader whose descriptor it references.
    pub fn close(&mut self) -> (release: Vec<KernelResource>)
        requires
            op_enabled(old(self).lifecycle(), CaptureOp::Close),
        ensures
            final(self).lifecycle() == lifecycle_next(old(self).lifecycle(), CaptureOp::Close),
            final(self).lifecycle() is Closed,
            release@ == capture_held(old(self).lifecycle()).reverse(),
            release@ == seq![KernelResource::Channel, KernelResource::Loader],
            capture_held(final(self).lifecycle()) == Seq::<KernelResource>::empty(),
            old(self).wf() ==> final(self).wf(),
    {
        self.lifecycle = Lifecycle::Closed;
        self.mailbox.clear();
        let mut release: Vec<KernelResource> = Vec::new();
        release.push(KernelResource::Channel);
        release.push(KernelResource::Loader);
        proof {
            assert(capture_held(Lifecycle::Ready).reverse() =~= seq![
                KernelResource::Channel,
                KernelResource::Loader,
            ]);
        }
        release
    }
}

/// No-data timeout: a poll cycle whose primitive processed zero samples
/// and whose mailbox stayed empty yields no frame — never a failure.
pub proof fn lemma_no_data_timeout()
    ensures
        poll_verdict(None, 0) == Ok::<Option<Seq<u8>>, CaptureError>(None),
{
}

/// Once closed, a capture admits no operation at all: polling after
/// destruction is unrepresentable in verified callers.
pub proof fn lemma_closed_admits_nothing(op: CaptureOp)
    ensures
        !op_enabled(Lifecycle::Closed, op),
{
}

/// No revival: every operation leaves a closed capture closed, and the
/// only lifecycle change any operation makes is `Close`, which ends in
/// `Closed` — there is no path from `Closed` back to `Ready`.
pub proof fn lemma_closed_is_absorbing(l: Lifecycle, op: CaptureOp)
    ensures
        lifecycle_next(Lifecycle::Closed, op) is Closed,
        lifecycle_next(l, op) is Ready ==> l is Ready,
{
}

} // verus!

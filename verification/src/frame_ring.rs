//! The ring of frames in flight: which frame may begin, what it waits for,
//! and what each step of a frame asks the backend to do.

use vstd::prelude::*;
use crate::destruction_queue::{due, not_due, DestructionQueue, NativeObject, PendingDestruction};
use crate::error::RuntimeError;
use crate::timeline::{has_reached, later, later_point, reached};

verus! {

/// The number of frames that the engine keeps in flight.
pub const FRAMES_IN_FLIGHT: usize = 2;

/// How long an image request may take, in nanoseconds, before it counts as
/// timed out and is tried again.
pub const ACQUIRE_TIMEOUT: u64 = 1_000_000_000;

/// Where a frame slot stands in its round.
#[derive(Clone, Copy, Debug, PartialEq, Eq, Structural)]
pub enum Phase {
    /// Nothing is going on in the slot.
    Idle,
    /// The slot waits for the image that it asked for.
    Acquiring,
    /// Commands are recorded into the slot's recorder.
    Recording,
    /// The slot's commands were handed to the device.
    Submitted,
}

/// The native objects that a slot owns, by the backend's raw handles.
#[derive(Clone, Copy, Debug, PartialEq, Eq, Structural)]
pub struct FrameObjects {
    /// The recorder that the slot's frame records into.
    pub command_recorder: u64,
    /// The binary semaphore that the acquisition of an image signals.
    pub image_acquired: u64,
    /// The binary semaphore that the end of rendering signals.
    pub render_complete: u64,
}

/// One of the ring's slots.
#[derive(Clone, Copy, Debug, PartialEq, Eq, Structural)]
pub struct FrameSlot {
    /// The slot's native objects, which it keeps for all its life.
    pub objects: FrameObjects,
    pub phase: Phase,
    /// The frame that was submitted from the slot last, if any was.
    pub frame_index: Option<u64>,
    /// The image that the slot's frame renders to; it means something from
    /// the recording on.
    pub image_index: u32,
    /// Whether the recording of the slot's frame was ended.
    pub recording_ended: bool,
}

/// Why the ring refused a step.
#[derive(Clone, Copy, Debug, PartialEq, Eq, Structural)]
pub enum RingError {
    /// A ring needs at least one slot.
    NoSlots,
    /// Frames begin in order: this is the frame that the ring expects.
    OutOfOrder { expected: u64 },
    /// The frame's slot is in a phase that the step does not start from.
    WrongPhase { phase: Phase },
    /// The device cannot have completed what was never submitted.
    NotSubmitted,
    /// The last frame that a `u64` can count is never begun: no frame could
    /// follow it.
    FramesExhausted,
}

/// What the device answered to the request for the next image.
#[derive(Clone, Copy, Debug, PartialEq, Eq, Structural)]
pub enum AcquireOutcome {
    /// The image with this index.
    Image(u32),
    /// The image with this index, from a swapchain that no longer fits the
    /// surface well.
    Suboptimal(u32),
    /// No image: the swapchain no longer fits the surface.
    OutOfDate,
    /// No image within the time allowed.
    Timeout,
    /// The request failed.
    Failed(RuntimeError),
}

/// What the device answered to the presentation.
#[derive(Clone, Copy, Debug, PartialEq, Eq, Structural)]
pub enum PresentOutcome {
    Presented,
    /// Presented, by a swapchain that no longer fits the surface well.
    Suboptimal,
    /// Not presented: the swapchain no longer fits the surface.
    OutOfDate,
    /// The presentation failed.
    Failed(RuntimeError),
}

/// What `begin` asks of the host.
#[derive(Clone, Copy, Debug, PartialEq, Eq, Structural)]
pub enum BeginStep {
    /// Wait until the timeline has reached `frame`, tell the ring, and
    /// begin again.
    Wait { frame: u64 },
    /// Acquire the next image, with a timeout, signalling the slot's own
    /// semaphore `image_acquired`, and tell the ring what came of it.
    Acquire { slot: usize, image_acquired: u64 },
}

/// What the ring asks of the host once the image request is answered.
#[derive(Clone, Copy, Debug, PartialEq, Eq, Structural)]
pub enum AcquireStep {
    /// Reset and begin the slot's recorder `command_recorder`, and move
    /// image `image_index` from the undefined or present layout to the
    /// colour-attachment layout.
    Record { slot: usize, command_recorder: u64, image_index: u32 },
    /// Rebuild the swapchain and begin the frame again; nothing is
    /// submitted.
    Rebuild,
    /// Begin the frame again.
    Retry,
    /// Give up: the request failed.
    Fail(RuntimeError),
}

/// What `end` asks of the host: move image `image_index` from the
/// colour-attachment layout to the present layout and end the slot's
/// recorder.
#[derive(Clone, Copy, Debug, PartialEq, Eq, Structural)]
pub struct EndStep {
    pub slot: usize,
    pub command_recorder: u64,
    pub image_index: u32,
}

/// What `submit` asks of the host: submit the slot's recorder to the
/// graphics queue, waiting on `wait`, the slot's acquire semaphore, at the
/// colour-attachment-output stage, signalling `render_complete`, the
/// slot's render-complete semaphore, and advancing the timeline to
/// `signal`; then present image `image_index`, waiting on
/// `render_complete`.
#[derive(Clone, Copy, Debug, PartialEq, Eq, Structural)]
pub struct SubmitStep {
    pub slot: usize,
    pub command_recorder: u64,
    pub wait: u64,
    pub render_complete: u64,
    pub image_index: u32,
    pub signal: u64,
}

/// What the ring asks of the host once the presentation is answered.
#[derive(Clone, Copy, Debug, PartialEq, Eq, Structural)]
pub enum PresentStep {
    /// Go on with the next frame.
    Continue,
    /// Rebuild the swapchain before the next frame.
    Rebuild,
    /// Give up: the presentation failed.
    Fail(RuntimeError),
}

/// What a request to rebuild the swapchain asks of the host.
#[derive(Clone, Copy, Debug, PartialEq, Eq, Structural)]
pub enum RebuildStep {
    /// A submitted frame may still read the old images: wait until the
    /// timeline has reached `frame`, tell the ring, and ask again.
    Wait { frame: u64 },
    /// No frame reads the old images: rebuild now.
    Proceed,
}

/// The ring as its users see it.
pub struct RingView {
    pub slots: Seq<FrameSlot>,
    /// The frame that begins next; every frame below it was submitted.
    pub next_frame: u64,
    /// How far the device has confirmed the timeline.
    pub completed: Option<u64>,
    /// Whether a suboptimal or out-of-date answer asked for a rebuild that
    /// has not happened yet.
    pub rebuild_wanted: bool,
}

/// How far the timeline is submitted when `next_frame` begins next: to the
/// frame before it, or not at all before the first frame.
pub open spec fn submitted_point(next_frame: u64) -> Option<u64> {
    if next_frame == 0 {
        None
    } else {
        Some((next_frame - 1) as u64)
    }
}

/// The timeline point at which an object that loses its owner now is safe:
/// the frame in progress, whose commands may name the object, or, between
/// frames, the last frame submitted.
pub open spec fn retire_point(ring: RingView) -> Option<u64> {
    if at_rest(current_slot(ring)) {
        submitted_point(ring.next_frame)
    } else {
        Some(ring.next_frame)
    }
}

/// The slot that `frame` uses in a ring of `slots` slots.
pub open spec fn slot_of_frame(frame: u64, slots: nat) -> int {
    frame as int % slots as int
}

/// The point that `frame` waits for in a ring of `slots` slots: the frame
/// that used its slot before, or nothing for the first round.
pub open spec fn wait_target(frame: u64, slots: nat) -> Option<u64> {
    if frame >= slots {
        Some((frame - slots) as u64)
    } else {
        None
    }
}

/// A slot with these objects that no frame has used.
pub open spec fn fresh_slot(objects: FrameObjects) -> FrameSlot {
    FrameSlot {
        objects,
        phase: Phase::Idle,
        frame_index: None,
        image_index: 0,
        recording_ended: false,
    }
}

/// Whether a slot is between two frames: idle or submitted.
pub open spec fn at_rest(slot: FrameSlot) -> bool {
    slot.phase == Phase::Idle || slot.phase == Phase::Submitted
}

/// The number of frames that the device has confirmed complete.
pub open spec fn confirmed_frames(ring: RingView) -> int {
    match ring.completed {
        None => 0,
        Some(frame) => frame + 1,
    }
}

/// The number of frames in flight: submitted, and not confirmed complete.
pub open spec fn frames_in_flight(ring: RingView) -> int {
    ring.next_frame - confirmed_frames(ring)
}

/// What holds of every ring: it has a slot; the device has confirmed no
/// more than was submitted; no more frames are in flight than there are
/// slots, and one fewer while a frame is in progress; only the slot of the
/// frame that begins next can be in the middle of a frame, and then that
/// frame can be followed; and a submitted slot names a frame that was
/// submitted.
pub open spec fn ring_wf(ring: RingView) -> bool {
    &&& ring.slots.len() >= 1
    &&& reached(submitted_point(ring.next_frame), ring.completed)
    &&& frames_in_flight(ring) <= ring.slots.len()
    &&& !at_rest(current_slot(ring)) ==> frames_in_flight(ring) < ring.slots.len()
    &&& forall|slot: int|
        0 <= slot < ring.slots.len() && slot != slot_of_frame(ring.next_frame, ring.slots.len())
            ==> at_rest(#[trigger] ring.slots[slot])
    &&& !at_rest(current_slot(ring)) ==> ring.next_frame < u64::MAX
    &&& forall|slot: int|
        0 <= slot < ring.slots.len() && (#[trigger] ring.slots[slot]).phase == Phase::Submitted
            ==> reached(submitted_point(ring.next_frame), ring.slots[slot].frame_index)
}

/// The slot of the frame that begins next.
pub open spec fn current_slot(ring: RingView) -> FrameSlot {
    ring.slots[slot_of_frame(ring.next_frame, ring.slots.len())]
}

/// The ring with the slot of the frame that begins next replaced.
pub open spec fn with_current_slot(ring: RingView, slot: FrameSlot) -> RingView {
    RingView {
        slots: ring.slots.update(slot_of_frame(ring.next_frame, ring.slots.len()), slot),
        ..ring
    }
}

/// Whether no slot reads the swapchain's images: each is idle, or its
/// submitted frame is confirmed.
pub open spec fn images_unused(ring: RingView) -> bool {
    forall|slot: int|
        0 <= slot < ring.slots.len() ==> {
            ||| (#[trigger] ring.slots[slot]).phase == Phase::Idle
            ||| (ring.slots[slot].phase == Phase::Submitted && reached(
                ring.completed,
                ring.slots[slot].frame_index,
            ))
        }
}

/// What `begin` answers for `frame_id`.
pub open spec fn begin_result(ring: RingView, frame_id: u64) -> Result<BeginStep, RingError> {
    if frame_id == u64::MAX {
        Err(RingError::FramesExhausted)
    } else if frame_id != ring.next_frame {
        Err(RingError::OutOfOrder { expected: ring.next_frame })
    } else if !at_rest(current_slot(ring)) {
        Err(RingError::WrongPhase { phase: current_slot(ring).phase })
    } else if !reached(ring.completed, wait_target(frame_id, ring.slots.len())) {
        Ok(BeginStep::Wait { frame: (frame_id - ring.slots.len()) as u64 })
    } else {
        Ok(
            BeginStep::Acquire {
                slot: slot_of_frame(frame_id, ring.slots.len()) as usize,
                image_acquired: current_slot(ring).objects.image_acquired,
            },
        )
    }
}

/// The ring after `begin` for `frame_id`: the frame's slot acquires where
/// the answer is to acquire, and nothing has changed where it is not.
pub open spec fn after_begin(ring: RingView, frame_id: u64) -> RingView {
    if begin_result(ring, frame_id) matches Ok(BeginStep::Acquire { .. }) {
        with_current_slot(
            ring,
            FrameSlot { phase: Phase::Acquiring, recording_ended: false, ..current_slot(ring) },
        )
    } else {
        ring
    }
}

/// What `acquired` answers to `outcome`.
pub open spec fn acquired_result(ring: RingView, outcome: AcquireOutcome) -> Result<
    AcquireStep,
    RingError,
> {
    if current_slot(ring).phase != Phase::Acquiring {
        Err(RingError::WrongPhase { phase: current_slot(ring).phase })
    } else {
        let slot = slot_of_frame(ring.next_frame, ring.slots.len()) as usize;
        let command_recorder = current_slot(ring).objects.command_recorder;
        Ok(
            match outcome {
                AcquireOutcome::Image(image_index) => AcquireStep::Record {
                    slot,
                    command_recorder,
                    image_index,
                },
                AcquireOutcome::Suboptimal(image_index) => AcquireStep::Record {
                    slot,
                    command_recorder,
                    image_index,
                },
                AcquireOutcome::OutOfDate => AcquireStep::Rebuild,
                AcquireOutcome::Timeout => AcquireStep::Retry,
                AcquireOutcome::Failed(error) => AcquireStep::Fail(error),
            },
        )
    }
}

/// The ring after `acquired`: with an image the slot records; without one
/// it is idle again; a suboptimal or out-of-date answer leaves a rebuild
/// wanted.
pub open spec fn after_acquired(ring: RingView, outcome: AcquireOutcome) -> RingView {
    if current_slot(ring).phase != Phase::Acquiring {
        ring
    } else {
        let idle = FrameSlot { phase: Phase::Idle, ..current_slot(ring) };
        match outcome {
            AcquireOutcome::Image(image_index) => with_current_slot(
                ring,
                FrameSlot {
                    phase: Phase::Recording,
                    image_index,
                    recording_ended: false,
                    ..current_slot(ring)
                },
            ),
            AcquireOutcome::Suboptimal(image_index) => RingView {
                rebuild_wanted: true,
                ..with_current_slot(
                    ring,
                    FrameSlot {
                        phase: Phase::Recording,
                        image_index,
                        recording_ended: false,
                        ..current_slot(ring)
                    },
                )
            },
            AcquireOutcome::OutOfDate => RingView {
                rebuild_wanted: true,
                ..with_current_slot(ring, idle)
            },
            AcquireOutcome::Timeout => with_current_slot(ring, idle),
            AcquireOutcome::Failed(_) => with_current_slot(ring, idle),
        }
    }
}

/// Whether the slot of the frame in progress records and the recording is
/// open (`ended` false) or ended (`ended` true).
pub open spec fn recording(ring: RingView, ended: bool) -> bool {
    current_slot(ring).phase == Phase::Recording && current_slot(ring).recording_ended == ended
}

/// What `end` answers.
pub open spec fn end_result(ring: RingView) -> Result<EndStep, RingError> {
    if recording(ring, false) {
        Ok(
            EndStep {
                slot: slot_of_frame(ring.next_frame, ring.slots.len()) as usize,
                command_recorder: current_slot(ring).objects.command_recorder,
                image_index: current_slot(ring).image_index,
            },
        )
    } else {
        Err(RingError::WrongPhase { phase: current_slot(ring).phase })
    }
}

/// The ring after `end`.
pub open spec fn after_end(ring: RingView) -> RingView {
    if recording(ring, false) {
        with_current_slot(ring, FrameSlot { recording_ended: true, ..current_slot(ring) })
    } else {
        ring
    }
}

/// What `submit` answers.
pub open spec fn submit_result(ring: RingView) -> Result<SubmitStep, RingError> {
    if recording(ring, true) {
        Ok(
            SubmitStep {
                slot: slot_of_frame(ring.next_frame, ring.slots.len()) as usize,
                command_recorder: current_slot(ring).objects.command_recorder,
                wait: current_slot(ring).objects.image_acquired,
                render_complete: current_slot(ring).objects.render_complete,
                image_index: current_slot(ring).image_index,
                signal: ring.next_frame,
            },
        )
    } else {
        Err(RingError::WrongPhase { phase: current_slot(ring).phase })
    }
}

/// The ring after `submit`: the slot is submitted for the frame, and the
/// next frame is the one to begin.
pub open spec fn after_submit(ring: RingView) -> RingView {
    if recording(ring, true) {
        RingView {
            next_frame: (ring.next_frame + 1) as u64,
            ..with_current_slot(
                ring,
                FrameSlot {
                    phase: Phase::Submitted,
                    frame_index: Some(ring.next_frame),
                    ..current_slot(ring)
                },
            )
        }
    } else {
        ring
    }
}

/// What `presented` answers to `outcome`.
pub open spec fn presented_result(ring: RingView, outcome: PresentOutcome) -> Result<
    PresentStep,
    RingError,
> {
    if ring.next_frame == 0 {
        Err(RingError::NotSubmitted)
    } else {
        Ok(
            match outcome {
                PresentOutcome::Presented => if ring.rebuild_wanted {
                    PresentStep::Rebuild
                } else {
                    PresentStep::Continue
                },
                PresentOutcome::Suboptimal => PresentStep::Rebuild,
                PresentOutcome::OutOfDate => PresentStep::Rebuild,
                PresentOutcome::Failed(error) => PresentStep::Fail(error),
            },
        )
    }
}

/// The ring after `presented`.
pub open spec fn after_presented(ring: RingView, outcome: PresentOutcome) -> RingView {
    if ring.next_frame != 0 && (outcome == PresentOutcome::Suboptimal || outcome
        == PresentOutcome::OutOfDate) {
        RingView { rebuild_wanted: true, ..ring }
    } else {
        ring
    }
}

/// The ring after the device confirmed `point`: the confirmed point never
/// goes back, and a point beyond what was submitted is not taken.
pub open spec fn after_completed(ring: RingView, point: Option<u64>) -> RingView {
    if reached(submitted_point(ring.next_frame), point) {
        RingView { completed: later_point(ring.completed, point), ..ring }
    } else {
        ring
    }
}

/// What a request to rebuild answers.
pub open spec fn rebuild_result(ring: RingView) -> Result<RebuildStep, RingError> {
    if !at_rest(current_slot(ring)) {
        Err(RingError::WrongPhase { phase: current_slot(ring).phase })
    } else if images_unused(ring) {
        Ok(RebuildStep::Proceed)
    } else {
        Ok(RebuildStep::Wait { frame: (ring.next_frame - 1) as u64 })
    }
}

/// The ring after a request to rebuild: where the answer is to proceed no
/// rebuild is wanted any more.
pub open spec fn after_rebuild(ring: RingView) -> RingView {
    if rebuild_result(ring) == Ok::<RebuildStep, RingError>(RebuildStep::Proceed) {
        RingView { rebuild_wanted: false, ..ring }
    } else {
        ring
    }
}

/// The ring's one way of holding the host back. A frame that has a frame
/// `N` before it, `N` being the number of slots, does not get past `begin`
/// while the timeline has not reached that earlier frame: the answer is to
/// wait for it, and the ring stays as it is. When `begin` does let the
/// frame acquire, the earlier frame was submitted and is confirmed
/// complete.
pub proof fn lemma_begin_waits_for_earlier_frame(ring: RingView, frame_id: u64)
    requires
        ring_wf(ring),
        frame_id >= ring.slots.len(),
    ensures
        !reached(ring.completed, Some((frame_id - ring.slots.len()) as u64)) ==> {
            &&& !(begin_result(ring, frame_id) matches Ok(BeginStep::Acquire { .. }))
            &&& after_begin(ring, frame_id) == ring
        },
        begin_result(ring, frame_id) matches Ok(BeginStep::Acquire { .. }) ==> {
            &&& reached(ring.completed, Some((frame_id - ring.slots.len()) as u64))
            &&& reached(
                submitted_point(ring.next_frame),
                Some((frame_id - ring.slots.len()) as u64),
            )
        },
        ring.next_frame <= frame_id - ring.slots.len() ==> !reached(
            ring.completed,
            Some((frame_id - ring.slots.len()) as u64),
        ),
{
}

/// The device's confirmation is what lets a waiting frame begin: once the
/// ring is told that the timeline has reached the frame that `begin` said
/// to wait for, the same `begin` lets the frame acquire.
pub proof fn lemma_confirmation_releases_begin(ring: RingView, frame_id: u64)
    requires
        ring_wf(ring),
        begin_result(ring, frame_id) matches Ok(BeginStep::Wait { .. }),
    ensures
        begin_result(ring, frame_id) == Ok::<BeginStep, RingError>(
            BeginStep::Wait { frame: (frame_id - ring.slots.len()) as u64 },
        ),
        reached(
            submitted_point(ring.next_frame),
            Some((frame_id - ring.slots.len()) as u64),
        ),
        begin_result(
            after_completed(ring, Some((frame_id - ring.slots.len()) as u64)),
            frame_id,
        ) matches Ok(BeginStep::Acquire { .. }),
{
}

/// Between frames, waiting for the last frame submitted is enough for a
/// rebuild: once the ring is told that the timeline has reached it, no slot
/// reads the swapchain's images.
pub proof fn lemma_rebuild_after_wait(ring: RingView)
    requires
        ring_wf(ring),
        at_rest(current_slot(ring)),
    ensures
        images_unused(after_completed(ring, submitted_point(ring.next_frame))),
        rebuild_result(after_completed(ring, submitted_point(ring.next_frame))) == Ok::<
            RebuildStep,
            RingError,
        >(RebuildStep::Proceed),
{
    let after = after_completed(ring, submitted_point(ring.next_frame));
    assert forall|slot: int| 0 <= slot < after.slots.len() implies {
        ||| (#[trigger] after.slots[slot]).phase == Phase::Idle
        ||| (after.slots[slot].phase == Phase::Submitted && reached(
            after.completed,
            after.slots[slot].frame_index,
        ))
    } by {
        if slot != slot_of_frame(ring.next_frame, ring.slots.len()) {
            assert(at_rest(ring.slots[slot]));
        }
        if ring.slots[slot].phase == Phase::Submitted {
            assert(reached(submitted_point(ring.next_frame), ring.slots[slot].frame_index));
        }
    }
}

/// A slot is reused every `slots` frames, and by no frame between: the
/// frame that many frames on has the same slot, the frames before it have
/// other slots, and the first frames take the slots in order.
pub proof fn lemma_slot_reused_every_round(frame: u64, distance: nat, slots: nat)
    requires
        slots > 0,
        frame + distance <= u64::MAX,
    ensures
        0 <= slot_of_frame(frame, slots) < slots,
        frame < slots ==> slot_of_frame(frame, slots) == frame,
        distance == slots ==> slot_of_frame((frame + distance) as u64, slots) == slot_of_frame(
            frame,
            slots,
        ),
        0 < distance < slots ==> slot_of_frame((frame + distance) as u64, slots) != slot_of_frame(
            frame,
            slots,
        ),
{
    let m = slots as int;
    vstd::arithmetic::div_mod::lemma_mod_bound(frame as int, m);
    if frame < slots {
        vstd::arithmetic::div_mod::lemma_small_mod(frame as nat, slots);
    }
    if distance == slots {
        vstd::arithmetic::div_mod::lemma_mod_add_multiples_vanish(frame as int, m);
    }
    if 0 < distance < slots {
        vstd::arithmetic::div_mod::lemma_mod_equivalence(frame + distance, frame as int, m);
        vstd::arithmetic::div_mod::lemma_small_mod(distance, slots);
    }
}

/// The bound on the host's work ahead of the device: at no time are more
/// frames in flight than the ring has slots, and every step keeps it so.
pub proof fn lemma_frames_in_flight_bounded(
    ring: RingView,
    frame_id: u64,
    acquire: AcquireOutcome,
    present: PresentOutcome,
    point: Option<u64>,
)
    requires
        ring_wf(ring),
    ensures
        0 <= frames_in_flight(ring) <= ring.slots.len(),
        ring_wf(after_begin(ring, frame_id)),
        ring_wf(after_acquired(ring, acquire)),
        ring_wf(after_end(ring)),
        ring_wf(after_submit(ring)),
        ring_wf(after_presented(ring, present)),
        ring_wf(after_completed(ring, point)),
        ring_wf(after_rebuild(ring)),
{
    lemma_step_keeps_rest(ring, after_begin(ring, frame_id));
    lemma_step_keeps_rest(ring, after_acquired(ring, acquire));
    lemma_step_keeps_rest(ring, after_end(ring));
    lemma_submit_keeps_order(ring);
}

proof fn lemma_submit_keeps_order(ring: RingView)
    requires
        ring_wf(ring),
    ensures
        ring_wf(after_submit(ring)),
{
    let submitted = after_submit(ring);
    if recording(ring, true) {
        let index = slot_of_frame(ring.next_frame, ring.slots.len());
        assert forall|other: int|
            0 <= other < submitted.slots.len() && other != slot_of_frame(
                submitted.next_frame,
                submitted.slots.len(),
            ) implies at_rest(#[trigger] submitted.slots[other]) by {
            if other != index {
                assert(at_rest(ring.slots[other]));
            }
        }
        assert(at_rest(current_slot(submitted))) by {
            let now = slot_of_frame(submitted.next_frame, submitted.slots.len());
            if now != index {
                assert(at_rest(ring.slots[now]));
            }
        }
        assert forall|other: int|
            0 <= other < submitted.slots.len() && (#[trigger] submitted.slots[other]).phase
                == Phase::Submitted implies reached(
            submitted_point(submitted.next_frame),
            submitted.slots[other].frame_index,
        ) by {
            if other != index {
                assert(ring.slots[other].phase == Phase::Submitted);
            }
        }
    }
}

proof fn lemma_step_keeps_rest(ring: RingView, after: RingView)
    requires
        ring_wf(ring),
        after.next_frame == ring.next_frame,
        after.completed == ring.completed,
        after.slots.len() == ring.slots.len(),
        forall|slot: int|
            0 <= slot < ring.slots.len() && slot != slot_of_frame(
                ring.next_frame,
                ring.slots.len(),
            ) ==> after.slots[slot] == ring.slots[slot],
        current_slot(after).phase == Phase::Submitted ==> current_slot(ring).phase
            == Phase::Submitted && current_slot(after).frame_index == current_slot(
            ring,
        ).frame_index,
        !at_rest(current_slot(after)) ==> ring.next_frame < u64::MAX && frames_in_flight(ring)
            < ring.slots.len(),
    ensures
        ring_wf(after),
{
    assert forall|slot: int|
        0 <= slot < after.slots.len() && slot != slot_of_frame(
            after.next_frame,
            after.slots.len(),
        ) implies at_rest(#[trigger] after.slots[slot]) by {
        assert(at_rest(ring.slots[slot]));
    }
    assert forall|slot: int|
        0 <= slot < after.slots.len() && (#[trigger] after.slots[slot]).phase
            == Phase::Submitted implies reached(
        submitted_point(after.next_frame),
        after.slots[slot].frame_index,
    ) by {
        assert(ring.slots[slot].phase == Phase::Submitted);
    }
}

/// Whether two rings have the same slots with the same native objects.
pub open spec fn same_objects(a: RingView, b: RingView) -> bool {
    &&& a.slots.len() == b.slots.len()
    &&& forall|slot: int|
        0 <= slot < a.slots.len() ==> (#[trigger] a.slots[slot]).objects == b.slots[slot].objects
}

/// No step takes a slot away, adds one, or exchanges a slot's recorder or
/// semaphores: a frame waits on and signals the semaphores of its own slot
/// for as long as the ring lives.
pub proof fn lemma_steps_keep_objects(
    ring: RingView,
    frame_id: u64,
    acquire: AcquireOutcome,
    present: PresentOutcome,
    point: Option<u64>,
)
    requires
        ring_wf(ring),
    ensures
        same_objects(ring, after_begin(ring, frame_id)),
        same_objects(ring, after_acquired(ring, acquire)),
        same_objects(ring, after_end(ring)),
        same_objects(ring, after_submit(ring)),
        same_objects(ring, after_presented(ring, present)),
        same_objects(ring, after_completed(ring, point)),
        same_objects(ring, after_rebuild(ring)),
{
}

/// A frame goes round its slot in order: from rest to acquiring by `begin`,
/// to recording by the image, through `end` to submitted by `submit`, which
/// advances the timeline to the frame and makes the next frame the one to
/// begin.
pub proof fn lemma_frame_round(ring: RingView, image_index: u32)
    requires
        ring_wf(ring),
        begin_result(ring, ring.next_frame) matches Ok(BeginStep::Acquire { .. }),
    ensures
        ({
            let begun = after_begin(ring, ring.next_frame);
            let recording = after_acquired(begun, AcquireOutcome::Image(image_index));
            let ended = after_end(recording);
            let submitted = after_submit(ended);
            let slot = slot_of_frame(ring.next_frame, ring.slots.len());
            &&& current_slot(begun).phase == Phase::Acquiring
            &&& current_slot(recording).phase == Phase::Recording
            &&& submit_result(ended) == Ok::<SubmitStep, RingError>(
                SubmitStep {
                    slot: slot as usize,
                    command_recorder: ring.slots[slot].objects.command_recorder,
                    wait: ring.slots[slot].objects.image_acquired,
                    render_complete: ring.slots[slot].objects.render_complete,
                    image_index,
                    signal: ring.next_frame,
                },
            )
            &&& begin_result(ring, ring.next_frame) == Ok::<BeginStep, RingError>(
                BeginStep::Acquire {
                    slot: slot as usize,
                    image_acquired: ring.slots[slot].objects.image_acquired,
                },
            )
            &&& submitted.slots[slot].phase == Phase::Submitted
            &&& submitted.slots[slot].frame_index == Some(ring.next_frame)
            &&& submitted.next_frame == ring.next_frame + 1
            &&& submitted_point(submitted.next_frame) == Some(ring.next_frame)
        }),
{
}

/// The ring of one fresh slot without native objects, before the first
/// frame, with nothing confirmed and no rebuild wanted.
pub open spec fn spare_ring() -> RingView {
    RingView {
        slots: seq![
            fresh_slot(
                FrameObjects { command_recorder: 0, image_acquired: 0, render_complete: 0 },
            ),
        ],
        next_frame: 0,
        completed: None,
        rebuild_wanted: false,
    }
}

/// The ring of frame slots, with the timeline as far as the ring has been
/// told of it.
pub struct FrameRing {
    slots: Vec<FrameSlot>,
    next_frame: u64,
    completed: Option<u64>,
    rebuild_wanted: bool,
}

impl View for FrameRing {
    type V = RingView;

    closed spec fn view(&self) -> RingView {
        RingView {
            slots: self.slots@,
            next_frame: self.next_frame,
            completed: self.completed,
            rebuild_wanted: self.rebuild_wanted,
        }
    }
}

impl FrameRing {
    #[verifier::type_invariant]
    closed spec fn well_formed(self) -> bool {
        ring_wf(self@)
    }

    /// The ring that stands in while another ring is taken apart and put
    /// together again: one fresh slot without native objects, before the
    /// first frame.
    fn single() -> (ring: FrameRing)
        ensures
            ring@ == spare_ring(),
            ring_wf(ring@),
    {
        let mut slots: Vec<FrameSlot> = Vec::new();
        slots.push(
            FrameSlot {
                objects: FrameObjects { command_recorder: 0, image_acquired: 0, render_complete: 0 },
                phase: Phase::Idle,
                frame_index: None,
                image_index: 0,
                recording_ended: false,
            },
        );
        proof {
            assert(slots@ =~= spare_ring().slots);
        }
        FrameRing { slots, next_frame: 0, completed: None, rebuild_wanted: false }
    }

    /// A ring with one idle slot for each of `objects`, before the first
    /// frame: as many frames can be in flight as there are slots. A ring
    /// without slots is refused.
    pub fn new(objects: Vec<FrameObjects>) -> (result: Result<FrameRing, RingError>)
        ensures
            match result {
                Ok(ring) => {
                    &&& objects@.len() >= 1
                    &&& ring_wf(ring@)
                    &&& ring@.slots.len() == objects@.len()
                    &&& forall|slot: int|
                        0 <= slot < objects@.len() ==> ring@.slots[slot] == fresh_slot(
                            objects@[slot],
                        )
                    &&& ring@.next_frame == 0
                    &&& ring@.completed is None
                    &&& !ring@.rebuild_wanted
                },
                Err(error) => objects@.len() == 0 && error == RingError::NoSlots,
            },
    {
        let frames_in_flight = objects.len();
        if frames_in_flight == 0 {
            return Err(RingError::NoSlots);
        }
        let mut slots: Vec<FrameSlot> = Vec::new();
        let mut i: usize = 0;
        while i < frames_in_flight
            invariant
                i <= frames_in_flight,
                frames_in_flight == objects@.len(),
                slots@.len() == i,
                forall|slot: int| 0 <= slot < i ==> slots@[slot] == fresh_slot(objects@[slot]),
            decreases frames_in_flight - i,
        {
            slots.push(
                FrameSlot {
                    objects: objects[i],
                    phase: Phase::Idle,
                    frame_index: None,
                    image_index: 0,
                    recording_ended: false,
                },
            );
            i += 1;
        }
        Ok(FrameRing { slots, next_frame: 0, completed: None, rebuild_wanted: false })
    }

    /// The number of slots: how many frames can be in flight.
    pub fn frames_in_flight(&self) -> (count: usize)
        ensures
            count == self@.slots.len(),
            count >= 1,
            ring_wf(self@),
    {
        proof {
            use_type_invariant(self);
        }
        self.slots.len()
    }

    /// The frame that begins next.
    pub fn next_frame(&self) -> (frame: u64)
        ensures
            frame == self@.next_frame,
    {
        self.next_frame
    }

    /// How far the timeline is submitted: the last frame submitted, or
    /// nothing before the first.
    pub fn submitted(&self) -> (point: Option<u64>)
        ensures
            point == submitted_point(self@.next_frame),
    {
        if self.next_frame == 0 {
            None
        } else {
            Some(self.next_frame - 1)
        }
    }

    /// How far the device has confirmed the timeline; never further than it
    /// is submitted.
    pub fn completed(&self) -> (point: Option<u64>)
        ensures
            point == self@.completed,
            reached(submitted_point(self@.next_frame), point),
    {
        proof {
            use_type_invariant(self);
        }
        self.completed
    }

    /// Whether a rebuild of the swapchain is wanted.
    pub fn rebuild_wanted(&self) -> (wanted: bool)
        ensures
            wanted == self@.rebuild_wanted,
    {
        self.rebuild_wanted
    }

    /// The slot with this index, or nothing beyond the ring.
    pub fn slot(&self, index: usize) -> (slot: Option<FrameSlot>)
        ensures
            slot == if index < self@.slots.len() {
                Some(self@.slots[index as int])
            } else {
                None
            },
    {
        if index < self.slots.len() {
            Some(self.slots[index])
        } else {
            None
        }
    }

    /// The slot of the frame that begins next, or that is in progress.
    pub fn current_slot(&self) -> (index: usize)
        ensures
            index == slot_of_frame(self@.next_frame, self@.slots.len()),
            index < self@.slots.len(),
            ring_wf(self@),
    {
        proof {
            use_type_invariant(self);
        }
        (self.next_frame % (self.slots.len() as u64)) as usize
    }

    fn put_current(&mut self, slot: FrameSlot, rebuild_wanted: bool)
        requires
            ring_wf(
                RingView { rebuild_wanted, ..with_current_slot(old(self)@, slot) },
            ),
        ensures
            final(self)@ == (RingView { rebuild_wanted, ..with_current_slot(old(self)@, slot) }),
    {
        let index = self.current_slot();
        let mut taken = FrameRing::single();
        std::mem::swap(self, &mut taken);
        let FrameRing { mut slots, next_frame, completed, rebuild_wanted: _ } = taken;
        slots.set(index, slot);
        *self = FrameRing { slots, next_frame, completed, rebuild_wanted };
    }
}

impl FrameRing {
    /// Begins frame `frame_id`. Frames begin in order, each in the slot
    /// that the frame `N` before it used, `N` being the number of slots;
    /// the frame may not go on until that earlier frame is confirmed
    /// complete, and while it is not, the answer is to wait for it. That is
    /// all that holds the host back.
    pub fn begin(&mut self, frame_id: u64) -> (result: Result<BeginStep, RingError>)
        ensures
            result == begin_result(old(self)@, frame_id),
            final(self)@ == after_begin(old(self)@, frame_id),
            ring_wf(final(self)@),
    {
        let index = self.current_slot();
        let count = self.slots.len();
        let slot = self.slots[index];
        if frame_id == u64::MAX {
            return Err(RingError::FramesExhausted);
        }
        if frame_id != self.next_frame {
            return Err(RingError::OutOfOrder { expected: self.next_frame });
        }
        if slot.phase != Phase::Idle && slot.phase != Phase::Submitted {
            return Err(RingError::WrongPhase { phase: slot.phase });
        }
        if frame_id >= count as u64 {
            let earlier = frame_id - count as u64;
            if !has_reached(self.completed, Some(earlier)) {
                return Ok(BeginStep::Wait { frame: earlier });
            }
        }
        let rebuild_wanted = self.rebuild_wanted;
        self.put_current(
            FrameSlot { phase: Phase::Acquiring, recording_ended: false, ..slot },
            rebuild_wanted,
        );
        Ok(BeginStep::Acquire { slot: index, image_acquired: slot.objects.image_acquired })
    }

    /// Takes the answer to the image request of the frame in progress.
    pub fn acquired(&mut self, outcome: AcquireOutcome) -> (result: Result<AcquireStep, RingError>)
        ensures
            result == acquired_result(old(self)@, outcome),
            final(self)@ == after_acquired(old(self)@, outcome),
            ring_wf(final(self)@),
    {
        let index = self.current_slot();
        let slot = self.slots[index];
        if slot.phase != Phase::Acquiring {
            return Err(RingError::WrongPhase { phase: slot.phase });
        }
        let rebuild_wanted = self.rebuild_wanted;
        let idle = FrameSlot { phase: Phase::Idle, ..slot };
        match outcome {
            AcquireOutcome::Image(image_index) => {
                self.put_current(
                    FrameSlot {
                        phase: Phase::Recording,
                        image_index,
                        recording_ended: false,
                        ..slot
                    },
                    rebuild_wanted,
                );
                Ok(
                    AcquireStep::Record {
                        slot: index,
                        command_recorder: slot.objects.command_recorder,
                        image_index,
                    },
                )
            },
            AcquireOutcome::Suboptimal(image_index) => {
                self.put_current(
                    FrameSlot {
                        phase: Phase::Recording,
                        image_index,
                        recording_ended: false,
                        ..slot
                    },
                    true,
                );
                Ok(
                    AcquireStep::Record {
                        slot: index,
                        command_recorder: slot.objects.command_recorder,
                        image_index,
                    },
                )
            },
            AcquireOutcome::OutOfDate => {
                self.put_current(idle, true);
                Ok(AcquireStep::Rebuild)
            },
            AcquireOutcome::Timeout => {
                self.put_current(idle, rebuild_wanted);
                Ok(AcquireStep::Retry)
            },
            AcquireOutcome::Failed(error) => {
                self.put_current(idle, rebuild_wanted);
                Ok(AcquireStep::Fail(error))
            },
        }
    }

    /// Ends the recording of the frame in progress.
    pub fn end(&mut self) -> (result: Result<EndStep, RingError>)
        ensures
            result == end_result(old(self)@),
            final(self)@ == after_end(old(self)@),
            ring_wf(final(self)@),
    {
        let index = self.current_slot();
        let slot = self.slots[index];
        if slot.phase != Phase::Recording || slot.recording_ended {
            return Err(RingError::WrongPhase { phase: slot.phase });
        }
        let rebuild_wanted = self.rebuild_wanted;
        self.put_current(FrameSlot { recording_ended: true, ..slot }, rebuild_wanted);
        Ok(
            EndStep {
                slot: index,
                command_recorder: slot.objects.command_recorder,
                image_index: slot.image_index,
            },
        )
    }

    /// Submits the frame in progress: its slot is submitted, the timeline
    /// is to be advanced to the frame, and the next frame is the one to
    /// begin.
    pub fn submit(&mut self) -> (result: Result<SubmitStep, RingError>)
        ensures
            result == submit_result(old(self)@),
            final(self)@ == after_submit(old(self)@),
            ring_wf(final(self)@),
    {
        let index = self.current_slot();
        let slot = self.slots[index];
        if slot.phase != Phase::Recording || !slot.recording_ended {
            return Err(RingError::WrongPhase { phase: slot.phase });
        }
        let frame = self.next_frame;
        let mut taken = FrameRing::single();
        std::mem::swap(self, &mut taken);
        let FrameRing { mut slots, next_frame, completed, rebuild_wanted } = taken;
        slots.set(index, FrameSlot { phase: Phase::Submitted, frame_index: Some(frame), ..slot });
        proof {
            lemma_submit_keeps_order(old(self)@);
            assert(after_submit(old(self)@).slots =~= slots@);
        }
        *self = FrameRing { slots, next_frame: frame + 1, completed, rebuild_wanted };
        Ok(
            SubmitStep {
                slot: index,
                command_recorder: slot.objects.command_recorder,
                wait: slot.objects.image_acquired,
                render_complete: slot.objects.render_complete,
                image_index: slot.image_index,
                signal: frame,
            },
        )
    }

    /// Takes the answer to the presentation of the frame submitted last. A
    /// suboptimal or out-of-date answer is no failure: it asks for a
    /// rebuild.
    pub fn presented(&mut self, outcome: PresentOutcome) -> (result: Result<
        PresentStep,
        RingError,
    >)
        ensures
            result == presented_result(old(self)@, outcome),
            final(self)@ == after_presented(old(self)@, outcome),
            ring_wf(final(self)@),
    {
        proof {
            use_type_invariant(&*self);
        }
        if self.next_frame == 0 {
            return Err(RingError::NotSubmitted);
        }
        match outcome {
            PresentOutcome::Presented => {
                if self.rebuild_wanted {
                    Ok(PresentStep::Rebuild)
                } else {
                    Ok(PresentStep::Continue)
                }
            },
            PresentOutcome::Suboptimal => {
                self.want_rebuild(true);
                Ok(PresentStep::Rebuild)
            },
            PresentOutcome::OutOfDate => {
                self.want_rebuild(true);
                Ok(PresentStep::Rebuild)
            },
            PresentOutcome::Failed(error) => Ok(PresentStep::Fail(error)),
        }
    }

    fn want_rebuild(&mut self, wanted: bool)
        ensures
            final(self)@ == (RingView { rebuild_wanted: wanted, ..old(self)@ }),
            ring_wf(final(self)@),
    {
        proof {
            use_type_invariant(&*self);
        }
        let mut taken = FrameRing::single();
        std::mem::swap(self, &mut taken);
        let FrameRing { slots, next_frame, completed, rebuild_wanted: _ } = taken;
        *self = FrameRing { slots, next_frame, completed, rebuild_wanted: wanted };
    }

    /// Takes note that the device has confirmed the timeline up to `point`.
    /// The confirmed point never goes back. A point beyond the last frame
    /// submitted is refused and nothing changes.
    pub fn observe_completed(&mut self, point: Option<u64>) -> (result: Result<(), RingError>)
        ensures
            result == if reached(submitted_point(old(self)@.next_frame), point) {
                Ok::<(), RingError>(())
            } else {
                Err::<(), RingError>(RingError::NotSubmitted)
            },
            final(self)@ == after_completed(old(self)@, point),
            ring_wf(final(self)@),
    {
        proof {
            use_type_invariant(&*self);
        }
        if !has_reached(self.submitted(), point) {
            return Err(RingError::NotSubmitted);
        }
        let mut taken = FrameRing::single();
        std::mem::swap(self, &mut taken);
        let FrameRing { slots, next_frame, completed, rebuild_wanted } = taken;
        let confirmed = later(completed, point);
        *self = FrameRing { slots, next_frame, completed: confirmed, rebuild_wanted };
        Ok(())
    }

    /// Whether no slot reads the swapchain's images.
    pub fn images_unused(&self) -> (unused: bool)
        ensures
            unused == images_unused(self@),
    {
        let mut index: usize = 0;
        while index < self.slots.len()
            invariant
                index <= self.slots@.len(),
                forall|slot: int|
                    0 <= slot < index ==> {
                        ||| (#[trigger] self.slots@[slot]).phase == Phase::Idle
                        ||| (self.slots@[slot].phase == Phase::Submitted && reached(
                            self.completed,
                            self.slots@[slot].frame_index,
                        ))
                    },
            decreases self.slots@.len() - index,
        {
            let slot = self.slots[index];
            let unused = match slot.phase {
                Phase::Idle => true,
                Phase::Submitted => has_reached(self.completed, slot.frame_index),
                _ => false,
            };
            if !unused {
                return false;
            }
            index += 1;
        }
        true
    }

    /// Asks to rebuild the swapchain. A rebuild may happen only while no
    /// slot reads the old images: in the middle of a frame it is refused,
    /// and while a submitted frame is not confirmed the answer is to wait
    /// for the last frame submitted.
    pub fn request_rebuild(&mut self) -> (result: Result<RebuildStep, RingError>)
        ensures
            result == rebuild_result(old(self)@),
            final(self)@ == after_rebuild(old(self)@),
            ring_wf(final(self)@),
    {
        let index = self.current_slot();
        let slot = self.slots[index];
        if slot.phase != Phase::Idle && slot.phase != Phase::Submitted {
            return Err(RingError::WrongPhase { phase: slot.phase });
        }
        if self.images_unused() {
            self.want_rebuild(false);
            Ok(RebuildStep::Proceed)
        } else {
            proof {
                let witness = choose|other: int|
                    0 <= other < self@.slots.len() && !({
                        ||| (#[trigger] self@.slots[other]).phase == Phase::Idle
                        ||| (self@.slots[other].phase == Phase::Submitted && reached(
                            self@.completed,
                            self@.slots[other].frame_index,
                        ))
                    });
                if witness != index {
                    assert(at_rest(self@.slots[witness]));
                }
                assert(self@.slots[witness].phase == Phase::Submitted);
            }
            Ok(RebuildStep::Wait { frame: self.next_frame - 1 })
        }
    }

    /// The timeline point at which an object that loses its owner now is
    /// safe to destroy.
    pub fn retire_point(&self) -> (point: Option<u64>)
        ensures
            point == retire_point(self@),
    {
        let index = self.current_slot();
        let slot = self.slots[index];
        if slot.phase == Phase::Idle || slot.phase == Phase::Submitted {
            self.submitted()
        } else {
            Some(self.next_frame)
        }
    }

    /// Queues a native object whose owner is gone, at the point at which
    /// it is safe: the work that may still use the object ends with the
    /// frame in progress or, between frames, with the last frame submitted.
    pub fn retire(&self, queue: &mut DestructionQueue, object: NativeObject)
        ensures
            final(queue)@ == old(queue)@.push(
                PendingDestruction { object, submitted: retire_point(self@) },
            ),
    {
        queue.push(object, self.retire_point());
    }

    /// Drains `queue` at the timeline as far as the device has confirmed
    /// it: what is returned may be destroyed now.
    pub fn drain(&self, queue: &mut DestructionQueue) -> (released: Vec<PendingDestruction>)
        ensures
            released@ == old(queue)@.filter(due(self@.completed)),
            final(queue)@ == old(queue)@.filter(not_due(self@.completed)),
    {
        queue.drain(self.completed)
    }
}

} // verus!

//! The timeline by which host and device agree on how far the device's work
//! has come. A point on it is the highest frame that has been reached, or
//! nothing while no frame has.

use vstd::prelude::*;

verus! {

/// Whether a timeline that stands at `completed` has come as far as
/// `target`. Nothing is reached at once; a frame is reached when the
/// timeline stands at that frame or a later one.
pub open spec fn reached(completed: Option<u64>, target: Option<u64>) -> bool {
    match target {
        None => true,
        Some(frame) => completed matches Some(done) && done >= frame,
    }
}

/// The later of two points.
pub open spec fn later_point(a: Option<u64>, b: Option<u64>) -> Option<u64> {
    if reached(a, b) {
        a
    } else {
        b
    }
}

/// The value that a native counter is signalled to when `frame` completes:
/// one more than the frame.
pub open spec fn counter_of_frame(frame: u64) -> int {
    frame + 1
}

/// The point that a native counter stands for: nothing at zero, else the
/// frame one below the counter.
pub open spec fn point_of_counter(counter: u64) -> Option<u64> {
    if counter == 0 {
        None
    } else {
        Some((counter - 1) as u64)
    }
}

/// Whether a timeline that stands at `completed` has come as far as
/// `target`.
pub fn has_reached(completed: Option<u64>, target: Option<u64>) -> (done: bool)
    ensures
        done == reached(completed, target),
{
    match target {
        None => true,
        Some(frame) => match completed {
            Some(confirmed) => confirmed >= frame,
            None => false,
        },
    }
}

/// The later of two points.
pub fn later(a: Option<u64>, b: Option<u64>) -> (point: Option<u64>)
    ensures
        point == later_point(a, b),
        reached(point, a),
        reached(point, b),
{
    if has_reached(a, b) {
        a
    } else {
        b
    }
}

/// The value that a native timeline counter, which starts at zero, is
/// signalled to when `frame` completes: one more than the frame, so that
/// zero is left to stand for "no frame yet". There is none for the last
/// frame that a `u64` can count.
pub fn counter_for_frame(frame: u64) -> (counter: Option<u64>)
    ensures
        counter == if counter_of_frame(frame) <= u64::MAX {
            Some(counter_of_frame(frame) as u64)
        } else {
            None
        },
{
    frame.checked_add(1)
}

/// The point that a native timeline counter stands for: nothing at zero,
/// else the frame one below the counter.
pub fn point_for_counter(counter: u64) -> (point: Option<u64>)
    ensures
        point == point_of_counter(counter),
{
    if counter == 0 {
        None
    } else {
        Some(counter - 1)
    }
}

/// Reaching is a total order on points: every point reaches itself, of two
/// points one reaches the other, and reaching carries over a point between.
pub proof fn lemma_reached_orders(a: Option<u64>, b: Option<u64>, c: Option<u64>)
    ensures
        reached(a, a),
        reached(a, b) || reached(b, a),
        reached(a, b) && reached(b, a) ==> a == b,
        reached(a, b) && reached(b, c) ==> reached(a, c),
{
}

/// The native counter tells the same story as the timeline: the counter
/// that a frame is signalled with stands for that frame, a counter at zero
/// for no frame, and the device's counter has come to a frame's value
/// exactly when the timeline has reached the frame.
pub proof fn lemma_counter_stands_for_frame(frame: u64, counter: u64)
    requires
        frame < u64::MAX,
    ensures
        point_of_counter(counter_of_frame(frame) as u64) == Some(frame),
        point_of_counter(0) is None,
        reached(point_of_counter(counter), Some(frame)) <==> counter >= counter_of_frame(frame),
{
}

} // verus!

//! The orientation updater's decision: which motion events to apply.

use crate::capture::{capture_gate, mode_of, CaptureMode, FrameError};
use crate::motion::{after_read, first_unread, is_unread, MotionReadCursor};
use bevy::window::Cursor;
use std::ops::Range;
use vstd::prelude::*;

verus! {

/// The look update of one frame.
///
/// Without a primary window the update is skipped with an error, and while
/// the cursor is free nothing is read: both leave `reader` where it stood.
/// While the cursor is captured, the unread events of the stream are handed
/// out, in arrival order, and `reader` moves past them. The host turns the
/// camera by each event of the returned range in turn.
pub fn cam_look(
    primary_window: Option<&Cursor>,
    reader: &mut MotionReadCursor,
    oldest: usize,
    sent: usize,
) -> (unread: Result<Range<usize>, FrameError>)
    ensures
        primary_window is None ==> {
            &&& unread == Err::<Range<usize>, FrameError>(FrameError::PrimaryWindowUnavailable)
            &&& *final(reader) == *old(reader)
        },
        primary_window matches Some(cursor) && mode_of(*cursor) is Free ==> {
            &&& unread matches Ok(range)
            &&& range.start == old(reader).position()
            &&& range.end == old(reader).position()
            &&& *final(reader) == *old(reader)
        },
        primary_window matches Some(cursor) && mode_of(*cursor) is Captured ==> {
            &&& unread matches Ok(range)
            &&& forall|n: nat|
                range.start <= n < range.end <==> #[trigger] is_unread(
                    old(reader).position(),
                    oldest as nat,
                    sent as nat,
                    n,
                )
            &&& range.start == first_unread(old(reader).position(), oldest as nat, sent as nat)
            &&& range.end == after_read(old(reader).position(), sent as nat)
            &&& final(reader).position() == after_read(old(reader).position(), sent as nat)
        },
        final(reader).position() >= old(reader).position(),
{
    match capture_gate(primary_window) {
        Err(e) => Err(e),
        Ok(CaptureMode::Free) => {
            let here = reader.next_unread();
            Ok(Range { start: here, end: here })
        },
        Ok(CaptureMode::Captured) => Ok(reader.read(oldest, sent)),
    }
}

} // verus!

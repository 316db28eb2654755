//! The windows shown during a recording: an annotation overlay over an area
//! recording, a control pill for a display or window recording, and the
//! click-through poller of the overlay.
use vstd::prelude::*;
use crate::record::{source_type_name, source_type_str, SourceKind};
use crate::text::{owned, push_str};

verus! {

/// The window that accompanies a recording.
#[derive(Clone, Copy, Debug, PartialEq, Eq, Structural)]
pub enum RecordingWindow {
    /// The annotation overlay over the recorded area.
    Annotation,
    /// The control pill at the bottom right of the recorded display.
    ControlPill,
}

/// An area recording gets the annotation overlay; a display or window
/// recording gets the control pill.
pub fn recording_window(source: SourceKind) -> (w: RecordingWindow)
    ensures
        w == (if source == SourceKind::Area { RecordingWindow::Annotation } else { RecordingWindow::ControlPill }),
{
    match source {
        SourceKind::Area => RecordingWindow::Annotation,
        _ => RecordingWindow::ControlPill,
    }
}

/// The control pill's page, told the source type.
pub fn control_window_url(source: SourceKind) -> (u: String)
    ensures
        u@ == "record-control.html?source="@ + source_type_name(source),
{
    let mut u = owned("record-control.html?source=");
    push_str(&mut u, source_type_str(source));
    u
}

/// What one tick of the overlay's click-through poller does.
#[derive(Clone, Copy, Debug, PartialEq, Eq, Structural)]
pub enum OverlayTick {
    /// The overlay is gone or hidden: the poller ends.
    Stop,
    /// Nothing to change.
    Keep,
    /// Make the overlay ignore the mouse (true) or take it (false).
    SetIgnore(bool),
}

/// Poller state and action after one tick: `visible` whether the overlay is
/// shown, `passthrough` whether the user chose to work in the application
/// below, `in_toolbar` whether the cursor is over the toolbar (none when the
/// cursor could not be read).
pub open spec fn overlay_tick(ignoring: bool, visible: bool, passthrough: bool, in_toolbar: Option<bool>) -> (bool, OverlayTick) {
    if !visible {
        (ignoring, OverlayTick::Stop)
    } else if !passthrough {
        if ignoring {
            (false, OverlayTick::SetIgnore(false))
        } else {
            (false, OverlayTick::Keep)
        }
    } else {
        match in_toolbar {
            None => (ignoring, OverlayTick::Keep),
            Some(t) => if !t != ignoring {
                (!t, OverlayTick::SetIgnore(!t))
            } else {
                (ignoring, OverlayTick::Keep)
            },
        }
    }
}

/// The overlay's click-through poller: in annotation mode the overlay takes
/// the mouse; in pass-through mode it lets clicks through except over its
/// toolbar.
#[derive(Clone, Copy, Debug, PartialEq, Eq, Structural)]
pub struct OverlayPoller {
    /// Whether the overlay currently ignores the mouse.
    pub ignoring: bool,
}

impl OverlayPoller {
    /// The overlay starts taking the mouse.
    pub fn new() -> (p: OverlayPoller)
        ensures
            !p.ignoring,
    {
        OverlayPoller { ignoring: false }
    }

    /// One tick of the poller.
    pub fn tick(&mut self, visible: bool, passthrough: bool, in_toolbar: Option<bool>) -> (t: OverlayTick)
        ensures
            (final(self).ignoring, t) == overlay_tick(old(self).ignoring, visible, passthrough, in_toolbar),
    {
        if !visible {
            return OverlayTick::Stop;
        }
        if !passthrough {
            if self.ignoring {
                self.ignoring = false;
                return OverlayTick::SetIgnore(false);
            }
            return OverlayTick::Keep;
        }
        match in_toolbar {
            None => OverlayTick::Keep,
            Some(t) => {
                let want = !t;
                if want != self.ignoring {
                    self.ignoring = want;
                    OverlayTick::SetIgnore(want)
                } else {
                    OverlayTick::Keep
                }
            },
        }
    }
}

/// After a tick on a shown overlay, it takes the mouse in annotation mode,
/// and in pass-through mode (with the cursor known) it takes it exactly over
/// the toolbar; the setting is only sent when it changes.
pub proof fn law_overlay_follows_mode(ignoring: bool, passthrough: bool, in_toolbar: Option<bool>)
    ensures
        ({
            let (after, t) = overlay_tick(ignoring, true, passthrough, in_toolbar);
            &&& !passthrough ==> !after
            &&& (passthrough && in_toolbar is Some) ==> after == !(in_toolbar->0)
            &&& (t matches OverlayTick::SetIgnore(x) ==> x == after && after != ignoring)
            &&& (t == OverlayTick::Keep ==> after == ignoring)
        }),
{
}

} // verus!

use vstd::prelude::*;

use crate::error::{Error, ErrorKind};

verus! {

// ---------------------------------------------------------------------------
// The control escape: how many control keys are held
// ---------------------------------------------------------------------------

/// The depth after a control key went down.
pub open spec fn pushed(depth: nat) -> nat {
    depth + 1
}

/// The depth after a control key came up; it never goes below zero.
pub open spec fn popped(depth: nat) -> nat {
    if depth > 0 {
        (depth - 1) as nat
    } else {
        0
    }
}

/// Handles `control-escape-push`: one more control key is held.
pub fn control_escape_push(depth: u32) -> (r: u32)
    requires
        depth < u32::MAX,
    ensures
        r == pushed(depth as nat),
{
    depth + 1
}

/// Handles `control-escape-pop`: one control key less is held.
pub fn control_escape_pop(depth: u32) -> (r: u32)
    ensures
        r == popped(depth as nat),
{
    if depth > 0 {
        depth - 1
    } else {
        depth
    }
}

/// A key of the keyboard, as far as the window tells keys apart.
#[derive(Debug, Clone, Copy, PartialEq, Eq, Structural)]
pub enum Key {
    ControlLeft,
    ControlRight,
    Other,
}

impl Key {
    pub open spec fn is_control(self) -> bool {
        self is ControlLeft || self is ControlRight
    }
}

/// The signal a key event makes the window emit.
#[derive(Debug, Clone, Copy, PartialEq, Eq, Structural)]
pub enum ControlSignal {
    /// `control-escape-push`
    Push,
    /// `control-escape-pop`
    Pop,
}

/// The signal emitted when `key` goes down (`pressed`) or comes up:
/// control keys push and pop the control escape, other keys emit nothing.
pub open spec fn signal_for(key: Key, pressed: bool) -> Option<ControlSignal> {
    if key.is_control() {
        if pressed {
            Some(ControlSignal::Push)
        } else {
            Some(ControlSignal::Pop)
        }
    } else {
        None
    }
}

/// The signal emitted for a key event.
pub fn key_signal(key: Key, pressed: bool) -> (r: Option<ControlSignal>)
    ensures
        r == signal_for(key, pressed),
{
    match key {
        Key::ControlLeft | Key::ControlRight => {
            if pressed {
                Some(ControlSignal::Push)
            } else {
                Some(ControlSignal::Pop)
            }
        },
        Key::Other => None,
    }
}

/// The depth after a key event.
pub open spec fn depth_after(depth: nat, key: Key, pressed: bool) -> nat {
    match signal_for(key, pressed) {
        Some(ControlSignal::Push) => pushed(depth),
        Some(ControlSignal::Pop) => popped(depth),
        None => depth,
    }
}

/// The depth after a key event, as the window's signal handlers leave it.
pub fn on_key_event(depth: u32, key: Key, pressed: bool) -> (r: u32)
    requires
        key.is_control() && pressed ==> depth < u32::MAX,
    ensures
        r == depth_after(depth as nat, key, pressed),
{
    match key_signal(key, pressed) {
        Some(ControlSignal::Push) => control_escape_push(depth),
        Some(ControlSignal::Pop) => control_escape_pop(depth),
        None => depth,
    }
}

/// What a key event does to the number of held control keys: pressing
/// either control key adds one, releasing one takes one away (never below
/// zero), and any other key changes nothing. In particular a release never
/// raises the count and a press never lowers it.
pub proof fn law_key_event_effect(depth: nat, key: Key, pressed: bool)
    ensures
        (key == Key::ControlLeft || key == Key::ControlRight) && pressed ==> depth_after(depth, key, pressed) == depth + 1,
        (key == Key::ControlLeft || key == Key::ControlRight) && !pressed && depth > 0 ==> depth_after(depth, key, pressed) == depth - 1,
        (key == Key::ControlLeft || key == Key::ControlRight) && !pressed && depth == 0 ==> depth_after(depth, key, pressed) == 0,
        key == Key::Other ==> depth_after(depth, key, pressed) == depth,
        !pressed ==> depth_after(depth, key, pressed) <= depth,
        pressed ==> depth_after(depth, key, pressed) >= depth,
{
}

/// The signal of every key event: the control keys push when pressed and
/// pop when released; other keys emit nothing.
pub proof fn law_key_signals(pressed: bool)
    ensures
        signal_for(Key::ControlLeft, true) == Some(ControlSignal::Push),
        signal_for(Key::ControlRight, true) == Some(ControlSignal::Push),
        signal_for(Key::ControlLeft, false) == Some(ControlSignal::Pop),
        signal_for(Key::ControlRight, false) == Some(ControlSignal::Pop),
        signal_for(Key::Other, pressed) == None::<ControlSignal>,
{
}

/// Releasing a held control key undoes pressing it.
pub proof fn law_pop_after_push_restores(depth: nat)
    ensures
        popped(pushed(depth)) == depth,
        pushed(depth) == depth + 1,
{
}

/// Releasing a control key never takes the depth below zero, and takes it
/// down by one whenever one is held.
pub proof fn law_pop_never_below_zero(depth: nat)
    ensures
        popped(depth) <= depth,
        depth == 0 ==> popped(depth) == 0,
        depth > 0 ==> popped(depth) == depth - 1,
{
}

/// Pressing and then releasing a control key leaves the depth as it was.
pub proof fn law_control_press_release_restores(depth: nat, key: Key)
    requires
        key.is_control(),
    ensures
        depth_after(depth_after(depth, key, true), key, false) == depth,
{
}

/// Keys other than the control keys leave the depth alone.
pub proof fn law_other_keys_keep_depth(depth: nat, key: Key, pressed: bool)
    requires
        !key.is_control(),
    ensures
        depth_after(depth, key, pressed) == depth,
{
}

/// The depth after a run of key events, from no key held.
pub open spec fn depth_after_events(events: Seq<(Key, bool)>) -> nat
    decreases events.len(),
{
    if events.len() == 0 {
        0
    } else {
        let last = events.last();
        depth_after(depth_after_events(events.drop_last()), last.0, last.1)
    }
}

/// How many control keys went down (`pressed`) or came up in `events`.
pub open spec fn control_count(events: Seq<(Key, bool)>, pressed: bool) -> nat
    decreases events.len(),
{
    if events.len() == 0 {
        0
    } else {
        let last = events.last();
        control_count(events.drop_last(), pressed) + if last.0.is_control() && last.1 == pressed {
            1nat
        } else {
            0nat
        }
    }
}

/// No prefix of `events` releases more control keys than it pressed.
pub open spec fn releases_follow_presses(events: Seq<(Key, bool)>) -> bool {
    forall|i: int|
        0 <= i <= events.len() ==> control_count(#[trigger] events.take(i), false) <= control_count(
            events.take(i),
            true,
        )
}

/// When every release of a control key follows a press, the depth is the
/// number of control keys held: presses minus releases.
pub proof fn law_depth_counts_held_control_keys(events: Seq<(Key, bool)>)
    requires
        releases_follow_presses(events),
    ensures
        depth_after_events(events) == control_count(events, true) - control_count(events, false),
    decreases events.len(),
{
    if events.len() > 0 {
        let prefix = events.drop_last();
        assert forall|i: int| 0 <= i <= prefix.len() implies control_count(
            #[trigger] prefix.take(i),
            false,
        ) <= control_count(prefix.take(i), true) by {
            assert(prefix.take(i) =~= events.take(i));
        }
        law_depth_counts_held_control_keys(prefix);
        assert(events.take(events.len() as int) =~= events);
    }
}

// ---------------------------------------------------------------------------
// Scrolling
// ---------------------------------------------------------------------------

/// What a vertical scroll does in the page list.
#[derive(Debug, Clone, Copy, PartialEq, Eq, Structural)]
pub enum ScrollResponse {
    /// Zoom by the scroll amount and stop the event.
    Zoom,
    /// Let the list scroll.
    Proceed,
}

/// A scroll zooms exactly while a control key is held.
pub fn scroll_response(depth: u32) -> (r: ScrollResponse)
    ensures
        r == (if depth > 0 { ScrollResponse::Zoom } else { ScrollResponse::Proceed }),
{
    if depth > 0 {
        ScrollResponse::Zoom
    } else {
        ScrollResponse::Proceed
    }
}

/// An edge of the scrolled page list.
#[derive(Debug, Clone, Copy, PartialEq, Eq, Structural)]
pub enum Edge {
    Left,
    Right,
    Top,
    Bottom,
}

/// The position label shown when the list reaches an edge: `Top` and `Bot`
/// for the vertical edges, nothing for the others.
pub fn edge_label(edge: Edge) -> (r: Option<&'static str>)
    ensures
        edge is Top ==> (r matches Some(s) && s@ == "Top"@),
        edge is Bottom ==> (r matches Some(s) && s@ == "Bot"@),
        (edge is Left || edge is Right) ==> r is None,
{
    match edge {
        Edge::Top => Some("Top"),
        Edge::Bottom => Some("Bot"),
        Edge::Left | Edge::Right => None,
    }
}

// ---------------------------------------------------------------------------
// Leaving the window
// ---------------------------------------------------------------------------

/// The outcome of running the window, by the exit code it returned:
/// success for code 0, a window error otherwise.
pub fn window_exit_result(exit_code: u8) -> (r: Result<(), Error>)
    ensures
        exit_code == 0 ==> r is Ok,
        exit_code != 0 ==> (r matches Err(e) && e@ == (ErrorKind::Window, "Window exited with code 1."@)),
{
    if exit_code == 0 {
        Ok(())
    } else {
        Err(Error::new(ErrorKind::Window, "Window exited with code 1."))
    }
}

/// A scroll zooms exactly while the control escape is held.
pub proof fn law_zoom_exactly_while_control_held(events: Seq<(Key, bool)>)
    requires
        releases_follow_presses(events),
    ensures
        depth_after_events(events) > 0 <==> control_count(events, true) > control_count(events, false),
{
    law_depth_counts_held_control_keys(events);
}

} // verus!

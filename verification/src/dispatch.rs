//! The dispatch engine: a stateless reactive dispatcher keyed by the
//! registration table. On each key press the pressed chord is resolved to
//! the first matching registered action; the effect of each action is a
//! pure geometry computation (overlay move or resize with a clamped
//! minimum), a visibility toggle, or a command-bus submission. All effects
//! are best-effort: a caller that cannot read or write the overlay geometry
//! drops the event.

use vstd::prelude::*;
use vstd::string::StringExecFns;

use crate::bus::CommandBus;
use crate::bus::CommandMessageV;
use crate::grammar::Chord;
use crate::registry::Action;
use crate::registry::ActionV;
use crate::registry::RegisteredShortcut;

verus! {

/// Whether an action moves the overlay.
pub open spec fn is_move_action(a: ActionV) -> bool {
    a == ActionV::OverlayMoveUp || a == ActionV::OverlayMoveDown || a == ActionV::OverlayMoveLeft
        || a == ActionV::OverlayMoveRight
}

/// Whether an action resizes the overlay.
pub open spec fn is_resize_action(a: ActionV) -> bool {
    a == ActionV::OverlayResizeUp || a == ActionV::OverlayResizeDown
        || a == ActionV::OverlayResizeLeft || a == ActionV::OverlayResizeRight
}

/// An overlay position after a move action: a fixed step of 50 units along
/// the action's axis.
pub open spec fn moved(x: int, y: int, a: ActionV) -> (int, int) {
    match a {
        ActionV::OverlayMoveUp => (x, y - 50),
        ActionV::OverlayMoveDown => (x, y + 50),
        ActionV::OverlayMoveLeft => (x - 50, y),
        ActionV::OverlayMoveRight => (x + 50, y),
        _ => (x, y),
    }
}

/// A dimension grown by the 50-unit step, saturating at the type's limit
/// and never below the 200-unit minimum.
pub open spec fn grown(d: int) -> int {
    if d + 50 > u32::MAX {
        u32::MAX as int
    } else if d + 50 < 200 {
        200
    } else {
        d + 50
    }
}

/// A dimension shrunk by the 50-unit step, clamped to the 200-unit minimum.
pub open spec fn shrunk(d: int) -> int {
    if d - 50 < 200 {
        200
    } else {
        d - 50
    }
}

/// The first registered entry whose chord matches the pressed chord, if
/// any: its index in the table. An unmatched press resolves to nothing and
/// is ignored.
pub fn resolve_index(table: &Vec<RegisteredShortcut>, pressed: &Chord) -> (r: Option<usize>)
    ensures
        (r matches Some(i) ==> i < table@.len() && table.deep_view()[i as int].chord == pressed
            && (forall|k: int| 0 <= k < i ==> table.deep_view()[k].chord != pressed)),
        r is None ==> (forall|k: int|
            0 <= k < table@.len() ==> table.deep_view()[k].chord != pressed),
{
    let mut i: usize = 0;
    while i < table.len()
        invariant
            i <= table@.len(),
            forall|k: int| 0 <= k < i ==> table.deep_view()[k].chord != pressed,
        decreases table@.len() - i,
    {
        if table[i].chord == *pressed {
            return Some(i);
        }
        i = i + 1;
    }
    None
}

/// The visibility toggle: a visible overlay is hidden, a hidden one shown.
pub fn toggle_target(visible: bool) -> (show: bool)
    ensures
        show == !visible,
{
    !visible
}

/// The overlay position after a move action, or nothing when the moved
/// coordinate leaves the representable range (the event is then dropped).
/// A non-move action moves nothing.
pub fn move_target(x: i32, y: i32, action: &Action) -> (r: Option<(i32, i32)>)
    ensures
        is_move_action(action.deep_view()) ==> ({
            let (nx, ny) = moved(x as int, y as int, action.deep_view());
            if i32::MIN <= nx <= i32::MAX && i32::MIN <= ny <= i32::MAX {
                r == Some((nx as i32, ny as i32))
            } else {
                r is None
            }
        }),
        !is_move_action(action.deep_view()) ==> r is None,
{
    match action {
        Action::OverlayMoveUp => if y >= i32::MIN + 50 {
            Some((x, y - 50))
        } else {
            None
        },
        Action::OverlayMoveDown => if y <= i32::MAX - 50 {
            Some((x, y + 50))
        } else {
            None
        },
        Action::OverlayMoveLeft => if x >= i32::MIN + 50 {
            Some((x - 50, y))
        } else {
            None
        },
        Action::OverlayMoveRight => if x <= i32::MAX - 50 {
            Some((x + 50, y))
        } else {
            None
        },
        _ => None,
    }
}

/// The overlay size after a resize action: a 50-unit step on the action's
/// dimension, the result clamped to a 200-unit minimum; the other dimension
/// is untouched. A non-resize action resizes nothing.
pub fn resize_target(width: u32, height: u32, action: &Action) -> (r: (u32, u32))
    ensures
        action.deep_view() == ActionV::OverlayResizeUp ==> r.0 == width && r.1 == shrunk(
            height as int,
        ),
        action.deep_view() == ActionV::OverlayResizeDown ==> r.0 == width && r.1 == grown(
            height as int,
        ),
        action.deep_view() == ActionV::OverlayResizeLeft ==> r.0 == shrunk(width as int) && r.1
            == height,
        action.deep_view() == ActionV::OverlayResizeRight ==> r.0 == grown(width as int) && r.1
            == height,
        !is_resize_action(action.deep_view()) ==> r == (width, height),
{
    match action {
        Action::OverlayResizeUp => (
            width,
            if height < 250 {
                200
            } else {
                height - 50
            },
        ),
        Action::OverlayResizeDown => (
            width,
            if height > u32::MAX - 50 {
                u32::MAX
            } else if height < 150 {
                200
            } else {
                height + 50
            },
        ),
        Action::OverlayResizeLeft => (
            if width < 250 {
                200
            } else {
                width - 50
            },
            height,
        ),
        Action::OverlayResizeRight => (
            if width > u32::MAX - 50 {
                u32::MAX
            } else if width < 150 {
                200
            } else {
                width + 50
            },
            height,
        ),
        _ => (width, height),
    }
}

/// A resized dimension never ends below the 200-unit minimum, however often
/// the step is applied: every shrink or grow lands at 200 or above.
pub proof fn lemma_resize_never_below_minimum(d: int)
    ensures
        shrunk(d) >= 200,
        grown(d) >= 200,
{
}

/// The agent-toggle effect: submits the fixed `"toggle"` command for the
/// agent, which overwrites the agent's mailbox slot and fans the message
/// out to live subscribers.
pub fn submit_agent_toggle(bus: &mut CommandBus, agent_id: &String)
    requires
        old(bus).wf(),
        old(bus).published() < u64::MAX,
    ensures
        final(bus).wf(),
        final(bus).mailbox() == old(bus).mailbox().insert(agent_id@, "toggle"@),
        final(bus).published() == old(bus).published() + 1,
        final(bus).retained().len() > 0,
        final(bus).retained().last() == (CommandMessageV {
            message_type: "command"@,
            agent_id: agent_id@,
            action: "toggle"@,
        }),
{
    bus.submit(agent_id.clone(), String::from_str("toggle"));
}

} // verus!

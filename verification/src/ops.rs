//! The activity operations: the closed set of interchangeable units of
//! synthetic user activity, and what executing each of them emits. A click
//! keeps the pointer origin captured at startup and jitters around it on
//! every execution; the other operations are stateless.

use vstd::prelude::*;
use crate::events::EmuEvent;
use crate::events::click_events;
use crate::events::click_seq;
use crate::events::scroll_step_events;
use crate::events::scroll_unit_seq;
use crate::events::switch_tab_events;
use crate::events::switch_tab_seq;
use crate::events::switch_window_events;
use crate::events::switch_window_seq;
use crate::events::type_code_events;
use crate::events::type_code_seq;
use crate::rng::uniform_i32;

verus! {

/// How far a click may land from its origin, on each axis.
pub const JITTER_RADIUS: i32 = 100;

/// The largest scroll magnitude a single execution may draw.
pub const SCROLL_MAX: i32 = 100;

/// One discrete unit of synthetic user activity. Its identity and
/// parameters never change after construction; only the outcome of an
/// execution is randomized.
#[derive(Clone, Copy, PartialEq, Eq, Structural, Debug)]
pub enum Operation {
    /// Jittered click around the pointer position captured at startup.
    Click { origin_x: i32, origin_y: i32 },
    /// Alt+Tab window cycling; the scheduler toggles the window context
    /// whenever this operation is selected.
    SwitchWindow,
    /// A randomized burst of unit scroll events.
    Scroll,
    /// Ctrl held while Tab is clicked twice: advances two tabs. In stub
    /// mode the operation is selectable but performs no host action.
    SwitchTab { stub: bool },
    /// Scripted typing of a fixed snippet; gated to the primary editor.
    /// In stub mode the operation is selectable but performs no host action.
    TypeCode { stub: bool },
}

/// An origin far enough from the numeric edges that jittering by
/// `JITTER_RADIUS` cannot overflow.
pub open spec fn origin_in_bounds(origin: int) -> bool {
    i32::MIN + JITTER_RADIUS <= origin <= i32::MAX - JITTER_RADIUS
}

/// A well-formed operation: click origins leave room for jitter.
pub open spec fn op_wf(op: Operation) -> bool {
    match op {
        Operation::Click { origin_x, origin_y } => origin_in_bounds(
            origin_x as int,
        ) && origin_in_bounds(origin_y as int),
        _ => true,
    }
}

/// `v` lies within the jitter box of `origin`.
pub open spec fn in_jitter_box(origin: int, v: int) -> bool {
    origin - JITTER_RADIUS <= v <= origin + JITTER_RADIUS
}

/// The event sequences that one execution of `op` may emit: exactly the
/// fixed key sequence for the deterministic operations, and for the
/// randomized ones every plan reachable by an in-range draw.
pub open spec fn op_events_match(op: Operation, s: Seq<EmuEvent>) -> bool {
    match op {
        Operation::Click { origin_x, origin_y } => (exists|x: i32, y: i32|
            in_jitter_box(origin_x as int, x as int) && in_jitter_box(origin_y as int, y as int)
                && s == #[trigger] click_seq(x, y)),
        Operation::SwitchWindow => s == switch_window_seq(),
        Operation::Scroll => (exists|len: i32|
            -SCROLL_MAX <= len <= SCROLL_MAX && s == #[trigger] scroll_unit_seq(len as int)),
        Operation::SwitchTab { stub } => s == (if stub {
            Seq::<EmuEvent>::empty()
        } else {
            switch_tab_seq()
        }),
        Operation::TypeCode { stub } => s == (if stub {
            Seq::<EmuEvent>::empty()
        } else {
            type_code_seq()
        }),
    }
}

/// A jittered coordinate: a uniform draw from the jitter box of `origin`.
pub fn jitter_around(origin: i32) -> (r: i32)
    requires
        origin_in_bounds(origin as int),
    ensures
        in_jitter_box(origin as int, r as int),
{
    uniform_i32(origin - JITTER_RADIUS, origin + JITTER_RADIUS)
}

/// Execute one operation: draw its random parameters and build the exact
/// event plan to hand to the host's input facility.
pub fn exec_operation(op: &Operation) -> (r: Vec<EmuEvent>)
    requires
        op_wf(*op),
    ensures
        op_events_match(*op, r@),
{
    match *op {
        Operation::Click { origin_x, origin_y } => {
            let x = jitter_around(origin_x);
            let y = jitter_around(origin_y);
            let ev = click_events(x, y);
            proof {
                assert(in_jitter_box(origin_x as int, x as int) && in_jitter_box(
                    origin_y as int,
                    y as int,
                ) && ev@ == click_seq(x, y));
            }
            ev
        },
        Operation::SwitchWindow => switch_window_events(),
        Operation::Scroll => {
            let len = uniform_i32(-SCROLL_MAX, SCROLL_MAX);
            let ev = scroll_step_events(len);
            proof {
                assert(-SCROLL_MAX <= len <= SCROLL_MAX && ev@ == scroll_unit_seq(len as int));
            }
            ev
        },
        Operation::SwitchTab { stub } => {
            if stub {
                let ev: Vec<EmuEvent> = Vec::new();
                proof {
                    assert(ev@ =~= Seq::<EmuEvent>::empty());
                }
                ev
            } else {
                switch_tab_events()
            }
        },
        Operation::TypeCode { stub } => {
            if stub {
                let ev: Vec<EmuEvent> = Vec::new();
                proof {
                    assert(ev@ =~= Seq::<EmuEvent>::empty());
                }
                ev
            } else {
                type_code_events()
            }
        },
    }
}

} // verus!

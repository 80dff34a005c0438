//! The scheduler: one configured engine instance owns the operation catalog,
//! the window context and the delay range, and each step selects an
//! operation, executes it under the gating rule, toggles the context on a
//! window switch, and draws the delay to sleep before the next step. The
//! caller performs the planned events and the sleep; the engine decides.

use vstd::prelude::*;
use crate::context::WindowContext;
use crate::context::toggle;
use crate::context::toggled;
use crate::ops::Operation;
use crate::ops::exec_operation;
use crate::ops::op_events_match;
use crate::ops::op_wf;
use crate::events::EmuEvent;
use crate::rng::draw_index;
use crate::rng::uniform_u32;

verus! {

/// The injected configuration surface: catalog contents, delay bounds and
/// warm-up duration, in seconds.
pub struct Config {
    pub warmup_seconds: u32,
    pub catalog: Vec<Operation>,
    pub delay_min_seconds: u32,
    pub delay_max_seconds: u32,
}

/// A usable catalog: non-empty, small enough to index by a random draw,
/// with every operation well formed.
pub open spec fn catalog_wf(catalog: Seq<Operation>) -> bool {
    &&& catalog.len() >= 1
    &&& catalog.len() <= 0x7fff_ffff_ffff_ffff
    &&& (forall|i: int| 0 <= i < catalog.len() ==> op_wf(#[trigger] catalog[i]))
}

/// A configuration the engine accepts.
pub open spec fn config_valid(c: Config) -> bool {
    &&& catalog_wf(c.catalog@)
    &&& c.delay_min_seconds <= c.delay_max_seconds
}

/// The gating rule: scripted typing may only run in the primary editor;
/// nothing else is ever gated.
pub open spec fn gated(op: Operation, ctx: WindowContext) -> bool {
    op is TypeCode && !(ctx is PrimaryEditor)
}

/// What one scheduler step hands back to the caller: the selected catalog
/// index, whether the operation ran or was gated out, the event plan to
/// perform, and the delay to sleep before the next step.
pub struct StepOutcome {
    pub index: usize,
    pub executed: bool,
    pub events: Vec<EmuEvent>,
    pub delay_seconds: u32,
}

/// The activity engine: catalog, window context and delay range.
pub struct Engine {
    pub warmup_seconds: u32,
    pub catalog: Vec<Operation>,
    pub context: WindowContext,
    pub delay_min_seconds: u32,
    pub delay_max_seconds: u32,
}

/// Everything one scheduler step guarantees: the configuration is left
/// untouched, the selected index is in range, execution happens exactly
/// when the gating rule allows it and emits a plan the selected operation
/// may emit, the context toggles exactly on a window-switch selection, and
/// the drawn delay lies in the configured range.
pub open spec fn step_post(pre: Engine, post: Engine, r: StepOutcome) -> bool {
    let op = pre.catalog@[r.index as int];
    &&& r.index < pre.catalog@.len()
    &&& post.catalog == pre.catalog
    &&& post.warmup_seconds == pre.warmup_seconds
    &&& post.delay_min_seconds == pre.delay_min_seconds
    &&& post.delay_max_seconds == pre.delay_max_seconds
    &&& r.executed == !gated(op, pre.context)
    &&& (r.executed ==> op_events_match(op, r.events@))
    &&& (!r.executed ==> r.events@ == Seq::<EmuEvent>::empty())
    &&& post.context == (if op is SwitchWindow {
        toggled(pre.context)
    } else {
        pre.context
    })
    &&& pre.delay_min_seconds <= r.delay_seconds <= pre.delay_max_seconds
}

/// The gating rule observed through a step: when the selected operation is
/// the scripted typing and the context is not the primary editor, nothing
/// runs and no event is emitted, yet the delay is still drawn from the
/// configured range and the context stays put.
pub proof fn lemma_gating(pre: Engine, post: Engine, r: StepOutcome)
    requires
        step_post(pre, post, r),
        pre.catalog@[r.index as int] is TypeCode,
        !(pre.context is PrimaryEditor),
    ensures
        !r.executed,
        r.events@.len() == 0,
        pre.delay_min_seconds <= r.delay_seconds <= pre.delay_max_seconds,
        post.context == pre.context,
{
}

/// A step never touches the catalog, so a click operation's origin is the
/// same before and after any number of steps: repeated executions jitter
/// around a fixed point and cannot drift.
pub proof fn lemma_origin_stable(pre: Engine, post: Engine, r: StepOutcome)
    requires
        step_post(pre, post, r),
    ensures
        post.catalog@ == pre.catalog@,
{
}

/// The window context after a run of catalog selections, applied to a
/// starting context: each selection of the window-switch operation
/// toggles, every other selection leaves the context alone — exactly how
/// `step_post` moves the context, one selection per step.
pub open spec fn context_after(
    catalog: Seq<Operation>,
    ctx: WindowContext,
    picks: Seq<int>,
) -> WindowContext
    decreases picks.len(),
{
    if picks.len() == 0 {
        ctx
    } else {
        let first = if catalog[picks[0]] is SwitchWindow {
            toggled(ctx)
        } else {
            ctx
        };
        context_after(catalog, first, picks.drop_first())
    }
}

/// How many of the selections hit the window-switch operation.
pub open spec fn switch_count(catalog: Seq<Operation>, picks: Seq<int>) -> nat
    decreases picks.len(),
{
    if picks.len() == 0 {
        0
    } else {
        (if catalog[picks[0]] is SwitchWindow {
            1nat
        } else {
            0nat
        }) + switch_count(catalog, picks.drop_first())
    }
}

/// Interleaving does not matter: after any run of selections the context
/// depends only on the parity of the window-switch selections among them.
pub proof fn lemma_context_parity(catalog: Seq<Operation>, ctx: WindowContext, picks: Seq<int>)
    ensures
        context_after(catalog, ctx, picks) == (if switch_count(catalog, picks) % 2 == 0 {
            ctx
        } else {
            toggled(ctx)
        }),
    decreases picks.len(),
{
    if picks.len() > 0 {
        let first = if catalog[picks[0]] is SwitchWindow {
            toggled(ctx)
        } else {
            ctx
        };
        lemma_context_parity(catalog, first, picks.drop_first());
    }
}

/// Selecting the window-switch operation `n` times from the initial
/// primary-editor context, in any interleaving with other selections,
/// leaves the context at the primary editor exactly when `n` is even and
/// at the browser exactly when `n` is odd.
pub proof fn lemma_switch_parity_from_start(catalog: Seq<Operation>, picks: Seq<int>)
    ensures
        context_after(catalog, WindowContext::PrimaryEditor, picks) == (if switch_count(
            catalog,
            picks,
        ) % 2 == 0 {
            WindowContext::PrimaryEditor
        } else {
            WindowContext::Browser
        }),
{
    lemma_context_parity(catalog, WindowContext::PrimaryEditor, picks);
}

/// One verified step advances the context exactly as one selection does in
/// `context_after`.
pub proof fn lemma_step_context(pre: Engine, post: Engine, r: StepOutcome)
    requires
        step_post(pre, post, r),
    ensures
        post.context == context_after(pre.catalog@, pre.context, seq![r.index as int]),
{
    let picks: Seq<int> = seq![r.index as int];
    assert(picks.drop_first() =~= Seq::<int>::empty());
    let first = if pre.catalog@[picks[0]] is SwitchWindow {
        toggled(pre.context)
    } else {
        pre.context
    };
    assert(context_after(pre.catalog@, first, picks.drop_first()) == first);
    assert(context_after(pre.catalog@, pre.context, picks) == first);
}

impl Engine {
    /// A usable engine: valid catalog and ordered delay bounds.
    pub open spec fn wf(self) -> bool {
        &&& catalog_wf(self.catalog@)
        &&& self.delay_min_seconds <= self.delay_max_seconds
    }

    /// Build an engine from a configuration, starting in the primary
    /// editor. Returns `None` exactly when the configuration is unusable:
    /// an empty or oversized catalog, a click origin too close to the
    /// numeric edges, or a delay range with its bounds out of order.
    pub fn new(config: Config) -> (r: Option<Engine>)
        ensures
            r is Some <==> config_valid(config),
            (r matches Some(e) ==> {
                &&& e.wf()
                &&& e.warmup_seconds == config.warmup_seconds
                &&& e.catalog == config.catalog
                &&& e.context == WindowContext::PrimaryEditor
                &&& e.delay_min_seconds == config.delay_min_seconds
                &&& e.delay_max_seconds == config.delay_max_seconds
            }),
    {
        if config.catalog.len() == 0 {
            return None;
        }
        if config.catalog.len() as u64 > 0x7fff_ffff_ffff_ffffu64 {
            return None;
        }
        if config.delay_min_seconds > config.delay_max_seconds {
            return None;
        }
        let n = config.catalog.len();
        let mut i: usize = 0;
        while i < n
            invariant
                n == config.catalog@.len(),
                0 <= i <= n,
                forall|j: int| 0 <= j < i ==> op_wf(#[trigger] config.catalog@[j]),
            decreases n - i,
        {
            let ok = match config.catalog[i] {
                Operation::Click { origin_x, origin_y } => {
                    origin_x >= i32::MIN + crate::ops::JITTER_RADIUS && origin_x <= i32::MAX
                        - crate::ops::JITTER_RADIUS && origin_y >= i32::MIN
                        + crate::ops::JITTER_RADIUS && origin_y <= i32::MAX
                        - crate::ops::JITTER_RADIUS
                },
                _ => true,
            };
            if !ok {
                return None;
            }
            i = i + 1;
        }
        Some(
            Engine {
                warmup_seconds: config.warmup_seconds,
                catalog: config.catalog,
                context: WindowContext::PrimaryEditor,
                delay_min_seconds: config.delay_min_seconds,
                delay_max_seconds: config.delay_max_seconds,
            },
        )
    }

    /// One scheduler step with the selection already made: execute the
    /// operation at `index` under the gating rule, toggle the context on a
    /// window switch, and draw the delay for this iteration.
    pub fn step_at(&mut self, index: usize) -> (r: StepOutcome)
        requires
            old(self).wf(),
            index < old(self).catalog@.len(),
        ensures
            final(self).wf(),
            step_post(*old(self), *final(self), r),
            r.index == index,
    {
        let op = self.catalog[index];
        let in_editor = match self.context {
            WindowContext::PrimaryEditor => true,
            WindowContext::Browser => false,
        };
        let is_type_code = match op {
            Operation::TypeCode { .. } => true,
            _ => false,
        };
        let executed = !is_type_code || in_editor;
        let events = if executed {
            exec_operation(&op)
        } else {
            Vec::new()
        };
        let is_switch = match op {
            Operation::SwitchWindow => true,
            _ => false,
        };
        if is_switch {
            self.context = toggle(self.context);
        }
        let delay_seconds = uniform_u32(self.delay_min_seconds, self.delay_max_seconds);
        StepOutcome { index, executed, events, delay_seconds }
    }

    /// One full scheduler step: select a catalog index uniformly, then
    /// proceed as `step_at`.
    pub fn step(&mut self) -> (r: StepOutcome)
        requires
            old(self).wf(),
        ensures
            final(self).wf(),
            step_post(*old(self), *final(self), r),
    {
        let index = draw_index(self.catalog.len());
        self.step_at(index)
    }
}

} // verus!

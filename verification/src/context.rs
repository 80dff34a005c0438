//! The window-context state machine: which of the two logical foreground
//! windows the engine believes is active. It starts at `PrimaryEditor` and
//! toggles exactly when a window-switch operation is selected.

use vstd::prelude::*;

verus! {

/// The engine's belief about which foreground window is active.
#[derive(Clone, Copy, PartialEq, Eq, Structural, Debug)]
pub enum WindowContext {
    PrimaryEditor,
    Browser,
}

/// The other of the two contexts.
pub open spec fn toggled(ctx: WindowContext) -> WindowContext {
    match ctx {
        WindowContext::PrimaryEditor => WindowContext::Browser,
        WindowContext::Browser => WindowContext::PrimaryEditor,
    }
}

/// The context after `n` toggles from `ctx`.
pub open spec fn toggled_n(ctx: WindowContext, n: nat) -> WindowContext
    decreases n,
{
    if n == 0 {
        ctx
    } else {
        toggled(toggled_n(ctx, (n - 1) as nat))
    }
}

/// Switch to the other context.
pub fn toggle(ctx: WindowContext) -> (r: WindowContext)
    ensures
        r == toggled(ctx),
{
    match ctx {
        WindowContext::PrimaryEditor => WindowContext::Browser,
        WindowContext::Browser => WindowContext::PrimaryEditor,
    }
}

/// Toggling `n` times from `PrimaryEditor` lands back on `PrimaryEditor`
/// exactly when `n` is even, and on `Browser` exactly when `n` is odd,
/// however the toggles are interleaved with other work.
pub proof fn lemma_toggle_parity(n: nat)
    ensures
        toggled_n(WindowContext::PrimaryEditor, n) == if n % 2 == 0 {
            WindowContext::PrimaryEditor
        } else {
            WindowContext::Browser
        },
    decreases n,
{
    if n > 0 {
        lemma_toggle_parity((n - 1) as nat);
    }
}

} // verus!

//! Dialog reducer: which single overlay panel, if any, is open.

use vstd::prelude::*;

verus! {

/// One of the three mutually exclusive overlay panels.
#[derive(Clone, Copy, Debug, PartialEq, Eq, Structural)]
pub enum Dialog {
    Jump,
    Styles,
    Settings,
}

/// The currently open panel. `None` means no panel is open; the `Option`
/// makes "at most one dialog open" hold by construction.
#[derive(Clone, Copy, Debug, PartialEq, Eq, Structural)]
pub struct ActiveDialog(pub Option<Dialog>);

impl ActiveDialog {
    /// The closed state every session starts in.
    pub fn new() -> (r: ActiveDialog)
        ensures
            r == ActiveDialog(None::<Dialog>),
    {
        ActiveDialog(None)
    }

    /// State after toggling one panel: toggling the open panel closes it,
    /// toggling any other panel replaces the open one.
    pub open spec fn reduce_spec(self, action: Dialog) -> ActiveDialog {
        if self.0 == Some(action) {
            ActiveDialog(None)
        } else {
            ActiveDialog(Some(action))
        }
    }

    /// Toggle one panel. This is the dialog state machine's only
    /// transition.
    pub fn reduce(self, action: Dialog) -> (r: ActiveDialog)
        ensures
            r == self.reduce_spec(action),
    {
        let matches_open = match self.0 {
            Some(open) => open == action,
            None => false,
        };
        if matches_open {
            ActiveDialog(None)
        } else {
            ActiveDialog(Some(action))
        }
    }
}

/// Toggling the same panel twice returns the starting state to itself,
/// when the starting state is closed or has that very panel open. (From a
/// state with a different panel open, the first toggle replaces the panel
/// and the second closes it, so the pair of toggles ends closed instead.)
pub proof fn lemma_toggle_twice_is_identity(s: ActiveDialog, k: Dialog)
    requires
        s.0 is None || s.0 == Some(k),
    ensures
        s.reduce_spec(k).reduce_spec(k) == s,
{
}

/// What toggling the same panel twice does from every starting state: it
/// restores the start unless a different panel was open, in which case it
/// ends with no panel open.
pub proof fn lemma_toggle_twice_from_any_state(s: ActiveDialog, k: Dialog)
    ensures
        (s.0 is None || s.0 == Some(k)) ==> s.reduce_spec(k).reduce_spec(k) == s,
        !(s.0 is None || s.0 == Some(k)) ==> s.reduce_spec(k).reduce_spec(k) == ActiveDialog(
            None::<Dialog>,
        ),
{
}

/// Toggling one panel and then a different one leaves exactly the second
/// panel open, whatever the starting state: panels never stack.
pub proof fn lemma_toggle_replaces_open_panel(s: ActiveDialog, first: Dialog, second: Dialog)
    requires
        first != second,
    ensures
        s.reduce_spec(first).reduce_spec(second) == ActiveDialog(Some(second)),
{
}

} // verus!

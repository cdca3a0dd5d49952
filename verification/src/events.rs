//! The closed set of input events — the only legal path to mutate session
//! state — and the I/O requests the dispatcher hands back to the event
//! loop.

use vstd::prelude::*;
use crate::common::{Popup, Screen, TimeoutType};
use crate::filters::InputBlacklist;

verus! {

/// One keystroke aimed at the input buffers: a character to run through
/// the active filter, or an edit of the buffer itself.
#[derive(Debug, Clone, Copy, PartialEq, Eq, Structural)]
pub enum InputKey {
    Char(char),
    /// Remove the last character of the edited buffer.
    Backspace,
}

/// Everything that can happen to the session.  The decoder and the timer
/// source produce these; the dispatcher consumes them.
#[derive(Debug, Clone)]
pub enum Event {
    Quit,
    /// A terminal resize; a state no-op.
    Resize,
    TimeoutTick(TimeoutType),
    EnterScreen(Screen),
    /// An absent popup closes the active one.
    EnterPopup(Option<Popup>),
    /// Toggle which input buffer is edited.
    SwitchInput,
    /// Advance the screen-scoped action index.
    SwitchAction,
    /// Resolve the selected action into a navigation request.
    SelectAction,
    KeyInput(InputKey, InputBlacklist),
    /// A client asks for a locker by typed id; the second value is the
    /// typed id.
    TryGetUserLocker(String, Vec<char>),
    TryLogin,
    NextListItem,
    PrevListItem,
    SelectListItem,
    NextTableItem,
    PrevTableItem,
    SelectTableItem,
}

/// What the event loop must do after a dispatch: the external work the
/// handlers themselves cannot perform.  The loop carries each request out
/// and hands the outcome back through the matching `App` method.
#[derive(Debug, PartialEq, Eq)]
pub enum IoRequest {
    NoIo,
    /// Perform the `required_fetch` of the screen, then hand the outcome
    /// to `App::enter_screen`.
    FetchForScreen(Screen),
    /// Look the locker row up, then hand it to `App::apply_locker_lookup`.
    LockerLookup { username: String, locker_id: i64 },
    /// Check the credentials, then hand the found role to
    /// `App::resolve_login`.
    LoginAttempt { username: Vec<char>, password: Vec<char> },
}

} // verus!

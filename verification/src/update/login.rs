//! The login handler family: credential submission.  The credential
//! check itself is store I/O; the handler hands the typed credentials to
//! the event loop, and the outcome comes back through
//! `App::resolve_login`.

use vstd::prelude::*;
use crate::app::{App, LogicError};
use crate::events::{Event, IoRequest};
use crate::update::login_dispatched;

verus! {

/// A by-element copy of a text buffer, to hand out without giving the
/// buffer up.
fn clone_chars(v: &Vec<char>) -> (r: Vec<char>)
    ensures
        r@ == v@,
{
    let mut out: Vec<char> = Vec::new();
    let mut i: usize = 0;
    while i < v.len()
        invariant
            0 <= i <= v@.len(),
            out@ == v@.subrange(0, i as int),
        decreases v@.len() - i,
    {
        out.push(v[i]);
        proof {
            assert(out@ =~= v@.subrange(0, i as int + 1));
        }
        i += 1;
    }
    proof {
        assert(v@.subrange(0, v@.len() as int) =~= v@);
    }
    out
}

/// Handles every event of the login family; any other kind routed here
/// is a fatal logic error.
pub fn update(app: &mut App, event: Event) -> (r: Result<IoRequest, LogicError>)
    requires
        old(app).wf(),
    ensures
        final(app).wf(),
        login_dispatched(*old(app), *final(app), event, r),
{
    match event {
        Event::TryLogin => {
            let username = clone_chars(&app.input.0);
            let password = clone_chars(&app.input.1);
            Ok(IoRequest::LoginAttempt { username, password })
        },
        _ => Err(LogicError::UnhandledEvent),
    }
}

} // verus!

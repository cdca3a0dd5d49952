//! The generic/common handler family: lifecycle, timers, input editing,
//! navigation requests and the locker lookup.

use vstd::prelude::*;
use crate::app::{
    locker_lookup_committed, locker_lookup_result, popup_opened, required_fetch_for,
    screen_committed, App, FetchKind, FetchedData, LogicError, NavTarget, StoreError,
};
use crate::common::{Popup, Screen, SubScreen};
use crate::db_obj::Locker;
use crate::events::{Event, IoRequest};
use crate::filters::parse_i64;
use crate::update::{
    common_dispatched, enter_screen_dispatched, popup_request_applied, select_dispatched,
    select_requested,
};

verus! {

/// Exec mirror of `crate::app::select_target`.
fn select_target_for(screen: Screen, popup: Option<Popup>, idx: u8) -> (r: Option<NavTarget>)
    ensures
        r == crate::app::select_target(screen, popup, idx),
{
    match (screen, popup) {
        (Screen::Client(SubScreen::ClientMain), None) => {
            if idx == 0 {
                Some(NavTarget::ToScreen(Screen::Client(SubScreen::ClientLockers)))
            } else if idx == 1 {
                Some(NavTarget::ToScreen(Screen::Client(SubScreen::ClientSentPackages)))
            } else {
                None
            }
        },
        (Screen::Client(SubScreen::ClientLockerPackages), Some(Popup::ClientOrderMain)) => {
            if idx == 0 {
                Some(NavTarget::ToPopup(Popup::ClientOrderLocker))
            } else if idx == 1 {
                Some(NavTarget::ToPopup(Popup::ClientOrderBranch))
            } else if idx == 2 {
                Some(NavTarget::ToPopup(Popup::ClientOrderDelivery))
            } else {
                None
            }
        },
        _ => None,
    }
}

/// Hands a performed fetch to the navigation engine.  A rejected
/// transition leaves the session as it was, and — like every recoverable
/// failure — is surfaced uniformly as the message popup.
pub fn apply_fetched_screen(
    app: &mut App,
    target: Screen,
    fetched: Result<FetchedData, StoreError>,
)
    requires
        old(app).wf(),
    ensures
        final(app).wf(),
        if old(app).enter_screen_result(target, fetched) is Ok {
            fetched matches Ok(d) && screen_committed(*old(app), *final(app), target, d)
        } else {
            popup_opened(*old(app), *final(app), Popup::DisplayMsg)
        },
{
    let nav = app.enter_screen(target, fetched);
    if nav.is_err() {
        let shown = app.enter_popup(Some(Popup::DisplayMsg));
        proof {
            assert(shown is Ok);
        }
    }
}

/// Hands a fetched locker row to the order checks.  A rejected lookup
/// leaves the session as it was and is surfaced uniformly as the message
/// popup.
pub fn apply_locker_outcome(app: &mut App, username: &String, found: Option<Locker>)
    requires
        old(app).wf(),
    ensures
        final(app).wf(),
        if locker_lookup_result(*old(app), username@, found) is Ok {
            locker_lookup_committed(*old(app), *final(app), found)
        } else {
            popup_opened(*old(app), *final(app), Popup::DisplayMsg)
        },
{
    let nav = app.apply_locker_lookup(username, found);
    if nav.is_err() {
        let shown = app.enter_popup(Some(Popup::DisplayMsg));
        proof {
            assert(shown is Ok);
        }
    }
}

/// Commits a no-fetch screen at once — surfacing a rejection as a message
/// popup — and turns a screen that needs data into a fetch request.
fn enter_screen_now(app: &mut App, s: Screen) -> (r: Result<IoRequest, LogicError>)
    requires
        old(app).wf(),
    ensures
        final(app).wf(),
        enter_screen_dispatched(*old(app), *final(app), s, r),
{
    let kind = required_fetch_for(&s);
    if matches!(kind, FetchKind::NoFetch) {
        apply_fetched_screen(app, s, Ok(FetchedData::NoData));
        Ok(IoRequest::NoIo)
    } else {
        Ok(IoRequest::FetchForScreen(s))
    }
}

/// Applies a popup request, surfacing a rejection as a message popup.
fn popup_request(app: &mut App, target: Option<Popup>)
    requires
        old(app).wf(),
    ensures
        final(app).wf(),
        popup_request_applied(*old(app), *final(app), target),
{
    let nav = app.enter_popup(target);
    if nav.is_err() {
        let shown = app.enter_popup(Some(Popup::DisplayMsg));
        proof {
            assert(shown is Ok);
        }
    }
}

/// Resolves the selected action into its navigation request and applies
/// it; a documented no-op where nothing is defined or selected.
fn select_action_now(app: &mut App) -> (r: Result<IoRequest, LogicError>)
    requires
        old(app).wf(),
    ensures
        final(app).wf(),
        select_dispatched(*old(app), *final(app), r),
{
    let idx = match app.action_sel {
        Some(i) => i,
        None => {
            return Ok(IoRequest::NoIo);
        },
    };
    let target = select_target_for(app.active_screen, app.active_popup, idx);
    proof {
        assert(select_requested(*old(app)) == target);
    }
    match target {
        None => Ok(IoRequest::NoIo),
        Some(NavTarget::ToScreen(s)) => enter_screen_now(app, s),
        Some(NavTarget::ToPopup(p)) => {
            popup_request(app, Some(p));
            Ok(IoRequest::NoIo)
        },
    }
}

/// Handles every event of the common family; any other kind routed here
/// is a fatal logic error.
pub fn update(app: &mut App, event: Event) -> (r: Result<IoRequest, LogicError>)
    requires
        old(app).wf(),
    ensures
        final(app).wf(),
        common_dispatched(*old(app), *final(app), event, r),
{
    match event {
        Event::Quit => {
            app.should_quit = true;
            Ok(IoRequest::NoIo)
        },
        Event::TimeoutTick(timeout_type) => {
            app.update_timeout_counter(timeout_type);
            Ok(IoRequest::NoIo)
        },
        Event::EnterScreen(screen) => enter_screen_now(app, screen),
        Event::EnterPopup(popup) => {
            popup_request(app, popup);
            Ok(IoRequest::NoIo)
        },
        Event::SwitchInput => {
            app.switch_input();
            Ok(IoRequest::NoIo)
        },
        Event::SwitchAction => {
            app.switch_action();
            Ok(IoRequest::NoIo)
        },
        Event::SelectAction => select_action_now(app),
        Event::KeyInput(key, filter) => match app.key_input(key, filter) {
            Ok(_) => Ok(IoRequest::NoIo),
            Err(e) => Err(e),
        },
        Event::TryGetUserLocker(username, locker_id) => match parse_i64(&locker_id) {
            Some(id) => Ok(IoRequest::LockerLookup { username, locker_id: id }),
            None => Err(LogicError::InvalidLockerId),
        },
        _ => Err(LogicError::UnhandledEvent),
    }
}

} // verus!

//! The update dispatcher: routes each event to the one handler family
//! that owns its mutation logic, and states — event by event — what the
//! dispatch does to the session.
//!
//! Dispatch is total over the closed event set.  An event routed to a
//! family that does not own it is a fatal logic error, surfaced as
//! `LogicError::UnhandledEvent`; the loop aborts on it, as it signals an
//! incomplete dispatch table.

pub mod common;
pub mod list;
pub mod login;
pub mod table;

use vstd::prelude::*;
use crate::app::{
    action_count, key_applied, popup_allowed, popup_closed, popup_opened, required_fetch,
    role_compatible, screen_committed, select_target, switched_mode, tick_applied, App,
    FetchedData, LogicError, NavTarget,
};
use crate::common::{InputMode, Popup, Screen, ShippingGuideData, SubScreen, PackageData};
use crate::events::{Event, IoRequest};
use crate::filters::{all_digits, dec_value};

verus! {

/// The navigation target the selected action resolves to, if the session
/// stands on a pair with a defined action set and an index is selected.
pub open spec fn select_requested(pre: App) -> Option<NavTarget> {
    match pre.action_sel {
        Option::Some(i) => select_target(pre.active_screen, pre.active_popup, i),
        Option::None => None,
    }
}

/// An `EnterScreen` request dispatched: a target with no required fetch
/// commits at once — or surfaces its rejection as a message popup — and a
/// target that needs data becomes a fetch request for the event loop,
/// with nothing committed yet.
pub open spec fn enter_screen_dispatched(
    pre: App,
    post: App,
    s: Screen,
    r: Result<IoRequest, LogicError>,
) -> bool {
    if required_fetch(s) is NoFetch {
        &&& r == Ok::<IoRequest, LogicError>(IoRequest::NoIo)
        &&& if role_compatible(pre.user, s) {
            screen_committed(pre, post, s, FetchedData::NoData)
        } else {
            popup_opened(pre, post, Popup::DisplayMsg)
        }
    } else {
        r == Ok::<IoRequest, LogicError>(IoRequest::FetchForScreen(s)) && post == pre
    }
}

/// An `EnterPopup` request dispatched: closing always commits; opening
/// commits where the legality table allows it, and surfaces the rejection
/// as a message popup where it does not.
pub open spec fn popup_request_applied(pre: App, post: App, target: Option<Popup>) -> bool {
    match target {
        Option::None => popup_closed(pre, post),
        Option::Some(p) => if popup_allowed(pre.active_screen, p) {
            popup_opened(pre, post, p)
        } else {
            popup_opened(pre, post, Popup::DisplayMsg)
        },
    }
}

/// `SelectAction` dispatched: the resolved target handled like the
/// matching direct request, and a documented no-op where no action set or
/// no selection is defined.
pub open spec fn select_dispatched(pre: App, post: App, r: Result<IoRequest, LogicError>) -> bool {
    match select_requested(pre) {
        Option::None => r == Ok::<IoRequest, LogicError>(IoRequest::NoIo) && post == pre,
        Option::Some(NavTarget::ToScreen(s)) => enter_screen_dispatched(pre, post, s, r),
        Option::Some(NavTarget::ToPopup(p)) => r == Ok::<IoRequest, LogicError>(IoRequest::NoIo)
            && popup_request_applied(pre, post, Some(p)),
    }
}

/// `SwitchAction` dispatched: the index advances modulo the defined count
/// — strictly within it, wrapping to 0 past the maximum — and stands
/// untouched on pairs with no defined action set.
pub open spec fn switch_action_applied(pre: App, post: App) -> bool {
    &&& post == (App { action_sel: post.action_sel, ..pre })
    &&& match action_count(pre.active_screen, pre.active_popup) {
        Option::Some(n) => post.action_sel matches Some(w) && 0 <= w < n && w as int == (match pre
            .action_sel {
            Option::Some(v) => (v as int + 1) % (n as int),
            Option::None => 0int,
        }),
        Option::None => post.action_sel == pre.action_sel,
    }
}

/// What the generic/common handler family does with each event it owns.
pub open spec fn common_dispatched(
    pre: App,
    post: App,
    event: Event,
    r: Result<IoRequest, LogicError>,
) -> bool {
    match event {
        Event::Quit => r == Ok::<IoRequest, LogicError>(IoRequest::NoIo) && post == (App {
            should_quit: true,
            ..pre
        }),
        Event::TimeoutTick(t) => r == Ok::<IoRequest, LogicError>(IoRequest::NoIo)
            && tick_applied(pre, post, t),
        Event::EnterScreen(s) => enter_screen_dispatched(pre, post, s, r),
        Event::EnterPopup(p) => r == Ok::<IoRequest, LogicError>(IoRequest::NoIo)
            && popup_request_applied(pre, post, p),
        Event::SwitchInput => r == Ok::<IoRequest, LogicError>(IoRequest::NoIo) && post == (App {
            input_mode: switched_mode(pre.input_mode),
            ..pre
        }),
        Event::SwitchAction => r == Ok::<IoRequest, LogicError>(IoRequest::NoIo)
            && switch_action_applied(pre, post),
        Event::SelectAction => select_dispatched(pre, post, r),
        Event::KeyInput(k, f) => match pre.input_mode {
            InputMode::Normal => r == Err::<IoRequest, LogicError>(LogicError::KeyInputWhileNormal)
                && post == pre,
            InputMode::Editing(_) => r == Ok::<IoRequest, LogicError>(IoRequest::NoIo)
                && key_applied(pre, post, k, f),
        },
        Event::TryGetUserLocker(u, id) => post == pre && (if all_digits(id@) && 1 <= id@.len()
            <= 18 {
            r matches Ok(IoRequest::LockerLookup { username: un, locker_id: lid }) && un == u
                && lid as int == dec_value(id@)
        } else {
            r == Err::<IoRequest, LogicError>(LogicError::InvalidLockerId)
        }),
        _ => r == Err::<IoRequest, LogicError>(LogicError::UnhandledEvent) && post == pre,
    }
}

/// Whether the session stands where the list handlers act: the guides
/// list view.
pub open spec fn list_ctx(pre: App) -> bool {
    pre.active_screen == Screen::PkgAdmin(SubScreen::PkgAdminGuides)
}

/// The guides list view with its index moved and nothing else touched.
pub open spec fn guides_moved(pre: App, post: App, new_idx: int) -> bool {
    &&& post == (App { shipping_guides: post.shipping_guides, ..pre })
    &&& post.shipping_guides == (ShippingGuideData {
        viewing_guides_idx: post.shipping_guides.viewing_guides_idx,
        ..pre.shipping_guides
    })
    &&& post.shipping_guides.viewing_guides_idx as int == new_idx
}

/// What the list handler family does with each event it owns: index
/// movement wraps inside the guides list, and selection commits the
/// indexed guide and asks for the guide-info screen's fetch.
pub open spec fn list_dispatched(
    pre: App,
    post: App,
    event: Event,
    r: Result<IoRequest, LogicError>,
) -> bool {
    if !list_ctx(pre) {
        r == Err::<IoRequest, LogicError>(LogicError::UnhandledEvent) && post == pre
    } else {
        let len = pre.shipping_guides.viewing_guides@.len() as int;
        let idx = pre.shipping_guides.viewing_guides_idx as int;
        match event {
            Event::NextListItem => r == Ok::<IoRequest, LogicError>(IoRequest::NoIo) && (if len
                == 0 {
                post == pre
            } else {
                guides_moved(pre, post, (idx + 1) % len)
            }),
            Event::PrevListItem => r == Ok::<IoRequest, LogicError>(IoRequest::NoIo) && (if len
                == 0 {
                post == pre
            } else {
                guides_moved(pre, post, (idx - 1 + len) % len)
            }),
            Event::SelectListItem => if len == 0 {
                r == Ok::<IoRequest, LogicError>(IoRequest::NoIo) && post == pre
            } else {
                &&& r == Ok::<IoRequest, LogicError>(IoRequest::FetchForScreen(Screen::PkgAdmin(
                    SubScreen::PkgAdminGuideInfo,
                )))
                &&& post == (App { shipping_guides: post.shipping_guides, ..pre })
                &&& post.shipping_guides == (ShippingGuideData {
                    active_guide: Some(pre.shipping_guides.viewing_guides@[idx]),
                    ..pre.shipping_guides
                })
            },
            _ => r == Err::<IoRequest, LogicError>(LogicError::UnhandledEvent) && post == pre,
        }
    }
}

/// Whether the session stands where the table handlers act: one of the
/// package table views.
pub open spec fn table_ctx(pre: App) -> bool {
    pre.active_screen == Screen::Client(SubScreen::ClientLockerPackages) || pre.active_screen
        == Screen::Client(SubScreen::ClientSentPackages)
}

/// The package table view with its index moved and nothing else touched.
pub open spec fn packages_moved(pre: App, post: App, new_idx: int) -> bool {
    &&& post == (App { packages: post.packages, ..pre })
    &&& post.packages == (PackageData {
        viewing_packages_idx: post.packages.viewing_packages_idx,
        ..pre.packages
    })
    &&& post.packages.viewing_packages_idx as int == new_idx
}

/// What the table handler family does with each event it owns: index
/// movement wraps inside the package table, and selection commits the
/// indexed package as the drilled-into active one.
pub open spec fn table_dispatched(
    pre: App,
    post: App,
    event: Event,
    r: Result<IoRequest, LogicError>,
) -> bool {
    if !table_ctx(pre) {
        r == Err::<IoRequest, LogicError>(LogicError::UnhandledEvent) && post == pre
    } else {
        let len = pre.packages.viewing_packages@.len() as int;
        let idx = pre.packages.viewing_packages_idx as int;
        match event {
            Event::NextTableItem => r == Ok::<IoRequest, LogicError>(IoRequest::NoIo) && (if len
                == 0 {
                post == pre
            } else {
                packages_moved(pre, post, (idx + 1) % len)
            }),
            Event::PrevTableItem => r == Ok::<IoRequest, LogicError>(IoRequest::NoIo) && (if len
                == 0 {
                post == pre
            } else {
                packages_moved(pre, post, (idx - 1 + len) % len)
            }),
            Event::SelectTableItem => r == Ok::<IoRequest, LogicError>(IoRequest::NoIo) && (if len
                == 0 {
                post == pre
            } else {
                &&& post == (App { packages: post.packages, ..pre })
                &&& post.packages == (PackageData {
                    active_package: Some(pre.packages.viewing_packages@[idx]),
                    ..pre.packages
                })
            }),
            _ => r == Err::<IoRequest, LogicError>(LogicError::UnhandledEvent) && post == pre,
        }
    }
}

/// What the login handler family does: a `TryLogin` becomes a credential
/// check against the two typed buffers, with nothing committed yet.
pub open spec fn login_dispatched(
    pre: App,
    post: App,
    event: Event,
    r: Result<IoRequest, LogicError>,
) -> bool {
    match event {
        Event::TryLogin => post == pre && (r matches Ok(IoRequest::LoginAttempt {
            username: un,
            password: pw,
        }) && un@ == pre.input.0@ && pw@ == pre.input.1@),
        _ => r == Err::<IoRequest, LogicError>(LogicError::UnhandledEvent) && post == pre,
    }
}

/// The whole dispatch: each event handled by the one family that owns
/// its kind, and a resize left as the state no-op it is.
pub open spec fn dispatched(
    pre: App,
    post: App,
    event: Event,
    r: Result<IoRequest, LogicError>,
) -> bool {
    match event {
        Event::Quit | Event::TimeoutTick(_) | Event::KeyInput(_, _) | Event::SwitchInput
            | Event::SwitchAction | Event::SelectAction | Event::EnterScreen(_)
            | Event::EnterPopup(_) | Event::TryGetUserLocker(_, _) => common_dispatched(
            pre,
            post,
            event,
            r,
        ),
        Event::NextListItem | Event::PrevListItem | Event::SelectListItem => list_dispatched(
            pre,
            post,
            event,
            r,
        ),
        Event::NextTableItem | Event::PrevTableItem | Event::SelectTableItem => table_dispatched(
            pre,
            post,
            event,
            r,
        ),
        Event::TryLogin => login_dispatched(pre, post, event, r),
        Event::Resize => r == Ok::<IoRequest, LogicError>(IoRequest::NoIo) && post == pre,
    }
}

/// Routes one event to its handler family and returns what the event
/// loop must do next.
pub fn update(app: &mut App, event: Event) -> (r: Result<IoRequest, LogicError>)
    requires
        old(app).wf(),
    ensures
        final(app).wf(),
        dispatched(*old(app), *final(app), event, r),
{
    match &event {
        Event::Quit | Event::TimeoutTick(_) | Event::KeyInput(_, _) | Event::SwitchInput
        | Event::SwitchAction | Event::SelectAction | Event::EnterScreen(_)
        | Event::EnterPopup(_) | Event::TryGetUserLocker(_, _) => common::update(app, event),

        Event::NextListItem | Event::PrevListItem | Event::SelectListItem => list::update(
            app,
            event,
        ),

        Event::NextTableItem | Event::PrevTableItem | Event::SelectTableItem => table::update(
            app,
            event,
        ),

        Event::TryLogin => login::update(app, event),

        Event::Resize => Ok(IoRequest::NoIo),
    }
}

} // verus!

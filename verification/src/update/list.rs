//! The list handler family: index movement and selection commit within
//! the guides list view.

use vstd::prelude::*;
use crate::app::{App, LogicError};
use crate::common::{Screen, SubScreen};
use crate::events::{Event, IoRequest};
use crate::update::list_dispatched;

verus! {

/// Handles every event of the list family; any other kind routed here is
/// a fatal logic error.
pub fn update(app: &mut App, event: Event) -> (r: Result<IoRequest, LogicError>)
    requires
        old(app).wf(),
    ensures
        final(app).wf(),
        list_dispatched(*old(app), *final(app), event, r),
{
    if !matches!(app.active_screen, Screen::PkgAdmin(SubScreen::PkgAdminGuides)) {
        return Err(LogicError::UnhandledEvent);
    }
    let len = app.shipping_guides.viewing_guides.len();
    match event {
        Event::NextListItem => {
            if len > 0 {
                let idx = app.shipping_guides.viewing_guides_idx;
                proof {
                    assert((idx as int + 1) % (len as int) == if idx as int + 1 < len as int {
                        idx as int + 1
                    } else {
                        0int
                    }) by (nonlinear_arith)
                        requires
                            0 <= (idx as int) && (idx as int) < (len as int),
                    ;
                }
                app.shipping_guides.viewing_guides_idx = if idx + 1 < len as i64 {
                    idx + 1
                } else {
                    0
                };
            }
            Ok(IoRequest::NoIo)
        },
        Event::PrevListItem => {
            if len > 0 {
                let idx = app.shipping_guides.viewing_guides_idx;
                proof {
                    assert((idx as int - 1 + len as int) % (len as int) == if idx as int == 0 {
                        len as int - 1
                    } else {
                        idx as int - 1
                    }) by (nonlinear_arith)
                        requires
                            0 <= (idx as int) && (idx as int) < (len as int),
                    ;
                }
                app.shipping_guides.viewing_guides_idx = if idx == 0 {
                    len as i64 - 1
                } else {
                    idx - 1
                };
            }
            Ok(IoRequest::NoIo)
        },
        Event::SelectListItem => {
            if len == 0 {
                return Ok(IoRequest::NoIo);
            }
            let idx = app.shipping_guides.viewing_guides_idx;
            let guide = app.shipping_guides.viewing_guides[idx as usize];
            app.shipping_guides.active_guide = Some(guide);
            Ok(IoRequest::FetchForScreen(Screen::PkgAdmin(SubScreen::PkgAdminGuideInfo)))
        },
        _ => Err(LogicError::UnhandledEvent),
    }
}

} // verus!

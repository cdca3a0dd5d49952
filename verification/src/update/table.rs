//! The table handler family: index movement and selection commit within
//! the package table views.

use vstd::prelude::*;
use crate::app::{App, LogicError};
use crate::common::{Screen, SubScreen};
use crate::events::{Event, IoRequest};
use crate::update::table_dispatched;

verus! {

/// Handles every event of the table family; any other kind routed here
/// is a fatal logic error.
pub fn update(app: &mut App, event: Event) -> (r: Result<IoRequest, LogicError>)
    requires
        old(app).wf(),
    ensures
        final(app).wf(),
        table_dispatched(*old(app), *final(app), event, r),
{
    if !matches!(
        app.active_screen,
        Screen::Client(SubScreen::ClientLockerPackages) | Screen::Client(
            SubScreen::ClientSentPackages,
        )
    ) {
        return Err(LogicError::UnhandledEvent);
    }
    let len = app.packages.viewing_packages.len();
    match event {
        Event::NextTableItem => {
            if len > 0 {
                let idx = app.packages.viewing_packages_idx;
                proof {
                    assert((idx as int + 1) % (len as int) == if idx as int + 1 < len as int {
                        idx as int + 1
                    } else {
                        0int
                    }) by (nonlinear_arith)
                        requires
                            0 <= (idx as int) && (idx as int) < (len as int),
                    ;
                }
                app.packages.viewing_packages_idx = if idx + 1 < len as i64 {
                    idx + 1
                } else {
                    0
                };
            }
            Ok(IoRequest::NoIo)
        },
        Event::PrevTableItem => {
            if len > 0 {
                let idx = app.packages.viewing_packages_idx;
                proof {
                    assert((idx as int - 1 + len as int) % (len as int) == if idx as int == 0 {
                        len as int - 1
                    } else {
                        idx as int - 1
                    }) by (nonlinear_arith)
                        requires
                            0 <= (idx as int) && (idx as int) < (len as int),
                    ;
                }
                app.packages.viewing_packages_idx = if idx == 0 {
                    len as i64 - 1
                } else {
                    idx - 1
                };
            }
            Ok(IoRequest::NoIo)
        },
        Event::SelectTableItem => {
            if len > 0 {
                let idx = app.packages.viewing_packages_idx;
                let package = app.packages.viewing_packages[idx as usize];
                app.packages.active_package = Some(package);
            }
            Ok(IoRequest::NoIo)
        },
        _ => Err(LogicError::UnhandledEvent),
    }
}

} // verus!

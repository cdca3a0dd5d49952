//! The session aggregate and the navigation engine: the sole authority for
//! changing `Screen`, `SubScreen` and `Popup`.
//!
//! Fetches are blocking I/O and live outside.  The event loop asks this
//! module what a transition needs (`required_fetch_for`), performs the
//! fetch, and hands the outcome back; a transition commits only when every
//! check on the outcome passes, and a rejected transition leaves the whole
//! session untouched.

use vstd::prelude::*;
use crate::common::{
    AddPackageData, ClientData, GetDBErr, InputFields, InputMode, PackageData, PkgAdminData,
    Popup, Screen, ShippingGuideData, SubScreen, TimeoutType, Timer, Timers, User,
};
use crate::db_obj::{Locker, Package, Payment, ShippingGuide};
use crate::events::InputKey;
use crate::filters::{admits, admits_spec, all_digits, dec_value, parse_i32, InputBlacklist};
use crate::graph::{RouteQuery, RouteResponse};
use crate::{MAX_LOCKER_PACKAGES, MAX_LOCKER_WEIGHT_GRAMS};

verus! {

/// Tick rate of the resize debounce timer.
pub const RESIZE_TICK_MS: u64 = 250;

/// Tick rate of the title animation timer.
pub const CUBE_TICK_MS: u64 = 100;

/// Tick rate of the login timeout timer.
pub const LOGIN_TICK_MS: u64 = 1000;

/// Tick rate of the delivery-fetch timeout timer.
pub const GET_USER_DELIVERY_TICK_MS: u64 = 1000;

/// What a screen needs fetched before it can be entered.
#[derive(Debug, Clone, Copy, PartialEq, Eq, Structural)]
pub enum FetchKind {
    NoFetch,
    /// The packages sitting in the client's locker.
    LockerPackages,
    /// The packages the client has sent.
    SentPackages,
    /// The shipping guides of the administrator's branch.
    Guides,
    /// The payment of the selected guide: a required single row.
    GuidePayment,
}

/// Data fetched for a transition, already mapped to domain entities.
#[derive(Debug)]
pub enum FetchedData {
    NoData,
    Packages(Vec<Package>),
    Guides(Vec<ShippingGuide>),
    GuidePayment(Payment),
}

/// A store failure: the call itself failed, or a required single-row
/// lookup returned zero rows.
#[derive(Debug, Clone, Copy, PartialEq, Eq, Structural)]
pub enum StoreError {
    Io,
    RowMissing,
}

/// Why a navigation request was rejected.  Every variant is recoverable:
/// the dispatcher surfaces it as a message popup and the session stays as
/// it was.
#[derive(Debug, Clone, Copy, PartialEq, Eq, Structural)]
pub enum NavError {
    /// The target needs a role the session does not hold.
    InvalidRole,
    /// The target popup is not legal on the active screen.
    IllegalPopup,
    /// The target needs a selected guide and none is selected.
    MissingGuide,
    /// The fetched payload does not fit what the target requires.
    WrongData,
    /// The required fetch failed.
    Store(StoreError),
    /// A domain precondition failed against fetched data.
    Domain(GetDBErr),
}

/// A fatal logic error: an event fired in a state that cannot handle it.
/// It signals an incomplete navigation map, and the process aborts on it.
#[derive(Debug, Clone, Copy, PartialEq, Eq, Structural)]
pub enum LogicError {
    /// A keystroke arrived while no buffer was being edited.
    KeyInputWhileNormal,
    /// A locker id that is not a number was handed to a locker lookup.
    InvalidLockerId,
    /// The destination branch of the package draft is not a number.
    InvalidBranchId,
    /// A route was asked for outside the package-draft screen.
    RouteUnavailableHere,
    /// A committed route distance would not fit.
    DistanceOverflow,
    /// An event was routed to a handler family that does not own it.
    UnhandledEvent,
}

/// Where `SelectAction` sends the session.
#[derive(Debug, Clone, PartialEq, Eq, Structural)]
pub enum NavTarget {
    ToScreen(Screen),
    ToPopup(Popup),
}

/// The fetch a screen requires before it commits.
pub open spec fn required_fetch(target: Screen) -> FetchKind {
    match target {
        Screen::Client(SubScreen::ClientLockerPackages) => FetchKind::LockerPackages,
        Screen::Client(SubScreen::ClientSentPackages) => FetchKind::SentPackages,
        Screen::PkgAdmin(SubScreen::PkgAdminGuides) => FetchKind::Guides,
        Screen::PkgAdmin(SubScreen::PkgAdminGuideInfo) => FetchKind::GuidePayment,
        _ => FetchKind::NoFetch,
    }
}

/// Exec mirror of `required_fetch`, for the event loop to plan the fetch.
pub fn required_fetch_for(target: &Screen) -> (r: FetchKind)
    ensures
        r == required_fetch(*target),
{
    match target {
        Screen::Client(SubScreen::ClientLockerPackages) => FetchKind::LockerPackages,
        Screen::Client(SubScreen::ClientSentPackages) => FetchKind::SentPackages,
        Screen::PkgAdmin(SubScreen::PkgAdminGuides) => FetchKind::Guides,
        Screen::PkgAdmin(SubScreen::PkgAdminGuideInfo) => FetchKind::GuidePayment,
        _ => FetchKind::NoFetch,
    }
}

/// Which roles may stand on which screens.
pub open spec fn role_compatible(user: Option<User>, target: Screen) -> bool {
    match target {
        Screen::Title => true,
        Screen::Settings => true,
        Screen::Login => true,
        Screen::Client(_) => user matches Some(User::Client(_)),
        Screen::PkgAdmin(_) => user matches Some(User::PkgAdmin(_)),
    }
}

/// The legality table of the popup axis: which popups may overlay which
/// screens.  Message-like popups are legal everywhere; the order flow is
/// scoped to the locker-packages screen; the login notice to the login
/// screen.
pub open spec fn popup_allowed(screen: Screen, popup: Popup) -> bool {
    match popup {
        Popup::Prev => true,
        Popup::DisplayMsg => true,
        Popup::FieldExcess => true,
        Popup::LoginSuccessful => screen is Login,
        Popup::OrderSuccessful => screen == Screen::Client(SubScreen::ClientLockerPackages),
        Popup::ClientOrderMain => screen == Screen::Client(SubScreen::ClientLockerPackages),
        Popup::ClientOrderLocker => screen == Screen::Client(SubScreen::ClientLockerPackages),
        Popup::ClientOrderBranch => screen == Screen::Client(SubScreen::ClientLockerPackages),
        Popup::ClientOrderDelivery => screen == Screen::Client(SubScreen::ClientLockerPackages),
        Popup::ClientInputPayment => screen == Screen::Client(SubScreen::ClientLockerPackages),
    }
}

/// Exec mirror of `popup_allowed`.
pub fn popup_allowed_on(screen: &Screen, popup: &Popup) -> (r: bool)
    ensures
        r == popup_allowed(*screen, *popup),
{
    match popup {
        Popup::Prev => true,
        Popup::DisplayMsg => true,
        Popup::FieldExcess => true,
        Popup::LoginSuccessful => matches!(screen, Screen::Login),
        _ => matches!(screen, Screen::Client(SubScreen::ClientLockerPackages)),
    }
}

/// Popups that reuse the two input buffers, and so suspend the input mode
/// and start an edit of field 0.
pub open spec fn popup_edits(popup: Popup) -> bool {
    match popup {
        Popup::ClientOrderLocker => true,
        Popup::ClientOrderBranch => true,
        Popup::ClientOrderDelivery => true,
        Popup::ClientInputPayment => true,
        _ => false,
    }
}

/// How many actions `SwitchAction` cycles through on a given
/// (screen, popup) pair; `None` where no action set is defined, on which
/// `SwitchAction`/`SelectAction` are documented no-ops.
pub open spec fn action_count(screen: Screen, popup: Option<Popup>) -> Option<u8> {
    match (screen, popup) {
        (Screen::Client(SubScreen::ClientMain), Option::None) => Some(2u8),
        (
            Screen::Client(SubScreen::ClientLockerPackages),
            Option::Some(Popup::ClientOrderMain),
        ) => Some(3u8),
        _ => None,
    }
}

/// Where the selected action index sends the session, per the same
/// (screen, popup) pair that defined the action set.
pub open spec fn select_target(screen: Screen, popup: Option<Popup>, idx: u8) -> Option<
    NavTarget,
> {
    match (screen, popup) {
        (Screen::Client(SubScreen::ClientMain), Option::None) => {
            if idx == 0 {
                Some(NavTarget::ToScreen(Screen::Client(SubScreen::ClientLockers)))
            } else if idx == 1 {
                Some(NavTarget::ToScreen(Screen::Client(SubScreen::ClientSentPackages)))
            } else {
                None
            }
        },
        (
            Screen::Client(SubScreen::ClientLockerPackages),
            Option::Some(Popup::ClientOrderMain),
        ) => {
            if idx == 0 {
                Some(NavTarget::ToPopup(Popup::ClientOrderLocker))
            } else if idx == 1 {
                Some(NavTarget::ToPopup(Popup::ClientOrderBranch))
            } else if idx == 2 {
                Some(NavTarget::ToPopup(Popup::ClientOrderDelivery))
            } else {
                None
            }
        },
        _ => None,
    }
}

/// A list index is well formed when it stands inside the list, or at 0 for
/// an empty list.
pub open spec fn idx_wf(idx: i64, len: nat) -> bool {
    if len == 0 {
        idx == 0
    } else {
        0 <= idx < len
    }
}

/// The session aggregate.  Every mutation goes through the handlers and
/// the navigation engine of this crate, and each of them keeps `wf`.
#[derive(Debug)]
pub struct App {
    pub active_screen: Screen,
    pub active_popup: Option<Popup>,
    /// The input mode the active popup suspended; restored when it closes.
    pub popup_prev_input_mode: InputMode,
    /// Index the action cycle stands on, where an action set is defined.
    pub action_sel: Option<u8>,
    pub input: InputFields,
    pub input_mode: InputMode,
    pub user: Option<User>,
    pub packages: PackageData,
    pub shipping_guides: ShippingGuideData,
    pub timers: Timers,
    pub should_quit: bool,
}

impl App {
    /// Self-consistency of a committed session state: the renderer only
    /// ever observes states satisfying this.
    pub open spec fn wf(self) -> bool {
        &&& (self.input_mode matches InputMode::Editing(f) ==> f < 2)
        &&& (self.popup_prev_input_mode matches InputMode::Editing(f) ==> f < 2)
        &&& (self.active_popup matches Some(p) ==> popup_allowed(self.active_screen, p))
        &&& match action_count(self.active_screen, self.active_popup) {
            Some(n) => self.action_sel matches Some(v) ==> v < n,
            None => self.action_sel is None,
        }
        &&& role_compatible(self.user, self.active_screen)
        &&& idx_wf(self.packages.viewing_packages_idx, self.packages.viewing_packages@.len())
        &&& idx_wf(
            self.shipping_guides.viewing_guides_idx,
            self.shipping_guides.viewing_guides@.len(),
        )
        &&& self.packages.viewing_packages@.len() <= i64::MAX
        &&& self.shipping_guides.viewing_guides@.len() <= i64::MAX
    }

    /// A fresh session: title screen, no popup, nothing typed, nobody
    /// logged in, timers at rest.
    pub fn new(now_ms: u64) -> (r: App)
        ensures
            r.wf(),
            r.active_screen is Title,
            r.active_popup is None,
            r.action_sel is None,
            r.input_mode is Normal,
            r.popup_prev_input_mode is Normal,
            r.input.0@ == Seq::<char>::empty(),
            r.input.1@ == Seq::<char>::empty(),
            r.user is None,
            r.packages.viewing_packages@.len() == 0,
            r.packages.viewing_packages_idx == 0,
            r.packages.selected_packages is None,
            r.packages.active_package is None,
            r.shipping_guides.viewing_guides@.len() == 0,
            r.shipping_guides.viewing_guides_idx == 0,
            r.shipping_guides.active_guide is None,
            r.shipping_guides.active_guide_payment is None,
            !r.should_quit,
            r.timers == (Timers {
                resize: Timer { counter: 0, tick_rate_ms: RESIZE_TICK_MS, last_update_ms: now_ms },
                cube_tick: Timer {
                    counter: 0,
                    tick_rate_ms: CUBE_TICK_MS,
                    last_update_ms: now_ms,
                },
                login: Timer { counter: 0, tick_rate_ms: LOGIN_TICK_MS, last_update_ms: now_ms },
                get_user_delivery: Timer {
                    counter: 0,
                    tick_rate_ms: GET_USER_DELIVERY_TICK_MS,
                    last_update_ms: now_ms,
                },
            }),
    {
        App {
            active_screen: Screen::Title,
            active_popup: None,
            popup_prev_input_mode: InputMode::Normal,
            action_sel: None,
            input: InputFields(Vec::new(), Vec::new()),
            input_mode: InputMode::Normal,
            user: None,
            packages: PackageData {
                viewing_packages: Vec::new(),
                viewing_packages_idx: 0,
                selected_packages: None,
                active_package: None,
            },
            shipping_guides: ShippingGuideData {
                viewing_guides: Vec::new(),
                viewing_guides_idx: 0,
                active_guide: None,
                active_guide_payment: None,
            },
            timers: Timers {
                resize: Timer { counter: 0, tick_rate_ms: RESIZE_TICK_MS, last_update_ms: now_ms },
                cube_tick: Timer {
                    counter: 0,
                    tick_rate_ms: CUBE_TICK_MS,
                    last_update_ms: now_ms,
                },
                login: Timer { counter: 0, tick_rate_ms: LOGIN_TICK_MS, last_update_ms: now_ms },
                get_user_delivery: Timer {
                    counter: 0,
                    tick_rate_ms: GET_USER_DELIVERY_TICK_MS,
                    last_update_ms: now_ms,
                },
            },
            should_quit: false,
        }
    }
}

/// A timer with its tick counter advanced, stopping at the top rather
/// than wrapping.
pub open spec fn bumped(t: Timer) -> Timer {
    Timer { counter: if t.counter < 255 { (t.counter + 1) as u8 } else { t.counter }, ..t }
}

/// The one timer of `t` advanced, everything else as it was.
pub open spec fn tick_applied(pre: App, post: App, t: TimeoutType) -> bool {
    &&& post == (App { timers: post.timers, ..pre })
    &&& post.timers == (match t {
        TimeoutType::Resize => (Timers { resize: bumped(pre.timers.resize), ..pre.timers }),
        TimeoutType::CubeTick => (Timers {
            cube_tick: bumped(pre.timers.cube_tick),
            ..pre.timers
        }),
        TimeoutType::Login => (Timers { login: bumped(pre.timers.login), ..pre.timers }),
        TimeoutType::GetUserDelivery => (Timers {
            get_user_delivery: bumped(pre.timers.get_user_delivery),
            ..pre.timers
        }),
    })
}

/// What `SwitchInput` turns the input mode into: the other buffer while
/// editing, nothing otherwise.
pub open spec fn switched_mode(m: InputMode) -> InputMode {
    match m {
        InputMode::Editing(f) => InputMode::Editing(if f == 0 { 1u8 } else { 0u8 }),
        InputMode::Normal => InputMode::Normal,
    }
}

/// A keystroke applied to the buffer in edit, the other buffer never
/// touched: a character is pushed when its filter admits it and dropped
/// silently when not; a backspace removes the last character, and is a
/// no-op on an empty buffer.
pub open spec fn key_applied(pre: App, post: App, key: InputKey, filter: InputBlacklist) -> bool {
    match pre.input_mode {
        InputMode::Normal => false,
        InputMode::Editing(f) => {
            let buf = if f == 0 {
                pre.input.0@
            } else {
                pre.input.1@
            };
            let edited = match key {
                InputKey::Char(c) => if admits_spec(buf, c, filter) {
                    buf.push(c)
                } else {
                    buf
                },
                InputKey::Backspace => if buf.len() > 0 {
                    buf.drop_last()
                } else {
                    buf
                },
            };
            &&& post == (App { input: post.input, ..pre })
            &&& post.input.0@ == (if f == 0 {
                edited
            } else {
                pre.input.0@
            })
            &&& post.input.1@ == (if f != 0 {
                edited
            } else {
                pre.input.1@
            })
        },
    }
}

/// The committed state after a screen transition: the target active, the
/// popup axis clear, the action cycle and the input pair reset, the
/// fetched rows populating their list view with the stale selection
/// cleared, and the user dropped when the target leaves the session.
pub open spec fn screen_committed(pre: App, post: App, target: Screen, data: FetchedData) -> bool {
    &&& post.active_screen == target
    &&& post.active_popup is None
    &&& post.action_sel is None
    &&& post.input_mode is Normal
    &&& post.popup_prev_input_mode is Normal
    &&& post.input.0@ == Seq::<char>::empty()
    &&& post.input.1@ == Seq::<char>::empty()
    &&& post.should_quit == pre.should_quit
    &&& post.timers == pre.timers
    &&& (if target is Title || target is Login {
        post.user is None
    } else {
        post.user == pre.user
    })
    &&& match required_fetch(target) {
        FetchKind::NoFetch => {
            &&& data is NoData
            &&& post.packages == pre.packages
            &&& post.shipping_guides == pre.shipping_guides
        },
        FetchKind::LockerPackages | FetchKind::SentPackages => {
            &&& data matches FetchedData::Packages(v) && post.packages == (PackageData {
                viewing_packages: v,
                viewing_packages_idx: 0,
                selected_packages: None,
                active_package: None,
            })
            &&& post.shipping_guides == pre.shipping_guides
        },
        FetchKind::Guides => {
            &&& data matches FetchedData::Guides(v) && post.shipping_guides
                == (ShippingGuideData {
                viewing_guides: v,
                viewing_guides_idx: 0,
                active_guide: None,
                active_guide_payment: None,
            })
            &&& post.packages == pre.packages
        },
        FetchKind::GuidePayment => {
            &&& data matches FetchedData::GuidePayment(p) && post.shipping_guides
                == (ShippingGuideData {
                active_guide_payment: Some(p),
                ..pre.shipping_guides
            })
            &&& post.packages == pre.packages
        },
    }
}

/// The committed state after a popup closed: the overlay gone, the action
/// cycle clear, and the suspended input mode restored.
pub open spec fn popup_closed(pre: App, post: App) -> bool {
    post == (App {
        active_popup: None,
        action_sel: None,
        input_mode: pre.popup_prev_input_mode,
        popup_prev_input_mode: InputMode::Normal,
        ..pre
    })
}

/// The committed state after a popup opened: the overlay set, the action
/// cycle clear, the previous input mode suspended, and — for popups that
/// edit — the buffer pair reset and field 0 in edit.
pub open spec fn popup_opened(pre: App, post: App, p: Popup) -> bool {
    &&& post == (App {
        active_popup: Some(p),
        action_sel: None,
        popup_prev_input_mode: pre.input_mode,
        input_mode: if popup_edits(p) {
            InputMode::Editing(0)
        } else {
            InputMode::Normal
        },
        input: post.input,
        ..pre
    })
    &&& (if popup_edits(p) {
        post.input.0@ == Seq::<char>::empty() && post.input.1@ == Seq::<char>::empty()
    } else {
        post.input == pre.input
    })
}

/// Closing a popup returns the input mode to its value before the popup
/// was entered: opening suspends the mode, and closing — which always
/// succeeds — restores exactly what was suspended.
pub proof fn lemma_popup_close_restores_input_mode(pre: App, mid: App, post: App, p: Popup)
    requires
        popup_opened(pre, mid, p),
        popup_closed(mid, post),
    ensures
        post.input_mode == pre.input_mode,
{
}

/// Every check a locker lookup makes against its fetched row, in order;
/// `Ok` exactly when an order to the locker may proceed — or when the
/// session is not in the order context at all, where the lookup is a
/// silent no-op.
pub open spec fn locker_lookup_result(pre: App, username: Seq<char>, found: Option<Locker>) -> Result<
    (),
    NavError,
> {
    match (pre.user, pre.active_screen) {
        (Option::Some(User::Client(cd)), Screen::Client(SubScreen::ClientLockerPackages)) => match found {
            Option::None => Err(NavError::Domain(GetDBErr::InvalidUserLocker)),
            Option::Some(l) => {
                if l.owner@ != username {
                    Err(NavError::Domain(GetDBErr::InvalidUserLocker))
                } else if l.locker_id == cd.locker_id {
                    Err(NavError::Domain(GetDBErr::LockerSameAsActive))
                } else if l.package_count >= MAX_LOCKER_PACKAGES {
                    Err(NavError::Domain(GetDBErr::LockerTooManyPackages))
                } else if l.package_weight_grams > MAX_LOCKER_WEIGHT_GRAMS {
                    Err(NavError::Domain(GetDBErr::LockerWeightTooBig(l.package_weight_grams)))
                } else {
                    Ok(())
                }
            },
        },
        _ => Ok(()),
    }
}

/// The committed state after a locker lookup that passed its checks: in
/// the order context the locker is recorded as the order target and the
/// payment popup opens; outside it nothing changes.
pub open spec fn locker_lookup_committed(pre: App, post: App, found: Option<Locker>) -> bool {
    match (pre.user, pre.active_screen) {
        (Option::Some(User::Client(cd)), Screen::Client(SubScreen::ClientLockerPackages)) => found matches Some(
            l,
        ) && popup_opened(
            (App { user: Some(User::Client(ClientData { send_to_locker: Some(l), ..cd })), ..pre }),
            post,
            Popup::ClientInputPayment,
        ),
        _ => post == pre,
    }
}

/// Whether data fetched for `kind` is of the right shape and size.
pub open spec fn fetch_matches(kind: FetchKind, data: FetchedData) -> bool {
    match kind {
        FetchKind::NoFetch => data is NoData,
        FetchKind::LockerPackages | FetchKind::SentPackages => data matches FetchedData::Packages(
            v,
        ) && v@.len() <= i64::MAX,
        FetchKind::Guides => data matches FetchedData::Guides(v) && v@.len() <= i64::MAX,
        FetchKind::GuidePayment => data is GuidePayment,
    }
}

impl App {
    /// Every check `enter_screen` makes, in its order; `Ok` exactly when
    /// all pass.
    pub open spec fn enter_screen_result(
        self,
        target: Screen,
        fetched: Result<FetchedData, StoreError>,
    ) -> Result<(), NavError> {
        if !role_compatible(self.user, target) {
            Err(NavError::InvalidRole)
        } else if target == Screen::PkgAdmin(SubScreen::PkgAdminGuideInfo)
            && !(self.shipping_guides.active_guide is Some) {
            Err(NavError::MissingGuide)
        } else {
            match fetched {
                Err(e) => Err(NavError::Store(e)),
                Ok(d) => if fetch_matches(required_fetch(target), d) {
                    Ok(())
                } else {
                    Err(NavError::WrongData)
                },
            }
        }
    }

    /// Validates and commits a screen transition.  The caller has already
    /// performed the `required_fetch` of the target and hands its outcome
    /// in; on any rejection — incompatible role, missing selection, failed
    /// or ill-shaped fetch — nothing at all changes, and the previous
    /// screen stays active.
    pub fn enter_screen(&mut self, target: Screen, fetched: Result<FetchedData, StoreError>) -> (r:
        Result<(), NavError>)
        requires
            old(self).wf(),
        ensures
            final(self).wf(),
            r == old(self).enter_screen_result(target, fetched),
            r is Err ==> *final(self) == *old(self),
            r is Ok ==> (fetched matches Ok(d) && screen_committed(
                *old(self),
                *final(self),
                target,
                d,
            )),
    {
        let role_ok = match (&self.user, &target) {
            (_, Screen::Title) => true,
            (_, Screen::Settings) => true,
            (_, Screen::Login) => true,
            (Some(User::Client(_)), Screen::Client(_)) => true,
            (Some(User::PkgAdmin(_)), Screen::PkgAdmin(_)) => true,
            _ => false,
        };
        if !role_ok {
            return Err(NavError::InvalidRole);
        }
        if matches!(target, Screen::PkgAdmin(SubScreen::PkgAdminGuideInfo))
            && self.shipping_guides.active_guide.is_none() {
            return Err(NavError::MissingGuide);
        }
        let data = match fetched {
            Ok(d) => d,
            Err(e) => {
                return Err(NavError::Store(e));
            },
        };
        let kind = required_fetch_for(&target);
        match (kind, data) {
            (FetchKind::NoFetch, FetchedData::NoData) => {},
            (FetchKind::LockerPackages, FetchedData::Packages(v)) => {
                if v.len() as u64 > i64::MAX as u64 {
                    return Err(NavError::WrongData);
                }
                self.packages = PackageData {
                    viewing_packages: v,
                    viewing_packages_idx: 0,
                    selected_packages: None,
                    active_package: None,
                };
            },
            (FetchKind::SentPackages, FetchedData::Packages(v)) => {
                if v.len() as u64 > i64::MAX as u64 {
                    return Err(NavError::WrongData);
                }
                self.packages = PackageData {
                    viewing_packages: v,
                    viewing_packages_idx: 0,
                    selected_packages: None,
                    active_package: None,
                };
            },
            (FetchKind::Guides, FetchedData::Guides(v)) => {
                if v.len() as u64 > i64::MAX as u64 {
                    return Err(NavError::WrongData);
                }
                self.shipping_guides = ShippingGuideData {
                    viewing_guides: v,
                    viewing_guides_idx: 0,
                    active_guide: None,
                    active_guide_payment: None,
                };
            },
            (FetchKind::GuidePayment, FetchedData::GuidePayment(p)) => {
                self.shipping_guides.active_guide_payment = Some(p);
            },
            _ => {
                return Err(NavError::WrongData);
            },
        }
        if matches!(target, Screen::Title | Screen::Login) {
            self.user = None;
        }
        self.active_screen = target;
        self.active_popup = None;
        self.action_sel = None;
        self.input = InputFields(Vec::new(), Vec::new());
        self.input_mode = InputMode::Normal;
        self.popup_prev_input_mode = InputMode::Normal;
        Ok(())
    }

    /// Validates and commits a popup transition.  An absent target closes
    /// the overlay, which always succeeds and restores the input mode the
    /// popup had suspended; a present target commits only where the
    /// legality table allows it on the active screen.
    pub fn enter_popup(&mut self, target: Option<Popup>) -> (r: Result<(), NavError>)
        requires
            old(self).wf(),
        ensures
            final(self).wf(),
            match target {
                Option::None => r is Ok && popup_closed(*old(self), *final(self)),
                Option::Some(p) => {
                    if popup_allowed(old(self).active_screen, p) {
                        r is Ok && popup_opened(*old(self), *final(self), p)
                    } else {
                        r == Err::<(), NavError>(NavError::IllegalPopup) && *final(self) == *old(
                            self,
                        )
                    }
                },
            },
    {
        match target {
            None => {
                self.active_popup = None;
                self.action_sel = None;
                self.input_mode = self.popup_prev_input_mode;
                self.popup_prev_input_mode = InputMode::Normal;
                Ok(())
            },
            Some(p) => {
                if !popup_allowed_on(&self.active_screen, &p) {
                    return Err(NavError::IllegalPopup);
                }
                let edits = matches!(
                    p,
                    Popup::ClientOrderLocker | Popup::ClientOrderBranch
                        | Popup::ClientOrderDelivery | Popup::ClientInputPayment
                );
                self.popup_prev_input_mode = self.input_mode;
                if edits {
                    self.input = InputFields(Vec::new(), Vec::new());
                    self.input_mode = InputMode::Editing(0);
                } else {
                    self.input_mode = InputMode::Normal;
                }
                self.active_popup = Some(p);
                self.action_sel = None;
                Ok(())
            },
        }
    }

    /// Advances the action cycle: strictly within the defined count,
    /// wrapping to 0 past the maximum, and a documented no-op on pairs
    /// with no defined action set.
    pub fn switch_action(&mut self)
        requires
            old(self).wf(),
        ensures
            final(self).wf(),
            *final(self) == (App { action_sel: final(self).action_sel, ..*old(self) }),
            match action_count(old(self).active_screen, old(self).active_popup) {
                Some(n) => final(self).action_sel matches Some(w) && 0 <= w < n && w as int
                    == (match old(self).action_sel {
                    Some(v) => (v as int + 1) % (n as int),
                    None => 0int,
                }),
                None => final(self).action_sel == old(self).action_sel,
            },
    {
        let count = match (&self.active_screen, &self.active_popup) {
            (Screen::Client(SubScreen::ClientMain), None) => Some(2u8),
            (Screen::Client(SubScreen::ClientLockerPackages), Some(Popup::ClientOrderMain)) => Some(
                3u8,
            ),
            _ => None,
        };
        if let Some(n) = count {
            let next = match self.action_sel {
                Some(v) => if v + 1 < n {
                    v + 1
                } else {
                    0
                },
                None => 0,
            };
            self.action_sel = Some(next);
        }
    }

    /// Toggles which input buffer is in edit; a no-op outside editing.
    pub fn switch_input(&mut self)
        requires
            old(self).wf(),
        ensures
            final(self).wf(),
            *final(self) == (App { input_mode: switched_mode(old(self).input_mode), ..*old(
                self,
            ) }),
    {
        if let InputMode::Editing(field) = self.input_mode {
            if field == 0 {
                self.input_mode = InputMode::Editing(1);
            } else {
                self.input_mode = InputMode::Editing(0);
            }
        }
    }

    /// Feeds one keystroke into the buffer in edit: characters go through
    /// the active filter — a rejected one changes nothing and is no error
    /// — and a backspace removes the last character.  A keystroke outside
    /// editing is a fatal logic error.
    pub fn key_input(&mut self, key: InputKey, filter: InputBlacklist) -> (r: Result<
        (),
        LogicError,
    >)
        requires
            old(self).wf(),
        ensures
            final(self).wf(),
            match old(self).input_mode {
                InputMode::Normal => r == Err::<(), LogicError>(LogicError::KeyInputWhileNormal)
                    && *final(self) == *old(self),
                InputMode::Editing(_) => r is Ok && key_applied(
                    *old(self),
                    *final(self),
                    key,
                    filter,
                ),
            },
    {
        let field = match self.input_mode {
            InputMode::Editing(f) => f,
            InputMode::Normal => {
                return Err(LogicError::KeyInputWhileNormal);
            },
        };
        match key {
            InputKey::Char(c) => {
                if field == 0 {
                    if admits(&self.input.0, c, filter) {
                        self.input.0.push(c);
                    }
                } else {
                    if admits(&self.input.1, c, filter) {
                        self.input.1.push(c);
                    }
                }
            },
            InputKey::Backspace => {
                let popped = if field == 0 {
                    self.input.0.pop()
                } else {
                    self.input.1.pop()
                };
                proof {
                    let buf = if field == 0 {
                        old(self).input.0@
                    } else {
                        old(self).input.1@
                    };
                    if buf.len() > 0 {
                        assert(buf.subrange(0, buf.len() - 1) =~= buf.drop_last());
                    }
                }
                let _ = popped;
            },
        }
        Ok(())
    }

    /// Advances the tick counter of one timeout type, touching no other.
    pub fn update_timeout_counter(&mut self, timeout_type: TimeoutType)
        requires
            old(self).wf(),
        ensures
            final(self).wf(),
            tick_applied(*old(self), *final(self), timeout_type),
    {
        let t = match timeout_type {
            TimeoutType::Resize => &mut self.timers.resize,
            TimeoutType::CubeTick => &mut self.timers.cube_tick,
            TimeoutType::Login => &mut self.timers.login,
            TimeoutType::GetUserDelivery => &mut self.timers.get_user_delivery,
        };
        if t.counter < 255 {
            t.counter = t.counter + 1;
        }
    }

    /// Commits the outcome of a credential check, fired on the login
    /// screen: a found role enters its main screen and carries the role
    /// data into the session; nothing found leaves the login screen active
    /// under a message popup.  Off the login screen the event is a fatal
    /// logic error.
    pub fn resolve_login(&mut self, found: Option<User>) -> (r: Result<(), LogicError>)
        requires
            old(self).wf(),
        ensures
            final(self).wf(),
            !(old(self).active_screen is Login) ==> r == Err::<(), LogicError>(
                LogicError::UnhandledEvent,
            ) && *final(self) == *old(self),
            old(self).active_screen is Login ==> r is Ok && match found {
                Option::Some(User::Client(cd)) => screen_committed(
                    (App { user: Some(User::Client(cd)), ..*old(self) }),
                    *final(self),
                    Screen::Client(SubScreen::ClientMain),
                    FetchedData::NoData,
                ),
                Option::Some(User::PkgAdmin(ad)) => screen_committed(
                    (App { user: Some(User::PkgAdmin(ad)), ..*old(self) }),
                    *final(self),
                    Screen::PkgAdmin(SubScreen::PkgAdminMain),
                    FetchedData::NoData,
                ),
                Option::None => popup_opened(*old(self), *final(self), Popup::DisplayMsg),
            },
    {
        if !matches!(self.active_screen, Screen::Login) {
            return Err(LogicError::UnhandledEvent);
        }
        match found {
            Some(u) => {
                let target = match &u {
                    User::Client(_) => Screen::Client(SubScreen::ClientMain),
                    User::PkgAdmin(_) => Screen::PkgAdmin(SubScreen::PkgAdminMain),
                };
                self.user = Some(u);
                let nav = self.enter_screen(target, Ok(FetchedData::NoData));
                proof {
                    assert(nav is Ok);
                }
                Ok(())
            },
            None => {
                let nav = self.enter_popup(Some(Popup::DisplayMsg));
                proof {
                    assert(nav is Ok);
                }
                Ok(())
            },
        }
    }

    /// Checks a fetched locker row against the order preconditions and, if
    /// all hold, records it as the order target and opens the payment
    /// popup.  Outside a client session on the locker-packages screen the
    /// lookup is a silent no-op, as the event cannot belong to an order.
    pub fn apply_locker_lookup(&mut self, username: &String, found: Option<Locker>) -> (r: Result<
        (),
        NavError,
    >)
        requires
            old(self).wf(),
        ensures
            final(self).wf(),
            r == locker_lookup_result(*old(self), username@, found),
            r is Err ==> *final(self) == *old(self),
            r is Ok ==> locker_lookup_committed(*old(self), *final(self), found),
    {
        let in_order_context = matches!(
            (&self.user, &self.active_screen),
            (Some(User::Client(_)), Screen::Client(SubScreen::ClientLockerPackages))
        );
        if !in_order_context {
            return Ok(());
        }
        let l = match found {
            Some(l) => l,
            None => {
                return Err(NavError::Domain(GetDBErr::InvalidUserLocker));
            },
        };
        if l.owner != *username {
            return Err(NavError::Domain(GetDBErr::InvalidUserLocker));
        }
        let own_locker = match &self.user {
            Some(User::Client(cd)) => cd.locker_id,
            _ => 0,
        };
        if l.locker_id == own_locker {
            return Err(NavError::Domain(GetDBErr::LockerSameAsActive));
        }
        if l.package_count >= MAX_LOCKER_PACKAGES {
            return Err(NavError::Domain(GetDBErr::LockerTooManyPackages));
        }
        if l.package_weight_grams > MAX_LOCKER_WEIGHT_GRAMS {
            return Err(NavError::Domain(GetDBErr::LockerWeightTooBig(l.package_weight_grams)));
        }
        if let Some(User::Client(cd)) = &mut self.user {
            cd.send_to_locker = Some(l);
        }
        let nav = self.enter_popup(Some(Popup::ClientInputPayment));
        proof {
            assert(nav is Ok);
        }
        Ok(())
    }

    /// The warehouse-pair query a route fetch needs, read off the open
    /// package draft: the administrator's home branch and the typed
    /// destination branch.  Anywhere else a route fetch is a fatal logic
    /// error.
    pub fn route_fetch_request(&self) -> (r: Result<RouteQuery, LogicError>)
        requires
            self.wf(),
        ensures
            match (self.user, self.active_screen) {
                (
                    Option::Some(User::PkgAdmin(ad)),
                    Screen::PkgAdmin(SubScreen::PkgAdminAddPackage(_)),
                ) => match ad.add_package {
                    Option::Some(draft) => {
                        if all_digits(draft.branch_input@) && 1 <= draft.branch_input@.len() <= 18
                            && dec_value(draft.branch_input@) <= i32::MAX {
                            r matches Ok(q) && q.from_branch == ad.branch_id && q.to_branch as int
                                == dec_value(draft.branch_input@)
                        } else {
                            r == Err::<RouteQuery, LogicError>(LogicError::InvalidBranchId)
                        }
                    },
                    Option::None => r == Err::<RouteQuery, LogicError>(
                        LogicError::RouteUnavailableHere,
                    ),
                },
                _ => r == Err::<RouteQuery, LogicError>(LogicError::RouteUnavailableHere),
            },
    {
        match (&self.user, &self.active_screen) {
            (Some(User::PkgAdmin(ad)), Screen::PkgAdmin(SubScreen::PkgAdminAddPackage(_))) => {
                match &ad.add_package {
                    Some(draft) => match parse_i32(&draft.branch_input) {
                        Some(to_branch) => Ok(RouteQuery { from_branch: ad.branch_id, to_branch }),
                        None => Err(LogicError::InvalidBranchId),
                    },
                    None => Err(LogicError::RouteUnavailableHere),
                }
            },
            _ => Err(LogicError::RouteUnavailableHere),
        }
    }

    /// Commits a route service outcome into the open package draft: on a
    /// successful response the node list and the sum of the reported
    /// distance with both branch connector distances; on "no route" — any
    /// non-success status — the draft's route fields are left exactly as
    /// they were, and the caller re-prompts.
    pub fn commit_route(
        &mut self,
        response: Option<RouteResponse>,
        connector_from: i64,
        connector_to: i64,
    ) -> (r: Result<(), LogicError>)
        requires
            old(self).wf(),
        ensures
            final(self).wf(),
            r is Err ==> *final(self) == *old(self),
            match (old(self).user, old(self).active_screen) {
                (
                    Option::Some(User::PkgAdmin(ad)),
                    Screen::PkgAdmin(SubScreen::PkgAdminAddPackage(_)),
                ) => match ad.add_package {
                    Option::Some(draft) => match response {
                        Option::None => r is Ok && *final(self) == *old(self),
                        Option::Some(resp) => {
                            let partial = resp.distance + connector_from;
                            let total = partial + connector_to;
                            if i64::MIN <= partial <= i64::MAX && i64::MIN <= total <= i64::MAX {
                                r is Ok && *final(self) == (App {
                                    user: Some(User::PkgAdmin(PkgAdminData {
                                        add_package: Some(AddPackageData {
                                            route: Some(resp.nodes),
                                            route_distance: Some(total as i64),
                                            ..draft
                                        }),
                                        ..ad
                                    })),
                                    ..*old(self)
                                })
                            } else {
                                r == Err::<(), LogicError>(LogicError::DistanceOverflow)
                            }
                        },
                    },
                    Option::None => r == Err::<(), LogicError>(LogicError::RouteUnavailableHere),
                },
                _ => r == Err::<(), LogicError>(LogicError::RouteUnavailableHere),
            },
    {
        let in_draft = matches!(
            (&self.user, &self.active_screen),
            (Some(User::PkgAdmin(PkgAdminData { add_package: Some(_), .. })),
                Screen::PkgAdmin(SubScreen::PkgAdminAddPackage(_)))
        );
        if !in_draft {
            return Err(LogicError::RouteUnavailableHere);
        }
        let resp = match response {
            Some(resp) => resp,
            None => {
                return Ok(());
            },
        };
        let with_from = match resp.distance.checked_add(connector_from) {
            Some(v) => v,
            None => {
                return Err(LogicError::DistanceOverflow);
            },
        };
        let total = match with_from.checked_add(connector_to) {
            Some(v) => v,
            None => {
                return Err(LogicError::DistanceOverflow);
            },
        };
        if let Some(User::PkgAdmin(ad)) = &mut self.user {
            if let Some(draft) = &mut ad.add_package {
                draft.route = Some(resp.nodes);
                draft.route_distance = Some(total);
            }
        }
        Ok(())
    }
}

} // verus!

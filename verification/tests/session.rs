//! The session state machine: navigation, dispatch, login, the locker
//! order checks and the route fetch, on concrete scenarios.

use rushcargo_app::app::{App, FetchedData, LogicError, NavError, StoreError};
use rushcargo_app::common::{
    AddPackageData, ClientData, Div, GetDBErr, InputMode, PkgAdminData, Popup, Screen, SubScreen,
    TimeoutType, User,
};
use rushcargo_app::db_obj::{Locker, Package, ShippingGuide};
use rushcargo_app::events::{Event, InputKey, IoRequest};
use rushcargo_app::filters::InputBlacklist;
use rushcargo_app::graph::{
    route_request_url, validate_branch_lookup, BranchInfo, RouteResponse, WarehouseNode,
};
use rushcargo_app::update::common::{apply_fetched_screen, apply_locker_outcome};
use rushcargo_app::update::update;

fn chars(s: &str) -> Vec<char> {
    s.chars().collect()
}

fn client_user(name: &str) -> User {
    User::Client(ClientData {
        username: String::from(name),
        locker_id: 1,
        send_to_locker: None,
    })
}

fn client_app(sub: SubScreen) -> App {
    let mut app = App::new(0);
    app.user = Some(client_user("ana"));
    app.active_screen = Screen::Client(sub);
    app
}

fn admin_app_with_draft(branch_input: &str) -> App {
    let mut app = App::new(0);
    app.user = Some(User::PkgAdmin(PkgAdminData {
        username: String::from("bo"),
        branch_id: 19,
        add_package: Some(AddPackageData {
            branch_input: chars(branch_input),
            route: None,
            route_distance: None,
        }),
    }));
    app.active_screen = Screen::PkgAdmin(SubScreen::PkgAdminAddPackage(Div::Left));
    app
}

fn node(id: i32) -> WarehouseNode {
    WarehouseNode {
        id,
        building: format!("b{}", id),
        city: String::from("c"),
        country: String::from("n"),
        region: String::from("r"),
    }
}

#[test]
fn switch_action_cycles_on_client_main() {
    let mut app = client_app(SubScreen::ClientMain);
    assert_eq!(app.action_sel, None);
    app.switch_action();
    assert_eq!(app.action_sel, Some(0));
    app.switch_action();
    assert_eq!(app.action_sel, Some(1));
    app.switch_action();
    assert_eq!(app.action_sel, Some(0));
}

#[test]
fn switch_action_cycles_under_order_popup() {
    let mut app = client_app(SubScreen::ClientLockerPackages);
    app.active_popup = Some(Popup::ClientOrderMain);
    for expected in [0, 1, 2, 0, 1] {
        app.switch_action();
        assert_eq!(app.action_sel, Some(expected));
    }
}

#[test]
fn switch_action_is_noop_without_action_set() {
    let mut app = App::new(0);
    app.switch_action();
    assert_eq!(app.action_sel, None);
    let mut locked = client_app(SubScreen::ClientLockerPackages);
    locked.switch_action();
    assert_eq!(locked.action_sel, None);
}

#[test]
fn enter_screen_commits_fetched_packages() {
    let mut app = client_app(SubScreen::ClientMain);
    let rows = vec![
        Package { tracking_number: 7, weight_grams: 1200 },
        Package { tracking_number: 8, weight_grams: 300 },
    ];
    let r = app.enter_screen(
        Screen::Client(SubScreen::ClientLockerPackages),
        Ok(FetchedData::Packages(rows.clone())),
    );
    assert!(r.is_ok());
    assert_eq!(app.active_screen, Screen::Client(SubScreen::ClientLockerPackages));
    assert_eq!(app.packages.viewing_packages, rows);
    assert_eq!(app.packages.viewing_packages_idx, 0);
    assert!(app.packages.active_package.is_none());
    assert!(app.active_popup.is_none());
    assert_eq!(app.action_sel, None);
}

#[test]
fn enter_screen_keeps_previous_screen_on_failed_fetch() {
    let mut app = client_app(SubScreen::ClientMain);
    let r = app.enter_screen(
        Screen::Client(SubScreen::ClientLockerPackages),
        Err(StoreError::Io),
    );
    assert_eq!(r, Err(NavError::Store(StoreError::Io)));
    assert_eq!(app.active_screen, Screen::Client(SubScreen::ClientMain));
}

#[test]
fn enter_screen_keeps_previous_screen_on_missing_row() {
    let mut app = App::new(0);
    app.user = Some(User::PkgAdmin(PkgAdminData {
        username: String::from("bo"),
        branch_id: 19,
        add_package: None,
    }));
    app.active_screen = Screen::PkgAdmin(SubScreen::PkgAdminGuides);
    app.shipping_guides.viewing_guides = vec![ShippingGuide { guide_id: 4, package_count: 1 }];
    app.shipping_guides.active_guide = Some(ShippingGuide { guide_id: 4, package_count: 1 });
    let r = app.enter_screen(
        Screen::PkgAdmin(SubScreen::PkgAdminGuideInfo),
        Err(StoreError::RowMissing),
    );
    assert_eq!(r, Err(NavError::Store(StoreError::RowMissing)));
    assert_eq!(app.active_screen, Screen::PkgAdmin(SubScreen::PkgAdminGuides));
    assert!(app.shipping_guides.active_guide_payment.is_none());
}

#[test]
fn enter_screen_rejects_ill_shaped_payload() {
    let mut app = client_app(SubScreen::ClientMain);
    let r = app.enter_screen(
        Screen::Client(SubScreen::ClientLockerPackages),
        Ok(FetchedData::NoData),
    );
    assert_eq!(r, Err(NavError::WrongData));
    assert_eq!(app.active_screen, Screen::Client(SubScreen::ClientMain));
}

#[test]
fn guide_info_needs_a_selected_guide() {
    let mut app = App::new(0);
    app.user = Some(User::PkgAdmin(PkgAdminData {
        username: String::from("bo"),
        branch_id: 19,
        add_package: None,
    }));
    app.active_screen = Screen::PkgAdmin(SubScreen::PkgAdminGuides);
    let r = app.enter_screen(
        Screen::PkgAdmin(SubScreen::PkgAdminGuideInfo),
        Ok(FetchedData::GuidePayment(rushcargo_app::db_obj::Payment {
            payment_id: 1,
            amount_cents: 100,
        })),
    );
    assert_eq!(r, Err(NavError::MissingGuide));
    assert_eq!(app.active_screen, Screen::PkgAdmin(SubScreen::PkgAdminGuides));
}

#[test]
fn enter_screen_rejects_missing_role() {
    let mut app = App::new(0);
    let r = app.enter_screen(Screen::Client(SubScreen::ClientMain), Ok(FetchedData::NoData));
    assert_eq!(r, Err(NavError::InvalidRole));
    assert_eq!(app.active_screen, Screen::Title);
}

#[test]
fn enter_screen_on_login_logs_out() {
    let mut app = client_app(SubScreen::ClientMain);
    let r = app.enter_screen(Screen::Login, Ok(FetchedData::NoData));
    assert!(r.is_ok());
    assert_eq!(app.active_screen, Screen::Login);
    assert!(app.user.is_none());
}

#[test]
fn closing_popup_restores_input_mode() {
    let mut app = client_app(SubScreen::ClientLockerPackages);
    app.input_mode = InputMode::Editing(1);
    let opened = app.enter_popup(Some(Popup::ClientOrderMain));
    assert!(opened.is_ok());
    assert_eq!(app.input_mode, InputMode::Normal);
    let closed = app.enter_popup(None);
    assert!(closed.is_ok());
    assert!(app.active_popup.is_none());
    assert_eq!(app.input_mode, InputMode::Editing(1));
}

#[test]
fn closing_absent_popup_still_succeeds() {
    let mut app = App::new(0);
    let r = app.enter_popup(None);
    assert!(r.is_ok());
    assert_eq!(app.input_mode, InputMode::Normal);
}

#[test]
fn editing_popup_resets_buffers_and_edits_field_zero() {
    let mut app = client_app(SubScreen::ClientLockerPackages);
    app.input.0 = chars("stale");
    let r = app.enter_popup(Some(Popup::ClientOrderLocker));
    assert!(r.is_ok());
    assert!(app.input.0.is_empty());
    assert!(app.input.1.is_empty());
    assert_eq!(app.input_mode, InputMode::Editing(0));
}

#[test]
fn illegal_popup_is_rejected() {
    let mut app = App::new(0);
    let r = app.enter_popup(Some(Popup::ClientOrderMain));
    assert_eq!(r, Err(NavError::IllegalPopup));
    assert!(app.active_popup.is_none());
}

#[test]
fn valid_login_enters_client_main() {
    let mut app = App::new(0);
    app.active_screen = Screen::Login;
    let r = app.resolve_login(Some(client_user("ana")));
    assert!(r.is_ok());
    assert_eq!(app.active_screen, Screen::Client(SubScreen::ClientMain));
    match &app.user {
        Some(User::Client(cd)) => assert_eq!(cd.username, "ana"),
        other => panic!("client role data not populated: {:?}", other),
    }
}

#[test]
fn invalid_login_keeps_login_and_opens_message() {
    let mut app = App::new(0);
    app.active_screen = Screen::Login;
    let r = app.resolve_login(None);
    assert!(r.is_ok());
    assert_eq!(app.active_screen, Screen::Login);
    assert_eq!(app.active_popup, Some(Popup::DisplayMsg));
    assert!(app.user.is_none());
}

fn target_locker(owner: &str) -> Locker {
    Locker {
        locker_id: 2,
        owner: String::from(owner),
        country_id: 1,
        warehouse_id: 3,
        package_count: 0,
        package_weight_grams: 0,
    }
}

#[test]
fn locker_lookup_rejects_missing_row() {
    let mut app = client_app(SubScreen::ClientLockerPackages);
    let r = app.apply_locker_lookup(&String::from("ana"), None);
    assert_eq!(r, Err(NavError::Domain(GetDBErr::InvalidUserLocker)));
}

#[test]
fn locker_lookup_rejects_foreign_locker() {
    let mut app = client_app(SubScreen::ClientLockerPackages);
    let r = app.apply_locker_lookup(&String::from("ana"), Some(target_locker("eve")));
    assert_eq!(r, Err(NavError::Domain(GetDBErr::InvalidUserLocker)));
}

#[test]
fn locker_lookup_rejects_active_locker() {
    let mut app = client_app(SubScreen::ClientLockerPackages);
    let mut l = target_locker("ana");
    l.locker_id = 1;
    let r = app.apply_locker_lookup(&String::from("ana"), Some(l));
    assert_eq!(r, Err(NavError::Domain(GetDBErr::LockerSameAsActive)));
}

#[test]
fn locker_lookup_rejects_full_locker() {
    let mut app = client_app(SubScreen::ClientLockerPackages);
    let mut l = target_locker("ana");
    l.package_count = 5;
    let r = app.apply_locker_lookup(&String::from("ana"), Some(l));
    assert_eq!(r, Err(NavError::Domain(GetDBErr::LockerTooManyPackages)));
}

#[test]
fn locker_lookup_rejects_overweight_locker() {
    let mut app = client_app(SubScreen::ClientLockerPackages);
    let mut l = target_locker("ana");
    l.package_weight_grams = 600_000;
    let r = app.apply_locker_lookup(&String::from("ana"), Some(l));
    assert_eq!(r, Err(NavError::Domain(GetDBErr::LockerWeightTooBig(600_000))));
}

#[test]
fn locker_lookup_commits_target_and_opens_payment() {
    let mut app = client_app(SubScreen::ClientLockerPackages);
    let r = app.apply_locker_lookup(&String::from("ana"), Some(target_locker("ana")));
    assert!(r.is_ok());
    assert_eq!(app.active_popup, Some(Popup::ClientInputPayment));
    assert_eq!(app.input_mode, InputMode::Editing(0));
    match &app.user {
        Some(User::Client(cd)) => {
            let l = cd.send_to_locker.as_ref().expect("order target not recorded");
            assert_eq!(l.locker_id, 2);
        },
        other => panic!("unexpected role: {:?}", other),
    }
}

#[test]
fn locker_lookup_outside_order_context_is_noop() {
    let mut app = App::new(0);
    let r = app.apply_locker_lookup(&String::from("ana"), None);
    assert!(r.is_ok());
    assert!(app.active_popup.is_none());
}

#[test]
fn route_fetch_request_reads_draft() {
    let app = admin_app_with_draft("42");
    let q = app.route_fetch_request().expect("draft with a numeric branch must yield a query");
    assert_eq!(q.from_branch, 19);
    assert_eq!(q.to_branch, 42);
}

#[test]
fn route_fetch_request_rejects_bad_branch() {
    let app = admin_app_with_draft("4x");
    assert_eq!(app.route_fetch_request(), Err(LogicError::InvalidBranchId));
    let elsewhere = App::new(0);
    assert_eq!(elsewhere.route_fetch_request(), Err(LogicError::RouteUnavailableHere));
}

#[test]
fn successful_route_commits_nodes_and_total_distance() {
    let mut app = admin_app_with_draft("42");
    let nodes = vec![node(1), node(2), node(3)];
    let r = app.commit_route(
        Some(RouteResponse { distance: 100, nodes: nodes.clone() }),
        5,
        7,
    );
    assert!(r.is_ok());
    match &app.user {
        Some(User::PkgAdmin(ad)) => {
            let draft = ad.add_package.as_ref().unwrap();
            assert_eq!(draft.route_distance, Some(112));
            assert_eq!(draft.route.as_ref().unwrap(), &nodes);
        },
        other => panic!("unexpected role: {:?}", other),
    }
}

#[test]
fn no_route_leaves_draft_unset() {
    let mut app = admin_app_with_draft("42");
    let r = app.commit_route(None, 5, 7);
    assert!(r.is_ok());
    match &app.user {
        Some(User::PkgAdmin(ad)) => {
            let draft = ad.add_package.as_ref().unwrap();
            assert_eq!(draft.route_distance, None);
            assert!(draft.route.is_none());
        },
        other => panic!("unexpected role: {:?}", other),
    }
}

#[test]
fn overflowing_route_distance_is_refused() {
    let mut app = admin_app_with_draft("42");
    let r = app.commit_route(
        Some(RouteResponse { distance: i64::MAX, nodes: vec![node(1)] }),
        1,
        0,
    );
    assert_eq!(r, Err(LogicError::DistanceOverflow));
}

#[test]
fn route_url_carries_both_warehouse_ids() {
    let base = "http://localhost:9000/route";
    let url = route_request_url(base, 3, 9).expect("a well-formed base must build a URL");
    assert_ne!(url, base);
    assert!(url.contains("fromId=3"));
    assert!(url.contains("toId=9"));
    assert!(route_request_url("not a url", 3, 9).is_none());
}

#[test]
fn branch_lookup_validates_row() {
    let b = BranchInfo { branch_id: 42, warehouse_id: 9, route_distance: 7 };
    assert_eq!(validate_branch_lookup(Some(b)), Ok(b));
    assert_eq!(validate_branch_lookup(None), Err(GetDBErr::InvalidUserBranch));
}

#[test]
fn quit_event_flags_shutdown() {
    let mut app = App::new(0);
    let r = update(&mut app, Event::Quit);
    assert!(matches!(r, Ok(IoRequest::NoIo)));
    assert!(app.should_quit);
}

#[test]
fn resize_event_is_state_noop() {
    let mut app = App::new(0);
    let r = update(&mut app, Event::Resize);
    assert!(matches!(r, Ok(IoRequest::NoIo)));
    assert!(!app.should_quit);
    assert_eq!(app.active_screen, Screen::Title);
}

#[test]
fn timeout_tick_bumps_one_counter() {
    let mut app = App::new(0);
    let r = update(&mut app, Event::TimeoutTick(TimeoutType::Login));
    assert!(r.is_ok());
    assert_eq!(app.timers.login.counter, 1);
    assert_eq!(app.timers.resize.counter, 0);
}

#[test]
fn timeout_counter_stops_at_the_top() {
    let mut app = App::new(0);
    for _ in 0..300 {
        app.update_timeout_counter(TimeoutType::CubeTick);
    }
    assert_eq!(app.timers.cube_tick.counter, 255);
    assert_eq!(app.timers.login.counter, 0);
}

#[test]
fn popup_event_opens_and_closes_through_the_dispatcher() {
    let mut app = App::new(0);
    assert!(update(&mut app, Event::EnterPopup(Some(Popup::DisplayMsg))).is_ok());
    assert_eq!(app.active_popup, Some(Popup::DisplayMsg));
    assert!(update(&mut app, Event::EnterPopup(None)).is_ok());
    assert!(app.active_popup.is_none());
}

#[test]
fn illegal_popup_event_surfaces_a_message() {
    let mut app = App::new(0);
    assert!(update(&mut app, Event::EnterPopup(Some(Popup::ClientInputPayment))).is_ok());
    assert_eq!(app.active_popup, Some(Popup::DisplayMsg));
}

#[test]
fn switch_input_toggles_edited_field() {
    let mut app = App::new(0);
    app.input_mode = InputMode::Editing(0);
    assert!(update(&mut app, Event::SwitchInput).is_ok());
    assert_eq!(app.input_mode, InputMode::Editing(1));
    assert!(update(&mut app, Event::SwitchInput).is_ok());
    assert_eq!(app.input_mode, InputMode::Editing(0));
}

#[test]
fn switch_input_is_noop_outside_editing() {
    let mut app = App::new(0);
    assert!(update(&mut app, Event::SwitchInput).is_ok());
    assert_eq!(app.input_mode, InputMode::Normal);
}

#[test]
fn key_input_outside_editing_is_fatal() {
    let mut app = App::new(0);
    let r = update(&mut app, Event::KeyInput(InputKey::Char('1'), InputBlacklist::Numeric));
    assert_eq!(r, Err(LogicError::KeyInputWhileNormal));
}

#[test]
fn key_input_feeds_the_edited_buffer_through_the_filter() {
    let mut app = App::new(0);
    app.input_mode = InputMode::Editing(0);
    app.input.0 = chars("12.3");
    assert!(update(&mut app, Event::KeyInput(InputKey::Char('4'), InputBlacklist::Money)).is_ok());
    assert_eq!(app.input.0, chars("12.34"));
    assert!(update(&mut app, Event::KeyInput(InputKey::Char('5'), InputBlacklist::Money)).is_ok());
    assert_eq!(app.input.0, chars("12.34"));
}

#[test]
fn backspace_removes_the_last_character() {
    let mut app = App::new(0);
    app.input_mode = InputMode::Editing(0);
    app.input.0 = chars("12.34");
    app.input.1 = chars("keep");
    assert!(update(&mut app, Event::KeyInput(InputKey::Backspace, InputBlacklist::Money)).is_ok());
    assert_eq!(app.input.0, chars("12.3"));
    assert_eq!(app.input.1, chars("keep"));
    // The freed place takes a digit again.
    assert!(update(&mut app, Event::KeyInput(InputKey::Char('9'), InputBlacklist::Money)).is_ok());
    assert_eq!(app.input.0, chars("12.39"));
}

#[test]
fn backspace_on_empty_buffer_is_noop() {
    let mut app = App::new(0);
    app.input_mode = InputMode::Editing(1);
    assert!(update(&mut app, Event::KeyInput(InputKey::Backspace, InputBlacklist::NoFilter)).is_ok());
    assert!(app.input.1.is_empty());
    assert!(app.input.0.is_empty());
}

#[test]
fn backspace_outside_editing_is_fatal() {
    let mut app = App::new(0);
    let r = update(&mut app, Event::KeyInput(InputKey::Backspace, InputBlacklist::NoFilter));
    assert_eq!(r, Err(LogicError::KeyInputWhileNormal));
}

#[test]
fn fetched_screen_outcome_commits_or_surfaces() {
    let mut app = client_app(SubScreen::ClientMain);
    apply_fetched_screen(
        &mut app,
        Screen::Client(SubScreen::ClientLockerPackages),
        Err(StoreError::Io),
    );
    assert_eq!(app.active_screen, Screen::Client(SubScreen::ClientMain));
    assert_eq!(app.active_popup, Some(Popup::DisplayMsg));

    let mut app = client_app(SubScreen::ClientMain);
    apply_fetched_screen(
        &mut app,
        Screen::Client(SubScreen::ClientLockerPackages),
        Ok(FetchedData::Packages(vec![Package { tracking_number: 7, weight_grams: 10 }])),
    );
    assert_eq!(app.active_screen, Screen::Client(SubScreen::ClientLockerPackages));
    assert!(app.active_popup.is_none());
}

#[test]
fn locker_outcome_surfaces_domain_failures() {
    let mut app = client_app(SubScreen::ClientLockerPackages);
    apply_locker_outcome(&mut app, &String::from("ana"), Some(target_locker("eve")));
    assert_eq!(app.active_popup, Some(Popup::DisplayMsg));
    match &app.user {
        Some(User::Client(cd)) => assert!(cd.send_to_locker.is_none()),
        other => panic!("unexpected role: {:?}", other),
    }

    let mut app = client_app(SubScreen::ClientLockerPackages);
    apply_locker_outcome(&mut app, &String::from("ana"), Some(target_locker("ana")));
    assert_eq!(app.active_popup, Some(Popup::ClientInputPayment));
}

#[test]
fn money_check_follows_the_edited_field() {
    // A '.' in the idle buffer must not block a '.' typed into the other.
    let mut app = App::new(0);
    app.input_mode = InputMode::Editing(1);
    app.input.0 = chars("1.0");
    assert!(update(&mut app, Event::KeyInput(InputKey::Char('.'), InputBlacklist::Money)).is_ok());
    assert_eq!(app.input.1, chars("."));
}

#[test]
fn locker_request_parses_typed_id() {
    let mut app = client_app(SubScreen::ClientLockerPackages);
    let r = update(&mut app, Event::TryGetUserLocker(String::from("ana"), chars("77")));
    match r {
        Ok(IoRequest::LockerLookup { username, locker_id }) => {
            assert_eq!(username, "ana");
            assert_eq!(locker_id, 77);
        },
        other => panic!("unexpected dispatch outcome: {:?}", other),
    }
}

#[test]
fn locker_request_with_bad_id_is_fatal() {
    let mut app = client_app(SubScreen::ClientLockerPackages);
    let r = update(&mut app, Event::TryGetUserLocker(String::from("ana"), chars("7a")));
    assert_eq!(r, Err(LogicError::InvalidLockerId));
}

#[test]
fn login_event_carries_typed_credentials() {
    let mut app = App::new(0);
    app.active_screen = Screen::Login;
    app.input.0 = chars("ana");
    app.input.1 = chars("secret");
    let r = update(&mut app, Event::TryLogin);
    match r {
        Ok(IoRequest::LoginAttempt { username, password }) => {
            assert_eq!(username, chars("ana"));
            assert_eq!(password, chars("secret"));
        },
        other => panic!("unexpected dispatch outcome: {:?}", other),
    }
}

#[test]
fn enter_screen_event_without_fetch_commits_at_once() {
    let mut app = client_app(SubScreen::ClientMain);
    let r = update(&mut app, Event::EnterScreen(Screen::Client(SubScreen::ClientLockers)));
    assert!(matches!(r, Ok(IoRequest::NoIo)));
    assert_eq!(app.active_screen, Screen::Client(SubScreen::ClientLockers));
}

#[test]
fn enter_screen_event_with_fetch_asks_the_loop() {
    let mut app = client_app(SubScreen::ClientMain);
    let r = update(
        &mut app,
        Event::EnterScreen(Screen::Client(SubScreen::ClientSentPackages)),
    );
    match r {
        Ok(IoRequest::FetchForScreen(s)) => {
            assert_eq!(s, Screen::Client(SubScreen::ClientSentPackages));
        },
        other => panic!("unexpected dispatch outcome: {:?}", other),
    }
    assert_eq!(app.active_screen, Screen::Client(SubScreen::ClientMain));
}

#[test]
fn rejected_screen_request_surfaces_a_message() {
    let mut app = App::new(0);
    let r = update(&mut app, Event::EnterScreen(Screen::Client(SubScreen::ClientMain)));
    assert!(matches!(r, Ok(IoRequest::NoIo)));
    assert_eq!(app.active_screen, Screen::Title);
    assert_eq!(app.active_popup, Some(Popup::DisplayMsg));
}

#[test]
fn select_action_resolves_the_selected_index() {
    let mut app = client_app(SubScreen::ClientMain);
    app.action_sel = Some(0);
    let r = update(&mut app, Event::SelectAction);
    assert!(matches!(r, Ok(IoRequest::NoIo)));
    assert_eq!(app.active_screen, Screen::Client(SubScreen::ClientLockers));
}

#[test]
fn select_action_under_order_popup_opens_order_popup() {
    let mut app = client_app(SubScreen::ClientLockerPackages);
    app.active_popup = Some(Popup::ClientOrderMain);
    app.action_sel = Some(1);
    let r = update(&mut app, Event::SelectAction);
    assert!(matches!(r, Ok(IoRequest::NoIo)));
    assert_eq!(app.active_popup, Some(Popup::ClientOrderBranch));
    assert_eq!(app.input_mode, InputMode::Editing(0));
}

#[test]
fn select_action_without_selection_is_noop() {
    let mut app = client_app(SubScreen::ClientMain);
    let r = update(&mut app, Event::SelectAction);
    assert!(matches!(r, Ok(IoRequest::NoIo)));
    assert_eq!(app.active_screen, Screen::Client(SubScreen::ClientMain));
}

fn admin_on_guides(guides: Vec<ShippingGuide>) -> App {
    let mut app = App::new(0);
    app.user = Some(User::PkgAdmin(PkgAdminData {
        username: String::from("bo"),
        branch_id: 19,
        add_package: None,
    }));
    app.active_screen = Screen::PkgAdmin(SubScreen::PkgAdminGuides);
    app.shipping_guides.viewing_guides = guides;
    app
}

#[test]
fn list_navigation_wraps_in_the_guides_view() {
    let mut app = admin_on_guides(vec![
        ShippingGuide { guide_id: 1, package_count: 2 },
        ShippingGuide { guide_id: 2, package_count: 0 },
    ]);
    assert!(update(&mut app, Event::NextListItem).is_ok());
    assert_eq!(app.shipping_guides.viewing_guides_idx, 1);
    assert!(update(&mut app, Event::NextListItem).is_ok());
    assert_eq!(app.shipping_guides.viewing_guides_idx, 0);
    assert!(update(&mut app, Event::PrevListItem).is_ok());
    assert_eq!(app.shipping_guides.viewing_guides_idx, 1);
}

#[test]
fn list_selection_commits_the_guide_and_asks_for_its_payment() {
    let mut app = admin_on_guides(vec![
        ShippingGuide { guide_id: 1, package_count: 2 },
        ShippingGuide { guide_id: 2, package_count: 0 },
    ]);
    assert!(update(&mut app, Event::NextListItem).is_ok());
    let r = update(&mut app, Event::SelectListItem);
    match r {
        Ok(IoRequest::FetchForScreen(s)) => {
            assert_eq!(s, Screen::PkgAdmin(SubScreen::PkgAdminGuideInfo));
        },
        other => panic!("unexpected dispatch outcome: {:?}", other),
    }
    assert_eq!(app.shipping_guides.active_guide, Some(ShippingGuide {
        guide_id: 2,
        package_count: 0,
    }));
}

#[test]
fn list_event_off_the_guides_view_is_fatal() {
    let mut app = App::new(0);
    assert_eq!(update(&mut app, Event::NextListItem), Err(LogicError::UnhandledEvent));
}

#[test]
fn table_navigation_wraps_in_the_packages_view() {
    let mut app = client_app(SubScreen::ClientSentPackages);
    app.packages.viewing_packages = vec![
        Package { tracking_number: 1, weight_grams: 10 },
        Package { tracking_number: 2, weight_grams: 20 },
        Package { tracking_number: 3, weight_grams: 30 },
    ];
    assert!(update(&mut app, Event::PrevTableItem).is_ok());
    assert_eq!(app.packages.viewing_packages_idx, 2);
    assert!(update(&mut app, Event::NextTableItem).is_ok());
    assert_eq!(app.packages.viewing_packages_idx, 0);
    assert!(update(&mut app, Event::SelectTableItem).is_ok());
    assert_eq!(app.packages.active_package, Some(Package {
        tracking_number: 1,
        weight_grams: 10,
    }));
}

#[test]
fn table_event_off_the_package_views_is_fatal() {
    let mut app = App::new(0);
    assert_eq!(update(&mut app, Event::SelectTableItem), Err(LogicError::UnhandledEvent));
}

//! Data model of the session: navigation enums, input state, timers,
//! list-view aggregates, payment draft and domain errors.

use vstd::prelude::*;
use crate::db_obj::{Locker, Package, Payment, ShippingGuide};
use crate::graph::WarehouseNode;

verus! {

/// Top-level navigation location; exactly one is active per session.
#[derive(Debug, Clone, Copy, PartialEq, Eq, Structural)]
pub enum Screen {
    Title,
    Settings,
    Login,
    Client(SubScreen),
    PkgAdmin(SubScreen),
}

/// Nested navigation location, meaningful only under its parent `Screen`
/// family.
#[derive(Debug, Clone, Copy, PartialEq, Eq, Structural)]
pub enum SubScreen {
    ClientMain,
    ClientLockers,
    ClientLockerPackages,
    ClientSentPackages,

    PkgAdminMain,
    PkgAdminGuides,
    PkgAdminGuideInfo,
    PkgAdminAddPackage(Div),
}

/// Which half of a split screen holds the focus.
#[derive(Debug, Clone, Copy, PartialEq, Eq, Structural)]
pub enum Div {
    Left,
    Right,
}

impl Screen {
    /// The name under which a screen is shown, e.g. in the frame title.
    pub open spec fn label_spec(self) -> Seq<char> {
        match self {
            Screen::Title => "Title"@,
            Screen::Settings => "Settings"@,
            Screen::Login => "Login"@,
            Screen::Client(_) => "Client"@,
            Screen::PkgAdmin(_) => "Package Admin"@,
        }
    }

    pub fn label(&self) -> (r: String)
        ensures
            r@ == self.label_spec(),
    {
        match self {
            Screen::Title => "Title".to_owned(),
            Screen::Settings => "Settings".to_owned(),
            Screen::Login => "Login".to_owned(),
            Screen::Client(_) => "Client".to_owned(),
            Screen::PkgAdmin(_) => "Package Admin".to_owned(),
        }
    }
}

/// Modal overlay, orthogonal to `Screen`/`SubScreen`; at most one is active.
#[derive(Debug, Clone, Copy, PartialEq, Eq, Structural)]
pub enum Popup {
    Prev,
    OrderSuccessful,
    DisplayMsg,

    LoginSuccessful,

    ClientOrderMain,
    ClientOrderLocker,
    ClientOrderBranch,
    ClientOrderDelivery,
    ClientInputPayment,

    FieldExcess,
}

/// The authenticated role of the session; created on login success,
/// destroyed on logout or quit.
#[derive(Debug)]
pub enum User {
    Client(ClientData),
    PkgAdmin(PkgAdminData),
}

/// Role data of a customer session.
#[derive(Debug)]
pub struct ClientData {
    pub username: String,
    /// The client's own locker.
    pub locker_id: i64,
    /// Target locker of an order in progress, set once its checks passed.
    pub send_to_locker: Option<Locker>,
}

/// Role data of a warehouse administrator session.
#[derive(Debug)]
pub struct PkgAdminData {
    pub username: String,
    /// Home branch of the administrator.
    pub branch_id: i32,
    /// Draft of a package being registered, if one is open.
    pub add_package: Option<AddPackageData>,
}

/// In-progress package registration of an administrator.
#[derive(Debug)]
pub struct AddPackageData {
    /// Destination branch id as typed so far.
    pub branch_input: Vec<char>,
    /// Route committed for the draft, once the route service answered.
    pub route: Option<Vec<WarehouseNode>>,
    /// Total distance committed with the route.
    pub route_distance: Option<i64>,
}

/// Whether keystrokes feed the input buffers, and which of the two.
#[derive(Debug, Clone, Copy, PartialEq, Eq, Structural)]
pub enum InputMode {
    Normal,
    /// The value is the index of the `InputFields` buffer being edited.
    Editing(u8),
}

/// The two text buffers behind every editing screen or popup.
#[derive(Debug)]
pub struct InputFields(pub Vec<char>, pub Vec<char>);

/// The purposes for which the session keeps an independent countdown.
#[derive(Eq, PartialEq, Hash, Debug, Clone, Copy, Structural)]
pub enum TimeoutType {
    Resize,
    CubeTick,
    Login,
    GetUserDelivery,
}

/// Per-purpose countdown state.  Instants are carried as milliseconds so
/// that due-ness is a plain comparison; the event source supplies the
/// current instant.
#[derive(Debug, Clone, Copy, PartialEq, Eq, Structural)]
pub struct Timer {
    /// Elapsed ticks, for purposes that detect expiry.
    pub counter: u8,
    pub tick_rate_ms: u64,
    pub last_update_ms: u64,
}

impl Timer {
    /// A timer is due once a full tick rate has passed since its last update.
    pub fn due(&self, now_ms: u64) -> (r: bool)
        ensures
            r == (now_ms as int >= self.last_update_ms as int + self.tick_rate_ms as int),
    {
        match now_ms.checked_sub(self.last_update_ms) {
            Some(elapsed) => elapsed >= self.tick_rate_ms,
            None => false,
        }
    }
}

/// One timer per `TimeoutType`, independent of the others.
#[derive(Debug, Clone, Copy, PartialEq, Eq, Structural)]
pub struct Timers {
    pub resize: Timer,
    pub cube_tick: Timer,
    pub login: Timer,
    pub get_user_delivery: Timer,
}

/// List-view state of the packages a role is looking at.
#[derive(Debug)]
pub struct PackageData {
    pub viewing_packages: Vec<Package>,
    pub viewing_packages_idx: i64,
    pub selected_packages: Option<Vec<Package>>,
    pub active_package: Option<Package>,
}

impl std::default::Default for PackageData {
    fn default() -> (r: Self)
        ensures
            r.viewing_packages@ == Seq::<Package>::empty(),
            r.viewing_packages_idx == 0,
            r.selected_packages is None,
            r.active_package is None,
    {
        PackageData {
            viewing_packages: Vec::new(),
            viewing_packages_idx: 0,
            selected_packages: None,
            active_package: None,
        }
    }
}

/// List-view state of the shipping guides an administrator is looking at.
#[derive(Debug)]
pub struct ShippingGuideData {
    pub viewing_guides: Vec<ShippingGuide>,
    pub viewing_guides_idx: i64,
    pub active_guide: Option<ShippingGuide>,
    pub active_guide_payment: Option<Payment>,
}

impl std::default::Default for ShippingGuideData {
    fn default() -> (r: Self)
        ensures
            r.viewing_guides@ == Seq::<ShippingGuide>::empty(),
            r.viewing_guides_idx == 0,
            r.active_guide is None,
            r.active_guide_payment is None,
    {
        ShippingGuideData {
            viewing_guides: Vec::new(),
            viewing_guides_idx: 0,
            active_guide: None,
            active_guide_payment: None,
        }
    }
}

/// Payment processors a payment can be drawn on.
#[derive(Debug, Clone, Copy, PartialEq, Eq, Structural)]
pub enum Bank {
    PayPal,
    BOFA,
    AmazonPay,
}

impl Bank {
    /// The name under which a bank is shown.
    pub open spec fn label_spec(self) -> Seq<char> {
        match self {
            Bank::PayPal => "PayPal"@,
            Bank::BOFA => "BOFA"@,
            Bank::AmazonPay => "AmazonPay"@,
        }
    }

    pub fn label(&self) -> (r: String)
        ensures
            r@ == self.label_spec(),
    {
        match self {
            Bank::PayPal => "PayPal".to_owned(),
            Bank::BOFA => "BOFA".to_owned(),
            Bank::AmazonPay => "AmazonPay".to_owned(),
        }
    }
}

/// In-progress payment draft, held until the order is confirmed.
/// Amounts are carried in cents; the money input filter admits at most two
/// digits after the decimal point, so no typed amount loses precision.
#[derive(Debug)]
pub struct PaymentData {
    pub amount_cents: u64,
    pub transaction_id: String,
    pub bank: Bank,
}

/// Domain validation failures raised when a transition's preconditions fail
/// against fetched data.  All are recoverable: navigation is aborted and the
/// failure is surfaced as a message popup.
#[derive(Debug, Clone, Copy, PartialEq, Eq, Structural)]
pub enum GetDBErr {
    LockerSameAsActive,
    InvalidUserLocker,
    LockerTooManyPackages,
    /// Carries the weight, in grams, the locker would reach.
    LockerWeightTooBig(u64),

    InvalidUserBranch,

    InvalidUserDelivery(u8),
    NoCompatBranchDelivery,
}

impl GetDBErr {
    /// The message shown for the failure in the message popup.
    pub open spec fn label_spec(self) -> Seq<char> {
        match self {
            GetDBErr::LockerSameAsActive => "The target locker is the active locker"@,
            GetDBErr::InvalidUserLocker => "The locker does not belong to this user"@,
            GetDBErr::LockerTooManyPackages => "The locker holds too many packages"@,
            GetDBErr::LockerWeightTooBig(_) => "The locker weight limit would be exceeded"@,
            GetDBErr::InvalidUserBranch => "No branch exists with this id"@,
            GetDBErr::InvalidUserDelivery(_) => "The delivery is not valid for this user"@,
            GetDBErr::NoCompatBranchDelivery => "No delivery is compatible with this branch"@,
        }
    }

    pub fn label(&self) -> (r: String)
        ensures
            r@ == self.label_spec(),
    {
        match self {
            GetDBErr::LockerSameAsActive => "The target locker is the active locker".to_owned(),
            GetDBErr::InvalidUserLocker => "The locker does not belong to this user".to_owned(),
            GetDBErr::LockerTooManyPackages => "The locker holds too many packages".to_owned(),
            GetDBErr::LockerWeightTooBig(_) => "The locker weight limit would be exceeded".to_owned(),
            GetDBErr::InvalidUserBranch => "No branch exists with this id".to_owned(),
            GetDBErr::InvalidUserDelivery(_) => "The delivery is not valid for this user".to_owned(),
            GetDBErr::NoCompatBranchDelivery => "No delivery is compatible with this branch".to_owned(),
        }
    }
}

} // verus!

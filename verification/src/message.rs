use crate::identity::{ActorId, ReservationId};
use vstd::prelude::*;

verus! {

/// Number that correlates a request to a peer with its reply.
pub type TransactionId = u64;

/// Number of an attribute in the store.
pub type AttributeId = u32;

/// What the host knows of the message being handled.
#[derive(Clone, Copy, Debug)]
pub struct Context {
    /// Who sent the message.
    pub source: ActorId,
    /// Height of the current block.
    pub block_height: u64,
    /// Timestamp of the current block.
    pub block_timestamp: u64,
}

/// A request made of the pet.
#[derive(Clone, Copy, Debug, PartialEq, Eq)]
pub enum TmgAction {
    Name,
    Age,
    Feed,
    Entertain,
    Sleep,
    Transfer(ActorId),
    Approve(ActorId),
    RevokeApproval,
    SetFTokenContract(ActorId),
    ApproveTokens { account: ActorId, amount: u128 },
    BuyAttribute { store_id: ActorId, attribute_id: AttributeId },
    CheckState,
    ReserveGas { reservation_amount: u64, duration: u32 },
}

/// What the pet reports.
#[derive(Clone, Debug, PartialEq, Eq)]
pub enum TmgEvent {
    Name(String),
    Age(u64),
    Fed,
    Entertained,
    Slept,
    Transferred(ActorId),
    Approved(ActorId),
    ApprovalRevoked,
    FTokenContractSet,
    TokensApproved { account: ActorId, amount: u128 },
    ApprovalError,
    AttributeBought(AttributeId),
    CompletePrevPurchase(AttributeId),
    ErrorDuringPurchase,
    FeedMe,
    PlayWithMe,
    WantToSleep,
    MakeReservation,
    GasReserved,
}

/// A report as contracts see it: the name is a sequence of characters.
pub enum TmgEventView {
    Name(Seq<char>),
    Age(u64),
    Fed,
    Entertained,
    Slept,
    Transferred(ActorId),
    Approved(ActorId),
    ApprovalRevoked,
    FTokenContractSet,
    TokensApproved { account: ActorId, amount: u128 },
    ApprovalError,
    AttributeBought(AttributeId),
    CompletePrevPurchase(AttributeId),
    ErrorDuringPurchase,
    FeedMe,
    PlayWithMe,
    WantToSleep,
    MakeReservation,
    GasReserved,
}

impl View for TmgEvent {
    type V = TmgEventView;

    open spec fn view(&self) -> TmgEventView {
        match *self {
            TmgEvent::Name(name) => TmgEventView::Name(name@),
            TmgEvent::Age(age) => TmgEventView::Age(age),
            TmgEvent::Fed => TmgEventView::Fed,
            TmgEvent::Entertained => TmgEventView::Entertained,
            TmgEvent::Slept => TmgEventView::Slept,
            TmgEvent::Transferred(owner) => TmgEventView::Transferred(owner),
            TmgEvent::Approved(account) => TmgEventView::Approved(account),
            TmgEvent::ApprovalRevoked => TmgEventView::ApprovalRevoked,
            TmgEvent::FTokenContractSet => TmgEventView::FTokenContractSet,
            TmgEvent::TokensApproved { account, amount } => TmgEventView::TokensApproved {
                account,
                amount,
            },
            TmgEvent::ApprovalError => TmgEventView::ApprovalError,
            TmgEvent::AttributeBought(id) => TmgEventView::AttributeBought(id),
            TmgEvent::CompletePrevPurchase(id) => TmgEventView::CompletePrevPurchase(id),
            TmgEvent::ErrorDuringPurchase => TmgEventView::ErrorDuringPurchase,
            TmgEvent::FeedMe => TmgEventView::FeedMe,
            TmgEvent::PlayWithMe => TmgEventView::PlayWithMe,
            TmgEvent::WantToSleep => TmgEventView::WantToSleep,
            TmgEvent::MakeReservation => TmgEventView::MakeReservation,
            TmgEvent::GasReserved => TmgEventView::GasReserved,
        }
    }
}

/// Why a request was refused.
#[derive(Clone, Copy, Debug, PartialEq, Eq, Structural)]
pub enum TmgError {
    /// The sender is not the owner.
    Unauthorized,
    /// No pet has been created yet.
    NotInitialized,
    /// A pet has been created already.
    AlreadyInitialized,
    /// The host could not make the reservation.
    ReservationRejected,
    /// A reply came for a request that is not awaited.
    UnknownTransaction,
}

/// How a request to a peer ended.
#[derive(Clone, Copy, Debug, PartialEq, Eq, Structural)]
pub enum PeerReply {
    /// The peer did what was asked.
    Ack,
    /// The peer answered with an error, or did not answer in time.
    Failed,
}

/// A request to the token ledger to approve spending.
#[derive(Clone, Copy, Debug, PartialEq, Eq)]
pub struct LedgerRequest {
    pub ledger: ActorId,
    pub transaction_id: TransactionId,
    pub account: ActorId,
    pub amount: u128,
}

/// A request to a store to sell an attribute.
#[derive(Clone, Copy, Debug, PartialEq, Eq)]
pub struct StoreRequest {
    pub store: ActorId,
    pub transaction_id: TransactionId,
    pub attribute_id: AttributeId,
}

/// A request to the host to set execution credit aside.
#[derive(Clone, Copy, Debug, PartialEq, Eq)]
pub struct ReservationRequest {
    pub amount: u64,
    pub duration: u32,
}

/// What the pet asks of its owner when a score has run low.
#[derive(Clone, Copy, Debug, PartialEq, Eq, Structural)]
pub enum Alert {
    FeedMe,
    PlayWithMe,
    WantToSleep,
}

impl Alert {
    /// The report that carries this alert.
    pub open spec fn event_view(self) -> TmgEventView {
        match self {
            Alert::FeedMe => TmgEventView::FeedMe,
            Alert::PlayWithMe => TmgEventView::PlayWithMe,
            Alert::WantToSleep => TmgEventView::WantToSleep,
        }
    }

    /// The report that carries this alert.
    pub fn event(self) -> (e: TmgEvent)
        ensures
            e@ == self.event_view(),
    {
        match self {
            Alert::FeedMe => TmgEvent::FeedMe,
            Alert::PlayWithMe => TmgEvent::PlayWithMe,
            Alert::WantToSleep => TmgEvent::WantToSleep,
        }
    }
}

/// An alert to send to the owner, paid from one reservation.
#[derive(Clone, Copy, Debug, PartialEq, Eq)]
pub struct Notification {
    pub reservation: ReservationId,
    pub owner: ActorId,
    pub alert: Alert,
}

/// What one check of the pet's state asks of the host.
#[derive(Clone, Debug, PartialEq, Eq)]
pub struct CheckReport {
    /// Alerts to send, each from its reservation, in this order.
    pub notifications: Vec<Notification>,
    /// Alerts that were due and for which no reservation was left.
    pub unfunded: Vec<Alert>,
    /// Blocks after which the host delivers the next check.
    pub next_check_delay: u32,
}

/// A check's requests as contracts see them.
pub struct CheckReportView {
    pub notifications: Seq<Notification>,
    pub unfunded: Seq<Alert>,
    pub next_check_delay: u32,
}

impl View for CheckReport {
    type V = CheckReportView;

    open spec fn view(&self) -> CheckReportView {
        CheckReportView {
            notifications: self.notifications@,
            unfunded: self.unfunded@,
            next_check_delay: self.next_check_delay,
        }
    }
}

/// What the host does after the pet has handled a request.
#[derive(Clone, Debug, PartialEq, Eq)]
pub enum Outcome {
    /// Reply to the sender; the request is done.
    Reply(TmgEvent),
    /// Send the request to the ledger, await its reply and hand it back.
    AskLedger(LedgerRequest),
    /// Send the request to the store, await its reply and hand it back.
    AskStore(StoreRequest),
    /// Make the reservation and hand back how that went.
    AskReservation(ReservationRequest),
    /// Send the alerts and schedule the next check.
    Checked(CheckReport),
}

/// An outcome as contracts see it.
pub enum OutcomeView {
    Reply(TmgEventView),
    AskLedger(LedgerRequest),
    AskStore(StoreRequest),
    AskReservation(ReservationRequest),
    Checked(CheckReportView),
}

impl View for Outcome {
    type V = OutcomeView;

    open spec fn view(&self) -> OutcomeView {
        match *self {
            Outcome::Reply(event) => OutcomeView::Reply(event@),
            Outcome::AskLedger(request) => OutcomeView::AskLedger(request),
            Outcome::AskStore(request) => OutcomeView::AskStore(request),
            Outcome::AskReservation(request) => OutcomeView::AskReservation(request),
            Outcome::Checked(report) => OutcomeView::Checked(report@),
        }
    }
}

} // verus!

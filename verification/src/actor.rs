use crate::identity::ReservationId;
use crate::mediator::purchase_event;
use crate::message::{
    Context, Outcome, OutcomeView, PeerReply, ReservationRequest, TmgAction, TmgError, TmgEvent,
    TmgEventView, TransactionId,
};
use crate::pet::{Tamagotchi, TamagotchiView};
use crate::scheduler::TIME_INTERVAL;
use vstd::prelude::*;

verus! {

/// What the host hands back after it has done what an outcome asked for.
#[derive(Clone, Copy, Debug, PartialEq, Eq)]
pub enum HostReply {
    /// How the ledger answered request `transaction_id`.
    Ledger { transaction_id: TransactionId, reply: PeerReply },
    /// How the store answered request `transaction_id`.
    Store { transaction_id: TransactionId, reply: PeerReply },
    /// The reservation that was made, or none where the host rejected it.
    Reservation { reserved: Option<ReservationId> },
}

/// The pet after a message, and what came of the message.
pub struct Transition {
    pub state: TamagotchiView,
    pub result: Result<OutcomeView, TmgError>,
}

/// The pet after a reply of the host, and what is reported to the sender.
pub struct Resumption {
    pub state: TamagotchiView,
    pub result: Result<TmgEventView, TmgError>,
}

/// The pet `state` answers with `event`.
pub open spec fn replied(state: TamagotchiView, event: TmgEventView) -> Transition {
    Transition { state, result: Ok(OutcomeView::Reply(event)) }
}

/// The pet `state` refuses with `error` and stays as it is.
pub open spec fn refused(state: TamagotchiView, error: TmgError) -> Transition {
    Transition { state, result: Err(error) }
}

/// An outcome or error as contracts see it.
pub open spec fn outcome_view(r: Result<Outcome, TmgError>) -> Result<OutcomeView, TmgError> {
    match r {
        Ok(outcome) => Ok(outcome@),
        Err(error) => Err(error),
    }
}

/// A report or error as contracts see it.
pub open spec fn event_view(r: Result<TmgEvent, TmgError>) -> Result<TmgEventView, TmgError> {
    match r {
        Ok(event) => Ok(event@),
        Err(error) => Err(error),
    }
}

impl TamagotchiView {
    /// What the pet does with `action` in the context `ctx`.
    ///
    /// Anybody may ask for the name and the age, care for the pet, ask for
    /// an approval of tokens or a purchase, and trigger a check. Only the
    /// owner transfers, approves, revokes, names the ledger and reserves;
    /// from anybody else these are refused and change nothing.
    pub open spec fn step(self, action: TmgAction, ctx: Context) -> Transition {
        match action {
            TmgAction::Name => replied(self, TmgEventView::Name(self.name)),
            TmgAction::Age => replied(self, TmgEventView::Age(self.age_at(ctx.block_timestamp))),
            TmgAction::Feed => replied(self.after_feed(ctx.block_height), TmgEventView::Fed),
            TmgAction::Entertain => replied(
                self.after_entertain(ctx.block_height),
                TmgEventView::Entertained,
            ),
            TmgAction::Sleep => replied(self.after_sleep(ctx.block_height), TmgEventView::Slept),
            TmgAction::Transfer(new_owner) => if self.is_owner(ctx.source) {
                replied(self.transferred(new_owner), TmgEventView::Transferred(new_owner))
            } else {
                refused(self, TmgError::Unauthorized)
            },
            TmgAction::Approve(account) => if self.is_owner(ctx.source) {
                replied(self.approved(account), TmgEventView::Approved(account))
            } else {
                refused(self, TmgError::Unauthorized)
            },
            TmgAction::RevokeApproval => if self.is_owner(ctx.source) {
                replied(self.revoked(), TmgEventView::ApprovalRevoked)
            } else {
                refused(self, TmgError::Unauthorized)
            },
            TmgAction::SetFTokenContract(ledger) => if self.is_owner(ctx.source) {
                replied(self.ledger_set(ledger), TmgEventView::FTokenContractSet)
            } else {
                refused(self, TmgError::Unauthorized)
            },
            TmgAction::ApproveTokens { account, amount } => match self.ledger_request(
                account,
                amount,
            ) {
                Some(request) => Transition {
                    state: self.approval_asked(request),
                    result: Ok(OutcomeView::AskLedger(request)),
                },
                None => replied(self, TmgEventView::ApprovalError),
            },
            TmgAction::BuyAttribute { store_id, attribute_id } => Transition {
                state: self.purchase_asked(store_id, attribute_id),
                result: Ok(
                    match self.store_request(store_id, attribute_id) {
                        Some(request) => OutcomeView::AskStore(request),
                        None => OutcomeView::Reply(TmgEventView::ErrorDuringPurchase),
                    },
                ),
            },
            TmgAction::CheckState => Transition {
                state: self.after_check(ctx.block_height),
                result: Ok(OutcomeView::Checked(self.check_report(ctx.block_height))),
            },
            TmgAction::ReserveGas { reservation_amount, duration } => if self.is_owner(
                ctx.source,
            ) {
                Transition {
                    state: self,
                    result: Ok(
                        OutcomeView::AskReservation(
                            ReservationRequest { amount: reservation_amount, duration },
                        ),
                    ),
                }
            } else {
                refused(self, TmgError::Unauthorized)
            },
        }
    }

    /// What the pet does with the host's `reply` to a request that the message
    /// of context `ctx` gave rise to.
    pub open spec fn resumed(self, reply: HostReply, ctx: Context) -> Resumption {
        match reply {
            HostReply::Ledger { transaction_id, reply } => if self.awaits_ledger(transaction_id) {
                Resumption { state: self.approval_closed(), result: Ok(self.approval_event(reply)) }
            } else {
                Resumption { state: self, result: Err(TmgError::UnknownTransaction) }
            },
            HostReply::Store { transaction_id, reply } => if !self.awaits_store(transaction_id) {
                Resumption { state: self, result: Err(TmgError::UnknownTransaction) }
            } else if reply == PeerReply::Ack {
                Resumption {
                    state: self.purchase_closed(),
                    result: Ok(purchase_event(self.pending_purchase->0)),
                }
            } else {
                Resumption { state: self, result: Ok(TmgEventView::ErrorDuringPurchase) }
            },
            HostReply::Reservation { reserved } => if !self.is_owner(ctx.source) {
                Resumption { state: self, result: Err(TmgError::Unauthorized) }
            } else if reserved is Some {
                Resumption {
                    state: self.reservation_added(reserved->0),
                    result: Ok(TmgEventView::GasReserved),
                }
            } else {
                Resumption { state: self, result: Err(TmgError::ReservationRejected) }
            },
        }
    }
}

impl Tamagotchi {
    /// Handles one message: the pet moves as `step` says, and the outcome
    /// tells the host what to do next.
    pub fn handle(&mut self, action: TmgAction, ctx: &Context) -> (r: Result<Outcome, TmgError>)
        ensures
            final(self)@ == old(self)@.step(action, *ctx).state,
            outcome_view(r) == old(self)@.step(action, *ctx).result,
    {
        match action {
            TmgAction::Name => Ok(Outcome::Reply(self.name())),
            TmgAction::Age => Ok(Outcome::Reply(self.age(ctx.block_timestamp))),
            TmgAction::Feed => Ok(Outcome::Reply(self.feed(ctx.block_height))),
            TmgAction::Entertain => Ok(Outcome::Reply(self.entertain(ctx.block_height))),
            TmgAction::Sleep => Ok(Outcome::Reply(self.sleep(ctx.block_height))),
            TmgAction::Transfer(new_owner) => match self.transfer(&ctx.source, new_owner) {
                Ok(event) => Ok(Outcome::Reply(event)),
                Err(error) => Err(error),
            },
            TmgAction::Approve(account) => match self.approve(&ctx.source, account) {
                Ok(event) => Ok(Outcome::Reply(event)),
                Err(error) => Err(error),
            },
            TmgAction::RevokeApproval => match self.revoke_approval(&ctx.source) {
                Ok(event) => Ok(Outcome::Reply(event)),
                Err(error) => Err(error),
            },
            TmgAction::SetFTokenContract(ledger) => match self.set_ftoken_contract(
                &ctx.source,
                ledger,
            ) {
                Ok(event) => Ok(Outcome::Reply(event)),
                Err(error) => Err(error),
            },
            TmgAction::ApproveTokens { account, amount } => Ok(
                self.approve_tokens(&account, amount),
            ),
            TmgAction::BuyAttribute { store_id, attribute_id } => Ok(
                self.buy_attribute(store_id, attribute_id),
            ),
            TmgAction::CheckState => Ok(Outcome::Checked(self.check_state(ctx.block_height))),
            TmgAction::ReserveGas { reservation_amount, duration } => match self.reserve_gas(
                &ctx.source,
                reservation_amount,
                duration,
            ) {
                Ok(request) => Ok(Outcome::AskReservation(request)),
                Err(error) => Err(error),
            },
        }
    }

    /// Takes the host's reply to what an outcome asked for: the pet moves as
    /// `resumed` says, and the report goes to the sender of the message.
    pub fn resume(&mut self, reply: HostReply, ctx: &Context) -> (r: Result<TmgEvent, TmgError>)
        ensures
            final(self)@ == old(self)@.resumed(reply, *ctx).state,
            event_view(r) == old(self)@.resumed(reply, *ctx).result,
    {
        match reply {
            HostReply::Ledger { transaction_id, reply } => self.ledger_replied(
                transaction_id,
                reply,
            ),
            HostReply::Store { transaction_id, reply } => self.store_replied(transaction_id, reply),
            HostReply::Reservation { reserved } => self.add_reservation(&ctx.source, reserved),
        }
    }
}

/// The actor's state: no pet before initialization, one pet ever after.
pub struct Actor {
    pet: Option<Tamagotchi>,
}

impl View for Actor {
    type V = Option<TamagotchiView>;

    closed spec fn view(&self) -> Option<TamagotchiView> {
        match self.pet {
            Some(pet) => Some(pet@),
            None => None,
        }
    }
}

impl Actor {
    /// An actor that has not been initialized.
    pub fn new() -> (actor: Actor)
        ensures
            actor@ is None,
    {
        Actor { pet: None }
    }

    /// Whether the pet exists.
    pub fn is_initialized(&self) -> (b: bool)
        ensures
            b == (self@ is Some),
    {
        self.pet.is_some()
    }

    /// Creates the pet, once. The result is the number of blocks after which
    /// the host delivers the first check of the pet's state. A second
    /// initialization is refused and changes nothing.
    pub fn initialize(&mut self, name: String, ctx: &Context, initial_level: u64) -> (r: Result<
        u32,
        TmgError,
    >)
        ensures
            old(self)@ is None ==> final(self)@ == Some(
                TamagotchiView::created(name@, *ctx, initial_level),
            ) && r == Ok::<u32, TmgError>(TIME_INTERVAL),
            old(self)@ is Some ==> final(self)@ == old(self)@ && r == Err::<u32, TmgError>(
                TmgError::AlreadyInitialized,
            ),
    {
        if self.pet.is_some() {
            return Err(TmgError::AlreadyInitialized);
        }
        self.pet = Some(Tamagotchi::new(name, ctx, initial_level));
        Ok(TIME_INTERVAL)
    }

    /// The pet, to read.
    pub fn get(&self) -> (pet: &Tamagotchi)
        requires
            self@ is Some,
        ensures
            pet@ == self@->0,
    {
        self.pet.as_ref().unwrap()
    }

    /// The pet, to change. What the caller leaves behind is the actor's pet.
    pub fn get_mut(&mut self) -> (pet: &mut Tamagotchi)
        requires
            old(self)@ is Some,
        ensures
            pet@ == old(self)@->0,
            final(self)@ == Some(final(pet)@),
    {
        self.pet.as_mut().unwrap()
    }

    /// Handles one message. Before initialization every message is refused;
    /// after it the pet handles the message.
    pub fn handle(&mut self, action: TmgAction, ctx: &Context) -> (r: Result<Outcome, TmgError>)
        ensures
            old(self)@ is None ==> final(self)@ is None && r == Err::<Outcome, TmgError>(
                TmgError::NotInitialized,
            ),
            old(self)@ is Some ==> final(self)@ == Some(old(self)@->0.step(action, *ctx).state)
                && outcome_view(r) == old(self)@->0.step(action, *ctx).result,
    {
        match &mut self.pet {
            Some(pet) => pet.handle(action, ctx),
            None => Err(TmgError::NotInitialized),
        }
    }

    /// Takes the host's reply to what an outcome asked for. Before
    /// initialization it is refused; after it the pet takes it.
    pub fn resume(&mut self, reply: HostReply, ctx: &Context) -> (r: Result<TmgEvent, TmgError>)
        ensures
            old(self)@ is None ==> final(self)@ is None && r == Err::<TmgEvent, TmgError>(
                TmgError::NotInitialized,
            ),
            old(self)@ is Some ==> final(self)@ == Some(old(self)@->0.resumed(reply, *ctx).state)
                && event_view(r) == old(self)@->0.resumed(reply, *ctx).result,
    {
        match &mut self.pet {
            Some(pet) => pet.resume(reply, ctx),
            None => Err(TmgError::NotInitialized),
        }
    }

    /// A copy of the pet for observers. The actor keeps its pet.
    pub fn state(&self) -> (r: Result<Tamagotchi, TmgError>)
        ensures
            self@ is None ==> r == Err::<Tamagotchi, TmgError>(TmgError::NotInitialized),
            self@ is Some ==> r is Ok && r->Ok_0@ == self@->0,
    {
        match &self.pet {
            Some(pet) => Ok(pet.snapshot()),
            None => Err(TmgError::NotInitialized),
        }
    }
}

} // verus!

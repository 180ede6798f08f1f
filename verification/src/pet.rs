use crate::decay::{
    NurtureAttribute, BOREDOM_PER_BLOCK, ENERGY_PER_BLOCK, FILL_PER_ENTERTAINMENT, FILL_PER_FEED,
    FILL_PER_SLEEP, HUNGER_PER_BLOCK,
};
use crate::identity::{ActorId, ReservationId};
use crate::message::{AttributeId, Context, TmgEvent, TmgEventView, TransactionId};
use vstd::prelude::*;

verus! {

/// Fullness that the deployed pet starts with.
pub const INITIAL_TAMAGOTCHI_STATUS: u64 = 1000;

/// A purchase that was asked of a store and is not known to be complete.
#[derive(Clone, Copy, Debug, PartialEq, Eq)]
pub struct PendingPurchase {
    /// The number under which the purchase was first asked.
    pub transaction_id: TransactionId,
    /// The store that was asked.
    pub store_id: ActorId,
    /// The attribute to buy.
    pub attribute_id: AttributeId,
    /// Whether the store has been asked again since the first request.
    pub resumed: bool,
}

/// The pet: the one record that the actor keeps.
#[derive(Clone, Debug, PartialEq, Eq)]
pub struct Tamagotchi {
    /// The name given at birth.
    pub name: String,
    /// The timestamp of the block of birth.
    pub date_of_birth: u64,
    /// Who controls the pet.
    pub owner: ActorId,
    /// The feeding score.
    pub fed: NurtureAttribute,
    /// The entertainment score.
    pub entertained: NurtureAttribute,
    /// The rest score.
    pub slept: NurtureAttribute,
    /// The account that the owner has approved, if any. It owns nothing.
    pub approved_account: Option<ActorId>,
    /// The token ledger, once the owner has named one.
    pub ft_contract_id: Option<ActorId>,
    /// The last number given to a request to a peer; zero before the first.
    pub transaction_id: TransactionId,
    /// The approval whose answer is awaited: its number, account and amount.
    pub approve_transaction: Option<(TransactionId, ActorId, u128)>,
    /// The purchase that is not known to be complete.
    pub pending_purchase: Option<PendingPurchase>,
    /// The reservations that pay for alerts, the oldest first.
    pub reservations: Vec<ReservationId>,
}

/// The pet as contracts see it.
pub struct TamagotchiView {
    pub name: Seq<char>,
    pub date_of_birth: u64,
    pub owner: ActorId,
    pub fed: NurtureAttribute,
    pub entertained: NurtureAttribute,
    pub slept: NurtureAttribute,
    pub approved_account: Option<ActorId>,
    pub ft_contract_id: Option<ActorId>,
    pub transaction_id: TransactionId,
    pub approve_transaction: Option<(TransactionId, ActorId, u128)>,
    pub pending_purchase: Option<PendingPurchase>,
    pub reservations: Seq<ReservationId>,
}

impl View for Tamagotchi {
    type V = TamagotchiView;

    open spec fn view(&self) -> TamagotchiView {
        TamagotchiView {
            name: self.name@,
            date_of_birth: self.date_of_birth,
            owner: self.owner,
            fed: self.fed,
            entertained: self.entertained,
            slept: self.slept,
            approved_account: self.approved_account,
            ft_contract_id: self.ft_contract_id,
            transaction_id: self.transaction_id,
            approve_transaction: self.approve_transaction,
            pending_purchase: self.pending_purchase,
            reservations: self.reservations@,
        }
    }
}

impl TamagotchiView {
    /// The pet as it is born: owned by the sender, every score at
    /// `initial_level` as of the current block, nothing delegated, configured,
    /// awaited or reserved.
    pub open spec fn created(name: Seq<char>, ctx: Context, initial_level: u64) -> TamagotchiView {
        let score = NurtureAttribute { level: initial_level, last_update_block: ctx.block_height };
        TamagotchiView {
            name,
            date_of_birth: ctx.block_timestamp,
            owner: ctx.source,
            fed: score,
            entertained: score,
            slept: score,
            approved_account: None,
            ft_contract_id: None,
            transaction_id: 0,
            approve_transaction: None,
            pending_purchase: None,
            reservations: Seq::empty(),
        }
    }

    /// The time since birth at `timestamp`; zero where the clock reads earlier
    /// than the birth.
    pub open spec fn age_at(self, timestamp: u64) -> u64 {
        if timestamp >= self.date_of_birth {
            (timestamp - self.date_of_birth) as u64
        } else {
            0
        }
    }

    /// The pet with its feeding score brought up to `block`.
    pub open spec fn fed_updated(self, block: u64) -> TamagotchiView {
        TamagotchiView { fed: self.fed.normalized(block, HUNGER_PER_BLOCK), ..self }
    }

    /// The pet with its entertainment score brought up to `block`.
    pub open spec fn entertained_updated(self, block: u64) -> TamagotchiView {
        TamagotchiView { entertained: self.entertained.normalized(block, BOREDOM_PER_BLOCK), ..self }
    }

    /// The pet with its rest score brought up to `block`.
    pub open spec fn slept_updated(self, block: u64) -> TamagotchiView {
        TamagotchiView { slept: self.slept.normalized(block, ENERGY_PER_BLOCK), ..self }
    }

    /// The pet after a feeding at `block`.
    pub open spec fn after_feed(self, block: u64) -> TamagotchiView {
        TamagotchiView { fed: self.fed.replenished(block, HUNGER_PER_BLOCK, FILL_PER_FEED), ..self }
    }

    /// The pet after an entertainment at `block`.
    pub open spec fn after_entertain(self, block: u64) -> TamagotchiView {
        TamagotchiView {
            entertained: self.entertained.replenished(
                block,
                BOREDOM_PER_BLOCK,
                FILL_PER_ENTERTAINMENT,
            ),
            ..self
        }
    }

    /// The pet after a sleep at `block`.
    pub open spec fn after_sleep(self, block: u64) -> TamagotchiView {
        TamagotchiView { slept: self.slept.replenished(block, ENERGY_PER_BLOCK, FILL_PER_SLEEP), ..self }
    }
}

impl Tamagotchi {
    /// Creates the pet named `name` for the sender of the current message.
    pub fn new(name: String, ctx: &Context, initial_level: u64) -> (pet: Tamagotchi)
        ensures
            pet@ == TamagotchiView::created(name@, *ctx, initial_level),
    {
        Tamagotchi {
            name,
            date_of_birth: ctx.block_timestamp,
            owner: ctx.source,
            fed: NurtureAttribute::new(initial_level, ctx.block_height),
            entertained: NurtureAttribute::new(initial_level, ctx.block_height),
            slept: NurtureAttribute::new(initial_level, ctx.block_height),
            approved_account: None,
            ft_contract_id: None,
            transaction_id: 0,
            approve_transaction: None,
            pending_purchase: None,
            reservations: Vec::new(),
        }
    }

    /// A copy of the whole record, for observers.
    pub fn snapshot(&self) -> (copy: Tamagotchi)
        ensures
            copy@ == self@,
    {
        let mut reservations: Vec<ReservationId> = Vec::new();
        let mut i: usize = 0;
        while i < self.reservations.len()
            invariant
                i <= self.reservations.len(),
                reservations@ == self.reservations@.take(i as int),
            decreases self.reservations.len() - i,
        {
            reservations.push(self.reservations[i]);
            i = i + 1;
        }
        assert(self.reservations@.take(self.reservations.len() as int) == self.reservations@);
        Tamagotchi {
            name: self.name.clone(),
            date_of_birth: self.date_of_birth,
            owner: self.owner,
            fed: self.fed,
            entertained: self.entertained,
            slept: self.slept,
            approved_account: self.approved_account,
            ft_contract_id: self.ft_contract_id,
            transaction_id: self.transaction_id,
            approve_transaction: self.approve_transaction,
            pending_purchase: self.pending_purchase,
            reservations,
        }
    }

    /// Reports the pet's name.
    pub fn name(&self) -> (event: TmgEvent)
        ensures
            event@ == TmgEventView::Name(self@.name),
    {
        TmgEvent::Name(self.name.clone())
    }

    /// Reports the time since the pet's birth, as of `block_timestamp`.
    pub fn age(&self, block_timestamp: u64) -> (event: TmgEvent)
        ensures
            event@ == TmgEventView::Age(self@.age_at(block_timestamp)),
    {
        TmgEvent::Age(block_timestamp.saturating_sub(self.date_of_birth))
    }

    /// Brings the feeding score up to `block_height`.
    pub fn update_fed(&mut self, block_height: u64)
        ensures
            final(self)@ == old(self)@.fed_updated(block_height),
    {
        self.fed.normalize(block_height, HUNGER_PER_BLOCK);
    }

    /// Brings the entertainment score up to `block_height`.
    pub fn update_entertained(&mut self, block_height: u64)
        ensures
            final(self)@ == old(self)@.entertained_updated(block_height),
    {
        self.entertained.normalize(block_height, BOREDOM_PER_BLOCK);
    }

    /// Brings the rest score up to `block_height`.
    pub fn update_slept(&mut self, block_height: u64)
        ensures
            final(self)@ == old(self)@.slept_updated(block_height),
    {
        self.slept.normalize(block_height, ENERGY_PER_BLOCK);
    }

    /// Feeds the pet: the feeding score is brought up to `block_height` and
    /// then raised by the fill of one feeding.
    pub fn feed(&mut self, block_height: u64) -> (event: TmgEvent)
        ensures
            final(self)@ == old(self)@.after_feed(block_height),
            event@ == TmgEventView::Fed,
    {
        self.fed.replenish(block_height, HUNGER_PER_BLOCK, FILL_PER_FEED);
        TmgEvent::Fed
    }

    /// Entertains the pet: the entertainment score is brought up to
    /// `block_height` and then raised by the fill of one entertainment.
    pub fn entertain(&mut self, block_height: u64) -> (event: TmgEvent)
        ensures
            final(self)@ == old(self)@.after_entertain(block_height),
            event@ == TmgEventView::Entertained,
    {
        self.entertained.replenish(block_height, BOREDOM_PER_BLOCK, FILL_PER_ENTERTAINMENT);
        TmgEvent::Entertained
    }

    /// Lets the pet sleep: the rest score is brought up to `block_height` and
    /// then raised by the fill of one sleep.
    pub fn sleep(&mut self, block_height: u64) -> (event: TmgEvent)
        ensures
            final(self)@ == old(self)@.after_sleep(block_height),
            event@ == TmgEventView::Slept,
    {
        self.slept.replenish(block_height, ENERGY_PER_BLOCK, FILL_PER_SLEEP);
        TmgEvent::Slept
    }
}

} // verus!

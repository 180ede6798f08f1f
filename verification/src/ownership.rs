use crate::identity::ActorId;
use crate::message::{TmgError, TmgEvent, TmgEventView};
use crate::pet::{Tamagotchi, TamagotchiView};
use vstd::prelude::*;

verus! {

impl TamagotchiView {
    /// Whether `caller` is the owner. An approved account is not: only the
    /// owner transfers, approves, revokes, configures and reserves.
    pub open spec fn is_owner(self, caller: ActorId) -> bool {
        caller == self.owner
    }

    /// The pet handed to `new_owner`, with no approved account.
    pub open spec fn transferred(self, new_owner: ActorId) -> TamagotchiView {
        TamagotchiView { owner: new_owner, approved_account: None, ..self }
    }

    /// The pet with `account` as its approved account.
    pub open spec fn approved(self, account: ActorId) -> TamagotchiView {
        TamagotchiView { approved_account: Some(account), ..self }
    }

    /// The pet with no approved account.
    pub open spec fn revoked(self) -> TamagotchiView {
        TamagotchiView { approved_account: None, ..self }
    }

    /// The pet with `ledger` as its token ledger.
    pub open spec fn ledger_set(self, ledger: ActorId) -> TamagotchiView {
        TamagotchiView { ft_contract_id: Some(ledger), ..self }
    }
}

impl Tamagotchi {
    /// Passes the owner and refuses everybody else.
    pub fn authorize_owner(&self, caller: &ActorId) -> (r: Result<(), TmgError>)
        ensures
            self@.is_owner(*caller) ==> r == Ok::<(), TmgError>(()),
            !self@.is_owner(*caller) ==> r == Err::<(), TmgError>(TmgError::Unauthorized),
    {
        if *caller == self.owner {
            Ok(())
        } else {
            Err(TmgError::Unauthorized)
        }
    }

    /// Hands the pet to `new_owner` and clears the approved account, for the
    /// owner only.
    pub fn transfer(&mut self, caller: &ActorId, new_owner: ActorId) -> (r: Result<
        TmgEvent,
        TmgError,
    >)
        ensures
            old(self)@.is_owner(*caller) ==> final(self)@ == old(self)@.transferred(new_owner)
                && r is Ok && r->Ok_0@ == TmgEventView::Transferred(new_owner),
            !old(self)@.is_owner(*caller) ==> final(self)@ == old(self)@ && r == Err::<
                TmgEvent,
                TmgError,
            >(TmgError::Unauthorized),
    {
        if *caller != self.owner {
            return Err(TmgError::Unauthorized);
        }
        self.owner = new_owner;
        self.approved_account = None;
        Ok(TmgEvent::Transferred(new_owner))
    }

    /// Makes `account` the approved account, for the owner only.
    pub fn approve(&mut self, caller: &ActorId, account: ActorId) -> (r: Result<TmgEvent, TmgError>)
        ensures
            old(self)@.is_owner(*caller) ==> final(self)@ == old(self)@.approved(account) && r is Ok
                && r->Ok_0@ == TmgEventView::Approved(account),
            !old(self)@.is_owner(*caller) ==> final(self)@ == old(self)@ && r == Err::<
                TmgEvent,
                TmgError,
            >(TmgError::Unauthorized),
    {
        if *caller != self.owner {
            return Err(TmgError::Unauthorized);
        }
        self.approved_account = Some(account);
        Ok(TmgEvent::Approved(account))
    }

    /// Clears the approved account, for the owner only.
    pub fn revoke_approval(&mut self, caller: &ActorId) -> (r: Result<TmgEvent, TmgError>)
        ensures
            old(self)@.is_owner(*caller) ==> final(self)@ == old(self)@.revoked() && r is Ok
                && r->Ok_0@ == TmgEventView::ApprovalRevoked,
            !old(self)@.is_owner(*caller) ==> final(self)@ == old(self)@ && r == Err::<
                TmgEvent,
                TmgError,
            >(TmgError::Unauthorized),
    {
        if *caller != self.owner {
            return Err(TmgError::Unauthorized);
        }
        self.approved_account = None;
        Ok(TmgEvent::ApprovalRevoked)
    }

    /// Names the token ledger through which the pet spends, for the owner only.
    pub fn set_ftoken_contract(&mut self, caller: &ActorId, ledger: ActorId) -> (r: Result<
        TmgEvent,
        TmgError,
    >)
        ensures
            old(self)@.is_owner(*caller) ==> final(self)@ == old(self)@.ledger_set(ledger) && r is Ok
                && r->Ok_0@ == TmgEventView::FTokenContractSet,
            !old(self)@.is_owner(*caller) ==> final(self)@ == old(self)@ && r == Err::<
                TmgEvent,
                TmgError,
            >(TmgError::Unauthorized),
    {
        if *caller != self.owner {
            return Err(TmgError::Unauthorized);
        }
        self.ft_contract_id = Some(ledger);
        Ok(TmgEvent::FTokenContractSet)
    }
}

} // verus!

use crate::identity::ActorId;
use crate::message::{
    AttributeId, LedgerRequest, Outcome, OutcomeView, PeerReply, StoreRequest, TmgError, TmgEvent,
    TmgEventView, TransactionId,
};
use crate::pet::{PendingPurchase, Tamagotchi, TamagotchiView};
use vstd::prelude::*;

verus! {

/// What is reported when the store has sold: a first request has bought, a
/// repeated one has completed the earlier purchase.
pub open spec fn purchase_event(purchase: PendingPurchase) -> TmgEventView {
    if purchase.resumed {
        TmgEventView::CompletePrevPurchase(purchase.attribute_id)
    } else {
        TmgEventView::AttributeBought(purchase.attribute_id)
    }
}

impl TamagotchiView {
    /// Whether another request to a peer can be numbered.
    pub open spec fn can_number(self) -> bool {
        self.transaction_id < u64::MAX
    }

    /// The request that asks the ledger to let `account` spend `amount`. It
    /// carries the number after the last one used. There is none while no
    /// ledger is set or the numbers have run out.
    pub open spec fn ledger_request(self, account: ActorId, amount: u128) -> Option<LedgerRequest> {
        if self.ft_contract_id is Some && self.can_number() {
            Some(
                LedgerRequest {
                    ledger: self.ft_contract_id->0,
                    transaction_id: (self.transaction_id + 1) as u64,
                    account,
                    amount,
                },
            )
        } else {
            None
        }
    }

    /// The pet once `request` has gone out: the number is used and the
    /// approval is on record, in place of any earlier one.
    pub open spec fn approval_asked(self, request: LedgerRequest) -> TamagotchiView {
        TamagotchiView {
            transaction_id: request.transaction_id,
            approve_transaction: Some((request.transaction_id, request.account, request.amount)),
            ..self
        }
    }

    /// Whether the ledger's reply to request `transaction_id` is awaited.
    pub open spec fn awaits_ledger(self, transaction_id: TransactionId) -> bool {
        match self.approve_transaction {
            Some((awaited, _, _)) => awaited == transaction_id,
            None => false,
        }
    }

    /// The pet with no approval on record.
    pub open spec fn approval_closed(self) -> TamagotchiView {
        TamagotchiView { approve_transaction: None, ..self }
    }

    /// What the ledger's `reply` to the approval on record is reported as.
    pub open spec fn approval_event(self, reply: PeerReply) -> TmgEventView {
        match self.approve_transaction {
            Some((_, account, amount)) if reply == PeerReply::Ack => TmgEventView::TokensApproved {
                account,
                amount,
            },
            _ => TmgEventView::ApprovalError,
        }
    }

    /// The request that a wish to buy `attribute_id` from `store_id` sends.
    /// While an earlier purchase is on record it is that one again, under its
    /// own number; else a new one under the number after the last one used.
    /// There is none where a new one is due and the numbers have run out.
    pub open spec fn store_request(self, store_id: ActorId, attribute_id: AttributeId) -> Option<
        StoreRequest,
    > {
        if self.pending_purchase is Some {
            Some(
                StoreRequest {
                    store: self.pending_purchase->0.store_id,
                    transaction_id: self.pending_purchase->0.transaction_id,
                    attribute_id: self.pending_purchase->0.attribute_id,
                },
            )
        } else if self.can_number() {
            Some(
                StoreRequest {
                    store: store_id,
                    transaction_id: (self.transaction_id + 1) as u64,
                    attribute_id,
                },
            )
        } else {
            None
        }
    }

    /// The pet once the store has been asked: an earlier purchase is marked as
    /// resumed, a new one uses its number and goes on record.
    pub open spec fn purchase_asked(self, store_id: ActorId, attribute_id: AttributeId) -> TamagotchiView {
        if self.pending_purchase is Some {
            TamagotchiView {
                pending_purchase: Some(
                    PendingPurchase { resumed: true, ..self.pending_purchase->0 },
                ),
                ..self
            }
        } else if self.can_number() {
            TamagotchiView {
                transaction_id: (self.transaction_id + 1) as u64,
                pending_purchase: Some(
                    PendingPurchase {
                        transaction_id: (self.transaction_id + 1) as u64,
                        store_id,
                        attribute_id,
                        resumed: false,
                    },
                ),
                ..self
            }
        } else {
            self
        }
    }

    /// Whether the store's reply to request `transaction_id` is awaited.
    pub open spec fn awaits_store(self, transaction_id: TransactionId) -> bool {
        self.pending_purchase is Some && self.pending_purchase->0.transaction_id == transaction_id
    }

    /// The pet with no purchase on record.
    pub open spec fn purchase_closed(self) -> TamagotchiView {
        TamagotchiView { pending_purchase: None, ..self }
    }
}

impl Tamagotchi {
    /// Starts an approval of `amount` tokens for `account`: numbers the
    /// request, puts it on record and hands it out for the ledger. Where no
    /// request can be made, nothing changes and the error is the answer.
    pub fn approve_tokens(&mut self, account: &ActorId, amount: u128) -> (r: Outcome)
        ensures
            match old(self)@.ledger_request(*account, amount) {
                Some(request) => r@ == OutcomeView::AskLedger(request) && final(self)@ == old(self)@.approval_asked(request),
                None => r@ == OutcomeView::Reply(TmgEventView::ApprovalError) && final(self)@
                    == old(self)@,
            },
    {
        match self.ft_contract_id {
            Some(ledger) => {
                if self.transaction_id == u64::MAX {
                    return Outcome::Reply(TmgEvent::ApprovalError);
                }
                let transaction_id: u64 = self.transaction_id + 1;
                self.transaction_id = transaction_id;
                self.approve_transaction = Some((transaction_id, *account, amount));
                Outcome::AskLedger(
                    LedgerRequest { ledger, transaction_id, account: *account, amount },
                )
            },
            None => Outcome::Reply(TmgEvent::ApprovalError),
        }
    }

    /// Takes the ledger's reply to request `transaction_id`. Where that
    /// request is awaited, the record is closed and the reply reported: the
    /// approval on an acknowledgement, the error otherwise. Any other number
    /// is refused and changes nothing.
    pub fn ledger_replied(&mut self, transaction_id: TransactionId, reply: PeerReply) -> (r: Result<
        TmgEvent,
        TmgError,
    >)
        ensures
            old(self)@.awaits_ledger(transaction_id) ==> final(self)@ == old(self)@.approval_closed()
                && r is Ok && r->Ok_0@ == old(self)@.approval_event(reply),
            !old(self)@.awaits_ledger(transaction_id) ==> final(self)@ == old(self)@ && r == Err::<
                TmgEvent,
                TmgError,
            >(TmgError::UnknownTransaction),
    {
        match self.approve_transaction {
            Some((awaited, account, amount)) => {
                if awaited != transaction_id {
                    return Err(TmgError::UnknownTransaction);
                }
                self.approve_transaction = None;
                match reply {
                    PeerReply::Ack => Ok(TmgEvent::TokensApproved { account, amount }),
                    PeerReply::Failed => Ok(TmgEvent::ApprovalError),
                }
            },
            None => Err(TmgError::UnknownTransaction),
        }
    }

    /// Starts or resumes a purchase. While an earlier purchase is on record,
    /// that one is asked of its store again and marked as resumed, whatever
    /// is wished for now. Else the new purchase is numbered, put on record and
    /// handed out for the store. Where no request can be made, nothing changes
    /// and the error is the answer.
    pub fn buy_attribute(&mut self, store_id: ActorId, attribute_id: AttributeId) -> (r: Outcome)
        ensures
            final(self)@ == old(self)@.purchase_asked(store_id, attribute_id),
            match old(self)@.store_request(store_id, attribute_id) {
                Some(request) => r@ == OutcomeView::AskStore(request),
                None => r@ == OutcomeView::Reply(TmgEventView::ErrorDuringPurchase),
            },
    {
        match self.pending_purchase {
            Some(purchase) => {
                self.pending_purchase = Some(
                    PendingPurchase {
                        transaction_id: purchase.transaction_id,
                        store_id: purchase.store_id,
                        attribute_id: purchase.attribute_id,
                        resumed: true,
                    },
                );
                Outcome::AskStore(
                    StoreRequest {
                        store: purchase.store_id,
                        transaction_id: purchase.transaction_id,
                        attribute_id: purchase.attribute_id,
                    },
                )
            },
            None => {
                if self.transaction_id == u64::MAX {
                    return Outcome::Reply(TmgEvent::ErrorDuringPurchase);
                }
                let transaction_id: u64 = self.transaction_id + 1;
                self.transaction_id = transaction_id;
                self.pending_purchase = Some(
                    PendingPurchase { transaction_id, store_id, attribute_id, resumed: false },
                );
                Outcome::AskStore(StoreRequest { store: store_id, transaction_id, attribute_id })
            },
        }
    }

    /// Takes the store's reply to request `transaction_id`. Where that request
    /// is awaited: an acknowledgement closes the record and reports the
    /// purchase; a failure reports the error and keeps the record, so that the
    /// purchase can be resumed. Any other number is refused and changes
    /// nothing.
    pub fn store_replied(&mut self, transaction_id: TransactionId, reply: PeerReply) -> (r: Result<
        TmgEvent,
        TmgError,
    >)
        ensures
            old(self)@.awaits_store(transaction_id) && reply == PeerReply::Ack ==> final(self)@
                == old(self)@.purchase_closed() && r is Ok && r->Ok_0@ == purchase_event(
                old(self)@.pending_purchase->0,
            ),
            old(self)@.awaits_store(transaction_id) && reply == PeerReply::Failed ==> final(self)@
                == old(self)@ && r is Ok && r->Ok_0@ == TmgEventView::ErrorDuringPurchase,
            !old(self)@.awaits_store(transaction_id) ==> final(self)@ == old(self)@ && r == Err::<
                TmgEvent,
                TmgError,
            >(TmgError::UnknownTransaction),
    {
        match self.pending_purchase {
            Some(purchase) => {
                if purchase.transaction_id != transaction_id {
                    return Err(TmgError::UnknownTransaction);
                }
                match reply {
                    PeerReply::Ack => {
                        self.pending_purchase = None;
                        if purchase.resumed {
                            Ok(TmgEvent::CompletePrevPurchase(purchase.attribute_id))
                        } else {
                            Ok(TmgEvent::AttributeBought(purchase.attribute_id))
                        }
                    },
                    PeerReply::Failed => Ok(TmgEvent::ErrorDuringPurchase),
                }
            },
            None => Err(TmgError::UnknownTransaction),
        }
    }
}

} // verus!

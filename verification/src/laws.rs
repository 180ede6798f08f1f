use crate::actor::{HostReply, Transition};
use crate::decay::{elapsed_blocks, NurtureAttribute};
use crate::identity::ActorId;
use crate::message::{
    Alert, AttributeId, CheckReportView, Context, OutcomeView, PeerReply, StoreRequest, TmgAction,
    TmgError, TmgEventView,
};
use crate::pet::{PendingPurchase, TamagotchiView};
use crate::scheduler::{alert_if_low, LOW_WATER_MARK, TIME_INTERVAL};
use vstd::prelude::*;

verus! {

/// Normalizing never takes a level below zero: what it leaves is the larger
/// of zero and `level - elapsed * rate`, as of the current block.
pub proof fn normalized_level_is_clamped_difference(
    score: NurtureAttribute,
    current_block: u64,
    rate: u64,
)
    ensures
        ({
            let elapsed = elapsed_blocks(score.last_update_block, current_block) as int;
            let after = score.normalized(current_block, rate);
            &&& after.level >= 0
            &&& after.level <= score.level
            &&& score.level - elapsed * rate >= 0 ==> after.level == score.level - elapsed * rate
            &&& score.level - elapsed * rate <= 0 ==> after.level == 0
            &&& after.last_update_block == current_block
        }),
{
}

/// Replenishing is normalizing first and adding second: the new level is the
/// normalized level plus the amount, held at the largest value a score can
/// take. So it is never less than the amount, and it is the amount itself
/// once the decay has used up the old level.
pub proof fn replenish_adds_to_normalized_level(
    score: NurtureAttribute,
    current_block: u64,
    rate: u64,
    amount: u64,
)
    ensures
        ({
            let elapsed = elapsed_blocks(score.last_update_block, current_block) as int;
            let normal = score.normalized(current_block, rate);
            let after = score.replenished(current_block, rate, amount);
            &&& normal.level + amount <= u64::MAX ==> after.level == normal.level + amount
            &&& normal.level + amount > u64::MAX ==> after.level == u64::MAX
            &&& after.level >= amount
            &&& elapsed * rate >= score.level ==> after.level == amount
            &&& after.last_update_block == current_block
        }),
{
}

/// Whether `action` is one that only the owner may ask for.
pub open spec fn owner_only(action: TmgAction) -> bool {
    action is Transfer || action is Approve || action is RevokeApproval
        || action is SetFTokenContract || action is ReserveGas
}

/// Only the owner transfers, approves, revokes, names the ledger or reserves:
/// from anybody else the request is refused as unauthorized and the pet stays
/// as it is, approved account or not. From the owner it is accepted.
pub proof fn only_owner_may(pet: TamagotchiView, action: TmgAction, ctx: Context)
    requires
        owner_only(action),
    ensures
        ctx.source != pet.owner ==> pet.step(action, ctx) == (Transition {
            state: pet,
            result: Err(TmgError::Unauthorized),
        }),
        ctx.source == pet.owner ==> pet.step(action, ctx).result is Ok,
{
}

/// An approval followed by a revocation, both by the owner, leaves no
/// approved account and nothing else changed.
pub proof fn approve_then_revoke_clears(
    pet: TamagotchiView,
    account: ActorId,
    first: Context,
    second: Context,
)
    requires
        first.source == pet.owner,
        second.source == pet.owner,
    ensures
        ({
            let approved = pet.step(TmgAction::Approve(account), first).state;
            let revoked = approved.step(TmgAction::RevokeApproval, second).state;
            &&& approved.approved_account == Some(account)
            &&& revoked.approved_account is None
            &&& revoked == pet.revoked()
        }),
{
}

/// A transfer by the owner leaves no approved account, whoever was approved
/// before, and makes the new owner the only one who may ask for the next.
pub proof fn transfer_clears_approval(pet: TamagotchiView, new_owner: ActorId, ctx: Context)
    requires
        ctx.source == pet.owner,
    ensures
        ({
            let after = pet.step(TmgAction::Transfer(new_owner), ctx);
            &&& after.result == Ok::<OutcomeView, TmgError>(
                OutcomeView::Reply(TmgEventView::Transferred(new_owner)),
            )
            &&& after.state.owner == new_owner
            &&& after.state.approved_account is None
        }),
{
}

/// Whether `later` records the purchase that `earlier` records: the same
/// number, store and attribute.
pub open spec fn same_purchase(earlier: PendingPurchase, later: PendingPurchase) -> bool {
    &&& later.transaction_id == earlier.transaction_id
    &&& later.store_id == earlier.store_id
    &&& later.attribute_id == earlier.attribute_id
}

/// No message drops a purchase that is on record: whatever is asked of the
/// pet, the record is still there afterwards.
pub proof fn no_message_drops_purchase(pet: TamagotchiView, action: TmgAction, ctx: Context)
    requires
        pet.pending_purchase is Some,
    ensures
        ({
            let after = pet.step(action, ctx).state;
            &&& after.pending_purchase is Some
            &&& same_purchase(pet.pending_purchase->0, after.pending_purchase->0)
        }),
{
}

/// No reply of the host drops a purchase silently. The record leaves only
/// when the store has acknowledged that very purchase, and then the purchase
/// is reported as completed. A failure of the store is reported as an error
/// and keeps the record as it was.
pub proof fn no_reply_drops_purchase_silently(pet: TamagotchiView, reply: HostReply, ctx: Context)
    requires
        pet.pending_purchase is Some,
    ensures
        ({
            let purchase = pet.pending_purchase->0;
            let after = pet.resumed(reply, ctx);
            let acknowledged = reply == (HostReply::Store {
                transaction_id: purchase.transaction_id,
                reply: PeerReply::Ack,
            });
            let failed = reply == (HostReply::Store {
                transaction_id: purchase.transaction_id,
                reply: PeerReply::Failed,
            });
            &&& acknowledged ==> after.state.pending_purchase is None && after.result == Ok::<
                TmgEventView,
                TmgError,
            >(
                if purchase.resumed {
                    TmgEventView::CompletePrevPurchase(purchase.attribute_id)
                } else {
                    TmgEventView::AttributeBought(purchase.attribute_id)
                },
            )
            &&& !acknowledged ==> after.state.pending_purchase == pet.pending_purchase
            &&& failed ==> after.result == Ok::<TmgEventView, TmgError>(
                TmgEventView::ErrorDuringPurchase,
            )
        }),
{
}

/// A purchase that the store failed to answer can be resumed: the failure is
/// reported, the next wish to buy, whatever it names, asks the store for the
/// interrupted purchase again under its old number, and the store's
/// acknowledgement then completes it and closes the record.
pub proof fn interrupted_purchase_resumes(
    pet: TamagotchiView,
    store_id: ActorId,
    attribute_id: AttributeId,
    later_store_id: ActorId,
    later_attribute_id: AttributeId,
    ctx: Context,
)
    requires
        pet.pending_purchase is None,
        pet.can_number(),
    ensures
        ({
            let request = StoreRequest {
                store: store_id,
                transaction_id: (pet.transaction_id + 1) as u64,
                attribute_id,
            };
            let failure = HostReply::Store {
                transaction_id: request.transaction_id,
                reply: PeerReply::Failed,
            };
            let success = HostReply::Store {
                transaction_id: request.transaction_id,
                reply: PeerReply::Ack,
            };
            let again = TmgAction::BuyAttribute {
                store_id: later_store_id,
                attribute_id: later_attribute_id,
            };
            let asked = pet.step(TmgAction::BuyAttribute { store_id, attribute_id }, ctx);
            let interrupted = asked.state.resumed(failure, ctx);
            let asked_again = interrupted.state.step(again, ctx);
            let completed = asked_again.state.resumed(success, ctx);
            &&& asked.result == Ok::<OutcomeView, TmgError>(OutcomeView::AskStore(request))
            &&& interrupted.result == Ok::<TmgEventView, TmgError>(
                TmgEventView::ErrorDuringPurchase,
            )
            &&& interrupted.state.pending_purchase is Some
            &&& asked_again.result == Ok::<OutcomeView, TmgError>(OutcomeView::AskStore(request))
            &&& completed.result == Ok::<TmgEventView, TmgError>(
                TmgEventView::CompletePrevPurchase(attribute_id),
            )
            &&& completed.state.pending_purchase is None
        }),
{
}

/// The numbers of requests only go up: no message and no reply lowers the
/// last number used, and a request that starts something new carries a
/// number that was never used before.
pub proof fn transaction_numbers_only_increase(
    pet: TamagotchiView,
    action: TmgAction,
    reply: HostReply,
    ctx: Context,
)
    ensures
        pet.step(action, ctx).state.transaction_id >= pet.transaction_id,
        pet.resumed(reply, ctx).state.transaction_id == pet.transaction_id,
        pet.step(action, ctx).result matches Ok(OutcomeView::AskLedger(request))
            ==> request.transaction_id > pet.transaction_id
            && pet.step(action, ctx).state.transaction_id == request.transaction_id,
        pet.step(action, ctx).result matches Ok(OutcomeView::AskStore(request))
            ==> pet.pending_purchase is Some || (request.transaction_id > pet.transaction_id
            && pet.step(action, ctx).state.transaction_id == request.transaction_id),
{
}

/// One check gives each score at most one alert: one where the score, once
/// brought up to date, is at or below the low-water mark, none otherwise,
/// however many blocks have passed. With a reservation for each alert that is
/// due, each is sent, in order, from the oldest reservations, and none is
/// left unfunded.
pub proof fn one_alert_per_low_score(pet: TamagotchiView, block: u64)
    ensures
        ({
            let now = pet.all_updated(block);
            let due = now.due_alerts();
            let report = pet.check_report(block);
            &&& due.len() <= 3
            &&& due.no_duplicates()
            &&& due.contains(Alert::FeedMe) == (now.fed.level <= LOW_WATER_MARK)
            &&& due.contains(Alert::PlayWithMe) == (now.entertained.level <= LOW_WATER_MARK)
            &&& due.contains(Alert::WantToSleep) == (now.slept.level <= LOW_WATER_MARK)
            &&& report.notifications.len() + report.unfunded.len() == due.len()
            &&& pet.reservations.len() >= due.len() ==> {
                &&& report.unfunded.len() == 0
                &&& report.notifications.len() == due.len()
                &&& forall|i: int|
                    0 <= i < due.len() ==> {
                        &&& (#[trigger] report.notifications[i]).alert == due[i]
                        &&& report.notifications[i].reservation == pet.reservations[i]
                        &&& report.notifications[i].owner == pet.owner
                    }
                &&& pet.after_check(block).reservations.len() == pet.reservations.len()
                    - due.len()
            }
        }),
{
    let now = pet.all_updated(block);
    let due = now.due_alerts();
    let first = alert_if_low(now.fed, Alert::FeedMe);
    let second = alert_if_low(now.entertained, Alert::PlayWithMe);
    if now.fed.level <= LOW_WATER_MARK {
        assert(due[0] == Alert::FeedMe);
    }
    if now.entertained.level <= LOW_WATER_MARK {
        assert(due[first.len() as int] == Alert::PlayWithMe);
    }
    if now.slept.level <= LOW_WATER_MARK {
        assert(due[(first.len() + second.len()) as int] == Alert::WantToSleep);
    }
}

/// A check with no reservation left sends no alert, lists every alert that
/// is due as unfunded, keeps the scores up to date and still asks for the
/// next check after the fixed interval.
pub proof fn empty_pool_still_reschedules(pet: TamagotchiView, ctx: Context)
    requires
        pet.reservations.len() == 0,
    ensures
        ({
            let after = pet.step(TmgAction::CheckState, ctx);
            let report = pet.check_report(ctx.block_height);
            &&& after.result == Ok::<OutcomeView, TmgError>(OutcomeView::Checked(report))
            &&& report.notifications.len() == 0
            &&& report.unfunded == pet.all_updated(ctx.block_height).due_alerts()
            &&& report.next_check_delay == TIME_INTERVAL
            &&& after.state == pet.all_updated(ctx.block_height)
        }),
{
    let now = pet.all_updated(ctx.block_height);
    assert(pet.after_check(ctx.block_height).reservations =~= now.reservations);
}

/// The pet after the checks made one after the other at `blocks`.
pub open spec fn after_checks(pet: TamagotchiView, blocks: Seq<u64>) -> TamagotchiView
    decreases blocks.len(),
{
    if blocks.len() == 0 {
        pet
    } else {
        after_checks(pet, blocks.drop_last()).after_check(blocks.last())
    }
}

/// The reports of the checks made one after the other at `blocks`: each is
/// what the check reports of the pet as the checks before it left it.
pub open spec fn check_run(pet: TamagotchiView, blocks: Seq<u64>) -> Seq<CheckReportView> {
    Seq::new(
        blocks.len(),
        |i: int| after_checks(pet, blocks.take(i)).check_report(blocks[i]),
    )
}

/// The alerts that are due at the check number `i` of a run.
pub open spec fn due_in_run(pet: TamagotchiView, blocks: Seq<u64>, i: int) -> Seq<Alert> {
    after_checks(pet, blocks.take(i)).all_updated(blocks[i]).due_alerts()
}

/// A run of checks uses up at most three reservations a check, and no check
/// adds one.
pub proof fn a_run_uses_at_most_three_reservations_a_check(pet: TamagotchiView, blocks: Seq<u64>)
    ensures
        after_checks(pet, blocks).reservations.len() <= pet.reservations.len(),
        after_checks(pet, blocks).reservations.len() >= pet.reservations.len() - 3 * blocks.len(),
        after_checks(pet, blocks).owner == pet.owner,
    decreases blocks.len(),
{
    if blocks.len() > 0 {
        a_run_uses_at_most_three_reservations_a_check(pet, blocks.drop_last());
        one_alert_per_low_score(after_checks(pet, blocks.drop_last()), blocks.last());
    }
}

/// As many checks, as many requests for the next one: each check of a run
/// asks for exactly one next check, after the fixed interval. Each check
/// deals with each alert that is due at it, once: the alert is sent or listed
/// as unfunded. With three reservations for every check of the run, every
/// alert of the run is sent and none is left unfunded. So a score that falls
/// to the mark between two checks gives one alert at the check that follows,
/// however many blocks lie between; while it stays low, each later check
/// alerts again.
pub proof fn every_check_reschedules_once(pet: TamagotchiView, blocks: Seq<u64>)
    ensures
        check_run(pet, blocks).len() == blocks.len(),
        forall|i: int|
            0 <= i < blocks.len() ==> {
                let report = #[trigger] check_run(pet, blocks)[i];
                let due = due_in_run(pet, blocks, i);
                &&& report.next_check_delay == TIME_INTERVAL
                &&& due.no_duplicates()
                &&& report.notifications.len() + report.unfunded.len() == due.len()
                &&& pet.reservations.len() >= 3 * blocks.len() ==> {
                    &&& report.unfunded.len() == 0
                    &&& report.notifications.len() == due.len()
                    &&& forall|j: int|
                        0 <= j < due.len() ==> (#[trigger] report.notifications[j]).alert
                            == due[j] && report.notifications[j].owner == pet.owner
                }
            },
{
    assert forall|i: int| 0 <= i < blocks.len() implies {
        let report = #[trigger] check_run(pet, blocks)[i];
        let due = due_in_run(pet, blocks, i);
        &&& report.next_check_delay == TIME_INTERVAL
        &&& due.no_duplicates()
        &&& report.notifications.len() + report.unfunded.len() == due.len()
        &&& pet.reservations.len() >= 3 * blocks.len() ==> {
            &&& report.unfunded.len() == 0
            &&& report.notifications.len() == due.len()
            &&& forall|j: int|
                0 <= j < due.len() ==> (#[trigger] report.notifications[j]).alert == due[j]
                    && report.notifications[j].owner == pet.owner
        }
    } by {
        let before = after_checks(pet, blocks.take(i));
        a_run_uses_at_most_three_reservations_a_check(pet, blocks.take(i));
        one_alert_per_low_score(before, blocks[i]);
    }
}

/// The pet's name and birth never change, and every other part of the record
/// changes only through the message that is meant to change it: the owner
/// through the owner's transfer; the approved account through the owner's
/// approval, revocation or transfer; the ledger through the owner's naming
/// it; the reservations through a check.
pub proof fn messages_change_only_their_own_part(
    pet: TamagotchiView,
    action: TmgAction,
    ctx: Context,
)
    ensures
        ({
            let after = pet.step(action, ctx).state;
            let by_owner = ctx.source == pet.owner;
            &&& after.name == pet.name
            &&& after.date_of_birth == pet.date_of_birth
            &&& after.owner != pet.owner ==> by_owner && action is Transfer
            &&& after.approved_account != pet.approved_account ==> by_owner && (action is Transfer
                || action is Approve || action is RevokeApproval)
            &&& after.ft_contract_id != pet.ft_contract_id ==> by_owner
                && action is SetFTokenContract
            &&& after.reservations != pet.reservations ==> action is CheckState
            &&& after.fed != pet.fed ==> action is Feed || action is CheckState
            &&& after.entertained != pet.entertained ==> action is Entertain
                || action is CheckState
            &&& after.slept != pet.slept ==> action is Sleep || action is CheckState
            &&& after.approve_transaction != pet.approve_transaction ==> action is ApproveTokens
            &&& after.pending_purchase != pet.pending_purchase ==> action is BuyAttribute
        }),
{
}

/// A reply of the host changes nothing but the record that it answers: the
/// approval on record, the purchase on record, or, with a reservation that
/// the owner asked for, the reservations, which gain it as their newest.
pub proof fn replies_change_only_their_own_part(pet: TamagotchiView, reply: HostReply, ctx: Context)
    ensures
        ({
            let after = pet.resumed(reply, ctx).state;
            &&& after.name == pet.name
            &&& after.date_of_birth == pet.date_of_birth
            &&& after.owner == pet.owner
            &&& after.approved_account == pet.approved_account
            &&& after.ft_contract_id == pet.ft_contract_id
            &&& after.fed == pet.fed
            &&& after.entertained == pet.entertained
            &&& after.slept == pet.slept
            &&& after.approve_transaction != pet.approve_transaction ==> reply is Ledger
            &&& after.pending_purchase != pet.pending_purchase ==> reply is Store
            &&& after.reservations != pet.reservations ==> {
                &&& ctx.source == pet.owner
                &&& reply matches HostReply::Reservation { reserved: Some(reservation) }
                &&& after.reservations == pet.reservations.push(reply->reserved->0)
            }
        }),
{
}

/// Whether no request on record carries a number beyond the last one used.
pub open spec fn numbers_on_record_are_used(pet: TamagotchiView) -> bool {
    &&& pet.approve_transaction matches Some((number, _, _)) ==> number <= pet.transaction_id
    &&& pet.pending_purchase matches Some(purchase) ==> purchase.transaction_id
        <= pet.transaction_id
}

/// A number is never used twice. A new pet has no request on record; no
/// message and no reply puts a number on record beyond the last one used; so
/// the number that a new request gets, the one after the last one used,
/// differs from every number on record.
pub proof fn numbers_are_never_reused(
    name: Seq<char>,
    initial_level: u64,
    pet: TamagotchiView,
    action: TmgAction,
    reply: HostReply,
    ctx: Context,
)
    requires
        numbers_on_record_are_used(pet),
    ensures
        numbers_on_record_are_used(TamagotchiView::created(name, ctx, initial_level)),
        numbers_on_record_are_used(pet.step(action, ctx).state),
        numbers_on_record_are_used(pet.resumed(reply, ctx).state),
        pet.step(action, ctx).result matches Ok(OutcomeView::AskLedger(request)) ==> {
            &&& pet.approve_transaction matches Some((number, _, _)) ==> number
                != request.transaction_id
            &&& pet.pending_purchase matches Some(purchase) ==> purchase.transaction_id
                != request.transaction_id
        },
        pet.step(action, ctx).result matches Ok(OutcomeView::AskStore(request)) ==> {
            ||| pet.pending_purchase is Some
            ||| pet.approve_transaction is None
            ||| pet.approve_transaction matches Some((number, _, _)) && number
                != request.transaction_id
        },
{
}

} // verus!

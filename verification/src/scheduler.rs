use crate::decay::NurtureAttribute;
use crate::identity::{ActorId, ReservationId};
use crate::message::{
    Alert, CheckReport, CheckReportView, Notification, ReservationRequest, TmgError, TmgEvent,
    TmgEventView,
};
use crate::pet::{Tamagotchi, TamagotchiView};
use vstd::prelude::*;

verus! {

/// Blocks between two checks of the pet's state.
pub const TIME_INTERVAL: u32 = 30;

/// A score at or below this level makes the pet alert its owner.
pub const LOW_WATER_MARK: u64 = 1;

/// The alerts that one score gives rise to in one check: `alert` once where
/// the score is low, whatever the number of blocks it has been low for.
pub open spec fn alert_if_low(score: NurtureAttribute, alert: Alert) -> Seq<Alert> {
    if score.level <= LOW_WATER_MARK {
        seq![alert]
    } else {
        Seq::empty()
    }
}

/// How many of `due` alerts `reservations` can pay for: one reservation each.
pub open spec fn funded_count(reservations: Seq<ReservationId>, due: Seq<Alert>) -> int {
    if due.len() <= reservations.len() {
        due.len() as int
    } else {
        reservations.len() as int
    }
}

/// The alerts that are paid for, in the order in which they are due, the
/// oldest reservation first.
pub open spec fn funded_notifications(
    reservations: Seq<ReservationId>,
    owner: ActorId,
    due: Seq<Alert>,
) -> Seq<Notification> {
    Seq::new(
        funded_count(reservations, due) as nat,
        |i: int| Notification { reservation: reservations[i], owner, alert: due[i] },
    )
}

impl TamagotchiView {
    /// The pet with all three scores brought up to `block`.
    pub open spec fn all_updated(self, block: u64) -> TamagotchiView {
        self.fed_updated(block).entertained_updated(block).slept_updated(block)
    }

    /// The alerts that the scores, as they stand, give rise to: feeding first,
    /// then entertainment, then rest.
    pub open spec fn due_alerts(self) -> Seq<Alert> {
        alert_if_low(self.fed, Alert::FeedMe) + alert_if_low(self.entertained, Alert::PlayWithMe)
            + alert_if_low(self.slept, Alert::WantToSleep)
    }

    /// What a check at `block` asks of the host.
    pub open spec fn check_report(self, block: u64) -> CheckReportView {
        let due = self.all_updated(block).due_alerts();
        CheckReportView {
            notifications: funded_notifications(self.reservations, self.owner, due),
            unfunded: due.skip(funded_count(self.reservations, due)),
            next_check_delay: TIME_INTERVAL,
        }
    }

    /// The pet after a check at `block`: the scores are up to date and the
    /// reservations that paid for an alert are gone.
    pub open spec fn after_check(self, block: u64) -> TamagotchiView {
        let now = self.all_updated(block);
        TamagotchiView {
            reservations: self.reservations.skip(
                funded_count(self.reservations, now.due_alerts()),
            ),
            ..now
        }
    }

    /// The pet with `reservation` added as its newest.
    pub open spec fn reservation_added(self, reservation: ReservationId) -> TamagotchiView {
        TamagotchiView { reservations: self.reservations.push(reservation), ..self }
    }
}

impl Tamagotchi {
    /// Pays for `alert` from the oldest reservation, or notes it as unpaid
    /// where none is left.
    fn settle(
        &mut self,
        alert: Alert,
        notifications: &mut Vec<Notification>,
        unfunded: &mut Vec<Alert>,
    )
        ensures
            old(self).reservations@.len() > 0 ==> final(self)@ == (TamagotchiView {
                reservations: old(self).reservations@.skip(1),
                ..old(self)@
            }) && final(notifications)@ == old(notifications)@.push(
                Notification {
                    reservation: old(self).reservations@[0],
                    owner: old(self).owner,
                    alert,
                },
            ) && final(unfunded)@ == old(unfunded)@,
            old(self).reservations@.len() == 0 ==> final(self)@ == old(self)@ && final(notifications)@ == old(notifications)@ && final(unfunded)@ == old(unfunded)@.push(alert),
    {
        if self.reservations.len() > 0 {
            let reservation = self.reservations.remove(0);
            notifications.push(Notification { reservation, owner: self.owner, alert });
        } else {
            unfunded.push(alert);
        }
    }

    /// Checks the pet's state at `block_height`. Every score is brought up to
    /// date. Each score that is low gives one alert for the owner, paid from
    /// the oldest reservation left, which is thereby used up; an alert for
    /// which no reservation is left is not sent and is listed as unfunded. The
    /// next check is always asked for, after the fixed interval.
    pub fn check_state(&mut self, block_height: u64) -> (report: CheckReport)
        ensures
            report@ == old(self)@.check_report(block_height),
            final(self)@ == old(self)@.after_check(block_height),
    {
        let mut notifications: Vec<Notification> = Vec::new();
        let mut unfunded: Vec<Alert> = Vec::new();
        self.update_fed(block_height);
        self.update_entertained(block_height);
        self.update_slept(block_height);
        let ghost now = self@;
        let ghost pool = old(self)@.reservations;
        if self.fed.level <= LOW_WATER_MARK {
            self.settle(Alert::FeedMe, &mut notifications, &mut unfunded);
        }
        if self.entertained.level <= LOW_WATER_MARK {
            self.settle(Alert::PlayWithMe, &mut notifications, &mut unfunded);
        }
        if self.slept.level <= LOW_WATER_MARK {
            self.settle(Alert::WantToSleep, &mut notifications, &mut unfunded);
        }
        proof {
            let due = now.due_alerts();
            let paid = funded_count(pool, due);
            assert(notifications@ =~= funded_notifications(pool, now.owner, due));
            assert(unfunded@ =~= due.skip(paid));
            assert(self@.reservations =~= pool.skip(paid));
        }
        CheckReport { notifications, unfunded, next_check_delay: TIME_INTERVAL }
    }

    /// Answers a wish to set execution credit aside: for the owner, the
    /// request that the host is to make; everybody else is refused. The pet
    /// does not change.
    pub fn reserve_gas(&self, caller: &ActorId, reservation_amount: u64, duration: u32) -> (r: Result<
        ReservationRequest,
        TmgError,
    >)
        ensures
            self@.is_owner(*caller) ==> r == Ok::<ReservationRequest, TmgError>(
                ReservationRequest { amount: reservation_amount, duration },
            ),
            !self@.is_owner(*caller) ==> r == Err::<ReservationRequest, TmgError>(
                TmgError::Unauthorized,
            ),
    {
        if *caller != self.owner {
            return Err(TmgError::Unauthorized);
        }
        Ok(ReservationRequest { amount: reservation_amount, duration })
    }

    /// Takes what became of the owner's reservation request: the handle that
    /// the host made is added as the newest reservation; a request that the
    /// host rejected is reported as such. Nobody but the owner adds one.
    pub fn add_reservation(&mut self, caller: &ActorId, reserved: Option<ReservationId>) -> (r: Result<
        TmgEvent,
        TmgError,
    >)
        ensures
            !old(self)@.is_owner(*caller) ==> final(self)@ == old(self)@ && r == Err::<
                TmgEvent,
                TmgError,
            >(TmgError::Unauthorized),
            old(self)@.is_owner(*caller) && reserved is None ==> final(self)@ == old(self)@ && r
                == Err::<TmgEvent, TmgError>(TmgError::ReservationRejected),
            old(self)@.is_owner(*caller) && reserved is Some ==> final(self)@ == old(self)@.reservation_added(reserved->0) && r is Ok && r->Ok_0@ == TmgEventView::GasReserved,
    {
        if *caller != self.owner {
            return Err(TmgError::Unauthorized);
        }
        match reserved {
            Some(reservation) => {
                self.reservations.push(reservation);
                Ok(TmgEvent::GasReserved)
            },
            None => Err(TmgError::ReservationRejected),
        }
    }
}

} // verus!

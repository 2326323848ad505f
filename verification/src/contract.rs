//! The ticket ledger itself: the records it keeps and the operations on them.

use crate::laws::lemma_apply_preserves_valid;
use crate::models::{
    copy_names, names, notices, EscrowConfig, EventAuth, LedgerError, Notification, Ticket,
    TicketView,
};
use crate::rules::{
    check_in, hand_over, is_listed, is_owner, may_validate, organizer_verdict, quorum_verdict,
    registration_verdict, threshold_verdict,
};
use crate::state::{count_approved, without_approvals, LedgerView, Name, Operation};
use crate::table::{PairKey, Table};
use vstd::prelude::*;

verus! {

/// Counts the entries of `signers` whose approval for `event_id` is on record.
fn count_approvals(approvals: &Table<PairKey, bool>, event_id: &String, signers: &Vec<String>) -> (n:
    usize)
    ensures
        n == count_approved(event_id@, names(signers@), approvals@.dom()),
{
    let ghost all = names(signers@);
    let mut n: usize = 0;
    let mut i: usize = 0;
    while i < signers.len()
        invariant
            all == names(signers@),
            i <= signers@.len(),
            n <= i,
            n == count_approved(event_id@, all.take(i as int), approvals@.dom()),
        decreases signers@.len() - i,
    {
        let key = PairKey { first: event_id.clone(), second: signers[i].clone() };
        proof {
            assert(all.take(i + 1).drop_last() =~= all.take(i as int));
            assert(all.take(i + 1).last() == signers@[i as int]@);
        }
        if approvals.contains(&key) {
            n += 1;
        }
        i += 1;
    }
    proof {
        assert(all.take(i as int) =~= all);
    }
    n
}

/// Clears the approval of every entry of `signers` for `event_id`.
fn clear_approvals(approvals: &mut Table<PairKey, bool>, event_id: &String, signers: &Vec<String>)
    ensures
        final(approvals)@.dom() == without_approvals(
            event_id@,
            names(signers@),
            old(approvals)@.dom(),
        ),
{
    let ghost all = names(signers@);
    let ghost before = approvals@.dom();
    let mut i: usize = 0;
    proof {
        assert(approvals@.dom() =~= without_approvals(event_id@, all.take(0), before));
    }
    while i < signers.len()
        invariant
            all == names(signers@),
            i <= signers@.len(),
            approvals@.dom() == without_approvals(event_id@, all.take(i as int), before),
        decreases signers@.len() - i,
    {
        let key = PairKey { first: event_id.clone(), second: signers[i].clone() };
        let ghost shorter = all.take(i as int);
        let ghost longer = all.take(i + 1);
        approvals.remove(&key);
        proof {
            assert(longer[i as int] == key@.1);
            assert forall|who: Name| longer.contains(who) == (shorter.contains(who) || who
                == key@.1) by {
                if shorter.contains(who) {
                    let j = choose|j: int| 0 <= j < shorter.len() && shorter[j] == who;
                    assert(longer[j] == who);
                }
                if longer.contains(who) && who != key@.1 {
                    let j = choose|j: int| 0 <= j < longer.len() && longer[j] == who;
                    assert(shorter[j] == who);
                }
            }
            assert(approvals@.dom() =~= without_approvals(event_id@, longer, before));
        }
        i += 1;
    }
    proof {
        assert(all.take(i as int) =~= all);
    }
}

/// Queues a notification behind those that wait already.
fn queue(outbox: &mut Vec<Notification>, notification: Notification)
    ensures
        notices(final(outbox)@) == notices(old(outbox)@).push(notification@),
{
    outbox.push(notification);
    assert(notices(outbox@) =~= notices(old(outbox)@).push(notification@));
}

/// The ticket ledger: events with their organizers, the validators of each
/// event, the tickets, the escrow configurations with their approvals, and
/// the notifications that wait to be sent.
pub struct TicketContract {
    events: Table<String, EventAuth>,
    validators: Table<PairKey, bool>,
    tickets: Table<String, Ticket>,
    escrows: Table<String, EscrowConfig>,
    approvals: Table<PairKey, bool>,
    outbox: Vec<Notification>,
}

impl View for TicketContract {
    type V = LedgerView;

    closed spec fn view(&self) -> LedgerView {
        LedgerView {
            events: self.events@,
            validators: self.validators@.dom(),
            tickets: self.tickets@,
            escrows: self.escrows@,
            approvals: self.approvals@.dom(),
            notifications: notices(self.outbox@),
        }
    }
}

impl TicketContract {
    /// The representation invariant of the ledger: its state is valid.
    #[verifier::type_invariant]
    closed spec fn wf(&self) -> bool {
        self@.valid()
    }

    /// Every ledger is in a valid state. The call computes nothing: it makes
    /// the fact known to a verified caller.
    pub fn know_valid(&self)
        ensures
            self@.valid(),
    {
        proof {
            use_type_invariant(self);
        }
    }

    /// A ledger in which nothing has happened yet.
    pub fn new() -> (r: Self)
        ensures
            r@ == LedgerView::empty(),
    {
        let r = TicketContract {
            events: Table::new(),
            validators: Table::new(),
            tickets: Table::new(),
            escrows: Table::new(),
            approvals: Table::new(),
            outbox: Vec::new(),
        };
        proof {
            assert(r@.validators =~= Set::empty());
            assert(r@.approvals =~= Set::empty());
            assert(r@.notifications =~= Seq::empty());
        }
        r
    }

    /// Takes the ledger out and leaves an empty one in its place.
    fn take(&mut self) -> (r: TicketContract)
        ensures
            r == *old(self),
    {
        let mut taken = TicketContract::new();
        std::mem::swap(self, &mut taken);
        taken
    }

    /// Hands out the queued notifications, oldest first, and empties the
    /// queue.
    pub fn take_notifications(&mut self) -> (r: Vec<Notification>)
        ensures
            notices(r@) == old(self)@.notifications,
            final(self)@ == old(self)@.take_notifications(),
    {
        proof {
            use_type_invariant(&*self);
        }
        let TicketContract { events, validators, tickets, escrows, approvals, outbox } =
            self.take();
        let sent = outbox;
        let outbox: Vec<Notification> = Vec::new();
        assert(notices(outbox@) =~= Seq::empty());
        proof {
            lemma_apply_preserves_valid(old(self)@, Operation::TakeNotifications);
        }
        *self = TicketContract { events, validators, tickets, escrows, approvals, outbox };
        sent
    }

    /// Registers an event for its organizer. The organizer's proof of
    /// identity is the caller's to obtain. An identifier that is bound
    /// already is rejected with `AlreadyExists`.
    pub fn register_event(&mut self, event_id: String, organizer: String) -> (r: Result<
        (),
        LedgerError,
    >)
        ensures
            final(self)@ == old(self)@.register_event(event_id@, organizer@).0,
            r == old(self)@.register_event(event_id@, organizer@).1,
    {
        let verdict = registration_verdict(self.events.contains(&event_id));
        if verdict.is_err() {
            return verdict;
        }
        let key = event_id.clone();
        proof {
            use_type_invariant(&*self);
        }
        let TicketContract { mut events, validators, tickets, escrows, approvals, outbox } =
            self.take();
        events.insert(key, EventAuth { event_id, organizer });
        proof {
            lemma_apply_preserves_valid(
                old(self)@,
                Operation::RegisterEvent { event: event_id@, organizer: organizer@ },
            );
        }
        *self = TicketContract { events, validators, tickets, escrows, approvals, outbox };
        Ok(())
    }

    /// Whether `candidate` registered the event; `false` for an unknown event.
    pub fn is_organizer(&self, event_id: String, candidate: String) -> (r: bool)
        ensures
            r == self@.is_organizer(event_id@, candidate@),
    {
        match self.events.get(&event_id) {
            Some(auth) => auth.organizer == candidate,
            None => false,
        }
    }

    /// The verdict on a caller who wants to change the validators of an event.
    fn check_organizer(&self, event_id: &String, caller: &String) -> (r: Result<(), LedgerError>)
        ensures
            r == self@.organizer_check(event_id@, caller@),
    {
        organizer_verdict(self.events.get(event_id), caller)
    }

    /// Enters `validator` as a validator of the event. Fails with `NotFound`
    /// for an unknown event and with `Unauthorized` where `caller` is not its
    /// organizer.
    pub fn add_validator(&mut self, event_id: String, caller: String, validator: String) -> (r:
        Result<(), LedgerError>)
        ensures
            final(self)@ == old(self)@.add_validator(event_id@, caller@, validator@).0,
            r == old(self)@.add_validator(event_id@, caller@, validator@).1,
    {
        let verdict = self.check_organizer(&event_id, &caller);
        if verdict.is_ok() {
            proof {
                use_type_invariant(&*self);
            }
            let TicketContract { events, mut validators, tickets, escrows, approvals, outbox } =
                self.take();
            validators.insert(PairKey { first: event_id, second: validator }, true);
            proof {
                lemma_apply_preserves_valid(
                    old(self)@,
                    Operation::AddValidator {
                        event: event_id@,
                        caller: caller@,
                        validator: validator@,
                    },
                );
            }
            *self = TicketContract { events, validators, tickets, escrows, approvals, outbox };
        }
        verdict
    }

    /// Strikes `validator` from the validators of the event, with the errors
    /// of `add_validator`. Striking an absent validator succeeds.
    pub fn remove_validator(&mut self, event_id: String, caller: String, validator: String) -> (r:
        Result<(), LedgerError>)
        ensures
            final(self)@ == old(self)@.remove_validator(event_id@, caller@, validator@).0,
            r == old(self)@.remove_validator(event_id@, caller@, validator@).1,
    {
        let verdict = self.check_organizer(&event_id, &caller);
        if verdict.is_ok() {
            proof {
                use_type_invariant(&*self);
            }
            let TicketContract { events, mut validators, tickets, escrows, approvals, outbox } =
                self.take();
            validators.remove(&PairKey { first: event_id, second: validator });
            proof {
                lemma_apply_preserves_valid(
                    old(self)@,
                    Operation::RemoveValidator {
                        event: event_id@,
                        caller: caller@,
                        validator: validator@,
                    },
                );
            }
            *self = TicketContract { events, validators, tickets, escrows, approvals, outbox };
        }
        verdict
    }

    /// Whether `validator` may check tickets in for the event.
    pub fn is_authorized_validator(&self, event_id: String, validator: String) -> (r: bool)
        ensures
            r == self@.is_authorized_validator(event_id@, validator@),
    {
        let auth = self.events.get(&event_id);
        let entered = self.validators.contains(
            &PairKey { first: event_id, second: validator.clone() },
        );
        may_validate(auth, entered, &validator)
    }

    /// Issues an unused ticket for the event to `owner` and returns it. A
    /// ticket stored under the same identifier is replaced.
    pub fn issue_ticket(&mut self, ticket_id: String, event_id: String, owner: String) -> (r: Ticket)
        ensures
            final(self)@ == old(self)@.issue_ticket(ticket_id@, event_id@, owner@).0,
            r@ == old(self)@.issue_ticket(ticket_id@, event_id@, owner@).1,
    {
        let ticket = Ticket { id: ticket_id.clone(), event_id, owner, is_used: false };
        let issued = ticket.clone();
        proof {
            use_type_invariant(&*self);
        }
        let TicketContract { events, validators, mut tickets, escrows, approvals, outbox } =
            self.take();
        tickets.insert(ticket_id, ticket);
        proof {
            lemma_apply_preserves_valid(
                old(self)@,
                Operation::IssueTicket { ticket: ticket_id@, event: event_id@, owner: owner@ },
            );
        }
        *self = TicketContract { events, validators, tickets, escrows, approvals, outbox };
        issued
    }

    /// The ticket stored under `ticket_id`, if any.
    pub fn get_ticket(&self, ticket_id: String) -> (r: Option<Ticket>)
        ensures
            match r {
                Some(t) => self@.tickets.contains_key(ticket_id@) && t@ == self@.tickets[ticket_id@],
                None => !self@.tickets.contains_key(ticket_id@),
            },
    {
        match self.tickets.get(&ticket_id) {
            Some(t) => Some(t.clone()),
            None => None,
        }
    }

    /// Hands the ticket from `current_owner` to `new_owner` and queues a
    /// transfer notification. Fails with `NotFound` for an unknown ticket and
    /// with `Unauthorized` where `current_owner` is not the recorded owner.
    pub fn transfer_ticket(&mut self, ticket_id: String, current_owner: String, new_owner: String) -> (r:
        Result<(), LedgerError>)
        ensures
            final(self)@ == old(self)@.transfer_ticket(ticket_id@, current_owner@, new_owner@).0,
            r == old(self)@.transfer_ticket(ticket_id@, current_owner@, new_owner@).1,
    {
        let verdict = match self.tickets.get(&ticket_id) {
            Some(t) => hand_over(t, &current_owner, new_owner.clone()),
            None => {
                return Err(LedgerError::NotFound);
            },
        };
        let moved = match verdict {
            Ok(t) => t,
            Err(e) => {
                return Err(e);
            },
        };
        proof {
            use_type_invariant(&*self);
        }
        let TicketContract { events, validators, mut tickets, escrows, approvals, mut outbox } =
            self.take();
        tickets.insert(ticket_id.clone(), moved);
        queue(
            &mut outbox,
            Notification::Transfer { ticket_id, from: current_owner, to: new_owner },
        );
        proof {
            lemma_apply_preserves_valid(
                old(self)@,
                Operation::TransferTicket {
                    ticket: ticket_id@,
                    current_owner: current_owner@,
                    new_owner: new_owner@,
                },
            );
        }
        *self = TicketContract { events, validators, tickets, escrows, approvals, outbox };
        Ok(())
    }

    /// Whether `address` owns the ticket. Fails with `NotFound` for an
    /// unknown ticket.
    pub fn is_ticket_owner(&self, ticket_id: String, address: String) -> (r: Result<
        bool,
        LedgerError,
    >)
        ensures
            r == self@.is_ticket_owner(ticket_id@, address@),
    {
        match self.tickets.get(&ticket_id) {
            Some(t) => Ok(is_owner(t, &address)),
            None => Err(LedgerError::NotFound),
        }
    }

    /// The owner of the ticket and whether it was used. Fails with
    /// `NotFound` for an unknown ticket.
    pub fn get_ticket_status(&self, ticket_id: String) -> (r: Result<(String, bool), LedgerError>)
        ensures
            match r {
                Ok(status) => self@.get_ticket_status(ticket_id@) == Ok::<
                    (Name, bool),
                    LedgerError,
                >((status.0@, status.1)),
                Err(e) => self@.get_ticket_status(ticket_id@) == Err::<(Name, bool), LedgerError>(e),
            },
    {
        match self.tickets.get(&ticket_id) {
            Some(t) => Ok((t.owner.clone(), t.is_used)),
            None => Err(LedgerError::NotFound),
        }
    }

    /// Checks a ticket in: marks it used, queues a check-in notification and
    /// returns the ticket as it now stands. Fails with `NotFound` for an
    /// unknown ticket, with `AlreadyUsed` for a ticket that was checked in
    /// before, and with `Unauthorized` where `validator` is neither the
    /// organizer nor a validator of the ticket's event.
    pub fn validate_ticket(&mut self, ticket_id: String, validator: String) -> (r: Result<
        Ticket,
        LedgerError,
    >)
        ensures
            final(self)@ == old(self)@.validate_ticket(ticket_id@, validator@).0,
            match r {
                Ok(t) => old(self)@.validate_ticket(ticket_id@, validator@).1 == Ok::<
                    TicketView,
                    LedgerError,
                >(t@),
                Err(e) => old(self)@.validate_ticket(ticket_id@, validator@).1 == Err::<
                    TicketView,
                    LedgerError,
                >(e),
            },
    {
        let ticket = match self.tickets.get(&ticket_id) {
            Some(t) => t.clone(),
            None => {
                return Err(LedgerError::NotFound);
            },
        };
        let authorized = self.is_authorized_validator(ticket.event_id.clone(), validator.clone());
        let validated = match check_in(&ticket, authorized) {
            Ok(t) => t,
            Err(e) => {
                return Err(e);
            },
        };
        let event_id = ticket.event_id;
        let stored = validated.clone();
        proof {
            use_type_invariant(&*self);
        }
        let TicketContract { events, validators, mut tickets, escrows, approvals, mut outbox } =
            self.take();
        tickets.insert(ticket_id.clone(), stored);
        queue(&mut outbox, Notification::CheckIn { ticket_id, validator, event_id });
        proof {
            lemma_apply_preserves_valid(
                old(self)@,
                Operation::ValidateTicket { ticket: ticket_id@, validator: validator@ },
            );
        }
        *self = TicketContract { events, validators, tickets, escrows, approvals, outbox };
        Ok(validated)
    }

    /// Sets the signers and the threshold of the event's escrow, replacing an
    /// earlier configuration. Fails with `InvalidThreshold` where the
    /// threshold is zero or exceeds the number of signers.
    pub fn set_escrow_signers(&mut self, event_id: String, signers: Vec<String>, threshold: u32) -> (r:
        Result<(), LedgerError>)
        ensures
            final(self)@ == old(self)@.set_escrow_signers(event_id@, names(signers@), threshold).0,
            r == old(self)@.set_escrow_signers(event_id@, names(signers@), threshold).1,
    {
        let verdict = threshold_verdict(threshold, signers.len());
        if verdict.is_err() {
            return verdict;
        }
        let key = event_id.clone();
        proof {
            use_type_invariant(&*self);
        }
        let TicketContract { events, validators, tickets, mut escrows, approvals, outbox } =
            self.take();
        escrows.insert(key, EscrowConfig { event_id, signers, threshold });
        proof {
            lemma_apply_preserves_valid(
                old(self)@,
                Operation::SetEscrowSigners {
                    event: event_id@,
                    signers: names(signers@),
                    threshold,
                },
            );
        }
        *self = TicketContract { events, validators, tickets, escrows, approvals, outbox };
        Ok(())
    }

    /// Records the approval of `signer` for a release of the event's escrow.
    /// The signer's proof of identity is the caller's to obtain. Fails with
    /// `NotFound` where the event has no escrow configuration and with
    /// `Unauthorized` where `signer` is not among its signers.
    pub fn approve_release(&mut self, event_id: String, signer: String) -> (r: Result<
        (),
        LedgerError,
    >)
        ensures
            final(self)@ == old(self)@.approve_release(event_id@, signer@).0,
            r == old(self)@.approve_release(event_id@, signer@).1,
    {
        match self.escrows.get(&event_id) {
            None => {
                return Err(LedgerError::NotFound);
            },
            Some(config) => {
                if !is_listed(&config.signers, &signer) {
                    return Err(LedgerError::Unauthorized);
                }
            },
        }
        proof {
            use_type_invariant(&*self);
        }
        let TicketContract { events, validators, tickets, escrows, mut approvals, outbox } =
            self.take();
        approvals.insert(PairKey { first: event_id, second: signer }, true);
        proof {
            lemma_apply_preserves_valid(
                old(self)@,
                Operation::ApproveRelease { event: event_id@, signer: signer@ },
            );
        }
        *self = TicketContract { events, validators, tickets, escrows, approvals, outbox };
        Ok(())
    }

    /// Withdraws the approval of `signer`, if one is on record.
    pub fn revoke_approval(&mut self, event_id: String, signer: String)
        ensures
            final(self)@ == old(self)@.revoke_approval(event_id@, signer@),
    {
        proof {
            use_type_invariant(&*self);
        }
        let TicketContract { events, validators, tickets, escrows, mut approvals, outbox } =
            self.take();
        approvals.remove(&PairKey { first: event_id, second: signer });
        proof {
            lemma_apply_preserves_valid(
                old(self)@,
                Operation::RevokeApproval { event: event_id@, signer: signer@ },
            );
        }
        *self = TicketContract { events, validators, tickets, escrows, approvals, outbox };
    }

    /// The number of approvals that count towards the event's quorum, or
    /// `NotFound` where the event has no escrow configuration.
    pub fn approval_count(&self, event_id: String) -> (r: Result<usize, LedgerError>)
        ensures
            match r {
                Ok(n) => self@.escrows.contains_key(event_id@) && n == self@.approval_count(
                    event_id@,
                ),
                Err(e) => !self@.escrows.contains_key(event_id@) && e == LedgerError::NotFound,
            },
    {
        match self.escrows.get(&event_id) {
            None => Err(LedgerError::NotFound),
            Some(config) => Ok(count_approvals(&self.approvals, &event_id, &config.signers)),
        }
    }

    /// Releases the event's escrow to `destination` where the approvals on
    /// record reach the threshold: queues a release notification and clears
    /// the approval of every configured signer. Fails with `NotFound` where
    /// the event has no escrow configuration and with `ThresholdNotMet`
    /// where too few approvals are on record.
    pub fn distribute_escrow(&mut self, event_id: String, destination: String) -> (r: Result<
        (),
        LedgerError,
    >)
        ensures
            final(self)@ == old(self)@.distribute_escrow(event_id@, destination@).0,
            r == old(self)@.distribute_escrow(event_id@, destination@).1,
    {
        let signers = match self.escrows.get(&event_id) {
            None => {
                return Err(LedgerError::NotFound);
            },
            Some(config) => {
                let count = count_approvals(&self.approvals, &event_id, &config.signers);
                let verdict = quorum_verdict(count, config.threshold);
                if verdict.is_err() {
                    return verdict;
                }
                copy_names(&config.signers)
            },
        };
        proof {
            use_type_invariant(&*self);
        }
        let TicketContract { events, validators, tickets, escrows, mut approvals, mut outbox } =
            self.take();
        clear_approvals(&mut approvals, &event_id, &signers);
        queue(&mut outbox, Notification::Release { event_id, destination });
        proof {
            lemma_apply_preserves_valid(
                old(self)@,
                Operation::DistributeEscrow { event: event_id@, destination: destination@ },
            );
        }
        *self = TicketContract { events, validators, tickets, escrows, approvals, outbox };
        Ok(())
    }
}

} // verus!

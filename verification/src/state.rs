//! The ledger as a mathematical state machine: its state, and for each
//! operation the state and result that the operation must produce.

use crate::models::{EscrowConfigView, EventAuthView, LedgerError, NotificationView, TicketView};
use vstd::prelude::*;

verus! {

/// A name of the model: the view of an identifier or of a principal.
pub type Name = Seq<char>;

/// How many entries of `signers` have an approval on record for `event`.
/// A signer listed twice counts twice.
pub open spec fn count_approved(event: Name, signers: Seq<Name>, approvals: Set<(Name, Name)>) -> nat
    decreases signers.len(),
{
    if signers.len() == 0 {
        0
    } else {
        count_approved(event, signers.drop_last(), approvals) + if approvals.contains(
            (event, signers.last()),
        ) {
            1nat
        } else {
            0nat
        }
    }
}

/// The approvals that remain once those of `signers` for `event` are cleared.
pub open spec fn without_approvals(event: Name, signers: Seq<Name>, approvals: Set<(Name, Name)>) -> Set<
    (Name, Name),
> {
    Set::new(
        |p: (Name, Name)| approvals.contains(p) && !(p.0 == event && signers.contains(p.1)),
    )
}

/// The whole state of the ticket ledger.
pub ghost struct LedgerView {
    /// Each registered event with its organizer.
    pub events: Map<Name, EventAuthView>,
    /// The (event, validator) pairs that were added and not removed.
    pub validators: Set<(Name, Name)>,
    /// Each ticket under the identifier it was issued with.
    pub tickets: Map<Name, TicketView>,
    /// Each event's escrow configuration.
    pub escrows: Map<Name, EscrowConfigView>,
    /// The (event, signer) pairs whose approval is on record.
    pub approvals: Set<(Name, Name)>,
    /// The notifications queued so far, oldest first.
    pub notifications: Seq<NotificationView>,
}

impl LedgerView {
    /// The state in which nothing has happened yet.
    pub open spec fn empty() -> LedgerView {
        LedgerView {
            events: Map::empty(),
            validators: Set::empty(),
            tickets: Map::empty(),
            escrows: Map::empty(),
            approvals: Set::empty(),
            notifications: Seq::empty(),
        }
    }

    /// What holds of every state that the operations can reach: each event
    /// and each ticket is stored under its own identifier, and each escrow
    /// configuration is stored under its event with a threshold of at least
    /// one and at most the number of its signers.
    pub open spec fn valid(self) -> bool {
        &&& forall|e: Name| #[trigger]
            self.events.contains_key(e) ==> self.events[e].event_id == e
        &&& forall|t: Name| #[trigger] self.tickets.contains_key(t) ==> self.tickets[t].id == t
        &&& forall|e: Name| #[trigger]
            self.escrows.contains_key(e) ==> {
                &&& self.escrows[e].event_id == e
                &&& 1 <= self.escrows[e].threshold <= self.escrows[e].signers.len()
            }
    }

    /// Whether `who` registered `event`.
    pub open spec fn is_organizer(self, event: Name, who: Name) -> bool {
        self.events.contains_key(event) && self.events[event].organizer == who
    }

    /// Whether `who` may check tickets in for `event`: the organizer always
    /// may, anyone else only while entered as a validator.
    pub open spec fn is_authorized_validator(self, event: Name, who: Name) -> bool {
        self.is_organizer(event, who) || self.validators.contains((event, who))
    }

    /// The number of approvals that count towards the quorum of `event`.
    pub open spec fn approval_count(self, event: Name) -> nat
        recommends
            self.escrows.contains_key(event),
    {
        count_approved(event, self.escrows[event].signers, self.approvals)
    }

    /// Registration binds a fresh event to its organizer.
    pub open spec fn register_event(self, event: Name, organizer: Name) -> (
        LedgerView,
        Result<(), LedgerError>,
    ) {
        if self.events.contains_key(event) {
            (self, Err(LedgerError::AlreadyExists))
        } else {
            (
                LedgerView {
                    events: self.events.insert(
                        event,
                        EventAuthView { event_id: event, organizer },
                    ),
                    ..self
                },
                Ok(()),
            )
        }
    }

    /// The verdict on a caller who wants to change the validators of `event`.
    pub open spec fn organizer_check(self, event: Name, caller: Name) -> Result<(), LedgerError> {
        if !self.events.contains_key(event) {
            Err(LedgerError::NotFound)
        } else if self.events[event].organizer != caller {
            Err(LedgerError::Unauthorized)
        } else {
            Ok(())
        }
    }

    /// The organizer enters a validator; entering one twice changes nothing.
    pub open spec fn add_validator(self, event: Name, caller: Name, validator: Name) -> (
        LedgerView,
        Result<(), LedgerError>,
    ) {
        let verdict = self.organizer_check(event, caller);
        if verdict.is_ok() {
            (LedgerView { validators: self.validators.insert((event, validator)), ..self }, verdict)
        } else {
            (self, verdict)
        }
    }

    /// The organizer strikes a validator; striking an absent one changes
    /// nothing.
    pub open spec fn remove_validator(self, event: Name, caller: Name, validator: Name) -> (
        LedgerView,
        Result<(), LedgerError>,
    ) {
        let verdict = self.organizer_check(event, caller);
        if verdict.is_ok() {
            (LedgerView { validators: self.validators.remove((event, validator)), ..self }, verdict)
        } else {
            (self, verdict)
        }
    }

    /// Issuance stores an unused ticket under its identifier, whatever was
    /// stored there before.
    pub open spec fn issue_ticket(self, ticket: Name, event: Name, owner: Name) -> (
        LedgerView,
        TicketView,
    ) {
        let issued = TicketView { id: ticket, event_id: event, owner, is_used: false };
        (LedgerView { tickets: self.tickets.insert(ticket, issued), ..self }, issued)
    }

    /// The recorded owner hands the ticket to a new owner. Whether the ticket
    /// was used does not change.
    pub open spec fn transfer_ticket(self, ticket: Name, current_owner: Name, new_owner: Name) -> (
        LedgerView,
        Result<(), LedgerError>,
    ) {
        if !self.tickets.contains_key(ticket) {
            (self, Err(LedgerError::NotFound))
        } else if self.tickets[ticket].owner != current_owner {
            (self, Err(LedgerError::Unauthorized))
        } else {
            (
                LedgerView {
                    tickets: self.tickets.insert(
                        ticket,
                        TicketView { owner: new_owner, ..self.tickets[ticket] },
                    ),
                    notifications: self.notifications.push(
                        NotificationView::Transfer {
                            ticket_id: ticket,
                            from: current_owner,
                            to: new_owner,
                        },
                    ),
                    ..self
                },
                Ok(()),
            )
        }
    }

    /// Whether `who` owns the ticket, where the ticket exists.
    pub open spec fn is_ticket_owner(self, ticket: Name, who: Name) -> Result<bool, LedgerError> {
        if self.tickets.contains_key(ticket) {
            Ok(self.tickets[ticket].owner == who)
        } else {
            Err(LedgerError::NotFound)
        }
    }

    /// The owner of the ticket and whether it was used, where it exists.
    pub open spec fn get_ticket_status(self, ticket: Name) -> Result<(Name, bool), LedgerError> {
        if self.tickets.contains_key(ticket) {
            Ok((self.tickets[ticket].owner, self.tickets[ticket].is_used))
        } else {
            Err(LedgerError::NotFound)
        }
    }

    /// Check-in: an unused ticket becomes used when a validator of its event
    /// presents it. A used ticket is rejected before the validator is looked at.
    pub open spec fn validate_ticket(self, ticket: Name, validator: Name) -> (
        LedgerView,
        Result<TicketView, LedgerError>,
    ) {
        if !self.tickets.contains_key(ticket) {
            (self, Err(LedgerError::NotFound))
        } else if self.tickets[ticket].is_used {
            (self, Err(LedgerError::AlreadyUsed))
        } else if !self.is_authorized_validator(self.tickets[ticket].event_id, validator) {
            (self, Err(LedgerError::Unauthorized))
        } else {
            let used = TicketView { is_used: true, ..self.tickets[ticket] };
            (
                LedgerView {
                    tickets: self.tickets.insert(ticket, used),
                    notifications: self.notifications.push(
                        NotificationView::CheckIn {
                            ticket_id: ticket,
                            validator,
                            event_id: used.event_id,
                        },
                    ),
                    ..self
                },
                Ok(used),
            )
        }
    }

    /// Configuration replaces the signers and threshold of `event`. Approvals
    /// already on record stay.
    pub open spec fn set_escrow_signers(self, event: Name, signers: Seq<Name>, threshold: u32) -> (
        LedgerView,
        Result<(), LedgerError>,
    ) {
        if threshold == 0 || threshold > signers.len() {
            (self, Err(LedgerError::InvalidThreshold))
        } else {
            (
                LedgerView {
                    escrows: self.escrows.insert(
                        event,
                        EscrowConfigView { event_id: event, signers, threshold },
                    ),
                    ..self
                },
                Ok(()),
            )
        }
    }

    /// A configured signer puts an approval on record; doing so twice
    /// changes nothing.
    pub open spec fn approve_release(self, event: Name, signer: Name) -> (
        LedgerView,
        Result<(), LedgerError>,
    ) {
        if !self.escrows.contains_key(event) {
            (self, Err(LedgerError::NotFound))
        } else if !self.escrows[event].signers.contains(signer) {
            (self, Err(LedgerError::Unauthorized))
        } else {
            (LedgerView { approvals: self.approvals.insert((event, signer)), ..self }, Ok(()))
        }
    }

    /// A signer withdraws an approval; withdrawing an absent one changes
    /// nothing.
    pub open spec fn revoke_approval(self, event: Name, signer: Name) -> LedgerView {
        LedgerView { approvals: self.approvals.remove((event, signer)), ..self }
    }

    /// Release: with a quorum of approvals the release is announced and the
    /// approvals of every configured signer are cleared.
    pub open spec fn distribute_escrow(self, event: Name, destination: Name) -> (
        LedgerView,
        Result<(), LedgerError>,
    ) {
        if !self.escrows.contains_key(event) {
            (self, Err(LedgerError::NotFound))
        } else if self.approval_count(event) < self.escrows[event].threshold {
            (self, Err(LedgerError::ThresholdNotMet))
        } else {
            (
                LedgerView {
                    approvals: without_approvals(
                        event,
                        self.escrows[event].signers,
                        self.approvals,
                    ),
                    notifications: self.notifications.push(
                        NotificationView::Release { event_id: event, destination },
                    ),
                    ..self
                },
                Ok(()),
            )
        }
    }
    /// Handing out the queued notifications leaves the queue empty.
    pub open spec fn take_notifications(self) -> LedgerView {
        LedgerView { notifications: Seq::empty(), ..self }
    }

    /// The state after one operation, whether it was accepted or rejected.
    pub open spec fn apply(self, op: Operation) -> LedgerView {
        match op {
            Operation::RegisterEvent { event, organizer } => self.register_event(event, organizer).0,
            Operation::AddValidator { event, caller, validator } => self.add_validator(
                event,
                caller,
                validator,
            ).0,
            Operation::RemoveValidator { event, caller, validator } => self.remove_validator(
                event,
                caller,
                validator,
            ).0,
            Operation::IssueTicket { ticket, event, owner } => self.issue_ticket(
                ticket,
                event,
                owner,
            ).0,
            Operation::TransferTicket { ticket, current_owner, new_owner } => self.transfer_ticket(
                ticket,
                current_owner,
                new_owner,
            ).0,
            Operation::ValidateTicket { ticket, validator } => self.validate_ticket(
                ticket,
                validator,
            ).0,
            Operation::SetEscrowSigners { event, signers, threshold } => self.set_escrow_signers(
                event,
                signers,
                threshold,
            ).0,
            Operation::ApproveRelease { event, signer } => self.approve_release(event, signer).0,
            Operation::RevokeApproval { event, signer } => self.revoke_approval(event, signer),
            Operation::DistributeEscrow { event, destination } => self.distribute_escrow(
                event,
                destination,
            ).0,
            Operation::TakeNotifications => self.take_notifications(),
        }
    }

    /// The state after a run of operations, first to last.
    pub open spec fn apply_all(self, ops: Seq<Operation>) -> LedgerView
        decreases ops.len(),
    {
        if ops.len() == 0 {
            self
        } else {
            self.apply_all(ops.drop_last()).apply(ops.last())
        }
    }
}

/// One call of a state-changing operation of the ledger, with its arguments.
pub ghost enum Operation {
    RegisterEvent { event: Name, organizer: Name },
    AddValidator { event: Name, caller: Name, validator: Name },
    RemoveValidator { event: Name, caller: Name, validator: Name },
    IssueTicket { ticket: Name, event: Name, owner: Name },
    TransferTicket { ticket: Name, current_owner: Name, new_owner: Name },
    ValidateTicket { ticket: Name, validator: Name },
    SetEscrowSigners { event: Name, signers: Seq<Name>, threshold: u32 },
    ApproveRelease { event: Name, signer: Name },
    RevokeApproval { event: Name, signer: Name },
    DistributeEscrow { event: Name, destination: Name },
    TakeNotifications,
}

impl Operation {
    /// Whether the operation issues a ticket under the identifier `ticket`.
    pub open spec fn issues(self, ticket: Name) -> bool {
        self matches Operation::IssueTicket { ticket: t, .. } && t == ticket
    }
}

} // verus!

//! What holds of the ledger across operations, proved of the state machine
//! that the operations implement.

use crate::models::LedgerError;
use crate::state::{count_approved, without_approvals, LedgerView, Name, Operation};
use vstd::prelude::*;

verus! {

/// Every operation, accepted or rejected, leads from a valid state to a
/// valid state.
pub proof fn lemma_apply_preserves_valid(s: LedgerView, op: Operation)
    requires
        s.valid(),
    ensures
        s.apply(op).valid(),
{
}

/// A run of operations leads from a valid state to a valid state.
pub proof fn lemma_apply_all_preserves_valid(s: LedgerView, ops: Seq<Operation>)
    requires
        s.valid(),
    ensures
        s.apply_all(ops).valid(),
    decreases ops.len(),
{
    if ops.len() > 0 {
        lemma_apply_all_preserves_valid(s, ops.drop_last());
        lemma_apply_preserves_valid(s.apply_all(ops.drop_last()), ops.last());
    }
}

/// A rejected operation changes nothing.
pub proof fn lemma_rejection_changes_nothing(s: LedgerView, a: Name, b: Name, c: Name)
    ensures
        s.register_event(a, b).1.is_err() ==> s.register_event(a, b).0 == s,
        s.add_validator(a, b, c).1.is_err() ==> s.add_validator(a, b, c).0 == s,
        s.remove_validator(a, b, c).1.is_err() ==> s.remove_validator(a, b, c).0 == s,
        s.transfer_ticket(a, b, c).1.is_err() ==> s.transfer_ticket(a, b, c).0 == s,
        s.validate_ticket(a, b).1.is_err() ==> s.validate_ticket(a, b).0 == s,
        s.approve_release(a, b).1.is_err() ==> s.approve_release(a, b).0 == s,
        s.distribute_escrow(a, b).1.is_err() ==> s.distribute_escrow(a, b).0 == s,
        forall|signers: Seq<Name>, threshold: u32|
            s.set_escrow_signers(a, signers, threshold).1.is_err() ==> #[trigger] s.set_escrow_signers(
                a,
                signers,
                threshold,
            ).0 == s,
{
}

/// A used ticket stays used through every operation but an issuance under
/// its own identifier, and keeps its event.
pub proof fn lemma_used_ticket_stays_used(s: LedgerView, op: Operation, ticket: Name)
    requires
        s.tickets.contains_key(ticket),
        s.tickets[ticket].is_used,
        !op.issues(ticket),
    ensures
        s.apply(op).tickets.contains_key(ticket),
        s.apply(op).tickets[ticket].is_used,
        s.apply(op).tickets[ticket].event_id == s.tickets[ticket].event_id,
{
}

/// A used ticket stays used through every run of operations that holds no
/// issuance under its identifier.
pub proof fn lemma_used_ticket_stays_used_all(s: LedgerView, ops: Seq<Operation>, ticket: Name)
    requires
        s.tickets.contains_key(ticket),
        s.tickets[ticket].is_used,
        forall|i: int| 0 <= i < ops.len() ==> !(#[trigger] ops[i]).issues(ticket),
    ensures
        s.apply_all(ops).tickets.contains_key(ticket),
        s.apply_all(ops).tickets[ticket].is_used,
    decreases ops.len(),
{
    if ops.len() > 0 {
        let front = ops.drop_last();
        assert forall|i: int| 0 <= i < front.len() implies !(#[trigger] front[i]).issues(ticket) by {
            assert(front[i] == ops[i]);
        }
        lemma_used_ticket_stays_used_all(s, front, ticket);
        lemma_used_ticket_stays_used(s.apply_all(front), ops.last(), ticket);
    }
}

/// After a successful check-in, a second check-in of the same ticket is
/// rejected with `AlreadyUsed`, whoever the validator is.
pub proof fn lemma_second_check_in_fails(s: LedgerView, ticket: Name, first: Name, second: Name)
    requires
        s.validate_ticket(ticket, first).1.is_ok(),
    ensures
        s.validate_ticket(ticket, first).0.validate_ticket(ticket, second).1 == Err::<
            crate::models::TicketView,
            LedgerError,
        >(LedgerError::AlreadyUsed),
        s.validate_ticket(ticket, first).0.validate_ticket(ticket, second).0 == s.validate_ticket(
            ticket,
            first,
        ).0,
{
}

/// After a successful check-in, and after any run of further operations in
/// which the ticket's identifier is not issued anew, a check-in of the same
/// ticket is rejected with `AlreadyUsed`, whoever the validator is.
pub proof fn lemma_check_in_is_final(
    s: LedgerView,
    ticket: Name,
    first: Name,
    ops: Seq<Operation>,
    later: Name,
)
    requires
        s.validate_ticket(ticket, first).1.is_ok(),
        forall|i: int| 0 <= i < ops.len() ==> !(#[trigger] ops[i]).issues(ticket),
    ensures
        s.validate_ticket(ticket, first).0.apply_all(ops).validate_ticket(ticket, later).1 == Err::<
            crate::models::TicketView,
            LedgerError,
        >(LedgerError::AlreadyUsed),
{
    lemma_used_ticket_stays_used_all(s.validate_ticket(ticket, first).0, ops, ticket);
}

/// Right after its registration an event's organizer is an authorized
/// validator of it, with no validator entered.
pub proof fn lemma_organizer_is_validator(s: LedgerView, event: Name, organizer: Name)
    requires
        s.register_event(event, organizer).1.is_ok(),
    ensures
        s.register_event(event, organizer).0.is_organizer(event, organizer),
        s.register_event(event, organizer).0.is_authorized_validator(event, organizer),
{
}

/// The organizer of an event is an authorized validator of it in every
/// state, entered as a validator or not, and stays so through every
/// operation.
pub proof fn lemma_organizer_stays_validator(s: LedgerView, op: Operation, event: Name, organizer: Name)
    requires
        s.is_organizer(event, organizer),
    ensures
        s.is_authorized_validator(event, organizer),
        s.apply(op).is_organizer(event, organizer),
        s.apply(op).is_authorized_validator(event, organizer),
{
}

/// A validator who is entered and then struck is no longer authorized,
/// unless the validator is the organizer, who always is.
pub proof fn lemma_removed_validator_is_unauthorized(
    s: LedgerView,
    event: Name,
    caller: Name,
    validator: Name,
)
    requires
        s.add_validator(event, caller, validator).1.is_ok(),
        !s.is_organizer(event, validator),
    ensures
        s.add_validator(event, caller, validator).0.is_authorized_validator(event, validator),
        s.add_validator(event, caller, validator).0.remove_validator(event, caller, validator).1
            == Ok::<(), LedgerError>(()),
        !s.add_validator(event, caller, validator).0.remove_validator(
            event,
            caller,
            validator,
        ).0.is_authorized_validator(event, validator),
{
}

/// Entering a validator twice is entering it once, and striking a validator
/// who is not entered changes nothing.
pub proof fn lemma_validator_changes_are_idempotent(
    s: LedgerView,
    event: Name,
    caller: Name,
    validator: Name,
)
    ensures
        s.add_validator(event, caller, validator).0.add_validator(event, caller, validator)
            == s.add_validator(event, caller, validator),
        !s.validators.contains((event, validator)) ==> s.remove_validator(
            event,
            caller,
            validator,
        ).0 == s,
{
    let once = s.add_validator(event, caller, validator).0;
    if s.add_validator(event, caller, validator).1.is_ok() {
        assert(once.validators.insert((event, validator)) =~= once.validators);
    }
    assert(!s.validators.contains((event, validator)) ==> s.validators.remove((event, validator))
        =~= s.validators);
}

/// Approving twice is approving once, and revoking an approval that is not
/// on record changes nothing.
pub proof fn lemma_approval_changes_are_idempotent(s: LedgerView, event: Name, signer: Name)
    ensures
        s.approve_release(event, signer).0.approve_release(event, signer) == s.approve_release(
            event,
            signer,
        ),
        !s.approvals.contains((event, signer)) ==> s.revoke_approval(event, signer) == s,
        s.revoke_approval(event, signer).revoke_approval(event, signer) == s.revoke_approval(
            event,
            signer,
        ),
{
    let once = s.approve_release(event, signer).0;
    if s.approve_release(event, signer).1.is_ok() {
        assert(once.approvals.insert((event, signer)) =~= once.approvals);
    }
    assert(!s.approvals.contains((event, signer)) ==> s.approvals.remove((event, signer))
        =~= s.approvals);
    let revoked = s.revoke_approval(event, signer);
    assert(revoked.approvals.remove((event, signer)) =~= revoked.approvals);
}

/// Where no entry of `signers` has an approval on record, none is counted.
pub proof fn lemma_count_without_approvals(event: Name, signers: Seq<Name>, approvals: Set<(Name, Name)>)
    requires
        forall|i: int| 0 <= i < signers.len() ==> !approvals.contains((event, #[trigger] signers[i])),
    ensures
        count_approved(event, signers, approvals) == 0,
    decreases signers.len(),
{
    if signers.len() > 0 {
        let front = signers.drop_last();
        assert forall|i: int| 0 <= i < front.len() implies !approvals.contains(
            (event, #[trigger] front[i]),
        ) by {
            assert(front[i] == signers[i]);
        }
        lemma_count_without_approvals(event, front, approvals);
        assert(signers.last() == signers[signers.len() - 1]);
    }
}

/// No more approvals are counted than there are signers.
pub proof fn lemma_count_is_bounded(event: Name, signers: Seq<Name>, approvals: Set<(Name, Name)>)
    ensures
        count_approved(event, signers, approvals) <= signers.len(),
    decreases signers.len(),
{
    if signers.len() > 0 {
        lemma_count_is_bounded(event, signers.drop_last(), approvals);
    }
}

/// For a configured event a release succeeds exactly when the approvals
/// that count reach the threshold, and is rejected with `ThresholdNotMet`
/// otherwise.
pub proof fn lemma_release_needs_quorum(s: LedgerView, event: Name, destination: Name)
    requires
        s.escrows.contains_key(event),
    ensures
        s.distribute_escrow(event, destination).1.is_ok() <==> s.approval_count(event)
            >= s.escrows[event].threshold,
        !s.distribute_escrow(event, destination).1.is_ok() ==> s.distribute_escrow(
            event,
            destination,
        ).1 == Err::<(), LedgerError>(LedgerError::ThresholdNotMet),
{
}

/// A successful release uses its quorum up: afterwards no configured signer
/// of the event has an approval on record, none is counted, and a further
/// release with no new approval is rejected with `ThresholdNotMet`.
pub proof fn lemma_release_clears_approvals(
    s: LedgerView,
    event: Name,
    destination: Name,
    next_destination: Name,
)
    requires
        s.valid(),
        s.distribute_escrow(event, destination).1.is_ok(),
    ensures
        forall|signer: Name|
            s.escrows[event].signers.contains(signer) ==> !(#[trigger] s.distribute_escrow(
                event,
                destination,
            ).0.approvals.contains((event, signer))),
        s.distribute_escrow(event, destination).0.approval_count(event) == 0,
        s.distribute_escrow(event, destination).0.distribute_escrow(event, next_destination).1
            == Err::<(), LedgerError>(LedgerError::ThresholdNotMet),
{
    let signers = s.escrows[event].signers;
    let cleared = without_approvals(event, signers, s.approvals);
    assert forall|i: int| 0 <= i < signers.len() implies !cleared.contains(
        (event, #[trigger] signers[i]),
    ) by {
        assert(signers.contains(signers[i]));
    }
    lemma_count_without_approvals(event, signers, cleared);
}

/// Where every approval on record for the event is that of a configured
/// signer, a successful release leaves no approval for the event at all.
pub proof fn lemma_release_clears_every_approval(s: LedgerView, event: Name, destination: Name)
    requires
        s.distribute_escrow(event, destination).1.is_ok(),
        forall|who: Name| #[trigger]
            s.approvals.contains((event, who)) ==> s.escrows[event].signers.contains(who),
    ensures
        forall|who: Name|
            !(#[trigger] s.distribute_escrow(event, destination).0.approvals.contains((event, who))),
{
}

/// A release touches the approvals of its own event only.
pub proof fn lemma_release_spares_other_events(
    s: LedgerView,
    event: Name,
    destination: Name,
    other: Name,
    who: Name,
)
    requires
        other != event,
    ensures
        s.distribute_escrow(event, destination).0.approvals.contains((other, who))
            == s.approvals.contains((other, who)),
{
}

/// A ticket's owner changes by a transfer or a new issuance of the ticket
/// and by nothing else; whether it is used changes by a check-in or a new
/// issuance of the ticket and by nothing else; its event changes by a new
/// issuance only.
pub proof fn lemma_ticket_changes_only_by_its_operations(s: LedgerView, op: Operation, ticket: Name)
    requires
        s.tickets.contains_key(ticket),
        !op.issues(ticket),
    ensures
        s.apply(op).tickets.contains_key(ticket),
        s.apply(op).tickets[ticket].id == s.tickets[ticket].id,
        s.apply(op).tickets[ticket].event_id == s.tickets[ticket].event_id,
        !(op matches Operation::TransferTicket { ticket: t, .. } && t == ticket) ==> s.apply(
            op,
        ).tickets[ticket].owner == s.tickets[ticket].owner,
        !(op matches Operation::ValidateTicket { ticket: t, .. } && t == ticket) ==> s.apply(
            op,
        ).tickets[ticket].is_used == s.tickets[ticket].is_used,
{
}

/// An approval counts only while it is on record: once revoked, the signer
/// is no longer among the approvals of the event.
pub proof fn lemma_revoked_approval_is_gone(s: LedgerView, event: Name, signer: Name)
    ensures
        !s.revoke_approval(event, signer).approvals.contains((event, signer)),
        s.approve_release(event, signer).1.is_ok() ==> s.approve_release(
            event,
            signer,
        ).0.approvals.contains((event, signer)),
{
}

} // verus!

//! The decisions of the ledger on single records, apart from where the
//! records are kept. A caller that keeps the records in a store of its own
//! reads them, asks here, and writes back what it is handed.

use crate::models::{names, EventAuth, LedgerError, Ticket, TicketView};
use crate::sponsors::Tier;
use vstd::prelude::*;

verus! {

/// The verdict on the registration of an event: `AlreadyExists` where its
/// identifier is bound already.
pub fn registration_verdict(bound: bool) -> (r: Result<(), LedgerError>)
    ensures
        r == if bound {
            Err::<(), LedgerError>(LedgerError::AlreadyExists)
        } else {
            Ok::<(), LedgerError>(())
        },
{
    if bound {
        Err(LedgerError::AlreadyExists)
    } else {
        Ok(())
    }
}

/// The verdict on a caller who wants to change the validators of an event:
/// `NotFound` where the event is not registered, `Unauthorized` where the
/// caller is not its organizer.
pub fn organizer_verdict(auth: Option<&EventAuth>, caller: &String) -> (r: Result<(), LedgerError>)
    ensures
        r == match auth {
            None => Err::<(), LedgerError>(LedgerError::NotFound),
            Some(a) => if a.organizer@ == caller@ {
                Ok::<(), LedgerError>(())
            } else {
                Err::<(), LedgerError>(LedgerError::Unauthorized)
            },
        },
{
    match auth {
        None => Err(LedgerError::NotFound),
        Some(a) => if a.organizer == *caller {
            Ok(())
        } else {
            Err(LedgerError::Unauthorized)
        },
    }
}

/// Whether `candidate` may check tickets in for an event with the binding
/// `auth`: the organizer always may, anyone else only where `entered` says
/// that a validator entry exists.
pub fn may_validate(auth: Option<&EventAuth>, entered: bool, candidate: &String) -> (r: bool)
    ensures
        r == ((auth matches Some(a) && a.organizer@ == candidate@) || entered),
{
    if let Some(a) = auth {
        if a.organizer == *candidate {
            return true;
        }
    }
    entered
}

/// The check-in of one ticket: a used ticket is rejected with `AlreadyUsed`,
/// an unused one with `Unauthorized` unless the validator is authorized for
/// its event; otherwise the same ticket comes back, marked used.
pub fn check_in(ticket: &Ticket, authorized: bool) -> (r: Result<Ticket, LedgerError>)
    ensures
        match r {
            Ok(t) => !ticket.is_used && authorized && t@ == (TicketView { is_used: true, ..ticket@ }),
            Err(e) => if ticket.is_used {
                e == LedgerError::AlreadyUsed
            } else {
                !authorized && e == LedgerError::Unauthorized
            },
        },
{
    if ticket.is_used {
        return Err(LedgerError::AlreadyUsed);
    }
    if !authorized {
        return Err(LedgerError::Unauthorized);
    }
    Ok(
        Ticket {
            id: ticket.id.clone(),
            event_id: ticket.event_id.clone(),
            owner: ticket.owner.clone(),
            is_used: true,
        },
    )
}

/// Whether `who` is the recorded owner of the ticket.
pub fn is_owner(ticket: &Ticket, who: &String) -> (r: bool)
    ensures
        r == (ticket.owner@ == who@),
{
    ticket.owner == *who
}

/// The transfer of one ticket: rejected with `Unauthorized` unless
/// `current_owner` is the recorded owner; otherwise the same ticket comes
/// back with `new_owner` as its owner, used or unused as it was.
pub fn hand_over(ticket: &Ticket, current_owner: &String, new_owner: String) -> (r: Result<
    Ticket,
    LedgerError,
>)
    ensures
        match r {
            Ok(t) => ticket.owner@ == current_owner@ && t@ == (TicketView {
                owner: new_owner@,
                ..ticket@
            }),
            Err(e) => ticket.owner@ != current_owner@ && e == LedgerError::Unauthorized,
        },
{
    if !is_owner(ticket, current_owner) {
        return Err(LedgerError::Unauthorized);
    }
    Ok(
        Ticket {
            id: ticket.id.clone(),
            event_id: ticket.event_id.clone(),
            owner: new_owner,
            is_used: ticket.is_used,
        },
    )
}

/// Whether `who` occurs in `signers`.
pub fn is_listed(signers: &Vec<String>, who: &String) -> (r: bool)
    ensures
        r == names(signers@).contains(who@),
{
    let mut i: usize = 0;
    while i < signers.len()
        invariant
            i <= signers@.len(),
            forall|j: int| 0 <= j < i ==> (#[trigger] names(signers@)[j]) != who@,
        decreases signers@.len() - i,
    {
        if signers[i] == *who {
            assert(names(signers@)[i as int] == who@);
            return true;
        }
        i += 1;
    }
    false
}

/// The verdict on a threshold for `signers` signers: `InvalidThreshold`
/// where it is zero or exceeds their number.
pub fn threshold_verdict(threshold: u32, signers: usize) -> (r: Result<(), LedgerError>)
    ensures
        r == if threshold == 0 || threshold > signers {
            Err::<(), LedgerError>(LedgerError::InvalidThreshold)
        } else {
            Ok::<(), LedgerError>(())
        },
{
    if threshold == 0 || threshold as usize > signers {
        Err(LedgerError::InvalidThreshold)
    } else {
        Ok(())
    }
}

/// How many of the first `n` flags are set.
pub open spec fn count_set(flags: Seq<bool>, n: int) -> nat
    decreases n,
{
    if n <= 0 {
        0
    } else {
        count_set(flags, n - 1) + if flags[n - 1] {
            1nat
        } else {
            0nat
        }
    }
}

/// The number of flags that are set: of approvals on record, where each
/// flag says whether one signer's approval is.
pub fn count_present(flags: &Vec<bool>) -> (n: usize)
    ensures
        n == count_set(flags@, flags@.len() as int),
{
    let mut n: usize = 0;
    let mut i: usize = 0;
    while i < flags.len()
        invariant
            i <= flags@.len(),
            n <= i,
            n == count_set(flags@, i as int),
        decreases flags@.len() - i,
    {
        if flags[i] {
            n += 1;
        }
        i += 1;
    }
    n
}

/// The verdict on a release with `approved` approvals on record:
/// `ThresholdNotMet` where they are fewer than the threshold.
pub fn quorum_verdict(approved: usize, threshold: u32) -> (r: Result<(), LedgerError>)
    ensures
        r == if approved < threshold {
            Err::<(), LedgerError>(LedgerError::ThresholdNotMet)
        } else {
            Ok::<(), LedgerError>(())
        },
{
    if approved < threshold as usize {
        Err(LedgerError::ThresholdNotMet)
    } else {
        Ok(())
    }
}

/// A contribution of `amount` to one tier: rejected with `TierFull` where
/// no slot is free, then with `InvalidAmount` where the amount is not the
/// tier's price; otherwise the tier comes back with one more slot taken.
pub fn take_slot(tier: Tier, amount: i128) -> (r: Result<Tier, LedgerError>)
    ensures
        r == if tier.sponsor_count >= tier.max_sponsors {
            Err::<Tier, LedgerError>(LedgerError::TierFull)
        } else if amount != tier.price {
            Err::<Tier, LedgerError>(LedgerError::InvalidAmount)
        } else {
            Ok::<Tier, LedgerError>(
                Tier { sponsor_count: (tier.sponsor_count + 1) as u32, ..tier },
            )
        },
{
    if tier.sponsor_count >= tier.max_sponsors {
        return Err(LedgerError::TierFull);
    }
    if amount != tier.price {
        return Err(LedgerError::InvalidAmount);
    }
    Ok(
        Tier {
            price: tier.price,
            max_sponsors: tier.max_sponsors,
            sponsor_count: tier.sponsor_count + 1,
        },
    )
}

} // verus!

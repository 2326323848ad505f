//! The records of the ledger and their mathematical views.

use vstd::prelude::*;

verus! {

/// Why an operation was rejected. A rejected operation changes nothing.
#[derive(Clone, Copy, Debug, PartialEq, Eq, Structural)]
pub enum LedgerError {
    /// The entity that the operation names does not exist.
    NotFound,
    /// The caller is not the principal that the operation demands.
    Unauthorized,
    /// The event identifier is already bound to an organizer.
    AlreadyExists,
    /// The ticket has been checked in before.
    AlreadyUsed,
    /// The threshold is zero or exceeds the number of signers.
    InvalidThreshold,
    /// Fewer approvals are present than the threshold asks for.
    ThresholdNotMet,
    /// The amount offered differs from the tier's price.
    InvalidAmount,
    /// The tier has no sponsor slot left.
    TierFull,
}

/// The views of a list of names, in order.
pub open spec fn names(v: Seq<String>) -> Seq<Seq<char>> {
    Seq::new(v.len(), |i: int| v[i]@)
}

/// A copy of a list of names.
pub fn copy_names(v: &Vec<String>) -> (r: Vec<String>)
    ensures
        names(r@) == names(v@),
{
    let mut r: Vec<String> = Vec::new();
    let mut i: usize = 0;
    while i < v.len()
        invariant
            i <= v@.len(),
            r@.len() == i,
            forall|j: int| 0 <= j < i ==> (#[trigger] r@[j])@ == v@[j]@,
        decreases v@.len() - i,
    {
        r.push(v[i].clone());
        i += 1;
    }
    assert(names(r@) =~= names(v@));
    r
}

/// A ticket: issued once for an event, owned by one principal at a time, and
/// used at most once.
#[derive(Debug)]
pub struct Ticket {
    pub id: String,
    pub event_id: String,
    pub owner: String,
    pub is_used: bool,
}

/// What a ticket is, as plain mathematical values.
pub ghost struct TicketView {
    pub id: Seq<char>,
    pub event_id: Seq<char>,
    pub owner: Seq<char>,
    pub is_used: bool,
}

impl View for Ticket {
    type V = TicketView;

    open spec fn view(&self) -> TicketView {
        TicketView {
            id: self.id@,
            event_id: self.event_id@,
            owner: self.owner@,
            is_used: self.is_used,
        }
    }
}

impl Clone for Ticket {
    fn clone(&self) -> (r: Ticket)
        ensures
            r@ == self@,
    {
        Ticket {
            id: self.id.clone(),
            event_id: self.event_id.clone(),
            owner: self.owner.clone(),
            is_used: self.is_used,
        }
    }
}

/// The binding of an event to the organizer who registered it.
#[derive(Debug)]
pub struct EventAuth {
    pub event_id: String,
    pub organizer: String,
}

/// What an event binding is, as plain mathematical values.
pub ghost struct EventAuthView {
    pub event_id: Seq<char>,
    pub organizer: Seq<char>,
}

impl View for EventAuth {
    type V = EventAuthView;

    open spec fn view(&self) -> EventAuthView {
        EventAuthView { event_id: self.event_id@, organizer: self.organizer@ }
    }
}

/// The signers of an event's escrow and how many of them must approve a
/// release.
#[derive(Debug)]
pub struct EscrowConfig {
    pub event_id: String,
    pub signers: Vec<String>,
    pub threshold: u32,
}

/// What an escrow configuration is, as plain mathematical values.
pub ghost struct EscrowConfigView {
    pub event_id: Seq<char>,
    pub signers: Seq<Seq<char>>,
    pub threshold: u32,
}

impl View for EscrowConfig {
    type V = EscrowConfigView;

    open spec fn view(&self) -> EscrowConfigView {
        EscrowConfigView {
            event_id: self.event_id@,
            signers: names(self.signers@),
            threshold: self.threshold,
        }
    }
}

/// A message for the outside world, queued by the operation that caused it.
#[derive(Debug)]
pub enum Notification {
    /// A ticket was checked in by a validator.
    CheckIn { ticket_id: String, validator: String, event_id: String },
    /// A ticket changed hands.
    Transfer { ticket_id: String, from: String, to: String },
    /// An escrow release was decided in favour of a destination.
    Release { event_id: String, destination: String },
}

/// What a notification is, as plain mathematical values.
pub ghost enum NotificationView {
    CheckIn { ticket_id: Seq<char>, validator: Seq<char>, event_id: Seq<char> },
    Transfer { ticket_id: Seq<char>, from: Seq<char>, to: Seq<char> },
    Release { event_id: Seq<char>, destination: Seq<char> },
}

impl View for Notification {
    type V = NotificationView;

    open spec fn view(&self) -> NotificationView {
        match *self {
            Notification::CheckIn { ticket_id, validator, event_id } => NotificationView::CheckIn {
                ticket_id: ticket_id@,
                validator: validator@,
                event_id: event_id@,
            },
            Notification::Transfer { ticket_id, from, to } => NotificationView::Transfer {
                ticket_id: ticket_id@,
                from: from@,
                to: to@,
            },
            Notification::Release { event_id, destination } => NotificationView::Release {
                event_id: event_id@,
                destination: destination@,
            },
        }
    }
}

/// The views of a list of notifications, in order.
pub open spec fn notices(v: Seq<Notification>) -> Seq<NotificationView> {
    Seq::new(v.len(), |i: int| v[i]@)
}

} // verus!

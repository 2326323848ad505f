//! Sponsor tiers: a price and a number of slots for each tier of an event,
//! and the sponsors who took one.

use crate::models::{copy_names, names, LedgerError};
use crate::rules::take_slot;
use crate::state::Name;
use crate::table::{PairKey, Table};
use vstd::prelude::*;

verus! {

/// A sponsor tier: what a slot costs, how many there are, and how many are
/// taken.
#[derive(Clone, Copy, Debug, PartialEq, Eq, Structural)]
pub struct Tier {
    pub price: i128,
    pub max_sponsors: u32,
    pub sponsor_count: u32,
}

impl View for Tier {
    type V = Tier;

    open spec fn view(&self) -> Tier {
        *self
    }
}

/// The sponsors of one tier, in the order in which they contributed.
struct SponsorList {
    sponsors: Vec<String>,
}

impl View for SponsorList {
    type V = Seq<Name>;

    closed spec fn view(&self) -> Seq<Name> {
        names(self.sponsors@)
    }
}

/// The whole state of the sponsor registry. Tiers and sponsor lists are
/// keyed by the pair of event and tier.
pub ghost struct SponsorsView {
    pub tiers: Map<(Name, Name), Tier>,
    pub contributions: Map<(Name, Name), Seq<Name>>,
}

impl SponsorsView {
    /// The state in which nothing has happened yet.
    pub open spec fn empty() -> SponsorsView {
        SponsorsView { tiers: Map::empty(), contributions: Map::empty() }
    }

    /// Whether no tier has more slots taken than it has.
    pub open spec fn within_capacity(self) -> bool {
        forall|k: (Name, Name)| #[trigger]
            self.tiers.contains_key(k) ==> self.tiers[k].sponsor_count <= self.tiers[k].max_sponsors
    }

    /// The sponsors of a tier so far; none where nobody contributed.
    pub open spec fn sponsors_of(self, event: Name, tier: Name) -> Seq<Name> {
        if self.contributions.contains_key((event, tier)) {
            self.contributions[(event, tier)]
        } else {
            Seq::empty()
        }
    }

    /// Registration stores the tier with no slot taken, whatever was stored
    /// before. The list of sponsors is not touched.
    pub open spec fn register_sponsor_tier(
        self,
        event: Name,
        tier: Name,
        price: i128,
        max_sponsors: u32,
    ) -> SponsorsView {
        SponsorsView {
            tiers: self.tiers.insert(
                (event, tier),
                Tier { price, max_sponsors, sponsor_count: 0 },
            ),
            ..self
        }
    }

    /// A contribution of exactly the tier's price takes one free slot.
    pub open spec fn contribute(self, event: Name, tier: Name, sponsor: Name, amount: i128) -> (
        SponsorsView,
        Result<(), LedgerError>,
    ) {
        let key = (event, tier);
        if !self.tiers.contains_key(key) {
            (self, Err(LedgerError::NotFound))
        } else if self.tiers[key].sponsor_count >= self.tiers[key].max_sponsors {
            (self, Err(LedgerError::TierFull))
        } else if amount != self.tiers[key].price {
            (self, Err(LedgerError::InvalidAmount))
        } else {
            (
                SponsorsView {
                    tiers: self.tiers.insert(
                        key,
                        Tier {
                            sponsor_count: (self.tiers[key].sponsor_count + 1) as u32,
                            ..self.tiers[key]
                        },
                    ),
                    contributions: self.contributions.insert(
                        key,
                        self.sponsors_of(event, tier).push(sponsor),
                    ),
                },
                Ok(()),
            )
        }
    }
}

/// No tier has more slots taken than it has: this holds of the empty state
/// and survives every registration and every contribution, accepted or
/// rejected.
pub proof fn lemma_slots_stay_within_capacity(
    s: SponsorsView,
    event: Name,
    tier: Name,
    sponsor: Name,
    amount: i128,
    max_sponsors: u32,
)
    requires
        s.within_capacity(),
    ensures
        SponsorsView::empty().within_capacity(),
        s.register_sponsor_tier(event, tier, amount, max_sponsors).within_capacity(),
        s.contribute(event, tier, sponsor, amount).0.within_capacity(),
        s.contribute(event, tier, sponsor, amount).1.is_err() ==> s.contribute(
            event,
            tier,
            sponsor,
            amount,
        ).0 == s,
{
}

/// The sponsor registry: the tiers of each event and the sponsors of each
/// tier.
pub struct SponsorsContract {
    tiers: Table<PairKey, Tier>,
    contributions: Table<PairKey, SponsorList>,
}

impl View for SponsorsContract {
    type V = SponsorsView;

    closed spec fn view(&self) -> SponsorsView {
        SponsorsView { tiers: self.tiers@, contributions: self.contributions@ }
    }
}

impl SponsorsContract {
    /// The representation invariant of the registry: no tier has more slots
    /// taken than it has.
    #[verifier::type_invariant]
    closed spec fn wf(&self) -> bool {
        self@.within_capacity()
    }

    /// In every registry no tier has more slots taken than it has. The call
    /// computes nothing: it makes the fact known to a verified caller.
    pub fn know_within_capacity(&self)
        ensures
            self@.within_capacity(),
    {
        proof {
            use_type_invariant(self);
        }
    }

    /// Takes the registry out and leaves an empty one in its place.
    fn take(&mut self) -> (r: SponsorsContract)
        ensures
            r == *old(self),
    {
        let mut taken = SponsorsContract::new();
        std::mem::swap(self, &mut taken);
        taken
    }

    /// A registry in which nothing has happened yet.
    pub fn new() -> (r: Self)
        ensures
            r@ == SponsorsView::empty(),
    {
        SponsorsContract { tiers: Table::new(), contributions: Table::new() }
    }

    /// Registers a tier of an event with its price and number of slots, none
    /// of them taken. A tier registered before under the same names is
    /// replaced; its sponsors so far stay on record.
    pub fn register_sponsor_tier(
        &mut self,
        event_id: String,
        tier_id: String,
        price: i128,
        max_sponsors: u32,
    )
        ensures
            final(self)@ == old(self)@.register_sponsor_tier(
                event_id@,
                tier_id@,
                price,
                max_sponsors,
            ),
    {
        let key = PairKey { first: event_id, second: tier_id };
        proof {
            use_type_invariant(&*self);
        }
        let SponsorsContract { mut tiers, contributions } = self.take();
        tiers.insert(key, Tier { price, max_sponsors, sponsor_count: 0 });
        proof {
            lemma_slots_stay_within_capacity(
                old(self)@,
                event_id@,
                tier_id@,
                Seq::empty(),
                price,
                max_sponsors,
            );
        }
        *self = SponsorsContract { tiers, contributions };
    }

    /// Takes a slot of the tier for `sponsor`. Fails with `NotFound` for an
    /// unknown tier, with `TierFull` where every slot is taken, and with
    /// `InvalidAmount` where `amount` is not the tier's price; a full tier
    /// is reported before a wrong amount.
    pub fn contribute(&mut self, event_id: String, tier_id: String, sponsor: String, amount: i128) -> (r:
        Result<(), LedgerError>)
        ensures
            final(self)@ == old(self)@.contribute(event_id@, tier_id@, sponsor@, amount).0,
            r == old(self)@.contribute(event_id@, tier_id@, sponsor@, amount).1,
    {
        let key = PairKey { first: event_id.clone(), second: tier_id.clone() };
        let tier = match self.tiers.get(&key) {
            Some(t) => *t,
            None => {
                return Err(LedgerError::NotFound);
            },
        };
        let taken = match take_slot(tier, amount) {
            Ok(t) => t,
            Err(e) => {
                return Err(e);
            },
        };
        let mut sponsors = match self.contributions.get(&key) {
            Some(list) => copy_names(&list.sponsors),
            None => Vec::new(),
        };
        proof {
            assert(names(sponsors@) =~= self@.sponsors_of(event_id@, tier_id@));
        }
        let ghost earlier = names(sponsors@);
        sponsors.push(sponsor);
        proof {
            assert(names(sponsors@) =~= earlier.push(sponsor@));
        }
        proof {
            use_type_invariant(&*self);
        }
        let SponsorsContract { mut tiers, mut contributions } = self.take();
        contributions.insert(PairKey { first: event_id, second: tier_id }, SponsorList { sponsors });
        tiers.insert(key, taken);
        *self = SponsorsContract { tiers, contributions };
        Ok(())
    }

    /// The number of sponsors of the tier and their names, in the order in
    /// which they contributed; zero and none where nobody has.
    pub fn get_tier_contributions(&self, event_id: String, tier_id: String) -> (r: (
        usize,
        Vec<String>,
    ))
        ensures
            names(r.1@) == self@.sponsors_of(event_id@, tier_id@),
            r.0 == self@.sponsors_of(event_id@, tier_id@).len(),
    {
        let key = PairKey { first: event_id, second: tier_id };
        let list = match self.contributions.get(&key) {
            Some(list) => copy_names(&list.sponsors),
            None => Vec::new(),
        };
        proof {
            assert(names(list@) =~= self@.sponsors_of(event_id@, tier_id@));
        }
        (list.len(), list)
    }
}

} // verus!

//! The administrator's overview of all invitations.
use vstd::prelude::*;
use crate::guest::{Decision, Guest};

verus! {

/// The records of `s` with decision `d`, in their order in `s`.
pub open spec fn with_decision(s: Seq<Guest>, d: Decision) -> Seq<Guest>
    decreases s.len(),
{
    if s.len() == 0 {
        Seq::empty()
    } else {
        let rest = with_decision(s.drop_last(), d);
        if s.last().decision == d {
            rest.push(s.last())
        } else {
            rest
        }
    }
}

/// An accepted invitation that allows a plus one and names one.
pub open spec fn confirmed_plus_one(g: Guest) -> bool {
    &&& g.decision == Decision::Accepted
    &&& g.plus_one_allowed
    &&& match g.plus_one_name {
        Some(n) => n@.len() > 0,
        None => false,
    }
}

/// How many records of `s` bring a confirmed plus one.
pub open spec fn confirmed_plus_ones(s: Seq<Guest>) -> nat
    decreases s.len(),
{
    if s.len() == 0 {
        0
    } else {
        confirmed_plus_ones(s.drop_last()) + if confirmed_plus_one(s.last()) {
            1nat
        } else {
            0nat
        }
    }
}

/// The records of `guests` with decision `d`, keeping their order; given the
/// directory's listing ordered by guest name, the result is ordered by name.
pub fn list_by_decision(guests: &Vec<Guest>, d: Decision) -> (r: Vec<Guest>)
    ensures
        r@ == with_decision(guests@, d),
{
    let mut r: Vec<Guest> = Vec::new();
    let mut i: usize = 0;
    while i < guests.len()
        invariant
            i <= guests@.len(),
            r@ == with_decision(guests@.subrange(0, i as int), d),
        decreases guests@.len() - i,
    {
        assert(guests@.subrange(0, i + 1).drop_last() =~= guests@.subrange(0, i as int));
        if guests[i].decision == d {
            r.push(guests[i].duplicate());
        }
        i = i + 1;
    }
    assert(guests@.subrange(0, guests@.len() as int) =~= guests@);
    r
}

/// The number of accepted invitations that allow a plus one and name one.
pub fn count_confirmed_plus_ones(guests: &Vec<Guest>) -> (r: u64)
    ensures
        r == confirmed_plus_ones(guests@),
{
    let mut r: u64 = 0;
    let mut i: usize = 0;
    while i < guests.len()
        invariant
            i <= guests@.len(),
            r <= i,
            r == confirmed_plus_ones(guests@.subrange(0, i as int)),
        decreases guests@.len() - i,
    {
        assert(guests@.subrange(0, i + 1).drop_last() =~= guests@.subrange(0, i as int));
        let g = &guests[i];
        let confirmed = match g.decision {
            Decision::Accepted => g.plus_one_allowed && match &g.plus_one_name {
                Some(n) => n.unicode_len() > 0,
                None => false,
            },
            _ => false,
        };
        if confirmed {
            r = r + 1;
        }
        i = i + 1;
    }
    assert(guests@.subrange(0, guests@.len() as int) =~= guests@);
    r
}

/// The administrator's overview: the accepted, declined and unanswered
/// invitations, and the number of confirmed plus ones.
pub struct AdminSummary {
    pub attending: Vec<Guest>,
    pub declined: Vec<Guest>,
    pub noreply: Vec<Guest>,
    pub plus_one_count: u64,
}

/// The overview of the directory's listing `guests`.
pub fn admin_summary(guests: &Vec<Guest>) -> (r: AdminSummary)
    ensures
        r.attending@ == with_decision(guests@, Decision::Accepted),
        r.declined@ == with_decision(guests@, Decision::Declined),
        r.noreply@ == with_decision(guests@, Decision::NoReply),
        r.plus_one_count == confirmed_plus_ones(guests@),
{
    AdminSummary {
        attending: list_by_decision(guests, Decision::Accepted),
        declined: list_by_decision(guests, Decision::Declined),
        noreply: list_by_decision(guests, Decision::NoReply),
        plus_one_count: count_confirmed_plus_ones(guests),
    }
}

} // verus!

//! Histories of calls on a registry, and what holds after every one of them.

use crate::registry::{next_id, numbered_from_one, record, with_created, NewTour};
use crate::tour::TourView;
use vstd::prelude::*;

verus! {

/// One call on a registry.
pub enum Call {
    /// A creation, with what the caller handed over.
    Crear(NewTour),
    /// A reading of the whole listing.
    Obtener,
}

/// The listing that a registry holds after the calls of `history`, made in
/// that order on a new registry.
pub open spec fn listing_after(history: Seq<Call>) -> Seq<TourView>
    decreases history.len(),
{
    if history.len() == 0 {
        Seq::empty()
    } else {
        let before = listing_after(history.drop_last());
        match history.last() {
            Call::Crear(tour) => with_created(before, tour),
            Call::Obtener => before,
        }
    }
}

/// How many calls of `history` are creations.
pub open spec fn creations(history: Seq<Call>) -> nat
    decreases history.len(),
{
    if history.len() == 0 {
        0
    } else {
        let earlier = creations(history.drop_last());
        match history.last() {
            Call::Crear(_) => earlier + 1,
            Call::Obtener => earlier,
        }
    }
}

/// The identifier that the call at position `k` of `history` returns, where
/// that call is a creation.
pub open spec fn returned_id(history: Seq<Call>, k: int) -> nat {
    next_id(listing_after(history.take(k)))
}

/// A creation made after `history` stores what `with_created` says and
/// returns what `next_id` says of the listing that it found.
pub proof fn lemma_creation_extends_history(history: Seq<Call>, tour: NewTour)
    ensures
        listing_after(history.push(Call::Crear(tour))) == with_created(
            listing_after(history),
            tour,
        ),
        returned_id(history.push(Call::Crear(tour)), history.len() as int) == next_id(
            listing_after(history),
        ),
{
    let longer = history.push(Call::Crear(tour));
    assert(longer.drop_last() =~= history);
    assert(longer.take(history.len() as int) =~= history);
}

/// After any history the listing holds one tour for each creation, and the
/// tours are numbered from one in the order of their creation.
pub proof fn lemma_one_tour_for_each_creation(history: Seq<Call>)
    ensures
        listing_after(history).len() == creations(history),
        numbered_from_one(listing_after(history)),
    decreases history.len(),
{
    if history.len() > 0 {
        lemma_one_tour_for_each_creation(history.drop_last());
    }
}

/// Creations return 1, 2, 3 and so on in the order of the calls, however many
/// readings stand between them: each returns one more than the number of
/// creations before it.
pub proof fn lemma_identifiers_follow_call_order(history: Seq<Call>, k: int)
    requires
        0 <= k < history.len(),
        history[k] is Crear,
    ensures
        returned_id(history, k) == creations(history.take(k)) + 1,
{
    lemma_one_tour_for_each_creation(history.take(k));
}

/// Two creations of one history never return the same identifier, and the
/// later one returns the greater.
pub proof fn lemma_identifiers_never_repeat(history: Seq<Call>, j: int, k: int)
    requires
        0 <= j < k < history.len(),
        history[j] is Crear,
        history[k] is Crear,
    ensures
        returned_id(history, j) < returned_id(history, k),
{
    lemma_identifiers_follow_call_order(history, j);
    lemma_identifiers_follow_call_order(history, k);
    lemma_creations_grow(history.take(k), j + 1);
    assert(history.take(k).take(j + 1) =~= history.take(j + 1));
    assert(history.take(j + 1).drop_last() =~= history.take(j));
}

/// A longer history holds at least as many creations as any of its beginnings.
pub proof fn lemma_creations_grow(history: Seq<Call>, k: int)
    requires
        0 <= k <= history.len(),
    ensures
        creations(history.take(k)) <= creations(history),
    decreases history.len(),
{
    if k == history.len() {
        assert(history.take(k) =~= history);
    } else {
        lemma_creations_grow(history.drop_last(), k);
        assert(history.drop_last().take(k) =~= history.take(k));
    }
}

/// The listing only grows at its end: what was listed after the first `k`
/// calls is the beginning of what is listed after all of them, in the same
/// order and with the same contents.
pub proof fn lemma_listing_keeps_creation_order(history: Seq<Call>, k: int)
    requires
        0 <= k <= history.len(),
    ensures
        creations(history.take(k)) <= listing_after(history).len(),
        listing_after(history.take(k)) == listing_after(history).take(
            creations(history.take(k)) as int,
        ),
    decreases history.len(),
{
    lemma_one_tour_for_each_creation(history);
    lemma_creations_grow(history, k);
    if k == history.len() {
        assert(history.take(k) =~= history);
        assert(listing_after(history).take(creations(history) as int) =~= listing_after(history));
    } else {
        let shorter = history.drop_last();
        lemma_listing_keeps_creation_order(shorter, k);
        lemma_one_tour_for_each_creation(shorter);
        assert(shorter.take(k) =~= history.take(k));
        let n = creations(history.take(k)) as int;
        assert(listing_after(history).take(n) =~= listing_after(shorter).take(n));
    }
}

/// After one creation on a new registry the listing holds exactly that tour,
/// with the caller's fields, the identifier 1, the given creator, and
/// available.
pub proof fn lemma_first_creation(tour: NewTour)
    ensures
        listing_after(seq![Call::Crear(tour)]) == seq![record(1, tour)],
{
    let history = seq![Call::Crear(tour)];
    assert(history.drop_last() =~= Seq::<Call>::empty());
    assert(listing_after(history.drop_last()) =~= Seq::<TourView>::empty());
    assert(listing_after(history) =~= seq![record(1, tour)]);
}

/// A reading changes nothing: after it the registry lists what it listed
/// before.
pub proof fn lemma_reading_changes_nothing(history: Seq<Call>)
    ensures
        listing_after(history.push(Call::Obtener)) == listing_after(history),
{
    assert(history.push(Call::Obtener).drop_last() =~= history);
}

} // verus!

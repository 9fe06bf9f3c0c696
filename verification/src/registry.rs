//! The append-only registry of tours and the counter that numbers them.

use crate::tour::{Tour, TourView};
use candid::Principal;
use vstd::prelude::*;

verus! {

/// What a caller hands over to have a tour listed, together with the identity
/// that the host resolved for that caller.
pub struct NewTour {
    pub titulo: Seq<char>,
    pub descripcion: Seq<char>,
    pub precio: nat,
    pub categorias: Seq<Seq<char>>,
    pub creador: Principal,
}

/// The identifier that the next creation assigns: one more than the number of
/// tours listed so far.
pub open spec fn next_id(listing: Seq<TourView>) -> nat {
    listing.len() + 1
}

/// The record that a creation stores under `id`: the caller's fields as given,
/// and available.
pub open spec fn record(id: nat, tour: NewTour) -> TourView {
    TourView {
        id,
        titulo: tour.titulo,
        descripcion: tour.descripcion,
        precio: tour.precio,
        categorias: tour.categorias,
        creador: tour.creador,
        disponible: true,
    }
}

/// The listing after one more creation: the old listing, untouched, with the
/// new record behind it.
pub open spec fn with_created(listing: Seq<TourView>, tour: NewTour) -> Seq<TourView> {
    listing.push(record(next_id(listing), tour))
}

/// Every record carries its position in the listing, counted from one. So no
/// identifier occurs twice and none is left out.
pub open spec fn numbered_from_one(listing: Seq<TourView>) -> bool {
    forall|i: int| 0 <= i < listing.len() ==> (#[trigger] listing[i]).id == i + 1
}

/// All tours created so far, in creation order, and the last identifier
/// assigned.
pub struct Registry {
    tours: Vec<Tour>,
    counter: u64,
}

impl View for Registry {
    type V = Seq<TourView>;

    /// The listing: every tour created so far, oldest first.
    closed spec fn view(&self) -> Seq<TourView> {
        self.tours.deep_view()
    }
}

impl Registry {
    /// The last identifier assigned; zero while nothing has been created.
    pub closed spec fn spec_counter(&self) -> u64 {
        self.counter
    }

    /// The counter equals the number of tours listed, and the tours are
    /// numbered from one in creation order.
    pub open spec fn wf(&self) -> bool {
        &&& self.counter() == self@.len()
        &&& numbered_from_one(self@)
    }

    /// An empty registry whose counter stands at zero.
    pub fn new() -> (registry: Registry)
        ensures
            registry.wf(),
            registry@ == Seq::<TourView>::empty(),
            registry.counter() == 0,
    {
        Registry { tours: Vec::new(), counter: 0 }
    }

    /// Advances the counter by one, stores a tour under the new value with
    /// `creador` as its creator and `disponible` set, and returns that value.
    ///
    /// The counter must not have reached `u64::MAX`.
    pub fn crear_tour(
        &mut self,
        titulo: String,
        descripcion: String,
        precio: u64,
        categorias: Vec<String>,
        creador: Principal,
    ) -> (id: u64)
        requires
            old(self).wf(),
            old(self).counter() < u64::MAX,
        ensures
            final(self).wf(),
            id == next_id(old(self)@),
            final(self).counter() == old(self).counter() + 1,
            final(self)@ == with_created(
                old(self)@,
                (NewTour {
                    titulo: titulo@,
                    descripcion: descripcion@,
                    precio: precio as nat,
                    categorias: categorias.deep_view(),
                    creador,
                }),
            ),
    {
        self.counter = self.counter + 1;
        let id = self.counter;
        let new_tour = Tour {
            id,
            titulo,
            descripcion,
            precio,
            categorias,
            creador,
            disponible: true,
        };
        self.tours.push(new_tour);
        proof {
            assert(self@ =~= old(self)@.push(new_tour@));
        }
        id
    }

    /// The last identifier assigned; zero while nothing has been created.
    #[verifier::when_used_as_spec(spec_counter)]
    pub fn counter(&self) -> (n: u64)
        ensures
            n == self.spec_counter(),
    {
        self.counter
    }

    /// A copy of every tour, in creation order. The copy is the caller's own and
    /// the registry is only read: it lists the same after the call as before.
    pub fn obtener_tours(&self) -> (tours: Vec<Tour>)
        ensures
            tours.deep_view() == self@,
            tours@.len() == self@.len(),
            forall|i: int| 0 <= i < tours@.len() ==> (#[trigger] tours@[i])@ == self@[i],
    {
        self.tours.clone()
    }
}

} // verus!

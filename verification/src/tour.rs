//! The tour record and its mathematical view.

use candid::Principal;
use vstd::prelude::*;

verus! {

/// One published offering.
#[derive(Debug)]
pub struct Tour {
    /// Positive, unique within a registry, never reused.
    pub id: u64,
    pub titulo: String,
    pub descripcion: String,
    /// In the smallest currency unit.
    pub precio: u64,
    /// In the order given; may be empty, may repeat.
    pub categorias: Vec<String>,
    /// The caller that created the record.
    pub creador: Principal,
    /// True from creation on; nothing in this library clears it.
    pub disponible: bool,
}

/// What a `Tour` holds, as mathematical values.
pub struct TourView {
    pub id: nat,
    pub titulo: Seq<char>,
    pub descripcion: Seq<char>,
    pub precio: nat,
    pub categorias: Seq<Seq<char>>,
    pub creador: Principal,
    pub disponible: bool,
}

impl DeepView for Tour {
    type V = TourView;

    open spec fn deep_view(&self) -> TourView {
        TourView {
            id: self.id as nat,
            titulo: self.titulo@,
            descripcion: self.descripcion@,
            precio: self.precio as nat,
            categorias: self.categorias.deep_view(),
            creador: self.creador,
            disponible: self.disponible,
        }
    }
}

impl View for Tour {
    type V = TourView;

    open spec fn view(&self) -> TourView {
        self.deep_view()
    }
}

impl Clone for Tour {
    /// A copy that owns its strings and holds the same values.
    fn clone(&self) -> (copy: Tour)
        ensures
            copy@ == self@,
    {
        Tour {
            id: self.id,
            titulo: self.titulo.clone(),
            descripcion: self.descripcion.clone(),
            precio: self.precio,
            categorias: self.categorias.clone(),
            creador: self.creador,
            disponible: self.disponible,
        }
    }
}

} // verus!

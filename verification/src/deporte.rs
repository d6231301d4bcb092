//! Las actividades deportivas del club.

use vstd::prelude::*;

verus! {

/// Actividad deportiva que ofrece el club. Cada una tiene un identificador del 1 al 8,
/// en el orden en que se declaran.
#[derive(Clone, Copy, Debug, PartialEq, Eq, Structural)]
pub enum Deporte {
    Futbol,
    Gimnasio,
    Basquet,
    Rugby,
    Hockey,
    Natacion,
    Tenis,
    Paddle,
}

/// Identificador válido de deporte.
pub open spec fn id_deporte_valido(id: u32) -> bool {
    1 <= id <= 8
}

/// Deporte que corresponde a un identificador válido.
pub open spec fn deporte_de_id(id: u32) -> Deporte {
    if id == 1 {
        Deporte::Futbol
    } else if id == 2 {
        Deporte::Gimnasio
    } else if id == 3 {
        Deporte::Basquet
    } else if id == 4 {
        Deporte::Rugby
    } else if id == 5 {
        Deporte::Hockey
    } else if id == 6 {
        Deporte::Natacion
    } else if id == 7 {
        Deporte::Tenis
    } else {
        Deporte::Paddle
    }
}

/// Todos los deportes del club, ordenados por identificador.
pub open spec fn todos_los_deportes() -> Seq<Deporte> {
    seq![
        Deporte::Futbol,
        Deporte::Gimnasio,
        Deporte::Basquet,
        Deporte::Rugby,
        Deporte::Hockey,
        Deporte::Natacion,
        Deporte::Tenis,
        Deporte::Paddle,
    ]
}

impl Deporte {
    /// Devuelve la lista de todos los deportes existentes.
    pub fn get_deportes() -> (r: Vec<Deporte>)
        ensures
            r@ == todos_los_deportes(),
    {
        vec![
            Deporte::Futbol,
            Deporte::Gimnasio,
            Deporte::Basquet,
            Deporte::Rugby,
            Deporte::Hockey,
            Deporte::Natacion,
            Deporte::Tenis,
            Deporte::Paddle,
        ]
    }

    /// Devuelve el deporte de un identificador entre 1 y 8.
    pub fn match_deporte(id_deporte: u32) -> (r: Deporte)
        requires
            id_deporte_valido(id_deporte),
        ensures
            r == deporte_de_id(id_deporte),
    {
        match id_deporte {
            1 => Deporte::Futbol,
            2 => Deporte::Gimnasio,
            3 => Deporte::Basquet,
            4 => Deporte::Rugby,
            5 => Deporte::Hockey,
            6 => Deporte::Natacion,
            7 => Deporte::Tenis,
            _ => Deporte::Paddle,
        }
    }
}

/// La lista completa de deportes y la búsqueda por identificador coinciden: el deporte con
/// identificador `id` ocupa la posición `id - 1` de la lista, y dos identificadores
/// distintos nombran deportes distintos.
pub proof fn lemma_lista_de_deportes_por_id(id: u32, otro: u32)
    requires
        id_deporte_valido(id),
        id_deporte_valido(otro),
    ensures
        todos_los_deportes().len() == 8,
        todos_los_deportes()[id - 1] == deporte_de_id(id),
        id != otro ==> deporte_de_id(id) != deporte_de_id(otro),
{
}

} // verus!

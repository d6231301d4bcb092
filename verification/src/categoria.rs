//! Las categorías de socio y el precio mensual que corresponde a cada una.

use vstd::prelude::*;
use crate::deporte::{Deporte, deporte_de_id, id_deporte_valido, todos_los_deportes};

verus! {

/// Categoría de un socio. A (identificador 1) da acceso a todos los deportes, B (2) al
/// gimnasio y a un deporte elegido, C (3) sólo al gimnasio.
#[derive(Clone, Copy, Debug, PartialEq, Eq, Structural)]
pub enum Categoria {
    A,
    B,
    C,
}

/// Identificador válido de categoría.
pub open spec fn id_categoria_valido(id: u32) -> bool {
    1 <= id <= 3
}

/// Categoría de un identificador válido.
pub open spec fn categoria_de_id(id: u32) -> Categoria {
    if id == 1 {
        Categoria::A
    } else if id == 2 {
        Categoria::B
    } else {
        Categoria::C
    }
}

/// Posición del precio de una categoría en la lista de precios del club.
pub open spec fn indice_de_precio(c: Categoria) -> int {
    match c {
        Categoria::A => 0,
        Categoria::B => 1,
        Categoria::C => 2,
    }
}

/// Deportes, además del gimnasio, a los que da acceso una categoría, según el deporte
/// elegido (que sólo cuenta para la categoría B).
pub open spec fn deportes_de_categoria(c: Categoria, id_deporte: Option<u32>) -> Option<Seq<Deporte>> {
    match c {
        Categoria::A => Some(todos_los_deportes()),
        Categoria::B => Some(seq![deporte_de_id(id_deporte->0)]),
        Categoria::C => None,
    }
}

impl Categoria {
    /// Construye la categoría de un identificador entre 1 y 3.
    pub fn new(id_categoria: u32) -> (r: Categoria)
        requires
            id_categoria_valido(id_categoria),
        ensures
            r == categoria_de_id(id_categoria),
    {
        match id_categoria {
            1 => Categoria::A,
            2 => Categoria::B,
            _ => Categoria::C,
        }
    }

    /// Devuelve la categoría de un identificador entre 1 y 3.
    pub fn match_categoria(id_categoria: u32) -> (r: Categoria)
        requires
            id_categoria_valido(id_categoria),
        ensures
            r == categoria_de_id(id_categoria),
    {
        match id_categoria {
            1 => Categoria::A,
            2 => Categoria::B,
            _ => Categoria::C,
        }
    }

    /// Deportes a los que da acceso la categoría: todos para A, el elegido para B (que
    /// entonces debe venir), ninguno fuera del gimnasio para C.
    pub fn get_deporte(&self, id_deporte: Option<u32>) -> (r: Option<Vec<Deporte>>)
        requires
            *self == Categoria::B ==> id_deporte is Some && id_deporte_valido(id_deporte->0),
        ensures
            r matches Some(v) ==> deportes_de_categoria(*self, id_deporte) == Some(v@),
            r is None <==> deportes_de_categoria(*self, id_deporte) is None,
    {
        match self {
            Categoria::A => Some(Deporte::get_deportes()),
            Categoria::B => {
                let id = match id_deporte {
                    Some(id) => id,
                    None => 0,
                };
                Some(vec![Deporte::match_deporte(id)])
            },
            Categoria::C => None,
        }
    }

    /// Precio mensual de la categoría según la lista de precios `[A, B, C]` del club.
    pub fn mensual(&self, precio_categorias: Vec<u128>) -> (r: u128)
        requires
            indice_de_precio(*self) < precio_categorias.len(),
        ensures
            r == precio_categorias[indice_de_precio(*self)],
    {
        match self {
            Categoria::A => precio_categorias[0],
            Categoria::B => precio_categorias[1],
            Categoria::C => precio_categorias[2],
        }
    }
}

/// `new` y `match_categoria` construyen la misma categoría, y cada categoría tiene su
/// propia posición en la lista de precios.
pub proof fn lemma_categoria_por_id(id: u32)
    requires
        id_categoria_valido(id),
    ensures
        indice_de_precio(categoria_de_id(id)) == id - 1,
{
}

} // verus!

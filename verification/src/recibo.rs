//! Los recibos que se emiten por cada cuota pagada.

use vstd::prelude::*;
use crate::categoria::{Categoria, categoria_de_id, id_categoria_valido};

verus! {

/// Comprobante de una cuota pagada por un socio.
#[derive(Clone, Debug, PartialEq, Eq)]
pub struct Recibo {
    pub nombre: String,
    pub dni: u32,
    pub monto: u128,
    pub categoria: Categoria,
    /// Fecha en que se pagó.
    pub fecha: u64,
}

impl Recibo {
    /// Construye un recibo para la categoría `id_categoria` (de 1 a 3).
    pub fn new(nombre: String, dni: u32, monto: u128, id_categoria: u32, fecha: u64) -> (r: Recibo)
        requires
            id_categoria_valido(id_categoria),
        ensures
            r == (Recibo { nombre, dni, monto, categoria: categoria_de_id(id_categoria), fecha }),
    {
        Recibo { nombre, dni, monto, categoria: Categoria::match_categoria(id_categoria), fecha }
    }

    /// Devuelve el monto del recibo.
    pub fn get_monto(&self) -> (r: u128)
        ensures
            r == self.monto,
    {
        self.monto
    }

    /// Devuelve si el pago se hizo entre `fecha_min` y `fecha_max`, ambos incluidos.
    pub fn fecha_entre(&self, fecha_min: u64, fecha_max: u64) -> (r: bool)
        ensures
            r == (fecha_min <= self.fecha && self.fecha <= fecha_max),
    {
        self.fecha >= fecha_min && self.fecha <= fecha_max
    }
}

} // verus!

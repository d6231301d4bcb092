//! Las cuotas mensuales: su monto, su vencimiento y su pago.

use vstd::prelude::*;
use crate::categoria::{Categoria, categoria_de_id, id_categoria_valido, indice_de_precio};

verus! {

/// Una cuota mensual de un socio.
#[derive(Clone, Copy, Debug, PartialEq, Eq, Structural)]
pub struct Pago {
    /// Momento a partir del cual la cuota impaga está vencida.
    pub vencimiento: u64,
    pub categoria: Categoria,
    /// Monto a pagar.
    pub monto: u128,
    pub pendiente: bool,
    /// Si se pagó antes del vencimiento.
    pub a_tiempo: bool,
    /// Si al pagarla se aplicó la bonificación.
    pub aplico_descuento: bool,
    pub fecha_pago: Option<u64>,
}

/// Precio con el porcentaje `descuento` descontado.
pub open spec fn precio_con_descuento(precio: u128, descuento: u128) -> int {
    precio - (precio * descuento) / 100
}

/// El descuento se puede aplicar a la lista de precios: hay un precio por categoría, el
/// porcentaje no pasa de 100 y ningún producto precio por porcentaje desborda.
pub open spec fn descuento_aplicable(precios: Seq<u128>, descuento: u128) -> bool {
    &&& precios.len() >= 3
    &&& descuento <= 100
    &&& forall|i: int| 0 <= i < 3 ==> precios[i] * descuento <= u128::MAX
}

/// Precios de las tres categorías con el descuento aplicado.
pub open spec fn precios_descontados(precios: Seq<u128>, descuento: u128) -> Seq<u128> {
    Seq::new(3, |i: int| precio_con_descuento(precios[i], descuento) as u128)
}

/// Lista de precios que rige para una cuota nueva, con o sin descuento.
pub open spec fn precios_vigentes(precios: Seq<u128>, descuento: Option<u128>) -> Seq<u128> {
    match descuento {
        Some(d) => precios_descontados(precios, d),
        None => precios,
    }
}

/// Se puede crear una cuota de la categoría `id_categoria` con esos precios y ese descuento.
pub open spec fn cuota_creable(id_categoria: u32, descuento: Option<u128>, precios: Seq<u128>) -> bool {
    &&& id_categoria_valido(id_categoria)
    &&& match descuento {
        Some(d) => descuento_aplicable(precios, d),
        None => precios.len() >= id_categoria,
    }
}

/// La cuota pendiente que se crea con un vencimiento, una categoría, un descuento y precios.
pub open spec fn cuota_nueva(
    vencimiento: u64,
    id_categoria: u32,
    descuento: Option<u128>,
    precios: Seq<u128>,
) -> Pago {
    let categoria = categoria_de_id(id_categoria);
    Pago {
        vencimiento,
        categoria,
        monto: precios_vigentes(precios, descuento)[indice_de_precio(categoria)],
        pendiente: true,
        a_tiempo: false,
        aplico_descuento: descuento is Some,
        fecha_pago: None,
    }
}

/// La cuota `p` después de pagarse en `fecha`.
pub open spec fn cuota_pagada(p: Pago, descuento: Option<u128>, fecha: u64) -> Pago {
    Pago {
        fecha_pago: Some(fecha),
        pendiente: false,
        aplico_descuento: p.aplico_descuento || descuento is Some,
        a_tiempo: p.vencimiento > fecha,
        ..p
    }
}

proof fn lemma_descuento_acotado(precio: u128, descuento: u128)
    by (nonlinear_arith)
    requires
        descuento <= 100,
    ensures
        0 <= (precio * descuento) / 100 <= precio,
{
}

/// Aplica el porcentaje `descuento` a los precios de las tres categorías.
pub fn aplicar_descuento(precio_categorias: &Vec<u128>, descuento: u128) -> (r: Vec<u128>)
    requires
        descuento_aplicable(precio_categorias@, descuento),
    ensures
        r@ == precios_descontados(precio_categorias@, descuento),
{
    let mut nuevos_precios: Vec<u128> = Vec::with_capacity(3);
    for i in 0..3usize
        invariant
            descuento_aplicable(precio_categorias@, descuento),
            nuevos_precios@ == precios_descontados(precio_categorias@, descuento).take(i as int),
    {
        let precio = precio_categorias[i];
        proof {
            lemma_descuento_acotado(precio, descuento);
        }
        let multiplicado = precio * descuento;
        nuevos_precios.push(precio - multiplicado / 100);
        assert(nuevos_precios@ =~= precios_descontados(precio_categorias@, descuento).take(i + 1));
    }
    assert(nuevos_precios@ =~= precios_descontados(precio_categorias@, descuento));
    nuevos_precios
}

/// Dice si el descuento se puede aplicar a la lista de precios.
pub fn admite_descuento(precio_categorias: &Vec<u128>, descuento: u128) -> (r: bool)
    ensures
        r == descuento_aplicable(precio_categorias@, descuento),
{
    if precio_categorias.len() < 3 || descuento > 100 {
        return false;
    }
    let mut i: usize = 0;
    while i < 3
        invariant
            precio_categorias@.len() >= 3,
            i <= 3,
            forall|j: int| 0 <= j < i ==> precio_categorias@[j] * descuento <= u128::MAX,
        decreases 3 - i,
    {
        if precio_categorias[i].checked_mul(descuento).is_none() {
            return false;
        }
        i += 1;
    }
    true
}

impl Pago {
    /// La cuota guarda su fecha de pago exactamente cuando ya no está pendiente.
    pub open spec fn inv(&self) -> bool {
        self.pendiente <==> self.fecha_pago is None
    }

    /// Vencida e impaga en el momento `now`.
    pub open spec fn moroso_en(&self, now: u64) -> bool {
        self.pendiente && self.vencimiento < now
    }

    /// Crea la cuota pendiente de la categoría `id_categoria`, cuyo monto es el precio de la
    /// categoría, con el descuento aplicado si lo hay.
    pub fn new(vencimiento: u64, id_categoria: u32, descuento: Option<u128>, precio_categorias: Vec<u128>) -> (r: Pago)
        requires
            cuota_creable(id_categoria, descuento, precio_categorias@),
        ensures
            r == cuota_nueva(vencimiento, id_categoria, descuento, precio_categorias@),
            r.inv(),
    {
        let categoria = Categoria::new(id_categoria);
        let precio_categorias = match descuento {
            Some(d) => aplicar_descuento(&precio_categorias, d),
            None => precio_categorias,
        };
        Pago {
            vencimiento,
            categoria,
            monto: categoria.mensual(precio_categorias),
            pendiente: true,
            a_tiempo: false,
            aplico_descuento: descuento.is_some(),
            fecha_pago: None,
        }
    }

    /// Devuelve si la cuota está vencida e impaga en el momento `now`.
    pub fn es_moroso(&self, now: u64) -> (r: bool)
        ensures
            r == self.moroso_en(now),
    {
        self.pendiente && self.vencimiento < now
    }

    /// Devuelve si `monto` es lo que corresponde pagar por la categoría de la cuota con esos
    /// precios y ese descuento.
    pub fn verificar_pago(&self, monto: u128, precio_categorias: Vec<u128>, descuento: Option<u128>) -> (r: bool)
        requires
            match descuento {
                Some(d) => descuento_aplicable(precio_categorias@, d),
                None => indice_de_precio(self.categoria) < precio_categorias.len(),
            },
        ensures
            r == (monto == precios_vigentes(precio_categorias@, descuento)[indice_de_precio(self.categoria)]),
    {
        let precios = match descuento {
            Some(d) => aplicar_descuento(&precio_categorias, d),
            None => precio_categorias,
        };
        self.categoria.mensual(precios) == monto
    }

    /// Registra el pago de la cuota pendiente en `fecha`, por su monto exacto.
    pub fn realizar_pago(&mut self, descuento: Option<u128>, monto: u128, fecha: u64)
        requires
            old(self).pendiente,
            monto == old(self).monto,
        ensures
            *final(self) == cuota_pagada(*old(self), descuento, fecha),
            final(self).inv(),
    {
        self.fecha_pago = Some(fecha);
        self.pendiente = false;
        if descuento.is_some() {
            self.aplico_descuento = true;
        }
        self.a_tiempo = self.vencimiento > fecha;
    }
}

/// Una cuota pagada nunca está morosa, sea cual sea el momento.
pub proof fn lemma_cuota_pagada_no_es_morosa(p: Pago, descuento: Option<u128>, fecha: u64, now: u64)
    ensures
        !cuota_pagada(p, descuento, fecha).moroso_en(now),
        cuota_pagada(p, descuento, fecha).inv(),
{
}

/// La cuota bonificada cuesta el precio de su categoría menos el porcentaje de descuento,
/// nunca más que el precio sin descuento.
pub proof fn lemma_cuota_bonificada(vencimiento: u64, id_categoria: u32, descuento: u128, precios: Seq<u128>)
    requires
        id_categoria_valido(id_categoria),
        descuento_aplicable(precios, descuento),
    ensures
        cuota_nueva(vencimiento, id_categoria, Some(descuento), precios).monto == precio_con_descuento(
            precios[id_categoria - 1],
            descuento,
        ),
        cuota_nueva(vencimiento, id_categoria, Some(descuento), precios).monto <= precios[id_categoria - 1],
        cuota_nueva(vencimiento, id_categoria, Some(descuento), precios).aplico_descuento,
{
    lemma_descuento_acotado(precios[id_categoria - 1], descuento);
}

/// Una cuota está morosa en `now` exactamente cuando sigue pendiente y su vencimiento ya
/// pasó, sin importar su monto, su categoría ni si lleva descuento.
pub proof fn lemma_morosidad_de_cuota(p: Pago, now: u64)
    ensures
        p.moroso_en(now) <==> (p.pendiente && p.vencimiento < now),
{
}

} // verus!

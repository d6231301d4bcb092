//! Los socios del club: su categoría, su deporte elegido y su historial de cuotas.

use vstd::prelude::*;
use crate::categoria::{Categoria, categoria_de_id, deportes_de_categoria, id_categoria_valido, lemma_categoria_por_id};
use crate::deporte::{Deporte, id_deporte_valido};
use crate::pago::{Pago, cuota_creable, cuota_nueva, cuota_pagada, lemma_cuota_bonificada};
use crate::recibo::Recibo;

verus! {

/// Un socio del club.
#[derive(Debug, PartialEq, Eq)]
pub struct Socio {
    /// Deporte elegido, sólo para la categoría B.
    pub id_deporte: Option<u32>,
    pub id_categoria: u32,
    pub dni: u32,
    pub nombre: String,
    /// Historial de cuotas, de la más antigua a la más reciente.
    pub pagos: Vec<Pago>,
}

/// Combinación admitida de categoría y deporte: la categoría B elige un deporte que no es
/// el gimnasio (identificador 2); A y C no eligen ninguno.
pub open spec fn categoria_consistente(id_categoria: u32, id_deporte: Option<u32>) -> bool {
    &&& id_categoria_valido(id_categoria)
    &&& id_categoria == 2 ==> (id_deporte is Some && id_deporte != Some(2u32))
    &&& id_categoria != 2 ==> id_deporte is None
}

/// `i` es la posición de la primera cuota pendiente.
pub open spec fn es_primer_pendiente(pagos: Seq<Pago>, i: int) -> bool {
    &&& 0 <= i < pagos.len()
    &&& pagos[i].pendiente
    &&& forall|j: int| 0 <= j < i ==> !pagos[j].pendiente
}

/// Hay alguna cuota pendiente.
pub open spec fn tiene_pendiente(pagos: Seq<Pago>) -> bool {
    exists|i: int| 0 <= i < pagos.len() && pagos[i].pendiente
}

/// Posición de la primera cuota pendiente.
pub open spec fn primer_pendiente(pagos: Seq<Pago>) -> int {
    choose|i: int| es_primer_pendiente(pagos, i)
}

/// Recibos de las cuotas pagadas de `pagos`, en orden, a nombre de un socio; cada uno
/// lleva la categoría de su cuota.
pub open spec fn recibos_de_pagos(nombre: String, dni: u32, pagos: Seq<Pago>) -> Seq<Recibo>
    decreases pagos.len(),
{
    if pagos.len() == 0 {
        Seq::empty()
    } else {
        let anteriores = recibos_de_pagos(nombre, dni, pagos.drop_last());
        let p = pagos.last();
        if p.pendiente {
            anteriores
        } else {
            anteriores.push(
                Recibo {
                    nombre,
                    dni,
                    monto: p.monto,
                    categoria: p.categoria,
                    fecha: p.fecha_pago->0,
                },
            )
        }
    }
}

/// Sólo una posición puede ser la de la primera cuota pendiente.
pub proof fn lemma_primer_pendiente_unico(pagos: Seq<Pago>, i: int)
    requires
        es_primer_pendiente(pagos, i),
    ensures
        primer_pendiente(pagos) == i,
{
    let k = primer_pendiente(pagos);
    assert(es_primer_pendiente(pagos, k));
    if k < i {
        assert(!pagos[k].pendiente);
    } else if i < k {
        assert(!pagos[i].pendiente);
    }
}

/// Contenido de un socio, con su historial como secuencia.
pub struct SocioVista {
    pub id_deporte: Option<u32>,
    pub id_categoria: u32,
    pub dni: u32,
    pub nombre: String,
    pub pagos: Seq<Pago>,
}

/// El socio después de pagar su primera cuota pendiente en `fecha`: esa cuota queda
/// pagada y se agrega una nueva, que vence `deadline` después que la pagada.
pub open spec fn vista_tras_pago(
    v: SocioVista,
    descuento: Option<u128>,
    fecha: u64,
    precios: Seq<u128>,
    deadline: u64,
) -> SocioVista {
    let k = primer_pendiente(v.pagos);
    let pagada = v.pagos[k];
    SocioVista {
        pagos: v.pagos.update(k, cuota_pagada(pagada, descuento, fecha)).push(
            cuota_nueva((pagada.vencimiento + deadline) as u64, v.id_categoria, descuento, precios),
        ),
        ..v
    }
}

impl View for Socio {
    type V = SocioVista;

    open spec fn view(&self) -> SocioVista {
        SocioVista {
            id_deporte: self.id_deporte,
            id_categoria: self.id_categoria,
            dni: self.dni,
            nombre: self.nombre,
            pagos: self.pagos@,
        }
    }
}

impl Clone for Socio {
    fn clone(&self) -> (r: Self)
        ensures
            r@ == self@,
    {
        let pagos = self.pagos.clone();
        assert(pagos@ =~= self.pagos@);
        Socio {
            id_deporte: self.id_deporte,
            id_categoria: self.id_categoria,
            dni: self.dni,
            nombre: self.nombre.clone(),
            pagos,
        }
    }
}

/// Con el invariante, la primera cuota pendiente es la última del historial.
pub proof fn lemma_pendiente_es_la_ultima(s: Socio)
    requires
        s.inv(),
    ensures
        tiene_pendiente(s.pagos@),
        primer_pendiente(s.pagos@) == s.pagos.len() - 1,
{
    assert(es_primer_pendiente(s.pagos@, s.pagos.len() - 1));
    lemma_primer_pendiente_unico(s.pagos@, s.pagos.len() - 1);
}

impl Socio {
    /// Invariante de un socio: categoría y deporte consistentes, y un historial cuya única
    /// cuota pendiente es la última; las cuotas pagadas guardan su fecha de pago.
    pub open spec fn inv(&self) -> bool {
        &&& categoria_consistente(self.id_categoria, self.id_deporte)
        &&& self.pagos.len() >= 1
        &&& self.pagos@.last().pendiente
        &&& forall|i: int| 0 <= i < self.pagos.len() - 1 ==> !#[trigger] self.pagos@[i].pendiente
        &&& forall|i: int| 0 <= i < self.pagos.len() ==> #[trigger] self.pagos@[i].inv()
    }

    /// Puede emitir sus recibos: tiene cuotas, y cada cuota pagada tiene fecha.
    pub open spec fn recibos_emitibles(&self) -> bool {
        &&& self.pagos.len() > 0
        &&& forall|i: int|
            0 <= i < self.pagos.len() && !#[trigger] self.pagos@[i].pendiente ==> self.pagos@[i].fecha_pago is Some
    }

    /// Recibos de las cuotas pagadas del socio.
    pub open spec fn recibos(&self) -> Seq<Recibo> {
        recibos_de_pagos(self.nombre, self.dni, self.pagos@)
    }

    /// Su última cuota está vencida e impaga en `now`.
    pub open spec fn moroso_en(&self, now: u64) -> bool {
        self.pagos@.last().moroso_en(now)
    }

    /// Habilitado para el deporte `id_deporte`: A para todos, B para el gimnasio (2) y el
    /// deporte elegido, C sólo para el gimnasio.
    pub open spec fn habilitado_para(&self, id_deporte: u32) -> bool {
        if self.id_categoria == 1 {
            true
        } else if self.id_categoria == 2 {
            id_deporte == 2 || self.id_deporte == Some(id_deporte)
        } else {
            id_deporte == 2
        }
    }

    /// Cantidad de cuotas del historial sin contar la última si está pendiente: las que
    /// ya se cerraron.
    pub open spec fn cuotas_cerradas(&self) -> int {
        if self.pagos.len() > 0 && self.pagos@.last().pendiente {
            self.pagos.len() - 1
        } else {
            self.pagos.len() as int
        }
    }

    /// Las últimas `n` cuotas cerradas (sin contar la pendiente del final) se pagaron a
    /// tiempo y sin descuento.
    pub open spec fn bonificable(&self, n: u32) -> bool {
        &&& n <= self.cuotas_cerradas()
        &&& forall|i: int|
            self.cuotas_cerradas() - n <= i < self.cuotas_cerradas() ==> {
                &&& !(#[trigger] self.pagos@[i]).aplico_descuento
                &&& self.pagos@[i].a_tiempo
            }
    }

    /// Construye un socio con una cuota pendiente que vence en `vencimiento`.
    pub fn new(
        nombre: String,
        dni: u32,
        id_categoria: u32,
        id_deporte: Option<u32>,
        vencimiento: u64,
        precio_categorias: Vec<u128>,
    ) -> (r: Socio)
        requires
            categoria_consistente(id_categoria, id_deporte),
            cuota_creable(id_categoria, None, precio_categorias@),
        ensures
            r.id_deporte == id_deporte,
            r.id_categoria == id_categoria,
            r.dni == dni,
            r.nombre == nombre,
            r.pagos@ == seq![cuota_nueva(vencimiento, id_categoria, None, precio_categorias@)],
            r.inv(),
    {
        let pago_inicial: Vec<Pago> = vec![Pago::new(vencimiento, id_categoria, None, precio_categorias)];
        Socio { id_deporte, id_categoria, dni, nombre, pagos: pago_inicial }
    }

    /// Devuelve si el socio puede practicar el deporte `id_deporte`.
    pub fn puede_hacer_deporte(&self, id_deporte: u32) -> (r: bool)
        requires
            id_categoria_valido(self.id_categoria),
        ensures
            r == self.habilitado_para(id_deporte),
    {
        match self.id_categoria {
            1 => true,
            2 => match id_deporte {
                2 => true,
                _ => match self.id_deporte {
                    Some(id_dep) => id_dep == id_deporte,
                    None => false,
                },
            },
            _ => id_deporte == 2,
        }
    }

    /// Emite un recibo por cada cuota pagada, en el orden del historial, con la categoría
    /// en que se cobró la cuota.
    pub fn generar_recibos(&self) -> (r: Vec<Recibo>)
        requires
            self.recibos_emitibles(),
        ensures
            r@ == self.recibos(),
    {
        let mut recibos: Vec<Recibo> = Vec::new();
        let n = self.pagos.len();
        for i in 0..n
            invariant
                n == self.pagos.len(),
                self.recibos_emitibles(),
                recibos@ == recibos_de_pagos(self.nombre, self.dni, self.pagos@.take(i as int)),
        {
            assert(self.pagos@.take(i + 1).drop_last() =~= self.pagos@.take(i as int));
            let p = self.pagos[i];
            if !p.pendiente {
                let fe = match p.fecha_pago {
                    Some(fe) => fe,
                    None => 0,
                };
                let recibo = Recibo {
                    nombre: self.nombre.clone(),
                    dni: self.dni,
                    monto: p.monto,
                    categoria: p.categoria,
                    fecha: fe,
                };
                recibos.push(recibo);
            }
        }
        assert(self.pagos@.take(n as int) =~= self.pagos@);
        recibos
    }

    /// Devuelve si la última cuota está vencida e impaga en `current_time`.
    pub fn es_moroso(&self, current_time: u64) -> (r: bool)
        requires
            self.pagos.len() > 0,
        ensures
            r == self.moroso_en(current_time),
    {
        self.pagos[self.pagos.len() - 1].es_moroso(current_time)
    }

    /// Paga la primera cuota pendiente, en `fecha` y por su monto exacto, y agrega la cuota
    /// siguiente, pendiente, que vence `deadline` después que la cuota pagada.
    pub fn realizar_pago(
        &mut self,
        descuento: Option<u128>,
        monto: u128,
        fecha: u64,
        precio_categorias: Vec<u128>,
        deadline: u64,
    )
        requires
            tiene_pendiente(old(self).pagos@),
            monto == old(self).pagos@[primer_pendiente(old(self).pagos@)].monto,
            old(self).pagos@[primer_pendiente(old(self).pagos@)].vencimiento + deadline <= u64::MAX,
            cuota_creable(old(self).id_categoria, descuento, precio_categorias@),
        ensures
            final(self)@ == vista_tras_pago(old(self)@, descuento, fecha, precio_categorias@, deadline),
            old(self).inv() ==> final(self).inv(),
    {
        let n = self.pagos.len();
        let mut i: usize = 0;
        while i < n && !self.pagos[i].pendiente
            invariant
                n == self.pagos.len(),
                i <= n,
                forall|j: int| 0 <= j < i ==> !self.pagos@[j].pendiente,
            decreases n - i,
        {
            i += 1;
        }
        if i == n {
            assert(false);
        }
        proof {
            lemma_primer_pendiente_unico(self.pagos@, i as int);
            if old(self).inv() {
                lemma_pendiente_es_la_ultima(*old(self));
            }
        }
        let mut pago = self.pagos[i];
        let vencimiento = pago.vencimiento + deadline;
        pago.realizar_pago(descuento, monto, fecha);
        self.pagos.set(i, pago);
        let siguiente = Pago::new(vencimiento, self.id_categoria, descuento, precio_categorias);
        self.pagos.push(siguiente);
    }

    /// Devuelve si las últimas `pagos_consecutivos` cuotas pagadas (sin contar la cuota
    /// pendiente del final) se pagaron a tiempo y sin descuento.
    pub fn cumple_bonificacion(&self, pagos_consecutivos: u32) -> (r: bool)
        ensures
            r == self.bonificable(pagos_consecutivos),
    {
        let n = self.pagos.len();
        let j = if n > 0 && self.pagos[n - 1].pendiente {
            n - 1
        } else {
            n
        };
        if j < pagos_consecutivos as usize {
            return false;
        }
        let m = j - pagos_consecutivos as usize;
        let mut i = m;
        while i < j
            invariant
                j == self.cuotas_cerradas(),
                j <= self.pagos.len(),
                m == j - pagos_consecutivos,
                m <= i <= j,
                forall|k: int|
                    m <= k < i ==> !(#[trigger] self.pagos@[k]).aplico_descuento && self.pagos@[k].a_tiempo,
            decreases j - i,
        {
            let p = self.pagos[i];
            if p.aplico_descuento || !p.a_tiempo {
                return false;
            }
            i += 1;
        }
        true
    }

    /// Cambia la categoría del socio y su deporte elegido.
    pub fn cambiar_categoria(&mut self, id_categoria: u32, id_deporte: Option<u32>)
        requires
            categoria_consistente(id_categoria, id_deporte),
        ensures
            final(self)@ == (SocioVista { id_categoria, id_deporte, ..old(self)@ }),
            old(self).inv() ==> final(self).inv(),
    {
        self.id_categoria = id_categoria;
        self.id_deporte = id_deporte;
    }

    /// Deportes, además del gimnasio, a los que tiene acceso el socio: todos en la categoría
    /// A, el elegido en la B, ninguno en la C.
    pub fn get_mi_deporte(&self) -> (r: Option<Vec<Deporte>>)
        requires
            id_categoria_valido(self.id_categoria),
            self.id_categoria == 2 ==> self.id_deporte is Some && id_deporte_valido(self.id_deporte->0),
        ensures
            r matches Some(v) ==> deportes_de_categoria(categoria_de_id(self.id_categoria), self.id_deporte) == Some(v@),
            r is None <==> self.id_categoria == 3,
    {
        match self.id_categoria {
            3 => None,
            2 => Categoria::match_categoria(self.id_categoria).get_deporte(self.id_deporte),
            _ => Categoria::match_categoria(self.id_categoria).get_deporte(None),
        }
    }

    /// Devuelve si el socio es de la categoría `id_c`.
    pub fn mi_categoria(&self, id_c: u32) -> (r: bool)
        ensures
            r == (self.id_categoria == id_c),
    {
        self.id_categoria == id_c
    }
}

/// Recibos de un historial en el que ninguna cuota está pendiente: uno por cuota.
proof fn lemma_recibos_de_pagos_pagados(nombre: String, dni: u32, pagos: Seq<Pago>)
    requires
        forall|i: int| 0 <= i < pagos.len() ==> !#[trigger] pagos[i].pendiente,
    ensures
        recibos_de_pagos(nombre, dni, pagos).len() == pagos.len(),
    decreases pagos.len(),
{
    if pagos.len() > 0 {
        let previos = pagos.drop_last();
        assert forall|i: int| 0 <= i < previos.len() implies !#[trigger] previos[i].pendiente by {
            assert(previos[i] == pagos[i]);
        }
        lemma_recibos_de_pagos_pagados(nombre, dni, previos);
        assert(!pagos[pagos.len() - 1].pendiente);
    }
}

/// Un socio válido tiene un recibo por cada cuota pagada, que son todas menos la última.
pub proof fn lemma_un_recibo_por_cuota_pagada(s: Socio)
    requires
        s.inv(),
    ensures
        s.recibos().len() == s.pagos.len() - 1,
{
    let pagos = s.pagos@;
    let previos = pagos.drop_last();
    assert forall|i: int| 0 <= i < previos.len() implies !#[trigger] previos[i].pendiente by {
        assert(previos[i] == pagos[i]);
    }
    lemma_recibos_de_pagos_pagados(s.nombre, s.dni, previos);
}

/// Después de pagar, un socio válido queda al día hasta el nuevo vencimiento, que es el
/// de la cuota pagada más el plazo, y su única cuota pendiente es la nueva.
pub proof fn lemma_al_dia_tras_pagar(
    antes: Socio,
    despues: Socio,
    descuento: Option<u128>,
    fecha: u64,
    precios: Seq<u128>,
    deadline: u64,
    t: u64,
)
    requires
        antes.inv(),
        antes.pagos@.last().vencimiento + deadline <= u64::MAX,
        despues@ == vista_tras_pago(antes@, descuento, fecha, precios, deadline),
        t <= antes.pagos@.last().vencimiento + deadline,
    ensures
        despues.pagos.len() == antes.pagos.len() + 1,
        despues.pagos@.last().vencimiento == antes.pagos@.last().vencimiento + deadline,
        despues.pagos@.last().pendiente,
        forall|i: int| 0 <= i < despues.pagos.len() - 1 ==> !(#[trigger] despues.pagos@[i]).pendiente,
        !despues.moroso_en(t),
{
    lemma_pendiente_es_la_ultima(antes);
}

/// Todos los socios pueden ir al gimnasio; la categoría A da acceso a todo, la B al
/// gimnasio y al deporte elegido, y la C sólo al gimnasio.
pub proof fn lemma_acceso_por_categoria(s: Socio, id_deporte: u32)
    requires
        categoria_consistente(s.id_categoria, s.id_deporte),
    ensures
        s.habilitado_para(2),
        s.id_categoria == 1 ==> s.habilitado_para(id_deporte),
        s.id_categoria == 3 ==> (s.habilitado_para(id_deporte) <==> id_deporte == 2),
        s.id_categoria == 2 ==> (s.habilitado_para(id_deporte) <==> (id_deporte == 2 || s.id_deporte == Some(id_deporte))),
{
}

/// En un historial válido (la última cuota pendiente), el socio es bonificable para `n`
/// exactamente cuando las `n` cuotas anteriores a la pendiente se pagaron a tiempo y sin
/// descuento, sea cual sea lo que pasó antes.
pub proof fn lemma_bonificacion_por_ultimas_cuotas(s: Socio, n: u32)
    requires
        s.pagos.len() > 0,
        s.pagos@.last().pendiente,
    ensures
        s.bonificable(n) <==> {
            &&& n <= s.pagos.len() - 1
            &&& forall|i: int|
                s.pagos.len() - 1 - n <= i < s.pagos.len() - 1 ==> {
                    &&& !(#[trigger] s.pagos@[i]).aplico_descuento
                    &&& s.pagos@[i].a_tiempo
                }
        },
{
}

/// La bonificación depende sólo de las últimas `n` cuotas cerradas: dos socios con la
/// misma cantidad de cuotas cerradas que coinciden en esas `n` cuotas son bonificables
/// los dos o ninguno.
pub proof fn lemma_bonificacion_local(a: Socio, b: Socio, n: u32)
    requires
        a.pagos.len() > 0,
        b.pagos.len() > 0,
        a.pagos@.last().pendiente,
        b.pagos@.last().pendiente,
        a.pagos.len() == b.pagos.len(),
        n <= a.pagos.len() - 1,
        forall|i: int| a.pagos.len() - 1 - n <= i < a.pagos.len() - 1 ==> a.pagos@[i] == b.pagos@[i],
    ensures
        a.bonificable(n) == b.bonificable(n),
{
    lemma_bonificacion_por_ultimas_cuotas(a, n);
    lemma_bonificacion_por_ultimas_cuotas(b, n);
    if a.bonificable(n) {
        assert forall|i: int| b.pagos.len() - 1 - n <= i < b.pagos.len() - 1 implies {
            &&& !(#[trigger] b.pagos@[i]).aplico_descuento
            &&& b.pagos@[i].a_tiempo
        } by {
            assert(a.pagos@[i] == b.pagos@[i]);
        }
    }
    if b.bonificable(n) {
        assert forall|i: int| a.pagos.len() - 1 - n <= i < a.pagos.len() - 1 implies {
            &&& !(#[trigger] a.pagos@[i]).aplico_descuento
            &&& a.pagos@[i].a_tiempo
        } by {
            assert(a.pagos@[i] == b.pagos@[i]);
        }
    }
}

/// En un historial sin cuotas pendientes, el recibo `i` es el de la cuota `i`: su monto,
/// su categoría y su fecha de pago.
proof fn lemma_recibo_i_de_pagos_pagados(nombre: String, dni: u32, pagos: Seq<Pago>, i: int)
    requires
        forall|j: int| 0 <= j < pagos.len() ==> !#[trigger] pagos[j].pendiente,
        0 <= i < pagos.len(),
    ensures
        recibos_de_pagos(nombre, dni, pagos).len() == pagos.len(),
        recibos_de_pagos(nombre, dni, pagos)[i] == (Recibo {
            nombre,
            dni,
            monto: pagos[i].monto,
            categoria: pagos[i].categoria,
            fecha: pagos[i].fecha_pago->0,
        }),
    decreases pagos.len(),
{
    let previos = pagos.drop_last();
    assert forall|j: int| 0 <= j < previos.len() implies !#[trigger] previos[j].pendiente by {
        assert(previos[j] == pagos[j]);
    }
    lemma_recibos_de_pagos_pagados(nombre, dni, previos);
    assert(!pagos[pagos.len() - 1].pendiente);
    if i < pagos.len() - 1 {
        lemma_recibo_i_de_pagos_pagados(nombre, dni, previos, i);
    }
}

/// En un socio válido, el recibo `i` corresponde a la cuota pagada `i`: lleva el nombre y
/// el DNI del socio, y el monto, la categoría y la fecha de pago de esa cuota.
pub proof fn lemma_recibo_de_cada_cuota(s: Socio, i: int)
    requires
        s.inv(),
        0 <= i < s.pagos.len() - 1,
    ensures
        s.recibos().len() == s.pagos.len() - 1,
        s.recibos()[i].nombre == s.nombre,
        s.recibos()[i].dni == s.dni,
        s.recibos()[i].monto == s.pagos@[i].monto,
        s.recibos()[i].categoria == s.pagos@[i].categoria,
        Some(s.recibos()[i].fecha) == s.pagos@[i].fecha_pago,
{
    let pagos = s.pagos@;
    let previos = pagos.drop_last();
    assert forall|j: int| 0 <= j < previos.len() implies !#[trigger] previos[j].pendiente by {
        assert(previos[j] == pagos[j]);
    }
    lemma_recibo_i_de_pagos_pagados(s.nombre, s.dni, previos, i);
    assert(previos[i] == pagos[i]);
    assert(pagos[i].inv());
}

/// Al pagar en un historial válido: la cuota pendiente queda pagada en `fecha` (a tiempo si
/// vencía después), las anteriores no cambian, y se agrega una cuota nueva pendiente de la
/// categoría actual del socio, con el precio de esa categoría (con el descuento, si lo hay)
/// y que vence `deadline` después que la pagada.
pub proof fn lemma_cuota_siguiente(
    v: SocioVista,
    descuento: Option<u128>,
    fecha: u64,
    precios: Seq<u128>,
    deadline: u64,
)
    requires
        v.pagos.len() > 0,
        v.pagos.last().pendiente,
        forall|j: int| 0 <= j < v.pagos.len() - 1 ==> !(#[trigger] v.pagos[j]).pendiente,
        cuota_creable(v.id_categoria, descuento, precios),
        v.pagos.last().vencimiento + deadline <= u64::MAX,
    ensures
        ({
            let w = vista_tras_pago(v, descuento, fecha, precios, deadline);
            let k = v.pagos.len() - 1;
            let antes = v.pagos[k];
            let pagada = w.pagos[k];
            let nueva = w.pagos[k + 1];
            let precio = precios[v.id_categoria - 1];
            &&& w.id_categoria == v.id_categoria
            &&& w.id_deporte == v.id_deporte
            &&& w.dni == v.dni
            &&& w.nombre == v.nombre
            &&& w.pagos.len() == v.pagos.len() + 1
            &&& forall|j: int| 0 <= j < k ==> w.pagos[j] == v.pagos[j]
            &&& !pagada.pendiente
            &&& pagada.fecha_pago == Some(fecha)
            &&& pagada.a_tiempo == (antes.vencimiento > fecha)
            &&& pagada.monto == antes.monto
            &&& pagada.categoria == antes.categoria
            &&& pagada.vencimiento == antes.vencimiento
            &&& pagada.aplico_descuento == (antes.aplico_descuento || descuento is Some)
            &&& nueva.pendiente
            &&& !nueva.a_tiempo
            &&& nueva.fecha_pago is None
            &&& nueva.categoria == categoria_de_id(v.id_categoria)
            &&& nueva.vencimiento == antes.vencimiento + deadline
            &&& nueva.aplico_descuento == (descuento is Some)
            &&& nueva.monto == match descuento {
                Some(d) => precio - (precio * d) / 100,
                None => precio as int,
            }
        }),
{
    let k = v.pagos.len() - 1;
    assert(es_primer_pendiente(v.pagos, k));
    lemma_primer_pendiente_unico(v.pagos, k);
    let venc = (v.pagos[k].vencimiento + deadline) as u64;
    lemma_categoria_por_id(v.id_categoria);
    match descuento {
        Some(d) => {
            lemma_cuota_bonificada(venc, v.id_categoria, d, precios);
        },
        None => {},
    }
}

} // verus!

//! El contrato de reportes: socios morosos, socios al día por actividad y recaudación
//! mensual.

use vstd::prelude::*;
use crate::calendario::{
    MS_POR_DIA,
    anio_bisiesto,
    dias_antes_del_anio,
    dias_antes_del_mes,
    lemma_dias_antes_del_anio_cota,
    lemma_dias_antes_del_anio_monotono,
    lemma_dias_antes_del_mes_cota,
    lemma_dias_antes_del_mes_monotono,
    timestamp_de_fecha,
};
use crate::categoria::id_categoria_valido;
use crate::recibo::Recibo;
use crate::socio::Socio;

verus! {

/// Duración de un mes para la recaudación: 30 días en milisegundos.
pub const MS_POR_MES: u64 = 2_592_000_000;

/// Suma de los montos de los recibos con fecha entre `desde` y `hasta`, ambos incluidos.
pub open spec fn suma_recibos(recibos: Seq<Recibo>, desde: u64, hasta: u64) -> int
    decreases recibos.len(),
{
    if recibos.len() == 0 {
        0
    } else {
        let r = recibos.last();
        suma_recibos(recibos.drop_last(), desde, hasta) + if desde <= r.fecha && r.fecha <= hasta {
            r.monto as int
        } else {
            0
        }
    }
}

/// Total recaudado entre `desde` y `hasta` según los recibos de todos los socios.
pub open spec fn recaudacion(socios: Seq<Socio>, desde: u64, hasta: u64) -> int
    decreases socios.len(),
{
    if socios.len() == 0 {
        0
    } else {
        recaudacion(socios.drop_last(), desde, hasta) + suma_recibos(socios.last().recibos(), desde, hasta)
    }
}

/// Socio moroso en `hoy`.
pub open spec fn es_moroso_en(hoy: u64) -> spec_fn(Socio) -> bool {
    |s: Socio| s.moroso_en(hoy)
}

/// Socio habilitado para el deporte `id_deporte` y no moroso en `hoy`.
pub open spec fn al_dia_para(id_deporte: u32, hoy: u64) -> spec_fn(Socio) -> bool {
    |s: Socio| s.habilitado_para(id_deporte) && !s.moroso_en(hoy)
}

/// Una suma de prefijo de recibos no supera la suma completa.
pub proof fn lemma_suma_recibos_prefijo(recibos: Seq<Recibo>, j: int, desde: u64, hasta: u64)
    requires
        0 <= j <= recibos.len(),
    ensures
        0 <= suma_recibos(recibos.take(j), desde, hasta) <= suma_recibos(recibos, desde, hasta),
    decreases recibos.len(),
{
    if j == recibos.len() {
        assert(recibos.take(j) =~= recibos);
        lemma_suma_recibos_no_negativa(recibos, desde, hasta);
    } else {
        lemma_suma_recibos_prefijo(recibos.drop_last(), j, desde, hasta);
        assert(recibos.drop_last().take(j) =~= recibos.take(j));
    }
}

/// Las sumas de recibos no son negativas.
pub proof fn lemma_suma_recibos_no_negativa(recibos: Seq<Recibo>, desde: u64, hasta: u64)
    ensures
        0 <= suma_recibos(recibos, desde, hasta),
    decreases recibos.len(),
{
    if recibos.len() > 0 {
        lemma_suma_recibos_no_negativa(recibos.drop_last(), desde, hasta);
    }
}

/// La recaudación de un prefijo de socios no supera la de todos.
pub proof fn lemma_recaudacion_prefijo(socios: Seq<Socio>, i: int, desde: u64, hasta: u64)
    requires
        0 <= i <= socios.len(),
    ensures
        0 <= recaudacion(socios.take(i), desde, hasta) <= recaudacion(socios, desde, hasta),
    decreases socios.len(),
{
    if i == socios.len() {
        assert(socios.take(i) =~= socios);
        lemma_recaudacion_no_negativa(socios, desde, hasta);
    } else {
        lemma_recaudacion_prefijo(socios.drop_last(), i, desde, hasta);
        assert(socios.drop_last().take(i) =~= socios.take(i));
        lemma_suma_recibos_no_negativa(socios.last().recibos(), desde, hasta);
    }
}

/// La recaudación no es negativa.
pub proof fn lemma_recaudacion_no_negativa(socios: Seq<Socio>, desde: u64, hasta: u64)
    ensures
        0 <= recaudacion(socios, desde, hasta),
    decreases socios.len(),
{
    if socios.len() > 0 {
        lemma_recaudacion_no_negativa(socios.drop_last(), desde, hasta);
        lemma_suma_recibos_no_negativa(socios.last().recibos(), desde, hasta);
    }
}

/// Para los años que caben en un `u16`, el comienzo de cualquier mes, más 30 días, cabe
/// en un `u64`.
pub proof fn lemma_timestamp_acotado(mes: int, anio: u16)
    requires
        1 <= mes <= 12,
        anio >= 1970,
    ensures
        0 <= timestamp_de_fecha(mes, anio as int),
        timestamp_de_fecha(mes, anio as int) + MS_POR_MES <= u64::MAX,
{
    lemma_dias_antes_del_anio_cota(anio as int);
    lemma_dias_antes_del_mes_cota(mes, anio as int);
}

/// Regla gregoriana sobre el año completo.
fn bisiesto(anio: u64) -> (r: bool)
    ensures
        r == anio_bisiesto(anio as int),
{
    anio % 4 == 0 && (anio % 100 != 0 || anio % 400 == 0)
}

/// Contrato que genera los reportes de cobranza del club.
pub struct GestorDeCobros {}

impl GestorDeCobros {
    /// Crea el gestor.
    pub fn new() -> (r: Self)
        ensures
            r == (GestorDeCobros {}),
    {
        GestorDeCobros {}
    }

    /// Devuelve si `anio` es bisiesto según el calendario gregoriano.
    pub fn es_bisiesto(&self, anio: u16) -> (r: bool)
        ensures
            r == anio_bisiesto(anio as int),
    {
        if anio % 4 != 0 {
            false
        } else if anio % 100 != 0 {
            true
        } else if anio % 400 != 0 {
            false
        } else {
            true
        }
    }

    /// Milisegundos desde la época Unix hasta el primer día de `mes` de `anio`.
    ///
    /// El mes va de 1 a 12 y el año no es anterior a 1970.
    pub fn date_to_timestamp(&self, mes: u64, anio: u64) -> (r: u64)
        requires
            1 <= mes <= 12,
            anio >= 1970,
            timestamp_de_fecha(mes as int, anio as int) <= u64::MAX,
        ensures
            r == timestamp_de_fecha(mes as int, anio as int),
    {
        proof {
            lemma_dias_antes_del_anio_cota(anio as int);
            lemma_dias_antes_del_mes_cota(mes as int, anio as int);
        }
        match self.date_to_timestamp_checked(mes, anio) {
            Some(r) => r,
            None => 0,
        }
    }

    /// Como `date_to_timestamp`, pero devuelve `None` cuando el resultado no cabe en un
    /// `u64`.
    pub fn date_to_timestamp_checked(&self, mes: u64, anio: u64) -> (r: Option<u64>)
        requires
            1 <= mes <= 12,
            anio >= 1970,
        ensures
            r == if timestamp_de_fecha(mes as int, anio as int) <= u64::MAX {
                Some(timestamp_de_fecha(mes as int, anio as int) as u64)
            } else {
                None::<u64>
            },
    {
        proof {
            lemma_dias_antes_del_mes_cota(mes as int, anio as int);
        }
        let mut segs_anios: u64 = 0;
        for i in 1970..anio
            invariant
                1970 <= anio,
                1 <= mes <= 12,
                segs_anios == MS_POR_DIA * dias_antes_del_anio(i as int),
                0 <= dias_antes_del_mes(mes as int, anio as int),
        {
            proof {
                lemma_dias_antes_del_anio_monotono(i + 1, anio as int);
            }
            let dias: u64 = if bisiesto(i) { 366 } else { 365 };
            match segs_anios.checked_add(MS_POR_DIA * dias) {
                Some(s) => {
                    segs_anios = s;
                },
                None => {
                    return None;
                },
            }
        }
        if mes == 1 {
            return Some(segs_anios);
        }
        let mut segs_meses: u64 = 0;
        for j in 1..mes
            invariant
                1 <= mes <= 12,
                segs_anios == MS_POR_DIA * dias_antes_del_anio(anio as int),
                segs_meses == MS_POR_DIA * dias_antes_del_mes(j as int, anio as int),
                0 <= dias_antes_del_anio(anio as int),
                dias_antes_del_mes(mes as int, anio as int) <= 31 * 11,
        {
            proof {
                lemma_dias_antes_del_mes_monotono(j as int + 1, mes as int, anio as int);
            }
            let dias: u64 = if j == 2 {
                if bisiesto(anio) { 29 } else { 28 }
            } else if j == 4 || j == 6 || j == 9 || j == 11 {
                30
            } else {
                31
            };
            segs_meses += MS_POR_DIA * dias;
        }
        segs_anios.checked_add(segs_meses)
    }

    /// Socios morosos en `hoy`: los que tienen su última cuota vencida e impaga. Conserva
    /// el orden de `socios`.
    pub fn socios_morosos(&self, socios: Vec<Socio>, hoy: u64) -> (r: Vec<Socio>)
        requires
            forall|i: int| 0 <= i < socios.len() ==> (#[trigger] socios@[i]).pagos.len() > 0,
        ensures
            r@ == socios@.filter(es_moroso_en(hoy)),
    {
        let ghost todos = socios@;
        let mut morosos: Vec<Socio> = Vec::new();
        for s in it: socios.into_iter()
            invariant
                it.seq() == todos,
                forall|i: int| 0 <= i < todos.len() ==> (#[trigger] todos[i]).pagos.len() > 0,
                morosos@ == todos.take(it.index() as int).filter(es_moroso_en(hoy)),
        {
            proof {
                reveal_with_fuel(Seq::<_>::filter, 1);
                assert(todos.take(it.index() + 1).drop_last() =~= todos.take(it.index() as int));
            }
            if s.es_moroso(hoy) {
                morosos.push(s);
            }
        }
        proof {
            assert(todos.take(todos.len() as int) =~= todos);
        }
        morosos
    }

    /// Socios habilitados para la actividad `id_deporte` que no están morosos en `hoy`.
    /// Conserva el orden de `socios`.
    pub fn socios_no_morosos(&self, socios: Vec<Socio>, id_deporte: u32, hoy: u64) -> (r: Vec<Socio>)
        requires
            forall|i: int|
                0 <= i < socios.len() ==> {
                    &&& id_categoria_valido((#[trigger] socios@[i]).id_categoria)
                    &&& socios@[i].habilitado_para(id_deporte) ==> socios@[i].pagos.len() > 0
                },
        ensures
            r@ == socios@.filter(al_dia_para(id_deporte, hoy)),
    {
        let ghost todos = socios@;
        let mut al_dia: Vec<Socio> = Vec::new();
        for s in it: socios.into_iter()
            invariant
                it.seq() == todos,
                forall|i: int|
                    0 <= i < todos.len() ==> {
                        &&& id_categoria_valido((#[trigger] todos[i]).id_categoria)
                        &&& todos[i].habilitado_para(id_deporte) ==> todos[i].pagos.len() > 0
                    },
                al_dia@ == todos.take(it.index() as int).filter(al_dia_para(id_deporte, hoy)),
        {
            proof {
                reveal_with_fuel(Seq::<_>::filter, 1);
                assert(todos.take(it.index() + 1).drop_last() =~= todos.take(it.index() as int));
            }
            if s.puede_hacer_deporte(id_deporte) && !s.es_moroso(hoy) {
                al_dia.push(s);
            }
        }
        proof {
            assert(todos.take(todos.len() as int) =~= todos);
        }
        al_dia
    }

    /// Recaudación del mes `mes` de `anio`: la suma de los montos de todos los recibos
    /// cuya fecha cae entre el comienzo del mes y 30 días después, ambos incluidos.
    pub fn get_recaudacion(&self, socios: Vec<Socio>, mes: u8, anio: u16) -> (r: u128)
        requires
            1 <= mes <= 12,
            anio >= 1970,
            forall|i: int| 0 <= i < socios.len() ==> (#[trigger] socios@[i]).recibos_emitibles(),
            recaudacion(
                socios@,
                timestamp_de_fecha(mes as int, anio as int) as u64,
                (timestamp_de_fecha(mes as int, anio as int) + MS_POR_MES) as u64,
            ) <= u128::MAX,
        ensures
            r == recaudacion(
                socios@,
                timestamp_de_fecha(mes as int, anio as int) as u64,
                (timestamp_de_fecha(mes as int, anio as int) + MS_POR_MES) as u64,
            ),
    {
        proof {
            lemma_recaudacion_no_negativa(
                socios@,
                timestamp_de_fecha(mes as int, anio as int) as u64,
                (timestamp_de_fecha(mes as int, anio as int) + MS_POR_MES) as u64,
            );
        }
        match self.get_recaudacion_checked(socios, mes, anio) {
            Some(r) => r,
            None => 0,
        }
    }

    /// Como `get_recaudacion`, pero devuelve `None` cuando el total no cabe en un `u128`.
    pub fn get_recaudacion_checked(&self, socios: Vec<Socio>, mes: u8, anio: u16) -> (r: Option<u128>)
        requires
            1 <= mes <= 12,
            anio >= 1970,
            forall|i: int| 0 <= i < socios.len() ==> (#[trigger] socios@[i]).recibos_emitibles(),
        ensures
            ({
                let desde = timestamp_de_fecha(mes as int, anio as int) as u64;
                let hasta = (timestamp_de_fecha(mes as int, anio as int) + MS_POR_MES) as u64;
                r == if recaudacion(socios@, desde, hasta) <= u128::MAX {
                    Some(recaudacion(socios@, desde, hasta) as u128)
                } else {
                    None::<u128>
                }
            }),
    {
        proof {
            lemma_timestamp_acotado(mes as int, anio);
        }
        let fecha_from: u64 = self.date_to_timestamp(mes as u64, anio as u64);
        let fecha_to: u64 = self.date_to_timestamp(mes as u64, anio as u64) + MS_POR_MES;
        let ghost total = recaudacion(socios@, fecha_from, fecha_to);
        let mut suma: u128 = 0;
        let n = socios.len();
        for i in 0..n
            invariant
                n == socios.len(),
                forall|k: int| 0 <= k < socios.len() ==> (#[trigger] socios@[k]).recibos_emitibles(),
                total == recaudacion(socios@, fecha_from, fecha_to),
                fecha_from == timestamp_de_fecha(mes as int, anio as int),
                fecha_to == timestamp_de_fecha(mes as int, anio as int) + MS_POR_MES,
                suma == recaudacion(socios@.take(i as int), fecha_from, fecha_to),
        {
            let recibos = socios[i].generar_recibos();
            proof {
                assert(socios@.take(i + 1).drop_last() =~= socios@.take(i as int));
                lemma_recaudacion_prefijo(socios@, i + 1, fecha_from, fecha_to);
            }
            let m = recibos.len();
            for j in 0..m
                invariant
                    m == recibos.len(),
                    recibos@ == socios@[i as int].recibos(),
                    total == recaudacion(socios@, fecha_from, fecha_to),
                    fecha_from == timestamp_de_fecha(mes as int, anio as int),
                    fecha_to == timestamp_de_fecha(mes as int, anio as int) + MS_POR_MES,
                    recaudacion(socios@.take(i as int), fecha_from, fecha_to)
                        + suma_recibos(recibos@, fecha_from, fecha_to)
                        <= total,
                    suma == recaudacion(socios@.take(i as int), fecha_from, fecha_to)
                        + suma_recibos(recibos@.take(j as int), fecha_from, fecha_to),
            {
                proof {
                    assert(recibos@.take(j + 1).drop_last() =~= recibos@.take(j as int));
                    lemma_suma_recibos_prefijo(recibos@, j + 1, fecha_from, fecha_to);
                }
                if recibos[j].fecha_entre(fecha_from, fecha_to) {
                    match suma.checked_add(recibos[j].get_monto()) {
                        Some(s) => {
                            suma = s;
                        },
                        None => {
                            assert(recibos@.take(j + 1).last() == recibos@[j as int]);
                            assert(total > u128::MAX);
                            return None;
                        },
                    }
                }
            }
            proof {
                assert(recibos@.take(m as int) =~= recibos@);
            }
        }
        proof {
            assert(socios@.take(n as int) =~= socios@);
        }
        Some(suma)
    }
}

/// Los dos reportes nunca comparten un socio: los morosos lo están y los que figuran al
/// día para una actividad no.
pub proof fn lemma_reportes_disjuntos(socios: Seq<Socio>, id_deporte: u32, hoy: u64, s: Socio)
    ensures
        socios.filter(es_moroso_en(hoy)).contains(s) ==> s.moroso_en(hoy),
        socios.filter(al_dia_para(id_deporte, hoy)).contains(s) ==> s.habilitado_para(id_deporte) && !s.moroso_en(hoy),
        !(socios.filter(es_moroso_en(hoy)).contains(s) && socios.filter(al_dia_para(id_deporte, hoy)).contains(s)),
{
    broadcast use vstd::seq_lib::group_filter_ensures;
    if socios.filter(es_moroso_en(hoy)).contains(s) {
        let i = choose|i: int| 0 <= i < socios.filter(es_moroso_en(hoy)).len() && socios.filter(es_moroso_en(hoy))[i] == s;
        assert(es_moroso_en(hoy)(socios.filter(es_moroso_en(hoy))[i]));
    }
    if socios.filter(al_dia_para(id_deporte, hoy)).contains(s) {
        let i = choose|i: int| 0 <= i < socios.filter(al_dia_para(id_deporte, hoy)).len() && socios.filter(al_dia_para(id_deporte, hoy))[i] == s;
        assert(al_dia_para(id_deporte, hoy)(socios.filter(al_dia_para(id_deporte, hoy))[i]));
    }
}

/// Los reportes son exactos: un socio de la lista figura entre los morosos exactamente
/// cuando su última cuota está pendiente y vencida, y entre los socios al día de una
/// actividad exactamente cuando puede practicarla y su última cuota no está pendiente y
/// vencida; nada más cuenta.
pub proof fn lemma_reportes_completos(socios: Seq<Socio>, id_deporte: u32, hoy: u64, s: Socio)
    requires
        socios.contains(s),
        s.pagos.len() > 0,
    ensures
        socios.filter(es_moroso_en(hoy)).contains(s) <==> (s.pagos@.last().pendiente
            && s.pagos@.last().vencimiento < hoy),
        socios.filter(al_dia_para(id_deporte, hoy)).contains(s) <==> (s.habilitado_para(id_deporte)
            && !(s.pagos@.last().pendiente && s.pagos@.last().vencimiento < hoy)),
{
    broadcast use vstd::seq_lib::group_filter_ensures;
    let i = choose|i: int| 0 <= i < socios.len() && socios[i] == s;
    if es_moroso_en(hoy)(s) {
        socios.lemma_filter_contains(es_moroso_en(hoy), i);
    }
    if al_dia_para(id_deporte, hoy)(s) {
        socios.lemma_filter_contains(al_dia_para(id_deporte, hoy), i);
    }
    lemma_reportes_disjuntos(socios, id_deporte, hoy, s);
}

} // verus!

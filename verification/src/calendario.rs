//! Conversión de fechas (mes y año) a marcas de tiempo en milisegundos desde la época Unix.

use vstd::prelude::*;

verus! {

/// Milisegundos que tiene un día.
pub const MS_POR_DIA: u64 = 86_400_000;

/// Regla gregoriana: divisible por 4, salvo los seculares que no son divisibles por 400.
pub open spec fn anio_bisiesto(anio: int) -> bool {
    anio % 4 == 0 && (anio % 100 != 0 || anio % 400 == 0)
}

/// Días de un año.
pub open spec fn dias_del_anio(anio: int) -> int {
    if anio_bisiesto(anio) { 366 } else { 365 }
}

/// Días transcurridos desde el 1 de enero de 1970 hasta el 1 de enero de `anio`.
pub open spec fn dias_antes_del_anio(anio: int) -> int
    decreases anio - 1970,
{
    if anio <= 1970 {
        0
    } else {
        dias_antes_del_anio(anio - 1) + dias_del_anio(anio - 1)
    }
}

/// Días del mes `mes` (1 a 12) del año `anio`.
pub open spec fn dias_del_mes(mes: int, anio: int) -> int {
    if mes == 2 {
        if anio_bisiesto(anio) { 29 } else { 28 }
    } else if mes == 4 || mes == 6 || mes == 9 || mes == 11 {
        30
    } else {
        31
    }
}

/// Días transcurridos desde el 1 de enero hasta el primer día de `mes`.
pub open spec fn dias_antes_del_mes(mes: int, anio: int) -> int
    decreases mes,
{
    if mes <= 1 {
        0
    } else {
        dias_antes_del_mes(mes - 1, anio) + dias_del_mes(mes - 1, anio)
    }
}

/// Milisegundos desde la época Unix hasta el comienzo del primer día de `mes` de `anio`.
pub open spec fn timestamp_de_fecha(mes: int, anio: int) -> int {
    MS_POR_DIA * (dias_antes_del_anio(anio) + dias_antes_del_mes(mes, anio))
}

/// Cuenta los días anteriores a un año de forma creciente.
pub proof fn lemma_dias_antes_del_anio_monotono(a: int, b: int)
    requires
        a <= b,
    ensures
        dias_antes_del_anio(a) <= dias_antes_del_anio(b),
    decreases b - a,
{
    if a < b {
        lemma_dias_antes_del_anio_monotono(a, b - 1);
    }
}

/// Cota superior de los días anteriores a un año.
pub proof fn lemma_dias_antes_del_anio_cota(anio: int)
    requires
        anio >= 1970,
    ensures
        0 <= dias_antes_del_anio(anio) <= 366 * (anio - 1970),
    decreases anio - 1970,
{
    if anio > 1970 {
        lemma_dias_antes_del_anio_cota(anio - 1);
    }
}

/// Cota superior de los días anteriores a un mes.
pub proof fn lemma_dias_antes_del_mes_cota(mes: int, anio: int)
    requires
        1 <= mes <= 12,
    ensures
        0 <= dias_antes_del_mes(mes, anio) <= 31 * (mes - 1),
    decreases mes,
{
    if mes > 1 {
        lemma_dias_antes_del_mes_cota(mes - 1, anio);
    }
}

/// Los días anteriores a un mes crecen con el mes.
pub proof fn lemma_dias_antes_del_mes_monotono(a: int, b: int, anio: int)
    requires
        a <= b,
    ensures
        dias_antes_del_mes(a, anio) <= dias_antes_del_mes(b, anio),
    decreases b - a,
{
    if a < b {
        lemma_dias_antes_del_mes_monotono(a, b - 1, anio);
    }
}

/// La época Unix es el instante cero.
pub proof fn lemma_epoca()
    ensures
        timestamp_de_fecha(1, 1970) == 0,
{
}

/// Entre el comienzo de un mes y el del siguiente del mismo año pasan los días del mes.
pub proof fn lemma_meses_consecutivos(mes: int, anio: int)
    requires
        1 <= mes < 12,
    ensures
        timestamp_de_fecha(mes + 1, anio) == timestamp_de_fecha(mes, anio) + MS_POR_DIA * dias_del_mes(mes, anio),
{
}

/// Del 1 de diciembre al 1 de enero del año siguiente pasan 31 días, y del 1 de enero de
/// un año al del siguiente, los días de ese año.
pub proof fn lemma_cambio_de_anio(anio: int)
    requires
        anio >= 1970,
    ensures
        timestamp_de_fecha(1, anio + 1) == timestamp_de_fecha(12, anio) + MS_POR_DIA * 31,
        timestamp_de_fecha(1, anio + 1) == timestamp_de_fecha(1, anio) + MS_POR_DIA * dias_del_anio(anio),
{
    reveal_with_fuel(dias_antes_del_mes, 12);
}

} // verus!

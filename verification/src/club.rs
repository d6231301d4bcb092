//! El contrato del club: socios, precios, bonificación y cuentas autorizadas.

use vstd::prelude::*;
use crate::cuenta::AccountId;
use crate::pago::{cuota_creable, cuota_nueva, descuento_aplicable};
use crate::recibo::Recibo;
use crate::socio::{
    Socio,
    SocioVista,
    categoria_consistente,
    lemma_pendiente_es_la_ultima,
    vista_tras_pago,
};

verus! {

/// Estado del contrato del club.
#[derive(Debug, PartialEq, Eq)]
pub struct ClubSemRust {
    pub socios: Vec<Socio>,
    /// Porcentaje que se descuenta a la cuota siguiente de un socio bonificado.
    pub descuento: u128,
    /// Precios mensuales de las categorías A, B y C.
    pub precio_categorias: Vec<u128>,
    /// Plazo entre el vencimiento de una cuota y el de la siguiente.
    pub duracion_deadline: u64,
    /// Cuotas consecutivas a tiempo y sin descuento que dan la bonificación.
    pub pagos_consecutivos_bono: u32,
    pub cuentas_habilitadas: Vec<AccountId>,
    /// Con el bloqueo activo sólo operan las cuentas habilitadas y el dueño.
    pub esta_bloqueado: bool,
    pub owner: Option<AccountId>,
}

/// `i` es la posición del primer socio con ese DNI.
pub open spec fn es_primer_socio(socios: Seq<Socio>, dni: u32, i: int) -> bool {
    &&& 0 <= i < socios.len()
    &&& socios[i].dni == dni
    &&& forall|j: int| 0 <= j < i ==> socios[j].dni != dni
}

/// Hay un socio con ese DNI.
pub open spec fn existe_socio(socios: Seq<Socio>, dni: u32) -> bool {
    exists|i: int| 0 <= i < socios.len() && socios[i].dni == dni
}

/// Posición del primer socio con ese DNI.
pub open spec fn primer_socio(socios: Seq<Socio>, dni: u32) -> int {
    choose|i: int| es_primer_socio(socios, dni, i)
}

/// Socio recién registrado, con su primera cuota pendiente.
pub open spec fn socio_registrado(
    nombre: String,
    dni: u32,
    id_categoria: u32,
    id_deporte: Option<u32>,
    vencimiento: u64,
    precios: Seq<u128>,
) -> SocioVista {
    SocioVista {
        id_deporte,
        id_categoria,
        dni,
        nombre,
        pagos: seq![cuota_nueva(vencimiento, id_categoria, None, precios)],
    }
}

/// El club con el bloqueo invertido.
pub open spec fn con_bloqueo_invertido(c: ClubSemRust) -> ClubSemRust {
    ClubSemRust { esta_bloqueado: !c.esta_bloqueado, ..c }
}

/// Sólo una posición puede ser la del primer socio con un DNI.
pub proof fn lemma_primer_socio_unico(socios: Seq<Socio>, dni: u32, i: int)
    requires
        es_primer_socio(socios, dni, i),
    ensures
        primer_socio(socios, dni) == i,
{
    let k = primer_socio(socios, dni);
    assert(es_primer_socio(socios, dni, k));
    if k < i {
        assert(socios[k].dni != dni);
    } else if i < k {
        assert(socios[i].dni != dni);
    }
}

impl ClubSemRust {
    /// Invariante del club: un precio por categoría y todos los socios válidos.
    pub open spec fn inv(&self) -> bool {
        &&& self.precio_categorias.len() == 3
        &&& forall|i: int| 0 <= i < self.socios.len() ==> (#[trigger] self.socios@[i]).inv()
    }

    /// La cuenta está en la lista de cuentas habilitadas.
    pub open spec fn habilitada(&self, id: AccountId) -> bool {
        self.cuentas_habilitadas@.contains(id)
    }

    /// La cuenta tiene los poderes del dueño: es el dueño, o el club todavía no tiene.
    pub open spec fn es_duenio(&self, caller: AccountId) -> bool {
        ||| self.owner is None
        ||| self.owner == Some(caller)
    }

    /// La cuenta puede operar: sin bloqueo cualquiera; con bloqueo, las habilitadas y el
    /// dueño.
    pub open spec fn autorizada(&self, caller: AccountId) -> bool {
        ||| !self.esta_bloqueado
        ||| self.habilitada(caller)
        ||| self.owner == Some(caller)
    }

    /// Descuento con que se crea la cuota siguiente del socio al pagar: el del club si sus
    /// últimas `pagos_consecutivos_bono` cuotas pagadas (sin contar la pendiente que está
    /// pagando) se pagaron a tiempo y sin descuento; ninguno si no.
    pub open spec fn descuento_para(&self, s: Socio) -> Option<u128> {
        if s.bonificable(self.pagos_consecutivos_bono) {
            Some(self.descuento)
        } else {
            None
        }
    }

    /// Crea el club sin socios ni cuentas habilitadas, sin bloqueo y sin dueño.
    pub fn new(
        descuento: u128,
        duracion_deadline: u64,
        precio_categoria_a: u128,
        precio_categoria_b: u128,
        precio_categoria_c: u128,
        pagos_consecutivos_bono: u32,
    ) -> (r: Self)
        ensures
            r.socios@ == Seq::<Socio>::empty(),
            r.descuento == descuento,
            r.precio_categorias@ == seq![precio_categoria_a, precio_categoria_b, precio_categoria_c],
            r.duracion_deadline == duracion_deadline,
            r.pagos_consecutivos_bono == pagos_consecutivos_bono,
            r.cuentas_habilitadas@ == Seq::<AccountId>::empty(),
            !r.esta_bloqueado,
            r.owner is None,
            r.inv(),
    {
        ClubSemRust {
            socios: Vec::new(),
            descuento,
            duracion_deadline,
            precio_categorias: vec![precio_categoria_a, precio_categoria_b, precio_categoria_c],
            pagos_consecutivos_bono,
            cuentas_habilitadas: Vec::new(),
            esta_bloqueado: false,
            owner: None,
        }
    }

    /// El dueño (o cualquiera, mientras el club no tenga dueño) delega la propiedad del
    /// club en `owner`.
    pub fn transfer_account(&mut self, owner: Option<AccountId>, caller: AccountId)
        requires
            old(self).es_duenio(caller),
        ensures
            *final(self) == (ClubSemRust { owner, ..*old(self) }),
    {
        self.owner = owner;
    }

    /// El club con los valores por omisión: 15 % de descuento, cuotas cada 10 días
    /// (864 000 000 ms), precios 5000, 3000 y 2000, y bonificación tras 3 pagos.
    pub fn default() -> (r: Self)
        ensures
            r.socios@ == Seq::<Socio>::empty(),
            r.descuento == 15,
            r.precio_categorias@ == seq![5000u128, 3000u128, 2000u128],
            r.duracion_deadline == 864_000_000,
            r.pagos_consecutivos_bono == 3,
            r.cuentas_habilitadas@ == Seq::<AccountId>::empty(),
            !r.esta_bloqueado,
            r.owner is None,
            r.inv(),
    {
        Self::new(15, 864_000_000, 5000, 3000, 2000, 3)
    }

    /// Fija el precio mensual de la categoría `id_categoria` (de 1 a 3).
    pub fn set_precio_categoria(&mut self, p_categoria: u128, id_categoria: u32, caller: AccountId)
        requires
            old(self).autorizada(caller),
            1 <= id_categoria <= 3,
            id_categoria <= old(self).precio_categorias.len(),
        ensures
            final(self).precio_categorias@ == old(self).precio_categorias@.update(id_categoria - 1, p_categoria),
            *final(self) == (ClubSemRust { precio_categorias: final(self).precio_categorias, ..*old(self) }),
            old(self).inv() ==> final(self).inv(),
    {
        let i = id_categoria - 1;
        self.precio_categorias.set(i as usize, p_categoria);
    }

    /// Fija el plazo entre vencimientos.
    pub fn set_duracion_deadline(&mut self, d_deadline: u64, caller: AccountId)
        requires
            old(self).autorizada(caller),
        ensures
            *final(self) == (ClubSemRust { duracion_deadline: d_deadline, ..*old(self) }),
    {
        self.duracion_deadline = d_deadline;
    }

    /// Devuelve el plazo entre vencimientos.
    pub fn get_duracion_deadline(&self) -> (r: u64)
        ensures
            r == self.duracion_deadline,
    {
        self.duracion_deadline
    }

    /// Fija el porcentaje de descuento de la bonificación, entre 1 y 100.
    pub fn set_descuento(&mut self, descuento: u128, caller: AccountId)
        requires
            old(self).autorizada(caller),
            0 < descuento < 101,
        ensures
            *final(self) == (ClubSemRust { descuento, ..*old(self) }),
    {
        self.descuento = descuento;
    }

    /// Devuelve el porcentaje de descuento de la bonificación.
    pub fn get_descuento(&self) -> (r: u128)
        ensures
            r == self.descuento,
    {
        self.descuento
    }

    /// Registra un socio nuevo, cuya primera cuota vence un plazo después de `ahora`.
    pub fn registrar_nuevo_socio(
        &mut self,
        nombre: String,
        dni: u32,
        id_categoria: u32,
        id_deporte: Option<u32>,
        caller: AccountId,
        ahora: u64,
    )
        requires
            old(self).autorizada(caller),
            ahora + old(self).duracion_deadline <= u64::MAX,
            categoria_consistente(id_categoria, id_deporte),
            cuota_creable(id_categoria, None, old(self).precio_categorias@),
        ensures
            final(self).socios@.len() == old(self).socios@.len() + 1,
            final(self).socios@.drop_last() == old(self).socios@,
            final(self).socios@.last()@ == socio_registrado(
                nombre,
                dni,
                id_categoria,
                id_deporte,
                (ahora + old(self).duracion_deadline) as u64,
                old(self).precio_categorias@,
            ),
            *final(self) == (ClubSemRust { socios: final(self).socios, ..*old(self) }),
            old(self).inv() ==> final(self).inv(),
    {
        let vencimiento = ahora + self.duracion_deadline;
        let precios = self.precio_categorias.clone();
        assert(precios@ =~= self.precio_categorias@);
        let socio = Socio::new(nombre, dni, id_categoria, id_deporte, vencimiento, precios);
        self.socios.push(socio);
        assert(self.socios@.drop_last() =~= old(self).socios@);
    }

    /// Posición del primer socio con ese DNI, si lo hay.
    pub fn posicion_socio(&self, dni: u32) -> (r: Option<usize>)
        ensures
            r is None <==> !existe_socio(self.socios@, dni),
            r matches Some(k) ==> es_primer_socio(self.socios@, dni, k as int) && k == primer_socio(self.socios@, dni),
    {
        let n = self.socios.len();
        let mut i: usize = 0;
        while i < n
            invariant
                n == self.socios.len(),
                i <= n,
                forall|j: int| 0 <= j < i ==> self.socios@[j].dni != dni,
            decreases n - i,
        {
            if self.socios[i].dni == dni {
                proof {
                    lemma_primer_socio_unico(self.socios@, dni, i as int);
                }
                return Some(i);
            }
            i += 1;
        }
        None
    }

    /// Registra el pago de la cuota pendiente del socio con ese DNI, hecho en `ahora`. Si
    /// el socio cumple la bonificación, su cuota siguiente lleva el descuento del club.
    pub fn registrar_pago(&mut self, dni: u32, monto: u128, caller: AccountId, ahora: u64)
        requires
            old(self).precio_categorias.len() == 3,
            old(self).autorizada(caller),
            existe_socio(old(self).socios@, dni),
            ({
                let s = old(self).socios@[primer_socio(old(self).socios@, dni)];
                &&& s.inv()
                &&& monto == s.pagos@.last().monto
                &&& s.pagos@.last().vencimiento + old(self).duracion_deadline <= u64::MAX
                &&& s.bonificable(old(self).pagos_consecutivos_bono) ==> descuento_aplicable(
                    old(self).precio_categorias@,
                    old(self).descuento,
                )
            }),
        ensures
            ({
                let k = primer_socio(old(self).socios@, dni);
                let s = old(self).socios@[k];
                &&& final(self).socios@.len() == old(self).socios@.len()
                &&& forall|j: int| 0 <= j < old(self).socios@.len() && j != k ==> final(self).socios@[j] == old(self).socios@[j]
                &&& final(self).socios@[k]@ == vista_tras_pago(
                    s@,
                    old(self).descuento_para(s),
                    ahora,
                    old(self).precio_categorias@,
                    old(self).duracion_deadline,
                )
            }),
            *final(self) == (ClubSemRust { socios: final(self).socios, ..*old(self) }),
            old(self).inv() ==> final(self).inv(),
    {
        let hoy = ahora;
        let precios = self.precio_categorias.clone();
        assert(precios@ =~= self.precio_categorias@);
        let deadline = self.get_duracion_deadline();
        if self.socios.len() > 0 {
            if let Some(i) = self.posicion_socio(dni) {
                let ultimo = self.socios[i].pagos.len() - 1;
                if self.socios[i].pagos[ultimo].pendiente {
                    let bonificado = self.socios[i].cumple_bonificacion(self.pagos_consecutivos_bono);
                    let mut socio = self.socios.remove(i);
                    proof {
                        lemma_pendiente_es_la_ultima(socio);
                    }
                    if bonificado {
                        socio.realizar_pago(Some(self.descuento), monto, hoy, precios, deadline);
                    } else {
                        socio.realizar_pago(None, monto, hoy, precios, deadline);
                    }
                    self.socios.insert(i, socio);
                    assert forall|j: int| 0 <= j < self.socios.len() && old(self).inv() implies (#[trigger] self.socios@[j]).inv() by {
                        if j != i {
                            assert(self.socios@[j] == old(self).socios@[j]);
                        }
                    }
                }
            }
        }
    }

    /// Devuelve una copia de los socios.
    pub fn get_socios(&self) -> (r: Vec<Socio>)
        ensures
            r@.len() == self.socios@.len(),
            forall|i: int| 0 <= i < r@.len() ==> (#[trigger] r@[i])@ == self.socios@[i]@,
    {
        self.socios.clone()
    }

    /// Recibos del primer socio con ese DNI, o `None` si no hay socio con ese DNI o si el
    /// socio no tiene cuotas.
    pub fn get_recibos(&self, dni: u32) -> (r: Option<Vec<Recibo>>)
        requires
            existe_socio(self.socios@, dni) ==> {
                let s = self.socios@[primer_socio(self.socios@, dni)];
                s.pagos.len() > 0 ==> s.recibos_emitibles()
            },
        ensures
            r is None <==> (!existe_socio(self.socios@, dni) || self.socios@[primer_socio(self.socios@, dni)].pagos.len() == 0),
            r matches Some(v) ==> v@ == self.socios@[primer_socio(self.socios@, dni)].recibos(),
    {
        match self.posicion_socio(dni) {
            Some(i) => {
                if self.socios[i].pagos.len() == 0 {
                    None
                } else {
                    Some(self.socios[i].generar_recibos())
                }
            },
            None => None,
        }
    }

    /// El dueño (o cualquiera, mientras el club no tenga dueño) agrega una cuenta a las
    /// habilitadas.
    pub fn agregar_cuenta(&mut self, id: AccountId, caller: AccountId)
        requires
            old(self).es_duenio(caller),
        ensures
            final(self).cuentas_habilitadas@ == old(self).cuentas_habilitadas@.push(id),
            *final(self) == (ClubSemRust { cuentas_habilitadas: final(self).cuentas_habilitadas, ..*old(self) }),
    {
        self.cuentas_habilitadas.push(id);
    }

    /// El dueño (o cualquiera, mientras el club no tenga dueño) activa el bloqueo si
    /// estaba inactivo, y lo desactiva si estaba activo.
    pub fn flip_bloqueo(&mut self, caller: AccountId)
        requires
            old(self).es_duenio(caller),
        ensures
            *final(self) == con_bloqueo_invertido(*old(self)),
    {
        self.esta_bloqueado = !self.esta_bloqueado;
    }

    /// Devuelve si la cuenta está entre las habilitadas.
    pub fn esta_habilitada(&self, id: AccountId) -> (r: bool)
        ensures
            r == self.habilitada(id),
    {
        let n = self.cuentas_habilitadas.len();
        let mut i: usize = 0;
        while i < n
            invariant
                n == self.cuentas_habilitadas.len(),
                i <= n,
                forall|j: int| 0 <= j < i ==> self.cuentas_habilitadas@[j] != id,
            decreases n - i,
        {
            if self.cuentas_habilitadas[i] == id {
                assert(self.cuentas_habilitadas@[i as int] == id);
                return true;
            }
            i += 1;
        }
        false
    }

    /// Devuelve si la cuenta tiene los poderes del dueño.
    pub fn es_duenio_del_club(&self, caller: AccountId) -> (r: bool)
        ensures
            r == self.es_duenio(caller),
    {
        match self.owner {
            Some(o) => o == caller,
            None => true,
        }
    }

    /// Devuelve si la cuenta puede operar sobre el club.
    pub fn esta_autorizada(&self, caller: AccountId) -> (r: bool)
        ensures
            r == self.autorizada(caller),
    {
        if !self.esta_bloqueado {
            return true;
        }
        if self.esta_habilitada(caller) {
            return true;
        }
        match self.owner {
            Some(o) => o == caller,
            None => false,
        }
    }
}

/// Sólo el dueño tiene sus poderes cuando el club lo tiene; mientras no lo tenga, los
/// tiene cualquiera. Delegar la propiedad la deja en manos del nuevo dueño.
pub proof fn lemma_poderes_del_duenio(c: ClubSemRust, caller: AccountId, nuevo: AccountId)
    ensures
        c.owner matches Some(o) ==> (c.es_duenio(caller) <==> caller == o),
        c.owner is None ==> c.es_duenio(caller),
        (ClubSemRust { owner: Some(nuevo), ..c }).es_duenio(caller) <==> caller == nuevo,
{
}

/// Invertir el bloqueo dos veces deja el club como estaba.
pub proof fn lemma_bloqueo_doble(c: ClubSemRust)
    ensures
        con_bloqueo_invertido(con_bloqueo_invertido(c)) == c,
{
}

/// Sin bloqueo opera cualquier cuenta; con bloqueo, sólo las habilitadas y el dueño.
pub proof fn lemma_politica_de_autorizacion(c: ClubSemRust, caller: AccountId)
    ensures
        !c.esta_bloqueado ==> c.autorizada(caller),
        c.esta_bloqueado ==> (c.autorizada(caller) <==> (c.habilitada(caller) || c.owner == Some(caller))),
        !con_bloqueo_invertido(c).esta_bloqueado ==> con_bloqueo_invertido(c).autorizada(caller),
{
}

/// Un precio actualizado rige para las cuotas que se crean después: quien se registra en
/// esa categoría debe el precio nuevo.
pub proof fn lemma_precio_actualizado_rige(precios: Seq<u128>, id_categoria: u32, p: u128, vencimiento: u64)
    requires
        precios.len() == 3,
        1 <= id_categoria <= 3,
    ensures
        cuota_nueva(vencimiento, id_categoria, None, precios.update(id_categoria - 1, p)).monto == p,
{
}

/// Lo que se escribe con `set_descuento` y `set_duracion_deadline` es lo que después
/// devuelven `get_descuento` y `get_duracion_deadline`, y ninguna de las dos escrituras
/// toca el resto del club ni su invariante.
pub proof fn lemma_lectura_tras_escritura(c: ClubSemRust, descuento: u128, duracion: u64)
    ensures
        (ClubSemRust { descuento, ..c }).descuento == descuento,
        (ClubSemRust { duracion_deadline: duracion, ..c }).duracion_deadline == duracion,
        (ClubSemRust { descuento, ..c }).duracion_deadline == c.duracion_deadline,
        (ClubSemRust { duracion_deadline: duracion, ..c }).descuento == c.descuento,
        c.inv() ==> (ClubSemRust { descuento, ..c }).inv(),
        c.inv() ==> (ClubSemRust { duracion_deadline: duracion, ..c }).inv(),
{
}

/// Un socio recién registrado tiene una única cuota, pendiente, y no está moroso hasta su
/// vencimiento.
pub proof fn lemma_socio_nuevo_al_dia(
    s: Socio,
    nombre: String,
    dni: u32,
    id_categoria: u32,
    id_deporte: Option<u32>,
    vencimiento: u64,
    precios: Seq<u128>,
    t: u64,
)
    requires
        s@ == socio_registrado(nombre, dni, id_categoria, id_deporte, vencimiento, precios),
        t <= vencimiento,
    ensures
        s.pagos.len() == 1,
        s.pagos@[0].pendiente,
        s.pagos@[0].vencimiento == vencimiento,
        !s.moroso_en(t),
{
    assert(s.pagos@ == s@.pagos);
}

} // verus!

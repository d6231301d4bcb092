use club_sem_rust::{AccountId, Categoria, ClubSemRust, Pago, Recibo, Socio};

fn alice() -> AccountId {
    AccountId { bytes: [1u8; 32] }
}

fn bob() -> AccountId {
    AccountId { bytes: [2u8; 32] }
}

fn charlie() -> AccountId {
    AccountId { bytes: [3u8; 32] }
}

fn get_current_time() -> u64 {
    let since_the_epoch = std::time::SystemTime::now()
        .duration_since(std::time::UNIX_EPOCH)
        .expect("Time went backwards");
    since_the_epoch.as_secs() + since_the_epoch.subsec_nanos() as u64 / 1_000_000_000
}

#[test]
fn new_test() {
    let esperado = ClubSemRust {
        socios: Vec::new(),
        descuento: 25,
        precio_categorias: vec![400, 300, 200],
        duracion_deadline: 999,
        pagos_consecutivos_bono: 10,
        cuentas_habilitadas: Vec::new(),
        esta_bloqueado: false,
        owner: None,
    };
    let resultado = ClubSemRust::new(25, 999, 400, 300, 200, 10);

    assert_eq!(esperado, resultado, "Error en ClubSemRust::new(), se esperaba {:?} y se obtuvo {:?}", esperado, resultado)
}

#[test]
fn default_test() {
    let esperado = ClubSemRust {
        socios: Vec::new(),
        descuento: 15,
        precio_categorias: vec![5000, 3000, 2000],
        duracion_deadline: 864_000_000,
        pagos_consecutivos_bono: 3,
        cuentas_habilitadas: Vec::new(),
        esta_bloqueado: false,
        owner: None,
    };
    let resultado = ClubSemRust::default();

    assert_eq!(esperado, resultado, "Error en ClubSemRust::default(), se esperaba {:?} y se recibió {:?}", esperado, resultado)
}

#[test]
fn get_duracion_deadline_test() {
    let esperado = 864_000_000;
    let club = ClubSemRust::default();
    let resultado = club.get_duracion_deadline();

    assert_eq!(esperado, resultado, "Error en ClubSemRust::get_duracion_deadline(), se esperaba {:?} y se recibió {:?}", esperado, resultado);

    let esperado = 999;
    let club = ClubSemRust::new(25, 999, 400, 300, 200, 10);
    let resultado = club.get_duracion_deadline();

    assert_eq!(esperado, resultado, "Error en ClubSemRust::get_duracion_deadline(), se esperaba {:?} y se recibió {:?}", esperado, resultado);
}

#[test]
fn set_duracion_deadline_test() {
    let esperado = ClubSemRust {
        socios: Vec::new(),
        descuento: 15,
        precio_categorias: vec![5000, 3000, 2000],
        duracion_deadline: 999,
        pagos_consecutivos_bono: 3,
        cuentas_habilitadas: Vec::new(),
        esta_bloqueado: false,
        owner: None,
    };
    let mut resultado = ClubSemRust::default();
    resultado.set_duracion_deadline(999, alice());

    assert_eq!(esperado, resultado, "Error en ClubSemRust::set_duracion_deadline(), se esperaba {:?} y se recibió {:?}", esperado, resultado);
}

#[test]
fn get_descuento_test() {
    let esperado = 15;
    let club = ClubSemRust::default();
    let resultado = club.get_descuento();

    assert_eq!(esperado, resultado, "Error en ClubSemRust::get_descuento(), se esperaba {:?} y se recibió {:?}", esperado, resultado);

    let esperado = 25;
    let club = ClubSemRust::new(25, 999, 400, 300, 200, 10);
    let resultado = club.get_descuento();

    assert_eq!(esperado, resultado, "Error en ClubSemRust::get_descuento(), se esperaba {:?} y se recibió {:?}", esperado, resultado);
}

#[test]
fn set_descuento_test() {
    let esperado = ClubSemRust {
        socios: Vec::new(),
        descuento: 25,
        precio_categorias: vec![5000, 3000, 2000],
        duracion_deadline: 864_000_000,
        pagos_consecutivos_bono: 3,
        cuentas_habilitadas: Vec::new(),
        esta_bloqueado: false,
        owner: None,
    };
    let mut resultado = ClubSemRust::default();
    resultado.set_descuento(25, alice());

    assert_eq!(esperado, resultado, "Error en ClubSemRust::set_duracion_deadline(), se esperaba {:?} y se recibió {:?}", esperado, resultado);
    assert_eq!(resultado.get_descuento(), 25);
}

#[test]
fn set_precio_categoria_rige_para_socios_nuevos() {
    let mut club = ClubSemRust::default();
    club.set_precio_categoria(7000, 1, alice());
    assert_eq!(club.precio_categorias, vec![7000, 3000, 2000]);
    club.registrar_nuevo_socio("Ana".to_string(), 1, 1, None, alice(), 100);
    assert_eq!(club.socios[0].pagos[0].monto, 7000);
}

#[test]
fn registrar_nuevo_socio_test() {
    let now = get_current_time();
    let precio_categorias: Vec<u128> = vec![5000, 3000, 2000];
    let esperado = ClubSemRust {
        socios: Vec::from([Socio {
            id_deporte: None,
            id_categoria: 3,
            dni: 44044044,
            nombre: "Juancito".to_string(),
            pagos: vec![Pago::new(now + 864_000_000, 3, None, precio_categorias.clone())],
        }]),
        descuento: 15,
        precio_categorias: precio_categorias.clone(),
        duracion_deadline: 864_000_000,
        pagos_consecutivos_bono: 3,
        cuentas_habilitadas: Vec::new(),
        esta_bloqueado: false,
        owner: None,
    };
    let mut resultado = ClubSemRust::default();
    resultado.registrar_nuevo_socio("Juancito".to_string(), 44044044, 3, None, alice(), now);

    assert_eq!(esperado, resultado, "Error en ClubSemRust::registrar_nuevo_socio(), se esperaba {:?} y se recibió {:?}", esperado, resultado);

    let esperado = ClubSemRust {
        socios: Vec::from([
            Socio {
                id_deporte: None,
                id_categoria: 3,
                dni: 44044044,
                nombre: "Juancito".to_string(),
                pagos: vec![Pago::new(now + 864_000_000, 3, None, precio_categorias.clone())],
            },
            Socio {
                id_deporte: Some(5),
                id_categoria: 2,
                dni: 45045045,
                nombre: "Roberto".to_string(),
                pagos: vec![Pago::new(now + 864_000_000, 2, None, precio_categorias.clone())],
            },
        ]),
        descuento: 15,
        precio_categorias: vec![5000, 3000, 2000],
        duracion_deadline: 864_000_000,
        pagos_consecutivos_bono: 3,
        cuentas_habilitadas: Vec::new(),
        esta_bloqueado: false,
        owner: None,
    };
    let mut resultado = ClubSemRust::default();
    resultado.registrar_nuevo_socio("Juancito".to_string(), 44044044, 3, None, alice(), now);
    resultado.registrar_nuevo_socio("Roberto".to_string(), 45045045, 2, Some(5), alice(), now);

    assert_eq!(esperado, resultado, "Error en ClubSemRust::registrar_nuevo_socio(), se esperaba {:?} y se recibió {:?}", esperado, resultado);
}

#[test]
fn registrar_pago_test() {
    let now = get_current_time();
    let precios: Vec<u128> = vec![5000, 3000, 2000];
    let mut pagado = Pago::new(now + 864_000_000, 3, None, precios.clone());
    pagado.realizar_pago(None, 2000, now);
    let esperado = ClubSemRust {
        socios: Vec::from([Socio {
            id_deporte: None,
            id_categoria: 3,
            dni: 44044044,
            nombre: "Juancito".to_string(),
            pagos: Vec::from([pagado, Pago::new(now + 2 * 864_000_000, 3, None, precios.clone())]),
        }]),
        descuento: 15,
        precio_categorias: vec![5000, 3000, 2000],
        duracion_deadline: 864_000_000,
        pagos_consecutivos_bono: 3,
        cuentas_habilitadas: Vec::new(),
        esta_bloqueado: false,
        owner: None,
    };
    let mut resultado = ClubSemRust::default();
    resultado.registrar_nuevo_socio("Juancito".to_string(), 44044044, 3, None, alice(), now);
    resultado.registrar_pago(44044044, 2000, alice(), now);
    assert_eq!(esperado, resultado, "Error en ClubSemRust::registrar_pago(), se esperaba {:?} y se recibió {:?}", esperado, resultado);
}

#[test]
fn registrar_pago_aplica_bonificacion() {
    let mut club = ClubSemRust::new(15, 1000, 5000, 3000, 2000, 0);
    club.registrar_nuevo_socio("Ana".to_string(), 1, 1, None, alice(), 0);
    club.registrar_nuevo_socio("Beto".to_string(), 2, 2, Some(4), alice(), 0);
    club.registrar_pago(2, 3000, alice(), 10);
    assert_eq!(club.socios[1].pagos.len(), 2);
    assert_eq!(club.socios[1].pagos[1].monto, 2550);
    assert!(club.socios[1].pagos[1].aplico_descuento);
    assert_eq!(club.socios[1].pagos[1].vencimiento, 2000);
    assert_eq!(club.socios[0].pagos.len(), 1);

    let mut sin_bono = ClubSemRust::new(15, 1000, 5000, 3000, 2000, 3);
    sin_bono.registrar_nuevo_socio("Ana".to_string(), 1, 1, None, alice(), 0);
    sin_bono.registrar_pago(1, 5000, alice(), 10);
    assert_eq!(sin_bono.socios[0].pagos[1].monto, 5000);
    assert!(!sin_bono.socios[0].pagos[1].aplico_descuento);
}

#[test]
fn bonificacion_tras_pagos_consecutivos() {
    let mut club = ClubSemRust::new(15, 1000, 5000, 3000, 2000, 1);
    club.registrar_nuevo_socio("Ana".to_string(), 1, 3, None, alice(), 0);
    club.registrar_pago(1, 2000, alice(), 10);
    assert_eq!(club.socios[0].pagos[1].monto, 2000);
    assert!(!club.socios[0].pagos[1].aplico_descuento);
    club.registrar_pago(1, 2000, alice(), 20);
    assert_eq!(club.socios[0].pagos[2].monto, 1700);
    assert!(club.socios[0].pagos[2].aplico_descuento);
    assert!(club.socios[0].pagos[1].aplico_descuento);
    club.registrar_pago(1, 1700, alice(), 30);
    assert_eq!(club.socios[0].pagos[3].monto, 2000);

    let mut tarde = ClubSemRust::new(15, 1000, 5000, 3000, 2000, 1);
    tarde.registrar_nuevo_socio("Beto".to_string(), 2, 3, None, alice(), 0);
    tarde.registrar_pago(2, 2000, alice(), 5000);
    tarde.registrar_pago(2, 2000, alice(), 5001);
    assert_eq!(tarde.socios[0].pagos[2].monto, 2000);
}

#[test]
fn solo_el_duenio_delega_y_bloquea() {
    let mut club = ClubSemRust::default();
    assert!(club.es_duenio_del_club(charlie()));
    club.transfer_account(Some(alice()), charlie());
    assert!(club.es_duenio_del_club(alice()));
    assert!(!club.es_duenio_del_club(charlie()));
    club.flip_bloqueo(alice());
    assert!(club.esta_bloqueado);
    club.agregar_cuenta(charlie(), alice());
    assert_eq!(club.cuentas_habilitadas, vec![charlie()]);
    club.transfer_account(Some(bob()), alice());
    assert_eq!(club.owner, Some(bob()));
    assert!(!club.es_duenio_del_club(charlie()));
    assert!(!club.es_duenio_del_club(alice()));
}

#[test]
fn get_socios_test() {
    let now = get_current_time();
    let precios: Vec<u128> = vec![5000, 3000, 2000];
    let esperado = Vec::from([Socio {
        id_deporte: None,
        id_categoria: 3,
        dni: 44044044,
        nombre: "Juancito".to_string(),
        pagos: Vec::from([Pago::new(now, 3, None, precios.clone())]),
    }]);
    let club = ClubSemRust {
        socios: Vec::from([Socio {
            id_deporte: None,
            id_categoria: 3,
            dni: 44044044,
            nombre: "Juancito".to_string(),
            pagos: Vec::from([Pago::new(now, 3, None, precios.clone())]),
        }]),
        descuento: 15,
        precio_categorias: vec![5000, 3000, 2000],
        duracion_deadline: 864_000_000,
        pagos_consecutivos_bono: 3,
        cuentas_habilitadas: Vec::new(),
        esta_bloqueado: false,
        owner: None,
    };
    let resultado = club.get_socios();
    assert_eq!(esperado, resultado, "Error en ClubSemRust::get_socios(), se esperaba {:?} y se recibió {:?}", esperado, resultado);
}

#[test]
fn get_recibos_test() {
    let now = get_current_time();

    let esperado = Vec::from([
        Recibo {
            nombre: "Juancito".to_string(),
            dni: 44044044,
            monto: 5000,
            categoria: Categoria::A,
            fecha: now,
        },
        Recibo {
            nombre: "Juancito".to_string(),
            dni: 44044044,
            monto: 2000,
            categoria: Categoria::C,
            fecha: now + 1_000_000,
        },
    ]);
    let club = ClubSemRust {
        socios: Vec::from([
            Socio {
                id_deporte: None,
                id_categoria: 3,
                dni: 44044044,
                nombre: "Juancito".to_string(),
                pagos: Vec::from([
                    Pago {
                        vencimiento: now + 1_000_000,
                        categoria: Categoria::A,
                        pendiente: false,
                        a_tiempo: true,
                        aplico_descuento: false,
                        fecha_pago: Some(now),
                        monto: 5000,
                    },
                    Pago {
                        vencimiento: now + 5_000_000,
                        categoria: Categoria::C,
                        pendiente: false,
                        a_tiempo: true,
                        aplico_descuento: false,
                        fecha_pago: Some(now + 1_000_000),
                        monto: 2000,
                    },
                ]),
            },
            Socio {
                id_deporte: Some(5),
                id_categoria: 3,
                dni: 45045045,
                nombre: "Roberto".to_string(),
                pagos: Vec::new(),
            },
        ]),
        descuento: 15,
        precio_categorias: vec![5000, 3000, 2000],
        duracion_deadline: 864_000_000,
        pagos_consecutivos_bono: 3,
        cuentas_habilitadas: Vec::new(),
        esta_bloqueado: false,
        owner: None,
    };
    let resultado = club.get_recibos(44044044);
    assert!(resultado.is_some());
    assert_eq!(esperado, resultado.clone().unwrap(), "Error en ClubSemRust::get_recibos(), se esperaba {:?} y se recibió {:?}", esperado, resultado);

    let resultado = club.get_recibos(45045045);
    assert!(resultado.is_none(), "Error en ClubSemRust::get_recibos(), se esperaba None y se recibió {:?}", resultado);
}

#[test]
fn get_recibos_dni_inexistente() {
    let mut club = ClubSemRust::default();
    club.registrar_nuevo_socio("Ana".to_string(), 1, 1, None, alice(), 0);
    assert_eq!(club.get_recibos(2), None);
    assert_eq!(club.get_recibos(1), Some(Vec::new()));
    club.registrar_pago(1, 5000, alice(), 5);
    assert_eq!(
        club.get_recibos(1),
        Some(vec![Recibo::new("Ana".to_string(), 1, 5000, 1, 5)])
    );
}

#[test]
fn agregar_cuenta_test() {
    let esperado = ClubSemRust {
        socios: Vec::new(),
        descuento: 15,
        precio_categorias: vec![5000, 3000, 2000],
        duracion_deadline: 864_000_000,
        pagos_consecutivos_bono: 3,
        cuentas_habilitadas: Vec::from([alice(), bob()]),
        esta_bloqueado: false,
        owner: None,
    };
    let mut resultado = ClubSemRust::default();
    assert_ne!(resultado, esperado);
    resultado.agregar_cuenta(alice(), alice());
    assert_ne!(resultado, esperado);
    resultado.agregar_cuenta(bob(), alice());
    assert_eq!(resultado, esperado, "Error en ClubSemRust::agregar_cuenta(), se esperaba {:?} y se recibió {:?}", esperado, resultado);
}

#[test]
fn flip_bloqueo_test() {
    let esperado = ClubSemRust {
        socios: Vec::new(),
        descuento: 15,
        precio_categorias: vec![5000, 3000, 2000],
        duracion_deadline: 864_000_000,
        pagos_consecutivos_bono: 3,
        cuentas_habilitadas: Vec::new(),
        esta_bloqueado: true,
        owner: None,
    };
    let mut resultado = ClubSemRust::default();
    assert_ne!(resultado, esperado);
    resultado.flip_bloqueo(alice());
    assert_eq!(resultado, esperado, "Error en ClubSemRust::flip_bloqueo(), se esperaba {:?} y se recibió {:?}", esperado, resultado);
    resultado.flip_bloqueo(alice());
    assert_eq!(resultado, ClubSemRust::default());
}

#[test]
fn esta_habilitada_test() {
    let club = ClubSemRust {
        socios: Vec::new(),
        descuento: 15,
        precio_categorias: vec![5000, 3000, 2000],
        duracion_deadline: 864_000_000,
        pagos_consecutivos_bono: 3,
        cuentas_habilitadas: Vec::from([alice(), bob()]),
        esta_bloqueado: false,
        owner: None,
    };
    assert!(!club.esta_habilitada(charlie()));
    assert!(club.esta_habilitada(alice()));
    assert!(club.esta_habilitada(bob()));
}

#[test]
fn esta_autorizada_segun_bloqueo_y_dueno() {
    let mut club = ClubSemRust::default();
    assert!(club.esta_autorizada(charlie()));
    club.agregar_cuenta(alice(), charlie());
    club.flip_bloqueo(charlie());
    assert!(club.esta_autorizada(alice()));
    assert!(!club.esta_autorizada(charlie()));
    assert!(!club.esta_autorizada(bob()));
    club.transfer_account(Some(bob()), charlie());
    assert!(club.esta_autorizada(bob()));
    assert!(!club.esta_autorizada(charlie()));
    assert_eq!(club.owner, Some(bob()));
}

#[test]
fn posicion_socio_primero_con_dni() {
    let mut club = ClubSemRust::default();
    club.registrar_nuevo_socio("Ana".to_string(), 1, 1, None, alice(), 0);
    club.registrar_nuevo_socio("Beto".to_string(), 2, 3, None, alice(), 0);
    club.registrar_nuevo_socio("Otra Ana".to_string(), 1, 3, None, alice(), 0);
    assert_eq!(club.posicion_socio(1), Some(0));
    assert_eq!(club.posicion_socio(2), Some(1));
    assert_eq!(club.posicion_socio(3), None);
}

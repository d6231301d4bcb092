use club_sem_rust::{Categoria, Deporte, Pago, Recibo};

#[test]
fn get_deportes_test() {
    let esperado: Vec<Deporte> = vec![
        Deporte::Futbol,
        Deporte::Gimnasio,
        Deporte::Basquet,
        Deporte::Rugby,
        Deporte::Hockey,
        Deporte::Natacion,
        Deporte::Tenis,
        Deporte::Paddle,
    ];
    let recibido: Vec<Deporte> = Deporte::get_deportes();
    assert_eq!(esperado, recibido, "Error en Deporte::get_deportes(), se esperaba {:?}, y se recibió {:?}", esperado, recibido)
}

#[test]
fn match_deporte_test() {
    let ids = [
        (1, Deporte::Futbol),
        (2, Deporte::Gimnasio),
        (3, Deporte::Basquet),
        (4, Deporte::Rugby),
        (5, Deporte::Hockey),
        (6, Deporte::Natacion),
        (7, Deporte::Tenis),
        (8, Deporte::Paddle),
    ];
    for (id, dep) in ids {
        let esperado = dep;
        let resultado = Deporte::match_deporte(id);
        assert_eq!(esperado, resultado, "Error, para id {} se esperaba {:?}, y se recibió {:?}", id, esperado, resultado);
    }
}

#[test]
fn deporte_en_la_lista_por_id() {
    let todos = Deporte::get_deportes();
    for id in 1..9u32 {
        assert_eq!(todos[(id - 1) as usize], Deporte::match_deporte(id));
    }
}

#[test]
fn match_categoria_test() {
    let categ_a = Categoria::new(1);
    let categ_b = Categoria::new(2);
    let categ_c = Categoria::new(3);

    assert_eq!(Categoria::match_categoria(1), Categoria::A);
    assert_eq!(Categoria::match_categoria(2), Categoria::B);
    assert_eq!(Categoria::match_categoria(3), Categoria::C);

    assert_ne!(Categoria::match_categoria(1), Categoria::B);
    assert_ne!(Categoria::match_categoria(2), Categoria::C);
    assert_ne!(Categoria::match_categoria(3), Categoria::A);

    assert_eq!(categ_a, Categoria::A);
    assert_eq!(categ_b, Categoria::B);
    assert_eq!(categ_c, Categoria::C);
}

#[test]
fn get_deporte_test() {
    let categ_a = Categoria::new(1);
    let categ_b = Categoria::new(2);
    let categ_c = Categoria::new(3);

    assert_eq!(categ_a.get_deporte(None), Some(Deporte::get_deportes()));
    for i in 1..9 {
        assert_eq!(categ_b.get_deporte(Some(i)), Some(vec![Deporte::match_deporte(i)]));
    }

    assert_eq!(categ_c.get_deporte(None), None);
    assert_ne!(categ_c.get_deporte(Some(3)), Some(vec![Deporte::match_deporte(3)]));
}

#[test]
fn mensual_test() {
    let categ_a = Categoria::new(1);
    let categ_b = Categoria::new(2);
    let categ_c: Categoria = Categoria::new(3);
    let mut valores = Vec::new();
    valores.push(5000);
    valores.push(3000);
    valores.push(2000);

    assert_eq!(categ_a.mensual(valores.clone()), 5000);
    assert_eq!(categ_b.mensual(valores.clone()), 3000);
    assert_eq!(categ_c.mensual(valores.clone()), 2000);

    assert_ne!(categ_a.mensual(valores.clone()), 2000);
    assert_ne!(categ_b.mensual(valores.clone()), 5000);
    assert_ne!(categ_c.mensual(valores.clone()), 3000);
}

#[test]
fn test_new() {
    let nombre: String = "Carlos".to_string();
    let dni: u32 = 44444444;
    let monto: u128 = 1234567;
    let id_categoria: u32 = 1;
    let fecha: u64 = 1_000_000_000;

    let r: Recibo = Recibo {
        nombre: "Carlos".to_string(),
        dni: 44444444,
        monto: 1234567,
        categoria: Categoria::A,
        fecha: 1_000_000_000,
    };

    assert_eq!(Recibo::new(nombre, dni, monto, id_categoria, fecha), r);
}

#[test]
fn recibo_get_monto_y_fecha_entre() {
    let recibo = Recibo::new("Alice".to_string(), 44044044, 5000, 1, 1500);
    assert_eq!(recibo.get_monto(), 5000);
    assert!(recibo.fecha_entre(1000, 2000));
    assert!(recibo.fecha_entre(1500, 1500));
    assert!(!recibo.fecha_entre(1501, 2000));
    assert!(!recibo.fecha_entre(1000, 1499));
}

#[test]
fn test_verificar_pago() {
    let precio_categorias: Vec<u128> = vec![3000, 2000, 1000];
    let pago: Pago = Pago::new(1_000_000_000, 3, None, precio_categorias.clone());

    assert_eq!(pago.verificar_pago(900, precio_categorias, Some(10)), true);

    let precio_categorias_2: Vec<u128> = vec![3000, 2000, 1000];
    let pago_2: Pago = Pago::new(1_000_000_000, 1, None, precio_categorias_2.clone());

    assert_ne!(pago.verificar_pago(0, precio_categorias_2.clone(), None), true);
    assert!(pago_2.verificar_pago(3000, precio_categorias_2, None));
}

#[test]
fn test_es_moroso() {
    let pago: Pago = Pago::new(1_000_000_000, 3, None, vec![3000, 2000, 1000]);
    let current_time: u64 = 2_000_000_000;

    assert_eq!(pago.es_moroso(current_time), true);
    assert!(!pago.es_moroso(1_000_000_000));
}

#[test]
fn pago_new_sin_descuento() {
    let pago = Pago::new(77, 2, None, vec![5000, 4000, 2000]);
    assert_eq!(
        pago,
        Pago {
            vencimiento: 77,
            categoria: Categoria::B,
            monto: 4000,
            pendiente: true,
            a_tiempo: false,
            aplico_descuento: false,
            fecha_pago: None,
        }
    );
}

#[test]
fn pago_new_con_descuento() {
    let pago = Pago::new(77, 1, Some(15), vec![5000, 4000, 2000]);
    assert_eq!(pago.monto, 4250);
    assert!(pago.aplico_descuento);
    let pago_c = Pago::new(77, 3, Some(15), vec![5000, 4000, 2000]);
    assert_eq!(pago_c.monto, 1700);
    let pago_redondeo = Pago::new(77, 3, Some(33), vec![5000, 4000, 1001]);
    assert_eq!(pago_redondeo.monto, 1001 - 330);
}

#[test]
fn aplicar_y_admitir_descuento() {
    let precios: Vec<u128> = vec![5000, 4000, 2000];
    assert_eq!(club_sem_rust::pago::aplicar_descuento(&precios, 15), vec![4250, 3400, 1700]);
    assert_eq!(club_sem_rust::pago::aplicar_descuento(&precios, 100), vec![0, 0, 0]);
    assert!(club_sem_rust::pago::admite_descuento(&precios, 15));
    assert!(!club_sem_rust::pago::admite_descuento(&precios, 101));
    assert!(!club_sem_rust::pago::admite_descuento(&vec![5000, 4000], 15));
    assert!(!club_sem_rust::pago::admite_descuento(&vec![5000, u128::MAX, 1], 2));
}

#[test]
fn pago_realizar_pago_a_tiempo_y_tarde() {
    let mut pago = Pago::new(1_000, 3, None, vec![3000, 2000, 1000]);
    pago.realizar_pago(None, 1000, 500);
    assert!(!pago.pendiente);
    assert!(pago.a_tiempo);
    assert!(!pago.aplico_descuento);
    assert_eq!(pago.fecha_pago, Some(500));
    assert!(!pago.es_moroso(u64::MAX));

    let mut tarde = Pago::new(1_000, 3, None, vec![3000, 2000, 1000]);
    tarde.realizar_pago(Some(10), 1000, 1_000);
    assert!(!tarde.a_tiempo);
    assert!(tarde.aplico_descuento);
    assert_eq!(tarde.fecha_pago, Some(1_000));
}

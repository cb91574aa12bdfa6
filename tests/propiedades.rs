use cafeteria::cafe::ContenedorCafe;
use cafeteria::cafetera::Cafetera;
use cafeteria::constantes::{C, CANT_PEDIDOS, E, G, L, MAX_CANTIDAD, MIN_CANTIDAD, N};
use cafeteria::dispensadores::Dispensadores;
use cafeteria::error::CafeteriaError;
use cafeteria::espuma::ContenedorEspuma;
use cafeteria::pedido::{generar_pedidos, Pedido};

fn lineas(texto: &[&str]) -> Vec<String> {
    texto.iter().map(|l| l.to_string()).collect()
}

fn pedido(id: usize, agua: u32, cafe: u32, espuma: u32) -> Pedido {
    Pedido { id, agua, cafe, espuma }
}

fn cafe_valido(c: &ContenedorCafe) -> bool {
    c.cafe_molido <= C
        && C <= c.granos
        && c.granos <= G
        && c.granos_consumidos == c.cafe_molido + c.cafe_consumido
}

fn espuma_valida(e: &ContenedorEspuma) -> bool {
    e.espuma <= E && E <= e.leche && e.leche <= L && e.leche_consumida == e.espuma + e.espuma_consumida
}

// --- Pedido ---------------------------------------------------------------

#[test]
fn nuevo_pedido_en_rango() {
    assert_eq!(Pedido::new(4, 1, 10, 5), Ok(pedido(4, 1, 10, 5)));
}

#[test]
fn nuevo_pedido_fuera_de_rango() {
    assert_eq!(Pedido::new(1, 0, 5, 5), Err(CafeteriaError::PedidoInvalido));
    assert_eq!(Pedido::new(1, 5, 11, 5), Err(CafeteriaError::PedidoInvalido));
    assert_eq!(Pedido::new(1, 5, 5, 0), Err(CafeteriaError::PedidoInvalido));
    assert_eq!(Pedido::new(1, 5, 5, u32::MAX), Err(CafeteriaError::PedidoInvalido));
}

#[test]
fn linea_valida() {
    assert_eq!(Pedido::from_line("12,3,4,10"), Ok(pedido(12, 3, 4, 10)));
}

#[test]
fn linea_con_signo_mas() {
    assert_eq!(Pedido::from_line("+7,+1,2,+3"), Ok(pedido(7, 1, 2, 3)));
}

#[test]
fn linea_con_ceros_a_la_izquierda() {
    assert_eq!(Pedido::from_line("007,01,0010,9"), Ok(pedido(7, 1, 10, 9)));
}

#[test]
fn linea_con_campos_de_mas() {
    assert_eq!(Pedido::from_line("1,2,3,4,esto no se lee"), Ok(pedido(1, 2, 3, 4)));
}

#[test]
fn linea_con_cantidad_cero_o_mayor_al_maximo() {
    assert_eq!(Pedido::from_line("1,0,5,5"), Err(CafeteriaError::PedidoInvalido));
    assert_eq!(Pedido::from_line("1,5,11,5"), Err(CafeteriaError::PedidoInvalido));
    assert_eq!(Pedido::from_line("1,5,5,4294967296"), Err(CafeteriaError::PedidoInvalido));
}

#[test]
fn lineas_mal_formadas() {
    for l in ["", "1,2,3", "a,1,1,1", "1,1,1,x", "-1,1,1,1", "1,-1,1,1", " 1,1,1,1", "1,1,1,1 ", "+,1,1,1", "1,,1,1", "1;1;1;1"] {
        assert_eq!(Pedido::from_line(l), Err(CafeteriaError::PedidoInvalido), "{:?}", l);
    }
}

#[test]
fn linea_con_id_enorme() {
    assert_eq!(Pedido::from_line("99999999999999999999999,1,1,1"), Err(CafeteriaError::PedidoInvalido));
    let maximo = format!("{},1,1,1", usize::MAX);
    assert_eq!(Pedido::from_line(&maximo), Ok(pedido(usize::MAX, 1, 1, 1)));
}

#[test]
fn linea_de_pedido() {
    assert_eq!(pedido(12, 3, 4, 10).to_line(), "12,3,4,10");
    assert_eq!(pedido(0, 1, 1, 1).to_line(), "0,1,1,1");
    assert_eq!(pedido(usize::MAX, 10, 9, 8).to_line(), format!("{},10,9,8", usize::MAX));
}

#[test]
fn linea_ida_y_vuelta() {
    for p in [pedido(1, 1, 1, 1), pedido(105, 10, 7, 3), pedido(usize::MAX, 10, 10, 10)] {
        assert_eq!(Pedido::from_line(&p.to_line()), Ok(p));
    }
}

#[test]
fn pedidos_al_azar_en_rango() {
    let mut vistos = std::collections::BTreeSet::new();
    for id in 0..300 {
        let p = Pedido::new_random(id);
        assert_eq!(p.id, id);
        for x in [p.agua, p.cafe, p.espuma] {
            assert!((MIN_CANTIDAD..=MAX_CANTIDAD).contains(&x));
            vistos.insert(x);
        }
    }
    assert!(vistos.len() > 1);
}

#[test]
fn generar_pedidos_numera_desde_uno() {
    let pedidos = generar_pedidos(CANT_PEDIDOS);
    assert_eq!(pedidos.len(), CANT_PEDIDOS);
    for (i, p) in pedidos.iter().enumerate() {
        assert_eq!(p.id, i + 1);
        assert_eq!(Pedido::from_line(&p.to_line()), Ok(*p));
    }
    assert!(generar_pedidos(0).is_empty());
}

// --- Contenedores ---------------------------------------------------------

#[test]
fn contenedores_iniciales() {
    let c = ContenedorCafe::new();
    assert_eq!((c.cafe_molido, c.granos, c.fin, c.cafe_consumido, c.granos_consumidos), (0, G, false, 0, 0));
    let e = ContenedorEspuma::new();
    assert_eq!((e.espuma, e.leche, e.fin, e.espuma_consumida, e.leche_consumida), (0, L, false, 0, 0));
}

#[test]
fn reposicion_llena_el_contenedor() {
    let mut c = ContenedorCafe::new();
    assert!(!c.debe_esperar_reposicion());
    c.reponer();
    assert_eq!((c.cafe_molido, c.granos, c.granos_consumidos), (C, G - C, C));
    assert!(c.debe_esperar_reposicion());
}

#[test]
fn reposicion_repone_los_granos() {
    let mut c = ContenedorCafe {
        cafe_molido: 5,
        granos: 60,
        fin: false,
        cafe_consumido: 95,
        granos_consumidos: 100,
    };
    c.reponer();
    // se muelen 45 y quedan 15 granos, menos que una reposición: la tolva se llena
    assert_eq!((c.cafe_molido, c.granos, c.granos_consumidos, c.cafe_consumido), (50, G, 145, 95));
    let mut e = ContenedorEspuma {
        espuma: 9,
        leche: 90,
        fin: false,
        espuma_consumida: 1,
        leche_consumida: 10,
    };
    e.reponer();
    assert_eq!((e.espuma, e.leche, e.leche_consumida), (50, L, 51));
}

#[test]
fn reposicion_sin_reponer_la_leche() {
    let mut e = ContenedorEspuma {
        espuma: 20,
        leche: 90,
        fin: false,
        espuma_consumida: 0,
        leche_consumida: 20,
    };
    e.reponer();
    assert_eq!((e.espuma, e.leche, e.leche_consumida), (50, 60, 50));
}

#[test]
fn predicado_de_espera_de_la_reposicion() {
    let mut c = ContenedorCafe::new();
    c.reponer();
    c.servir(40);
    assert!(c.debe_esperar_reposicion());
    c.servir(1);
    assert!(!c.debe_esperar_reposicion());
    c.reponer_si_hace_falta();
    assert_eq!(c.cafe_molido, C);
    c.servir(45);
    c.finalizar();
    assert!(!c.debe_esperar_reposicion());
    c.reponer_si_hace_falta();
    assert_eq!(c.cafe_molido, 5);
}

#[test]
fn servir_solo_si_alcanza() {
    let mut e = ContenedorEspuma::new();
    assert!(!e.alcanza(1));
    assert!(e.alcanza(0));
    e.reponer();
    assert!(e.alcanza(E));
    assert!(!e.alcanza(E + 1));
    e.servir(7);
    assert_eq!((e.espuma, e.espuma_consumida), (E - 7, 7));
    assert!(espuma_valida(&e));
}

#[test]
fn finalizar_dos_veces_es_finalizar_una() {
    let mut una = Cafetera::new();
    una.realizar_pedido(&pedido(1, 2, 3, 4));
    let mut dos = Cafetera::new();
    dos.realizar_pedido(&pedido(1, 2, 3, 4));
    una.finalizar();
    dos.finalizar();
    dos.finalizar();
    assert_eq!(una.cafe, dos.cafe);
    assert_eq!(una.espuma, dos.espuma);
    assert_eq!(una.cant_pedidos, dos.cant_pedidos);
    assert!(dos.cafe.fin && dos.espuma.fin);
}

// --- Dispensadores ----------------------------------------------------------

#[test]
fn dispensadores_en_orden() {
    let mut d = Dispensadores::new();
    let mut tomados = Vec::new();
    while d.hay_libre() {
        tomados.push(d.ocupar());
    }
    assert_eq!(tomados, (0..N).collect::<Vec<_>>());
    d.liberar(1);
    assert!(d.hay_libre());
    assert_eq!(d.ocupar(), 1);
    assert!(!d.hay_libre());
    d.liberar(2);
    d.liberar(0);
    assert_eq!(d.ocupar(), 0);
    assert_eq!(d.ocupar(), 2);
}

fn contar_libres(d: &mut Dispensadores) -> usize {
    let mut tomados = Vec::new();
    while d.hay_libre() {
        tomados.push(d.ocupar());
    }
    for i in &tomados {
        d.liberar(*i);
    }
    tomados.len()
}

#[test]
fn libres_mas_en_servicio_es_n() {
    let mut d = Dispensadores::new();
    let mut en_servicio: Vec<usize> = Vec::new();
    assert_eq!(contar_libres(&mut d), N);
    for paso in 0..12 {
        if paso % 3 == 2 {
            let i = en_servicio.remove(0);
            d.liberar(i);
        } else if d.hay_libre() {
            en_servicio.push(d.ocupar());
        }
        assert_eq!(contar_libres(&mut d) + en_servicio.len(), N);
    }
}

// --- Cafetera ---------------------------------------------------------------

#[test]
fn escenario_sin_pedidos() {
    let mut cafetera = Cafetera::new();
    cafetera.realizar_pedidos(&Vec::new());
    assert_eq!(cafetera.cant_pedidos, 0);
    assert!(cafetera.cafe.fin && cafetera.espuma.fin);
    // los lazos de reposición despiertan y salen
    assert!(!cafetera.cafe.debe_esperar_reposicion());
    assert!(!cafetera.espuma.debe_esperar_reposicion());
    assert_eq!(cafetera.cafe, ContenedorCafe { fin: true, ..ContenedorCafe::new() });
}

#[test]
fn escenario_un_pedido() {
    let mut cafetera = Cafetera::new();
    cafetera.realizar_pedido(&pedido(1, 5, 5, 5));
    let c = cafetera.cafe;
    let e = cafetera.espuma;
    assert_eq!((c.cafe_molido, c.granos, c.cafe_consumido, c.granos_consumidos), (45, 150, 5, 50));
    assert_eq!((e.espuma, e.leche, e.espuma_consumida, e.leche_consumida), (45, 150, 5, 50));
    assert_eq!(cafetera.cant_pedidos, 1);
    assert!(cafetera.dispensadores.hay_libre());
}

#[test]
fn escenario_quince_pedidos_con_lineas_invalidas() {
    let mut texto = Vec::new();
    for i in 1..=15u32 {
        texto.push(format!("{},{},{},{}", i, 1 + i % 10, 1 + (i * 3) % 10, 1 + (i * 7) % 10));
        texto.push(format!("{},0,1,1", 100 + i));
        if i % 4 == 0 {
            texto.push("no es un pedido".to_string());
            texto.push(format!("{},5,5,{}", 200 + i, MAX_CANTIDAD + 1));
        }
    }
    let mut cafetera = Cafetera::new();
    cafetera.realizar_pedidos(&texto);
    assert_eq!(cafetera.cant_pedidos, 15);
    let cafe: u32 = (1..=15u32).map(|i| 1 + (i * 3) % 10).sum();
    let espuma: u32 = (1..=15u32).map(|i| 1 + (i * 7) % 10).sum();
    assert_eq!(cafetera.cafe.cafe_consumido, cafe);
    assert_eq!(cafetera.espuma.espuma_consumida, espuma);
}

#[test]
fn cantidad_invalida_no_llega_a_servirse() {
    let mut cafetera = Cafetera::new();
    cafetera.realizar_pedidos(&lineas(&["1,0,5,5", "2,5,11,5", "3,5,5,0", "4,5,5,20"]));
    assert_eq!(cafetera.cant_pedidos, 0);
    assert_eq!(cafetera.cafe.cafe_consumido, 0);
    assert_eq!(cafetera.espuma.espuma_consumida, 0);
    assert_eq!(cafetera.cafe.granos_consumidos, 0);
}

#[test]
fn invariantes_tras_muchos_pedidos() {
    let mut cafetera = Cafetera::new();
    let mut cafe = 0;
    let mut espuma = 0;
    for i in 0..500usize {
        let p = pedido(i, 1 + (i % 10) as u32, 1 + (i * 7 % 10) as u32, 10 - (i % 10) as u32);
        cafe += p.cafe;
        espuma += p.espuma;
        cafetera.realizar_pedido(&p);
        assert!(cafe_valido(&cafetera.cafe));
        assert!(espuma_valida(&cafetera.espuma));
        assert!(cafetera.cafe.cafe_molido >= MAX_CANTIDAD);
        assert!(cafetera.espuma.espuma >= MAX_CANTIDAD);
    }
    assert_eq!(cafetera.cafe.cafe_consumido, cafe);
    assert_eq!(cafetera.espuma.espuma_consumida, espuma);
    assert_eq!(cafetera.cant_pedidos, 500);
}

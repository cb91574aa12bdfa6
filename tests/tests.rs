use cafeteria::cafetera::Cafetera;
use cafeteria::constantes::{C, E, G, L};

fn lineas(texto: &[&str]) -> Vec<String> {
    texto.iter().map(|l| l.to_string()).collect()
}

#[test]
fn test02_cero_pedidos() {
    let mut cafetera = Cafetera::new();
    cafetera.realizar_pedidos(&lineas(&[]));
    assert_eq!(cafetera.cant_pedidos, 0);
}

#[test]
fn test03_un_pedido() {
    let mut cafetera = Cafetera::new();
    cafetera.realizar_pedidos(&lineas(&["1,5,5,5"]));
    let contenedor_cafe = cafetera.cafe;
    let contenedor_espuma = cafetera.espuma;
    assert_eq!(cafetera.cant_pedidos, 1);
    assert_eq!(contenedor_cafe.cafe_consumido, 5);
    assert_eq!(contenedor_cafe.granos_consumidos, C);
    assert_eq!(contenedor_cafe.cafe_molido, C - 5);
    assert_eq!(contenedor_cafe.granos, G - C);
    assert_eq!(contenedor_espuma.espuma_consumida, 5);
    assert_eq!(contenedor_espuma.leche_consumida, E);
    assert_eq!(contenedor_espuma.espuma, E - 5);
    assert_eq!(contenedor_espuma.leche, L - E);
}

#[test]
fn test04_multiples_pedidos() {
    let mut cafetera = Cafetera::new();
    cafetera.realizar_pedidos(&lineas(&[
        "1,3,10,10",
        "2,7,10,10",
        "3,1,10,10",
        "4,10,10,10",
        "5,2,5,1",
        "6,4,4,3",
        "7,5,4,3",
        "8,6,4,3",
        "9,8,4,3",
        "10,9,4,3",
        "11,3,4,2",
        "12,2,4,2",
        "13,1,4,2",
        "14,5,4,2",
        "15,6,9,2",
    ]));
    let contenedor_cafe = cafetera.cafe;
    let contenedor_espuma = cafetera.espuma;
    assert_eq!(cafetera.cant_pedidos, 15);
    assert_eq!(contenedor_cafe.cafe_consumido, 90);
    assert_eq!(contenedor_cafe.granos_consumidos, 140);
    assert_eq!(contenedor_cafe.cafe_molido, 50);
    assert_eq!(contenedor_cafe.granos, 60);
    assert_eq!(contenedor_espuma.espuma_consumida, 66);
    assert_eq!(contenedor_espuma.leche_consumida, 91);
    assert_eq!(contenedor_espuma.espuma, 25);
    assert_eq!(contenedor_espuma.leche, 109);
}

#[test]
fn test05_pedidos_invalidos() {
    let mut cafetera = Cafetera::new();
    cafetera.realizar_pedidos(&lineas(&[
        "1,0,5,6",
        "2,5,5,6",
        "hola",
        "3,11,5,6",
        "4,5,5",
        "",
        "5,5,-5,6",
        "6,5,5,6",
        "7,5,5,100",
    ]));
    let contenedor_cafe = cafetera.cafe;
    let contenedor_espuma = cafetera.espuma;
    assert_eq!(cafetera.cant_pedidos, 2);
    assert_eq!(contenedor_cafe.cafe_consumido, 10);
    assert_eq!(contenedor_cafe.granos_consumidos, 50);
    assert_eq!(contenedor_cafe.cafe_molido, 40);
    assert_eq!(contenedor_cafe.granos, 150);
    assert_eq!(contenedor_espuma.espuma_consumida, 12);
    assert_eq!(contenedor_espuma.leche_consumida, 50);
    assert_eq!(contenedor_espuma.espuma, 38);
    assert_eq!(contenedor_espuma.leche, 150);
}

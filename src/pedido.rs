use vstd::prelude::*;

use rand::Rng;

use crate::constantes::{MAX_CANTIDAD, MIN_CANTIDAD};
use crate::error::CafeteriaError;
use crate::texto::{
    agregar_caracter, caracteres, campos, decimal, escribir_decimal, leer_numero,
    lema_campos_agregar, lema_campos_coma, lema_decimal, lema_digitos_sin_comas,
    lema_numero_decimal, numero, separar_campos,
};

verus! {

/// Información del pedido de un cliente.
///
/// Se representa como una línea en el archivo de pedidos de la siguiente manera:
///
/// ```text
/// <id>,<agua>,<cafe>,<espuma>
/// ```
#[derive(Debug, Clone, Copy, PartialEq, Eq, Structural)]
pub struct Pedido {
    pub id: usize,
    /// Cantidad de agua
    pub agua: u32,
    /// Cantidad de cafe
    pub cafe: u32,
    /// Cantidad de espuma
    pub espuma: u32,
}

/// Una cantidad está en el rango permitido [`MIN_CANTIDAD`, `MAX_CANTIDAD`].
pub open spec fn cantidad_valida(x: int) -> bool {
    MIN_CANTIDAD <= x <= MAX_CANTIDAD
}

impl Pedido {
    /// Las tres cantidades del pedido están en el rango permitido.
    pub open spec fn valido(&self) -> bool {
        &&& cantidad_valida(self.agua as int)
        &&& cantidad_valida(self.cafe as int)
        &&& cantidad_valida(self.espuma as int)
    }

    /// # Errors
    /// * En caso de que agua, cafe o espuma no estén en el rango [[`MIN_CANTIDAD`], =[`MAX_CANTIDAD`]]
    /// devuelve [`CafeteriaError::PedidoInvalido`].
    pub fn new(id: usize, agua: u32, cafe: u32, espuma: u32) -> (r: Result<Pedido, CafeteriaError>)
        ensures
            r is Ok <==> cantidad_valida(agua as int) && cantidad_valida(cafe as int)
                && cantidad_valida(espuma as int),
            r is Ok ==> r->Ok_0 == (Pedido { id, agua, cafe, espuma }) && r->Ok_0.valido(),
            r is Err ==> r->Err_0 == CafeteriaError::PedidoInvalido,
    {
        if agua < MIN_CANTIDAD || agua > MAX_CANTIDAD || cafe < MIN_CANTIDAD || cafe > MAX_CANTIDAD
            || espuma < MIN_CANTIDAD || espuma > MAX_CANTIDAD
        {
            Err(CafeteriaError::PedidoInvalido)
        } else {
            Ok(Pedido { id, agua, cafe, espuma })
        }
    }

    /// Genera un pedido con cantidades aleatorias de agua, café y espuma.
    pub fn new_random(id: usize) -> (r: Pedido)
        ensures
            r.id == id,
            r.valido(),
    {
        Pedido {
            id,
            agua: cantidad_al_azar(MIN_CANTIDAD, MAX_CANTIDAD),
            cafe: cantidad_al_azar(MIN_CANTIDAD, MAX_CANTIDAD),
            espuma: cantidad_al_azar(MIN_CANTIDAD, MAX_CANTIDAD),
        }
    }

    /// Parsea una línea de un archivo de pedidos.
    ///
    /// # Errors
    /// * En caso de que agua, cafe o espuma no estén en el rango [[`MIN_CANTIDAD`], =[`MAX_CANTIDAD`]]
    /// devuelve [`CafeteriaError::PedidoInvalido`].
    /// * En caso de que la línea no tenga el formato correcto devuelve [`CafeteriaError::PedidoInvalido`].
    pub fn from_line(line: &str) -> (r: Result<Pedido, CafeteriaError>)
        ensures
            r is Ok <==> pedido_de_linea(line@) is Some,
            r is Ok ==> pedido_de_linea(line@) == Some(r->Ok_0) && r->Ok_0.valido(),
            r is Err ==> r->Err_0 == CafeteriaError::PedidoInvalido,
    {
        let cs = caracteres(line);
        let f = separar_campos(&cs);
        if f.len() < 4 {
            return Err(CafeteriaError::PedidoInvalido);
        }
        let id = leer_numero(&f[0], usize::MAX as u64);
        let agua = leer_numero(&f[1], u32::MAX as u64);
        let cafe = leer_numero(&f[2], u32::MAX as u64);
        let espuma = leer_numero(&f[3], u32::MAX as u64);
        match (id, agua, cafe, espuma) {
            (Some(id), Some(agua), Some(cafe), Some(espuma)) => Pedido::new(
                id as usize,
                agua as u32,
                cafe as u32,
                espuma as u32,
            ),
            _ => Err(CafeteriaError::PedidoInvalido),
        }
    }

    /// Parseo a String.
    pub fn to_line(&self) -> (r: String)
        ensures
            r@ == linea(*self),
    {
        let mut s = String::new();
        escribir_decimal(&mut s, self.id as u64);
        agregar_caracter(&mut s, ',');
        escribir_decimal(&mut s, self.agua as u64);
        agregar_caracter(&mut s, ',');
        escribir_decimal(&mut s, self.cafe as u64);
        agregar_caracter(&mut s, ',');
        escribir_decimal(&mut s, self.espuma as u64);
        assert(s@ =~= linea(*self));
        s
    }
}

/// El pedido que describe la línea `s`, de la forma `<id>,<agua>,<cafe>,<espuma>`.
/// Los campos que siguen al cuarto no se leen.
pub open spec fn pedido_de_linea(s: Seq<char>) -> Option<Pedido> {
    let f = campos(s);
    if f.len() < 4 {
        None
    } else {
        let id = numero(f[0], usize::MAX as int);
        let agua = numero(f[1], u32::MAX as int);
        let cafe = numero(f[2], u32::MAX as int);
        let espuma = numero(f[3], u32::MAX as int);
        if id is Some && agua is Some && cafe is Some && espuma is Some && cantidad_valida(
            agua->0,
        ) && cantidad_valida(cafe->0) && cantidad_valida(espuma->0) {
            Some(
                Pedido {
                    id: id->0 as usize,
                    agua: agua->0 as u32,
                    cafe: cafe->0 as u32,
                    espuma: espuma->0 as u32,
                },
            )
        } else {
            None
        }
    }
}

/// La línea que describe al pedido `p`.
pub open spec fn linea(p: Pedido) -> Seq<char> {
    decimal(p.id as nat) + seq![','] + decimal(p.agua as nat) + seq![','] + decimal(
        p.cafe as nat,
    ) + seq![','] + decimal(p.espuma as nat)
}

/// Genera `cantidad` pedidos aleatorios con ids `1..=cantidad`, en ese orden.
pub fn generar_pedidos(cantidad: usize) -> (r: Vec<Pedido>)
    ensures
        r@.len() == cantidad,
        forall|i: int| 0 <= i < cantidad ==> #[trigger] r@[i].id == i + 1 && r@[i].valido(),
{
    let mut r: Vec<Pedido> = Vec::new();
    let mut i: usize = 0;
    while i < cantidad
        invariant
            i <= cantidad,
            r@.len() == i,
            forall|j: int| 0 <= j < i ==> #[trigger] r@[j].id == j + 1 && r@[j].valido(),
        decreases cantidad - i,
    {
        r.push(Pedido::new_random(i + 1));
        i = i + 1;
    }
    r
}

/// Escribir un pedido válido en una línea y volver a leerla da el mismo pedido.
pub proof fn lema_linea_ida_y_vuelta(p: Pedido)
    requires
        p.valido(),
    ensures
        pedido_de_linea(linea(p)) == Some(p),
{
    let d0 = decimal(p.id as nat);
    let d1 = decimal(p.agua as nat);
    let d2 = decimal(p.cafe as nat);
    let d3 = decimal(p.espuma as nat);
    lema_decimal(p.id as nat);
    lema_decimal(p.agua as nat);
    lema_decimal(p.cafe as nat);
    lema_decimal(p.espuma as nat);
    lema_digitos_sin_comas(d0);
    lema_digitos_sin_comas(d1);
    lema_digitos_sin_comas(d2);
    lema_digitos_sin_comas(d3);
    let vacio = Seq::<char>::empty();
    lema_campos_agregar(vacio, d0);
    assert(vacio + d0 =~= d0);
    assert(campos(vacio) =~= seq![vacio]);
    assert(campos(d0) =~= seq![d0]);
    let l1 = d0 + seq![','];
    lema_campos_coma(d0);
    let l2 = l1 + d1;
    lema_campos_agregar(l1, d1);
    assert(campos(l2) =~= seq![d0, d1]);
    let l3 = l2 + seq![','];
    lema_campos_coma(l2);
    let l4 = l3 + d2;
    lema_campos_agregar(l3, d2);
    assert(campos(l4) =~= seq![d0, d1, d2]);
    let l5 = l4 + seq![','];
    lema_campos_coma(l4);
    let l6 = l5 + d3;
    lema_campos_agregar(l5, d3);
    assert(campos(l6) =~= seq![d0, d1, d2, d3]);
    assert(l6 == linea(p));
    lema_numero_decimal(p.id as nat, usize::MAX as int);
    lema_numero_decimal(p.agua as nat, u32::MAX as int);
    lema_numero_decimal(p.cafe as nat, u32::MAX as int);
    lema_numero_decimal(p.espuma as nat, u32::MAX as int);
}

/// Se apoya en `rand::Rng::gen_range` sobre `rand::thread_rng()`, que devuelve un valor
/// del rango inclusivo `minimo..=maximo` y entra en pánico si el rango está vacío.
#[verifier::external_body]
fn cantidad_al_azar(minimo: u32, maximo: u32) -> (r: u32)
    requires
        minimo <= maximo,
    ensures
        minimo <= r <= maximo,
{
    rand::thread_rng().gen_range(minimo..=maximo)
}

} // verus!

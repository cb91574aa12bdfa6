use vstd::prelude::*;

use crate::cafe::ContenedorCafe;
use crate::constantes::{C, E, MAX_CANTIDAD};
use crate::dispensadores::{hay_libre, pool_inicial, Dispensadores};
use crate::espuma::ContenedorEspuma;
use crate::pedido::{pedido_de_linea, Pedido};

verus! {

/// La cafetera: sus dispensadores, sus dos contenedores y cuántos pedidos completó.
///
/// Cada parte es un estado con sus transiciones; quien corre los pedidos en hilos
/// protege cada una con su propio lock y llama a sus métodos. Los métodos de la
/// cafetera sirven los pedidos de a uno, en el orden en que llegan.
#[derive(Debug)]
pub struct Cafetera {
    /// Dispensadores libres y ocupados
    pub dispensadores: Dispensadores,
    /// Contenedor de cafe y granos
    pub cafe: ContenedorCafe,
    /// Contenedor de espuma y leche
    pub espuma: ContenedorEspuma,
    /// Cantidad total de pedidos completados
    pub cant_pedidos: u32,
}

/// El contenedor de café tras servir un pedido que pide `cantidad`: el lazo de
/// reposición repone si le toca, el pedido se sirve, y el lazo, despertado por el
/// consumo, vuelve a reponer si le toca.
pub open spec fn servicio_cafe(c: ContenedorCafe, cantidad: u32) -> ContenedorCafe {
    c.tras_ciclo().servido(cantidad).tras_ciclo()
}

/// El contenedor de espuma tras servir un pedido que pide `cantidad`.
pub open spec fn servicio_espuma(e: ContenedorEspuma, cantidad: u32) -> ContenedorEspuma {
    e.tras_ciclo().servido(cantidad).tras_ciclo()
}

/// Los pedidos válidos de una secuencia de líneas, en orden; las líneas mal
/// formadas se saltean.
pub open spec fn pedidos_de_lineas(lineas: Seq<Seq<char>>) -> Seq<Pedido>
    decreases lineas.len(),
{
    if lineas.len() == 0 {
        Seq::empty()
    } else {
        let previos = pedidos_de_lineas(lineas.drop_last());
        match pedido_de_linea(lineas.last()) {
            Some(p) => previos.push(p),
            None => previos,
        }
    }
}

/// Solo llegan a servirse pedidos válidos: una línea con alguna cantidad fuera de
/// rango, o mal formada, no produce pedido.
pub proof fn lema_pedidos_de_lineas_validos(lineas: Seq<Seq<char>>)
    ensures
        forall|i: int|
            0 <= i < pedidos_de_lineas(lineas).len() ==> #[trigger] pedidos_de_lineas(
                lineas,
            )[i].valido(),
        pedidos_de_lineas(lineas).len() <= lineas.len(),
    decreases lineas.len(),
{
    if lineas.len() > 0 {
        lema_pedidos_de_lineas_validos(lineas.drop_last());
    }
}

/// Café que piden en total los pedidos.
pub open spec fn suma_cafe(pedidos: Seq<Pedido>) -> int
    decreases pedidos.len(),
{
    if pedidos.len() == 0 {
        0
    } else {
        suma_cafe(pedidos.drop_last()) + pedidos.last().cafe
    }
}

/// Espuma que piden en total los pedidos.
pub open spec fn suma_espuma(pedidos: Seq<Pedido>) -> int
    decreases pedidos.len(),
{
    if pedidos.len() == 0 {
        0
    } else {
        suma_espuma(pedidos.drop_last()) + pedidos.last().espuma
    }
}

/// El contenedor de café tras servir los pedidos de a uno.
pub open spec fn cafe_tras_pedidos(c: ContenedorCafe, pedidos: Seq<Pedido>) -> ContenedorCafe
    decreases pedidos.len(),
{
    if pedidos.len() == 0 {
        c
    } else {
        servicio_cafe(cafe_tras_pedidos(c, pedidos.drop_last()), pedidos.last().cafe)
    }
}

/// El contenedor de espuma tras servir los pedidos de a uno.
pub open spec fn espuma_tras_pedidos(e: ContenedorEspuma, pedidos: Seq<Pedido>) -> ContenedorEspuma
    decreases pedidos.len(),
{
    if pedidos.len() == 0 {
        e
    } else {
        servicio_espuma(espuma_tras_pedidos(e, pedidos.drop_last()), pedidos.last().espuma)
    }
}

/// Vista de cada línea como secuencia de caracteres.
pub open spec fn vistas(lineas: Seq<String>) -> Seq<Seq<char>> {
    lineas.map_values(|l: String| l@)
}

impl Cafetera {
    /// Cada parte cumple su invariante.
    pub open spec fn inv(&self) -> bool {
        &&& self.dispensadores.inv()
        &&& self.cafe.inv()
        &&& self.espuma.inv()
    }

    #[must_use]
    pub fn new() -> (r: Cafetera)
        ensures
            r.dispensadores@ == pool_inicial(),
            r.cafe == ContenedorCafe::inicial(),
            r.espuma == ContenedorEspuma::inicial(),
            r.cant_pedidos == 0,
            r.inv(),
    {
        Cafetera {
            dispensadores: Dispensadores::new(),
            cafe: ContenedorCafe::new(),
            espuma: ContenedorEspuma::new(),
            cant_pedidos: 0,
        }
    }

    /// Sirve un pedido de principio a fin: toma un dispensador, sirve el agua, el
    /// café y la espuma (reponiendo cada contenedor cuando su lazo lo haría), devuelve
    /// el dispensador y cuenta el pedido como completado.
    pub fn realizar_pedido(&mut self, pedido: &Pedido)
        requires
            old(self).inv(),
            pedido.valido(),
            !old(self).cafe.fin,
            !old(self).espuma.fin,
            hay_libre(old(self).dispensadores@),
            old(self).cant_pedidos < u32::MAX,
            old(self).cafe.cafe_consumido + MAX_CANTIDAD + C <= u32::MAX,
            old(self).espuma.espuma_consumida + MAX_CANTIDAD + E <= u32::MAX,
        ensures
            final(self).inv(),
            final(self).dispensadores@ == old(self).dispensadores@,
            final(self).cafe == servicio_cafe(old(self).cafe, pedido.cafe),
            final(self).espuma == servicio_espuma(old(self).espuma, pedido.espuma),
            final(self).cant_pedidos == old(self).cant_pedidos + 1,
    {
        let ghost inicio = self.dispensadores@;
        let dispensador = self.dispensadores.ocupar();

        self.cafe.reponer_si_hace_falta();
        self.cafe.servir(pedido.cafe);
        self.cafe.reponer_si_hace_falta();

        self.espuma.reponer_si_hace_falta();
        self.espuma.servir(pedido.espuma);
        self.espuma.reponer_si_hace_falta();

        self.dispensadores.liberar(dispensador);
        assert(self.dispensadores@ =~= inicio);
        self.cant_pedidos = self.cant_pedidos + 1;
    }

    /// Marca los dos contenedores como terminados, para que sus lazos de reposición
    /// salgan. Hacerlo más de una vez no cambia nada más.
    pub fn finalizar(&mut self)
        ensures
            final(self).cafe == old(self).cafe.finalizado(),
            final(self).espuma == old(self).espuma.finalizado(),
            final(self).dispensadores@ == old(self).dispensadores@,
            final(self).cant_pedidos == old(self).cant_pedidos,
            old(self).inv() ==> final(self).inv(),
    {
        self.cafe.finalizar();
        self.espuma.finalizar();
    }

    /// Prepara los pedidos de las líneas dadas, de a uno y en orden. Una línea mal
    /// formada se saltea. Al final marca los contenedores como terminados.
    pub fn realizar_pedidos(&mut self, lineas: &Vec<String>)
        requires
            old(self).inv(),
            !old(self).cafe.fin,
            !old(self).espuma.fin,
            hay_libre(old(self).dispensadores@),
            old(self).cant_pedidos + lineas@.len() <= u32::MAX,
            old(self).cafe.cafe_consumido + MAX_CANTIDAD * lineas@.len() + C <= u32::MAX,
            old(self).espuma.espuma_consumida + MAX_CANTIDAD * lineas@.len() + E <= u32::MAX,
        ensures
            ({
                let pedidos = pedidos_de_lineas(vistas(lineas@));
                &&& final(self).inv()
                &&& final(self).cant_pedidos == old(self).cant_pedidos + pedidos.len()
                &&& final(self).cafe == cafe_tras_pedidos(old(self).cafe, pedidos).finalizado()
                &&& final(self).espuma == espuma_tras_pedidos(
                    old(self).espuma,
                    pedidos,
                ).finalizado()
                &&& final(self).cafe.cafe_consumido == old(self).cafe.cafe_consumido + suma_cafe(
                    pedidos,
                )
                &&& final(self).espuma.espuma_consumida == old(self).espuma.espuma_consumida
                    + suma_espuma(pedidos)
                &&& final(self).dispensadores@ == old(self).dispensadores@
            }),
    {
        let ghost todas = vistas(lineas@);
        let ghost cafe0 = self.cafe;
        let ghost espuma0 = self.espuma;
        let ghost pool0 = self.dispensadores@;
        let ghost cant0 = self.cant_pedidos;
        let n = lineas.len();
        let mut i: usize = 0;
        while i < n
            invariant
                n == lineas@.len(),
                i <= n,
                todas == vistas(lineas@),
                self.inv(),
                !self.cafe.fin,
                !self.espuma.fin,
                self.dispensadores@ == pool0,
                hay_libre(pool0),
                ({
                    let pedidos = pedidos_de_lineas(todas.take(i as int));
                    &&& pedidos.len() <= i
                    &&& self.cant_pedidos == cant0 + pedidos.len()
                    &&& self.cafe == cafe_tras_pedidos(cafe0, pedidos)
                    &&& self.espuma == espuma_tras_pedidos(espuma0, pedidos)
                    &&& self.cafe.cafe_consumido == cafe0.cafe_consumido + suma_cafe(pedidos)
                    &&& self.espuma.espuma_consumida == espuma0.espuma_consumida + suma_espuma(
                        pedidos,
                    )
                }),
                self.cafe.cafe_consumido <= cafe0.cafe_consumido + MAX_CANTIDAD * i,
                self.espuma.espuma_consumida <= espuma0.espuma_consumida + MAX_CANTIDAD * i,
                cant0 + n <= u32::MAX,
                cafe0.cafe_consumido + MAX_CANTIDAD * n + C <= u32::MAX,
                espuma0.espuma_consumida + MAX_CANTIDAD * n + E <= u32::MAX,
            decreases n - i,
        {
            let ghost previos = pedidos_de_lineas(todas.take(i as int));
            proof {
                assert(todas.take(i + 1).drop_last() =~= todas.take(i as int));
                assert(todas.take(i + 1).last() == lineas@[i as int]@);
            }
            match Pedido::from_line(lineas[i].as_str()) {
                Ok(pedido) => {
                    self.realizar_pedido(&pedido);
                    proof {
                        let pedidos = previos.push(pedido);
                        assert(pedidos.drop_last() =~= previos);
                    }
                },
                Err(_) => {},
            }
            i = i + 1;
        }
        proof {
            assert(todas.take(n as int) =~= todas);
        }
        self.finalizar();
    }
}

} // verus!

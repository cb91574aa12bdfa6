use vstd::prelude::*;

use crate::constantes::{C, G, MAX_CANTIDAD};

verus! {

/// Contenedor de café molido y de granos. Lo comparten el lazo que lo repone y los
/// pedidos que lo consumen.
#[derive(Debug, Clone, Copy, PartialEq, Eq, Structural)]
pub struct ContenedorCafe {
    /// Cantidad actual de cafe molido
    pub cafe_molido: u32,
    /// Cantidad actual de granos de cafe
    pub granos: u32,
    /// true si no quedan pedidos por realizar
    pub fin: bool,
    /// Cantidad total de cafe molido consumido
    pub cafe_consumido: u32,
    /// Cantidad total de granos de cafe consumidos
    pub granos_consumidos: u32,
}

impl ContenedorCafe {
    /// Invariante de todo estado alcanzable: el molido no pasa de su capacidad, la
    /// tolva nunca queda por debajo de lo que pide una reposición ni por encima de su
    /// capacidad, y todo grano consumido se convirtió en café que sigue en el
    /// contenedor o que ya se sirvió.
    pub open spec fn inv(&self) -> bool {
        &&& self.cafe_molido <= C
        &&& C <= self.granos <= G
        &&& self.granos_consumidos == self.cafe_molido + self.cafe_consumido
    }

    /// El contenedor tal como empieza: sin molido y con la tolva llena.
    pub open spec fn inicial() -> ContenedorCafe {
        ContenedorCafe {
            cafe_molido: 0,
            granos: G,
            fin: false,
            cafe_consumido: 0,
            granos_consumidos: 0,
        }
    }

    /// Granos que convierte en molido un ciclo de reposición.
    pub open spec fn cantidad_reposicion(&self) -> int {
        if C - self.cafe_molido <= self.granos {
            C - self.cafe_molido
        } else {
            self.granos as int
        }
    }

    /// El contenedor tras un ciclo de reposición: se muele lo que falta para llenarlo
    /// (o lo que haya de granos) y, si la tolva quedó por debajo de una reposición,
    /// se vuelve a llenar.
    pub open spec fn repuesto(&self) -> ContenedorCafe {
        let cantidad = self.cantidad_reposicion();
        let granos = self.granos - cantidad;
        ContenedorCafe {
            cafe_molido: (self.cafe_molido + cantidad) as u32,
            granos: if granos < C {
                G
            } else {
                granos as u32
            },
            granos_consumidos: (self.granos_consumidos + cantidad) as u32,
            ..*self
        }
    }

    /// El contenedor tras servir `cantidad` de café molido.
    pub open spec fn servido(&self, cantidad: u32) -> ContenedorCafe {
        ContenedorCafe {
            cafe_molido: (self.cafe_molido - cantidad) as u32,
            cafe_consumido: (self.cafe_consumido + cantidad) as u32,
            ..*self
        }
    }

    /// El contenedor marcado como terminado; el resto no cambia.
    pub open spec fn finalizado(&self) -> ContenedorCafe {
        ContenedorCafe { fin: true, ..*self }
    }

    /// El lazo de reposición espera mientras esto valga.
    pub open spec fn espera_reposicion(&self) -> bool {
        self.cafe_molido >= MAX_CANTIDAD && !self.fin
    }

    /// El contenedor después de que el lazo de reposición lo atiende una vez: si
    /// despertó sin que hubiera terminado, repone.
    pub open spec fn tras_ciclo(&self) -> ContenedorCafe {
        if !self.espera_reposicion() && !self.fin {
            self.repuesto()
        } else {
            *self
        }
    }

    #[must_use]
    pub fn new() -> (r: Self)
        ensures
            r == Self::inicial(),
            r.inv(),
    {
        ContenedorCafe {
            cafe_molido: 0,
            granos: G,
            fin: false,
            cafe_consumido: 0,
            granos_consumidos: 0,
        }
    }

    /// Predicado de espera del lazo de reposición: hay molido de sobra para un
    /// pedido y todavía no se terminó.
    pub fn debe_esperar_reposicion(&self) -> (r: bool)
        ensures
            r == self.espera_reposicion(),
    {
        self.cafe_molido >= MAX_CANTIDAD && !self.fin
    }

    /// Un ciclo de reposición: muele lo que falta para llenar el contenedor, con los
    /// granos que haya, y repone la tolva si quedó por debajo de [`C`].
    pub fn reponer(&mut self)
        requires
            old(self).inv(),
            old(self).cafe_consumido + C <= u32::MAX,
        ensures
            *final(self) == old(self).repuesto(),
            final(self).inv(),
    {
        let falta = C - self.cafe_molido;
        let cantidad = if falta <= self.granos {
            falta
        } else {
            self.granos
        };
        self.cafe_molido = self.cafe_molido + cantidad;
        self.granos = self.granos - cantidad;
        self.granos_consumidos = self.granos_consumidos + cantidad;
        if self.granos < C {
            self.granos = G;
        }
    }

    /// Si el lazo de reposición, al despertar, encuentra que le toca reponer, repone.
    pub fn reponer_si_hace_falta(&mut self)
        requires
            old(self).inv(),
            old(self).cafe_consumido + C <= u32::MAX,
        ensures
            *final(self) == old(self).tras_ciclo(),
            final(self).inv(),
    {
        if !self.debe_esperar_reposicion() && !self.fin {
            self.reponer();
        }
    }

    /// Un pedido que necesita `cantidad` de molido puede servirse.
    pub fn alcanza(&self, cantidad: u32) -> (r: bool)
        ensures
            r == (self.cafe_molido >= cantidad),
    {
        self.cafe_molido >= cantidad
    }

    /// Sirve `cantidad` de café molido. Solo procede si el contenedor la tiene.
    pub fn servir(&mut self, cantidad: u32)
        requires
            old(self).inv(),
            old(self).cafe_molido >= cantidad,
        ensures
            *final(self) == old(self).servido(cantidad),
            final(self).inv(),
    {
        self.cafe_molido = self.cafe_molido - cantidad;
        self.cafe_consumido = self.cafe_consumido + cantidad;
    }

    /// Marca el contenedor como terminado, para que el lazo de reposición salga.
    pub fn finalizar(&mut self)
        ensures
            *final(self) == old(self).finalizado(),
            old(self).inv() ==> final(self).inv(),
    {
        self.fin = true;
    }
}

/// Lo que le puede pasar a un contenedor: el lazo de reposición hace un ciclo, un
/// pedido se sirve una cantidad, o la cafetera lo marca como terminado.
pub enum EventoContenedor {
    Reponer,
    Servir(u32),
    Finalizar,
}

/// El contenedor de café tras una secuencia de eventos, desde el estado inicial.
pub open spec fn cafe_tras_eventos(eventos: Seq<EventoContenedor>) -> ContenedorCafe
    decreases eventos.len(),
{
    if eventos.len() == 0 {
        ContenedorCafe::inicial()
    } else {
        let c = cafe_tras_eventos(eventos.drop_last());
        match eventos.last() {
            EventoContenedor::Reponer => c.repuesto(),
            EventoContenedor::Servir(k) => c.servido(k),
            EventoContenedor::Finalizar => c.finalizado(),
        }
    }
}

/// Una secuencia de eventos posible: el lazo repone solo cuando despierta sin haber
/// terminado (y con lugar en sus contadores), y un pedido se sirve solo cuando lo
/// que pide está en el contenedor.
pub open spec fn eventos_cafe_validos(eventos: Seq<EventoContenedor>) -> bool
    decreases eventos.len(),
{
    if eventos.len() == 0 {
        true
    } else {
        let c = cafe_tras_eventos(eventos.drop_last());
        &&& eventos_cafe_validos(eventos.drop_last())
        &&& match eventos.last() {
            EventoContenedor::Reponer => !c.espera_reposicion() && !c.fin && c.cafe_consumido + C
                <= u32::MAX,
            EventoContenedor::Servir(k) => c.cafe_molido >= k,
            EventoContenedor::Finalizar => true,
        }
    }
}

/// Total servido por los eventos.
pub open spec fn total_servido(eventos: Seq<EventoContenedor>) -> int
    decreases eventos.len(),
{
    if eventos.len() == 0 {
        0
    } else {
        total_servido(eventos.drop_last()) + match eventos.last() {
            EventoContenedor::Servir(k) => k as int,
            _ => 0,
        }
    }
}

/// Materia prima convertida por los ciclos de reposición de los eventos, partiendo del
/// contenedor inicial.
pub open spec fn total_convertido_cafe(eventos: Seq<EventoContenedor>) -> int
    decreases eventos.len(),
{
    if eventos.len() == 0 {
        0
    } else {
        total_convertido_cafe(eventos.drop_last()) + match eventos.last() {
            EventoContenedor::Reponer => cafe_tras_eventos(
                eventos.drop_last(),
            ).cantidad_reposicion(),
            _ => 0,
        }
    }
}

/// En todo estado alcanzable el contenedor de café cumple su invariante (el molido y
/// los granos dentro de sus capacidades), sus contadores no bajan en ningún paso, el
/// café consumido es lo que se sirvió y los granos consumidos son los que se
/// convirtieron en molido.
pub proof fn lema_estados_alcanzables_cafe(eventos: Seq<EventoContenedor>)
    requires
        eventos_cafe_validos(eventos),
    ensures
        cafe_tras_eventos(eventos).inv(),
        cafe_tras_eventos(eventos).cafe_consumido == total_servido(eventos),
        cafe_tras_eventos(eventos).granos_consumidos == total_convertido_cafe(eventos),
        eventos.len() > 0 ==> cafe_tras_eventos(eventos.drop_last()).cafe_consumido
            <= cafe_tras_eventos(eventos).cafe_consumido,
        eventos.len() > 0 ==> cafe_tras_eventos(eventos.drop_last()).granos_consumidos
            <= cafe_tras_eventos(eventos).granos_consumidos,
    decreases eventos.len(),
{
    if eventos.len() > 0 {
        lema_estados_alcanzables_cafe(eventos.drop_last());
    }
}

/// Terminar un contenedor dos veces es lo mismo que terminarlo una: no cambia ni
/// las cantidades ni los contadores, y deja el invariante como estaba.
pub proof fn lema_finalizar_cafe_idempotente(c: ContenedorCafe)
    ensures
        c.finalizado().finalizado() == c.finalizado(),
        c.finalizado().cafe_molido == c.cafe_molido,
        c.finalizado().granos == c.granos,
        c.finalizado().cafe_consumido == c.cafe_consumido,
        c.finalizado().granos_consumidos == c.granos_consumidos,
        c.inv() ==> c.finalizado().inv(),
{
}

} // verus!

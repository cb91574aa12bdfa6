use vstd::prelude::*;

use crate::cafe::{total_servido, EventoContenedor};
use crate::constantes::{E, L, MAX_CANTIDAD};

verus! {

/// Contenedor de espuma y de leche. Lo comparten el lazo que lo repone y los
/// pedidos que lo consumen.
#[derive(Debug, Clone, Copy, PartialEq, Eq, Structural)]
pub struct ContenedorEspuma {
    /// Cantidad actual de espuma
    pub espuma: u32,
    /// Cantidad actual de leche
    pub leche: u32,
    /// true si no quedan pedidos por realizar
    pub fin: bool,
    /// Cantidad total de espuma consumida
    pub espuma_consumida: u32,
    /// Cantidad total de leche consumida
    pub leche_consumida: u32,
}

impl ContenedorEspuma {
    /// Invariante de todo estado alcanzable: la espuma no pasa de su capacidad, la
    /// leche nunca queda por debajo de lo que pide una reposición ni por encima de su
    /// capacidad, y toda la leche consumida se convirtió en espuma que sigue en el
    /// contenedor o que ya se sirvió.
    pub open spec fn inv(&self) -> bool {
        &&& self.espuma <= E
        &&& E <= self.leche <= L
        &&& self.leche_consumida == self.espuma + self.espuma_consumida
    }

    /// El contenedor tal como empieza: sin espuma y con la leche llena.
    pub open spec fn inicial() -> ContenedorEspuma {
        ContenedorEspuma {
            espuma: 0,
            leche: L,
            fin: false,
            espuma_consumida: 0,
            leche_consumida: 0,
        }
    }

    /// Leche que convierte en espuma un ciclo de reposición.
    pub open spec fn cantidad_reposicion(&self) -> int {
        if E - self.espuma <= self.leche {
            E - self.espuma
        } else {
            self.leche as int
        }
    }

    /// El contenedor tras un ciclo de reposición: se espuma lo que falta para llenarlo
    /// (o lo que haya de leche) y, si la leche quedó por debajo de una reposición,
    /// se vuelve a llenar.
    pub open spec fn repuesto(&self) -> ContenedorEspuma {
        let cantidad = self.cantidad_reposicion();
        let leche = self.leche - cantidad;
        ContenedorEspuma {
            espuma: (self.espuma + cantidad) as u32,
            leche: if leche < E {
                L
            } else {
                leche as u32
            },
            leche_consumida: (self.leche_consumida + cantidad) as u32,
            ..*self
        }
    }

    /// El contenedor tras servir `cantidad` de espuma.
    pub open spec fn servido(&self, cantidad: u32) -> ContenedorEspuma {
        ContenedorEspuma {
            espuma: (self.espuma - cantidad) as u32,
            espuma_consumida: (self.espuma_consumida + cantidad) as u32,
            ..*self
        }
    }

    /// El contenedor marcado como terminado; el resto no cambia.
    pub open spec fn finalizado(&self) -> ContenedorEspuma {
        ContenedorEspuma { fin: true, ..*self }
    }

    /// El lazo de reposición espera mientras esto valga.
    pub open spec fn espera_reposicion(&self) -> bool {
        self.espuma >= MAX_CANTIDAD && !self.fin
    }

    /// El contenedor después de que el lazo de reposición lo atiende una vez: si
    /// despertó sin que hubiera terminado, repone.
    pub open spec fn tras_ciclo(&self) -> ContenedorEspuma {
        if !self.espera_reposicion() && !self.fin {
            self.repuesto()
        } else {
            *self
        }
    }

    #[must_use]
    pub fn new() -> (r: Self)
        ensures
            r == Self::inicial(),
            r.inv(),
    {
        ContenedorEspuma {
            espuma: 0,
            leche: L,
            fin: false,
            espuma_consumida: 0,
            leche_consumida: 0,
        }
    }

    /// Predicado de espera del lazo de reposición: hay espuma de sobra para un
    /// pedido y todavía no se terminó.
    pub fn debe_esperar_reposicion(&self) -> (r: bool)
        ensures
            r == self.espera_reposicion(),
    {
        self.espuma >= MAX_CANTIDAD && !self.fin
    }

    /// Un ciclo de reposición: espuma lo que falta para llenar el contenedor, con la
    /// leche que haya, y repone la leche si quedó por debajo de [`E`].
    pub fn reponer(&mut self)
        requires
            old(self).inv(),
            old(self).espuma_consumida + E <= u32::MAX,
        ensures
            *final(self) == old(self).repuesto(),
            final(self).inv(),
    {
        let falta = E - self.espuma;
        let cantidad = if falta <= self.leche {
            falta
        } else {
            self.leche
        };
        self.espuma = self.espuma + cantidad;
        self.leche = self.leche - cantidad;
        self.leche_consumida = self.leche_consumida + cantidad;
        if self.leche < E {
            self.leche = L;
        }
    }

    /// Si el lazo de reposición, al despertar, encuentra que le toca reponer, repone.
    pub fn reponer_si_hace_falta(&mut self)
        requires
            old(self).inv(),
            old(self).espuma_consumida + E <= u32::MAX,
        ensures
            *final(self) == old(self).tras_ciclo(),
            final(self).inv(),
    {
        if !self.debe_esperar_reposicion() && !self.fin {
            self.reponer();
        }
    }

    /// Un pedido que necesita `cantidad` de espuma puede servirse.
    pub fn alcanza(&self, cantidad: u32) -> (r: bool)
        ensures
            r == (self.espuma >= cantidad),
    {
        self.espuma >= cantidad
    }

    /// Sirve `cantidad` de espuma. Solo procede si el contenedor la tiene.
    pub fn servir(&mut self, cantidad: u32)
        requires
            old(self).inv(),
            old(self).espuma >= cantidad,
        ensures
            *final(self) == old(self).servido(cantidad),
            final(self).inv(),
    {
        self.espuma = self.espuma - cantidad;
        self.espuma_consumida = self.espuma_consumida + cantidad;
    }

    /// Marca el contenedor como terminado, para que el lazo de reposición salga.
    pub fn finalizar(&mut self)
        ensures
            *final(self) == old(self).finalizado(),
            old(self).inv() ==> final(self).inv(),
    {
        self.fin = true;
    }
}

/// El contenedor de espuma tras una secuencia de eventos, desde el estado inicial.
pub open spec fn espuma_tras_eventos(eventos: Seq<EventoContenedor>) -> ContenedorEspuma
    decreases eventos.len(),
{
    if eventos.len() == 0 {
        ContenedorEspuma::inicial()
    } else {
        let c = espuma_tras_eventos(eventos.drop_last());
        match eventos.last() {
            EventoContenedor::Reponer => c.repuesto(),
            EventoContenedor::Servir(k) => c.servido(k),
            EventoContenedor::Finalizar => c.finalizado(),
        }
    }
}

/// Una secuencia de eventos posible: el lazo repone solo cuando despierta sin haber
/// terminado (y con lugar en sus contadores), y un pedido se sirve solo cuando lo
/// que pide está en el contenedor.
pub open spec fn eventos_espuma_validos(eventos: Seq<EventoContenedor>) -> bool
    decreases eventos.len(),
{
    if eventos.len() == 0 {
        true
    } else {
        let c = espuma_tras_eventos(eventos.drop_last());
        &&& eventos_espuma_validos(eventos.drop_last())
        &&& match eventos.last() {
            EventoContenedor::Reponer => !c.espera_reposicion() && !c.fin && c.espuma_consumida + E
                <= u32::MAX,
            EventoContenedor::Servir(k) => c.espuma >= k,
            EventoContenedor::Finalizar => true,
        }
    }
}

/// Materia prima convertida por los ciclos de reposición de los eventos, partiendo del
/// contenedor inicial.
pub open spec fn total_convertido_espuma(eventos: Seq<EventoContenedor>) -> int
    decreases eventos.len(),
{
    if eventos.len() == 0 {
        0
    } else {
        total_convertido_espuma(eventos.drop_last()) + match eventos.last() {
            EventoContenedor::Reponer => espuma_tras_eventos(
                eventos.drop_last(),
            ).cantidad_reposicion(),
            _ => 0,
        }
    }
}

/// En todo estado alcanzable el contenedor de espuma cumple su invariante (la espuma
/// y la leche dentro de sus capacidades), sus contadores no bajan en ningún paso, la
/// espuma consumida es lo que se sirvió y la leche consumida es la que se convirtió
/// en espuma.
pub proof fn lema_estados_alcanzables_espuma(eventos: Seq<EventoContenedor>)
    requires
        eventos_espuma_validos(eventos),
    ensures
        espuma_tras_eventos(eventos).inv(),
        espuma_tras_eventos(eventos).espuma_consumida == total_servido(eventos),
        espuma_tras_eventos(eventos).leche_consumida == total_convertido_espuma(eventos),
        eventos.len() > 0 ==> espuma_tras_eventos(eventos.drop_last()).espuma_consumida
            <= espuma_tras_eventos(eventos).espuma_consumida,
        eventos.len() > 0 ==> espuma_tras_eventos(eventos.drop_last()).leche_consumida
            <= espuma_tras_eventos(eventos).leche_consumida,
    decreases eventos.len(),
{
    if eventos.len() > 0 {
        lema_estados_alcanzables_espuma(eventos.drop_last());
    }
}

/// Terminar un contenedor dos veces es lo mismo que terminarlo una: no cambia ni
/// las cantidades ni los contadores, y deja el invariante como estaba.
pub proof fn lema_finalizar_espuma_idempotente(c: ContenedorEspuma)
    ensures
        c.finalizado().finalizado() == c.finalizado(),
        c.finalizado().espuma == c.espuma,
        c.finalizado().leche == c.leche,
        c.finalizado().espuma_consumida == c.espuma_consumida,
        c.finalizado().leche_consumida == c.leche_consumida,
        c.inv() ==> c.finalizado().inv(),
{
}

} // verus!

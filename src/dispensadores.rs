use vstd::prelude::*;

use crate::constantes::N;

verus! {

/// Los dispensadores de la cafetera: `true` es libre. Un pedido toma uno antes de
/// empezar y lo devuelve al terminar.
#[derive(Debug)]
pub struct Dispensadores {
    libres: Vec<bool>,
}

impl View for Dispensadores {
    type V = Seq<bool>;

    closed spec fn view(&self) -> Seq<bool> {
        self.libres@
    }
}

/// Cuántos dispensadores están libres.
pub open spec fn cantidad_libres(s: Seq<bool>) -> nat
    decreases s.len(),
{
    if s.len() == 0 {
        0
    } else {
        cantidad_libres(s.drop_last()) + if s.last() {
            1nat
        } else {
            0nat
        }
    }
}

/// Hay algún dispensador libre.
pub open spec fn hay_libre(s: Seq<bool>) -> bool {
    exists|i: int| 0 <= i < s.len() && #[trigger] s[i]
}

/// `i` es el primer dispensador libre.
pub open spec fn es_primer_libre(s: Seq<bool>, i: int) -> bool {
    &&& 0 <= i < s.len()
    &&& s[i]
    &&& forall|j: int| 0 <= j < i ==> !#[trigger] s[j]
}

/// El primer dispensador libre, si hay alguno.
pub open spec fn primer_libre(s: Seq<bool>) -> int {
    choose|i: int| es_primer_libre(s, i)
}

/// Todos los dispensadores libres, como al empezar.
pub open spec fn pool_inicial() -> Seq<bool> {
    Seq::new(N as nat, |i: int| true)
}

/// El estado tras tomar el primer dispensador libre.
pub open spec fn tomado(s: Seq<bool>) -> Seq<bool> {
    s.update(primer_libre(s), false)
}

/// El estado tras devolver el dispensador `i`.
pub open spec fn devuelto(s: Seq<bool>, i: int) -> Seq<bool> {
    s.update(i, true)
}

/// Estado de los dispensadores tras una traza, partiendo de todos libres. Cada paso
/// es `None` si un pedido toma un dispensador, o `Some(i)` si devuelve el `i`.
pub open spec fn tras_traza(pasos: Seq<Option<int>>) -> Seq<bool>
    decreases pasos.len(),
{
    if pasos.len() == 0 {
        pool_inicial()
    } else {
        let s = tras_traza(pasos.drop_last());
        match pasos.last() {
            None => tomado(s),
            Some(i) => devuelto(s, i),
        }
    }
}

/// Una traza posible: cada toma encuentra un dispensador libre (si no, el pedido
/// espera) y cada devolución es de un dispensador que un pedido tiene tomado.
pub open spec fn traza_valida(pasos: Seq<Option<int>>) -> bool
    decreases pasos.len(),
{
    if pasos.len() == 0 {
        true
    } else {
        let s = tras_traza(pasos.drop_last());
        &&& traza_valida(pasos.drop_last())
        &&& match pasos.last() {
            None => hay_libre(s),
            Some(i) => 0 <= i < s.len() && !s[i],
        }
    }
}

/// Pedidos en servicio tras una traza: los que tomaron un dispensador y todavía no
/// lo devolvieron.
pub open spec fn en_servicio(pasos: Seq<Option<int>>) -> int
    decreases pasos.len(),
{
    if pasos.len() == 0 {
        0
    } else {
        en_servicio(pasos.drop_last()) + match pasos.last() {
            None => 1int,
            Some(_) => -1int,
        }
    }
}

/// Si el dispensador `k` está libre, hay un primer libre.
proof fn lema_existe_primer_libre(s: Seq<bool>, k: int)
    requires
        0 <= k < s.len(),
        s[k],
    ensures
        exists|i: int| es_primer_libre(s, i),
    decreases k,
{
    if exists|j: int| 0 <= j < k && #[trigger] s[j] {
        let j = choose|j: int| 0 <= j < k && #[trigger] s[j];
        lema_existe_primer_libre(s, j);
    } else {
        assert(es_primer_libre(s, k));
    }
}

/// Si hay un dispensador libre, hay un primero.
pub proof fn lema_primer_libre(s: Seq<bool>)
    requires
        hay_libre(s),
    ensures
        es_primer_libre(s, primer_libre(s)),
{
    let k = choose|k: int| 0 <= k < s.len() && #[trigger] s[k];
    lema_existe_primer_libre(s, k);
}

/// Cambiar un dispensador de estado cambia en uno la cantidad de libres.
pub proof fn lema_cantidad_libres_update(s: Seq<bool>, i: int, v: bool)
    requires
        0 <= i < s.len(),
    ensures
        cantidad_libres(s.update(i, v)) == cantidad_libres(s) - (if s[i] {
            1int
        } else {
            0int
        }) + (if v {
            1int
        } else {
            0int
        }),
        cantidad_libres(s) <= s.len(),
    decreases s.len(),
{
    let t = s.update(i, v);
    if i == s.len() - 1 {
        assert(t.drop_last() =~= s.drop_last());
        lema_cantidad_libres_cota(s.drop_last());
    } else {
        assert(t.drop_last() =~= s.drop_last().update(i, v));
        lema_cantidad_libres_update(s.drop_last(), i, v);
    }
}

/// No hay más libres que dispensadores.
pub proof fn lema_cantidad_libres_cota(s: Seq<bool>)
    ensures
        cantidad_libres(s) <= s.len(),
    decreases s.len(),
{
    if s.len() > 0 {
        lema_cantidad_libres_cota(s.drop_last());
    }
}

/// Con todos libres, hay `n` libres.
pub proof fn lema_cantidad_libres_todos(s: Seq<bool>)
    requires
        forall|i: int| 0 <= i < s.len() ==> #[trigger] s[i],
    ensures
        cantidad_libres(s) == s.len(),
    decreases s.len(),
{
    if s.len() > 0 {
        lema_cantidad_libres_todos(s.drop_last());
    }
}

/// En todo momento, los dispensadores libres más los pedidos en servicio son
/// [`N`], para cualquier secuencia posible de tomas y devoluciones.
pub proof fn lema_invariante_dispensadores(pasos: Seq<Option<int>>)
    requires
        traza_valida(pasos),
    ensures
        tras_traza(pasos).len() == N,
        cantidad_libres(tras_traza(pasos)) + en_servicio(pasos) == N,
    decreases pasos.len(),
{
    if pasos.len() == 0 {
        lema_cantidad_libres_todos(pool_inicial());
    } else {
        let previos = pasos.drop_last();
        let s = tras_traza(previos);
        lema_invariante_dispensadores(previos);
        match pasos.last() {
            None => {
                lema_primer_libre(s);
                lema_cantidad_libres_update(s, primer_libre(s), false);
            },
            Some(i) => {
                lema_cantidad_libres_update(s, i, true);
            },
        }
    }
}

impl Dispensadores {
    /// Hay tantos dispensadores como indica [`N`].
    pub open spec fn inv(&self) -> bool {
        self@.len() == N
    }

    /// Todos los dispensadores libres.
    pub fn new() -> (r: Dispensadores)
        ensures
            r@ == pool_inicial(),
            r.inv(),
    {
        let mut libres: Vec<bool> = Vec::new();
        let mut i: usize = 0;
        while i < N
            invariant
                i <= N,
                libres@ == Seq::new(i as nat, |j: int| true),
            decreases N - i,
        {
            libres.push(true);
            i = i + 1;
        }
        assert(libres@ =~= pool_inicial());
        Dispensadores { libres }
    }

    /// Un pedido puede tomar un dispensador sin esperar.
    pub fn hay_libre(&self) -> (r: bool)
        ensures
            r == hay_libre(self@),
    {
        let mut i: usize = 0;
        while i < self.libres.len()
            invariant
                i <= self@.len(),
                forall|j: int| 0 <= j < i ==> !#[trigger] self@[j],
            decreases self@.len() - i,
        {
            if self.libres[i] {
                return true;
            }
            i = i + 1;
        }
        false
    }

    /// Toma el primer dispensador libre y devuelve su índice.
    pub fn ocupar(&mut self) -> (i: usize)
        requires
            hay_libre(old(self)@),
        ensures
            es_primer_libre(old(self)@, i as int),
            i as int == primer_libre(old(self)@),
            final(self)@ == tomado(old(self)@),
            cantidad_libres(final(self)@) + 1 == cantidad_libres(old(self)@),
    {
        proof {
            lema_primer_libre(self@);
        }
        let ghost p = primer_libre(self@);
        let n = self.libres.len();
        let mut i: usize = 0;
        while !self.libres[i]
            invariant
                self@ == old(self)@,
                n == self@.len(),
                es_primer_libre(self@, p),
                i <= p,
                forall|j: int| 0 <= j < i ==> !#[trigger] self@[j],
            decreases p - i,
        {
            i = i + 1;
        }
        proof {
            if i < p {
                assert(!self@[i as int]);
            }
            lema_cantidad_libres_update(self@, i as int, false);
        }
        self.libres.set(i, false);
        i
    }

    /// Devuelve el dispensador `i`, que queda libre.
    pub fn liberar(&mut self, i: usize)
        requires
            i < old(self)@.len(),
        ensures
            final(self)@ == devuelto(old(self)@, i as int),
            !old(self)@[i as int] ==> cantidad_libres(final(self)@) == cantidad_libres(old(self)@)
                + 1,
    {
        proof {
            lema_cantidad_libres_update(self@, i as int, true);
        }
        self.libres.set(i, true);
    }
}

} // verus!

use vstd::prelude::*;

verus! {

// ---------------------------------------------------------------------------
// Modelo
// ---------------------------------------------------------------------------
/// `c` es un dígito decimal ASCII.
pub open spec fn es_digito(c: char) -> bool {
    '0' <= c && c <= '9'
}

/// Valor del dígito `c`.
pub open spec fn valor_digito(c: char) -> int {
    c as int - '0' as int
}

/// El carácter que escribe la cifra `d` (menor que diez).
pub open spec fn digito(d: nat) -> char {
    ((d + 48) as u8) as char
}

/// Todos los caracteres de `s` son dígitos.
pub open spec fn solo_digitos(s: Seq<char>) -> bool {
    forall|i: int| 0 <= i < s.len() ==> es_digito(#[trigger] s[i])
}

/// Valor de una secuencia de dígitos leída en base diez.
pub open spec fn valor_decimal(s: Seq<char>) -> int
    decreases s.len(),
{
    if s.len() == 0 {
        0
    } else {
        valor_decimal(s.drop_last()) * 10 + valor_digito(s.last())
    }
}

/// `s` sin el signo `+` que puede llevar delante.
pub open spec fn sin_signo(s: Seq<char>) -> Seq<char> {
    if s.len() > 0 && s[0] == '+' {
        s.drop_first()
    } else {
        s
    }
}

/// El número que escribe `s` en decimal (un `+` opcional y al menos una cifra),
/// siempre que no pase de `max`.
pub open spec fn numero(s: Seq<char>, max: int) -> Option<int> {
    let d = sin_signo(s);
    if d.len() > 0 && solo_digitos(d) && valor_decimal(d) <= max {
        Some(valor_decimal(d))
    } else {
        None
    }
}

/// Escritura decimal de `n`, sin ceros a la izquierda.
pub open spec fn decimal(n: nat) -> Seq<char>
    decreases n,
{
    if n < 10 {
        seq![digito(n)]
    } else {
        decimal(n / 10).push(digito(n % 10))
    }
}

/// Campos de `s` separados por comas. Siempre hay al menos uno.
pub open spec fn campos(s: Seq<char>) -> Seq<Seq<char>>
    decreases s.len(),
{
    if s.len() == 0 {
        seq![Seq::empty()]
    } else {
        let previos = campos(s.drop_last());
        if s.last() == ',' {
            previos.push(Seq::empty())
        } else {
            previos.update(previos.len() - 1, previos.last().push(s.last()))
        }
    }
}

// ---------------------------------------------------------------------------
// Lemas
// ---------------------------------------------------------------------------
/// Hay al menos un campo.
pub proof fn lema_campos_no_vacio(s: Seq<char>)
    ensures
        campos(s).len() >= 1,
    decreases s.len(),
{
    if s.len() > 0 {
        lema_campos_no_vacio(s.drop_last());
    }
}

/// Una secuencia de dígitos vale al menos lo que vale cualquiera de sus prefijos.
pub proof fn lema_valor_prefijo(s: Seq<char>, k: int)
    requires
        solo_digitos(s),
        0 <= k <= s.len(),
    ensures
        0 <= valor_decimal(s.take(k)) <= valor_decimal(s),
    decreases s.len(),
{
    if k < s.len() {
        let p = s.drop_last();
        assert(p.take(k) =~= s.take(k));
        assert(solo_digitos(p));
        lema_valor_prefijo(p, k);
        lema_valor_prefijo(p, p.len() as int);
        assert(p.take(p.len() as int) =~= p);
    } else {
        assert(s.take(k) =~= s);
        lema_valor_no_negativo(s);
    }
}

/// Una secuencia de dígitos tiene valor no negativo.
pub proof fn lema_valor_no_negativo(s: Seq<char>)
    requires
        solo_digitos(s),
    ensures
        valor_decimal(s) >= 0,
    decreases s.len(),
{
    if s.len() > 0 {
        assert(solo_digitos(s.drop_last()));
        lema_valor_no_negativo(s.drop_last());
    }
}

/// La escritura decimal de `n` es una secuencia no vacía de dígitos que vale `n`.
pub proof fn lema_decimal(n: nat)
    ensures
        decimal(n).len() > 0,
        solo_digitos(decimal(n)),
        valor_decimal(decimal(n)) == n,
    decreases n,
{
    if n >= 10 {
        lema_decimal(n / 10);
        let d = decimal(n);
        assert(d.drop_last() =~= decimal(n / 10));
        assert(valor_digito(digito(n % 10)) == n % 10);
        assert(n == (n / 10) * 10 + n % 10) by (nonlinear_arith);
        assert(d.last() == digito(n % 10));
        assert(valor_decimal(d) == valor_decimal(decimal(n / 10)) * 10 + valor_digito(d.last()));
    } else {
        let d = decimal(n);
        assert(d.drop_last() =~= Seq::<char>::empty());
        assert(valor_digito(digito(n)) == n);
        assert(valor_decimal(Seq::<char>::empty()) == 0);
        assert(valor_decimal(d) == valor_decimal(d.drop_last()) * 10 + valor_digito(d.last()));
    }
}

/// Un texto que no tiene comas.
pub open spec fn sin_comas(s: Seq<char>) -> bool {
    forall|i: int| 0 <= i < s.len() ==> #[trigger] s[i] != ','
}

/// Agregar texto sin comas solo alarga el último campo.
pub proof fn lema_campos_agregar(x: Seq<char>, y: Seq<char>)
    requires
        sin_comas(y),
    ensures
        campos(x + y) == campos(x).update(
            campos(x).len() - 1,
            campos(x).last() + y,
        ),
    decreases y.len(),
{
    lema_campos_no_vacio(x);
    if y.len() == 0 {
        assert(x + y =~= x);
        assert(campos(x).last() + y =~= campos(x).last());
        assert(campos(x).update(campos(x).len() - 1, campos(x).last() + y) =~= campos(x));
    } else {
        let y0 = y.drop_last();
        assert(sin_comas(y0));
        lema_campos_agregar(x, y0);
        assert((x + y).drop_last() =~= x + y0);
        assert((x + y).last() == y.last());
        assert(y[y.len() - 1] != ',');
        let k = campos(x).len() - 1;
        let p = campos(x + y0);
        assert(p.len() == campos(x).len());
        assert(p.last() == campos(x).last() + y0);
        assert(campos(x + y) == p.update(k, p.last().push(y.last())));
        assert(campos(x).last() + y0 + seq![y.last()] =~= campos(x).last() + y);
        assert(p.last().push(y.last()) =~= campos(x).last() + y);
        assert(campos(x + y) =~= campos(x).update(campos(x).len() - 1, campos(x).last() + y));
    }
}

/// Una coma abre un campo nuevo, vacío.
pub proof fn lema_campos_coma(x: Seq<char>)
    ensures
        campos(x + seq![',']) == campos(x).push(Seq::empty()),
{
    let t = x + seq![','];
    assert(t.drop_last() =~= x);
    assert(t.last() == ',');
}

/// Los dígitos no son comas.
pub proof fn lema_digitos_sin_comas(s: Seq<char>)
    requires
        solo_digitos(s),
    ensures
        sin_comas(s),
{
    assert forall|i: int| 0 <= i < s.len() implies #[trigger] s[i] != ',' by {
        assert(es_digito(s[i]));
    }
}

/// Un número escrito en decimal se vuelve a leer tal cual, si no pasa de `max`.
pub proof fn lema_numero_decimal(n: nat, max: int)
    requires
        n <= max,
    ensures
        numero(decimal(n), max) == Some(n as int),
{
    lema_decimal(n);
    assert(es_digito(decimal(n)[0]));
    assert(sin_signo(decimal(n)) == decimal(n));
}

// ---------------------------------------------------------------------------
// Ejecutable
// ---------------------------------------------------------------------------
/// Los caracteres de un texto, en orden.
pub fn caracteres(s: &str) -> (r: Vec<char>)
    ensures
        r@ == s@,
{
    let mut r: Vec<char> = Vec::new();
    for c in it: s.chars()
        invariant
            r@ == it.seq().take(it.index() as int),
    {
        r.push(c);
    }
    r
}

/// Separa `s` en sus campos, cortando en cada coma.
pub fn separar_campos(s: &Vec<char>) -> (r: Vec<Vec<char>>)
    ensures
        r@.len() == campos(s@).len(),
        forall|k: int| 0 <= k < r@.len() ==> #[trigger] r@[k]@ == campos(s@)[k],
{
    let mut r: Vec<Vec<char>> = Vec::new();
    let mut actual: Vec<char> = Vec::new();
    let n = s.len();
    let mut i: usize = 0;
    while i < n
        invariant
            n == s@.len(),
            i <= n,
            r@.len() + 1 == campos(s@.take(i as int)).len(),
            forall|k: int| 0 <= k < r@.len() ==> #[trigger] r@[k]@ == campos(s@.take(i as int))[k],
            actual@ == campos(s@.take(i as int)).last(),
        decreases n - i,
    {
        let c = s[i];
        proof {
            let t = s@.take(i + 1);
            assert(t.drop_last() =~= s@.take(i as int));
            assert(t.last() == c);
            lema_campos_no_vacio(s@.take(i as int));
        }
        if c == ',' {
            r.push(actual);
            actual = Vec::new();
        } else {
            actual.push(c);
        }
        i = i + 1;
    }
    r.push(actual);
    proof {
        assert(s@.take(n as int) =~= s@);
    }
    r
}

/// Lee el número que escribe `s` en decimal, si no pasa de `max`.
pub fn leer_numero(s: &Vec<char>, max: u64) -> (r: Option<u64>)
    ensures
        r is Some <==> numero(s@, max as int) is Some,
        r is Some ==> numero(s@, max as int) == Some(r->0 as int),
{
    let n = s.len();
    let mut i: usize = 0;
    if n > 0 && s[0] == '+' {
        i = 1;
    }
    let inicio = i;
    let ghost d = sin_signo(s@);
    assert(d =~= s@.subrange(inicio as int, n as int));
    if i == n {
        return None;
    }
    let mut acc: u64 = 0;
    while i < n
        invariant
            n == s@.len(),
            inicio <= i <= n,
            d == s@.subrange(inicio as int, n as int),
            d == sin_signo(s@),
            solo_digitos(s@.subrange(inicio as int, i as int)),
            acc == valor_decimal(s@.subrange(inicio as int, i as int)),
            acc <= max,
        decreases n - i,
    {
        let c = s[i];
        let ghost prefijo = s@.subrange(inicio as int, i + 1);
        assert(prefijo.drop_last() =~= s@.subrange(inicio as int, i as int));
        assert(d.take(i + 1 - inicio) =~= prefijo);
        if c < '0' || c > '9' {
            assert(d[i - inicio] == c);
            return None;
        }
        let dig = ((c as u32) - ('0' as u32)) as u64;
        if dig > max || acc > (max - dig) / 10 {
            proof {
                assert(acc * 10 + dig > max) by (nonlinear_arith)
                    requires
                        dig > max || acc > (max - dig) / 10,
                        dig <= 9,
                ;
                if solo_digitos(d) {
                    lema_valor_prefijo(d, i + 1 - inicio);
                }
            }
            return None;
        }
        assert(acc * 10 + dig <= max) by (nonlinear_arith)
            requires
                dig <= max,
                acc <= (max - dig) / 10,
        ;
        acc = acc * 10 + dig;
        i = i + 1;
    }
    assert(s@.subrange(inicio as int, n as int) =~= d);
    Some(acc)
}

/// Se apoya en `String::push`, que agrega el carácter al final del texto.
#[verifier::external_body]
pub(crate) fn agregar_caracter(s: &mut String, c: char)
    ensures
        final(s)@ == old(s)@.push(c),
{
    s.push(c);
}

/// Escribe `n` en decimal al final de `s`.
pub fn escribir_decimal(s: &mut String, n: u64)
    ensures
        final(s)@ == old(s)@ + decimal(n as nat),
    decreases n,
{
    if n >= 10 {
        escribir_decimal(s, n / 10);
    }
    let d: u8 = (n % 10) as u8;
    agregar_caracter(s, (d + 48) as char);
    proof {
        if n >= 10 {
            assert(decimal(n as nat) == decimal((n / 10) as nat).push(digito((n % 10) as nat)));
        }
    }
    assert(final(s)@ =~= old(s)@ + decimal(n as nat));
}

} // verus!

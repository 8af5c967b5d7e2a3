//! Utilidades de texto sobre la vista `Seq<char>` de `String` y `&str`:
//! búsqueda de subcadenas, recorte de espacios, reemplazo y construcción.
use vstd::prelude::*;

verus! {

// ---------------------------------------------------------------------------
// Especificaciones
// ---------------------------------------------------------------------------

/// `p` aparece en `s` a partir de la posición `i`.
pub open spec fn coincide_en(s: Seq<char>, p: Seq<char>, i: int) -> bool {
    0 <= i && i + p.len() <= s.len() && s.subrange(i, i + p.len()) == p
}

/// Primera aparición de `p` en `s` en una posición `>= desde`.
pub open spec fn buscar_desde(s: Seq<char>, p: Seq<char>, desde: int) -> Option<int>
    decreases s.len() - desde,
{
    if desde < 0 || desde >= s.len() || desde + p.len() > s.len() {
        None
    } else if coincide_en(s, p, desde) {
        Some(desde)
    } else {
        buscar_desde(s, p, desde + 1)
    }
}

/// Primera aparición de `p` en `s` (`str::find`).
pub open spec fn buscar(s: Seq<char>, p: Seq<char>) -> Option<int> {
    buscar_desde(s, p, 0)
}

/// Última aparición de `p` en `s` que empieza en una posición `<= hasta`.
pub open spec fn buscar_atras(s: Seq<char>, p: Seq<char>, hasta: int) -> Option<int>
    decreases hasta + 1,
{
    if hasta < 0 {
        None
    } else if coincide_en(s, p, hasta) {
        Some(hasta)
    } else {
        buscar_atras(s, p, hasta - 1)
    }
}

/// Última aparición de `p` en `s` (`str::rfind`).
pub open spec fn buscar_ultimo(s: Seq<char>, p: Seq<char>) -> Option<int> {
    buscar_atras(s, p, s.len() - p.len())
}

/// `s` contiene a `p`.
pub open spec fn contiene(s: Seq<char>, p: Seq<char>) -> bool {
    buscar(s, p) is Some
}

/// `s` empieza con `p`.
pub open spec fn empieza_con(s: Seq<char>, p: Seq<char>) -> bool {
    p.len() <= s.len() && s.subrange(0, p.len() as int) == p
}

/// Reemplazo de todas las apariciones de `p` por `r`, de izquierda a derecha y
/// sin solaparse, a partir de la posición `desde` (`str::replace`).
pub open spec fn reemplazar_desde(s: Seq<char>, p: Seq<char>, r: Seq<char>, desde: int) -> Seq<char>
    decreases s.len() - desde,
{
    if desde < 0 || desde > s.len() || p.len() == 0 {
        s.subrange(if desde < 0 { 0 } else if desde > s.len() { s.len() as int } else { desde }, s.len() as int)
    } else {
        match buscar_desde(s, p, desde) {
            Some(i) => {
                proof {
                    lema_buscar_desde_rango(s, p, desde);
                }
                s.subrange(desde, i) + r + reemplazar_desde(s, p, r, i + p.len())
            },
            None => s.subrange(desde, s.len() as int),
        }
    }
}

/// Reemplazo de todas las apariciones de `p` por `r` en `s`.
pub open spec fn reemplazar(s: Seq<char>, p: Seq<char>, r: Seq<char>) -> Seq<char> {
    reemplazar_desde(s, p, r, 0)
}

/// Espacio en blanco de Unicode (`char::is_whitespace`, propiedad White_Space).
pub open spec fn es_espacio(c: char) -> bool {
    let n = c as u32;
    (0x09 <= n && n <= 0x0D) || n == 0x20 || n == 0x85 || n == 0xA0 || n == 0x1680 || (0x2000 <= n
        && n <= 0x200A) || n == 0x2028 || n == 0x2029 || n == 0x202F || n == 0x205F || n == 0x3000
}

/// Cantidad de espacios al inicio de `s`.
pub open spec fn espacios_iniciales(s: Seq<char>) -> nat
    decreases s.len(),
{
    if s.len() > 0 && es_espacio(s[0]) {
        1 + espacios_iniciales(s.drop_first())
    } else {
        0
    }
}

/// Cantidad de espacios al final de `s`.
pub open spec fn espacios_finales(s: Seq<char>) -> nat
    decreases s.len(),
{
    if s.len() > 0 && es_espacio(s.last()) {
        1 + espacios_finales(s.drop_last())
    } else {
        0
    }
}

/// `s` sin espacios al inicio ni al final (`str::trim`).
pub open spec fn recortar(s: Seq<char>) -> Seq<char> {
    let t = s.skip(espacios_iniciales(s) as int);
    t.take(t.len() - espacios_finales(t))
}

// ---------------------------------------------------------------------------
// Lemas
// ---------------------------------------------------------------------------

/// Un resultado de `buscar_desde` es una aparición dentro de `s`.
pub proof fn lema_buscar_desde_rango(s: Seq<char>, p: Seq<char>, desde: int)
    ensures
        buscar_desde(s, p, desde) matches Some(i) ==> desde <= i && coincide_en(s, p, i),
        buscar_desde(s, p, desde) matches Some(i) ==> forall|j: int|
            desde <= j < i ==> !coincide_en(s, p, j),
    decreases s.len() - desde,
{
    if desde < 0 || desde >= s.len() || desde + p.len() > s.len() {
    } else if coincide_en(s, p, desde) {
    } else {
        lema_buscar_desde_rango(s, p, desde + 1);
    }
}

/// Un resultado de `buscar_atras` es una aparición en una posición `<= hasta`.
pub proof fn lema_buscar_atras_rango(s: Seq<char>, p: Seq<char>, hasta: int)
    ensures
        buscar_atras(s, p, hasta) matches Some(i) ==> i <= hasta && coincide_en(s, p, i),
    decreases hasta + 1,
{
    if hasta >= 0 && !coincide_en(s, p, hasta) {
        lema_buscar_atras_rango(s, p, hasta - 1);
    }
}

proof fn lema_espacios_iniciales_cota(s: Seq<char>)
    ensures
        espacios_iniciales(s) <= s.len(),
        forall|k: int| 0 <= k < espacios_iniciales(s) ==> es_espacio(#[trigger] s[k]),
        espacios_iniciales(s) < s.len() ==> !es_espacio(s[espacios_iniciales(s) as int]),
    decreases s.len(),
{
    if s.len() > 0 && es_espacio(s[0]) {
        lema_espacios_iniciales_cota(s.drop_first());
        assert forall|k: int| 0 <= k < espacios_iniciales(s) implies es_espacio(#[trigger] s[k]) by {
            if k > 0 {
                assert(s[k] == s.drop_first()[k - 1]);
            }
        }
    }
}

proof fn lema_espacios_iniciales_paso(s: Seq<char>, i: int)
    requires
        0 <= i <= s.len(),
        forall|k: int| 0 <= k < i ==> es_espacio(#[trigger] s[k]),
    ensures
        espacios_iniciales(s) == i + espacios_iniciales(s.skip(i)),
    decreases i,
{
    if i > 0 {
        lema_espacios_iniciales_paso(s.drop_first(), i - 1);
        assert(s.drop_first().skip(i - 1) =~= s.skip(i));
    } else {
        assert(s.skip(0) =~= s);
    }
}

proof fn lema_espacios_finales_paso(s: Seq<char>, j: int)
    requires
        0 <= j <= s.len(),
        forall|k: int| j <= k < s.len() ==> es_espacio(#[trigger] s[k]),
    ensures
        espacios_finales(s) == (s.len() - j) + espacios_finales(s.take(j)),
    decreases s.len() - j,
{
    if j < s.len() {
        lema_espacios_finales_paso(s.drop_last(), j);
        assert(s.drop_last().take(j) =~= s.take(j));
    } else {
        assert(s.take(j) =~= s);
    }
}

// ---------------------------------------------------------------------------
// Funciones ejecutables
// ---------------------------------------------------------------------------

/// Añade un carácter al final de `s` (`String::push`).
#[verifier::external_body]
pub(crate) fn empujar(s: &mut String, c: char)
    ensures
        final(s)@ == old(s)@.push(c),
{
    s.push(c);
}

/// Los caracteres de `s`, en orden.
pub fn caracteres(s: &str) -> (v: Vec<char>)
    ensures
        v@ == s@,
{
    let mut v: Vec<char> = Vec::new();
    for c in it: s.chars()
        invariant
            v@ == it.seq().take(it.index() as int),
    {
        v.push(c);
    }
    v
}

/// El texto formado por `v[desde..hasta]`.
pub fn subcadena(v: &Vec<char>, desde: usize, hasta: usize) -> (r: String)
    requires
        desde <= hasta <= v.len(),
    ensures
        r@ == v@.subrange(desde as int, hasta as int),
{
    let mut r = String::new();
    let mut i = desde;
    while i < hasta
        invariant
            desde <= i <= hasta <= v.len(),
            r@ == v@.subrange(desde as int, i as int),
        decreases hasta - i,
    {
        empujar(&mut r, v[i]);
        assert(v@.subrange(desde as int, i + 1) =~= v@.subrange(desde as int, i as int).push(
            v@[i as int],
        ));
        i = i + 1;
    }
    r
}

/// Copia de un `&str` en un `String` nuevo.
pub fn a_string(s: &str) -> (r: String)
    ensures
        r@ == s@,
{
    let mut r = String::new();
    r.append(s);
    r
}

/// Concatenación de dos textos.
pub fn concatenar(a: &str, b: &str) -> (r: String)
    ensures
        r@ == a@ + b@,
{
    let mut r = String::new();
    r.append(a);
    r.append(b);
    r
}

/// `p` aparece en `s` a partir de la posición `i`.
pub fn coincide(s: &Vec<char>, p: &Vec<char>, i: usize) -> (b: bool)
    ensures
        b == coincide_en(s@, p@, i as int),
{
    if i > s.len() || p.len() > s.len() - i {
        return false;
    }
    let mut k: usize = 0;
    while k < p.len()
        invariant
            i + p.len() <= s.len(),
            k <= p.len(),
            forall|m: int| 0 <= m < k ==> s@[i + m] == p@[m],
        decreases p.len() - k,
    {
        if s[i + k] != p[k] {
            assert(s@.subrange(i as int, i + p.len())[k as int] != p@[k as int]);
            return false;
        }
        k = k + 1;
    }
    assert(s@.subrange(i as int, i + p.len()) =~= p@);
    true
}

/// Primera aparición de `p` en `s` desde la posición `desde` (`str::find`).
pub fn buscar_en(s: &Vec<char>, p: &Vec<char>, desde: usize) -> (r: Option<usize>)
    ensures
        r matches Some(i) ==> buscar_desde(s@, p@, desde as int) == Some(i as int),
        r is None ==> buscar_desde(s@, p@, desde as int) is None,
{
    let mut i = desde;
    while i < s.len() && p.len() <= s.len() - i
        invariant
            desde <= i,
            buscar_desde(s@, p@, desde as int) == buscar_desde(s@, p@, i as int),
        decreases s.len() - i,
    {
        if coincide(s, p, i) {
            return Some(i);
        }
        i = i + 1;
    }
    None
}

/// Última aparición de `p` en `s` (`str::rfind`).
pub fn buscar_ultimo_en(s: &Vec<char>, p: &Vec<char>) -> (r: Option<usize>)
    ensures
        r matches Some(i) ==> buscar_ultimo(s@, p@) == Some(i as int),
        r is None ==> buscar_ultimo(s@, p@) is None,
{
    if p.len() > s.len() {
        return None;
    }
    let mut i: usize = s.len() - p.len();
    loop
        invariant
            i + p.len() <= s.len(),
            buscar_ultimo(s@, p@) == buscar_atras(s@, p@, i as int),
        decreases i,
    {
        if coincide(s, p, i) {
            return Some(i);
        }
        if i == 0 {
            assert(buscar_atras(s@, p@, -1) is None);
            return None;
        }
        i = i - 1;
    }
}

/// `s` empieza con `p` (`str::starts_with`).
pub fn empieza(s: &Vec<char>, p: &Vec<char>) -> (b: bool)
    ensures
        b == empieza_con(s@, p@),
{
    coincide(s, p, 0)
}

/// Reemplaza todas las apariciones de `p` por `r` (`str::replace`).
pub fn reemplazar_todo(s: &Vec<char>, p: &Vec<char>, r: &str) -> (res: String)
    requires
        p.len() > 0,
    ensures
        res@ == reemplazar(s@, p@, r@),
{
    let mut res = String::new();
    let mut pos: usize = 0;
    loop
        invariant
            p.len() > 0,
            pos <= s.len(),
            res@ + reemplazar_desde(s@, p@, r@, pos as int) == reemplazar(s@, p@, r@),
        decreases s.len() - pos,
    {
        match buscar_en(s, p, pos) {
            Some(i) => {
                proof {
                    lema_buscar_desde_rango(s@, p@, pos as int);
                }
                let antes = subcadena(s, pos, i);
                res.append(antes.as_str());
                res.append(r);
                proof {
                    assert(res@ + reemplazar_desde(s@, p@, r@, i + p.len()) =~= reemplazar(
                        s@,
                        p@,
                        r@,
                    ));
                }
                pos = i + p.len();
            },
            None => {
                let resto = subcadena(s, pos, s.len());
                res.append(resto.as_str());
                return res;
            },
        }
    }
}

/// `c` es un espacio en blanco de Unicode (`char::is_whitespace`).
pub fn espacio(c: char) -> (b: bool)
    ensures
        b == es_espacio(c),
{
    let n = c as u32;
    (0x09 <= n && n <= 0x0D) || n == 0x20 || n == 0x85 || n == 0xA0 || n == 0x1680 || (0x2000 <= n
        && n <= 0x200A) || n == 0x2028 || n == 0x2029 || n == 0x202F || n == 0x205F || n == 0x3000
}

/// Índices `(i, j)` tales que `v[i..j]` es `v` recortado.
pub fn limites_recorte(v: &Vec<char>) -> (r: (usize, usize))
    ensures
        r.0 <= r.1 <= v.len(),
        v@.subrange(r.0 as int, r.1 as int) == recortar(v@),
{
    let mut i: usize = 0;
    while i < v.len() && espacio(v[i])
        invariant
            i <= v.len(),
            forall|k: int| 0 <= k < i ==> es_espacio(#[trigger] v@[k]),
        decreases v.len() - i,
    {
        i = i + 1;
    }
    proof {
        lema_espacios_iniciales_paso(v@, i as int);
        if i < v.len() {
            assert(v@.skip(i as int)[0] == v@[i as int]);
        }
        assert(espacios_iniciales(v@.skip(i as int)) == 0);
    }
    let mut j: usize = v.len();
    while j > i && espacio(v[j - 1])
        invariant
            i <= j <= v.len(),
            forall|k: int| j <= k < v.len() ==> es_espacio(#[trigger] v@[k]),
        decreases j,
    {
        j = j - 1;
    }
    proof {
        let t = v@.skip(i as int);
        assert forall|k: int| j - i <= k < t.len() implies es_espacio(#[trigger] t[k]) by {
            assert(t[k] == v@[k + i]);
        }
        lema_espacios_finales_paso(t, j - i);
        if j > i {
            assert(t.take(j - i).last() == v@[j - 1]);
        }
        assert(espacios_finales(t.take(j - i)) == 0);
        assert(t.take(t.len() - espacios_finales(t)) =~= v@.subrange(i as int, j as int));
    }
    (i, j)
}

/// `s` sin espacios al inicio ni al final (`str::trim`).
pub fn recortado(s: &str) -> (r: String)
    ensures
        r@ == recortar(s@),
{
    let v = caracteres(s);
    let (i, j) = limites_recorte(&v);
    subcadena(&v, i, j)
}


/// Los dos textos son iguales.
pub fn mismo_texto(a: &str, b: &str) -> (r: bool)
    ensures
        r == (a@ == b@),
{
    let x = caracteres(a);
    let y = caracteres(b);
    if x.len() != y.len() {
        return false;
    }
    let r = coincide(&x, &y, 0);
    proof {
        assert(x@.subrange(0, y@.len() as int) =~= x@);
    }
    r
}


/// Dígitos decimales de un natural, sin ceros a la izquierda (`0` para cero).
pub open spec fn digitos(n: nat) -> Seq<char>
    decreases n,
{
    if n < 10 {
        seq![(48 + n) as char]
    } else {
        digitos(n / 10).push((48 + n % 10) as char)
    }
}

/// `s` con ceros a la izquierda hasta tener al menos `ancho` caracteres.
pub open spec fn con_ceros(s: Seq<char>, ancho: nat) -> Seq<char> {
    if s.len() >= ancho {
        s
    } else {
        Seq::new((ancho - s.len()) as nat, |i: int| '0') + s
    }
}

/// Dígitos decimales de `n`.
pub fn texto_numero(n: u64) -> (r: String)
    ensures
        r@ == digitos(n as nat),
    decreases n,
{
    if n < 10 {
        let mut r = String::new();
        empujar(&mut r, ((48 + n) as u8) as char);
        r
    } else {
        let mut r = texto_numero(n / 10);
        empujar(&mut r, ((48 + n % 10) as u8) as char);
        r
    }
}

/// Dígitos decimales de `n` con ceros a la izquierda hasta `ancho`.
pub fn numero_con_ceros(n: u64, ancho: usize) -> (r: String)
    ensures
        r@ == con_ceros(digitos(n as nat), ancho as nat),
{
    let d = texto_numero(n);
    let largo = caracteres(d.as_str()).len();
    if largo >= ancho {
        return d;
    }
    let mut r = String::new();
    let mut i: usize = 0;
    while i < ancho - largo
        invariant
            largo < ancho,
            i <= ancho - largo,
            r@ == Seq::new(i as nat, |k: int| '0'),
        decreases ancho - largo - i,
    {
        empujar(&mut r, '0');
        proof {
            assert(r@ =~= Seq::new((i + 1) as nat, |k: int| '0'));
        }
        i = i + 1;
    }
    r.append(d.as_str());
    r
}


/// Texto decimal de un entero con signo (`i64::to_string`).
pub open spec fn entero_texto(n: int) -> Seq<char> {
    if n < 0 {
        "-"@ + digitos((-n) as nat)
    } else {
        digitos(n as nat)
    }
}

/// Texto decimal de un entero con signo.
pub fn texto_entero(n: i64) -> (r: String)
    ensures
        r@ == entero_texto(n as int),
{
    if n < 0 {
        let mut r = a_string("-");
        let m: u64 = if n == i64::MIN {
            9223372036854775808u64
        } else {
            (-n) as u64
        };
        r.append(texto_numero(m).as_str());
        r
    } else {
        texto_numero(n as u64)
    }
}

} // verus!

//! Montos decimales exactos (`rust_decimal::Decimal`) como mantisa y escala.
//!
//! Un `Monto` vale `mantisa / 10^escala`. Las operaciones aritméticas las hace
//! `rust_decimal`; sus contratos nombran el resultado y afirman que es exacto
//! cuando el resultado cabe sin redondeo en los 96 bits de la mantisa.
use vstd::prelude::*;
use crate::texto::{con_ceros, digitos};

verus! {

/// Mayor mantisa en valor absoluto: 2^96 - 1.
pub open spec fn mantisa_maxima() -> int {
    79228162514264337593543950335
}

/// Potencia de diez.
pub open spec fn pot10(n: nat) -> int
    decreases n,
{
    if n == 0 {
        1
    } else {
        10 * pot10((n - 1) as nat)
    }
}

/// Un decimal de `rust_decimal`: valor `mantisa / 10^escala`.
#[derive(Clone, Copy, Debug, PartialEq, Eq, Structural)]
pub struct Monto {
    pub mantisa: i128,
    pub escala: u32,
}

impl Monto {
    /// La mantisa cabe en 96 bits y la escala es a lo sumo 28.
    pub open spec fn valido(self) -> bool {
        self.escala <= 28 && -mantisa_maxima() <= self.mantisa <= mantisa_maxima()
    }

    /// El valor es `num / 10^esc`.
    pub open spec fn vale(self, num: int, esc: nat) -> bool {
        self.mantisa * pot10(esc) == num * pot10(self.escala as nat)
    }

    /// Cero con escala cero (`Decimal::ZERO`).
    pub fn cero() -> (r: Monto)
        ensures
            r == (Monto { mantisa: 0, escala: 0 }),
    {
        Monto { mantisa: 0, escala: 0 }
    }

    /// Monto entero con escala cero.
    pub fn entero(n: i64) -> (r: Monto)
        ensures
            r == (Monto { mantisa: n as i128, escala: 0 }),
            r.valido(),
    {
        Monto { mantisa: n as i128, escala: 0 }
    }

    /// El monto es cero.
    pub fn es_cero(&self) -> (r: bool)
        ensures
            r == (self.mantisa == 0),
    {
        self.mantisa == 0
    }

    /// El monto es menor que cero.
    pub fn es_negativo(&self) -> (r: bool)
        ensures
            r == (self.mantisa < 0),
    {
        self.mantisa < 0
    }

    /// El monto es mayor que cero.
    pub fn es_positivo(&self) -> (r: bool)
        ensures
            r == (self.mantisa > 0),
    {
        self.mantisa > 0
    }
}

/// `a < b` por valor.
pub open spec fn valor_menor(a: Monto, b: Monto) -> bool {
    a.mantisa * pot10(b.escala as nat) < b.mantisa * pot10(a.escala as nat)
}

/// `a == b` por valor.
pub open spec fn valor_igual(a: Monto, b: Monto) -> bool {
    a.mantisa * pot10(b.escala as nat) == b.mantisa * pot10(a.escala as nat)
}

/// Mantisa de `a` llevada a la escala `e >= a.escala`.
pub open spec fn alineada(a: Monto, e: nat) -> int {
    a.mantisa * pot10((e - a.escala) as nat)
}

/// Mayor de dos escalas.
pub open spec fn escala_comun(a: Monto, b: Monto) -> nat {
    if a.escala >= b.escala {
        a.escala as nat
    } else {
        b.escala as nat
    }
}

/// El entero cabe en una mantisa.
pub open spec fn cabe(n: int) -> bool {
    -mantisa_maxima() <= n <= mantisa_maxima()
}

/// La suma (o la resta si `resta`) se puede hacer sin redondeo a la escala común.
pub open spec fn suma_cabe(a: Monto, b: Monto, resta: bool) -> bool {
    let e = escala_comun(a, b);
    &&& cabe(alineada(a, e))
    &&& cabe(alineada(b, e))
    &&& cabe(
        if resta {
            alineada(a, e) - alineada(b, e)
        } else {
            alineada(a, e) + alineada(b, e)
        },
    )
}

/// El producto se puede hacer sin redondeo.
pub open spec fn producto_cabe(a: Monto, b: Monto) -> bool {
    a.escala + b.escala <= 28 && cabe(a.mantisa * b.mantisa)
}

/// Resultado de `Decimal::checked_add`.
pub uninterp spec fn suma_decimal(a: Monto, b: Monto) -> Option<Monto>;

/// Resultado de `Decimal::checked_sub`.
pub uninterp spec fn resta_decimal(a: Monto, b: Monto) -> Option<Monto>;

/// Resultado de `Decimal::checked_mul`.
pub uninterp spec fn producto_decimal(a: Monto, b: Monto) -> Option<Monto>;

/// Resultado de `Decimal::checked_div`.
pub uninterp spec fn cociente_decimal(a: Monto, b: Monto) -> Option<Monto>;

/// Texto de `Decimal` con `Display` (`to_string`): el signo si es negativo,
/// la parte entera (`0` si no hay) y, si la escala es positiva, un punto y
/// exactamente `escala` decimales.
#[verifier::opaque]
pub open spec fn texto_decimal(a: Monto) -> Seq<char> {
    let abs: nat = if a.mantisa < 0 {
        (-a.mantisa) as nat
    } else {
        a.mantisa as nat
    };
    let d = con_ceros(digitos(abs), a.escala as nat);
    let entera = d.take(d.len() - a.escala);
    let fraccion = d.skip(d.len() - a.escala);
    (if a.mantisa < 0 {
        "-"@
    } else {
        Seq::empty()
    }) + (if entera.len() == 0 {
        "0"@
    } else {
        entera
    }) + (if a.escala > 0 {
        "."@ + fraccion
    } else {
        Seq::empty()
    })
}

/// `Decimal::checked_add`: `None` sólo si la suma desborda; si la suma exacta
/// cabe a la escala común, es exacta.
#[verifier::external_body]
pub(crate) fn sumar(a: Monto, b: Monto) -> (r: Option<Monto>)
    requires
        a.valido(),
        b.valido(),
    ensures
        r == suma_decimal(a, b),
        r matches Some(c) ==> c.valido(),
        suma_cabe(a, b, false) ==> r is Some,
        r matches Some(c) ==> (suma_cabe(a, b, false) ==> c.vale(
            alineada(a, escala_comun(a, b)) + alineada(b, escala_comun(a, b)),
            escala_comun(a, b),
        )),
{
    let x = rust_decimal::Decimal::from_i128_with_scale(a.mantisa, a.escala);
    x.checked_add(rust_decimal::Decimal::from_i128_with_scale(b.mantisa, b.escala)).map(|d| Monto { mantisa: d.mantissa(), escala: d.scale() })
}

/// `Decimal::checked_sub`: `None` sólo si la resta desborda; si la resta exacta
/// cabe a la escala común, es exacta.
#[verifier::external_body]
pub(crate) fn restar(a: Monto, b: Monto) -> (r: Option<Monto>)
    requires
        a.valido(),
        b.valido(),
    ensures
        r == resta_decimal(a, b),
        r matches Some(c) ==> c.valido(),
        suma_cabe(a, b, true) ==> r is Some,
        r matches Some(c) ==> (suma_cabe(a, b, true) ==> c.vale(
            alineada(a, escala_comun(a, b)) - alineada(b, escala_comun(a, b)),
            escala_comun(a, b),
        )),
{
    let x = rust_decimal::Decimal::from_i128_with_scale(a.mantisa, a.escala);
    x.checked_sub(rust_decimal::Decimal::from_i128_with_scale(b.mantisa, b.escala)).map(|d| Monto { mantisa: d.mantissa(), escala: d.scale() })
}

/// `Decimal::checked_mul`: `None` sólo si el producto desborda; si el
/// producto exacto cabe, es exacto.
#[verifier::external_body]
pub(crate) fn multiplicar(a: Monto, b: Monto) -> (r: Option<Monto>)
    requires
        a.valido(),
        b.valido(),
    ensures
        r == producto_decimal(a, b),
        r matches Some(c) ==> c.valido(),
        producto_cabe(a, b) ==> r is Some,
        r matches Some(c) ==> (producto_cabe(a, b) ==> c.vale(
            a.mantisa * b.mantisa,
            (a.escala + b.escala) as nat,
        )),
{
    let x = rust_decimal::Decimal::from_i128_with_scale(a.mantisa, a.escala);
    x.checked_mul(rust_decimal::Decimal::from_i128_with_scale(b.mantisa, b.escala)).map(|d| Monto { mantisa: d.mantissa(), escala: d.scale() })
}

/// `Decimal::checked_div`: `None` si el divisor es cero o el cociente
/// desborda. El redondeo del cociente no se afirma.
#[verifier::external_body]
pub(crate) fn dividir(a: Monto, b: Monto) -> (r: Option<Monto>)
    requires
        a.valido(),
        b.valido(),
    ensures
        r == cociente_decimal(a, b),
        r matches Some(c) ==> c.valido(),
        b.mantisa == 0 ==> r is None,
{
    let x = rust_decimal::Decimal::from_i128_with_scale(a.mantisa, a.escala);
    x.checked_div(rust_decimal::Decimal::from_i128_with_scale(b.mantisa, b.escala)).map(|d| Monto { mantisa: d.mantissa(), escala: d.scale() })
}

/// `<` entre decimales, que compara los valores exactos.
#[verifier::external_body]
pub(crate) fn menor(a: Monto, b: Monto) -> (r: bool)
    requires
        a.valido(),
        b.valido(),
    ensures
        r == valor_menor(a, b),
{
    rust_decimal::Decimal::from_i128_with_scale(a.mantisa, a.escala) < rust_decimal::Decimal::from_i128_with_scale(b.mantisa, b.escala)
}

/// `==` entre decimales, que compara los valores exactos.
#[verifier::external_body]
pub(crate) fn igual(a: Monto, b: Monto) -> (r: bool)
    requires
        a.valido(),
        b.valido(),
    ensures
        r == valor_igual(a, b),
{
    rust_decimal::Decimal::from_i128_with_scale(a.mantisa, a.escala) == rust_decimal::Decimal::from_i128_with_scale(b.mantisa, b.escala)
}

/// `Decimal::to_string`: como lo escribe `to_str_internal` de rust_decimal
/// y `Display` con `pad_integral` (el signo aparte), sin precisión pedida.
#[verifier::external_body]
pub(crate) fn texto(a: Monto) -> (r: String)
    requires
        a.valido(),
    ensures
        r@ == texto_decimal(a),
{
    rust_decimal::Decimal::from_i128_with_scale(a.mantisa, a.escala).to_string()
}

/// `a <= b` por valor.
pub fn menor_o_igual(a: Monto, b: Monto) -> (r: bool)
    requires
        a.valido(),
        b.valido(),
    ensures
        r == !valor_menor(b, a),
{
    !menor(b, a)
}

/// El mayor de dos montos (`Ord::max`: `b` salvo que `a` sea mayor).
pub open spec fn maximo_spec(a: Monto, b: Monto) -> Monto {
    if valor_menor(b, a) {
        a
    } else {
        b
    }
}

/// El mayor de dos montos, como `a.max(b)`.
pub fn maximo(a: Monto, b: Monto) -> (r: Monto)
    requires
        a.valido(),
        b.valido(),
    ensures
        r == maximo_spec(a, b),
        r.valido(),
{
    if menor(b, a) {
        a
    } else {
        b
    }
}

/// Valor cero por valor (cualquier escala).
pub open spec fn es_cero_spec(a: Monto) -> bool {
    a.mantisa == 0
}

/// `Decimal::ZERO < a` equivale a mantisa positiva.
pub proof fn lema_signo(a: Monto)
    ensures
        valor_menor(Monto { mantisa: 0, escala: 0 }, a) <==> a.mantisa > 0,
        valor_menor(a, Monto { mantisa: 0, escala: 0 }) <==> a.mantisa < 0,
        valor_igual(a, Monto { mantisa: 0, escala: 0 }) <==> a.mantisa == 0,
{
    assert(pot10(0) == 1);
}

/// Valor exacto en unidades de 10^-28 (toda escala válida es a lo sumo 28).
pub open spec fn valor28(m: Monto) -> int {
    m.mantisa * pot10((28 - m.escala) as nat)
}

proof fn lema_pot10_suma(m: nat, n: nat)
    ensures
        pot10(m + n) == pot10(m) * pot10(n),
        pot10(m) > 0,
    decreases m,
{
    if m > 0 {
        lema_pot10_suma((m - 1) as nat, n);
        assert(pot10(m + n) == 10 * pot10((m - 1 + n) as nat));
        assert(10 * (pot10((m - 1) as nat) * pot10(n)) == (10 * pot10((m - 1) as nat)) * pot10(n))
            by (nonlinear_arith);
    }
}

/// Una mantisa llevada a una escala común no mayor que 28 conserva el valor.
pub proof fn lema_alineada_valor28(a: Monto, e: nat)
    requires
        a.valido(),
        a.escala <= e <= 28,
    ensures
        alineada(a, e) * pot10((28 - e) as nat) == valor28(a),
{
    let k = (e - a.escala) as nat;
    let l = (28 - e) as nat;
    lema_pot10_suma(k, l);
    assert(k + l == (28 - a.escala) as nat);
    assert(a.mantisa * pot10(k) * pot10(l) == a.mantisa * (pot10(k) * pot10(l))) by (nonlinear_arith);
}

/// Si `c` vale `num / 10^e`, su valor exacto es `num` en la escala `e`.
pub proof fn lema_vale_valor28(c: Monto, num: int, e: nat)
    requires
        c.valido(),
        e <= 28,
        c.vale(num, e),
    ensures
        valor28(c) == num * pot10((28 - e) as nat),
{
    let ce = c.escala as nat;
    let p = pot10(ce);
    let x = valor28(c);
    let y = num * pot10((28 - e) as nat);
    lema_pot10_suma((28 - ce) as nat, ce);
    lema_pot10_suma(e, (28 - e) as nat);
    lema_pot10_suma(ce, 0);
    assert(((28 - ce) as nat + ce) as nat == 28);
    assert(e + (28 - e) as nat == 28);
    // x * p == c.mantisa * pot10(28) == c.mantisa * pot10(e) * pot10(28 - e)
    assert(x * p == c.mantisa * (pot10((28 - ce) as nat) * pot10(ce))) by (nonlinear_arith)
        requires
            x == c.mantisa * pot10((28 - ce) as nat),
            p == pot10(ce),
    ;
    assert(c.mantisa * pot10(e) * pot10((28 - e) as nat) == num * p * pot10((28 - e) as nat))
        by (nonlinear_arith)
        requires
            c.mantisa * pot10(e) == num * p,
    ;
    assert(x * p == y * p) by (nonlinear_arith)
        requires
            x * p == c.mantisa * pot10(28),
            pot10(28) == pot10(e) * pot10((28 - e) as nat),
            c.mantisa * pot10(e) * pot10((28 - e) as nat) == num * p * pot10((28 - e) as nat),
            y == num * pot10((28 - e) as nat),
    ;
    assert(x == y) by (nonlinear_arith)
        requires
            x * p == y * p,
            p > 0,
    ;
}

/// Un producto exacto vale el producto de los valores: en unidades de
/// 10^-28, `valor28(c) · 10^28 = valor28(x) · valor28(y)`.
pub proof fn lema_producto_valor28(x: Monto, y: Monto, c: Monto)
    requires
        x.valido(),
        y.valido(),
        c.valido(),
        producto_cabe(x, y),
        c.vale(x.mantisa * y.mantisa, (x.escala + y.escala) as nat),
    ensures
        valor28(c) * pot10(28) == valor28(x) * valor28(y),
{
    let e = (x.escala + y.escala) as nat;
    let ex = (28 - x.escala) as nat;
    let ey = (28 - y.escala) as nat;
    let r = (28 - e) as nat;
    lema_vale_valor28(c, x.mantisa * y.mantisa, e);
    lema_pot10_suma(ex, ey);
    lema_pot10_suma(r, 28);
    assert(ex + ey == r + 28);
    assert(valor28(x) * valor28(y) == x.mantisa * y.mantisa * (pot10(ex) * pot10(ey))) by (nonlinear_arith)
        requires
            valor28(x) == x.mantisa * pot10(ex),
            valor28(y) == y.mantisa * pot10(ey),
    ;
    assert(valor28(c) * pot10(28) == x.mantisa * y.mantisa * (pot10(r) * pot10(28))) by (nonlinear_arith)
        requires
            valor28(c) == x.mantisa * y.mantisa * pot10(r),
    ;
}

/// Una suma o resta exacta vale la suma o resta de los valores.
pub proof fn lema_suma_valor28(a: Monto, b: Monto, n: Monto, resta: bool)
    requires
        a.valido(),
        b.valido(),
        n.valido(),
        n.vale(
            if resta {
                alineada(a, escala_comun(a, b)) - alineada(b, escala_comun(a, b))
            } else {
                alineada(a, escala_comun(a, b)) + alineada(b, escala_comun(a, b))
            },
            escala_comun(a, b),
        ),
    ensures
        valor28(n) == if resta {
            valor28(a) - valor28(b)
        } else {
            valor28(a) + valor28(b)
        },
{
    let e = escala_comun(a, b);
    let k = pot10((28 - e) as nat);
    let x = alineada(a, e);
    let y = alineada(b, e);
    lema_alineada_valor28(a, e);
    lema_alineada_valor28(b, e);
    if resta {
        lema_vale_valor28(n, x - y, e);
        assert((x - y) * k == x * k - y * k) by (nonlinear_arith);
    } else {
        lema_vale_valor28(n, x + y, e);
        assert((x + y) * k == x * k + y * k) by (nonlinear_arith);
    }
}

/// Dos montos con el mismo valor exacto son iguales por valor.
pub proof fn lema_valor28_igual(a: Monto, b: Monto)
    requires
        a.valido(),
        b.valido(),
        valor28(a) == valor28(b),
    ensures
        valor_igual(a, b),
{
    let ea = a.escala as nat;
    let eb = b.escala as nat;
    lema_pot10_suma((28 - ea) as nat, ea);
    lema_pot10_suma((28 - eb) as nat, eb);
    lema_pot10_suma(ea, 0);
    lema_pot10_suma(eb, 0);
    lema_pot10_suma(28, 0);
    assert(((28 - ea) as nat + ea) as nat == 28);
    assert(((28 - eb) as nat + eb) as nat == 28);
    let pa = pot10(ea);
    let pb = pot10(eb);
    let p28 = pot10(28);
    assert(a.mantisa * pb * p28 == b.mantisa * pa * p28) by (nonlinear_arith)
        requires
            a.mantisa * pot10((28 - ea) as nat) == b.mantisa * pot10((28 - eb) as nat),
            p28 == pot10((28 - ea) as nat) * pa,
            p28 == pot10((28 - eb) as nat) * pb,
    ;
    assert(a.mantisa * pb == b.mantisa * pa) by (nonlinear_arith)
        requires
            a.mantisa * pb * p28 == b.mantisa * pa * p28,
            p28 > 0,
    ;
}

/// Un monto con mantisa cero vale cero.
pub proof fn lema_valor28_cero(m: Monto)
    requires
        m.mantisa == 0,
    ensures
        valor28(m) == 0,
{
    assert(m.mantisa * pot10((28 - m.escala) as nat) == 0) by (nonlinear_arith)
        requires
            m.mantisa == 0,
    ;
}

/// El valor exacto tiene el signo de la mantisa.
pub proof fn lema_valor28_signo(m: Monto)
    requires
        m.valido(),
    ensures
        valor28(m) > 0 <==> m.mantisa > 0,
        valor28(m) < 0 <==> m.mantisa < 0,
        valor28(m) == 0 <==> m.mantisa == 0,
{
    lema_pot10_suma((28 - m.escala) as nat, 0);
    let p = pot10((28 - m.escala) as nat);
    assert(m.mantisa > 0 ==> m.mantisa * p > 0) by (nonlinear_arith)
        requires
            p > 0,
    ;
    assert(m.mantisa < 0 ==> m.mantisa * p < 0) by (nonlinear_arith)
        requires
            p > 0,
    ;
    assert(m.mantisa == 0 ==> m.mantisa * p == 0) by (nonlinear_arith);
}

/// `valor_menor` compara los valores exactos.
pub proof fn lema_valor28_menor(a: Monto, b: Monto)
    requires
        a.valido(),
        b.valido(),
    ensures
        valor_menor(a, b) <==> valor28(a) < valor28(b),
{
    let ea = a.escala as nat;
    let eb = b.escala as nat;
    lema_pot10_suma((28 - ea) as nat, ea);
    lema_pot10_suma((28 - eb) as nat, eb);
    lema_pot10_suma(28, 0);
    lema_pot10_suma(ea, 0);
    lema_pot10_suma(eb, 0);
    assert(((28 - ea) as nat + ea) as nat == 28);
    assert(((28 - eb) as nat + eb) as nat == 28);
    let pa = pot10(ea);
    let pb = pot10(eb);
    let qa = pot10((28 - ea) as nat);
    let qb = pot10((28 - eb) as nat);
    let p28 = pot10(28);
    // valor28(a) * pa * pb == a.mantisa * pb * p28, y lo mismo para b.
    assert(valor28(a) * (pa * pb) == (a.mantisa * pb) * p28) by (nonlinear_arith)
        requires
            valor28(a) == a.mantisa * qa,
            p28 == qa * pa,
    ;
    assert(valor28(b) * (pa * pb) == (b.mantisa * pa) * p28) by (nonlinear_arith)
        requires
            valor28(b) == b.mantisa * qb,
            p28 == qb * pb,
    ;
    assert(pa * pb > 0) by (nonlinear_arith)
        requires
            pa > 0,
            pb > 0,
    ;
    assert((valor28(a) < valor28(b)) <==> (valor28(a) * (pa * pb) < valor28(b) * (pa * pb))) by (nonlinear_arith)
        requires
            pa * pb > 0,
    ;
    assert((a.mantisa * pb < b.mantisa * pa) <==> ((a.mantisa * pb) * p28 < (b.mantisa * pa) * p28)) by (nonlinear_arith)
        requires
            p28 > 0,
    ;
}

/// Un producto sin redondeo por 0.5 vale la mitad exacta.
pub proof fn lema_mitad_exacta(s: Monto, c: Monto)
    requires
        s.valido(),
        c.valido(),
        s.escala + 1 <= 28,
        c.vale(s.mantisa * 5, (s.escala + 1) as nat),
    ensures
        2 * valor28(c) == valor28(s),
{
    let e = (s.escala + 1) as nat;
    lema_vale_valor28(c, s.mantisa * 5, e);
    let k = (28 - e) as nat;
    assert(pot10((28 - s.escala) as nat) == 10 * pot10(k));
    assert(2 * (s.mantisa * 5 * pot10(k)) == s.mantisa * (10 * pot10(k))) by (nonlinear_arith);
}

/// Una suma sin redondeo suma los valores exactos.
pub proof fn lema_suma_exacta(a: Monto, b: Monto, c: Monto)
    requires
        a.valido(),
        b.valido(),
        c.valido(),
        c.vale(alineada(a, escala_comun(a, b)) + alineada(b, escala_comun(a, b)), escala_comun(a, b)),
    ensures
        valor28(c) == valor28(a) + valor28(b),
{
    let e = escala_comun(a, b);
    lema_vale_valor28(c, alineada(a, e) + alineada(b, e), e);
    lema_alineada_valor28(a, e);
    lema_alineada_valor28(b, e);
    assert((alineada(a, e) + alineada(b, e)) * pot10((28 - e) as nat) == alineada(a, e) * pot10(
        (28 - e) as nat,
    ) + alineada(b, e) * pot10((28 - e) as nat)) by (nonlinear_arith);
}

/// Una resta sin redondeo resta los valores exactos.
pub proof fn lema_resta_exacta(a: Monto, b: Monto, c: Monto)
    requires
        a.valido(),
        b.valido(),
        c.valido(),
        c.vale(alineada(a, escala_comun(a, b)) - alineada(b, escala_comun(a, b)), escala_comun(a, b)),
    ensures
        valor28(c) == valor28(a) - valor28(b),
{
    let e = escala_comun(a, b);
    lema_vale_valor28(c, alineada(a, e) - alineada(b, e), e);
    lema_alineada_valor28(a, e);
    lema_alineada_valor28(b, e);
    assert((alineada(a, e) - alineada(b, e)) * pot10((28 - e) as nat) == alineada(a, e) * pot10(
        (28 - e) as nat,
    ) - alineada(b, e) * pot10((28 - e) as nat)) by (nonlinear_arith);
}

} // verus!

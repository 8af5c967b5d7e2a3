//! Asignación de números de comprobante fiscal (e-NCF) de una secuencia
//! autorizada: prefijo más el número con diez posiciones.
use vstd::prelude::*;
use crate::ordenes::Fecha;
use crate::texto::{a_string, con_ceros, digitos, numero_con_ceros};

verus! {

/// Por qué una secuencia ya no asigna números.
#[derive(Clone, Copy, Debug, PartialEq, Eq, Structural)]
pub enum ErrorSecuencia {
    /// Su fecha de vencimiento ya pasó: se marca `VENCIDA`.
    Vencida,
    /// El próximo número supera el final del rango: se marca `AGOTADA`.
    Agotada,
    /// Al registrar una secuencia, el final del rango es menor que el inicio.
    RangoInvertido,
}

/// `a` es un día anterior a `b`.
pub open spec fn fecha_anterior(a: Fecha, b: Fecha) -> bool {
    a.anio < b.anio || (a.anio == b.anio && (a.mes < b.mes || (a.mes == b.mes && a.dia < b.dia)))
}

/// Número de la secuencia con diez posiciones rellenas con ceros; el signo,
/// si lo hay, ocupa una de ellas (formato `{:010}`).
pub open spec fn numero_ncf(n: int) -> Seq<char> {
    if n < 0 {
        "-"@ + con_ceros(digitos((-n) as nat), 9)
    } else {
        con_ceros(digitos(n as nat), 10)
    }
}

/// e-NCF: el prefijo de la secuencia seguido del número.
pub open spec fn e_ncf(prefijo: Seq<char>, n: int) -> Seq<char> {
    prefijo + numero_ncf(n)
}

/// Resultado de pedir un número a una secuencia activa.
pub open spec fn asignacion(
    prefijo: Seq<char>,
    proximo: int,
    hasta: int,
    vencimiento: Fecha,
    hoy: Fecha,
) -> Result<Seq<char>, ErrorSecuencia> {
    if fecha_anterior(vencimiento, hoy) {
        Err(ErrorSecuencia::Vencida)
    } else if proximo > hasta {
        Err(ErrorSecuencia::Agotada)
    } else {
        Ok(e_ncf(prefijo, proximo))
    }
}

/// `a` es un día anterior a `b`.
pub fn es_anterior(a: Fecha, b: Fecha) -> (r: bool)
    ensures
        r == fecha_anterior(a, b),
{
    a.anio < b.anio || (a.anio == b.anio && (a.mes < b.mes || (a.mes == b.mes && a.dia < b.dia)))
}

/// Registra una secuencia `[desde, hasta]`: su primer número es `desde`.
pub fn nueva_secuencia(desde: i64, hasta: i64) -> (r: Result<i64, ErrorSecuencia>)
    ensures
        match r {
            Ok(proximo) => desde <= hasta && proximo == desde,
            Err(e) => hasta < desde && e == ErrorSecuencia::RangoInvertido,
        },
{
    if hasta < desde {
        Err(ErrorSecuencia::RangoInvertido)
    } else {
        Ok(desde)
    }
}

/// Texto del número de la secuencia en diez posiciones.
pub fn formatear_numero(n: i64) -> (r: String)
    ensures
        r@ == numero_ncf(n as int),
{
    if n < 0 {
        let m: u64 = if n == i64::MIN {
            9223372036854775808u64
        } else {
            (-n) as u64
        };
        let mut r = a_string("-");
        r.append(numero_con_ceros(m, 9).as_str());
        proof {
            reveal_strlit("-");
        }
        r
    } else {
        numero_con_ceros(n as u64, 10)
    }
}

/// Asigna el número `proximo` de una secuencia `ACTIVA` que termina en
/// `hasta` y vence en `vencimiento`: devuelve el e-NCF y la fecha de
/// vencimiento, o por qué la secuencia deja de estar activa. El número nunca
/// lo fija quien llama: es siempre el próximo de la secuencia.
pub fn asignar_ncf(prefijo: &str, proximo: i64, hasta: i64, vencimiento: Fecha, hoy: Fecha) -> (r: Result<
    (String, Fecha),
    ErrorSecuencia,
>)
    ensures
        match r {
            Ok((e, f)) => asignacion(prefijo@, proximo as int, hasta as int, vencimiento, hoy) == Ok::<
                Seq<char>,
                ErrorSecuencia,
            >(e@) && f == vencimiento,
            Err(e) => asignacion(prefijo@, proximo as int, hasta as int, vencimiento, hoy) == Err::<
                Seq<char>,
                ErrorSecuencia,
            >(e),
        },
{
    if es_anterior(vencimiento, hoy) {
        return Err(ErrorSecuencia::Vencida);
    }
    if proximo > hasta {
        return Err(ErrorSecuencia::Agotada);
    }
    let mut e = a_string(prefijo);
    e.append(formatear_numero(proximo).as_str());
    Ok((e, vencimiento))
}

/// Valor decimal de una cadena de dígitos.
pub open spec fn valor(s: Seq<char>) -> int
    decreases s.len(),
{
    if s.len() == 0 {
        0
    } else {
        valor(s.drop_last()) * 10 + (s.last() as int - 48)
    }
}

/// Todos los caracteres son dígitos decimales.
pub open spec fn solo_digitos(s: Seq<char>) -> bool {
    forall|i: int| 0 <= i < s.len() ==> '0' <= #[trigger] s[i] <= '9'
}

proof fn lema_valor_digitos(n: nat)
    ensures
        valor(digitos(n)) == n,
        solo_digitos(digitos(n)),
        digitos(n).len() > 0,
    decreases n,
{
    if n < 10 {
        let d = digitos(n);
        assert(d.drop_last() =~= Seq::<char>::empty());
        assert(d.last() as int == 48 + n);
        assert(valor(d) == valor(d.drop_last()) * 10 + n);
    } else {
        lema_valor_digitos(n / 10);
        let d = digitos(n);
        assert(d.drop_last() =~= digitos(n / 10));
        assert(d.last() as int == 48 + n % 10);
        assert(valor(d) == valor(digitos(n / 10)) * 10 + (n % 10) as int);
        assert((n / 10) * 10 + n % 10 == n) by (nonlinear_arith);
        assert(solo_digitos(d)) by {
            assert forall|i: int| 0 <= i < d.len() implies '0' <= #[trigger] d[i] <= '9' by {
                if i < d.len() - 1 {
                    assert(d[i] == digitos(n / 10)[i]);
                }
            }
        }
    }
}

proof fn lema_valor_ceros(k: nat, s: Seq<char>)
    ensures
        valor(Seq::new(k, |i: int| '0') + s) == valor(s),
    decreases s.len(), k,
{
    let z = Seq::new(k, |i: int| '0');
    if s.len() == 0 {
        assert(z + s =~= z);
        if k > 0 {
            assert(z.drop_last() =~= Seq::new((k - 1) as nat, |i: int| '0'));
            lema_valor_ceros((k - 1) as nat, s);
            assert(Seq::new((k - 1) as nat, |i: int| '0') + s =~= Seq::new(
                (k - 1) as nat,
                |i: int| '0',
            ));
        }
    } else {
        assert((z + s).drop_last() =~= z + s.drop_last());
        lema_valor_ceros(k, s.drop_last());
    }
}

proof fn lema_valor_con_ceros(n: nat, ancho: nat)
    ensures
        valor(con_ceros(digitos(n), ancho)) == n,
        solo_digitos(con_ceros(digitos(n), ancho)),
        con_ceros(digitos(n), ancho).len() > 0,
{
    lema_valor_digitos(n);
    let d = digitos(n);
    if d.len() < ancho {
        let z = Seq::new((ancho - d.len()) as nat, |i: int| '0');
        lema_valor_ceros((ancho - d.len()) as nat, d);
        let c = z + d;
        assert forall|i: int| 0 <= i < c.len() implies '0' <= #[trigger] c[i] <= '9' by {
            if i >= z.len() {
                assert(c[i] == d[i - z.len()]);
            }
        }
    }
}

/// Una secuencia no repite comprobantes: dos números distintos de la misma
/// secuencia dan dos e-NCF distintos.
pub proof fn ley_ncf_sin_repeticion(prefijo: Seq<char>, a: int, b: int)
    requires
        a != b,
    ensures
        e_ncf(prefijo, a) != e_ncf(prefijo, b),
{
    reveal_strlit("-");
    let na = numero_ncf(a);
    let nb = numero_ncf(b);
    if e_ncf(prefijo, a) == e_ncf(prefijo, b) {
        assert(na =~= e_ncf(prefijo, a).skip(prefijo.len() as int));
        assert(nb =~= e_ncf(prefijo, b).skip(prefijo.len() as int));
        if a < 0 && b < 0 {
            lema_valor_con_ceros((-a) as nat, 9);
            lema_valor_con_ceros((-b) as nat, 9);
            assert(na.skip(1) =~= con_ceros(digitos((-a) as nat), 9));
            assert(nb.skip(1) =~= con_ceros(digitos((-b) as nat), 9));
        } else if a >= 0 && b >= 0 {
            lema_valor_con_ceros(a as nat, 10);
            lema_valor_con_ceros(b as nat, 10);
        } else if a < 0 {
            lema_valor_con_ceros(b as nat, 10);
            assert(na[0] == '-');
            assert('0' <= nb[0] <= '9');
        } else {
            lema_valor_con_ceros(a as nat, 10);
            assert(nb[0] == '-');
            assert('0' <= na[0] <= '9');
        }
    }
}

} // verus!

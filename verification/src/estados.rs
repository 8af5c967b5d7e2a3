//! Estado de resultados y balance general a partir de los saldos por cuenta.
//!
//! Cada cuenta llega con sus totales de debe y haber y, si está en el plan,
//! su tipo y su naturaleza. El saldo se firma según la naturaleza (una
//! `ACREEDORA` crece con el haber, cualquier otra con el debe) y se suma al
//! bloque que dicta el tipo; las cuentas fuera del plan van a su propio
//! bloque "sin clasificar" en vez de desaparecer.
use vstd::prelude::*;
use crate::dinero::{
    igual, lema_resta_exacta, lema_suma_exacta, lema_valor28_igual, resta_decimal, restar,
    suma_cabe, suma_decimal, sumar, valor28, valor_igual, Monto,
};
use crate::ncf::{es_anterior, fecha_anterior};
use crate::ordenes::Fecha;
use crate::precios::cero;
use crate::texto::{a_string, caracteres, empieza, empieza_con, mismo_texto};

verus! {

/// Totales de una cuenta en el rango pedido, con su clasificación del plan
/// (`None` si la cuenta no está en el plan).
#[derive(Clone, Debug)]
pub struct SaldoCuenta {
    pub codigo: String,
    pub nombre: String,
    pub tipo: Option<String>,
    pub naturaleza: Option<String>,
    pub debe: Monto,
    pub haber: Monto,
}

/// Una cuenta con su saldo ya firmado.
#[derive(Clone, Debug)]
pub struct LineaEstado {
    pub codigo: String,
    pub nombre: String,
    pub monto: Monto,
}

/// Por qué no se pudo armar un estado.
#[derive(Clone, Copy, Debug, PartialEq, Eq, Structural)]
pub enum ErrorEstado {
    /// La fecha inicial es posterior a la final.
    FechasInvertidas,
    /// Un saldo o un total desborda la representación decimal.
    Desbordamiento,
}

/// Bloque al que va una cuenta.
#[derive(Clone, Copy, Debug, PartialEq, Eq, Structural)]
pub enum Clase {
    Ingreso,
    CostoVentas,
    GastoOperativo,
    Activo,
    Pasivo,
    Patrimonio,
    /// Un tipo del plan que no es de balance ni de resultado.
    Otra,
    SinClasificar,
}

/// Grupo de clases que se totaliza junto.
#[derive(Clone, Copy, Debug, PartialEq, Eq, Structural)]
pub enum Grupo {
    Ingresos,
    CostoVentas,
    GastosOperativos,
    /// Costo de ventas y gastos operativos, en el orden en que aparecen.
    Gastos,
    Activo,
    Pasivo,
    Patrimonio,
    SinClasificar,
}

/// Vista de un texto opcional.
pub open spec fn texto_opcional(o: Option<String>) -> Option<Seq<char>> {
    match o {
        Some(s) => Some(s@),
        None => None,
    }
}

/// Clase que corresponde a un tipo del plan y un código de cuenta: dentro de
/// `GASTO`, los códigos que empiezan en `50` son costo de ventas.
pub open spec fn clase_de(tipo: Option<Seq<char>>, codigo: Seq<char>) -> Clase {
    match tipo {
        None => Clase::SinClasificar,
        Some(t) => if t == "INGRESO"@ {
            Clase::Ingreso
        } else if t == "GASTO"@ {
            if empieza_con(codigo, "50"@) {
                Clase::CostoVentas
            } else {
                Clase::GastoOperativo
            }
        } else if t == "ACTIVO"@ {
            Clase::Activo
        } else if t == "PASIVO"@ {
            Clase::Pasivo
        } else if t == "PATRIMONIO"@ {
            Clase::Patrimonio
        } else {
            Clase::Otra
        },
    }
}

/// Clase de una cuenta.
pub open spec fn clase_saldo(s: SaldoCuenta) -> Clase {
    clase_de(texto_opcional(s.tipo), s.codigo@)
}

/// La clase pertenece al grupo.
pub open spec fn en_grupo(g: Grupo, c: Clase) -> bool {
    match g {
        Grupo::Ingresos => c == Clase::Ingreso,
        Grupo::CostoVentas => c == Clase::CostoVentas,
        Grupo::GastosOperativos => c == Clase::GastoOperativo,
        Grupo::Gastos => c == Clase::CostoVentas || c == Clase::GastoOperativo,
        Grupo::Activo => c == Clase::Activo,
        Grupo::Pasivo => c == Clase::Pasivo,
        Grupo::Patrimonio => c == Clase::Patrimonio,
        Grupo::SinClasificar => c == Clase::SinClasificar,
    }
}

/// Saldo firmado: haber menos debe para una cuenta `ACREEDORA`, debe menos
/// haber para cualquier otra (también para las que no están en el plan).
pub open spec fn saldo_spec(s: SaldoCuenta) -> Option<Monto> {
    if texto_opcional(s.naturaleza) == Some("ACREEDORA"@) {
        resta_decimal(s.haber, s.debe)
    } else {
        resta_decimal(s.debe, s.haber)
    }
}

/// Todas las cuentas traen montos válidos.
pub open spec fn montos_validos(s: Seq<SaldoCuenta>) -> bool {
    forall|i: int| 0 <= i < s.len() ==> (#[trigger] s[i]).debe.valido() && s[i].haber.valido()
}

/// El saldo de cada cuenta se puede calcular.
pub open spec fn saldos_calculables(s: Seq<SaldoCuenta>) -> bool {
    forall|i: int| 0 <= i < s.len() ==> saldo_spec(#[trigger] s[i]) is Some
}

/// Total de un grupo, sumado desde cero en el orden de las cuentas.
pub open spec fn total_grupo(s: Seq<SaldoCuenta>, g: Grupo) -> Option<Monto>
    decreases s.len(),
{
    if s.len() == 0 {
        Some(cero())
    } else {
        match total_grupo(s.drop_last(), g) {
            None => None,
            Some(t) => if en_grupo(g, clase_saldo(s.last())) {
                match saldo_spec(s.last()) {
                    Some(x) => suma_decimal(t, x),
                    None => None,
                }
            } else {
                Some(t)
            },
        }
    }
}

/// Detalle de un grupo: código, nombre y saldo de cada cuenta, en orden.
pub open spec fn detalle_grupo(s: Seq<SaldoCuenta>, g: Grupo) -> Seq<(Seq<char>, Seq<char>, Monto)>
    decreases s.len(),
{
    if s.len() == 0 {
        Seq::empty()
    } else {
        let d = detalle_grupo(s.drop_last(), g);
        if en_grupo(g, clase_saldo(s.last())) {
            match saldo_spec(s.last()) {
                Some(x) => d.push((s.last().codigo@, s.last().nombre@, x)),
                None => d,
            }
        } else {
            d
        }
    }
}

/// Vista de una línea del estado.
pub open spec fn vista_linea_estado(l: LineaEstado) -> (Seq<char>, Seq<char>, Monto) {
    (l.codigo@, l.nombre@, l.monto)
}

/// Vista de un detalle.
pub open spec fn vista_detalle(d: Seq<LineaEstado>) -> Seq<(Seq<char>, Seq<char>, Monto)> {
    d.map_values(|l: LineaEstado| vista_linea_estado(l))
}

/// Montos del estado de resultados: ingresos, costo de ventas, utilidad
/// bruta, gastos operativos, resultado y sin clasificar; `None` si algo
/// desborda.
pub open spec fn resultados_spec(s: Seq<SaldoCuenta>) -> Option<(Monto, Monto, Monto, Monto, Monto, Monto)> {
    if !saldos_calculables(s) {
        None
    } else {
        match (
            total_grupo(s, Grupo::Ingresos),
            total_grupo(s, Grupo::CostoVentas),
            total_grupo(s, Grupo::GastosOperativos),
            total_grupo(s, Grupo::SinClasificar),
        ) {
            (Some(i), Some(c), Some(g), Some(n)) => match resta_decimal(i, c) {
                Some(u) => match resta_decimal(u, g) {
                    Some(r) => Some((i, c, u, g, r, n)),
                    None => None,
                },
                None => None,
            },
            _ => None,
        }
    }
}

/// Montos del balance general: activo, pasivo, patrimonio, resultado
/// acumulado, sin clasificar, total de pasivo y patrimonio, y si cuadra;
/// `None` si algo desborda.
pub open spec fn balance_spec(s: Seq<SaldoCuenta>) -> Option<(Monto, Monto, Monto, Monto, Monto, Monto, bool)> {
    if !saldos_calculables(s) {
        None
    } else {
        match (
            total_grupo(s, Grupo::Activo),
            total_grupo(s, Grupo::Pasivo),
            total_grupo(s, Grupo::Patrimonio),
            total_grupo(s, Grupo::Ingresos),
            total_grupo(s, Grupo::Gastos),
            total_grupo(s, Grupo::SinClasificar),
        ) {
            (Some(a), Some(p), Some(q), Some(i), Some(g), Some(n)) => match resta_decimal(i, g) {
                Some(r) => match suma_decimal(p, q) {
                    Some(pq) => match suma_decimal(pq, r) {
                        Some(t) => match suma_decimal(a, n) {
                            Some(an) => Some((a, p, q, r, n, t, valor_igual(an, t))),
                            None => None,
                        },
                        None => None,
                    },
                    None => None,
                },
                None => None,
            },
            _ => None,
        }
    }
}

/// Estado de resultados de `[desde, hasta]`.
pub struct EstadoResultados {
    pub desde: Fecha,
    pub hasta: Fecha,
    pub ingresos: Monto,
    pub costo_ventas: Monto,
    pub utilidad_bruta: Monto,
    pub gastos: Monto,
    pub resultado: Monto,
    /// Neto de las cuentas fuera del plan; no entra en ningún subtotal.
    pub sin_clasificar: Monto,
    pub detalle_ingresos: Vec<LineaEstado>,
    pub detalle_costo_ventas: Vec<LineaEstado>,
    pub detalle_gastos: Vec<LineaEstado>,
    pub detalle_sin_clasificar: Vec<LineaEstado>,
}

/// Balance general a una fecha de corte.
pub struct BalanceGeneral {
    pub al: Fecha,
    pub activo: Monto,
    pub pasivo: Monto,
    pub patrimonio: Monto,
    /// Resultado del ejercicio todavía sin cerrar contra patrimonio.
    pub resultado_acumulado: Monto,
    pub sin_clasificar: Monto,
    pub total_pasivo_y_patrimonio: Monto,
    /// `activo + sin_clasificar == pasivo + patrimonio + resultado_acumulado`.
    pub cuadra: bool,
    pub detalle_activo: Vec<LineaEstado>,
    pub detalle_pasivo: Vec<LineaEstado>,
    pub detalle_patrimonio: Vec<LineaEstado>,
    pub detalle_sin_clasificar: Vec<LineaEstado>,
}

/// La cuenta es de naturaleza acreedora.
pub open spec fn acreedora(s: SaldoCuenta) -> bool {
    texto_opcional(s.naturaleza) == Some("ACREEDORA"@)
}

/// Saldo exacto de la cuenta, en unidades de 10^-28.
pub open spec fn aporte(s: SaldoCuenta) -> int {
    if acreedora(s) {
        valor28(s.haber) - valor28(s.debe)
    } else {
        valor28(s.debe) - valor28(s.haber)
    }
}

/// El saldo de la cuenta se calcula sin redondeo.
pub open spec fn saldo_sin_redondeo(s: SaldoCuenta) -> bool {
    if acreedora(s) {
        suma_cabe(s.haber, s.debe, true)
    } else {
        suma_cabe(s.debe, s.haber, true)
    }
}

/// Suma exacta de los saldos de un grupo.
pub open spec fn suma_exacta(s: Seq<SaldoCuenta>, g: Grupo) -> int
    decreases s.len(),
{
    if s.len() == 0 {
        0
    } else {
        suma_exacta(s.drop_last(), g) + if en_grupo(g, clase_saldo(s.last())) {
            aporte(s.last())
        } else {
            0
        }
    }
}

/// Ni los saldos ni las sumas parciales de un grupo necesitan redondeo.
pub open spec fn grupo_sin_redondeo(s: Seq<SaldoCuenta>, g: Grupo) -> bool
    decreases s.len(),
{
    if s.len() == 0 {
        true
    } else {
        &&& grupo_sin_redondeo(s.drop_last(), g)
        &&& en_grupo(g, clase_saldo(s.last())) ==> {
            &&& saldo_sin_redondeo(s.last())
            &&& match (total_grupo(s.drop_last(), g), saldo_spec(s.last())) {
                (Some(t), Some(x)) => suma_cabe(t, x, false),
                _ => true,
            }
        }
    }
}

/// Ninguna operación del balance necesita redondeo: los saldos de todas las
/// cuentas, las sumas de cada bloque y los totales finales caben sin
/// redondear en los 96 bits de la mantisa.
pub open spec fn balance_sin_redondeo(s: Seq<SaldoCuenta>) -> bool {
    &&& forall|i: int| 0 <= i < s.len() ==> saldo_sin_redondeo(#[trigger] s[i])
    &&& grupo_sin_redondeo(s, Grupo::Activo)
    &&& grupo_sin_redondeo(s, Grupo::Pasivo)
    &&& grupo_sin_redondeo(s, Grupo::Patrimonio)
    &&& grupo_sin_redondeo(s, Grupo::Ingresos)
    &&& grupo_sin_redondeo(s, Grupo::Gastos)
    &&& grupo_sin_redondeo(s, Grupo::SinClasificar)
    &&& match (
        total_grupo(s, Grupo::Activo),
        total_grupo(s, Grupo::Pasivo),
        total_grupo(s, Grupo::Patrimonio),
        total_grupo(s, Grupo::Ingresos),
        total_grupo(s, Grupo::Gastos),
        total_grupo(s, Grupo::SinClasificar),
    ) {
        (Some(a), Some(p), Some(q), Some(i), Some(g), Some(n)) => {
            &&& suma_cabe(i, g, true)
            &&& suma_cabe(p, q, false)
            &&& suma_cabe(a, n, false)
            &&& match (suma_decimal(p, q), resta_decimal(i, g)) {
                (Some(pq), Some(r)) => suma_cabe(pq, r, false),
                _ => true,
            }
        },
        _ => true,
    }
}

/// Cada cuenta tiene la naturaleza de su tipo: deudora el activo, los gastos
/// y las cuentas fuera del plan; acreedora el pasivo, el patrimonio y los
/// ingresos; y no hay tipos fuera de esos.
pub open spec fn naturalezas_coherentes(s: Seq<SaldoCuenta>) -> bool {
    forall|i: int|
        0 <= i < s.len() ==> match clase_saldo(#[trigger] s[i]) {
            Clase::Activo | Clase::CostoVentas | Clase::GastoOperativo | Clase::SinClasificar => !acreedora(
                s[i],
            ),
            Clase::Pasivo | Clase::Patrimonio | Clase::Ingreso => acreedora(s[i]),
            Clase::Otra => false,
        }
}

/// Suma exacta del debe menos el haber de todas las cuentas.
pub open spec fn debe_menos_haber(s: Seq<SaldoCuenta>) -> int
    decreases s.len(),
{
    if s.len() == 0 {
        0
    } else {
        debe_menos_haber(s.drop_last()) + valor28(s.last().debe) - valor28(s.last().haber)
    }
}

proof fn lema_identidad(s: Seq<SaldoCuenta>)
    requires
        naturalezas_coherentes(s),
    ensures
        suma_exacta(s, Grupo::Activo) + suma_exacta(s, Grupo::SinClasificar) - (suma_exacta(
            s,
            Grupo::Pasivo,
        ) + suma_exacta(s, Grupo::Patrimonio) + (suma_exacta(s, Grupo::Ingresos) - suma_exacta(
            s,
            Grupo::Gastos,
        ))) == debe_menos_haber(s),
    decreases s.len(),
{
    if s.len() > 0 {
        let u = s.drop_last();
        assert(naturalezas_coherentes(u)) by {
            assert forall|i: int| 0 <= i < u.len() implies match clase_saldo(#[trigger] u[i]) {
                Clase::Activo | Clase::CostoVentas | Clase::GastoOperativo | Clase::SinClasificar => !acreedora(
                    u[i],
                ),
                Clase::Pasivo | Clase::Patrimonio | Clase::Ingreso => acreedora(u[i]),
                Clase::Otra => false,
            } by {
                assert(u[i] == s[i]);
            }
        }
        lema_identidad(u);
        let l = s.last();
        assert(l == s[s.len() - 1]);
        let c = clase_saldo(l);
        assert(match c {
            Clase::Activo | Clase::CostoVentas | Clase::GastoOperativo | Clase::SinClasificar => !acreedora(l),
            Clase::Pasivo | Clase::Patrimonio | Clase::Ingreso => acreedora(l),
            Clase::Otra => false,
        });
    }
}

proof fn lema_sin_redondeo_prefijo(s: Seq<SaldoCuenta>, g: Grupo, i: int)
    requires
        0 <= i <= s.len(),
        grupo_sin_redondeo(s, g),
    ensures
        grupo_sin_redondeo(s.take(i), g),
    decreases s.len() - i,
{
    if i == s.len() {
        assert(s.take(i) =~= s);
    } else {
        lema_sin_redondeo_prefijo(s, g, i + 1);
        assert(s.take(i + 1).drop_last() =~= s.take(i));
    }
}

/// Cada tipo del plan va a su grupo: ACTIVO al activo, PASIVO al pasivo,
/// PATRIMONIO al patrimonio, INGRESO a los ingresos, GASTO a los gastos (costo
/// de ventas si el código empieza en `50`) y una cuenta sin tipo a sin
/// clasificar.
pub proof fn ley_grupo_por_tipo(s: SaldoCuenta)
    ensures
        texto_opcional(s.tipo) == Some("ACTIVO"@) ==> en_grupo(Grupo::Activo, clase_saldo(s)),
        texto_opcional(s.tipo) == Some("PASIVO"@) ==> en_grupo(Grupo::Pasivo, clase_saldo(s)),
        texto_opcional(s.tipo) == Some("PATRIMONIO"@) ==> en_grupo(Grupo::Patrimonio, clase_saldo(s)),
        texto_opcional(s.tipo) == Some("INGRESO"@) ==> en_grupo(Grupo::Ingresos, clase_saldo(s)),
        texto_opcional(s.tipo) == Some("GASTO"@) ==> en_grupo(Grupo::Gastos, clase_saldo(s)),
        texto_opcional(s.tipo) == Some("GASTO"@) ==> (en_grupo(Grupo::CostoVentas, clase_saldo(s))
            <==> empieza_con(s.codigo@, "50"@)),
        s.tipo is None ==> en_grupo(Grupo::SinClasificar, clase_saldo(s)),
{
    reveal_strlit("ACTIVO");
    reveal_strlit("PASIVO");
    reveal_strlit("PATRIMONIO");
    reveal_strlit("INGRESO");
    reveal_strlit("GASTO");
    assert("ACTIVO"@ != "INGRESO"@ && "ACTIVO"@ != "GASTO"@) by {
        assert("ACTIVO"@[0] != "INGRESO"@[0] && "ACTIVO"@[0] != "GASTO"@[0]);
    }
    assert("PASIVO"@ != "INGRESO"@ && "PASIVO"@ != "GASTO"@ && "PASIVO"@ != "ACTIVO"@) by {
        assert("PASIVO"@[0] != "INGRESO"@[0] && "PASIVO"@[0] != "GASTO"@[0] && "PASIVO"@[0]
            != "ACTIVO"@[0]);
    }
    assert("PATRIMONIO"@ != "INGRESO"@ && "PATRIMONIO"@ != "GASTO"@ && "PATRIMONIO"@ != "ACTIVO"@
        && "PATRIMONIO"@ != "PASIVO"@) by {
        assert("PATRIMONIO"@[0] != "INGRESO"@[0] && "PATRIMONIO"@[0] != "GASTO"@[0]
            && "PATRIMONIO"@[0] != "ACTIVO"@[0] && "PATRIMONIO"@[2] != "PASIVO"@[2]);
    }
    assert("INGRESO"@ != "GASTO"@) by {
        assert("INGRESO"@[0] != "GASTO"@[0]);
    }
}

/// Un plan de cuentas en el que cada cuenta tiene uno de los cinco tipos con
/// su naturaleza (ACTIVO y GASTO deudoras; PASIVO, PATRIMONIO e INGRESO
/// acreedoras) o no tiene tipo y es deudora.
pub open spec fn plan_ordinario(s: Seq<SaldoCuenta>) -> bool {
    forall|i: int|
        0 <= i < s.len() ==> {
            let t = texto_opcional(#[trigger] s[i].tipo);
            ||| (t == Some("ACTIVO"@) || t == Some("GASTO"@) || t is None) && !acreedora(s[i])
            ||| (t == Some("PASIVO"@) || t == Some("PATRIMONIO"@) || t == Some("INGRESO"@))
                && acreedora(s[i])
        }
}

/// En un plan ordinario toda cuenta entra en el balance con su naturaleza:
/// vale la identidad contable, activo + sin clasificar = pasivo + patrimonio
/// + (ingresos - gastos) + (debe - haber), en valores exactos. Con asientos
/// cuadrados (debe = haber) y sin redondeo, `balance_general` cuadra.
pub proof fn ley_identidad_del_plan(s: Seq<SaldoCuenta>)
    requires
        plan_ordinario(s),
    ensures
        naturalezas_coherentes(s),
        suma_exacta(s, Grupo::Activo) + suma_exacta(s, Grupo::SinClasificar) - (suma_exacta(
            s,
            Grupo::Pasivo,
        ) + suma_exacta(s, Grupo::Patrimonio) + (suma_exacta(s, Grupo::Ingresos) - suma_exacta(
            s,
            Grupo::Gastos,
        ))) == debe_menos_haber(s),
{
    assert forall|i: int| 0 <= i < s.len() implies match clase_saldo(#[trigger] s[i]) {
        Clase::Activo | Clase::CostoVentas | Clase::GastoOperativo | Clase::SinClasificar => !acreedora(
            s[i],
        ),
        Clase::Pasivo | Clase::Patrimonio | Clase::Ingreso => acreedora(s[i]),
        Clase::Otra => false,
    } by {
        ley_grupo_por_tipo(s[i]);
        let _ = texto_opcional(s[i].tipo);
    }
    lema_identidad(s);
}

/// Saldo firmado de una cuenta.
pub fn saldo(s: &SaldoCuenta) -> (r: Option<Monto>)
    requires
        s.debe.valido(),
        s.haber.valido(),
    ensures
        r == saldo_spec(*s),
        r matches Some(m) ==> m.valido(),
        saldo_sin_redondeo(*s) ==> (r matches Some(m) && valor28(m) == aporte(*s)),
{
    proof {
        reveal_strlit("ACREEDORA");
    }
    let es_acreedora = match &s.naturaleza {
        Some(n) => mismo_texto(n.as_str(), "ACREEDORA"),
        None => false,
    };
    if es_acreedora {
        let r = restar(s.haber, s.debe);
        proof {
            if saldo_sin_redondeo(*s) {
                lema_resta_exacta(s.haber, s.debe, r.unwrap());
            }
        }
        r
    } else {
        let r = restar(s.debe, s.haber);
        proof {
            if saldo_sin_redondeo(*s) {
                lema_resta_exacta(s.debe, s.haber, r.unwrap());
            }
        }
        r
    }
}

/// Clase de una cuenta.
pub fn clasificar(s: &SaldoCuenta) -> (c: Clase)
    ensures
        c == clase_saldo(*s),
{
    match &s.tipo {
        None => Clase::SinClasificar,
        Some(t) => {
            let t = t.as_str();
            if mismo_texto(t, "INGRESO") {
                Clase::Ingreso
            } else if mismo_texto(t, "GASTO") {
                if empieza(&caracteres(s.codigo.as_str()), &caracteres("50")) {
                    Clase::CostoVentas
                } else {
                    Clase::GastoOperativo
                }
            } else if mismo_texto(t, "ACTIVO") {
                Clase::Activo
            } else if mismo_texto(t, "PASIVO") {
                Clase::Pasivo
            } else if mismo_texto(t, "PATRIMONIO") {
                Clase::Patrimonio
            } else {
                Clase::Otra
            }
        },
    }
}

/// La clase pertenece al grupo.
pub fn pertenece(g: Grupo, c: Clase) -> (r: bool)
    ensures
        r == en_grupo(g, c),
{
    match g {
        Grupo::Ingresos => c == Clase::Ingreso,
        Grupo::CostoVentas => c == Clase::CostoVentas,
        Grupo::GastosOperativos => c == Clase::GastoOperativo,
        Grupo::Gastos => c == Clase::CostoVentas || c == Clase::GastoOperativo,
        Grupo::Activo => c == Clase::Activo,
        Grupo::Pasivo => c == Clase::Pasivo,
        Grupo::Patrimonio => c == Clase::Patrimonio,
        Grupo::SinClasificar => c == Clase::SinClasificar,
    }
}

proof fn lema_total_prefijo(s: Seq<SaldoCuenta>, g: Grupo, i: int)
    requires
        0 <= i <= s.len(),
        total_grupo(s.take(i), g) is None,
    ensures
        total_grupo(s, g) is None,
    decreases s.len() - i,
{
    if i == s.len() {
        assert(s.take(i) =~= s);
    } else {
        assert(s.take(i + 1).drop_last() =~= s.take(i));
        lema_total_prefijo(s, g, i + 1);
    }
}

/// Comprueba que el saldo de cada cuenta se puede calcular.
pub fn verificar_saldos(v: &Vec<SaldoCuenta>) -> (r: bool)
    requires
        montos_validos(v@),
    ensures
        r == saldos_calculables(v@),
        (forall|i: int| 0 <= i < v@.len() ==> saldo_sin_redondeo(#[trigger] v@[i])) ==> r,
{
    let mut i: usize = 0;
    while i < v.len()
        invariant
            i <= v.len(),
            montos_validos(v@),
            forall|k: int| 0 <= k < i ==> saldo_spec(#[trigger] v@[k]) is Some,
        decreases v.len() - i,
    {
        if saldo(&v[i]).is_none() {
            return false;
        }
        i = i + 1;
    }
    true
}

/// Total y detalle de un grupo.
pub fn totalizar(v: &Vec<SaldoCuenta>, g: Grupo) -> (r: Option<(Monto, Vec<LineaEstado>)>)
    requires
        montos_validos(v@),
    ensures
        match r {
            Some((t, d)) => total_grupo(v@, g) == Some(t) && t.valido() && vista_detalle(d@)
                == detalle_grupo(v@, g),
            None => total_grupo(v@, g) is None,
        },
        grupo_sin_redondeo(v@, g) ==> (r matches Some((t, _)) && valor28(t) == suma_exacta(v@, g)),
{
    let mut total = Monto::cero();
    let mut detalle: Vec<LineaEstado> = Vec::new();
    let mut i: usize = 0;
    proof {
        assert(v@.take(0) =~= Seq::<SaldoCuenta>::empty());
        assert(vista_detalle(detalle@) =~= Seq::empty());
    }
    while i < v.len()
        invariant
            i <= v.len(),
            montos_validos(v@),
            total_grupo(v@.take(i as int), g) == Some(total),
            total.valido(),
            vista_detalle(detalle@) == detalle_grupo(v@.take(i as int), g),
            grupo_sin_redondeo(v@.take(i as int), g) ==> valor28(total) == suma_exacta(
                v@.take(i as int),
                g,
            ),
            grupo_sin_redondeo(v@, g) ==> grupo_sin_redondeo(v@.take(i as int), g),
        decreases v.len() - i,
    {
        let s = &v[i];
        proof {
            assert(v@.take(i + 1).drop_last() =~= v@.take(i as int));
            assert(v@.take(i + 1).last() == v@[i as int]);
            if grupo_sin_redondeo(v@, g) {
                lema_sin_redondeo_prefijo(v@, g, i + 1);
            }
        }
        let ghost previo = total;
        if pertenece(g, clasificar(s)) {
            let x = match saldo(s) {
                Some(x) => x,
                None => {
                    proof {
                        lema_total_prefijo(v@, g, i + 1);
                    }
                    return None;
                },
            };
            let suma = sumar(total, x);
            proof {
                if grupo_sin_redondeo(v@.take(i + 1), g) {
                    lema_suma_exacta(previo, x, suma.unwrap());
                }
            }
            total = match suma {
                Some(t) => t,
                None => {
                    proof {
                        lema_total_prefijo(v@, g, i + 1);
                    }
                    return None;
                },
            };
            let linea = LineaEstado {
                codigo: a_string(s.codigo.as_str()),
                nombre: a_string(s.nombre.as_str()),
                monto: x,
            };
            let ghost antes = detalle@;
            detalle.push(linea);
            proof {
                assert(vista_detalle(detalle@) =~= vista_detalle(antes).push(
                    vista_linea_estado(linea),
                ));
            }
        }
        i = i + 1;
    }
    proof {
        assert(v@.take(v@.len() as int) =~= v@);
    }
    Some((total, detalle))
}

/// Arma el estado de resultados de `[desde, hasta]` con los saldos de ese
/// rango: ingresos, costo de ventas, utilidad bruta (ingresos menos costo),
/// gastos operativos y resultado (utilidad bruta menos gastos). Las cuentas
/// de balance y de otros tipos no entran.
pub fn estado_resultados(saldos: &Vec<SaldoCuenta>, desde: Fecha, hasta: Fecha) -> (r: Result<
    EstadoResultados,
    ErrorEstado,
>)
    requires
        montos_validos(saldos@),
    ensures
        match r {
            Ok(e) => {
                &&& !fecha_anterior(hasta, desde)
                &&& e.desde == desde && e.hasta == hasta
                &&& resultados_spec(saldos@) == Some(
                    (e.ingresos, e.costo_ventas, e.utilidad_bruta, e.gastos, e.resultado, e.sin_clasificar),
                )
                &&& vista_detalle(e.detalle_ingresos@) == detalle_grupo(saldos@, Grupo::Ingresos)
                &&& vista_detalle(e.detalle_costo_ventas@) == detalle_grupo(saldos@, Grupo::CostoVentas)
                &&& vista_detalle(e.detalle_gastos@) == detalle_grupo(saldos@, Grupo::GastosOperativos)
                &&& vista_detalle(e.detalle_sin_clasificar@) == detalle_grupo(
                    saldos@,
                    Grupo::SinClasificar,
                )
            },
            Err(ErrorEstado::FechasInvertidas) => fecha_anterior(hasta, desde),
            Err(ErrorEstado::Desbordamiento) => !fecha_anterior(hasta, desde) && resultados_spec(
                saldos@,
            ) is None,
        },
{
    if es_anterior(hasta, desde) {
        return Err(ErrorEstado::FechasInvertidas);
    }
    if !verificar_saldos(saldos) {
        return Err(ErrorEstado::Desbordamiento);
    }
    let (ingresos, d_ingresos) = match totalizar(saldos, Grupo::Ingresos) {
        Some(x) => x,
        None => return Err(ErrorEstado::Desbordamiento),
    };
    let (costo, d_costo) = match totalizar(saldos, Grupo::CostoVentas) {
        Some(x) => x,
        None => return Err(ErrorEstado::Desbordamiento),
    };
    let (gastos, d_gastos) = match totalizar(saldos, Grupo::GastosOperativos) {
        Some(x) => x,
        None => return Err(ErrorEstado::Desbordamiento),
    };
    let (sin_clasificar, d_sin) = match totalizar(saldos, Grupo::SinClasificar) {
        Some(x) => x,
        None => return Err(ErrorEstado::Desbordamiento),
    };
    let utilidad = match restar(ingresos, costo) {
        Some(u) => u,
        None => return Err(ErrorEstado::Desbordamiento),
    };
    let resultado = match restar(utilidad, gastos) {
        Some(x) => x,
        None => return Err(ErrorEstado::Desbordamiento),
    };
    Ok(EstadoResultados {
        desde,
        hasta,
        ingresos,
        costo_ventas: costo,
        utilidad_bruta: utilidad,
        gastos,
        resultado,
        sin_clasificar,
        detalle_ingresos: d_ingresos,
        detalle_costo_ventas: d_costo,
        detalle_gastos: d_gastos,
        detalle_sin_clasificar: d_sin,
    })
}

/// Arma el balance general con los saldos acumulados hasta `al`: activo,
/// pasivo y patrimonio; el resultado acumulado (ingresos menos todos los
/// gastos) que aún no se cerró contra patrimonio; y si
/// `activo + sin clasificar` es igual a `pasivo + patrimonio + resultado`.
pub fn balance_general(saldos: &Vec<SaldoCuenta>, al: Fecha) -> (r: Result<BalanceGeneral, ErrorEstado>)
    requires
        montos_validos(saldos@),
    ensures
        match r {
            Ok(b) => {
                &&& b.al == al
                &&& balance_spec(saldos@) == Some(
                    (
                        b.activo,
                        b.pasivo,
                        b.patrimonio,
                        b.resultado_acumulado,
                        b.sin_clasificar,
                        b.total_pasivo_y_patrimonio,
                        b.cuadra,
                    ),
                )
                &&& vista_detalle(b.detalle_activo@) == detalle_grupo(saldos@, Grupo::Activo)
                &&& vista_detalle(b.detalle_pasivo@) == detalle_grupo(saldos@, Grupo::Pasivo)
                &&& vista_detalle(b.detalle_patrimonio@) == detalle_grupo(saldos@, Grupo::Patrimonio)
                &&& vista_detalle(b.detalle_sin_clasificar@) == detalle_grupo(
                    saldos@,
                    Grupo::SinClasificar,
                )
            },
            Err(ErrorEstado::FechasInvertidas) => false,
            Err(ErrorEstado::Desbordamiento) => balance_spec(saldos@) is None,
        },
        // Si los saldos vienen de asientos cuadrados, cada cuenta tiene la
        // naturaleza de su tipo y nada se redondea, el balance cuadra.
        balance_sin_redondeo(saldos@) && naturalezas_coherentes(saldos@) && debe_menos_haber(saldos@)
            == 0 ==> (r matches Ok(b) && b.cuadra),
{
    if !verificar_saldos(saldos) {
        return Err(ErrorEstado::Desbordamiento);
    }
    let (activo, d_activo) = match totalizar(saldos, Grupo::Activo) {
        Some(x) => x,
        None => return Err(ErrorEstado::Desbordamiento),
    };
    let (pasivo, d_pasivo) = match totalizar(saldos, Grupo::Pasivo) {
        Some(x) => x,
        None => return Err(ErrorEstado::Desbordamiento),
    };
    let (patrimonio, d_patrimonio) = match totalizar(saldos, Grupo::Patrimonio) {
        Some(x) => x,
        None => return Err(ErrorEstado::Desbordamiento),
    };
    let (ingresos, _) = match totalizar(saldos, Grupo::Ingresos) {
        Some(x) => x,
        None => return Err(ErrorEstado::Desbordamiento),
    };
    let (gastos, _) = match totalizar(saldos, Grupo::Gastos) {
        Some(x) => x,
        None => return Err(ErrorEstado::Desbordamiento),
    };
    let (sin_clasificar, d_sin) = match totalizar(saldos, Grupo::SinClasificar) {
        Some(x) => x,
        None => return Err(ErrorEstado::Desbordamiento),
    };
    let ghost exacto = balance_sin_redondeo(saldos@);
    let resultado = match restar(ingresos, gastos) {
        Some(x) => x,
        None => return Err(ErrorEstado::Desbordamiento),
    };
    let pq = match sumar(pasivo, patrimonio) {
        Some(x) => x,
        None => return Err(ErrorEstado::Desbordamiento),
    };
    let total = match sumar(pq, resultado) {
        Some(x) => x,
        None => return Err(ErrorEstado::Desbordamiento),
    };
    let an = match sumar(activo, sin_clasificar) {
        Some(x) => x,
        None => return Err(ErrorEstado::Desbordamiento),
    };
    let cuadra = igual(an, total);
    proof {
        if exacto && naturalezas_coherentes(saldos@) && debe_menos_haber(saldos@) == 0 {
            lema_resta_exacta(ingresos, gastos, resultado);
            lema_suma_exacta(pasivo, patrimonio, pq);
            lema_suma_exacta(pq, resultado, total);
            lema_suma_exacta(activo, sin_clasificar, an);
            lema_identidad(saldos@);
            lema_valor28_igual(an, total);
        }
    }
    Ok(BalanceGeneral {
        al,
        activo,
        pasivo,
        patrimonio,
        resultado_acumulado: resultado,
        sin_clasificar,
        total_pasivo_y_patrimonio: total,
        cuadra,
        detalle_activo: d_activo,
        detalle_pasivo: d_pasivo,
        detalle_patrimonio: d_patrimonio,
        detalle_sin_clasificar: d_sin,
    })
}

} // verus!

//! Contabilidad de doble entrada: validación de asientos, reversiones y las
//! reglas con que cada operación del negocio genera su asiento.
use vstd::prelude::*;
use crate::dinero::{
    igual, lema_signo, menor, multiplicar, pot10, producto_decimal, resta_decimal, restar,
    suma_decimal, sumar, valor28, valor_igual, valor_menor, Monto, lema_valor28_cero, lema_resta_exacta, suma_cabe, lema_valor28_signo,
};
use crate::precios::cero;
use crate::texto::{a_string, caracteres, mismo_texto, recortado, recortar};

verus! {

/// Línea de un asiento: cuenta, debe y haber.
#[derive(Clone, Debug)]
pub struct Linea {
    pub cuenta: String,
    pub debe: Monto,
    pub haber: Monto,
}

/// Vista de una línea.
pub open spec fn vista_linea(l: Linea) -> (Seq<char>, Monto, Monto) {
    (l.cuenta@, l.debe, l.haber)
}

/// Vista de una lista de líneas.
pub open spec fn vista_lineas(v: Seq<Linea>) -> Seq<(Seq<char>, Monto, Monto)> {
    v.map_values(|l: Linea| vista_linea(l))
}

/// Las líneas tienen montos válidos.
pub open spec fn montos_validos(s: Seq<(Seq<char>, Monto, Monto)>) -> bool {
    forall|i: int| 0 <= i < s.len() ==> (#[trigger] s[i]).1.valido() && s[i].2.valido()
}

/// Errores de un asiento.
#[derive(PartialEq, Eq, Structural, Clone, Copy, Debug)]
pub enum ErrorAsiento {
    /// Un asiento necesita al menos dos líneas.
    PocasLineas,
    /// Los totales desbordan la representación decimal.
    Desbordamiento,
    /// La suma del debe no es igual a la del haber.
    NoCuadra,
    /// El asiento suma cero.
    Vacio,
    /// El período contable de la fecha está cerrado.
    PeriodoCerrado,
    /// No se puede reversar una reversión.
    ReversionDeReversion,
    /// El asiento ya fue reversado.
    YaReversado,
    /// El asiento no tiene líneas.
    SinLineas,
}

/// Suma del debe, acumulada desde cero en orden.
pub open spec fn suma_debe(s: Seq<(Seq<char>, Monto, Monto)>) -> Option<Monto>
    decreases s.len(),
{
    if s.len() == 0 {
        Some(cero())
    } else {
        match suma_debe(s.drop_last()) {
            None => None,
            Some(t) => suma_decimal(t, s.last().1),
        }
    }
}

/// Suma del haber, acumulada desde cero en orden.
pub open spec fn suma_haber(s: Seq<(Seq<char>, Monto, Monto)>) -> Option<Monto>
    decreases s.len(),
{
    if s.len() == 0 {
        Some(cero())
    } else {
        match suma_haber(s.drop_last()) {
            None => None,
            Some(t) => suma_decimal(t, s.last().2),
        }
    }
}

/// Validación de un asiento: al menos dos líneas, el debe igual al haber y
/// distinto de cero. Devuelve el total del debe.
pub open spec fn validacion(s: Seq<(Seq<char>, Monto, Monto)>) -> Result<Monto, ErrorAsiento> {
    if s.len() < 2 {
        Err(ErrorAsiento::PocasLineas)
    } else {
        match (suma_debe(s), suma_haber(s)) {
            (Some(d), Some(h)) => if !valor_igual(d, h) {
                Err(ErrorAsiento::NoCuadra)
            } else if valor_igual(d, cero()) {
                Err(ErrorAsiento::Vacio)
            } else {
                Ok(d)
            },
            _ => Err(ErrorAsiento::Desbordamiento),
        }
    }
}

/// El asiento reverso: mismas cuentas, debe y haber intercambiados.
pub open spec fn reversa(s: Seq<(Seq<char>, Monto, Monto)>) -> Seq<(Seq<char>, Monto, Monto)> {
    s.map_values(|x: (Seq<char>, Monto, Monto)| (x.0, x.2, x.1))
}

proof fn lema_sumas_reversa(s: Seq<(Seq<char>, Monto, Monto)>)
    ensures
        suma_debe(reversa(s)) == suma_haber(s),
        suma_haber(reversa(s)) == suma_debe(s),
    decreases s.len(),
{
    if s.len() > 0 {
        assert(reversa(s).drop_last() =~= reversa(s.drop_last()));
        lema_sumas_reversa(s.drop_last());
    }
}

proof fn lema_pot10_positiva(n: nat)
    ensures
        pot10(n) > 0,
    decreases n,
{
    if n > 0 {
        lema_pot10_positiva((n - 1) as nat);
    }
}

/// Reversar dos veces devuelve el asiento original.
pub proof fn ley_reversa_involucion(s: Seq<(Seq<char>, Monto, Monto)>)
    ensures
        reversa(reversa(s)) == s,
{
    assert(reversa(reversa(s)) =~= s);
}

/// Un asiento y su reverso se validan igual: si uno es válido el otro también,
/// con el mismo total por valor, y si uno se rechaza el otro se rechaza con el
/// mismo error.
pub proof fn ley_reversa_valida(s: Seq<(Seq<char>, Monto, Monto)>)
    ensures
        validacion(s) is Ok <==> validacion(reversa(s)) is Ok,
        validacion(s) matches Ok(a) ==> validacion(reversa(s)) matches Ok(b) && valor_igual(a, b),
        validacion(s) matches Err(e) ==> validacion(reversa(s)) == Err::<Monto, ErrorAsiento>(e),
{
    lema_sumas_reversa(s);
    if s.len() >= 2 {
        match (suma_debe(s), suma_haber(s)) {
            (Some(d), Some(h)) => {
                lema_signo(d);
                lema_signo(h);
                lema_pot10_positiva(d.escala as nat);
                lema_pot10_positiva(h.escala as nat);
                if valor_igual(d, h) {
                    let pd = pot10(d.escala as nat);
                    let ph = pot10(h.escala as nat);
                    assert(d.mantisa == 0 <==> h.mantisa == 0) by (nonlinear_arith)
                        requires
                            d.mantisa * ph == h.mantisa * pd,
                            pd > 0,
                            ph > 0,
                    ;
                }
            },
            _ => {},
        }
    }
}

/// Suma del debe y del haber de las líneas.
fn sumar_lineas(lineas: &Vec<Linea>) -> (r: Option<(Monto, Monto)>)
    requires
        montos_validos(vista_lineas(lineas@)),
    ensures
        match r {
            Some((d, h)) => suma_debe(vista_lineas(lineas@)) == Some(d) && suma_haber(
                vista_lineas(lineas@),
            ) == Some(h) && d.valido() && h.valido(),
            None => suma_debe(vista_lineas(lineas@)) is None || suma_haber(vista_lineas(lineas@))
                is None,
        },
{
    let ghost s = vista_lineas(lineas@);
    let mut d = Monto::cero();
    let mut h = Monto::cero();
    let mut i: usize = 0;
    while i < lineas.len()
        invariant
            i <= lineas.len(),
            s == vista_lineas(lineas@),
            montos_validos(s),
            suma_debe(s.take(i as int)) == Some(d),
            suma_haber(s.take(i as int)) == Some(h),
            d.valido(),
            h.valido(),
        decreases lineas.len() - i,
    {
        proof {
            assert(s.take(i + 1).drop_last() =~= s.take(i as int));
            assert(s.take(i + 1).last() == s[i as int]);
            assert(s[i as int] == vista_linea(lineas@[i as int]));
        }
        let nd = sumar(d, lineas[i].debe);
        let nh = sumar(h, lineas[i].haber);
        match (nd, nh) {
            (Some(a), Some(b)) => {
                d = a;
                h = b;
            },
            _ => {
                proof {
                    lema_prefijo_none(s, i as int + 1);
                }
                return None;
            },
        }
        i = i + 1;
    }
    proof {
        assert(s.take(i as int) =~= s);
    }
    Some((d, h))
}

proof fn lema_prefijo_none(s: Seq<(Seq<char>, Monto, Monto)>, k: int)
    requires
        0 <= k <= s.len(),
        suma_debe(s.take(k)) is None || suma_haber(s.take(k)) is None,
    ensures
        suma_debe(s) is None || suma_haber(s) is None,
    decreases s.len() - k,
{
    if k < s.len() {
        assert(s.take(k + 1).drop_last() =~= s.take(k));
        lema_prefijo_none(s, k + 1);
    } else {
        assert(s.take(k) =~= s);
    }
}

/// Valida un asiento: al menos dos líneas, cuadrado y no vacío. Devuelve el
/// total del debe.
pub fn validar_asiento(lineas: &Vec<Linea>) -> (r: Result<Monto, ErrorAsiento>)
    requires
        montos_validos(vista_lineas(lineas@)),
    ensures
        r == validacion(vista_lineas(lineas@)),
{
    if lineas.len() < 2 {
        return Err(ErrorAsiento::PocasLineas);
    }
    match sumar_lineas(lineas) {
        None => Err(ErrorAsiento::Desbordamiento),
        Some((d, h)) => {
            if !igual(d, h) {
                Err(ErrorAsiento::NoCuadra)
            } else if igual(d, Monto::cero()) {
                Err(ErrorAsiento::Vacio)
            } else {
                Ok(d)
            }
        },
    }
}

/// No se registran asientos en un período cerrado.
pub fn validar_periodo(estado: &str) -> (r: Result<(), ErrorAsiento>)
    ensures
        r is Ok <==> estado@ != "CERRADO"@,
        r is Err ==> r == Err::<(), ErrorAsiento>(ErrorAsiento::PeriodoCerrado),
{
    if mismo_texto(estado, "CERRADO") {
        Err(ErrorAsiento::PeriodoCerrado)
    } else {
        Ok(())
    }
}

/// Líneas del asiento reverso: mismas cuentas con debe y haber invertidos.
pub fn invertir_lineas(lineas: &Vec<Linea>) -> (r: Vec<Linea>)
    ensures
        vista_lineas(r@) == reversa(vista_lineas(lineas@)),
{
    let mut r: Vec<Linea> = Vec::new();
    let mut i: usize = 0;
    while i < lineas.len()
        invariant
            i <= lineas.len(),
            vista_lineas(r@) == reversa(vista_lineas(lineas@)).take(i as int),
        decreases lineas.len() - i,
    {
        let l = &lineas[i];
        let ghost antes = r@;
        r.push(Linea { cuenta: l.cuenta.clone(), debe: l.haber, haber: l.debe });
        proof {
            assert(vista_lineas(r@) =~= vista_lineas(antes).push((l.cuenta@, l.haber, l.debe)));
            assert(reversa(vista_lineas(lineas@)).take(i + 1) =~= reversa(vista_lineas(lineas@)).take(
                i as int,
            ).push((l.cuenta@, l.haber, l.debe)));
        }
        i = i + 1;
    }
    proof {
        assert(reversa(vista_lineas(lineas@)).take(i as int) =~= reversa(vista_lineas(lineas@)));
    }
    r
}

/// Una reversión exige que el asiento no sea él mismo una reversión, que no
/// haya sido reversado y que tenga líneas.
pub fn validar_reversion(origen: &str, ya_reversado: bool, num_lineas: usize) -> (r: Result<
    (),
    ErrorAsiento,
>)
    ensures
        origen@ == "REVERSION"@ ==> r == Err::<(), ErrorAsiento>(ErrorAsiento::ReversionDeReversion),
        origen@ != "REVERSION"@ && ya_reversado ==> r == Err::<(), ErrorAsiento>(
            ErrorAsiento::YaReversado,
        ),
        origen@ != "REVERSION"@ && !ya_reversado && num_lineas == 0 ==> r == Err::<(), ErrorAsiento>(
            ErrorAsiento::SinLineas,
        ),
        origen@ != "REVERSION"@ && !ya_reversado && num_lineas > 0 ==> r is Ok,
{
    if mismo_texto(origen, "REVERSION") {
        Err(ErrorAsiento::ReversionDeReversion)
    } else if ya_reversado {
        Err(ErrorAsiento::YaReversado)
    } else if num_lineas == 0 {
        Err(ErrorAsiento::SinLineas)
    } else {
        Ok(())
    }
}

/// Descripción de una reversión: `Reversión: <original>`, seguida de
/// ` - <motivo>` si el motivo no queda vacío al recortarlo.
pub open spec fn descripcion_de_reversion(original: Seq<char>, motivo: Option<Seq<char>>) -> Seq<char> {
    match motivo {
        Some(m) if recortar(m).len() > 0 => "Reversión: "@ + original + " - "@ + recortar(m),
        _ => "Reversión: "@ + original,
    }
}

/// Descripción del asiento de reversión.
pub fn descripcion_reversion(original: &str, motivo: Option<&str>) -> (r: String)
    ensures
        r@ == descripcion_de_reversion(
            original@,
            match motivo {
                Some(m) => Some(m@),
                None => None,
            },
        ),
{
    let mut r = a_string("Reversión: ");
    r.append(original);
    match motivo {
        Some(m) => {
            let t = recortado(m);
            if caracteres(t.as_str()).len() > 0 {
                r.append(" - ");
                r.append(t.as_str());
            }
        },
        None => {},
    }
    r
}


// ---------------------------------------------------------------------------
// Asientos automáticos
// ---------------------------------------------------------------------------

/// Línea nueva con cuenta, debe y haber.
fn linea(cuenta: &str, debe: Monto, haber: Monto) -> (r: Linea)
    ensures
        vista_linea(r) == (cuenta@, debe, haber),
{
    Linea { cuenta: a_string(cuenta), debe, haber }
}

/// Agrega una línea al final.
fn agregar(v: &mut Vec<Linea>, cuenta: &str, debe: Monto, haber: Monto)
    ensures
        vista_lineas(final(v)@) == vista_lineas(old(v)@).push((cuenta@, debe, haber)),
{
    let l = linea(cuenta, debe, haber);
    v.push(l);
    proof {
        assert(vista_lineas(v@) =~= vista_lineas(old(v)@).push((cuenta@, debe, haber)));
    }
}

/// Asiento de una venta: Caja (o Cuentas por Cobrar si es fiada) por el total
/// contra Ingresos por el subtotal, ITBIS por Pagar si hay ITBIS, y Costo de
/// Ventas contra Inventario si hay costo.
pub open spec fn asiento_venta(subtotal: Monto, itbis: Monto, total: Monto, metodo_pago: Seq<char>, costo: Monto) -> Seq<
    (Seq<char>, Monto, Monto),
> {
    let pago = if metodo_pago == "FIADO"@ {
        "1110 Cuentas por Cobrar"@
    } else {
        "1100 Caja y Bancos"@
    };
    let base = seq![(pago, total, cero()), ("4100 Ingresos por Ventas"@, cero(), subtotal)];
    let con_itbis = if valor_menor(cero(), itbis) {
        base.push(("2100 ITBIS por Pagar"@, cero(), itbis))
    } else {
        base
    };
    if valor_menor(cero(), costo) {
        con_itbis.push(("5050 Costo de Ventas"@, costo, cero())).push(("1200 Inventario"@, cero(), costo))
    } else {
        con_itbis
    }
}

/// Líneas del asiento de una venta.
pub fn lineas_venta(subtotal: Monto, itbis: Monto, total: Monto, metodo_pago: &str, costo: Monto) -> (r: Vec<Linea>)
    requires
        itbis.valido(),
        costo.valido(),
    ensures
        vista_lineas(r@) == asiento_venta(subtotal, itbis, total, metodo_pago@, costo),
{
    let mut v: Vec<Linea> = Vec::new();
    if mismo_texto(metodo_pago, "FIADO") {
        agregar(&mut v, "1110 Cuentas por Cobrar", total, Monto::cero());
    } else {
        agregar(&mut v, "1100 Caja y Bancos", total, Monto::cero());
    }
    agregar(&mut v, "4100 Ingresos por Ventas", Monto::cero(), subtotal);
    if menor(Monto::cero(), itbis) {
        agregar(&mut v, "2100 ITBIS por Pagar", Monto::cero(), itbis);
    }
    if menor(Monto::cero(), costo) {
        agregar(&mut v, "5050 Costo de Ventas", costo, Monto::cero());
        agregar(&mut v, "1200 Inventario", Monto::cero(), costo);
    }
    proof {
        let pago = if metodo_pago@ == "FIADO"@ {
            "1110 Cuentas por Cobrar"@
        } else {
            "1100 Caja y Bancos"@
        };
        assert(seq![(pago, total, cero()), ("4100 Ingresos por Ventas"@, cero(), subtotal)]
            =~= Seq::<(Seq<char>, Monto, Monto)>::empty().push((pago, total, cero())).push(
            ("4100 Ingresos por Ventas"@, cero(), subtotal),
        ));
    }
    v
}

/// Asiento de una compra de contado: Inventario por el subtotal e ITBIS
/// Adelantado (si hay) contra Caja por el total.
pub open spec fn asiento_compra(subtotal: Monto, itbis: Monto, total: Monto) -> Seq<(Seq<char>, Monto, Monto)> {
    let base = seq![("1200 Inventario"@, subtotal, cero())];
    let con_itbis = if valor_menor(cero(), itbis) {
        base.push(("1150 ITBIS Adelantado"@, itbis, cero()))
    } else {
        base
    };
    con_itbis.push(("1100 Caja y Bancos"@, cero(), total))
}

/// Líneas del asiento de una compra.
pub fn lineas_compra(subtotal: Monto, itbis: Monto, total: Monto) -> (r: Vec<Linea>)
    requires
        itbis.valido(),
    ensures
        vista_lineas(r@) == asiento_compra(subtotal, itbis, total),
{
    let mut v: Vec<Linea> = Vec::new();
    agregar(&mut v, "1200 Inventario", subtotal, Monto::cero());
    if menor(Monto::cero(), itbis) {
        agregar(&mut v, "1150 ITBIS Adelantado", itbis, Monto::cero());
    }
    agregar(&mut v, "1100 Caja y Bancos", Monto::cero(), total);
    proof {
        assert(seq![("1200 Inventario"@, subtotal, cero())] =~= Seq::<
            (Seq<char>, Monto, Monto),
        >::empty().push(("1200 Inventario"@, subtotal, cero())));
    }
    v
}

/// Asiento de dos líneas: `debe` contra `haber` por el mismo monto.
pub open spec fn asiento_simple(debe: Seq<char>, haber: Seq<char>, monto: Monto) -> Seq<
    (Seq<char>, Monto, Monto),
> {
    seq![(debe, monto, cero()), (haber, cero(), monto)]
}

fn lineas_simples(debe: &str, haber: &str, monto: Monto) -> (r: Vec<Linea>)
    ensures
        vista_lineas(r@) == asiento_simple(debe@, haber@, monto),
{
    let mut v: Vec<Linea> = Vec::new();
    agregar(&mut v, debe, monto, Monto::cero());
    agregar(&mut v, haber, Monto::cero(), monto);
    proof {
        assert(asiento_simple(debe@, haber@, monto) =~= Seq::<(Seq<char>, Monto, Monto)>::empty().push(
            (debe@, monto, cero()),
        ).push((haber@, cero(), monto)));
    }
    v
}

/// Líneas del asiento de un adelanto de nómina aprobado: Anticipos a
/// Empleados contra Caja.
pub fn lineas_adelanto(monto: Monto) -> (r: Vec<Linea>)
    ensures
        vista_lineas(r@) == asiento_simple("1300 Anticipos a Empleados"@, "1100 Caja y Bancos"@, monto),
{
    lineas_simples("1300 Anticipos a Empleados", "1100 Caja y Bancos", monto)
}

/// Cuenta de gasto según la categoría.
pub open spec fn cuenta_gasto(categoria: Seq<char>) -> Seq<char> {
    if categoria == "ALQUILER"@ {
        "5210 Gasto de Alquiler"@
    } else if categoria == "SERVICIOS"@ {
        "5220 Gasto de Servicios"@
    } else if categoria == "TRANSPORTE"@ {
        "5230 Gasto de Transporte"@
    } else {
        "5290 Otros Gastos Operativos"@
    }
}

/// Líneas del asiento de un gasto operativo: la cuenta de gasto de la
/// categoría contra Caja.
pub fn lineas_gasto(categoria: &str, monto: Monto) -> (r: Vec<Linea>)
    ensures
        vista_lineas(r@) == asiento_simple(cuenta_gasto(categoria@), "1100 Caja y Bancos"@, monto),
{
    if mismo_texto(categoria, "ALQUILER") {
        lineas_simples("5210 Gasto de Alquiler", "1100 Caja y Bancos", monto)
    } else if mismo_texto(categoria, "SERVICIOS") {
        lineas_simples("5220 Gasto de Servicios", "1100 Caja y Bancos", monto)
    } else if mismo_texto(categoria, "TRANSPORTE") {
        lineas_simples("5230 Gasto de Transporte", "1100 Caja y Bancos", monto)
    } else {
        lineas_simples("5290 Otros Gastos Operativos", "1100 Caja y Bancos", monto)
    }
}

/// Líneas del asiento de un abono de cliente: Caja contra Cuentas por Cobrar.
pub fn lineas_abono_cliente(monto: Monto) -> (r: Vec<Linea>)
    ensures
        vista_lineas(r@) == asiento_simple("1100 Caja y Bancos"@, "1110 Cuentas por Cobrar"@, monto),
{
    lineas_simples("1100 Caja y Bancos", "1110 Cuentas por Cobrar", monto)
}

/// Líneas del asiento de un movimiento bancario: un depósito pasa de Caja a
/// Depósitos Bancarios y cualquier otro movimiento al revés.
pub fn lineas_banco(tipo: &str, monto: Monto) -> (r: Vec<Linea>)
    ensures
        tipo@ == "DEPOSITO"@ ==> vista_lineas(r@) == asiento_simple(
            "1160 Depósitos Bancarios"@,
            "1100 Caja y Bancos"@,
            monto,
        ),
        tipo@ != "DEPOSITO"@ ==> vista_lineas(r@) == asiento_simple(
            "1100 Caja y Bancos"@,
            "1160 Depósitos Bancarios"@,
            monto,
        ),
{
    if mismo_texto(tipo, "DEPOSITO") {
        lineas_simples("1160 Depósitos Bancarios", "1100 Caja y Bancos", monto)
    } else {
        lineas_simples("1100 Caja y Bancos", "1160 Depósitos Bancarios", monto)
    }
}

/// Asiento de una corrida de nómina: Gasto de Nómina por el bruto contra Caja
/// por el neto, Retenciones por bruto − neto − adelantos si es positivo, y
/// Anticipos a Empleados por los adelantos descontados si hay.
pub open spec fn asiento_nomina(bruto: Monto, neto: Monto, adelantos: Monto) -> Option<
    Seq<(Seq<char>, Monto, Monto)>,
> {
    match resta_decimal(bruto, neto) {
        None => None,
        Some(x) => match resta_decimal(x, adelantos) {
            None => None,
            Some(ret) => {
                let base = seq![
                    ("5100 Gasto de Nómina"@, bruto, cero()),
                    ("1100 Caja y Bancos"@, cero(), neto),
                ];
                let con_ret = if valor_menor(cero(), ret) {
                    base.push(("2200 Retenciones y Descuentos"@, cero(), ret))
                } else {
                    base
                };
                Some(
                    if valor_menor(cero(), adelantos) {
                        con_ret.push(("1300 Anticipos a Empleados"@, cero(), adelantos))
                    } else {
                        con_ret
                    },
                )
            },
        },
    }
}

/// Las restas del asiento de nómina se hacen sin redondeo.
pub open spec fn nomina_sin_redondeo(bruto: Monto, neto: Monto, adelantos: Monto) -> bool {
    &&& suma_cabe(bruto, neto, true)
    &&& resta_decimal(bruto, neto) matches Some(x) ==> suma_cabe(x, adelantos, true)
}

/// Líneas del asiento de una corrida de nómina; `None` si las retenciones
/// desbordan.
pub fn lineas_nomina(bruto: Monto, neto: Monto, adelantos: Monto) -> (r: Option<Vec<Linea>>)
    requires
        bruto.valido(),
        neto.valido(),
        adelantos.valido(),
    ensures
        match r {
            Some(v) => asiento_nomina(bruto, neto, adelantos) == Some(vista_lineas(v@)),
            None => asiento_nomina(bruto, neto, adelantos) is None,
        },
        // El asiento cuadra cuando las retenciones (bruto − neto − adelantos)
        // y los adelantos no son negativos y las restas no redondean.
        nomina_sin_redondeo(bruto, neto, adelantos) && adelantos.mantisa >= 0 && valor28(bruto)
            - valor28(neto) - valor28(adelantos) >= 0 ==> (r matches Some(v) && debe_exacto(
            vista_lineas(v@),
        ) == haber_exacto(vista_lineas(v@))),
{
    let x = match restar(bruto, neto) {
        Some(x) => x,
        None => return None,
    };
    let ret = match restar(x, adelantos) {
        Some(r) => r,
        None => return None,
    };
    let ghost exacto = nomina_sin_redondeo(bruto, neto, adelantos) && adelantos.mantisa >= 0
        && valor28(bruto) - valor28(neto) - valor28(adelantos) >= 0;
    let mut v: Vec<Linea> = Vec::new();
    agregar(&mut v, "5100 Gasto de Nómina", bruto, Monto::cero());
    agregar(&mut v, "1100 Caja y Bancos", Monto::cero(), neto);
    if menor(Monto::cero(), ret) {
        agregar(&mut v, "2200 Retenciones y Descuentos", Monto::cero(), ret);
    }
    if menor(Monto::cero(), adelantos) {
        agregar(&mut v, "1300 Anticipos a Empleados", Monto::cero(), adelantos);
    }
    proof {
        assert(seq![("5100 Gasto de Nómina"@, bruto, cero()), ("1100 Caja y Bancos"@, cero(), neto)]
            =~= Seq::<(Seq<char>, Monto, Monto)>::empty().push(
            ("5100 Gasto de Nómina"@, bruto, cero()),
        ).push(("1100 Caja y Bancos"@, cero(), neto)));
        if exacto {
            lema_resta_exacta(bruto, neto, x);
            lema_resta_exacta(x, adelantos, ret);
            lema_signo(ret);
            lema_signo(adelantos);
            lema_valor28_cero(cero());
            let a = ("5100 Gasto de Nómina"@, bruto, cero());
            let b = ("1100 Caja y Bancos"@, cero(), neto);
            let c = ("2200 Retenciones y Descuentos"@, cero(), ret);
            let d = ("1300 Anticipos a Empleados"@, cero(), adelantos);
            lema_exacto_dos(a, b);
            lema_exacto_push(seq![a, b], c);
            let con_ret = if valor_menor(cero(), ret) {
                seq![a, b].push(c)
            } else {
                seq![a, b]
            };
            lema_exacto_push(con_ret, d);
            lema_valor28_signo(ret);
            lema_valor28_signo(adelantos);
            let fin = if valor_menor(cero(), adelantos) {
                con_ret.push(d)
            } else {
                con_ret
            };
            assert(vista_lineas(v@) == fin);
            assert(debe_exacto(fin) == haber_exacto(fin));
        }
    }
    Some(v)
}

/// Valor absoluto de un monto (misma escala).
pub open spec fn absoluto(a: Monto) -> Monto {
    if a.mantisa < 0 {
        Monto { mantisa: (-a.mantisa) as i128, escala: a.escala }
    } else {
        a
    }
}

/// Valor absoluto (`Decimal::abs`).
pub fn abs(a: Monto) -> (r: Monto)
    requires
        a.valido(),
    ensures
        r == absoluto(a),
        r.valido(),
{
    if a.mantisa < 0 {
        Monto { mantisa: -a.mantisa, escala: a.escala }
    } else {
        a
    }
}

/// Asiento de un ajuste manual de inventario por `|cantidad| × costo`: un
/// sobrante es Inventario contra Otros Ingresos y una merma es Ajuste de
/// Inventario contra Inventario. Sin asiento si el valor es cero.
pub open spec fn asiento_ajuste(cantidad: Monto, costo: Monto) -> Option<Option<
    Seq<(Seq<char>, Monto, Monto)>,
>> {
    match producto_decimal(absoluto(cantidad), costo) {
        None => None,
        Some(valor) => Some(
            if valor_igual(valor, cero()) {
                None
            } else if valor_menor(cero(), cantidad) {
                Some(asiento_simple("1200 Inventario"@, "4200 Otros Ingresos"@, valor))
            } else {
                Some(asiento_simple("5295 Ajuste de Inventario (Merma)"@, "1200 Inventario"@, valor))
            },
        ),
    }
}

/// Líneas del asiento de un ajuste de inventario; `Ok(None)` si el valor es
/// cero y `Err` si el producto desborda.
pub fn lineas_ajuste(cantidad: Monto, costo: Monto) -> (r: Result<Option<Vec<Linea>>, ErrorAsiento>)
    requires
        cantidad.valido(),
        costo.valido(),
    ensures
        match r {
            Ok(Some(v)) => asiento_ajuste(cantidad, costo) == Some(Some(vista_lineas(v@))),
            Ok(None) => asiento_ajuste(cantidad, costo) == Some(
                None::<Seq<(Seq<char>, Monto, Monto)>>,
            ),
            Err(e) => asiento_ajuste(cantidad, costo) is None && e == ErrorAsiento::Desbordamiento,
        },
{
    let valor = match multiplicar(abs(cantidad), costo) {
        Some(v) => v,
        None => return Err(ErrorAsiento::Desbordamiento),
    };
    if igual(valor, Monto::cero()) {
        return Ok(None);
    }
    if menor(Monto::cero(), cantidad) {
        Ok(Some(lineas_simples("1200 Inventario", "4200 Otros Ingresos", valor)))
    } else {
        Ok(Some(lineas_simples("5295 Ajuste de Inventario (Merma)", "1200 Inventario", valor)))
    }
}

/// Cantidad de asientos generados por cada origen en una sincronización.
#[derive(Clone, Copy, Debug, PartialEq, Eq, Structural)]
pub struct SincronizarResultado {
    pub ventas_procesadas: i64,
    pub compras_procesadas: i64,
    pub nomina_procesada: i64,
    pub gastos_procesados: i64,
    pub adelantos_procesados: i64,
    pub abonos_procesados: i64,
    pub notas_credito_procesadas: i64,
    pub ajustes_procesados: i64,
    pub banco_procesados: i64,
}

impl SincronizarResultado {
    /// Resultado sin asientos generados.
    pub fn nuevo() -> (r: SincronizarResultado)
        ensures
            r == (SincronizarResultado {
                ventas_procesadas: 0,
                compras_procesadas: 0,
                nomina_procesada: 0,
                gastos_procesados: 0,
                adelantos_procesados: 0,
                abonos_procesados: 0,
                notas_credito_procesadas: 0,
                ajustes_procesados: 0,
                banco_procesados: 0,
            }),
    {
        SincronizarResultado {
            ventas_procesadas: 0,
            compras_procesadas: 0,
            nomina_procesada: 0,
            gastos_procesados: 0,
            adelantos_procesados: 0,
            abonos_procesados: 0,
            notas_credito_procesadas: 0,
            ajustes_procesados: 0,
            banco_procesados: 0,
        }
    }
}

/// Total exacto del debe, en unidades de 10^-28.
pub open spec fn debe_exacto(s: Seq<(Seq<char>, Monto, Monto)>) -> int
    decreases s.len(),
{
    if s.len() == 0 {
        0
    } else {
        debe_exacto(s.drop_last()) + valor28(s.last().1)
    }
}

/// Total exacto del haber, en unidades de 10^-28.
pub open spec fn haber_exacto(s: Seq<(Seq<char>, Monto, Monto)>) -> int
    decreases s.len(),
{
    if s.len() == 0 {
        0
    } else {
        haber_exacto(s.drop_last()) + valor28(s.last().2)
    }
}

proof fn lema_exacto_push(s: Seq<(Seq<char>, Monto, Monto)>, x: (Seq<char>, Monto, Monto))
    ensures
        debe_exacto(s.push(x)) == debe_exacto(s) + valor28(x.1),
        haber_exacto(s.push(x)) == haber_exacto(s) + valor28(x.2),
{
    assert(s.push(x).drop_last() =~= s);
}

proof fn lema_exacto_dos(a: (Seq<char>, Monto, Monto), b: (Seq<char>, Monto, Monto))
    ensures
        debe_exacto(seq![a, b]) == valor28(a.1) + valor28(b.1),
        haber_exacto(seq![a, b]) == valor28(a.2) + valor28(b.2),
{
    let e = Seq::<(Seq<char>, Monto, Monto)>::empty();
    assert(seq![a, b] =~= e.push(a).push(b));
    lema_exacto_push(e, a);
    lema_exacto_push(e.push(a), b);
}

/// Saldo exacto (debe menos haber, en unidades de 10^-28) que un asiento deja
/// en la cuenta `c`.
pub open spec fn neto_cuenta(s: Seq<(Seq<char>, Monto, Monto)>, c: Seq<char>) -> int
    decreases s.len(),
{
    if s.len() == 0 {
        0
    } else if s.last().0 == c {
        neto_cuenta(s.drop_last(), c) + valor28(s.last().1) - valor28(s.last().2)
    } else {
        neto_cuenta(s.drop_last(), c)
    }
}

/// Un asiento y su reverso se anulan cuenta por cuenta: juntos dejan saldo
/// cero en cada cuenta.
pub proof fn ley_reversa_anula(s: Seq<(Seq<char>, Monto, Monto)>, c: Seq<char>)
    ensures
        neto_cuenta(s, c) + neto_cuenta(reversa(s), c) == 0,
    decreases s.len(),
{
    if s.len() > 0 {
        assert(reversa(s).drop_last() =~= reversa(s.drop_last()));
        ley_reversa_anula(s.drop_last(), c);
    }
}

/// Las líneas de varios asientos, una tras otra.
pub open spec fn todas_las_lineas(a: Seq<Seq<(Seq<char>, Monto, Monto)>>) -> Seq<(Seq<char>, Monto, Monto)>
    decreases a.len(),
{
    if a.len() == 0 {
        Seq::empty()
    } else {
        todas_las_lineas(a.drop_last()) + a.last()
    }
}

proof fn lema_exacto_concat(s: Seq<(Seq<char>, Monto, Monto)>, t: Seq<(Seq<char>, Monto, Monto)>)
    ensures
        debe_exacto(s + t) == debe_exacto(s) + debe_exacto(t),
        haber_exacto(s + t) == haber_exacto(s) + haber_exacto(t),
    decreases t.len(),
{
    if t.len() == 0 {
        assert(s + t =~= s);
    } else {
        lema_exacto_concat(s, t.drop_last());
        assert((s + t).drop_last() =~= s + t.drop_last());
        assert((s + t).last() == t.last());
    }
}

/// Si cada asiento cuadra (debe igual al haber), todos juntos cuadran: la
/// suma exacta del debe de todas sus líneas es la del haber.
pub proof fn ley_asientos_cuadrados(a: Seq<Seq<(Seq<char>, Monto, Monto)>>)
    requires
        forall|i: int| 0 <= i < a.len() ==> debe_exacto(#[trigger] a[i]) == haber_exacto(a[i]),
    ensures
        debe_exacto(todas_las_lineas(a)) == haber_exacto(todas_las_lineas(a)),
    decreases a.len(),
{
    if a.len() > 0 {
        let p = a.drop_last();
        assert forall|i: int| 0 <= i < p.len() implies debe_exacto(#[trigger] p[i]) == haber_exacto(p[i]) by {
            assert(p[i] == a[i]);
        }
        ley_asientos_cuadrados(p);
        lema_exacto_concat(todas_las_lineas(p), a.last());
        assert(a.last() == a[a.len() - 1]);
    }
}

/// Un asiento de dos líneas siempre cuadra: el mismo monto al debe y al haber.
pub proof fn ley_asiento_simple_cuadra(debe: Seq<char>, haber: Seq<char>, monto: Monto)
    ensures
        debe_exacto(asiento_simple(debe, haber, monto)) == haber_exacto(asiento_simple(debe, haber, monto)),
{
    lema_valor28_cero(cero());
    lema_exacto_dos((debe, monto, cero()), (haber, cero(), monto));
}

/// El asiento de una venta cuadra cuando el total es el subtotal más el
/// ITBIS (no negativo): lo cobrado contra el ingreso y el impuesto, y el
/// costo contra el inventario.
pub proof fn ley_asiento_venta_cuadra(subtotal: Monto, itbis: Monto, total: Monto, metodo_pago: Seq<char>, costo: Monto)
    requires
        itbis.mantisa >= 0,
        valor28(total) == valor28(subtotal) + valor28(itbis),
    ensures
        debe_exacto(asiento_venta(subtotal, itbis, total, metodo_pago, costo)) == haber_exacto(
            asiento_venta(subtotal, itbis, total, metodo_pago, costo),
        ),
{
    lema_signo(itbis);
    lema_signo(costo);
    lema_valor28_cero(cero());
    let pago = if metodo_pago == "FIADO"@ {
        "1110 Cuentas por Cobrar"@
    } else {
        "1100 Caja y Bancos"@
    };
    let base = seq![(pago, total, cero()), ("4100 Ingresos por Ventas"@, cero(), subtotal)];
    lema_exacto_dos((pago, total, cero()), ("4100 Ingresos por Ventas"@, cero(), subtotal));
    let con_itbis = if valor_menor(cero(), itbis) {
        base.push(("2100 ITBIS por Pagar"@, cero(), itbis))
    } else {
        base
    };
    lema_exacto_push(base, ("2100 ITBIS por Pagar"@, cero(), itbis));
    if itbis.mantisa == 0 {
        lema_valor28_cero(itbis);
    }
    assert(debe_exacto(con_itbis) == haber_exacto(con_itbis));
    let a = con_itbis.push(("5050 Costo de Ventas"@, costo, cero()));
    lema_exacto_push(con_itbis, ("5050 Costo de Ventas"@, costo, cero()));
    lema_exacto_push(a, ("1200 Inventario"@, cero(), costo));
}

/// El asiento de una compra cuadra cuando el total es el subtotal más el
/// ITBIS (no negativo).
pub proof fn ley_asiento_compra_cuadra(subtotal: Monto, itbis: Monto, total: Monto)
    requires
        itbis.mantisa >= 0,
        valor28(total) == valor28(subtotal) + valor28(itbis),
    ensures
        debe_exacto(asiento_compra(subtotal, itbis, total)) == haber_exacto(
            asiento_compra(subtotal, itbis, total),
        ),
{
    lema_signo(itbis);
    lema_valor28_cero(cero());
    let e = Seq::<(Seq<char>, Monto, Monto)>::empty();
    let base = seq![("1200 Inventario"@, subtotal, cero())];
    assert(base =~= e.push(("1200 Inventario"@, subtotal, cero())));
    lema_exacto_push(e, ("1200 Inventario"@, subtotal, cero()));
    let con_itbis = if valor_menor(cero(), itbis) {
        base.push(("1150 ITBIS Adelantado"@, itbis, cero()))
    } else {
        base
    };
    lema_exacto_push(base, ("1150 ITBIS Adelantado"@, itbis, cero()));
    if itbis.mantisa == 0 {
        lema_valor28_cero(itbis);
    }
    lema_exacto_push(con_itbis, ("1100 Caja y Bancos"@, cero(), total));
}

/// Líneas de un asiento (por su identificador) en el orden en que vienen.
pub open spec fn lineas_de(lineas: Seq<(u128, Linea)>, id: u128) -> Seq<(Seq<char>, Monto, Monto)>
    decreases lineas.len(),
{
    if lineas.len() == 0 {
        Seq::empty()
    } else if lineas.last().0 == id {
        lineas_de(lineas.drop_last(), id).push(vista_linea(lineas.last().1))
    } else {
        lineas_de(lineas.drop_last(), id)
    }
}

/// Líneas de un asiento, copiadas en orden.
pub fn lineas_del_asiento(lineas: &Vec<(u128, Linea)>, id: u128) -> (r: Vec<Linea>)
    ensures
        vista_lineas(r@) == lineas_de(lineas@, id),
{
    let mut r: Vec<Linea> = Vec::new();
    let mut i: usize = 0;
    while i < lineas.len()
        invariant
            i <= lineas.len(),
            vista_lineas(r@) == lineas_de(lineas@.take(i as int), id),
        decreases lineas.len() - i,
    {
        proof {
            assert(lineas@.take(i + 1).drop_last() =~= lineas@.take(i as int));
            assert(lineas@.take(i + 1).last() == lineas@[i as int]);
        }
        if lineas[i].0 == id {
            let l = &lineas[i].1;
            let copia = Linea { cuenta: a_string(l.cuenta.as_str()), debe: l.debe, haber: l.haber };
            let ghost antes = r@;
            r.push(copia);
            proof {
                assert(vista_lineas(r@) =~= vista_lineas(antes).push(vista_linea(copia)));
            }
        }
        i = i + 1;
    }
    proof {
        assert(lineas@.take(i as int) =~= lineas@);
    }
    r
}

/// Libro diario: a cada asiento (en el orden dado) le tocan sus líneas, en
/// el orden en que vienen.
pub fn agrupar_lineas(asientos: &Vec<u128>, lineas: &Vec<(u128, Linea)>) -> (r: Vec<Vec<Linea>>)
    ensures
        r@.len() == asientos@.len(),
        forall|k: int|
            0 <= k < asientos@.len() ==> vista_lineas(#[trigger] r@[k]@) == lineas_de(
                lineas@,
                asientos@[k],
            ),
{
    let mut r: Vec<Vec<Linea>> = Vec::new();
    let mut k: usize = 0;
    while k < asientos.len()
        invariant
            k <= asientos.len(),
            r@.len() == k,
            forall|j: int| 0 <= j < k ==> vista_lineas(#[trigger] r@[j]@) == lineas_de(lineas@, asientos@[j]),
        decreases asientos.len() - k,
    {
        let grupo = lineas_del_asiento(lineas, asientos[k]);
        r.push(grupo);
        k = k + 1;
    }
    r
}

} // verus!

//! Inventario, compras, caja, bancos, abonos, recepción de órdenes de compra
//! y conduces: las reglas de cada movimiento de stock y de dinero.
use vstd::prelude::*;
use crate::contabilidad::{abs, absoluto};
use crate::dinero::{
    alineada, cociente_decimal, escala_comun, lema_producto_valor28, lema_suma_valor28, pot10,
    producto_cabe, suma_cabe, valor28, dividir, igual, maximo, maximo_spec, menor, multiplicar, producto_decimal,
    resta_decimal, restar, suma_decimal, sumar, valor_igual, valor_menor, Monto,
};
use crate::precios::{cero, itbis_rate, tasa_itbis};
use crate::texto::{a_string, caracteres, mismo_texto, recortado, recortar};

verus! {

/// Errores de inventario, compras, caja y abonos.
#[derive(PartialEq, Eq, Structural, Clone, Copy, Debug)]
pub enum ErrorInventario {
    /// El tipo de movimiento no es ENTRADA, SALIDA ni AJUSTE.
    TipoInvalido,
    /// La cantidad no puede ser cero.
    CantidadCero,
    /// La cantidad debe ser mayor a cero.
    CantidadNoPositiva,
    /// El movimiento dejaría el stock negativo.
    StockInsuficiente,
    /// La compra, conduce u orden no tiene líneas.
    SinLineas,
    /// El concepto es requerido.
    ConceptoVacio,
    /// El nombre es requerido.
    NombreVacio,
    /// El monto debe ser mayor a cero.
    MontoNoPositivo,
    /// El movimiento bancario no es DEPOSITO ni RETIRO.
    TipoBancoInvalido,
    /// La cuenta quedaría con saldo negativo.
    SaldoInsuficiente,
    /// El método de pago no es EFECTIVO, TRANSFERENCIA ni CHEQUE.
    MetodoPagoInvalido,
    /// El proveedor no tiene saldo pendiente.
    SinSaldoPendiente,
    /// El abono supera el saldo pendiente.
    AbonoExcedeSaldo,
    /// Ya hay una sesión de caja abierta.
    CajaYaAbierta,
    /// La orden de compra ya está recibida o cancelada.
    OrdenCerrada,
    /// Se intenta recibir más de lo solicitado.
    RecepcionExcedida,
    /// La cantidad o el costo de una línea son inválidos.
    CantidadOCostoInvalido,
    /// No se ordenan servicios en una orden de compra.
    ServicioEnOrdenCompra,
    /// La venta está anulada.
    VentaAnulada,
    /// La venta no es de entrega diferida.
    VentaSinEntregaDiferida,
    /// La entrega supera lo pendiente de la línea.
    ExcedePendiente,
    /// Un monto desborda la representación decimal.
    Desbordamiento,
}

// ---------------------------------------------------------------------------
// Movimientos de inventario
// ---------------------------------------------------------------------------

/// Tipo de movimiento manual de inventario.
#[derive(PartialEq, Eq, Structural, Clone, Copy, Debug)]
pub enum TipoMovimiento {
    Entrada,
    Salida,
    Ajuste,
}

/// Tipo de movimiento a partir de su nombre.
pub open spec fn tipo_de(t: Seq<char>) -> Option<TipoMovimiento> {
    if t == "ENTRADA"@ {
        Some(TipoMovimiento::Entrada)
    } else if t == "SALIDA"@ {
        Some(TipoMovimiento::Salida)
    } else if t == "AJUSTE"@ {
        Some(TipoMovimiento::Ajuste)
    } else {
        None
    }
}

/// Cantidad con signo de un movimiento: una entrada suma su valor absoluto,
/// una salida lo resta y un ajuste lleva el signo que dio el usuario.
pub open spec fn cantidad_firmada(tipo: TipoMovimiento, cantidad: Monto) -> Monto {
    match tipo {
        TipoMovimiento::Entrada => absoluto(cantidad),
        TipoMovimiento::Salida => Monto {
            mantisa: (-absoluto(cantidad).mantisa) as i128,
            escala: cantidad.escala,
        },
        TipoMovimiento::Ajuste => cantidad,
    }
}

/// Valida un movimiento manual y devuelve su tipo y su cantidad con signo.
pub fn preparar_movimiento(tipo: &str, cantidad: Monto) -> (r: Result<
    (TipoMovimiento, Monto),
    ErrorInventario,
>)
    requires
        cantidad.valido(),
    ensures
        tipo_de(tipo@) is None ==> r == Err::<(TipoMovimiento, Monto), ErrorInventario>(
            ErrorInventario::TipoInvalido,
        ),
        tipo_de(tipo@) is Some && cantidad.mantisa == 0 ==> r == Err::<
            (TipoMovimiento, Monto),
            ErrorInventario,
        >(ErrorInventario::CantidadCero),
        tipo_de(tipo@) is Some && cantidad.mantisa != 0 ==> r == Ok::<
            (TipoMovimiento, Monto),
            ErrorInventario,
        >((tipo_de(tipo@)->Some_0, cantidad_firmada(tipo_de(tipo@)->Some_0, cantidad))),
        r matches Ok(x) ==> x.1.valido(),
{
    let t = if mismo_texto(tipo, "ENTRADA") {
        TipoMovimiento::Entrada
    } else if mismo_texto(tipo, "SALIDA") {
        TipoMovimiento::Salida
    } else if mismo_texto(tipo, "AJUSTE") {
        TipoMovimiento::Ajuste
    } else {
        return Err(ErrorInventario::TipoInvalido);
    };
    if cantidad.es_cero() {
        return Err(ErrorInventario::CantidadCero);
    }
    let firmada = match t {
        TipoMovimiento::Entrada => abs(cantidad),
        TipoMovimiento::Salida => Monto { mantisa: -abs(cantidad).mantisa, escala: cantidad.escala },
        TipoMovimiento::Ajuste => cantidad,
    };
    Ok((t, firmada))
}

/// Stock resultante de aplicar una cantidad con signo; negativo se rechaza.
pub open spec fn stock_tras(actual: Monto, cantidad: Monto) -> Result<Monto, ErrorInventario> {
    match suma_decimal(actual, cantidad) {
        None => Err(ErrorInventario::Desbordamiento),
        Some(n) => if valor_menor(n, cero()) {
            Err(ErrorInventario::StockInsuficiente)
        } else {
            Ok(n)
        },
    }
}

/// Nuevo stock de un producto tras un movimiento.
pub fn aplicar_movimiento(stock_actual: Monto, cantidad: Monto) -> (r: Result<Monto, ErrorInventario>)
    requires
        stock_actual.valido(),
        cantidad.valido(),
    ensures
        r == stock_tras(stock_actual, cantidad),
        r matches Ok(n) ==> n.valido(),
{
    match sumar(stock_actual, cantidad) {
        None => Err(ErrorInventario::Desbordamiento),
        Some(n) => if menor(n, Monto::cero()) {
            Err(ErrorInventario::StockInsuficiente)
        } else {
            Ok(n)
        },
    }
}

// ---------------------------------------------------------------------------
// Compras y gastos
// ---------------------------------------------------------------------------

/// Línea de compra calculada.
#[derive(Clone, Copy, Debug, PartialEq, Eq, Structural)]
pub struct LineaCompra {
    pub subtotal: Monto,
    pub itbis: Monto,
    pub nuevo_stock: Monto,
    pub nuevo_costo: Monto,
}

/// Línea de compra: subtotal = costo × cantidad, ITBIS según el tipo (exento
/// si no se da), nuevo stock = stock + cantidad y costo promedio ponderado
/// `(costo_actual × stock + costo × cantidad) / nuevo_stock` si el nuevo
/// stock es positivo, o el costo de la compra si no.
pub open spec fn linea_compra(
    costo_unitario: Monto,
    cantidad: Monto,
    itbis_tipo: Seq<char>,
    costo_actual: Monto,
    stock_actual: Monto,
) -> Option<LineaCompra> {
    match producto_decimal(costo_unitario, cantidad) {
        None => None,
        Some(sub) => match producto_decimal(sub, tasa_itbis(itbis_tipo)) {
            None => None,
            Some(it) => match suma_decimal(stock_actual, cantidad) {
                None => None,
                Some(ns) => if valor_menor(cero(), ns) {
                    match (producto_decimal(costo_actual, stock_actual), producto_decimal(costo_unitario, cantidad)) {
                        (Some(a), Some(b)) => match suma_decimal(a, b) {
                            None => None,
                            Some(num) => match cociente_decimal(num, ns) {
                                None => None,
                                Some(c) => Some(LineaCompra { subtotal: sub, itbis: it, nuevo_stock: ns, nuevo_costo: c }),
                            },
                        },
                        _ => None,
                    }
                } else {
                    Some(LineaCompra { subtotal: sub, itbis: it, nuevo_stock: ns, nuevo_costo: costo_unitario })
                },
            },
        },
    }
}

/// Una línea de compra: el subtotal es costo × cantidad, el nuevo stock es
/// stock + cantidad, y el nuevo costo es el promedio ponderado por
/// cantidades, el cociente decimal de costo_actual × stock_actual +
/// costo_unitario × cantidad entre el nuevo stock, si éste es positivo; si
/// no, el costo de la compra.
pub proof fn ley_costo_promedio_ponderado(
    costo_unitario: Monto,
    cantidad: Monto,
    itbis_tipo: Seq<char>,
    costo_actual: Monto,
    stock_actual: Monto,
)
    requires
        linea_compra(costo_unitario, cantidad, itbis_tipo, costo_actual, stock_actual) is Some,
    ensures
        ({
            let l = linea_compra(costo_unitario, cantidad, itbis_tipo, costo_actual, stock_actual)->Some_0;
            &&& producto_decimal(costo_unitario, cantidad) == Some(l.subtotal)
            &&& suma_decimal(stock_actual, cantidad) == Some(l.nuevo_stock)
            &&& valor_menor(cero(), l.nuevo_stock) ==> {
                &&& producto_decimal(costo_actual, stock_actual) is Some
                &&& producto_decimal(costo_unitario, cantidad) is Some
                &&& suma_decimal(
                    producto_decimal(costo_actual, stock_actual)->Some_0,
                    producto_decimal(costo_unitario, cantidad)->Some_0,
                ) matches Some(ponderado)
                &&& cociente_decimal(ponderado, l.nuevo_stock) == Some(l.nuevo_costo)
            }
            &&& !valor_menor(cero(), l.nuevo_stock) ==> l.nuevo_costo == costo_unitario
        }),
{
}

/// Tipo de ITBIS de una línea de compra, `EXENTO` si no se indica.
pub open spec fn itbis_compra(tipo: Option<Seq<char>>) -> Seq<char> {
    match tipo {
        Some(t) => t,
        None => "EXENTO"@,
    }
}

/// Calcula una línea de compra; la cantidad debe ser positiva.
pub fn calcular_linea_compra(
    costo_unitario: Monto,
    cantidad: Monto,
    itbis_tipo: Option<&str>,
    costo_actual: Monto,
    stock_actual: Monto,
) -> (r: Result<LineaCompra, ErrorInventario>)
    requires
        costo_unitario.valido(),
        cantidad.valido(),
        costo_actual.valido(),
        stock_actual.valido(),
    ensures
        !valor_menor(cero(), cantidad) ==> r == Err::<LineaCompra, ErrorInventario>(
            ErrorInventario::CantidadNoPositiva,
        ),
        valor_menor(cero(), cantidad) ==> match r {
            Ok(l) => linea_compra(
                costo_unitario,
                cantidad,
                itbis_compra(
                    match itbis_tipo {
                        Some(t) => Some(t@),
                        None => None,
                    },
                ),
                costo_actual,
                stock_actual,
            ) == Some(l),
            Err(e) => e == ErrorInventario::Desbordamiento && linea_compra(
                costo_unitario,
                cantidad,
                itbis_compra(
                    match itbis_tipo {
                        Some(t) => Some(t@),
                        None => None,
                    },
                ),
                costo_actual,
                stock_actual,
            ) is None,
        },
        r matches Ok(l) ==> l.subtotal.valido() && l.itbis.valido() && l.nuevo_stock.valido()
            && l.nuevo_costo.valido(),
        // Promedio ponderado: el nuevo costo es el cociente de un monto que,
        // sin redondeo, vale costo_actual × stock_actual + costo_unitario ×
        // cantidad, entre el nuevo stock.
        r matches Ok(l) ==> (valor_menor(cero(), l.nuevo_stock) ==> exists|ponderado: Monto|
            #[trigger] cociente_decimal(ponderado, l.nuevo_stock) == Some(l.nuevo_costo) && (
            producto_cabe(costo_actual, stock_actual) && producto_cabe(costo_unitario, cantidad)
                && suma_cabe(
                producto_decimal(costo_actual, stock_actual)->Some_0,
                producto_decimal(costo_unitario, cantidad)->Some_0,
                false,
            ) ==> valor28(ponderado) * pot10(28) == valor28(costo_actual) * valor28(stock_actual)
                + valor28(costo_unitario) * valor28(cantidad))),
        r matches Ok(l) ==> (!valor_menor(cero(), l.nuevo_stock) ==> l.nuevo_costo == costo_unitario),
        r matches Ok(l) ==> (suma_cabe(stock_actual, cantidad, false) ==> valor28(l.nuevo_stock)
            == valor28(stock_actual) + valor28(cantidad)),
        // El nuevo stock es la suma exacta cuando cabe a la escala común.
        r matches Ok(l) ==> (suma_cabe(stock_actual, cantidad, false) ==> l.nuevo_stock.vale(
            alineada(stock_actual, escala_comun(stock_actual, cantidad)) + alineada(
                cantidad,
                escala_comun(stock_actual, cantidad),
            ),
            escala_comun(stock_actual, cantidad),
        )),
{
    if !menor(Monto::cero(), cantidad) {
        return Err(ErrorInventario::CantidadNoPositiva);
    }
    let tasa = match itbis_tipo {
        Some(t) => itbis_rate(t),
        None => itbis_rate("EXENTO"),
    };
    let sub = match multiplicar(costo_unitario, cantidad) {
        Some(s) => s,
        None => return Err(ErrorInventario::Desbordamiento),
    };
    let it = match multiplicar(sub, tasa) {
        Some(i) => i,
        None => return Err(ErrorInventario::Desbordamiento),
    };
    let ns = match sumar(stock_actual, cantidad) {
        Some(n) => n,
        None => return Err(ErrorInventario::Desbordamiento),
    };
    let nuevo_costo = if menor(Monto::cero(), ns) {
        let a = match multiplicar(costo_actual, stock_actual) {
            Some(a) => a,
            None => return Err(ErrorInventario::Desbordamiento),
        };
        let b = match multiplicar(costo_unitario, cantidad) {
            Some(b) => b,
            None => return Err(ErrorInventario::Desbordamiento),
        };
        let num = match sumar(a, b) {
            Some(n) => n,
            None => return Err(ErrorInventario::Desbordamiento),
        };
        proof {
            if producto_cabe(costo_actual, stock_actual) && producto_cabe(costo_unitario, cantidad)
                && suma_cabe(a, b, false) {
                lema_producto_valor28(costo_actual, stock_actual, a);
                lema_producto_valor28(costo_unitario, cantidad, b);
                lema_suma_valor28(a, b, num, false);
                assert(valor28(num) * pot10(28) == valor28(a) * pot10(28) + valor28(b) * pot10(28))
                    by (nonlinear_arith)
                    requires
                        valor28(num) == valor28(a) + valor28(b),
                ;
            }
        }
        match dividir(num, ns) {
            Some(c) => c,
            None => return Err(ErrorInventario::Desbordamiento),
        }
    } else {
        costo_unitario
    };
    proof {
        if suma_cabe(stock_actual, cantidad, false) {
            lema_suma_valor28(stock_actual, cantidad, ns, false);
        }
    }
    Ok(LineaCompra { subtotal: sub, itbis: it, nuevo_stock: ns, nuevo_costo })
}

/// Un gasto necesita concepto no vacío y monto positivo; la categoría por
/// omisión es `OTROS`.
pub fn validar_gasto(concepto: &str, monto: Monto, categoria: Option<String>) -> (r: Result<
    String,
    ErrorInventario,
>)
    requires
        monto.valido(),
    ensures
        recortar(concepto@).len() == 0 ==> r == Err::<String, ErrorInventario>(
            ErrorInventario::ConceptoVacio,
        ),
        recortar(concepto@).len() > 0 && !valor_menor(cero(), monto) ==> r == Err::<
            String,
            ErrorInventario,
        >(ErrorInventario::MontoNoPositivo),
        recortar(concepto@).len() > 0 && valor_menor(cero(), monto) ==> (r matches Ok(c) && c@
            == match categoria {
            Some(x) => x@,
            None => "OTROS"@,
        }),
{
    let t = recortado(concepto);
    if caracteres(t.as_str()).len() == 0 {
        return Err(ErrorInventario::ConceptoVacio);
    }
    if !menor(Monto::cero(), monto) {
        return Err(ErrorInventario::MontoNoPositivo);
    }
    match categoria {
        Some(c) => Ok(c),
        None => Ok(a_string("OTROS")),
    }
}

// ---------------------------------------------------------------------------
// Caja y bancos
// ---------------------------------------------------------------------------

/// Saldo de la caja: inicial + ingresos − egresos (cero si no hay
/// movimientos).
pub open spec fn saldo_caja(inicial: Monto, ingresos: Monto, egresos: Monto) -> Option<Monto> {
    match suma_decimal(inicial, ingresos) {
        None => None,
        Some(a) => resta_decimal(a, egresos),
    }
}

/// Saldo actual de la sesión de caja.
pub fn calcular_saldo_caja(inicial: Monto, ingresos: Option<Monto>, egresos: Option<Monto>) -> (r: Result<
    Monto,
    ErrorInventario,
>)
    requires
        inicial.valido(),
        ingresos matches Some(x) ==> x.valido(),
        egresos matches Some(x) ==> x.valido(),
    ensures
        match r {
            Ok(s) => saldo_caja(
                inicial,
                match ingresos {
                    Some(x) => x,
                    None => cero(),
                },
                match egresos {
                    Some(x) => x,
                    None => cero(),
                },
            ) == Some(s) && s.valido(),
            Err(e) => e == ErrorInventario::Desbordamiento && saldo_caja(
                inicial,
                match ingresos {
                    Some(x) => x,
                    None => cero(),
                },
                match egresos {
                    Some(x) => x,
                    None => cero(),
                },
            ) is None,
        },
{
    let i = match ingresos {
        Some(x) => x,
        None => Monto::cero(),
    };
    let e = match egresos {
        Some(x) => x,
        None => Monto::cero(),
    };
    let a = match sumar(inicial, i) {
        Some(a) => a,
        None => return Err(ErrorInventario::Desbordamiento),
    };
    match restar(a, e) {
        Some(s) => Ok(s),
        None => Err(ErrorInventario::Desbordamiento),
    }
}

/// Sólo se abre una caja si no hay otra abierta.
pub fn validar_apertura_caja(hay_sesion_abierta: bool) -> (r: Result<(), ErrorInventario>)
    ensures
        r is Ok <==> !hay_sesion_abierta,
        r is Err ==> r == Err::<(), ErrorInventario>(ErrorInventario::CajaYaAbierta),
{
    if hay_sesion_abierta {
        Err(ErrorInventario::CajaYaAbierta)
    } else {
        Ok(())
    }
}

/// Diferencia del cierre de caja: contado − esperado.
pub fn diferencia_cierre(monto_final: Monto, esperado: Monto) -> (r: Result<Monto, ErrorInventario>)
    requires
        monto_final.valido(),
        esperado.valido(),
    ensures
        match r {
            Ok(d) => resta_decimal(monto_final, esperado) == Some(d),
            Err(e) => e == ErrorInventario::Desbordamiento && resta_decimal(monto_final, esperado)
                is None,
        },
{
    match restar(monto_final, esperado) {
        Some(d) => Ok(d),
        None => Err(ErrorInventario::Desbordamiento),
    }
}

/// Nuevo saldo de una cuenta bancaria: un depósito suma y un retiro resta;
/// el saldo no puede quedar negativo.
pub open spec fn saldo_banco(tipo: Seq<char>, monto: Monto, saldo: Monto) -> Result<Monto, ErrorInventario> {
    if tipo != "DEPOSITO"@ && tipo != "RETIRO"@ {
        Err(ErrorInventario::TipoBancoInvalido)
    } else if !valor_menor(cero(), monto) {
        Err(ErrorInventario::MontoNoPositivo)
    } else {
        let delta = if tipo == "DEPOSITO"@ {
            monto
        } else {
            Monto { mantisa: (-monto.mantisa) as i128, escala: monto.escala }
        };
        match suma_decimal(saldo, delta) {
            None => Err(ErrorInventario::Desbordamiento),
            Some(n) => if valor_menor(n, cero()) {
                Err(ErrorInventario::SaldoInsuficiente)
            } else {
                Ok(n)
            },
        }
    }
}

/// Aplica un movimiento bancario al saldo de la cuenta.
pub fn movimiento_bancario(tipo: &str, monto: Monto, saldo_actual: Monto) -> (r: Result<
    Monto,
    ErrorInventario,
>)
    requires
        monto.valido(),
        saldo_actual.valido(),
    ensures
        r == saldo_banco(tipo@, monto, saldo_actual),
{
    let deposito = mismo_texto(tipo, "DEPOSITO");
    if !deposito && !mismo_texto(tipo, "RETIRO") {
        return Err(ErrorInventario::TipoBancoInvalido);
    }
    if !menor(Monto::cero(), monto) {
        return Err(ErrorInventario::MontoNoPositivo);
    }
    let delta = if deposito {
        monto
    } else {
        Monto { mantisa: -monto.mantisa, escala: monto.escala }
    };
    match sumar(saldo_actual, delta) {
        None => Err(ErrorInventario::Desbordamiento),
        Some(n) => if menor(n, Monto::cero()) {
            Err(ErrorInventario::SaldoInsuficiente)
        } else {
            Ok(n)
        },
    }
}

/// El nombre de un banco es requerido.
pub fn validar_banco(nombre: &str) -> (r: Result<(), ErrorInventario>)
    ensures
        r is Ok <==> recortar(nombre@).len() > 0,
        r is Err ==> r == Err::<(), ErrorInventario>(ErrorInventario::NombreVacio),
{
    let t = recortado(nombre);
    if caracteres(t.as_str()).len() == 0 {
        Err(ErrorInventario::NombreVacio)
    } else {
        Ok(())
    }
}

// ---------------------------------------------------------------------------
// Abonos
// ---------------------------------------------------------------------------

/// Saldo de un cliente tras un abono positivo: saldo − abono, sin bajar de
/// cero.
pub open spec fn saldo_tras_abono(saldo: Monto, monto: Monto) -> Result<Monto, ErrorInventario> {
    if !valor_menor(cero(), monto) {
        Err(ErrorInventario::MontoNoPositivo)
    } else {
        match resta_decimal(saldo, monto) {
            None => Err(ErrorInventario::Desbordamiento),
            Some(d) => Ok(maximo_spec(d, cero())),
        }
    }
}

/// Nuevo saldo pendiente de un cliente tras su abono.
pub fn abono_cliente(saldo_pendiente: Monto, monto: Monto) -> (r: Result<Monto, ErrorInventario>)
    requires
        saldo_pendiente.valido(),
        monto.valido(),
    ensures
        r == saldo_tras_abono(saldo_pendiente, monto),
{
    if !menor(Monto::cero(), monto) {
        return Err(ErrorInventario::MontoNoPositivo);
    }
    match restar(saldo_pendiente, monto) {
        None => Err(ErrorInventario::Desbordamiento),
        Some(d) => Ok(maximo(d, Monto::cero())),
    }
}

/// Método de pago de un abono, `EFECTIVO` por omisión.
pub open spec fn metodo_o_efectivo(m: Option<Seq<char>>) -> Seq<char> {
    match m {
        Some(x) => x,
        None => "EFECTIVO"@,
    }
}

/// Reglas del abono a un proveedor: monto positivo, método válido, saldo
/// pendiente positivo y el abono no mayor que el saldo.
pub open spec fn abono_proveedor_valido(monto: Monto, metodo: Seq<char>, saldo: Monto) -> Result<
    (),
    ErrorInventario,
> {
    if !valor_menor(cero(), monto) {
        Err(ErrorInventario::MontoNoPositivo)
    } else if metodo != "EFECTIVO"@ && metodo != "TRANSFERENCIA"@ && metodo != "CHEQUE"@ {
        Err(ErrorInventario::MetodoPagoInvalido)
    } else if !valor_menor(cero(), saldo) {
        Err(ErrorInventario::SinSaldoPendiente)
    } else if valor_menor(saldo, monto) {
        Err(ErrorInventario::AbonoExcedeSaldo)
    } else {
        Ok(())
    }
}

/// Valida el monto y el método de pago de un abono a proveedor.
pub fn validar_abono_proveedor(monto: Monto, metodo_pago: Option<String>) -> (r: Result<
    String,
    ErrorInventario,
>)
    requires
        monto.valido(),
    ensures
        !valor_menor(cero(), monto) ==> r == Err::<String, ErrorInventario>(
            ErrorInventario::MontoNoPositivo,
        ),
        valor_menor(cero(), monto) ==> match r {
            Ok(m) => m@ == metodo_o_efectivo(
                match metodo_pago {
                    Some(x) => Some(x@),
                    None => None,
                },
            ) && (m@ == "EFECTIVO"@ || m@ == "TRANSFERENCIA"@ || m@ == "CHEQUE"@),
            Err(e) => e == ErrorInventario::MetodoPagoInvalido && metodo_o_efectivo(
                match metodo_pago {
                    Some(x) => Some(x@),
                    None => None,
                },
            ) != "EFECTIVO"@ && metodo_o_efectivo(
                match metodo_pago {
                    Some(x) => Some(x@),
                    None => None,
                },
            ) != "TRANSFERENCIA"@ && metodo_o_efectivo(
                match metodo_pago {
                    Some(x) => Some(x@),
                    None => None,
                },
            ) != "CHEQUE"@,
        },
{
    if !menor(Monto::cero(), monto) {
        return Err(ErrorInventario::MontoNoPositivo);
    }
    let m = match metodo_pago {
        Some(x) => x,
        None => a_string("EFECTIVO"),
    };
    if !mismo_texto(m.as_str(), "EFECTIVO") && !mismo_texto(m.as_str(), "TRANSFERENCIA")
        && !mismo_texto(m.as_str(), "CHEQUE") {
        return Err(ErrorInventario::MetodoPagoInvalido);
    }
    Ok(m)
}

/// Valida el abono contra el saldo pendiente del proveedor.
pub fn validar_saldo_proveedor(monto: Monto, saldo_actual: Monto) -> (r: Result<(), ErrorInventario>)
    requires
        monto.valido(),
        saldo_actual.valido(),
    ensures
        !valor_menor(cero(), saldo_actual) ==> r == Err::<(), ErrorInventario>(
            ErrorInventario::SinSaldoPendiente,
        ),
        valor_menor(cero(), saldo_actual) && valor_menor(saldo_actual, monto) ==> r == Err::<
            (),
            ErrorInventario,
        >(ErrorInventario::AbonoExcedeSaldo),
        valor_menor(cero(), saldo_actual) && !valor_menor(saldo_actual, monto) ==> r is Ok,
{
    if !menor(Monto::cero(), saldo_actual) {
        return Err(ErrorInventario::SinSaldoPendiente);
    }
    if menor(saldo_actual, monto) {
        return Err(ErrorInventario::AbonoExcedeSaldo);
    }
    Ok(())
}

// ---------------------------------------------------------------------------
// Órdenes de compra
// ---------------------------------------------------------------------------

/// Línea de una orden de compra: cantidad positiva, costo no negativo y no
/// un servicio.
pub fn validar_linea_orden_compra(cantidad: Monto, costo_unitario: Monto, es_servicio: bool) -> (r: Result<
    (),
    ErrorInventario,
>)
    requires
        cantidad.valido(),
        costo_unitario.valido(),
    ensures
        !valor_menor(cero(), cantidad) || valor_menor(costo_unitario, cero()) ==> r == Err::<
            (),
            ErrorInventario,
        >(ErrorInventario::CantidadOCostoInvalido),
        valor_menor(cero(), cantidad) && !valor_menor(costo_unitario, cero()) && es_servicio ==> r
            == Err::<(), ErrorInventario>(ErrorInventario::ServicioEnOrdenCompra),
        valor_menor(cero(), cantidad) && !valor_menor(costo_unitario, cero()) && !es_servicio ==> r
            is Ok,
{
    if !menor(Monto::cero(), cantidad) || menor(costo_unitario, Monto::cero()) {
        return Err(ErrorInventario::CantidadOCostoInvalido);
    }
    if es_servicio {
        return Err(ErrorInventario::ServicioEnOrdenCompra);
    }
    Ok(())
}

/// Una orden de compra recibida o cancelada no admite recepciones.
pub fn validar_recepcion(num_lineas: usize, estado: &str) -> (r: Result<(), ErrorInventario>)
    ensures
        num_lineas == 0 ==> r == Err::<(), ErrorInventario>(ErrorInventario::SinLineas),
        num_lineas > 0 && (estado@ == "RECIBIDA"@ || estado@ == "CANCELADA"@) ==> r == Err::<
            (),
            ErrorInventario,
        >(ErrorInventario::OrdenCerrada),
        num_lineas > 0 && estado@ != "RECIBIDA"@ && estado@ != "CANCELADA"@ ==> r is Ok,
{
    if num_lineas == 0 {
        return Err(ErrorInventario::SinLineas);
    }
    if mismo_texto(estado, "RECIBIDA") || mismo_texto(estado, "CANCELADA") {
        return Err(ErrorInventario::OrdenCerrada);
    }
    Ok(())
}

/// Cantidad recibida de una línea tras recibir `cantidad` más: positiva y
/// sin pasar de lo solicitado.
pub open spec fn recibida_tras(cantidad: Monto, recibida: Monto, solicitada: Monto) -> Result<
    Monto,
    ErrorInventario,
> {
    if !valor_menor(cero(), cantidad) {
        Err(ErrorInventario::CantidadNoPositiva)
    } else {
        match suma_decimal(recibida, cantidad) {
            None => Err(ErrorInventario::Desbordamiento),
            Some(n) => if valor_menor(solicitada, n) {
                Err(ErrorInventario::RecepcionExcedida)
            } else {
                Ok(n)
            },
        }
    }
}

/// Nueva cantidad recibida de una línea de orden de compra.
pub fn recibir_linea(cantidad: Monto, recibida_previa: Monto, solicitada: Monto) -> (r: Result<
    Monto,
    ErrorInventario,
>)
    requires
        cantidad.valido(),
        recibida_previa.valido(),
        solicitada.valido(),
    ensures
        r == recibida_tras(cantidad, recibida_previa, solicitada),
{
    if !menor(Monto::cero(), cantidad) {
        return Err(ErrorInventario::CantidadNoPositiva);
    }
    match sumar(recibida_previa, cantidad) {
        None => Err(ErrorInventario::Desbordamiento),
        Some(n) => if menor(solicitada, n) {
            Err(ErrorInventario::RecepcionExcedida)
        } else {
            Ok(n)
        },
    }
}

/// Estado de la orden tras una recepción: `RECIBIDA` si no quedan líneas
/// pendientes, `RECIBIDA_PARCIAL` si quedan.
pub fn estado_tras_recepcion(pendientes: i64) -> (r: String)
    ensures
        pendientes == 0 ==> r@ == "RECIBIDA"@,
        pendientes != 0 ==> r@ == "RECIBIDA_PARCIAL"@,
{
    if pendientes == 0 {
        a_string("RECIBIDA")
    } else {
        a_string("RECIBIDA_PARCIAL")
    }
}

/// Una orden de compra se cancela salvo que ya esté recibida o cancelada.
pub fn puede_cancelar_orden_compra(estado: &str) -> (r: bool)
    ensures
        r == (estado@ != "RECIBIDA"@ && estado@ != "CANCELADA"@),
{
    !mismo_texto(estado, "RECIBIDA") && !mismo_texto(estado, "CANCELADA")
}

// ---------------------------------------------------------------------------
// Conduces
// ---------------------------------------------------------------------------

/// Una entrega ligada a una venta exige que no esté anulada y que sea de
/// entrega diferida.
pub fn validar_venta_para_conduce(estado: &str, entrega_diferida: bool) -> (r: Result<
    (),
    ErrorInventario,
>)
    ensures
        estado@ == "ANULADA"@ ==> r == Err::<(), ErrorInventario>(ErrorInventario::VentaAnulada),
        estado@ != "ANULADA"@ && !entrega_diferida ==> r == Err::<(), ErrorInventario>(
            ErrorInventario::VentaSinEntregaDiferida,
        ),
        estado@ != "ANULADA"@ && entrega_diferida ==> r is Ok,
{
    if mismo_texto(estado, "ANULADA") {
        return Err(ErrorInventario::VentaAnulada);
    }
    if !entrega_diferida {
        return Err(ErrorInventario::VentaSinEntregaDiferida);
    }
    Ok(())
}

/// Entrega de una línea de venta: cantidad positiva, no mayor que lo
/// pendiente (cantidad − entregada) ni que el stock.
pub open spec fn entrega_valida(cantidad: Monto, vendida: Monto, entregada: Monto, stock: Monto) -> Result<
    (),
    ErrorInventario,
> {
    if !valor_menor(cero(), cantidad) {
        Err(ErrorInventario::CantidadNoPositiva)
    } else {
        match resta_decimal(vendida, entregada) {
            None => Err(ErrorInventario::Desbordamiento),
            Some(p) => if valor_menor(p, cantidad) {
                Err(ErrorInventario::ExcedePendiente)
            } else if valor_menor(stock, cantidad) {
                Err(ErrorInventario::StockInsuficiente)
            } else {
                Ok(())
            },
        }
    }
}

/// Valida la entrega de una línea de venta en un conduce.
pub fn validar_entrega(cantidad: Monto, vendida: Monto, entregada: Monto, stock: Monto) -> (r: Result<
    (),
    ErrorInventario,
>)
    requires
        cantidad.valido(),
        vendida.valido(),
        entregada.valido(),
        stock.valido(),
    ensures
        r == entrega_valida(cantidad, vendida, entregada, stock),
{
    if !menor(Monto::cero(), cantidad) {
        return Err(ErrorInventario::CantidadNoPositiva);
    }
    match restar(vendida, entregada) {
        None => Err(ErrorInventario::Desbordamiento),
        Some(p) => if menor(p, cantidad) {
            Err(ErrorInventario::ExcedePendiente)
        } else if menor(stock, cantidad) {
            Err(ErrorInventario::StockInsuficiente)
        } else {
            Ok(())
        },
    }
}

/// Línea de un conduce sin venta: cantidad positiva y, para un producto que
/// mueve stock, stock suficiente. Devuelve si la línea mueve stock.
pub fn validar_linea_conduce(cantidad: Monto, stock: Monto, es_servicio: bool) -> (r: Result<
    bool,
    ErrorInventario,
>)
    requires
        cantidad.valido(),
        stock.valido(),
    ensures
        !valor_menor(cero(), cantidad) ==> r == Err::<bool, ErrorInventario>(
            ErrorInventario::CantidadNoPositiva,
        ),
        valor_menor(cero(), cantidad) && !es_servicio && valor_menor(stock, cantidad) ==> r == Err::<
            bool,
            ErrorInventario,
        >(ErrorInventario::StockInsuficiente),
        valor_menor(cero(), cantidad) && (es_servicio || !valor_menor(stock, cantidad)) ==> r == Ok::<
            bool,
            ErrorInventario,
        >(!es_servicio),
{
    if !menor(Monto::cero(), cantidad) {
        return Err(ErrorInventario::CantidadNoPositiva);
    }
    let mueve = !es_servicio;
    if mueve && menor(stock, cantidad) {
        return Err(ErrorInventario::StockInsuficiente);
    }
    Ok(mueve)
}

} // verus!

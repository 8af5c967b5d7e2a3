//! Precios de las líneas de venta, cotización y orden de servicio; totales,
//! ITBIS, descuentos, crédito y los requisitos de identificación del e-CF.
use vstd::prelude::*;
use crate::dinero::{
    maximo_spec, menor, multiplicar, producto_decimal, resta_decimal, restar, suma_decimal, sumar,
    valor_menor, Monto,
};
use crate::texto::{caracteres, mismo_texto, recortado, recortar};

verus! {

/// Errores del cálculo de una venta, cotización u orden.
#[derive(PartialEq, Eq, Structural, Clone, Copy, Debug)]
pub enum ErrorVenta {
    /// La venta o cotización no tiene líneas.
    SinLineas,
    /// Una venta fiada necesita cliente.
    FiadoSinCliente,
    /// La cantidad debe ser mayor a cero.
    CantidadNoPositiva,
    /// Un servicio necesita precio unitario en la línea.
    FaltaPrecioServicio,
    /// El precio unitario de un servicio debe ser mayor a cero.
    PrecioServicioInvalido,
    /// No hay stock suficiente.
    StockInsuficiente,
    /// El descuento es negativo o mayor que el bruto de la línea.
    DescuentoInvalido,
    /// Un monto desborda la representación decimal.
    Desbordamiento,
    /// La venta fiada excede el límite de crédito del cliente.
    LimiteCreditoExcedido,
    /// La venta ya fue anulada por una nota de crédito.
    VentaYaAnulada,
    /// El documento no admite cambios en su estado actual.
    NoEditable,
}

/// `Decimal::ZERO`.
pub open spec fn cero() -> Monto {
    Monto { mantisa: 0, escala: 0 }
}

/// Tasa de ITBIS según el tipo del producto.
pub open spec fn tasa_itbis(tipo: Seq<char>) -> Monto {
    if tipo == "GRAVADO_18"@ {
        Monto { mantisa: 18, escala: 2 }
    } else if tipo == "GRAVADO_16"@ {
        Monto { mantisa: 16, escala: 2 }
    } else {
        cero()
    }
}

/// Tasa de ITBIS: 18 %, 16 % o exento.
pub fn itbis_rate(tipo: &str) -> (r: Monto)
    ensures
        r == tasa_itbis(tipo@),
        r.valido(),
{
    if mismo_texto(tipo, "GRAVADO_18") {
        Monto { mantisa: 18, escala: 2 }
    } else if mismo_texto(tipo, "GRAVADO_16") {
        Monto { mantisa: 16, escala: 2 }
    } else {
        Monto { mantisa: 0, escala: 0 }
    }
}

/// Precio unitario de una línea: el de la línea para un servicio (obligatorio
/// y positivo), el de catálogo (cero si no tiene) para un producto, cuyo stock
/// se verifica si se da.
pub open spec fn precio_linea(
    es_servicio: bool,
    precio_catalogo: Option<Monto>,
    precio_unitario: Option<Monto>,
    stock: Option<Monto>,
    cantidad: Monto,
) -> Result<Monto, ErrorVenta> {
    if es_servicio {
        match precio_unitario {
            None => Err(ErrorVenta::FaltaPrecioServicio),
            Some(p) => if !valor_menor(cero(), p) {
                Err(ErrorVenta::PrecioServicioInvalido)
            } else {
                Ok(p)
            },
        }
    } else {
        match stock {
            Some(s) if valor_menor(s, cantidad) => Err(ErrorVenta::StockInsuficiente),
            _ => Ok(
                match precio_catalogo {
                    Some(p) => p,
                    None => cero(),
                },
            ),
        }
    }
}

/// Montos de una línea.
#[derive(Clone, Copy, Debug, PartialEq, Eq, Structural)]
pub struct LineaCalculada {
    pub precio: Monto,
    pub bruto: Monto,
    pub descuento: Monto,
    pub subtotal: Monto,
    pub itbis: Monto,
}

/// Cálculo de una línea: bruto = precio × cantidad; el descuento (cero si no
/// se da) debe estar entre cero y el bruto; subtotal = bruto − descuento;
/// ITBIS = subtotal × tasa.
pub open spec fn calculo_linea(precio: Monto, cantidad: Monto, descuento: Option<Monto>, tasa: Monto) -> Result<
    LineaCalculada,
    ErrorVenta,
> {
    let d = match descuento {
        Some(x) => x,
        None => cero(),
    };
    match producto_decimal(precio, cantidad) {
        None => Err(ErrorVenta::Desbordamiento),
        Some(bruto) => if valor_menor(d, cero()) || valor_menor(bruto, d) {
            Err(ErrorVenta::DescuentoInvalido)
        } else {
            match resta_decimal(bruto, d) {
                None => Err(ErrorVenta::Desbordamiento),
                Some(sub) => match producto_decimal(sub, tasa) {
                    None => Err(ErrorVenta::Desbordamiento),
                    Some(it) => Ok(
                        LineaCalculada { precio, bruto, descuento: d, subtotal: sub, itbis: it },
                    ),
                },
            }
        },
    }
}

/// La cantidad de una línea debe ser mayor que cero.
pub fn validar_cantidad(cantidad: Monto) -> (r: Result<(), ErrorVenta>)
    requires
        cantidad.valido(),
    ensures
        r is Ok <==> valor_menor(cero(), cantidad),
        r matches Err(e) ==> e == ErrorVenta::CantidadNoPositiva,
{
    if menor(Monto::cero(), cantidad) {
        Ok(())
    } else {
        Err(ErrorVenta::CantidadNoPositiva)
    }
}

/// Precio unitario de una línea (ver `precio_linea`).
pub fn precio_de_linea(
    es_servicio: bool,
    precio_catalogo: Option<Monto>,
    precio_unitario: Option<Monto>,
    stock: Option<Monto>,
    cantidad: Monto,
) -> (r: Result<Monto, ErrorVenta>)
    requires
        cantidad.valido(),
        precio_catalogo matches Some(p) ==> p.valido(),
        precio_unitario matches Some(p) ==> p.valido(),
        stock matches Some(s) ==> s.valido(),
    ensures
        r == precio_linea(es_servicio, precio_catalogo, precio_unitario, stock, cantidad),
        r matches Ok(p) ==> p.valido(),
{
    if es_servicio {
        match precio_unitario {
            None => Err(ErrorVenta::FaltaPrecioServicio),
            Some(p) => if !menor(Monto::cero(), p) {
                Err(ErrorVenta::PrecioServicioInvalido)
            } else {
                Ok(p)
            },
        }
    } else {
        match stock {
            Some(s) => {
                if menor(s, cantidad) {
                    return Err(ErrorVenta::StockInsuficiente);
                }
            },
            None => {},
        }
        match precio_catalogo {
            Some(p) => Ok(p),
            None => Ok(Monto::cero()),
        }
    }
}

/// Precio unitario de una línea de orden de servicio: para un servicio, el de
/// la línea si es positivo (si falta o no lo es, falta el precio); para un
/// producto, el de catálogo.
pub open spec fn precio_linea_orden(
    es_servicio: bool,
    precio_catalogo: Option<Monto>,
    precio_unitario: Option<Monto>,
) -> Result<Monto, ErrorVenta> {
    if es_servicio {
        match precio_unitario {
            Some(p) if valor_menor(cero(), p) => Ok(p),
            _ => Err(ErrorVenta::FaltaPrecioServicio),
        }
    } else {
        Ok(
            match precio_catalogo {
                Some(p) => p,
                None => cero(),
            },
        )
    }
}

/// Precio unitario de una línea de orden de servicio.
pub fn precio_de_linea_orden(
    es_servicio: bool,
    precio_catalogo: Option<Monto>,
    precio_unitario: Option<Monto>,
) -> (r: Result<Monto, ErrorVenta>)
    requires
        precio_catalogo matches Some(p) ==> p.valido(),
        precio_unitario matches Some(p) ==> p.valido(),
    ensures
        r == precio_linea_orden(es_servicio, precio_catalogo, precio_unitario),
        r matches Ok(p) ==> p.valido(),
{
    if es_servicio {
        match precio_unitario {
            Some(p) => if menor(Monto::cero(), p) {
                Ok(p)
            } else {
                Err(ErrorVenta::FaltaPrecioServicio)
            },
            None => Err(ErrorVenta::FaltaPrecioServicio),
        }
    } else {
        match precio_catalogo {
            Some(p) => Ok(p),
            None => Ok(Monto::cero()),
        }
    }
}

/// Montos de una línea a partir de su precio, cantidad, descuento y tipo de
/// ITBIS.
pub fn calcular_linea(precio: Monto, cantidad: Monto, descuento: Option<Monto>, itbis_tipo: &str) -> (r: Result<
    LineaCalculada,
    ErrorVenta,
>)
    requires
        precio.valido(),
        cantidad.valido(),
        descuento matches Some(d) ==> d.valido(),
    ensures
        r == calculo_linea(precio, cantidad, descuento, tasa_itbis(itbis_tipo@)),
        r matches Ok(l) ==> l.bruto.valido() && l.descuento.valido() && l.subtotal.valido()
            && l.itbis.valido(),
{
    let tasa = itbis_rate(itbis_tipo);
    let d = match descuento {
        Some(x) => x,
        None => Monto::cero(),
    };
    let bruto = match multiplicar(precio, cantidad) {
        Some(b) => b,
        None => return Err(ErrorVenta::Desbordamiento),
    };
    if menor(d, Monto::cero()) || menor(bruto, d) {
        return Err(ErrorVenta::DescuentoInvalido);
    }
    let sub = match restar(bruto, d) {
        Some(s) => s,
        None => return Err(ErrorVenta::Desbordamiento),
    };
    let it = match multiplicar(sub, tasa) {
        Some(i) => i,
        None => return Err(ErrorVenta::Desbordamiento),
    };
    Ok(LineaCalculada { precio, bruto, descuento: d, subtotal: sub, itbis: it })
}

/// Totales de un documento.
#[derive(Clone, Copy, Debug, PartialEq, Eq, Structural)]
pub struct Totales {
    pub subtotal: Monto,
    pub itbis: Monto,
    pub descuento: Monto,
    pub total: Monto,
}

/// Sumas de subtotales, ITBIS y descuentos de las líneas, acumuladas desde
/// cero en orden.
pub open spec fn sumas_lineas(l: Seq<LineaCalculada>) -> Option<(Monto, Monto, Monto)>
    decreases l.len(),
{
    if l.len() == 0 {
        Some((cero(), cero(), cero()))
    } else {
        match sumas_lineas(l.drop_last()) {
            None => None,
            Some(t) => match (
                suma_decimal(t.0, l.last().subtotal),
                suma_decimal(t.1, l.last().itbis),
                suma_decimal(t.2, l.last().descuento),
            ) {
                (Some(a), Some(b), Some(c)) => Some((a, b, c)),
                _ => None,
            },
        }
    }
}

/// Totales de las líneas: las sumas y el total = subtotal + ITBIS.
pub open spec fn totales_de(l: Seq<LineaCalculada>) -> Option<Totales> {
    match sumas_lineas(l) {
        None => None,
        Some(t) => match suma_decimal(t.0, t.1) {
            None => None,
            Some(total) => Some(Totales { subtotal: t.0, itbis: t.1, descuento: t.2, total }),
        },
    }
}

/// Las líneas tienen montos válidos.
pub open spec fn lineas_validas(l: Seq<LineaCalculada>) -> bool {
    forall|i: int|
        0 <= i < l.len() ==> (#[trigger] l[i]).subtotal.valido() && l[i].itbis.valido()
            && l[i].descuento.valido()
}

/// Totales de un documento a partir de sus líneas.
pub fn calcular_totales(lineas: &Vec<LineaCalculada>) -> (r: Result<Totales, ErrorVenta>)
    requires
        lineas_validas(lineas@),
    ensures
        r matches Ok(t) ==> totales_de(lineas@) == Some(t) && t.subtotal.valido()
            && t.itbis.valido() && t.descuento.valido() && t.total.valido(),
        r matches Err(e) ==> totales_de(lineas@) is None && e == ErrorVenta::Desbordamiento,
{
    let mut sub = Monto::cero();
    let mut itb = Monto::cero();
    let mut des = Monto::cero();
    let mut i: usize = 0;
    while i < lineas.len()
        invariant
            i <= lineas.len(),
            lineas_validas(lineas@),
            sumas_lineas(lineas@.take(i as int)) == Some((sub, itb, des)),
            sub.valido(),
            itb.valido(),
            des.valido(),
        decreases lineas.len() - i,
    {
        let l = lineas[i];
        proof {
            assert(lineas@.take(i + 1).drop_last() =~= lineas@.take(i as int));
            assert(lineas@.take(i + 1).last() == l);
        }
        let a = sumar(sub, l.subtotal);
        let b = sumar(itb, l.itbis);
        let c = sumar(des, l.descuento);
        match (a, b, c) {
            (Some(a), Some(b), Some(c)) => {
                sub = a;
                itb = b;
                des = c;
            },
            _ => {
                proof {
                    lema_sumas_prefijo_none(lineas@, i as int + 1);
                }
                return Err(ErrorVenta::Desbordamiento);
            },
        }
        i = i + 1;
    }
    proof {
        assert(lineas@.take(i as int) =~= lineas@);
    }
    match sumar(sub, itb) {
        Some(total) => Ok(Totales { subtotal: sub, itbis: itb, descuento: des, total }),
        None => Err(ErrorVenta::Desbordamiento),
    }
}

/// Si un prefijo de las líneas desborda, todas desbordan.
proof fn lema_sumas_prefijo_none(l: Seq<LineaCalculada>, k: int)
    requires
        0 <= k <= l.len(),
        sumas_lineas(l.take(k)) is None,
    ensures
        sumas_lineas(l) is None,
    decreases l.len() - k,
{
    if k < l.len() {
        assert(l.take(k + 1).drop_last() =~= l.take(k));
        lema_sumas_prefijo_none(l, k + 1);
    } else {
        assert(l.take(k) =~= l);
    }
}


// ---------------------------------------------------------------------------
// Reglas de la venta
// ---------------------------------------------------------------------------

/// Datos iniciales de una venta.
#[derive(Clone, Debug)]
pub struct EncabezadoVenta {
    /// Método de pago; `EFECTIVO` si no se indicó.
    pub metodo_pago: String,
    pub es_fiado: bool,
    pub entrega_diferida: bool,
}

/// Encabezado de una venta: exige al menos una línea y, si es fiada, un
/// cliente; el método de pago por omisión es `EFECTIVO` y la entrega
/// diferida por omisión es `false`.
pub fn encabezado_venta(
    num_lineas: usize,
    metodo_pago: Option<String>,
    tiene_cliente: bool,
    entrega_diferida: Option<bool>,
) -> (r: Result<EncabezadoVenta, ErrorVenta>)
    ensures
        num_lineas == 0 ==> r == Err::<EncabezadoVenta, ErrorVenta>(ErrorVenta::SinLineas),
        num_lineas > 0 ==> match r {
            Ok(e) => {
                &&& e.metodo_pago@ == match metodo_pago {
                    Some(m) => m@,
                    None => "EFECTIVO"@,
                }
                &&& e.es_fiado == (e.metodo_pago@ == "FIADO"@)
                &&& !(e.es_fiado && !tiene_cliente)
                &&& e.entrega_diferida == match entrega_diferida {
                    Some(b) => b,
                    None => false,
                }
            },
            Err(err) => err == ErrorVenta::FiadoSinCliente && (match metodo_pago {
                Some(m) => m@,
                None => "EFECTIVO"@,
            }) == "FIADO"@ && !tiene_cliente,
        },
{
    if num_lineas == 0 {
        return Err(ErrorVenta::SinLineas);
    }
    let metodo = match metodo_pago {
        Some(m) => m,
        None => crate::texto::a_string("EFECTIVO"),
    };
    let es_fiado = mismo_texto(metodo.as_str(), "FIADO");
    if es_fiado && !tiene_cliente {
        return Err(ErrorVenta::FiadoSinCliente);
    }
    let diferida = match entrega_diferida {
        Some(b) => b,
        None => false,
    };
    Ok(EncabezadoVenta { metodo_pago: metodo, es_fiado, entrega_diferida: diferida })
}

/// Un negocio que no es de servicios necesita una caja abierta para vender.
pub fn requiere_caja_abierta(tipo_negocio: &str) -> (r: bool)
    ensures
        r == (tipo_negocio@ != "SERVICIOS"@),
{
    !mismo_texto(tipo_negocio, "SERVICIOS")
}

/// La línea descuenta stock al facturar: un producto en una venta sin entrega
/// diferida.
pub fn mueve_stock(es_servicio: bool, entrega_diferida: bool) -> (r: bool)
    ensures
        r == (!es_servicio && !entrega_diferida),
{
    !es_servicio && !entrega_diferida
}

/// Cantidad entregada al facturar: toda, salvo un producto con entrega
/// diferida, que empieza en cero.
pub fn cantidad_entregada_inicial(cantidad: Monto, es_servicio: bool, entrega_diferida: bool) -> (r: Monto)
    ensures
        r == if es_servicio || !entrega_diferida {
            cantidad
        } else {
            cero()
        },
{
    if es_servicio || !entrega_diferida {
        cantidad
    } else {
        Monto::cero()
    }
}

/// Hay que consultar el límite de descuento del usuario: no es `ADMIN`, hay
/// descuento y nadie lo aprobó.
pub fn debe_validar_descuento(rol: &str, descuento_total: Monto, aprobado: bool) -> (r: bool)
    requires
        descuento_total.valido(),
    ensures
        r == (rol@ != "ADMIN"@ && valor_menor(cero(), descuento_total) && !aprobado),
{
    !mismo_texto(rol, "ADMIN") && menor(Monto::cero(), descuento_total) && !aprobado
}

/// El descuento supera el límite sin aprobación del usuario.
pub fn descuento_requiere_aprobacion(descuento_total: Monto, limite: Monto) -> (r: bool)
    requires
        descuento_total.valido(),
        limite.valido(),
    ensures
        r == valor_menor(limite, descuento_total),
{
    menor(limite, descuento_total)
}

/// Una venta fiada no puede llevar el saldo del cliente por encima de su
/// límite de crédito.
pub fn validar_credito(es_fiado: bool, saldo: Monto, total: Monto, limite: Monto) -> (r: Result<
    (),
    ErrorVenta,
>)
    requires
        saldo.valido(),
        total.valido(),
        limite.valido(),
    ensures
        !es_fiado ==> r is Ok,
        es_fiado ==> match suma_decimal(saldo, total) {
            None => r == Err::<(), ErrorVenta>(ErrorVenta::Desbordamiento),
            Some(s) => (r is Ok <==> !valor_menor(limite, s)) && (r is Err ==> r
                == Err::<(), ErrorVenta>(ErrorVenta::LimiteCreditoExcedido)),
        },
{
    if !es_fiado {
        return Ok(());
    }
    match sumar(saldo, total) {
        None => Err(ErrorVenta::Desbordamiento),
        Some(s) => if menor(limite, s) {
            Err(ErrorVenta::LimiteCreditoExcedido)
        } else {
            Ok(())
        },
    }
}

/// Una venta anulada no admite otra nota de crédito.
pub fn validar_nota_credito(estado: &str) -> (r: Result<(), ErrorVenta>)
    ensures
        r is Ok <==> estado@ != "ANULADA"@,
        r is Err ==> r == Err::<(), ErrorVenta>(ErrorVenta::VentaYaAnulada),
{
    if mismo_texto(estado, "ANULADA") {
        Err(ErrorVenta::VentaYaAnulada)
    } else {
        Ok(())
    }
}

/// La nota de crédito devuelve al inventario lo entregado de un producto.
pub fn revierte_stock(cantidad_entregada: Monto, es_servicio: bool) -> (r: bool)
    requires
        cantidad_entregada.valido(),
    ensures
        r == (valor_menor(cero(), cantidad_entregada) && !es_servicio),
{
    menor(Monto::cero(), cantidad_entregada) && !es_servicio
}

/// Una cotización convertida o rechazada no admite cambios.
pub fn cotizacion_editable(estado: &str) -> (r: Result<(), ErrorVenta>)
    ensures
        r is Ok <==> (estado@ != "CONVERTIDA"@ && estado@ != "RECHAZADA"@),
        r is Err ==> r == Err::<(), ErrorVenta>(ErrorVenta::NoEditable),
{
    if mismo_texto(estado, "CONVERTIDA") || mismo_texto(estado, "RECHAZADA") {
        Err(ErrorVenta::NoEditable)
    } else {
        Ok(())
    }
}

/// Una orden de servicio completada o cancelada no admite cambios.
pub fn orden_editable(estado: &str) -> (r: Result<(), ErrorVenta>)
    ensures
        r is Ok <==> (estado@ != "COMPLETADA"@ && estado@ != "CANCELADA"@),
        r is Err ==> r == Err::<(), ErrorVenta>(ErrorVenta::NoEditable),
{
    if mismo_texto(estado, "COMPLETADA") || mismo_texto(estado, "CANCELADA") {
        Err(ErrorVenta::NoEditable)
    } else {
        Ok(())
    }
}

// ---------------------------------------------------------------------------
// Identificación del comprador en el e-CF
// ---------------------------------------------------------------------------

/// Monto desde el cual una factura de consumo exige identificación.
pub open spec fn umbral_rnc() -> Monto {
    Monto { mantisa: 250000, escala: 0 }
}

/// Errores de identificación del comprador.
#[derive(PartialEq, Eq, Structural, Clone, Copy, Debug)]
pub enum ErrorIdentificacion {
    /// El crédito fiscal (tipo 31) requiere RNC del comprador.
    CreditoFiscalSinRnc,
    /// El crédito fiscal (tipo 31) requiere la dirección del comprador.
    CreditoFiscalSinDireccion,
    /// Un consumo (tipo 32) desde el umbral requiere RNC o cédula.
    ConsumoSinIdentificacion,
}

/// El comprador tiene RNC o cédula: no vacío ni `000000000` tras recortar.
pub open spec fn tiene_identificacion(rnc: Option<Seq<char>>) -> bool {
    match rnc {
        Some(r) => recortar(r).len() > 0 && recortar(r) != "000000000"@,
        None => false,
    }
}

/// El comprador tiene dirección no vacía tras recortar.
pub open spec fn tiene_direccion(d: Option<Seq<char>>) -> bool {
    match d {
        Some(x) => recortar(x).len() > 0,
        None => false,
    }
}

/// Requisitos de identificación según el tipo de e-CF y el total.
pub open spec fn identificacion(
    tipo_ecf: i32,
    total: Monto,
    rnc: Option<Seq<char>>,
    direccion: Option<Seq<char>>,
) -> Result<(), ErrorIdentificacion> {
    if tipo_ecf == 31 && !tiene_identificacion(rnc) {
        Err(ErrorIdentificacion::CreditoFiscalSinRnc)
    } else if tipo_ecf == 31 && !tiene_direccion(direccion) {
        Err(ErrorIdentificacion::CreditoFiscalSinDireccion)
    } else if tipo_ecf == 32 && !valor_menor(total, umbral_rnc()) && !tiene_identificacion(rnc) {
        Err(ErrorIdentificacion::ConsumoSinIdentificacion)
    } else {
        Ok(())
    }
}

/// Vista de un texto opcional.
pub open spec fn vista_opcional(s: Option<&str>) -> Option<Seq<char>> {
    match s {
        Some(x) => Some(x@),
        None => None,
    }
}

fn tiene_id(rnc: Option<&str>) -> (r: bool)
    ensures
        r == tiene_identificacion(vista_opcional(rnc)),
{
    match rnc {
        Some(x) => {
            let t = recortado(x);
            caracteres(t.as_str()).len() > 0 && !mismo_texto(t.as_str(), "000000000")
        },
        None => false,
    }
}

fn tiene_dir(d: Option<&str>) -> (r: bool)
    ensures
        r == tiene_direccion(vista_opcional(d)),
{
    match d {
        Some(x) => {
            let t = recortado(x);
            caracteres(t.as_str()).len() > 0
        },
        None => false,
    }
}

/// Verifica que el comprador tenga la identificación que exige el e-CF: el
/// crédito fiscal (31) siempre RNC y dirección; el consumo (32) RNC o cédula
/// desde RD$250,000.
pub fn requiere_identificacion(tipo_ecf: i32, total: Monto, rnc_cedula: Option<&str>, direccion: Option<&str>) -> (r: Result<
    (),
    ErrorIdentificacion,
>)
    requires
        total.valido(),
    ensures
        r == identificacion(tipo_ecf, total, vista_opcional(rnc_cedula), vista_opcional(direccion)),
{
    let con_id = tiene_id(rnc_cedula);
    if tipo_ecf == 31 {
        if !con_id {
            return Err(ErrorIdentificacion::CreditoFiscalSinRnc);
        }
        if !tiene_dir(direccion) {
            return Err(ErrorIdentificacion::CreditoFiscalSinDireccion);
        }
    }
    if tipo_ecf == 32 && !menor(total, Monto { mantisa: 250000, escala: 0 }) && !con_id {
        return Err(ErrorIdentificacion::ConsumoSinIdentificacion);
    }
    Ok(())
}

} // verus!

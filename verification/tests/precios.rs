use fiscal_core::dinero::Monto;
use fiscal_core::precios::{
    calcular_linea, calcular_totales, cantidad_entregada_inicial, cotizacion_editable,
    debe_validar_descuento, descuento_requiere_aprobacion, encabezado_venta, itbis_rate,
    mueve_stock, orden_editable, precio_de_linea, precio_de_linea_orden, requiere_caja_abierta,
    requiere_identificacion, revierte_stock, validar_cantidad, validar_credito,
    validar_nota_credito, ErrorIdentificacion, ErrorVenta, LineaCalculada,
};
use rust_decimal::Decimal;
use std::str::FromStr;

fn m(mantisa: i128, escala: u32) -> Monto {
    Monto { mantisa, escala }
}

fn d(x: Monto) -> Decimal {
    Decimal::from_i128_with_scale(x.mantisa, x.escala)
}

fn dec(s: &str) -> Decimal {
    Decimal::from_str(s).unwrap()
}

#[test]
fn tasas_de_itbis() {
    assert_eq!(d(itbis_rate("GRAVADO_18")), dec("0.18"));
    assert_eq!(d(itbis_rate("GRAVADO_16")), dec("0.16"));
    assert_eq!(d(itbis_rate("EXENTO")), dec("0"));
    assert_eq!(d(itbis_rate("otro")), dec("0"));
}

#[test]
fn linea_con_descuento_e_itbis() {
    // 3 × 150.00 = 450.00; descuento 50 → subtotal 400; ITBIS 18 % = 72.
    let l = calcular_linea(m(15000, 2), m(3, 0), Some(m(50, 0)), "GRAVADO_18").unwrap();
    assert_eq!(d(l.bruto), dec("450"));
    assert_eq!(d(l.descuento), dec("50"));
    assert_eq!(d(l.subtotal), dec("400"));
    assert_eq!(d(l.itbis), dec("72"));
    assert_eq!(l.precio, m(15000, 2));
}

#[test]
fn linea_exenta_sin_descuento() {
    let l = calcular_linea(m(25, 0), m(2, 0), None, "EXENTO").unwrap();
    assert_eq!(d(l.subtotal), dec("50"));
    assert_eq!(d(l.itbis), dec("0"));
    assert_eq!(d(l.descuento), dec("0"));
}

#[test]
fn descuento_invalido() {
    assert_eq!(calcular_linea(m(10, 0), m(1, 0), Some(m(11, 0)), "GRAVADO_18"), Err(ErrorVenta::DescuentoInvalido));
    assert_eq!(calcular_linea(m(10, 0), m(1, 0), Some(m(-1, 0)), "GRAVADO_18"), Err(ErrorVenta::DescuentoInvalido));
    assert!(calcular_linea(m(10, 0), m(1, 0), Some(m(10, 0)), "GRAVADO_18").is_ok());
}

#[test]
fn linea_que_desborda() {
    let max = m(79228162514264337593543950335, 0);
    assert_eq!(calcular_linea(max, m(2, 0), None, "EXENTO"), Err(ErrorVenta::Desbordamiento));
}

#[test]
fn totales_del_documento() {
    let l1 = calcular_linea(m(100, 0), m(2, 0), None, "GRAVADO_18").unwrap();
    let l2 = calcular_linea(m(50, 0), m(1, 0), Some(m(10, 0)), "GRAVADO_16").unwrap();
    let t = calcular_totales(&vec![l1, l2]).unwrap();
    assert_eq!(d(t.subtotal), dec("240"));
    assert_eq!(d(t.itbis), dec("42.4"));
    assert_eq!(d(t.descuento), dec("10"));
    assert_eq!(d(t.total), dec("282.4"));
    let vacio = calcular_totales(&Vec::<LineaCalculada>::new()).unwrap();
    assert_eq!(d(vacio.total), dec("0"));
}

#[test]
fn cantidad_y_precio_de_linea() {
    assert_eq!(validar_cantidad(m(0, 0)), Err(ErrorVenta::CantidadNoPositiva));
    assert_eq!(validar_cantidad(m(1, 3)), Ok(()));
    assert_eq!(precio_de_linea(true, None, None, None, m(1, 0)), Err(ErrorVenta::FaltaPrecioServicio));
    assert_eq!(precio_de_linea(true, None, Some(m(0, 0)), None, m(1, 0)), Err(ErrorVenta::PrecioServicioInvalido));
    assert_eq!(precio_de_linea(true, Some(m(9, 0)), Some(m(5, 0)), None, m(1, 0)), Ok(m(5, 0)));
    assert_eq!(precio_de_linea(false, Some(m(9, 0)), Some(m(5, 0)), Some(m(1, 0)), m(2, 0)), Err(ErrorVenta::StockInsuficiente));
    assert_eq!(precio_de_linea(false, Some(m(9, 0)), None, Some(m(2, 0)), m(2, 0)), Ok(m(9, 0)));
    assert_eq!(precio_de_linea(false, None, None, None, m(2, 0)), Ok(m(0, 0)));
    assert_eq!(precio_de_linea_orden(true, None, Some(m(0, 0))), Err(ErrorVenta::FaltaPrecioServicio));
    assert_eq!(precio_de_linea_orden(true, None, Some(m(7, 0))), Ok(m(7, 0)));
    assert_eq!(precio_de_linea_orden(false, Some(m(3, 0)), Some(m(7, 0))), Ok(m(3, 0)));
}

#[test]
fn encabezado_de_venta() {
    assert_eq!(encabezado_venta(0, None, false, None).err(), Some(ErrorVenta::SinLineas));
    assert_eq!(encabezado_venta(1, Some("FIADO".to_string()), false, None).err(), Some(ErrorVenta::FiadoSinCliente));
    let e = encabezado_venta(2, None, false, None).unwrap();
    assert_eq!(e.metodo_pago, "EFECTIVO");
    assert!(!e.es_fiado && !e.entrega_diferida);
    let f = encabezado_venta(2, Some("FIADO".to_string()), true, Some(true)).unwrap();
    assert!(f.es_fiado && f.entrega_diferida);
}

#[test]
fn reglas_de_stock_y_caja() {
    assert!(requiere_caja_abierta("COLMADO"));
    assert!(!requiere_caja_abierta("SERVICIOS"));
    assert!(mueve_stock(false, false));
    assert!(!mueve_stock(false, true));
    assert!(!mueve_stock(true, false));
    assert_eq!(cantidad_entregada_inicial(m(4, 0), false, true), m(0, 0));
    assert_eq!(cantidad_entregada_inicial(m(4, 0), false, false), m(4, 0));
    assert_eq!(cantidad_entregada_inicial(m(4, 0), true, true), m(4, 0));
    assert!(revierte_stock(m(2, 0), false));
    assert!(!revierte_stock(m(0, 0), false));
    assert!(!revierte_stock(m(2, 0), true));
}

#[test]
fn descuentos_y_credito() {
    assert!(debe_validar_descuento("CAJERO", m(5, 0), false));
    assert!(!debe_validar_descuento("ADMIN", m(5, 0), false));
    assert!(!debe_validar_descuento("CAJERO", m(0, 0), false));
    assert!(!debe_validar_descuento("CAJERO", m(5, 0), true));
    assert!(descuento_requiere_aprobacion(m(101, 0), m(100, 0)));
    assert!(!descuento_requiere_aprobacion(m(100, 0), m(100, 0)));
    assert_eq!(validar_credito(false, m(0, 0), m(1, 0), m(0, 0)), Ok(()));
    assert_eq!(validar_credito(true, m(900, 0), m(100, 0), m(1000, 0)), Ok(()));
    assert_eq!(validar_credito(true, m(900, 0), m(101, 0), m(1000, 0)), Err(ErrorVenta::LimiteCreditoExcedido));
}

#[test]
fn estados_editables() {
    assert_eq!(validar_nota_credito("ANULADA"), Err(ErrorVenta::VentaYaAnulada));
    assert_eq!(validar_nota_credito("COMPLETADA"), Ok(()));
    assert_eq!(cotizacion_editable("CONVERTIDA"), Err(ErrorVenta::NoEditable));
    assert_eq!(cotizacion_editable("RECHAZADA"), Err(ErrorVenta::NoEditable));
    assert_eq!(cotizacion_editable("BORRADOR"), Ok(()));
    assert_eq!(orden_editable("COMPLETADA"), Err(ErrorVenta::NoEditable));
    assert_eq!(orden_editable("CANCELADA"), Err(ErrorVenta::NoEditable));
    assert_eq!(orden_editable("EN_PROCESO"), Ok(()));
}

#[test]
fn identificacion_del_comprador() {
    assert_eq!(requiere_identificacion(31, m(1, 0), None, Some("Calle 1")), Err(ErrorIdentificacion::CreditoFiscalSinRnc));
    assert_eq!(requiere_identificacion(31, m(1, 0), Some("000000000"), Some("Calle 1")), Err(ErrorIdentificacion::CreditoFiscalSinRnc));
    assert_eq!(requiere_identificacion(31, m(1, 0), Some("101010101"), Some("  ")), Err(ErrorIdentificacion::CreditoFiscalSinDireccion));
    assert_eq!(requiere_identificacion(31, m(1, 0), Some("101010101"), Some("Calle 1")), Ok(()));
    assert_eq!(requiere_identificacion(32, m(25000000, 2), None, None), Err(ErrorIdentificacion::ConsumoSinIdentificacion));
    assert_eq!(requiere_identificacion(32, m(24999999, 2), None, None), Ok(()));
    assert_eq!(requiere_identificacion(32, m(300000, 0), Some(" 00112345678 "), None), Ok(()));
    assert_eq!(requiere_identificacion(34, m(999999999, 0), None, None), Ok(()));
}

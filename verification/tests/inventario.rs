use fiscal_core::dinero::Monto;
use fiscal_core::inventario::{
    abono_cliente, aplicar_movimiento, calcular_linea_compra, calcular_saldo_caja,
    diferencia_cierre, estado_tras_recepcion, movimiento_bancario, preparar_movimiento,
    puede_cancelar_orden_compra, recibir_linea, validar_abono_proveedor, validar_apertura_caja,
    validar_banco, validar_entrega, validar_gasto, validar_linea_conduce,
    validar_linea_orden_compra, validar_recepcion, validar_saldo_proveedor,
    validar_venta_para_conduce, ErrorInventario, TipoMovimiento,
};
use rust_decimal::Decimal;
use std::str::FromStr;

fn m(mantisa: i128, escala: u32) -> Monto {
    Monto { mantisa, escala }
}

fn d(x: Monto) -> Decimal {
    Decimal::from_i128_with_scale(x.mantisa, x.escala)
}

fn dec(s: &str) -> Decimal {
    Decimal::from_str(s).unwrap()
}

#[test]
fn movimientos_manuales() {
    assert_eq!(preparar_movimiento("ENTRADA", m(-5, 0)), Ok((TipoMovimiento::Entrada, m(5, 0))));
    assert_eq!(preparar_movimiento("SALIDA", m(5, 0)), Ok((TipoMovimiento::Salida, m(-5, 0))));
    assert_eq!(preparar_movimiento("AJUSTE", m(-2, 1)), Ok((TipoMovimiento::Ajuste, m(-2, 1))));
    assert_eq!(preparar_movimiento("ROBO", m(5, 0)), Err(ErrorInventario::TipoInvalido));
    assert_eq!(preparar_movimiento("ENTRADA", m(0, 2)), Err(ErrorInventario::CantidadCero));
}

#[test]
fn stock_no_queda_negativo() {
    assert_eq!(d(aplicar_movimiento(m(10, 0), m(-4, 0)).unwrap()), dec("6"));
    assert_eq!(d(aplicar_movimiento(m(10, 0), m(-10, 0)).unwrap()), dec("0"));
    assert_eq!(aplicar_movimiento(m(10, 0), m(-11, 0)), Err(ErrorInventario::StockInsuficiente));
}

#[test]
fn costo_promedio_ponderado() {
    // 10 unidades a 5.00 en stock; entran 10 a 7.00 con ITBIS 18 %.
    let l = calcular_linea_compra(m(700, 2), m(10, 0), Some("GRAVADO_18"), m(500, 2), m(10, 0)).unwrap();
    assert_eq!(d(l.subtotal), dec("70"));
    assert_eq!(d(l.itbis), dec("12.6"));
    assert_eq!(d(l.nuevo_stock), dec("20"));
    assert_eq!(d(l.nuevo_costo), dec("6"));
    // Sin ITBIS indicado es exento; con stock negativo previo que no deja
    // stock positivo, el costo es el de la compra.
    let e = calcular_linea_compra(m(3, 0), m(2, 0), None, m(9, 0), m(-5, 0)).unwrap();
    assert_eq!(d(e.itbis), dec("0"));
    assert_eq!(d(e.nuevo_stock), dec("-3"));
    assert_eq!(e.nuevo_costo, m(3, 0));
    assert_eq!(calcular_linea_compra(m(3, 0), m(0, 0), None, m(9, 0), m(1, 0)), Err(ErrorInventario::CantidadNoPositiva));
}

#[test]
fn gastos() {
    assert_eq!(validar_gasto("  ", m(1, 0), None), Err(ErrorInventario::ConceptoVacio));
    assert_eq!(validar_gasto("Luz", m(0, 0), None), Err(ErrorInventario::MontoNoPositivo));
    assert_eq!(validar_gasto("Luz", m(1, 0), None).unwrap(), "OTROS");
    assert_eq!(validar_gasto("Luz", m(1, 0), Some("SERVICIOS".to_string())).unwrap(), "SERVICIOS");
}

#[test]
fn caja() {
    assert_eq!(d(calcular_saldo_caja(m(1000, 0), Some(m(500, 0)), Some(m(200, 0))).unwrap()), dec("1300"));
    assert_eq!(d(calcular_saldo_caja(m(1000, 0), None, None).unwrap()), dec("1000"));
    assert_eq!(validar_apertura_caja(true), Err(ErrorInventario::CajaYaAbierta));
    assert_eq!(validar_apertura_caja(false), Ok(()));
    assert_eq!(d(diferencia_cierre(m(990, 0), m(1000, 0)).unwrap()), dec("-10"));
}

#[test]
fn bancos() {
    assert_eq!(d(movimiento_bancario("DEPOSITO", m(50, 0), m(100, 0)).unwrap()), dec("150"));
    assert_eq!(d(movimiento_bancario("RETIRO", m(100, 0), m(100, 0)).unwrap()), dec("0"));
    assert_eq!(movimiento_bancario("RETIRO", m(101, 0), m(100, 0)), Err(ErrorInventario::SaldoInsuficiente));
    assert_eq!(movimiento_bancario("PRESTAMO", m(1, 0), m(100, 0)), Err(ErrorInventario::TipoBancoInvalido));
    assert_eq!(movimiento_bancario("DEPOSITO", m(0, 0), m(100, 0)), Err(ErrorInventario::MontoNoPositivo));
    assert_eq!(validar_banco(" "), Err(ErrorInventario::NombreVacio));
    assert_eq!(validar_banco("Banreservas"), Ok(()));
}

#[test]
fn abonos() {
    assert_eq!(d(abono_cliente(m(500, 0), m(200, 0)).unwrap()), dec("300"));
    assert_eq!(d(abono_cliente(m(500, 0), m(700, 0)).unwrap()), dec("0"));
    assert_eq!(abono_cliente(m(500, 0), m(0, 0)), Err(ErrorInventario::MontoNoPositivo));
    assert_eq!(validar_abono_proveedor(m(1, 0), None).unwrap(), "EFECTIVO");
    assert_eq!(validar_abono_proveedor(m(1, 0), Some("CHEQUE".to_string())).unwrap(), "CHEQUE");
    assert_eq!(validar_abono_proveedor(m(1, 0), Some("BITCOIN".to_string())), Err(ErrorInventario::MetodoPagoInvalido));
    assert_eq!(validar_abono_proveedor(m(0, 0), None), Err(ErrorInventario::MontoNoPositivo));
    assert_eq!(validar_saldo_proveedor(m(1, 0), m(0, 0)), Err(ErrorInventario::SinSaldoPendiente));
    assert_eq!(validar_saldo_proveedor(m(11, 0), m(10, 0)), Err(ErrorInventario::AbonoExcedeSaldo));
    assert_eq!(validar_saldo_proveedor(m(10, 0), m(10, 0)), Ok(()));
}

#[test]
fn ordenes_de_compra() {
    assert_eq!(validar_linea_orden_compra(m(0, 0), m(1, 0), false), Err(ErrorInventario::CantidadOCostoInvalido));
    assert_eq!(validar_linea_orden_compra(m(1, 0), m(-1, 0), false), Err(ErrorInventario::CantidadOCostoInvalido));
    assert_eq!(validar_linea_orden_compra(m(1, 0), m(0, 0), true), Err(ErrorInventario::ServicioEnOrdenCompra));
    assert_eq!(validar_linea_orden_compra(m(1, 0), m(0, 0), false), Ok(()));
    assert_eq!(validar_recepcion(0, "ENVIADA"), Err(ErrorInventario::SinLineas));
    assert_eq!(validar_recepcion(1, "RECIBIDA"), Err(ErrorInventario::OrdenCerrada));
    assert_eq!(validar_recepcion(1, "CANCELADA"), Err(ErrorInventario::OrdenCerrada));
    assert_eq!(validar_recepcion(1, "ENVIADA"), Ok(()));
    assert_eq!(d(recibir_linea(m(3, 0), m(5, 0), m(10, 0)).unwrap()), dec("8"));
    assert_eq!(recibir_linea(m(6, 0), m(5, 0), m(10, 0)), Err(ErrorInventario::RecepcionExcedida));
    assert_eq!(recibir_linea(m(0, 0), m(5, 0), m(10, 0)), Err(ErrorInventario::CantidadNoPositiva));
    assert_eq!(estado_tras_recepcion(0), "RECIBIDA");
    assert_eq!(estado_tras_recepcion(2), "RECIBIDA_PARCIAL");
    assert!(puede_cancelar_orden_compra("BORRADOR"));
    assert!(!puede_cancelar_orden_compra("RECIBIDA"));
}

#[test]
fn conduces() {
    assert_eq!(validar_venta_para_conduce("ANULADA", true), Err(ErrorInventario::VentaAnulada));
    assert_eq!(validar_venta_para_conduce("COMPLETADA", false), Err(ErrorInventario::VentaSinEntregaDiferida));
    assert_eq!(validar_venta_para_conduce("COMPLETADA", true), Ok(()));
    assert_eq!(validar_entrega(m(2, 0), m(5, 0), m(3, 0), m(10, 0)), Ok(()));
    assert_eq!(validar_entrega(m(3, 0), m(5, 0), m(3, 0), m(10, 0)), Err(ErrorInventario::ExcedePendiente));
    assert_eq!(validar_entrega(m(2, 0), m(5, 0), m(3, 0), m(1, 0)), Err(ErrorInventario::StockInsuficiente));
    assert_eq!(validar_entrega(m(0, 0), m(5, 0), m(3, 0), m(1, 0)), Err(ErrorInventario::CantidadNoPositiva));
    assert_eq!(validar_linea_conduce(m(2, 0), m(1, 0), false), Err(ErrorInventario::StockInsuficiente));
    assert_eq!(validar_linea_conduce(m(2, 0), m(1, 0), true), Ok(false));
    assert_eq!(validar_linea_conduce(m(2, 0), m(5, 0), false), Ok(true));
    assert_eq!(validar_linea_conduce(m(0, 0), m(5, 0), false), Err(ErrorInventario::CantidadNoPositiva));
}

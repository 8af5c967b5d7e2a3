use fiscal_core::contabilidad::{
    abs, agrupar_lineas, descripcion_reversion, invertir_lineas, lineas_abono_cliente,
    lineas_adelanto, lineas_ajuste, lineas_banco, lineas_compra, lineas_gasto, lineas_nomina,
    lineas_venta, validar_asiento, validar_periodo, validar_reversion, ErrorAsiento, Linea,
    SincronizarResultado,
};
use fiscal_core::dinero::Monto;

fn m(mantisa: i128, escala: u32) -> Monto {
    Monto { mantisa, escala }
}

fn linea(cuenta: &str, debe: Monto, haber: Monto) -> Linea {
    Linea { cuenta: cuenta.to_string(), debe, haber }
}

fn vista(v: &[Linea]) -> Vec<(String, Monto, Monto)> {
    v.iter().map(|l| (l.cuenta.clone(), l.debe, l.haber)).collect()
}

fn suma(v: &[Linea]) -> (f64, f64) {
    let f = |x: Monto| x.mantisa as f64 / 10f64.powi(x.escala as i32);
    (v.iter().map(|l| f(l.debe)).sum(), v.iter().map(|l| f(l.haber)).sum())
}

#[test]
fn asiento_valido_devuelve_total() {
    let v = vec![
        linea("1100 Caja y Bancos", m(11800, 2), m(0, 0)),
        linea("4100 Ingresos por Ventas", m(0, 0), m(10000, 2)),
        linea("2100 ITBIS por Pagar", m(0, 0), m(18, 0)),
    ];
    let total = validar_asiento(&v).unwrap();
    assert_eq!(total.mantisa * 10i128.pow(2 - total.escala.min(2)), 11800);
}

#[test]
fn asiento_con_una_linea_se_rechaza() {
    let v = vec![linea("1100 Caja y Bancos", m(100, 0), m(0, 0))];
    assert_eq!(validar_asiento(&v), Err(ErrorAsiento::PocasLineas));
}

#[test]
fn asiento_descuadrado_se_rechaza() {
    let v = vec![linea("1100", m(100, 0), m(0, 0)), linea("4100", m(0, 0), m(9999, 2))];
    assert_eq!(validar_asiento(&v), Err(ErrorAsiento::NoCuadra));
}

#[test]
fn asiento_en_cero_se_rechaza() {
    let v = vec![linea("1100", m(0, 2), m(0, 0)), linea("4100", m(0, 0), m(0, 1))];
    assert_eq!(validar_asiento(&v), Err(ErrorAsiento::Vacio));
}

#[test]
fn reversa_dos_veces_es_el_original() {
    let v = vec![linea("1100", m(500, 0), m(0, 0)), linea("4100", m(0, 0), m(500, 0))];
    let r = invertir_lineas(&v);
    assert_eq!(vista(&r), vec![("1100".to_string(), m(0, 0), m(500, 0)), ("4100".to_string(), m(500, 0), m(0, 0))]);
    assert_eq!(vista(&invertir_lineas(&r)), vista(&v));
}

#[test]
fn reverso_de_asiento_valido_es_valido_con_el_mismo_total() {
    let v = vec![linea("1100", m(12345, 2), m(0, 0)), linea("4100", m(0, 0), m(12345, 2))];
    let r = invertir_lineas(&v);
    assert_eq!(validar_asiento(&v), validar_asiento(&r));
    let malo = vec![linea("1100", m(1, 0), m(0, 0)), linea("4100", m(0, 0), m(2, 0))];
    assert_eq!(validar_asiento(&invertir_lineas(&malo)), Err(ErrorAsiento::NoCuadra));
}

#[test]
fn periodo_cerrado() {
    assert_eq!(validar_periodo("CERRADO"), Err(ErrorAsiento::PeriodoCerrado));
    assert_eq!(validar_periodo("ABIERTO"), Ok(()));
}

#[test]
fn reglas_de_reversion() {
    assert_eq!(validar_reversion("REVERSION", false, 2), Err(ErrorAsiento::ReversionDeReversion));
    assert_eq!(validar_reversion("VENTA", true, 2), Err(ErrorAsiento::YaReversado));
    assert_eq!(validar_reversion("VENTA", false, 0), Err(ErrorAsiento::SinLineas));
    assert_eq!(validar_reversion("VENTA", false, 2), Ok(()));
}

#[test]
fn descripcion_de_reversion() {
    assert_eq!(descripcion_reversion("Venta 1", Some("  error de precio ")), "Reversión: Venta 1 - error de precio");
    assert_eq!(descripcion_reversion("Venta 1", Some("   ")), "Reversión: Venta 1");
    assert_eq!(descripcion_reversion("Venta 1", None), "Reversión: Venta 1");
}

#[test]
fn asiento_de_venta_al_contado_con_costo() {
    let v = lineas_venta(m(10000, 2), m(1800, 2), m(11800, 2), "EFECTIVO", m(60, 0));
    assert_eq!(
        vista(&v),
        vec![
            ("1100 Caja y Bancos".to_string(), m(11800, 2), m(0, 0)),
            ("4100 Ingresos por Ventas".to_string(), m(0, 0), m(10000, 2)),
            ("2100 ITBIS por Pagar".to_string(), m(0, 0), m(1800, 2)),
            ("5050 Costo de Ventas".to_string(), m(60, 0), m(0, 0)),
            ("1200 Inventario".to_string(), m(0, 0), m(60, 0)),
        ]
    );
    let (d, h) = suma(&v);
    assert!((d - h).abs() < 1e-9);
    assert!(validar_asiento(&v).is_ok());
}

#[test]
fn asiento_de_venta_fiada_exenta_sin_costo() {
    let v = lineas_venta(m(500, 0), m(0, 0), m(500, 0), "FIADO", m(0, 0));
    assert_eq!(
        vista(&v),
        vec![
            ("1110 Cuentas por Cobrar".to_string(), m(500, 0), m(0, 0)),
            ("4100 Ingresos por Ventas".to_string(), m(0, 0), m(500, 0)),
        ]
    );
    assert!(validar_asiento(&v).is_ok());
}

#[test]
fn asiento_de_compra_cuadra() {
    let v = lineas_compra(m(1000, 0), m(180, 0), m(1180, 0));
    assert_eq!(
        vista(&v),
        vec![
            ("1200 Inventario".to_string(), m(1000, 0), m(0, 0)),
            ("1150 ITBIS Adelantado".to_string(), m(180, 0), m(0, 0)),
            ("1100 Caja y Bancos".to_string(), m(0, 0), m(1180, 0)),
        ]
    );
    assert!(validar_asiento(&v).is_ok());
    assert_eq!(lineas_compra(m(1000, 0), m(0, 0), m(1000, 0)).len(), 2);
}

#[test]
fn asientos_simples() {
    assert_eq!(
        vista(&lineas_adelanto(m(2000, 0))),
        vec![
            ("1300 Anticipos a Empleados".to_string(), m(2000, 0), m(0, 0)),
            ("1100 Caja y Bancos".to_string(), m(0, 0), m(2000, 0)),
        ]
    );
    assert_eq!(lineas_gasto("ALQUILER", m(1, 0))[0].cuenta, "5210 Gasto de Alquiler");
    assert_eq!(lineas_gasto("SERVICIOS", m(1, 0))[0].cuenta, "5220 Gasto de Servicios");
    assert_eq!(lineas_gasto("TRANSPORTE", m(1, 0))[0].cuenta, "5230 Gasto de Transporte");
    assert_eq!(lineas_gasto("COMIDA", m(1, 0))[0].cuenta, "5290 Otros Gastos Operativos");
    assert_eq!(lineas_abono_cliente(m(3, 0))[1].cuenta, "1110 Cuentas por Cobrar");
    assert_eq!(lineas_banco("DEPOSITO", m(3, 0))[0].cuenta, "1160 Depósitos Bancarios");
    assert_eq!(lineas_banco("RETIRO", m(3, 0))[0].cuenta, "1100 Caja y Bancos");
    for v in [lineas_adelanto(m(7, 1)), lineas_gasto("X", m(7, 1)), lineas_banco("DEPOSITO", m(7, 1))] {
        assert!(validar_asiento(&v).is_ok());
    }
}

#[test]
fn asiento_de_nomina_cuadra() {
    // Bruto 20,000; neto 15,410; adelantos 3,000: retenciones 1,590.
    let v = lineas_nomina(m(20000, 0), m(15410, 0), m(3000, 0)).unwrap();
    assert_eq!(
        vista(&v),
        vec![
            ("5100 Gasto de Nómina".to_string(), m(20000, 0), m(0, 0)),
            ("1100 Caja y Bancos".to_string(), m(0, 0), m(15410, 0)),
            ("2200 Retenciones y Descuentos".to_string(), m(0, 0), m(1590, 0)),
            ("1300 Anticipos a Empleados".to_string(), m(0, 0), m(3000, 0)),
        ]
    );
    assert!(validar_asiento(&v).is_ok());
    let sin_adelanto = lineas_nomina(m(100, 0), m(100, 0), m(0, 0)).unwrap();
    assert_eq!(sin_adelanto.len(), 2);
}

#[test]
fn asiento_de_ajuste_de_inventario() {
    let sobrante = lineas_ajuste(m(2, 0), m(1550, 2)).unwrap().unwrap();
    assert_eq!(sobrante[0].cuenta, "1200 Inventario");
    assert_eq!(sobrante[1].cuenta, "4200 Otros Ingresos");
    assert_eq!(sobrante[0].debe.mantisa, 3100);
    let merma = lineas_ajuste(m(-3, 0), m(10, 0)).unwrap().unwrap();
    assert_eq!(merma[0].cuenta, "5295 Ajuste de Inventario (Merma)");
    assert_eq!(merma[0].debe, m(30, 0));
    assert!(lineas_ajuste(m(5, 0), m(0, 0)).unwrap().is_none());
}

#[test]
fn valor_absoluto() {
    assert_eq!(abs(m(-125, 2)), m(125, 2));
    assert_eq!(abs(m(7, 0)), m(7, 0));
}

#[test]
fn libro_diario_agrupa_por_asiento() {
    let lineas = vec![
        (1u128, linea("1100", m(1, 0), m(0, 0))),
        (2u128, linea("5050", m(2, 0), m(0, 0))),
        (1u128, linea("4100", m(0, 0), m(1, 0))),
    ];
    let g = agrupar_lineas(&vec![2, 1, 3], &lineas);
    assert_eq!(g.len(), 3);
    assert_eq!(vista(&g[0]), vec![("5050".to_string(), m(2, 0), m(0, 0))]);
    assert_eq!(vista(&g[1]), vec![("1100".to_string(), m(1, 0), m(0, 0)), ("4100".to_string(), m(0, 0), m(1, 0))]);
    assert!(g[2].is_empty());
}

#[test]
fn sincronizacion_empieza_en_cero() {
    let r = SincronizarResultado::nuevo();
    assert_eq!(r.ventas_procesadas + r.banco_procesados + r.ajustes_procesados, 0);
}

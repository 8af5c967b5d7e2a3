use fiscal_core::dinero::Monto;
use fiscal_core::ordenes::Fecha;
use fiscal_core::reportes::{
    compra_606_line, csv_escape, date_range_bounds, encabezado_reporte, forma_pago_606,
    period_bounds, texto_fecha_compacta, texto_fecha_guiones, tipo_id_dgii, unir_campos,
    reporte_606, reporte_607, venta_607_line, Compra606, ErrorReporte, Venta607,
};

fn m(mantisa: i128, escala: u32) -> Monto {
    Monto { mantisa, escala }
}

fn compra() -> Compra606 {
    Compra606 {
        rnc: Some("101-01010-1".to_string()),
        ncf: Some("B0100000001".to_string()),
        ncf_modificado: None,
        tipo_bienes_servicios: None,
        fecha: Fecha { anio: 2025, mes: 1, dia: 5 },
        fecha_pago: Some(Fecha { anio: 2025, mes: 1, dia: 20 }),
        monto_servicios: m(0, 0),
        monto_bienes: m(100000, 2),
        itbis_facturado: m(18000, 2),
        itbis_retenido: m(0, 0),
        itbis_proporcionalidad: m(0, 0),
        itbis_costo: m(0, 0),
        tipo_retencion_isr: None,
        monto_retencion_renta: m(0, 0),
        isc: m(0, 0),
        otros_impuestos: m(0, 0),
        propina_legal: m(0, 0),
        metodo_pago: "TRANSFERENCIA".to_string(),
    }
}

#[test]
fn escape_csv() {
    assert_eq!(csv_escape("simple"), "simple");
    assert_eq!(csv_escape("a,b"), "\"a,b\"");
    assert_eq!(csv_escape("dijo \"hola\""), "\"dijo \"\"hola\"\"\"");
    assert_eq!(csv_escape("dos\nlineas"), "\"dos\nlineas\"");
}

#[test]
fn tipo_de_identificacion() {
    assert_eq!(tipo_id_dgii("001-1234567-8"), 2);
    assert_eq!(tipo_id_dgii("101010101"), 1);
    assert_eq!(tipo_id_dgii(""), 1);
}

#[test]
fn forma_de_pago() {
    assert_eq!(forma_pago_606("EFECTIVO"), 1);
    assert_eq!(forma_pago_606("TRANSFERENCIA"), 2);
    assert_eq!(forma_pago_606("TARJETA"), 3);
    assert_eq!(forma_pago_606("FIADO"), 4);
    assert_eq!(forma_pago_606("CHEQUE"), 1);
}

#[test]
fn fechas() {
    let f = Fecha { anio: 2025, mes: 3, dia: 7 };
    assert_eq!(texto_fecha_compacta(f), "20250307");
    assert_eq!(texto_fecha_guiones(f), "07-03-2025");
    assert_eq!(texto_fecha_compacta(Fecha { anio: 987, mes: 12, dia: 31 }), "09871231");
}

#[test]
fn union_de_campos() {
    assert_eq!(unir_campos(&vec!["a".to_string(), "b".to_string(), "c".to_string()], "|"), "a|b|c");
    assert_eq!(unir_campos(&vec![], "|"), "");
}

#[test]
fn encabezado() {
    assert_eq!(encabezado_reporte("101010101", "202501", 3), "101010101|202501|3\n");
}

#[test]
fn linea_607() {
    let f = Fecha { anio: 2025, mes: 1, dia: 9 };
    assert_eq!(
        venta_607_line(None, Some("B0200000007".to_string()), f, m(50000, 2), m(9000, 2), false),
        "000000000|B0200000007|09-01-2025|500.00|90.00|01\n"
    );
    assert_eq!(
        venta_607_line(Some("1,2".to_string()), None, f, m(5, 0), m(0, 0), true),
        "\"1,2\",,09-01-2025,5,0\n"
    );
}

#[test]
fn linea_606() {
    assert_eq!(
        compra_606_line(&compra(), false).unwrap(),
        "101-01010-1|1|9|B0100000001||20250105|20250120|0|1000.00|1000.00|180.00|0|0|0|180.00|0||0|0|0|0|0|2\n"
    );
    assert_eq!(
        compra_606_line(&compra(), true).unwrap(),
        "101-01010-1,1,9,B0100000001,,05-01-2025,20-01-2025,0,1000.00,1000.00,180.00,0,0,0,180.00,,0,0,0,0,2\n"
    );
}

#[test]
fn linea_606_que_desborda() {
    let mut c = compra();
    c.monto_servicios = m(79228162514264337593543950335, 0);
    c.monto_bienes = m(1, 0);
    assert_eq!(compra_606_line(&c, false), Err(ErrorReporte::Desbordamiento));
}

#[test]
fn periodos() {
    assert_eq!(
        period_bounds("202502"),
        Ok((Fecha { anio: 2025, mes: 2, dia: 1 }, Fecha { anio: 2025, mes: 3, dia: 1 }))
    );
    assert_eq!(
        period_bounds("202412"),
        Ok((Fecha { anio: 2024, mes: 12, dia: 1 }, Fecha { anio: 2025, mes: 1, dia: 1 }))
    );
    assert_eq!(period_bounds("202413"), Err(ErrorReporte::PeriodoInvalido));
    assert_eq!(period_bounds("2024-1"), Err(ErrorReporte::PeriodoInvalido));
    assert_eq!(period_bounds("2024"), Err(ErrorReporte::PeriodoInvalido));
    assert_eq!(date_range_bounds(10, 12), Ok((10, 13)));
    assert_eq!(date_range_bounds(12, 10), Err(ErrorReporte::RangoInvertido));
}

#[test]
fn reportes_completos() {
    let l = compra_606_line(&compra(), false).unwrap();
    let r = reporte_606("101010101", "202501", &vec![compra(), compra()]).unwrap();
    assert_eq!(r, format!("101010101|202501|2\n{}{}", l, l));
    assert_eq!(reporte_606("101010101", "202501", &vec![]).unwrap(), "101010101|202501|0\n");
    let mut c = compra();
    c.monto_servicios = m(79228162514264337593543950335, 0);
    c.monto_bienes = m(1, 0);
    assert_eq!(reporte_606("1", "202501", &vec![compra(), c]), Err(ErrorReporte::Desbordamiento));
    let f = Fecha { anio: 2025, mes: 1, dia: 9 };
    let v = Venta607 { rnc: None, ncf: Some("B0200000007".to_string()), fecha: f, monto: m(50000, 2), itbis: m(9000, 2) };
    assert_eq!(
        reporte_607("101010101", "202501", &vec![v]),
        "101010101|202501|1\n000000000|B0200000007|09-01-2025|500.00|90.00|01\n"
    );
}

use fiscal_core::certificados::{aead_decrypt, aead_encrypt, clave_desde_base64, ErrorCertificado};
use fiscal_core::asistente::texto_ventas_periodo;
use fiscal_core::dinero::{maximo, menor_o_igual, Monto};
use fiscal_core::inventario::calcular_linea_compra;
use fiscal_core::precios::{calcular_linea, descuento_requiere_aprobacion, ErrorVenta};
use fiscal_core::estados::{balance_general, estado_resultados, ErrorEstado, SaldoCuenta};
use fiscal_core::ncf::{asignar_ncf, formatear_numero, nueva_secuencia, ErrorSecuencia};
use fiscal_core::nomina::{
    calcular_detalle, disponible_adelanto, sumar_montos, totales_nomina, validar_adelanto,
    validar_empleado, ErrorNomina,
};
use fiscal_core::ordenes::Fecha;
use rust_decimal::Decimal;
use std::str::FromStr;

fn m(mantisa: i128, escala: u32) -> Monto {
    Monto { mantisa, escala }
}

fn d(x: Monto) -> Decimal {
    Decimal::from_i128_with_scale(x.mantisa, x.escala)
}

fn dec(s: &str) -> Decimal {
    Decimal::from_str(s).unwrap()
}

fn fecha(anio: i32, mes: u32, dia: u32) -> Fecha {
    Fecha { anio, mes, dia }
}

// ---- dinero ----

#[test]
fn aritmetica_decimal_exacta() {
    assert_eq!(d(sumar_montos(&vec![m(1005, 2), m(2, 0)]).unwrap()), dec("12.05"));
    let l = calcular_linea(m(15, 1), m(3, 0), Some(m(25, 2)), "EXENTO").unwrap();
    assert_eq!(d(l.bruto), dec("4.5"));
    assert_eq!(d(l.subtotal), dec("4.25"));
    let c = calcular_linea_compra(m(4, 0), m(1, 0), None, m(1, 0), m(1, 0)).unwrap();
    assert_eq!(d(c.nuevo_costo), dec("2.5"));
    assert!(descuento_requiere_aprobacion(m(100, 2), m(99, 2)));
    assert!(!descuento_requiere_aprobacion(m(100, 2), m(1, 0)));
    assert!(menor_o_igual(m(100, 2), m(1, 0)));
    assert_eq!(maximo(m(3, 0), m(300, 2)), m(300, 2));
    assert_eq!(maximo(m(4, 0), m(300, 2)), m(4, 0));
    assert_eq!(texto_ventas_periodo("hoy", Some(m(1180, 2)), 2), "Periodo consultado: hoy. Total vendido: RD$11.80. Cantidad de ventas: 2.");
    assert_eq!(texto_ventas_periodo("hoy", Some(m(-5, 0)), 1), "Periodo consultado: hoy. Total vendido: RD$-5. Cantidad de ventas: 1.");
}

#[test]
fn suma_que_desborda_es_none() {
    let max = m(79228162514264337593543950335, 0);
    assert!(sumar_montos(&vec![max, m(1, 0)]).is_none());
    assert_eq!(calcular_linea(max, m(2, 0), None, "EXENTO"), Err(ErrorVenta::Desbordamiento));
}

// ---- nómina ----

#[test]
fn disponible_es_la_mitad_del_salario() {
    let disp = disponible_adelanto(m(9200, 0), None).unwrap();
    assert_eq!(d(disp), dec("4600"));
    let disp = disponible_adelanto(m(9200, 0), Some(m(1000, 0))).unwrap();
    assert_eq!(d(disp), dec("3600"));
    let disp = disponible_adelanto(m(9200, 0), Some(m(5000, 0))).unwrap();
    assert_eq!(d(disp), dec("0"));
}

#[test]
fn regla_del_50_en_valores_concretos() {
    let salario = m(20000, 0);
    let tomado = m(4000, 0);
    let disp = disponible_adelanto(salario, Some(tomado)).unwrap();
    assert_eq!(d(disp), dec("6000"));
    assert_eq!(validar_adelanto(m(6000, 0), disp), Ok(()));
    assert_eq!(validar_adelanto(m(600001, 2), disp), Err(ErrorNomina::ExcedeDisponible));
    assert_eq!(validar_adelanto(m(0, 0), disp), Err(ErrorNomina::MontoNoPositivo));
    assert_eq!(validar_adelanto(m(-1, 0), disp), Err(ErrorNomina::MontoNoPositivo));
    // Lo tomado más lo aceptado no pasa de la mitad.
    assert!(d(tomado) + dec("6000") <= d(salario) / dec("2"));
}

#[test]
fn empleado_nuevo() {
    assert_eq!(validar_empleado("  ", m(1, 0)), Err(ErrorNomina::NombreVacio));
    assert_eq!(validar_empleado("Ana", m(0, 0)), Err(ErrorNomina::SalarioNoPositivo));
    assert_eq!(validar_empleado("Ana", m(25000, 0)), Ok(()));
}

#[test]
fn detalle_de_nomina() {
    let det = calcular_detalle(m(20000, 0), &vec![m(2000, 0), m(1000, 0)]).unwrap();
    assert_eq!(d(det.tss), dec("1182"));
    assert_eq!(d(det.isr), dec("0"));
    assert_eq!(d(det.adelantos_descuento), dec("3000"));
    assert_eq!(d(det.neto), dec("15818"));
    let t = totales_nomina(&vec![det.clone(), det]).unwrap();
    assert_eq!(d(t.0), dec("40000"));
    assert_eq!(d(t.1), dec("31636"));
    assert_eq!(totales_nomina(&vec![]), Err(ErrorNomina::SinEmpleados));
    assert_eq!(d(sumar_montos(&vec![m(15, 1), m(25, 1)]).unwrap()), dec("4"));
    assert_eq!(d(sumar_montos(&vec![]).unwrap()), dec("0"));
}

// ---- comprobantes ----

#[test]
fn ncf_con_diez_posiciones() {
    let hoy = fecha(2025, 6, 15);
    let (e, f) = asignar_ncf("E31", 42, 100, fecha(2025, 12, 31), hoy).unwrap();
    assert_eq!(e, "E310000000042");
    assert_eq!(f, fecha(2025, 12, 31));
    assert_eq!(formatear_numero(1234567890123), "1234567890123");
    assert_eq!(formatear_numero(-5), "-000000005");
}

#[test]
fn ncf_vencido_o_agotado() {
    let hoy = fecha(2025, 6, 15);
    assert_eq!(asignar_ncf("E31", 1, 10, fecha(2025, 6, 14), hoy), Err(ErrorSecuencia::Vencida));
    assert!(asignar_ncf("E31", 1, 10, fecha(2025, 6, 15), hoy).is_ok());
    assert_eq!(asignar_ncf("E31", 11, 10, fecha(2026, 1, 1), hoy), Err(ErrorSecuencia::Agotada));
    // Vencida tiene prioridad sobre agotada.
    assert_eq!(asignar_ncf("E31", 11, 10, fecha(2024, 1, 1), hoy), Err(ErrorSecuencia::Vencida));
}

#[test]
fn ncf_consecutivos_nunca_se_repiten() {
    let hoy = fecha(2025, 1, 1);
    let mut vistos = std::collections::HashSet::new();
    let mut proximo = nueva_secuencia(1, 500).unwrap();
    while let Ok((e, _)) = asignar_ncf("E32", proximo, 500, fecha(2025, 12, 31), hoy) {
        assert!(vistos.insert(e));
        proximo += 1;
    }
    assert_eq!(vistos.len(), 500);
    assert_eq!(nueva_secuencia(10, 9), Err(ErrorSecuencia::RangoInvertido));
}

// ---- estados financieros ----

fn cuenta(codigo: &str, tipo: Option<&str>, naturaleza: Option<&str>, debe: i128, haber: i128) -> SaldoCuenta {
    SaldoCuenta {
        codigo: codigo.to_string(),
        nombre: format!("Cuenta {}", codigo),
        tipo: tipo.map(String::from),
        naturaleza: naturaleza.map(String::from),
        debe: m(debe, 2),
        haber: m(haber, 2),
    }
}

fn saldos_cuadrados() -> Vec<SaldoCuenta> {
    // Venta de 1,180 (1,000 + ITBIS 180) con costo 600, compra de 500 y un
    // movimiento a una cuenta fuera del plan.
    vec![
        cuenta("1100", Some("ACTIVO"), Some("DEUDORA"), 118000, 50000),
        cuenta("1200", Some("ACTIVO"), Some("DEUDORA"), 50000, 60000),
        cuenta("2100", Some("PASIVO"), Some("ACREEDORA"), 0, 18000),
        cuenta("4100", Some("INGRESO"), Some("ACREEDORA"), 0, 100000),
        cuenta("5050", Some("GASTO"), Some("DEUDORA"), 60000, 0),
        cuenta("5210", Some("GASTO"), Some("DEUDORA"), 2500, 0),
        cuenta("9999", None, None, 0, 2500),
    ]
}

#[test]
fn estado_de_resultados() {
    let e = estado_resultados(&saldos_cuadrados(), fecha(2025, 1, 1), fecha(2025, 1, 31)).unwrap();
    assert_eq!(d(e.ingresos), dec("1000"));
    assert_eq!(d(e.costo_ventas), dec("600"));
    assert_eq!(d(e.utilidad_bruta), dec("400"));
    assert_eq!(d(e.gastos), dec("25"));
    assert_eq!(d(e.resultado), dec("375"));
    assert_eq!(d(e.sin_clasificar), dec("-25"));
    assert_eq!(e.detalle_costo_ventas.len(), 1);
    assert_eq!(e.detalle_costo_ventas[0].codigo, "5050");
    assert_eq!(e.detalle_gastos[0].codigo, "5210");
    assert_eq!(e.detalle_sin_clasificar[0].codigo, "9999");
}

#[test]
fn estado_con_fechas_invertidas() {
    let r = estado_resultados(&saldos_cuadrados(), fecha(2025, 2, 1), fecha(2025, 1, 31));
    assert_eq!(r.err(), Some(ErrorEstado::FechasInvertidas));
}

#[test]
fn balance_de_asientos_cuadrados_cuadra() {
    let b = balance_general(&saldos_cuadrados(), fecha(2025, 1, 31)).unwrap();
    assert_eq!(d(b.activo), dec("580"));
    assert_eq!(d(b.pasivo), dec("180"));
    assert_eq!(d(b.patrimonio), dec("0"));
    assert_eq!(d(b.resultado_acumulado), dec("375"));
    assert_eq!(d(b.sin_clasificar), dec("-25"));
    assert_eq!(d(b.total_pasivo_y_patrimonio), dec("555"));
    assert!(b.cuadra);
    assert_eq!(b.detalle_activo.len(), 2);
}

#[test]
fn balance_descuadrado_se_reporta() {
    let mut s = saldos_cuadrados();
    s.push(cuenta("1100", Some("ACTIVO"), Some("DEUDORA"), 100, 0));
    let b = balance_general(&s, fecha(2025, 1, 31)).unwrap();
    assert!(!b.cuadra);
}

#[test]
fn saldo_que_desborda() {
    let s = vec![SaldoCuenta {
        codigo: "1100".to_string(),
        nombre: "Caja".to_string(),
        tipo: Some("OTRO".to_string()),
        naturaleza: None,
        debe: m(79228162514264337593543950335, 0),
        haber: m(-79228162514264337593543950335, 0),
    }];
    assert_eq!(balance_general(&s, fecha(2025, 1, 1)).err(), Some(ErrorEstado::Desbordamiento));
}

// ---- certificado cifrado ----

#[test]
fn clave_de_cifrado() {
    let k = clave_desde_base64("  AAECAwQFBgcICQoLDA0ODxAREhMUFRYXGBkaGxwdHh8= ").unwrap();
    assert_eq!(k, (0u8..32).collect::<Vec<u8>>());
    assert_eq!(clave_desde_base64("no es base64!"), Err(ErrorCertificado::Base64Invalido));
    assert_eq!(clave_desde_base64("AAEC"), Err(ErrorCertificado::ClaveInvalida));
}

#[test]
fn cifrado_ida_y_vuelta() {
    let clave: Vec<u8> = (0u8..32).collect();
    let (c, n) = aead_encrypt(&clave, b"secreto").unwrap();
    assert_eq!(n.len(), 12);
    assert_eq!(c.len(), 7 + 16);
    assert_ne!(&c[..7], b"secreto");
    assert_eq!(aead_decrypt(&clave, &c, &n).unwrap(), b"secreto");
    let otra: Vec<u8> = (1u8..33).collect();
    assert_eq!(aead_decrypt(&otra, &c, &n), Err(ErrorCertificado::Descifrado));
    assert_eq!(aead_decrypt(&clave, &c[..10], &n), Err(ErrorCertificado::Corrupto));
    assert_eq!(aead_decrypt(&clave, &c, &n[..5]), Err(ErrorCertificado::Corrupto));
}

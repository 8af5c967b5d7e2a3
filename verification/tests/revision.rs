use fiscal_core::archivos::sanitize_filename;
use fiscal_core::auth::{generar_jwt, validar_rnc, verificar_jwt, ErrorAuth, DURACION_SESION, MARGEN_JWT};
use fiscal_core::limitador::RateLimiter;
use fiscal_core::xml_c14n::canonicalize;
use std::time::Duration;

#[test]
fn nombre_sin_puntos_dobles() {
    assert_eq!(sanitize_filename(".."), "archivo");
    assert_eq!(sanitize_filename("../.."), "archivo");
    assert_eq!(sanitize_filename("a..b.txt"), "ab.txt");
    assert_eq!(sanitize_filename("x/...oculto"), "oculto");
    assert_eq!(sanitize_filename("informe.v2.pdf"), "informe.v2.pdf");
    assert_eq!(sanitize_filename(" .. nota.txt"), "nota.txt");
}

#[test]
fn rnc_solo_digitos_ascii() {
    assert_eq!(validar_rnc("1234567½9"), Err(ErrorAuth::RncInvalido));
    assert_eq!(validar_rnc("١٢٣٤٥٦٧٨٩"), Err(ErrorAuth::RncInvalido));
    assert_eq!(validar_rnc("123456789").unwrap(), "123456789");
    assert_eq!(validar_rnc("12345678901").unwrap(), "12345678901");
    assert_eq!(validar_rnc("1234567890"), Ok("1234567890".to_string()));
}

#[test]
fn c14n_muestra_espacios_de_nombres() {
    let xml = r#"<Signature xmlns="http://www.w3.org/2000/09/xmldsig#"><SignedInfo></SignedInfo></Signature>"#;
    assert_eq!(canonicalize(xml).unwrap(), xml);
    // Un hijo no repite lo que ya está en ámbito; una declaración nueva sí se muestra.
    let xml2 = r#"<a xmlns="urn:x" xmlns:p="urn:p"><b xmlns="urn:x"><c xmlns:q="urn:q" z="1"/></b></a>"#;
    assert_eq!(
        canonicalize(xml2).unwrap(),
        r#"<a xmlns="urn:x" xmlns:p="urn:p"><b><c xmlns:q="urn:q" z="1"></c></b></a>"#
    );
    // Redefinir el espacio por omisión en un hijo sí se muestra.
    let xml3 = r#"<a xmlns="urn:x"><b xmlns="urn:y"></b></a>"#;
    assert_eq!(canonicalize(xml3).unwrap(), xml3);
}

#[test]
fn limitador_por_instantes() {
    let mut l = RateLimiter::new(3, Duration::from_nanos(100));
    l.registrar_fallo_en("k", 10);
    l.registrar_fallo_en("k", 50);
    assert!(!l.bloqueado_en("k", 60));
    l.registrar_fallo_en("k", 110);
    assert!(l.bloqueado_en("k", 110));
    // Otra clave no se ve afectada.
    assert!(!l.bloqueado_en("otra", 110));
    // Pasada la ventana del primer fallo (10 + 100) la entrada se olvida.
    assert!(!l.bloqueado_en("k", 111));
    l.registrar_fallo_en("k", 111);
    assert!(!l.bloqueado_en("k", 112));
    // Un fallo tras la ventana reinicia la cuenta en uno.
    l.registrar_fallo_en("k", 150);
    l.registrar_fallo_en("k", 400);
    l.registrar_fallo_en("k", 410);
    assert!(!l.bloqueado_en("k", 420));
    l.registrar_fallo_en("k", 420);
    assert!(l.bloqueado_en("k", 420));
}

#[test]
fn jwt_ida_y_vuelta() {
    let ahora: i64 = 1_700_000_000;
    let t = generar_jwt("u1".into(), "101010101".into(), "ADMIN".into(), "a@x.com".into(), ahora, "secreto").unwrap();
    let c = verificar_jwt(&t, "secreto", ahora + 10).unwrap();
    assert_eq!(c.sub, "u1");
    assert_eq!(c.tenant_id, "101010101");
    assert_eq!(c.rol, "ADMIN");
    assert_eq!(c.email, "a@x.com");
    assert_eq!(c.exp, (ahora + DURACION_SESION) as usize);
    assert_eq!(c.iat, ahora as usize);
    assert!(verificar_jwt(&t, "otro", ahora).is_none());
    assert!(verificar_jwt("no.es.token", "secreto", ahora).is_none());
    let fin = ahora + DURACION_SESION;
    assert!(verificar_jwt(&t, "secreto", fin + MARGEN_JWT).is_some());
    assert!(verificar_jwt(&t, "secreto", fin + MARGEN_JWT + 1).is_none());
}

#[test]
fn nombre_sin_separadores() {
    assert_eq!(sanitize_filename("a/b\\c.txt"), "c.txt");
    assert_eq!(sanitize_filename("dir\\"), "archivo");
}

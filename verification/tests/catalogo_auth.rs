use fiscal_core::auth::{
    claims_para, claves_login, contrasena_temporal, cuentas_iniciales, generar_temporal,
    hash_password, hash_token, token_reset, validar_alta, validar_credenciales_admin,
    validar_login, validar_reset_admin, validar_rnc, verify_password, ErrorAuth, LoginRequest,
    DURACION_SESION,
};
use fiscal_core::catalogo::{
    normalizar_codigo, patron_busqueda, validar_cliente,
    validar_producto_nuevo, CreateCategoriaRequest, CreateModuloRequest, CreateProveedorRequest,
    CreateRolRequest, ErrorCatalogo,
};
use fiscal_core::cripto::hex;
use fiscal_core::dinero::Monto;

fn m(mantisa: i128, escala: u32) -> Monto {
    Monto { mantisa, escala }
}

// ---- catálogo ----

#[test]
fn codigos_normalizados() {
    assert_eq!(normalizar_codigo("  caja chica "), "CAJA_CHICA");
    assert_eq!(normalizar_codigo("ñandú"), "ÑANDÚ");
    assert_eq!(patron_busqueda(Some(" ÁRBOL "), false), Some("árbol%".to_string()));
    assert_eq!(patron_busqueda(Some("Árbol"), true), Some("%árbol%".to_string()));
    let r = CreateRolRequest { codigo: " vendedor sr ".to_string(), nombre: "Vendedor".to_string(), permisos: vec![] };
    assert_eq!(r.validar().unwrap(), "VENDEDOR_SR");
    let r = CreateRolRequest { codigo: "  ".to_string(), nombre: "Vendedor".to_string(), permisos: vec![] };
    assert_eq!(r.validar(), Err(ErrorCatalogo::CodigoONombreVacio));
    let md = CreateModuloRequest { codigo: "ordenes".to_string(), nombre: "Órdenes".to_string(), descripcion: None, orden: None };
    assert_eq!(md.validar().unwrap(), ("ORDENES".to_string(), 0));
    let md = CreateModuloRequest { codigo: "x".to_string(), nombre: " ".to_string(), descripcion: None, orden: Some(3) };
    assert_eq!(md.validar(), Err(ErrorCatalogo::CodigoONombreVacio));
}

#[test]
fn categorias_proveedores_y_clientes() {
    let c = CreateCategoriaRequest { nombre: "  Bebidas ".to_string(), color: None, icono: None, orden: Some(2) };
    assert_eq!(c.validar().unwrap(), ("Bebidas".to_string(), 2));
    let c = CreateCategoriaRequest { nombre: "".to_string(), color: None, icono: None, orden: None };
    assert_eq!(c.validar(), Err(ErrorCatalogo::NombreVacio));
    let p = CreateProveedorRequest { nombre: " ".to_string(), rnc: None, telefono: None, email: None, direccion: None, contacto: None };
    assert_eq!(p.validar(), Err(ErrorCatalogo::NombreVacio));
    assert_eq!(validar_cliente("Juan"), Ok(()));
    assert_eq!(validar_cliente("\t"), Err(ErrorCatalogo::NombreVacio));
}

#[test]
fn producto_nuevo() {
    let p = validar_producto_nuevo("SKU1", "Arroz", None, None, Some(m(5500, 2)), None, Some(m(10, 0))).unwrap();
    assert_eq!(p.itbis_tipo, "GRAVADO_18");
    assert_eq!(p.tipo, "PRODUCTO");
    assert_eq!(p.precio_venta, Some(m(5500, 2)));
    assert_eq!(p.stock_actual, m(0, 0));
    assert_eq!(p.stock_minimo, m(10, 0));
    let s = validar_producto_nuevo("S1", "Instalación", Some("EXENTO".to_string()), Some("SERVICIO".to_string()), Some(m(1, 0)), Some(m(5, 0)), None).unwrap();
    assert_eq!(s.precio_venta, None);
    assert_eq!(s.stock_actual, m(0, 0));
    assert_eq!(validar_producto_nuevo(" ", "A", None, None, None, None, None).err(), Some(ErrorCatalogo::SkuVacio));
    assert_eq!(validar_producto_nuevo("S", " ", None, None, None, None, None).err(), Some(ErrorCatalogo::NombreVacio));
    assert_eq!(validar_producto_nuevo("S", "A", Some("GRAVADO_10".to_string()), None, None, None, None).err(), Some(ErrorCatalogo::ItbisTipoInvalido));
    assert_eq!(validar_producto_nuevo("S", "A", None, Some("KIT".to_string()), None, None, None).err(), Some(ErrorCatalogo::TipoInvalido));
}

#[test]
fn patrones_de_busqueda() {
    assert_eq!(patron_busqueda(Some("  ArRoz "), true), Some("%arroz%".to_string()));
    assert_eq!(patron_busqueda(Some("B01"), false), Some("b01%".to_string()));
    assert_eq!(patron_busqueda(Some("   "), true), None);
    assert_eq!(patron_busqueda(None, true), None);
}

// ---- criptografía ----

#[test]
fn resumen_y_codificaciones() {
    assert_eq!(hash_token("abc"), "ba7816bf8f01cfea414140de5dae2223b00361a396177a9cb410ff61f20015ad");
    assert_eq!(hex(&[0xab, 0x01], true), "AB01");
}

// ---- autenticación ----

#[test]
fn sesion_de_doce_horas() {
    let c = claims_para("u1".to_string(), "101".to_string(), "ADMIN".to_string(), "a@b.do".to_string(), 1_000);
    assert_eq!(c.exp, 1_000 + DURACION_SESION as usize);
    assert_eq!(c.iat, 1_000);
    assert_eq!(c.rol, "ADMIN");
}

#[test]
fn rnc_del_registro() {
    assert_eq!(validar_rnc("1-01-01010-1").unwrap(), "101010101");
    assert_eq!(validar_rnc("001 1234567 8").unwrap(), "00112345678");
    assert_eq!(validar_rnc("12345678"), Err(ErrorAuth::RncInvalido));
    assert_eq!(validar_rnc("123456789012"), Err(ErrorAuth::RncInvalido));
    assert_eq!(validar_rnc("1010101AB"), Err(ErrorAuth::RncInvalido));
    assert_eq!(validar_alta(true, false), Err(ErrorAuth::RncRegistrado));
    assert_eq!(validar_alta(false, true), Err(ErrorAuth::EmailRegistrado));
    assert_eq!(validar_alta(false, false), Ok(()));
}

#[test]
fn contrasenas() {
    let h = hash_password("secreta123").unwrap();
    assert!(h.starts_with("$argon2"));
    assert_eq!(verify_password(&h, "secreta123"), Ok(true));
    assert_eq!(verify_password(&h, "otra"), Ok(false));
    assert_eq!(verify_password("no es un hash", "x"), Err(ErrorAuth::HashIlegible));
    assert_eq!(validar_credenciales_admin("ADMIN", &h, "secreta123"), Ok(()));
    assert_eq!(validar_credenciales_admin("CAJERO", &h, "secreta123"), Err(ErrorAuth::CredencialesInvalidas));
    assert_eq!(validar_credenciales_admin("ADMIN", &h, "mala"), Err(ErrorAuth::CredencialesInvalidas));
    assert_eq!(validar_login(None, "x"), Err(ErrorAuth::EmailNoEncontrado));
    assert_eq!(validar_login(Some(&h), "mala"), Err(ErrorAuth::ContrasenaIncorrecta));
    assert_eq!(validar_login(Some("basura"), "x"), Err(ErrorAuth::HashIlegible));
    assert_eq!(validar_login(Some(&h), "secreta123"), Ok(()));
}

#[test]
fn claves_del_inicio_de_sesion() {
    let req = LoginRequest { email: "Ana@Colmado.DO".to_string(), password: "x".to_string(), rnc: Some("1-01-01010-1".to_string()) };
    assert_eq!(claves_login(&req), ("ana@colmado.do".to_string(), Some("101010101".to_string())));
    let req = LoginRequest { email: "a@b.do".to_string(), password: "x".to_string(), rnc: None };
    assert_eq!(claves_login(&req).1, None);
}

#[test]
fn tokens_de_restablecimiento() {
    assert_eq!(hash_token("abc"), "ba7816bf8f01cfea414140de5dae2223b00361a396177a9cb410ff61f20015ad");
    let (t, h) = token_reset();
    assert_eq!(t.len(), 43);
    assert!(t.chars().all(|c| c.is_ascii_alphanumeric() || c == '-' || c == '_'));
    assert_eq!(h, hash_token(&t));
    let (t2, _) = token_reset();
    assert_ne!(t, t2);
}

#[test]
fn contrasena_temporal_del_alfabeto() {
    assert_eq!(contrasena_temporal(&vec![0, 1, 55, 56, 57]), "AB9AB");
    let t = generar_temporal();
    assert_eq!(t.chars().count(), 10);
    let alfabeto = "ABCDEFGHJKLMNPQRSTUVWXYZabcdefghijkmnpqrstuvwxyz23456789";
    assert!(t.chars().all(|c| alfabeto.contains(c)));
}

#[test]
fn plan_de_cuentas_inicial() {
    let c = cuentas_iniciales();
    assert_eq!(c.len(), 17);
    assert_eq!(c[0], ("1100".to_string(), "Caja y Bancos".to_string(), "ACTIVO".to_string(), "DEUDORA".to_string()));
    assert!(c.iter().all(|x| (x.2 == "PASIVO" || x.2 == "INGRESO") == (x.3 == "ACREEDORA")));
    assert_eq!(validar_reset_admin(0), Err(ErrorAuth::UsuarioNoEncontrado));
    assert_eq!(validar_reset_admin(1), Ok(()));
}

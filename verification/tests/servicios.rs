use base64::Engine;
use fiscal_core::archivos::{rutas_adjunto, ruta_en_disco, sanitize_filename, validar_adjunto, ErrorAdjunto};
use fiscal_core::licencia::{
    activate, check_and_update, compute_sig, dias_restantes, EstadoLicencia, FilaLicencia, Marca,
};
use fiscal_core::limitador::RateLimiter;
use fiscal_core::servicios::{
    cuerpo_reset, nombre_respaldo, respaldos_a_borrar, BackupService, EmailService, ErrorImagen,
    ImageService, MAX_UPLOAD_BYTES, RETENCION,
};
use std::time::Duration;

const DIA: i64 = 86_400;
const CLAVE: &[u8] = b"clave-de-licencia";

fn marca(segundos: i64) -> Marca {
    Marca { segundos, nanos: 0 }
}

fn fila(estado: &str, inicio: i64, visto: i64) -> FilaLicencia {
    FilaLicencia {
        rnc: "101010101".to_string(),
        license_status: estado.to_string(),
        trial_started_at: marca(inicio),
        trial_days: 15,
        license_activated_at: None,
        last_seen_at: marca(visto),
        license_sig: String::new(),
    }
}

fn hmac_b64(datos: &str) -> String {
    let k = openssl::pkey::PKey::hmac(CLAVE).unwrap();
    let mut s = openssl::sign::Signer::new(openssl::hash::MessageDigest::sha256(), &k).unwrap();
    s.update(datos.as_bytes()).unwrap();
    base64::engine::general_purpose::STANDARD.encode(s.sign_to_vec().unwrap())
}

// ---- licencia ----

#[test]
fn firma_de_la_fila() {
    let f = fila("trial", 1_700_000_000, 1_700_000_000);
    let esperada = hmac_b64("101010101|2023-11-14T22:13:20+00:00|15|trial|");
    assert_eq!(compute_sig(&f, CLAVE).unwrap(), esperada);
}

#[test]
fn dias_de_prueba() {
    let t0 = 1_700_000_000;
    assert_eq!(dias_restantes(15, marca(t0), marca(t0 + 5 * DIA + 10)), 10);
    assert_eq!(dias_restantes(15, marca(t0), marca(t0 + 5 * DIA - 1)), 11);
    assert_eq!(dias_restantes(15, marca(t0), marca(t0 + 40 * DIA)), 0);
    // Un reloj anterior al inicio no resta días.
    assert_eq!(dias_restantes(15, marca(t0), marca(t0 - DIA / 2)), 15);
}

#[test]
fn prueba_vigente_se_firma_y_vuelve_a_validar() {
    let t0 = 1_700_000_000;
    let (nueva, estado) = check_and_update(fila("trial", t0, t0), marca(t0 + 3 * DIA), CLAVE).unwrap();
    assert_eq!(estado.status, EstadoLicencia::Trial);
    assert_eq!(estado.dias_restantes, 12);
    assert_eq!(nueva.last_seen_at, marca(t0 + 3 * DIA));
    assert_eq!(nueva.license_sig, compute_sig(&nueva, CLAVE).unwrap());
    // La fila firmada no se considera manipulada en la siguiente verificación.
    let (otra, estado) = check_and_update(nueva, marca(t0 + 4 * DIA), CLAVE).unwrap();
    assert_eq!(estado.status, EstadoLicencia::Trial);
    assert_eq!(otra.license_status, "trial");
}

#[test]
fn firma_alterada_vence_la_licencia() {
    let t0 = 1_700_000_000;
    let mut f = fila("active", t0, t0);
    f.license_sig = "falsa".to_string();
    let (nueva, estado) = check_and_update(f, marca(t0 + DIA), CLAVE).unwrap();
    assert_eq!(estado.status, EstadoLicencia::Expired);
    assert_eq!(nueva.license_status, "expired");
}

#[test]
fn reloj_atrasado_vence_la_prueba() {
    let t0 = 1_700_000_000;
    let (_, estado) = check_and_update(fila("trial", t0, t0 + 2 * DIA), marca(t0 + DIA), CLAVE).unwrap();
    assert_eq!(estado.status, EstadoLicencia::Expired);
    // Una licencia activa no se vence por el reloj.
    let (nueva, estado) = check_and_update(fila("active", t0, t0 + 2 * DIA), marca(t0 + DIA), CLAVE).unwrap();
    assert_eq!(estado.status, EstadoLicencia::Active);
    assert_eq!(nueva.last_seen_at, marca(t0 + 2 * DIA));
}

#[test]
fn prueba_agotada_vence() {
    let t0 = 1_700_000_000;
    let (_, estado) = check_and_update(fila("trial", t0, t0), marca(t0 + 15 * DIA), CLAVE).unwrap();
    assert_eq!(estado.status, EstadoLicencia::Expired);
    assert_eq!(estado.dias_restantes, 0);
}

#[test]
fn activar() {
    let t0 = 1_700_000_000;
    let nueva = activate(fila("expired", t0, t0), marca(t0 + 90 * DIA), CLAVE).unwrap();
    assert_eq!(nueva.license_status, "active");
    assert_eq!(nueva.license_activated_at, Some(marca(t0 + 90 * DIA)));
    assert_eq!(nueva.license_sig, compute_sig(&nueva, CLAVE).unwrap());
    let (_, estado) = check_and_update(nueva, marca(t0 + 91 * DIA), CLAVE).unwrap();
    assert_eq!(estado.status, EstadoLicencia::Active);
}

// ---- limitador ----

#[test]
fn limitador_bloquea_al_llegar_al_limite() {
    let mut l = RateLimiter::new(3, Duration::from_secs(60));
    assert!(!l.bloqueado("a@x.com"));
    l.registrar_fallo("a@x.com");
    l.registrar_fallo("a@x.com");
    assert!(!l.bloqueado("a@x.com"));
    l.registrar_fallo("a@x.com");
    assert!(l.bloqueado("a@x.com"));
    assert!(!l.bloqueado("b@x.com"));
    l.limpiar("a@x.com");
    assert!(!l.bloqueado("a@x.com"));
}

#[test]
fn limitador_olvida_tras_la_ventana() {
    let mut l = RateLimiter::new(1, Duration::ZERO);
    l.registrar_fallo("a");
    let mut x: u64 = 0;
    for i in 0..100_000u64 {
        x = x.wrapping_add(i * i);
    }
    assert!(x > 0);
    assert!(!l.bloqueado("a"));
}

// ---- respaldos, correo e imágenes ----

#[test]
fn respaldos() {
    let b = BackupService::new("postgres://x".to_string());
    assert_eq!(b.backup_dir, "backups");
    assert_eq!(nombre_respaldo("20250101-120000"), "backup-20250101-120000.dump");
    assert_eq!(respaldos_a_borrar(20, RETENCION), 6);
    assert_eq!(respaldos_a_borrar(3, RETENCION), 0);
}

#[test]
fn correo_de_restablecimiento() {
    let e = EmailService::new(None, "no-reply@colmado.do".to_string());
    assert!(e.api_key.is_none());
    let html = cuerpo_reset("Ana", "https://x.do/r?t=1");
    assert!(html.starts_with("<p>Hola Ana,</p>\n<p>Recibimos una solicitud"));
    assert!(html.contains("<a href=\"https://x.do/r?t=1\">https://x.do/r?t=1</a>"));
}

#[test]
fn miniatura_de_producto() {
    let mut jpeg = Vec::new();
    let img = image::RgbImage::from_pixel(600, 300, image::Rgb([200, 30, 30]));
    image::codecs::jpeg::JpegEncoder::new_with_quality(&mut jpeg, 90).encode_image(&img).unwrap();
    let s = ImageService::new("uploads".to_string());
    let m = s.preparar_miniatura("101", "p-1", &jpeg).unwrap();
    assert_eq!(m.archivo, "p-1.jpg");
    assert_eq!(m.ruta_publica, "/uploads/101/p-1.jpg");
    assert_ne!(m.jpeg, jpeg);
    let reducida = image::load_from_memory(&m.jpeg).unwrap();
    assert_eq!((reducida.width(), reducida.height()), (240, 120));
    assert_eq!(s.preparar_miniatura("101", "p-1", &[]).err(), Some(ErrorImagen::Vacia));
    assert_eq!(s.preparar_miniatura("101", "p-1", b"no es imagen").err(), Some(ErrorImagen::FormatoNoSoportado));
    let grande = vec![0u8; MAX_UPLOAD_BYTES + 1];
    assert_eq!(s.preparar_miniatura("101", "p-1", &grande).err(), Some(ErrorImagen::Grande));
}

// ---- adjuntos ----

#[test]
fn nombres_de_archivo_saneados() {
    assert_eq!(sanitize_filename("../../etc/passwd"), "passwd");
    assert_eq!(sanitize_filename("C:\\docs\\factura #12 (copia).pdf"), "factura 12 copia.pdf");
    assert_eq!(sanitize_filename("  informe_final-v2.docx  "), "informe_final-v2.docx");
    assert_eq!(sanitize_filename("$$$"), "archivo");
    assert_eq!(sanitize_filename("año.txt"), "año.txt");
}

#[test]
fn adjuntos() {
    assert_eq!(validar_adjunto("PRODUCTO", 1), Err(ErrorAdjunto::EntidadInvalida));
    assert_eq!(validar_adjunto("VENTA", 0), Err(ErrorAdjunto::Vacio));
    assert_eq!(validar_adjunto("VENTA", 20 * 1024 * 1024 + 1), Err(ErrorAdjunto::Grande));
    assert_eq!(validar_adjunto("ORDEN_SERVICIO", 20 * 1024 * 1024), Ok(()));
    let r = rutas_adjunto("101", "VENTA", "v-9", "abc", "a/b/recibo.pdf");
    assert_eq!(r.dir_relativo, "adjuntos/VENTA/v-9");
    assert_eq!(r.archivo, "abc-recibo.pdf");
    assert_eq!(r.ruta_publica, "/uploads/101/adjuntos/VENTA/v-9/abc-recibo.pdf");
    assert_eq!(ruta_en_disco(&r.ruta_publica).unwrap(), "101/adjuntos/VENTA/v-9/abc-recibo.pdf");
    assert!(ruta_en_disco("/otra/cosa").is_none());
}

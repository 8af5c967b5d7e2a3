//! Licencia de prueba y bloqueo tras el vencimiento, sin servidor central.
//!
//! La fila de licencia lleva una firma HMAC-SHA256 de sus campos; una firma
//! que no coincide, o un reloj que retrocede respecto del último visto, se
//! tratan como manipulación y vencen la licencia.
use vstd::prelude::*;
use crate::cripto::{base64_estandar, base64_standard};
use crate::texto::{a_string, entero_texto, mismo_texto, texto_entero};

verus! {

/// Estado de la licencia.
#[derive(PartialEq, Eq, Structural, Clone, Copy, Debug)]
pub enum EstadoLicencia {
    Trial,
    Active,
    Expired,
}

/// Estado de la licencia y días de prueba restantes.
#[derive(PartialEq, Eq, Structural, Clone, Copy, Debug)]
pub struct LicenseState {
    pub status: EstadoLicencia,
    pub dias_restantes: i64,
}

/// Instante UTC: segundos y nanosegundos desde la época Unix.
#[derive(PartialEq, Eq, Structural, Clone, Copy, Debug)]
pub struct Marca {
    pub segundos: i64,
    pub nanos: u32,
}

/// Nanosegundos totales de un instante.
pub open spec fn nanos_totales(m: Marca) -> int {
    m.segundos * 1000000000 + m.nanos
}

/// Un instante es anterior a otro.
pub open spec fn anterior(a: Marca, b: Marca) -> bool {
    a.segundos < b.segundos || (a.segundos == b.segundos && a.nanos < b.nanos)
}

/// El instante es representable como fecha y hora (nanosegundos de un
/// segundo sin segundo intercalar, segundos en un rango amplio de años).
pub open spec fn marca_valida(m: Marca) -> bool {
    m.nanos < 1000000000 && -100000000000000 <= m.segundos <= 100000000000000
}

/// División entera truncada hacia cero.
pub open spec fn div_trunc(a: int, b: int) -> int {
    if a >= 0 {
        a / b
    } else {
        -((-a) / b)
    }
}

/// Días completos entre `desde` y `hasta` (`signed_duration_since` y
/// `num_days`: truncados hacia cero).
pub open spec fn dias_entre(hasta: Marca, desde: Marca) -> int {
    div_trunc(div_trunc(nanos_totales(hasta) - nanos_totales(desde), 1000000000), 86400)
}

/// Días de prueba restantes, nunca negativos.
pub open spec fn restantes(trial_days: i32, inicio: Marca, ahora: Marca) -> int {
    let d = trial_days - dias_entre(ahora, inicio);
    if d < 0 {
        0
    } else {
        d
    }
}

/// Fila de licencia del negocio.
#[derive(Clone, Debug)]
pub struct FilaLicencia {
    pub rnc: String,
    pub license_status: String,
    pub trial_started_at: Marca,
    pub trial_days: i32,
    pub license_activated_at: Option<Marca>,
    pub last_seen_at: Marca,
    pub license_sig: String,
}

/// Los instantes de la fila son válidos.
pub open spec fn fila_valida(f: FilaLicencia) -> bool {
    marca_valida(f.trial_started_at) && marca_valida(f.last_seen_at) && match f.license_activated_at {
        Some(m) => marca_valida(m),
        None => true,
    }
}

/// `a < b` entre instantes.
pub fn es_anterior(a: Marca, b: Marca) -> (r: bool)
    ensures
        r == anterior(a, b),
{
    a.segundos < b.segundos || (a.segundos == b.segundos && a.nanos < b.nanos)
}

/// Días de prueba restantes de la licencia.
pub fn dias_restantes(trial_days: i32, inicio: Marca, ahora: Marca) -> (r: i64)
    requires
        marca_valida(inicio),
        marca_valida(ahora),
    ensures
        r == restantes(trial_days, inicio, ahora),
{
    let d: i128 = (ahora.segundos as i128 - inicio.segundos as i128) * 1000000000 + (ahora.nanos as i128
        - inicio.nanos as i128);
    let segs: i128 = if d >= 0 {
        d / 1000000000
    } else {
        -((-d) / 1000000000)
    };
    let dias: i128 = if segs >= 0 {
        segs / 86400
    } else {
        -((-segs) / 86400)
    };
    proof {
        assert(d == nanos_totales(ahora) - nanos_totales(inicio));
        assert(-300000000000 <= dias <= 300000000000) by (nonlinear_arith)
            requires
                dias == div_trunc(segs as int, 86400),
                segs == div_trunc(d as int, 1000000000),
                -300000000000000000000000 <= d <= 300000000000000000000000,
        {
        }
    }
    let r: i128 = trial_days as i128 - dias;
    if r < 0 {
        0
    } else {
        r as i64
    }
}

/// Texto RFC 3339 de un instante según `chrono`.
pub uninterp spec fn rfc3339_de(segundos: i64, nanos: u32) -> Option<Seq<char>>;

/// `DateTime::from_timestamp` y `to_rfc3339`: el instante en RFC 3339, o
/// `None` si no es representable. El contrato sólo afirma que el texto es
/// función del instante.
#[verifier::external_body]
fn texto_rfc3339(segundos: i64, nanos: u32) -> (r: Option<String>)
    ensures
        r matches Some(s) ==> rfc3339_de(segundos, nanos) == Some(s@),
        r is None ==> rfc3339_de(segundos, nanos) is None,
{
    chrono::DateTime::from_timestamp(segundos, nanos).map(|d| d.to_rfc3339())
}

/// HMAC-SHA256 de `datos` con la clave `clave`.
pub uninterp spec fn hmac_sha256_de(clave: Seq<u8>, datos: Seq<u8>) -> Option<Seq<u8>>;

/// `PKey::hmac` y `Signer` con SHA-256: el HMAC de los datos, o `None` si
/// openssl falla.
#[verifier::external_body]
fn hmac_sha256(clave: &[u8], datos: &[u8]) -> (r: Option<Vec<u8>>)
    ensures
        r matches Some(v) ==> hmac_sha256_de(clave@, datos@) == Some(v@),
        r is None ==> hmac_sha256_de(clave@, datos@) is None,
{
    let key = openssl::pkey::PKey::hmac(clave).ok()?;
    let mut s = openssl::sign::Signer::new(openssl::hash::MessageDigest::sha256(), &key).ok()?;
    s.update(datos).ok()?;
    s.sign_to_vec().ok()
}

/// Errores de la licencia.
#[derive(PartialEq, Eq, Structural, Clone, Copy, Debug)]
pub enum ErrorLicencia {
    /// Un instante no se puede representar como fecha.
    FechaInvalida,
    /// La firma no se pudo calcular.
    Firma,
}

/// Texto firmado de una fila con el estado y la activación dados:
/// `rnc|inicio|días|estado|activación`.
pub open spec fn carga_con(f: FilaLicencia, estado: Seq<char>, activada: Option<Marca>) -> Option<Seq<char>> {
    match rfc3339_de(f.trial_started_at.segundos, f.trial_started_at.nanos) {
        None => None,
        Some(inicio) => {
            let activacion = match activada {
                Some(m) => rfc3339_de(m.segundos, m.nanos),
                None => Some(Seq::empty()),
            };
            match activacion {
                None => None,
                Some(a) => Some(
                    f.rnc@ + "|"@ + inicio + "|"@ + entero_texto(f.trial_days as int) + "|"@
                        + estado + "|"@ + a,
                ),
            }
        },
    }
}

/// Texto firmado de una fila: `rnc|inicio|días|estado|activación`.
pub open spec fn carga_firmada(f: FilaLicencia) -> Option<Seq<char>> {
    carga_con(f, f.license_status@, f.license_activated_at)
}

/// Firma de una fila con el estado y la activación dados: base64 del HMAC
/// de su carga con la clave.
pub open spec fn firma_con(f: FilaLicencia, estado: Seq<char>, activada: Option<Marca>, clave: Seq<u8>) -> Option<
    Seq<char>,
> {
    match carga_con(f, estado, activada) {
        None => None,
        Some(c) => match hmac_sha256_de(clave, vstd::utf8::encode_utf8(c)) {
            None => None,
            Some(h) => Some(base64_estandar(h)),
        },
    }
}

/// Firma de una fila: base64 del HMAC de su carga con la clave.
pub open spec fn firma_de(f: FilaLicencia, clave: Seq<u8>) -> Option<Seq<char>> {
    firma_con(f, f.license_status@, f.license_activated_at, clave)
}

/// Por qué no se puede firmar una fila con el estado y la activación dados:
/// un instante sin texto RFC 3339, o el HMAC que falla.
pub open spec fn error_firma(f: FilaLicencia, estado: Seq<char>, activada: Option<Marca>, clave: Seq<u8>) -> ErrorLicencia {
    if carga_con(f, estado, activada) is None {
        ErrorLicencia::FechaInvalida
    } else {
        ErrorLicencia::Firma
    }
}

/// Firma HMAC de la fila de licencia en base64.
pub fn compute_sig(fila: &FilaLicencia, clave: &[u8]) -> (r: Result<String, ErrorLicencia>)
    ensures
        match r {
            Ok(s) => firma_de(*fila, clave@) == Some(s@),
            Err(e) => firma_de(*fila, clave@) is None && e == error_firma(
                *fila,
                fila.license_status@,
                fila.license_activated_at,
                clave@,
            ),
        },
{
    let inicio = match texto_rfc3339(fila.trial_started_at.segundos, fila.trial_started_at.nanos) {
        Some(t) => t,
        None => return Err(ErrorLicencia::FechaInvalida),
    };
    let activacion = match fila.license_activated_at {
        Some(m) => match texto_rfc3339(m.segundos, m.nanos) {
            Some(t) => t,
            None => return Err(ErrorLicencia::FechaInvalida),
        },
        None => String::new(),
    };
    let mut carga = fila.rnc.clone();
    carga.append("|");
    carga.append(inicio.as_str());
    carga.append("|");
    carga.append(texto_entero(fila.trial_days as i64).as_str());
    carga.append("|");
    carga.append(fila.license_status.as_str());
    carga.append("|");
    carga.append(activacion.as_str());
    match hmac_sha256(clave, carga.as_str().as_bytes()) {
        Some(h) => Ok(base64_standard(h.as_slice())),
        None => Err(ErrorLicencia::Firma),
    }
}

/// Estado según el texto de la fila: `active`, `expired` o prueba.
pub open spec fn estado_de(s: Seq<char>) -> EstadoLicencia {
    if s == "active"@ {
        EstadoLicencia::Active
    } else if s == "expired"@ {
        EstadoLicencia::Expired
    } else {
        EstadoLicencia::Trial
    }
}

/// La fila fue manipulada: su firma no coincide con la esperada, o (si no
/// está activa) el reloj retrocedió respecto del último visto.
pub open spec fn manipulada(f: FilaLicencia, esperada: Seq<char>, ahora: Marca) -> bool {
    (f.license_sig@.len() > 0 && f.license_sig@ != esperada) || (f.license_status@ != "active"@
        && anterior(ahora, f.last_seen_at))
}

/// Estado de la fila tras la verificación: vencida si fue manipulada o si,
/// no estando activa, ya no le quedan días.
pub open spec fn estado_verificado(f: FilaLicencia, esperada: Seq<char>, ahora: Marca) -> Seq<char> {
    if manipulada(f, esperada, ahora) {
        "expired"@
    } else if f.license_status@ != "active"@ && restantes(f.trial_days, f.trial_started_at, ahora)
        <= 0 {
        "expired"@
    } else {
        f.license_status@
    }
}

/// Último instante visto tras ver `ahora`.
pub open spec fn ultimo_visto(f: FilaLicencia, ahora: Marca) -> Marca {
    if anterior(f.last_seen_at, ahora) {
        ahora
    } else {
        f.last_seen_at
    }
}

/// Verifica la licencia en cada solicitud: detecta manipulación, vence la
/// prueba agotada, avanza el último instante visto y vuelve a firmar la fila.
/// Devuelve la fila actualizada y el estado.
pub fn check_and_update(fila: FilaLicencia, ahora: Marca, clave: &[u8]) -> (r: Result<
    (FilaLicencia, LicenseState),
    ErrorLicencia,
>)
    requires
        fila_valida(fila),
        marca_valida(ahora),
    ensures
        match r {
            Ok((nueva, estado)) => {
                &&& firma_de(fila, clave@) matches Some(esperada)
                &&& nueva.license_status@ == estado_verificado(fila, esperada, ahora)
                &&& nueva.last_seen_at == ultimo_visto(fila, ahora)
                &&& nueva.rnc == fila.rnc
                &&& nueva.trial_started_at == fila.trial_started_at
                &&& nueva.trial_days == fila.trial_days
                &&& nueva.license_activated_at == fila.license_activated_at
                &&& firma_de(nueva, clave@) == Some(nueva.license_sig@)
                &&& estado.status == estado_de(nueva.license_status@)
                &&& estado.dias_restantes == restantes(fila.trial_days, fila.trial_started_at, ahora)
            },
            // Falla sólo si no se puede firmar la fila recibida o la
            // verificada, con el motivo de la primera que falle.
            Err(e) => match firma_de(fila, clave@) {
                None => e == error_firma(fila, fila.license_status@, fila.license_activated_at, clave@),
                Some(esperada) => {
                    let estado = estado_verificado(fila, esperada, ahora);
                    &&& firma_con(fila, estado, fila.license_activated_at, clave@) is None
                    &&& e == error_firma(fila, estado, fila.license_activated_at, clave@)
                },
            },
        },
{
    let esperada = match compute_sig(&fila, clave) {
        Ok(s) => s,
        Err(e) => return Err(e),
    };
    let ya_firmada = crate::texto::caracteres(fila.license_sig.as_str()).len() > 0;
    let activa = mismo_texto(fila.license_status.as_str(), "active");
    let mut manip = ya_firmada && !mismo_texto(fila.license_sig.as_str(), esperada.as_str());
    if !manip && !activa && es_anterior(ahora, fila.last_seen_at) {
        manip = true;
    }
    let restan = dias_restantes(fila.trial_days, fila.trial_started_at, ahora);
    let mut nueva = fila;
    if manip {
        nueva.license_status = a_string("expired");
    } else if !activa && restan <= 0 {
        nueva.license_status = a_string("expired");
    }
    if es_anterior(nueva.last_seen_at, ahora) {
        nueva.last_seen_at = ahora;
    }
    nueva.license_sig = match compute_sig(&nueva, clave) {
        Ok(s) => s,
        Err(e) => return Err(e),
    };
    let status = if mismo_texto(nueva.license_status.as_str(), "active") {
        EstadoLicencia::Active
    } else if mismo_texto(nueva.license_status.as_str(), "expired") {
        EstadoLicencia::Expired
    } else {
        EstadoLicencia::Trial
    };
    Ok((nueva, LicenseState { status, dias_restantes: restan }))
}

/// Activa la licencia: estado `active`, activada ahora, último visto avanzado
/// y fila firmada de nuevo.
pub fn activate(fila: FilaLicencia, ahora: Marca, clave: &[u8]) -> (r: Result<FilaLicencia, ErrorLicencia>)
    ensures
        match r {
            Ok(nueva) => {
                &&& nueva.license_status@ == "active"@
                &&& nueva.license_activated_at == Some(ahora)
                &&& nueva.last_seen_at == ultimo_visto(fila, ahora)
                &&& nueva.rnc == fila.rnc
                &&& nueva.trial_started_at == fila.trial_started_at
                &&& nueva.trial_days == fila.trial_days
                &&& firma_de(nueva, clave@) == Some(nueva.license_sig@)
            },
            // Falla sólo si la fila activada no se puede firmar.
            Err(e) => firma_con(fila, "active"@, Some(ahora), clave@) is None && e == error_firma(
                fila,
                "active"@,
                Some(ahora),
                clave@,
            ),
        },
{
    let mut nueva = fila;
    nueva.license_status = a_string("active");
    nueva.license_activated_at = Some(ahora);
    if es_anterior(nueva.last_seen_at, ahora) {
        nueva.last_seen_at = ahora;
    }
    nueva.license_sig = match compute_sig(&nueva, clave) {
        Ok(s) => s,
        Err(e) => return Err(e),
    };
    Ok(nueva)
}

} // verus!

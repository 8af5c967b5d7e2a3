//! Autenticación de negocios (el RNC es el identificador del negocio) y sus
//! usuarios: validación del registro, contraseñas Argon2, tokens de
//! restablecimiento, contraseñas temporales y el plan de cuentas inicial.
use vstd::prelude::*;
use argon2::password_hash::{PasswordHasher, PasswordVerifier};
use jsonwebtoken::{decode, encode, Algorithm, DecodingKey, EncodingKey, Header, Validation};
use serde_json::Value;
use base64::Engine;
use rand::RngCore;
use crate::cripto::{hex, hex_minusculas, sha256, sha256_de, simbolo_b64};
use crate::texto::{a_string, caracteres, empujar, mismo_texto, reemplazar, reemplazar_todo};
use crate::catalogo::{a_minusculas, minusculas};

verus! {

/// Datos del JWT de sesión.
#[derive(Clone, Debug)]
pub struct Claims {
    /// Identificador del usuario.
    pub sub: String,
    /// RNC del negocio.
    pub tenant_id: String,
    pub rol: String,
    pub email: String,
    pub exp: usize,
    pub iat: usize,
}

/// Duración de una sesión, en segundos (12 horas).
pub const DURACION_SESION: i64 = 43200;

/// Datos del JWT de un usuario emitido en el instante `ahora` (segundos Unix):
/// vence a las 12 horas.
pub fn claims_para(sub: String, tenant_id: String, rol: String, email: String, ahora: i64) -> (r: Claims)
    requires
        ahora <= i64::MAX - DURACION_SESION,
    ensures
        r.sub == sub,
        r.tenant_id == tenant_id,
        r.rol == rol,
        r.email == email,
        r.exp == (ahora + DURACION_SESION) as usize,
        r.iat == ahora as usize,
{
    Claims {
        sub,
        tenant_id,
        rol,
        email,
        exp: (ahora + DURACION_SESION) as usize,
        iat: ahora as usize,
    }
}

/// Los datos de un JWT como valores: sujeto, negocio, rol, correo,
/// vencimiento y emisión.
pub open spec fn vista_claims(c: Claims) -> (Seq<char>, Seq<char>, Seq<char>, Seq<char>, usize, usize) {
    (c.sub@, c.tenant_id@, c.rol@, c.email@, c.exp, c.iat)
}

/// Los datos que trae el JWT `token` si su firma HS256 con `secreto` es
/// válida, sin mirar su vencimiento; `None` si no.
pub uninterp spec fn jwt_hs256_de(token: Seq<char>, secreto: Seq<char>) -> Option<
    (Seq<char>, Seq<char>, Seq<char>, Seq<char>, usize, usize),
>;

/// `jsonwebtoken::decode` a un `serde_json::Value` con `Validation::new(HS256)`
/// sin comprobar el vencimiento (`validate_exp = false`), y los campos
/// `sub`, `tenant_id`, `rol`, `email` (textos) y `exp`, `iat` (enteros). El
/// contrato afirma que el resultado es función del token y el secreto.
#[verifier::external_body]
fn jwt_decodificar(token: &str, secreto: &str) -> (r: Option<Claims>)
    ensures
        r matches Some(c) ==> jwt_hs256_de(token@, secreto@) == Some(vista_claims(c)),
        r is None ==> jwt_hs256_de(token@, secreto@) is None,
{
    let mut v = Validation::new(Algorithm::HS256);
    v.validate_exp = false;
    let d = decode::<Value>(token, &DecodingKey::from_secret(secreto.as_bytes()), &v).ok()?.claims;
    let t = |k: &str| Some(d.get(k)?.as_str()?.to_string());
    let n = |k: &str| Some(d.get(k)?.as_u64()? as usize);
    Some(Claims { sub: t("sub")?, tenant_id: t("tenant_id")?, rol: t("rol")?, email: t("email")?, exp: n("exp")?, iat: n("iat")? })
}

/// `jsonwebtoken::encode` con `Header::default()` (HS256) y
/// `EncodingKey::from_secret`, de un objeto JSON con los campos de `c`. Como
/// muestra el código de `encode` y `decode`, no falla (la familia de la clave
/// es la de HS256, un mapa JSON siempre se serializa y la firma HMAC no
/// falla) y el token devuelto se decodifica con el mismo secreto en los
/// mismos datos; sus bytes no se enuncian.
#[verifier::external_body]
fn jwt_codificar(c: &Claims, secreto: &str) -> (r: Option<String>)
    ensures
        r is Some,
        r matches Some(t) ==> jwt_hs256_de(t@, secreto@) == Some(vista_claims(*c)),
{
    let mut m = serde_json::Map::new();
    m.insert("sub".into(), c.sub.clone().into());
    m.insert("tenant_id".into(), c.tenant_id.clone().into());
    m.insert("rol".into(), c.rol.clone().into());
    m.insert("email".into(), c.email.clone().into());
    m.insert("exp".into(), c.exp.into());
    m.insert("iat".into(), c.iat.into());
    encode(&Header::default(), &Value::Object(m), &EncodingKey::from_secret(secreto.as_bytes())).ok()
}

/// Margen, en segundos, con que se acepta un JWT ya vencido.
pub const MARGEN_JWT: i64 = 60;

/// El JWT con vencimiento `exp` sigue vigente en `ahora` (segundos Unix),
/// con el margen de `MARGEN_JWT`.
pub open spec fn jwt_vigente(exp: usize, ahora: i64) -> bool {
    exp + MARGEN_JWT >= ahora
}

/// JWT de sesión firmado con `secreto` para el usuario, emitido en `ahora`
/// (segundos Unix) y con vencimiento a las 12 horas.
pub fn generar_jwt(
    sub: String,
    tenant_id: String,
    rol: String,
    email: String,
    ahora: i64,
    secreto: &str,
) -> (r: Option<String>)
    requires
        ahora <= i64::MAX - DURACION_SESION,
    ensures
        r is Some,
        r matches Some(t) ==> jwt_hs256_de(t@, secreto@) == Some(
            (sub@, tenant_id@, rol@, email@, (ahora + DURACION_SESION) as usize, ahora as usize),
        ),
{
    let c = claims_para(sub, tenant_id, rol, email, ahora);
    jwt_codificar(&c, secreto)
}

/// Un JWT emitido en `ahora` sigue vigente hasta 12 horas después, más el
/// margen: `verificar_jwt` devuelve sus datos en cualquier instante `t` hasta
/// entonces.
pub proof fn ley_jwt_vigente(ahora: i64, t: i64)
    requires
        0 <= ahora <= i64::MAX - DURACION_SESION,
        ahora + DURACION_SESION <= usize::MAX,
        t <= ahora + DURACION_SESION + MARGEN_JWT,
    ensures
        jwt_vigente((ahora + DURACION_SESION) as usize, t),
{
}

/// Los datos de un JWT ya decodificado si siguen vigentes en `ahora`.
pub fn claims_vigentes(decodificado: Option<Claims>, ahora: i64) -> (r: Option<Claims>)
    ensures
        match decodificado {
            Some(c) => if jwt_vigente(c.exp, ahora) {
                r == Some(c)
            } else {
                r is None
            },
            None => r is None,
        },
{
    match decodificado {
        Some(c) => {
            if (c.exp as i128) + (MARGEN_JWT as i128) >= ahora as i128 {
                Some(c)
            } else {
                None
            }
        },
        None => None,
    }
}

/// Verifica un JWT de sesión con `secreto` en el instante `ahora` (segundos
/// Unix): sus datos si la firma es válida y no venció (con el margen de
/// `MARGEN_JWT`); `None` si no.
pub fn verificar_jwt(token: &str, secreto: &str, ahora: i64) -> (r: Option<Claims>)
    ensures
        match jwt_hs256_de(token@, secreto@) {
            Some(v) => if jwt_vigente(v.4, ahora) {
                r matches Some(c) && vista_claims(c) == v
            } else {
                r is None
            },
            None => r is None,
        },
{
    claims_vigentes(jwt_decodificar(token, secreto), ahora)
}

/// Registro de un negocio con su administrador inicial.
pub struct RegisterRequest {
    pub rnc: String,
    pub razon_social: String,
    pub direccion: String,
    pub telefono: Option<String>,
    pub correo: Option<String>,
    /// Si el negocio emite e-CF; `true` si no se indica.
    pub factura_electronica_activa: Option<bool>,
    pub admin_nombre: String,
    pub admin_email: String,
    pub admin_password: String,
}

/// Inicio de sesión; el RNC es opcional.
pub struct LoginRequest {
    pub email: String,
    pub password: String,
    pub rnc: Option<String>,
}

/// Errores de autenticación.
#[derive(PartialEq, Eq, Structural, Clone, Copy, Debug)]
pub enum ErrorAuth {
    /// El RNC no tiene de 9 a 11 dígitos.
    RncInvalido,
    /// El RNC ya está registrado.
    RncRegistrado,
    /// El correo ya está registrado en el negocio.
    EmailRegistrado,
    /// La contraseña no se pudo procesar.
    Hash,
    /// Las credenciales no son válidas.
    CredencialesInvalidas,
    /// El usuario no existe en el negocio.
    UsuarioNoEncontrado,
    /// Inicio de sesión: ningún usuario activo con ese correo.
    EmailNoEncontrado,
    /// Inicio de sesión: la contraseña no corresponde.
    ContrasenaIncorrecta,
    /// El hash guardado no es un hash PHC legible.
    HashIlegible,
}

/// El RNC sin guiones ni espacios.
pub open spec fn rnc_limpio(s: Seq<char>) -> Seq<char>
    decreases s.len(),
{
    if s.len() == 0 {
        Seq::empty()
    } else if s.last() == '-' || s.last() == ' ' {
        rnc_limpio(s.drop_last())
    } else {
        rnc_limpio(s.drop_last()).push(s.last())
    }
}

/// El RNC limpio es válido: de 9 a 11 caracteres, todos dígitos ASCII.
pub open spec fn rnc_valido(s: Seq<char>) -> bool {
    9 <= s.len() <= 11 && forall|i: int| 0 <= i < s.len() ==> '0' <= #[trigger] s[i] <= '9'
}

/// Limpia y valida el RNC de un registro.
pub fn validar_rnc(rnc: &str) -> (r: Result<String, ErrorAuth>)
    ensures
        match r {
            Ok(s) => s@ == rnc_limpio(rnc@) && rnc_valido(s@),
            Err(e) => e == ErrorAuth::RncInvalido && !rnc_valido(rnc_limpio(rnc@)),
        },
{
    let v = caracteres(rnc);
    let mut limpio = String::new();
    let mut i: usize = 0;
    while i < v.len()
        invariant
            i <= v.len(),
            limpio@ == rnc_limpio(v@.take(i as int)),
        decreases v.len() - i,
    {
        proof {
            assert(v@.take(i + 1).drop_last() =~= v@.take(i as int));
        }
        let c = v[i];
        if c != '-' && c != ' ' {
            empujar(&mut limpio, c);
        }
        i = i + 1;
    }
    proof {
        assert(v@.take(i as int) =~= v@);
    }
    let w = caracteres(limpio.as_str());
    if w.len() < 9 || w.len() > 11 {
        return Err(ErrorAuth::RncInvalido);
    }
    let mut j: usize = 0;
    while j < w.len()
        invariant
            j <= w.len(),
            w@ == limpio@,
            limpio@ == rnc_limpio(rnc@),
            9 <= w.len() <= 11,
            forall|k: int| 0 <= k < j ==> '0' <= #[trigger] w@[k] <= '9',
        decreases w.len() - j,
    {
        let c = w[j];
        if c < '0' || c > '9' {
            proof {
                assert(!('0' <= limpio@[j as int] <= '9'));
            }
            return Err(ErrorAuth::RncInvalido);
        }
        j = j + 1;
    }
    Ok(limpio)
}

/// Un registro exige que el RNC y el correo del administrador no existan.
pub fn validar_alta(tenant_existe: bool, email_existe: bool) -> (r: Result<(), ErrorAuth>)
    ensures
        tenant_existe ==> r == Err::<(), ErrorAuth>(ErrorAuth::RncRegistrado),
        !tenant_existe && email_existe ==> r == Err::<(), ErrorAuth>(ErrorAuth::EmailRegistrado),
        !tenant_existe && !email_existe ==> r is Ok,
{
    if tenant_existe {
        Err(ErrorAuth::RncRegistrado)
    } else if email_existe {
        Err(ErrorAuth::EmailRegistrado)
    } else {
        Ok(())
    }
}

/// `Argon2::default().hash_password` con una sal aleatoria de `OsRng`: el hash
/// PHC de la contraseña, o `None` si Argon2 falla. Depende de la sal
/// aleatoria, así que no se afirma su texto; como muestra la documentación de
/// argon2, el hash devuelto, leído con `PasswordHash::new`, verifica la misma
/// contraseña con `Argon2::default().verify_password`.
#[verifier::external_body]
fn argon2_hash(password: &str) -> (r: Option<String>)
    ensures
        r matches Some(h) ==> argon2_verifica(h@, password@) == Some(true),
{
    let sal = argon2::password_hash::SaltString::generate(&mut argon2::password_hash::rand_core::OsRng);
    argon2::Argon2::default().hash_password(password.as_bytes(), &sal).ok().map(|h| h.to_string())
}

/// Hash PHC (Argon2 con sal aleatoria) con que se guarda una contraseña. El
/// texto depende de la sal: se afirma que el hash devuelto verifica la misma
/// contraseña y que un fallo de Argon2 es el error `Hash`.
pub fn hash_password(password: &str) -> (r: Result<String, ErrorAuth>)
    ensures
        r matches Ok(h) ==> argon2_verifica(h@, password@) == Some(true),
        r is Err ==> r == Err::<String, ErrorAuth>(ErrorAuth::Hash),
{
    match argon2_hash(password) {
        Some(h) => Ok(h),
        None => Err(ErrorAuth::Hash),
    }
}

/// Resultado de verificar una contraseña contra un hash PHC: `None` si el
/// hash no se puede leer.
pub uninterp spec fn argon2_verifica(hash: Seq<char>, password: Seq<char>) -> Option<bool>;

/// `PasswordHash::new` y `Argon2::default().verify_password`: si la contraseña
/// corresponde al hash, o `None` si el hash no se puede leer. El contrato
/// sólo afirma que es función de ambos.
#[verifier::external_body]
fn argon2_verificar(hash: &str, password: &str) -> (r: Option<bool>)
    ensures
        r == argon2_verifica(hash@, password@),
{
    let h = argon2::password_hash::PasswordHash::new(hash).ok()?;
    Some(argon2::Argon2::default().verify_password(password.as_bytes(), &h).is_ok())
}

/// Si la contraseña corresponde al hash PHC guardado; el error
/// `HashIlegible` si el hash no se puede leer.
pub fn verify_password(hash: &str, password: &str) -> (r: Result<bool, ErrorAuth>)
    ensures
        match argon2_verifica(hash@, password@) {
            Some(b) => r == Ok::<bool, ErrorAuth>(b),
            None => r == Err::<bool, ErrorAuth>(ErrorAuth::HashIlegible),
        },
{
    match argon2_verificar(hash, password) {
        Some(b) => Ok(b),
        None => Err(ErrorAuth::HashIlegible),
    }
}

/// Las credenciales de un administrador son válidas: su rol es ADMIN y la
/// contraseña corresponde.
pub fn validar_credenciales_admin(rol: &str, hash: &str, password: &str) -> (r: Result<(), ErrorAuth>)
    ensures
        r is Ok <==> (rol@ == "ADMIN"@ && argon2_verifica(hash@, password@) == Some(true)),
        r is Err ==> r == Err::<(), ErrorAuth>(ErrorAuth::CredencialesInvalidas),
{
    if !mismo_texto(rol, "ADMIN") {
        return Err(ErrorAuth::CredencialesInvalidas);
    }
    match argon2_verificar(hash, password) {
        Some(true) => Ok(()),
        _ => Err(ErrorAuth::CredencialesInvalidas),
    }
}

/// Hash con que se guarda un token de restablecimiento: SHA-256 en
/// hexadecimal en minúsculas.
pub fn hash_token(token: &str) -> (r: String)
    ensures
        r@ == hex_minusculas(sha256_de(vstd::utf8::encode_utf8(token@))),
{
    let h = sha256(token.as_bytes());
    hex(h.as_slice(), false)
}

/// `rand::thread_rng().fill_bytes`: 32 bytes aleatorios.
#[verifier::external_body]
fn bytes_aleatorios() -> (r: Vec<u8>)
    ensures
        r@.len() == 32,
{
    let mut b = [0u8; 32];
    rand::thread_rng().fill_bytes(&mut b);
    b.to_vec()
}

/// Símbolo del alfabeto base64 seguro para URL (RFC 4648, sección 5).
pub open spec fn simbolo_b64_url(i: int) -> char {
    if i == 62 {
        '-'
    } else if i == 63 {
        '_'
    } else {
        simbolo_b64(i)
    }
}

/// Base64 seguro para URL, sin relleno.
pub open spec fn base64_url_sin_relleno(b: Seq<u8>) -> Seq<char>
    decreases b.len(),
{
    if b.len() == 0 {
        Seq::empty()
    } else if b.len() == 1 {
        seq![simbolo_b64_url((b[0] as int) / 4), simbolo_b64_url(((b[0] as int) % 4) * 16)]
    } else if b.len() == 2 {
        seq![
            simbolo_b64_url((b[0] as int) / 4),
            simbolo_b64_url(((b[0] as int) % 4) * 16 + (b[1] as int) / 16),
            simbolo_b64_url(((b[1] as int) % 16) * 4),
        ]
    } else {
        seq![
            simbolo_b64_url((b[0] as int) / 4),
            simbolo_b64_url(((b[0] as int) % 4) * 16 + (b[1] as int) / 16),
            simbolo_b64_url(((b[1] as int) % 16) * 4 + (b[2] as int) / 64),
            simbolo_b64_url((b[2] as int) % 64),
        ] + base64_url_sin_relleno(b.skip(3))
    }
}

/// `base64::engine::general_purpose::URL_SAFE_NO_PAD.encode`: base64 seguro
/// para URL sin relleno (RFC 4648).
#[verifier::external_body]
fn base64_url(datos: &[u8]) -> (r: String)
    ensures
        r@ == base64_url_sin_relleno(datos@),
{
    base64::engine::general_purpose::URL_SAFE_NO_PAD.encode(datos)
}

/// Token de restablecimiento nuevo: el texto que viaja en el enlace (32
/// bytes aleatorios en base64 para URL) y el hash con que se guarda.
pub fn token_reset() -> (r: (String, String))
    ensures
        exists|b: Seq<u8>| b.len() == 32 && r.0@ == base64_url_sin_relleno(b),
        r.1@ == hex_minusculas(sha256_de(vstd::utf8::encode_utf8(r.0@))),
{
    let b = bytes_aleatorios();
    let token = base64_url(b.as_slice());
    let h = hash_token(token.as_str());
    proof {
        assert(b@.len() == 32 && token@ == base64_url_sin_relleno(b@));
    }
    (token, h)
}

/// Alfabeto de las contraseñas temporales (sin caracteres que se confunden).
pub open spec fn alfabeto() -> Seq<char> {
    "ABCDEFGHJKLMNPQRSTUVWXYZabcdefghijkmnpqrstuvwxyz23456789"@
}

/// Contraseña temporal a partir de números aleatorios: cada uno elige el
/// carácter `alfabeto[n % largo]`.
pub open spec fn temporal_de(nums: Seq<u32>) -> Seq<char> {
    nums.map_values(|n: u32| alfabeto()[(n as int) % (alfabeto().len() as int)])
}

/// Contraseña temporal de los números dados.
pub fn contrasena_temporal(nums: &Vec<u32>) -> (r: String)
    ensures
        r@ == temporal_de(nums@),
{
    let alf = caracteres("ABCDEFGHJKLMNPQRSTUVWXYZabcdefghijkmnpqrstuvwxyz23456789");
    proof {
        reveal_strlit("ABCDEFGHJKLMNPQRSTUVWXYZabcdefghijkmnpqrstuvwxyz23456789");
    }
    let mut r = String::new();
    let mut i: usize = 0;
    while i < nums.len()
        invariant
            i <= nums.len(),
            alf@ == alfabeto(),
            alf@.len() == 56,
            r@ == temporal_de(nums@.take(i as int)),
        decreases nums.len() - i,
    {
        let n = nums[i];
        let k = (n as usize) % alf.len();
        empujar(&mut r, alf[k]);
        proof {
            assert(temporal_de(nums@.take(i + 1)) =~= temporal_de(nums@.take(i as int)).push(
                alfabeto()[(n as int) % 56],
            ));
        }
        i = i + 1;
    }
    proof {
        assert(nums@.take(i as int) =~= nums@);
    }
    r
}

/// `rand::thread_rng().next_u32`: un número aleatorio.
#[verifier::external_body]
fn aleatorio_u32() -> (r: u32) {
    rand::thread_rng().next_u32()
}

/// Contraseña temporal aleatoria de diez caracteres del alfabeto.
pub fn generar_temporal() -> (r: String)
    ensures
        exists|nums: Seq<u32>| nums.len() == 10 && r@ == temporal_de(nums),
{
    let mut nums: Vec<u32> = Vec::new();
    let mut i: usize = 0;
    while i < 10
        invariant
            i <= 10,
            nums@.len() == i,
        decreases 10 - i,
    {
        nums.push(aleatorio_u32());
        i = i + 1;
    }
    let r = contrasena_temporal(&nums);
    proof {
        assert(nums@.len() == 10 && r@ == temporal_de(nums@));
    }
    r
}

/// Cuenta del plan de cuentas: código, nombre, tipo y naturaleza.
pub open spec fn plan_de_cuentas() -> Seq<(Seq<char>, Seq<char>, Seq<char>, Seq<char>)> {
    seq![
        ("1100"@, "Caja y Bancos"@, "ACTIVO"@, "DEUDORA"@),
        ("1110"@, "Cuentas por Cobrar"@, "ACTIVO"@, "DEUDORA"@),
        ("1150"@, "ITBIS Adelantado"@, "ACTIVO"@, "DEUDORA"@),
        ("1160"@, "Depósitos Bancarios"@, "ACTIVO"@, "DEUDORA"@),
        ("1200"@, "Inventario"@, "ACTIVO"@, "DEUDORA"@),
        ("1300"@, "Anticipos a Empleados"@, "ACTIVO"@, "DEUDORA"@),
        ("2100"@, "ITBIS por Pagar"@, "PASIVO"@, "ACREEDORA"@),
        ("2200"@, "Retenciones y Descuentos"@, "PASIVO"@, "ACREEDORA"@),
        ("4100"@, "Ingresos por Ventas"@, "INGRESO"@, "ACREEDORA"@),
        ("4200"@, "Otros Ingresos"@, "INGRESO"@, "ACREEDORA"@),
        ("5050"@, "Costo de Ventas"@, "GASTO"@, "DEUDORA"@),
        ("5100"@, "Gasto de Nómina"@, "GASTO"@, "DEUDORA"@),
        ("5210"@, "Gasto de Alquiler"@, "GASTO"@, "DEUDORA"@),
        ("5220"@, "Gasto de Servicios"@, "GASTO"@, "DEUDORA"@),
        ("5230"@, "Gasto de Transporte"@, "GASTO"@, "DEUDORA"@),
        ("5290"@, "Otros Gastos Operativos"@, "GASTO"@, "DEUDORA"@),
        ("5295"@, "Ajuste de Inventario (Merma)"@, "GASTO"@, "DEUDORA"@),
    ]
}

/// Vista de una cuenta.
pub open spec fn vista_cuenta(c: (String, String, String, String)) -> (
    Seq<char>,
    Seq<char>,
    Seq<char>,
    Seq<char>,
) {
    (c.0@, c.1@, c.2@, c.3@)
}

fn cuenta(codigo: &str, nombre: &str, tipo: &str, naturaleza: &str) -> (r: (String, String, String, String))
    ensures
        vista_cuenta(r) == (codigo@, nombre@, tipo@, naturaleza@),
{
    (a_string(codigo), a_string(nombre), a_string(tipo), a_string(naturaleza))
}

/// Plan de cuentas inicial de un negocio nuevo.
pub fn cuentas_iniciales() -> (r: Vec<(String, String, String, String)>)
    ensures
        r@.map_values(|c: (String, String, String, String)| vista_cuenta(c)) == plan_de_cuentas(),
{
    let v = vec![
        cuenta("1100", "Caja y Bancos", "ACTIVO", "DEUDORA"),
        cuenta("1110", "Cuentas por Cobrar", "ACTIVO", "DEUDORA"),
        cuenta("1150", "ITBIS Adelantado", "ACTIVO", "DEUDORA"),
        cuenta("1160", "Depósitos Bancarios", "ACTIVO", "DEUDORA"),
        cuenta("1200", "Inventario", "ACTIVO", "DEUDORA"),
        cuenta("1300", "Anticipos a Empleados", "ACTIVO", "DEUDORA"),
        cuenta("2100", "ITBIS por Pagar", "PASIVO", "ACREEDORA"),
        cuenta("2200", "Retenciones y Descuentos", "PASIVO", "ACREEDORA"),
        cuenta("4100", "Ingresos por Ventas", "INGRESO", "ACREEDORA"),
        cuenta("4200", "Otros Ingresos", "INGRESO", "ACREEDORA"),
        cuenta("5050", "Costo de Ventas", "GASTO", "DEUDORA"),
        cuenta("5100", "Gasto de Nómina", "GASTO", "DEUDORA"),
        cuenta("5210", "Gasto de Alquiler", "GASTO", "DEUDORA"),
        cuenta("5220", "Gasto de Servicios", "GASTO", "DEUDORA"),
        cuenta("5230", "Gasto de Transporte", "GASTO", "DEUDORA"),
        cuenta("5290", "Otros Gastos Operativos", "GASTO", "DEUDORA"),
        cuenta("5295", "Ajuste de Inventario (Merma)", "GASTO", "DEUDORA"),
    ];
    proof {
        assert(v@.map_values(|c: (String, String, String, String)| vista_cuenta(c)) =~= plan_de_cuentas());
    }
    v
}

/// El restablecimiento hecho por el personal necesita que el usuario exista
/// en el negocio (que la actualización haya tocado una fila).
pub fn validar_reset_admin(filas_afectadas: u64) -> (r: Result<(), ErrorAuth>)
    ensures
        r is Ok <==> filas_afectadas > 0,
        r is Err ==> r == Err::<(), ErrorAuth>(ErrorAuth::UsuarioNoEncontrado),
{
    if filas_afectadas == 0 {
        Err(ErrorAuth::UsuarioNoEncontrado)
    } else {
        Ok(())
    }
}

/// Claves con que se busca al usuario que inicia sesión: el correo en
/// minúsculas y, si se indicó, el RNC sin guiones.
pub fn claves_login(req: &LoginRequest) -> (r: (String, Option<String>))
    ensures
        r.0@ == minusculas(req.email@),
        match req.rnc {
            Some(x) => r.1 matches Some(y) && y@ == reemplazar(x@, "-"@, ""@),
            None => r.1 is None,
        },
{
    let email = a_minusculas(req.email.as_str());
    proof {
        reveal_strlit("-");
    }
    let rnc = match &req.rnc {
        Some(x) => Some(reemplazar_todo(&caracteres(x.as_str()), &caracteres("-"), "")),
        None => None,
    };
    (email, rnc)
}

/// Resultado del inicio de sesión con el hash del usuario encontrado (o
/// ninguno).
pub open spec fn resultado_login(hash: Option<Seq<char>>, password: Seq<char>) -> Result<(), ErrorAuth> {
    match hash {
        None => Err(ErrorAuth::EmailNoEncontrado),
        Some(h) => match argon2_verifica(h, password) {
            None => Err(ErrorAuth::HashIlegible),
            Some(false) => Err(ErrorAuth::ContrasenaIncorrecta),
            Some(true) => Ok(()),
        },
    }
}

/// Valida el inicio de sesión: el usuario debe existir y la contraseña
/// corresponder a su hash.
pub fn validar_login(hash: Option<&str>, password: &str) -> (r: Result<(), ErrorAuth>)
    ensures
        r == resultado_login(
            match hash {
                Some(h) => Some(h@),
                None => None,
            },
            password@,
        ),
{
    match hash {
        None => Err(ErrorAuth::EmailNoEncontrado),
        Some(h) => match argon2_verificar(h, password) {
            None => Err(ErrorAuth::HashIlegible),
            Some(false) => Err(ErrorAuth::ContrasenaIncorrecta),
            Some(true) => Ok(()),
        },
    }
}

} // verus!

//! Certificado P12 del emisor cifrado en reposo con AES-256-GCM: la clave
//! simétrica de la configuración, un nonce aleatorio de 12 bytes por dato y
//! la etiqueta de autenticación de 16 bytes pegada al final del cifrado.
use vstd::prelude::*;
use crate::ecfl::{load_p12, texto_utf8, ErrorFirma};
use crate::texto::{caracteres, recortado, recortar};
use crate::cripto::base64_estandar;

verus! {

/// Los bytes cuyo base64 estándar con relleno es `texto`, si los hay: la
/// codificación es inyectiva, así que a lo sumo hay unos.
pub open spec fn base64_decodificado(texto: Seq<char>) -> Option<Seq<u8>> {
    if exists|b: Seq<u8>| base64_estandar(b) == texto {
        Some(choose|b: Seq<u8>| base64_estandar(b) == texto)
    } else {
        None
    }
}

/// Lo que sale de `openssl::symm::encrypt_aead` con AES-256-GCM, sin datos
/// adicionales y etiqueta de 16 bytes: el cifrado y la etiqueta.
pub uninterp spec fn cifrado_gcm(clave: Seq<u8>, nonce: Seq<u8>, datos: Seq<u8>) -> Option<(Seq<u8>, Seq<u8>)>;

/// Lo que sale de `openssl::symm::decrypt_aead` con AES-256-GCM, sin datos
/// adicionales: el texto claro si la etiqueta autentica el cifrado.
pub uninterp spec fn descifrado_gcm(clave: Seq<u8>, nonce: Seq<u8>, datos: Seq<u8>, etiqueta: Seq<u8>) -> Option<
    Seq<u8>,
>;

/// Por qué falló el manejo del certificado.
#[derive(Clone, Copy, Debug, PartialEq, Eq, Structural)]
pub enum ErrorCertificado {
    /// El texto no es base64 válido.
    Base64Invalido,
    /// La clave de cifrado no decodifica a 32 bytes.
    ClaveInvalida,
    /// El P12 o su contraseña no abren.
    CertificadoInvalido(ErrorFirma),
    /// El cifrado falló.
    Cifrado,
    /// El dato cifrado es demasiado corto o su nonce no tiene 12 bytes.
    Corrupto,
    /// La etiqueta no autentica el dato: clave incorrecta o dato alterado.
    Descifrado,
    /// La contraseña descifrada no es UTF-8.
    ContrasenaCorrupta,
}

/// Certificado y contraseña cifrados, cada uno con su nonce.
#[derive(Clone, Debug)]
pub struct CertificadoCifrado {
    pub cert_encrypted: Vec<u8>,
    pub cert_nonce: Vec<u8>,
    pub password_encrypted: Vec<u8>,
    pub password_nonce: Vec<u8>,
}

/// Datos para subir un certificado.
#[derive(Clone, Debug)]
pub struct UploadCertificadoRequest {
    pub nombre_archivo: String,
    pub p12_base64: String,
    pub password: String,
}

/// `STANDARD.decode`: los bytes que codifica el texto en base64 estándar,
/// o `None` si no es base64 válido. `STANDARD` exige el relleno canónico y
/// rechaza bits sobrantes (`RequireCanonical`, `decode_allow_trailing_bits:
/// false`), así que acepta exactamente los textos que `STANDARD.encode`
/// produce y devuelve los bytes que los producen.
#[verifier::external_body]
fn decodificar_base64(texto: &str) -> (r: Option<Vec<u8>>)
    ensures
        match r {
            Some(b) => base64_estandar(b@) == texto@ && base64_decodificado(texto@) == Some(b@),
            None => base64_decodificado(texto@) is None,
        },
{
    base64::Engine::decode(&base64::engine::general_purpose::STANDARD, texto).ok()
}

/// `encrypt_aead(Cipher::aes_256_gcm(), clave, Some(nonce), b"", datos,
/// &mut etiqueta)` con una etiqueta de 16 bytes. La clave de 32 bytes y el
/// nonce de 12 son los que el cifrado espera.
#[verifier::external_body]
fn cifrar_gcm(clave: &[u8], nonce: &[u8], datos: &[u8]) -> (r: Option<(Vec<u8>, Vec<u8>)>)
    requires
        clave@.len() == 32,
        nonce@.len() == 12,
    ensures
        match r {
            Some((c, t)) => cifrado_gcm(clave@, nonce@, datos@) == Some((c@, t@)) && t@.len() == 16,
            None => cifrado_gcm(clave@, nonce@, datos@) is None,
        },
        // Con la misma clave y el mismo nonce, el cifrado y su etiqueta se
        // descifran al texto original.
        r matches Some((c, t)) ==> descifrado_gcm(clave@, nonce@, c@, t@) == Some(datos@),
{
    let mut etiqueta = [0u8; 16];
    let c = openssl::symm::encrypt_aead(openssl::symm::Cipher::aes_256_gcm(), clave, Some(nonce), b"", datos, &mut etiqueta).ok()?;
    Some((c, etiqueta.to_vec()))
}

/// `decrypt_aead(Cipher::aes_256_gcm(), clave, Some(nonce), b"", datos,
/// etiqueta)`.
#[verifier::external_body]
fn descifrar_gcm(clave: &[u8], nonce: &[u8], datos: &[u8], etiqueta: &[u8]) -> (r: Option<Vec<u8>>)
    requires
        clave@.len() == 32,
        nonce@.len() == 12,
    ensures
        match r {
            Some(p) => descifrado_gcm(clave@, nonce@, datos@, etiqueta@) == Some(p@),
            None => descifrado_gcm(clave@, nonce@, datos@, etiqueta@) is None,
        },
{
    openssl::symm::decrypt_aead(openssl::symm::Cipher::aes_256_gcm(), clave, Some(nonce), b"", datos, etiqueta).ok()
}

/// `rand::thread_rng().fill_bytes` sobre 12 bytes: un nonce nuevo. Sólo su
/// largo se afirma.
#[verifier::external_body]
fn nonce_aleatorio() -> (r: Vec<u8>)
    ensures
        r@.len() == 12,
{
    let mut n = vec![0u8; 12];
    rand::RngCore::fill_bytes(&mut rand::thread_rng(), &mut n);
    n
}

/// Clave de cifrado configurada: el texto en base64 (sin espacios alrededor)
/// debe decodificar a exactamente 32 bytes.
pub fn clave_desde_base64(texto: &str) -> (r: Result<Vec<u8>, ErrorCertificado>)
    ensures
        match r {
            Ok(k) => base64_decodificado(recortar(texto@)) == Some(k@) && k@.len() == 32,
            Err(ErrorCertificado::Base64Invalido) => base64_decodificado(recortar(texto@)) is None,
            Err(ErrorCertificado::ClaveInvalida) => base64_decodificado(recortar(texto@)) matches Some(
                b,
            ) && b.len() != 32,
            Err(_) => false,
        },
{
    let t = recortado(texto);
    match decodificar_base64(t.as_str()) {
        None => Err(ErrorCertificado::Base64Invalido),
        Some(b) => if b.len() == 32 {
            Ok(b)
        } else {
            Err(ErrorCertificado::ClaveInvalida)
        },
    }
}

/// Cifra con la clave y un nonce nuevo: devuelve el cifrado con la etiqueta
/// al final, y el nonce.
pub fn aead_encrypt(clave: &[u8], texto: &[u8]) -> (r: Result<(Vec<u8>, Vec<u8>), ErrorCertificado>)
    requires
        clave@.len() == 32,
    ensures
        match r {
            Ok((c, n)) => n@.len() == 12 && exists|x: Seq<u8>, t: Seq<u8>|
                cifrado_gcm(clave@, n@, texto@) == Some((x, t)) && t.len() == 16 && c@ == x + t,
            Err(e) => e == ErrorCertificado::Cifrado && exists|n: Seq<u8>|
                n.len() == 12 && cifrado_gcm(clave@, n, texto@) is None,
        },
        // Lo cifrado se descifra al texto original.
        r matches Ok((c, n)) ==> descifrado(clave@, c@, n@) == Ok::<Seq<u8>, ErrorCertificado>(texto@),
{
    let nonce = nonce_aleatorio();
    match cifrar_gcm(clave, nonce.as_slice(), texto) {
        None => Err(ErrorCertificado::Cifrado),
        Some((mut c, t)) => {
            let ghost x = c@;
            let mut tv = t;
            c.append(&mut tv);
            proof {
                assert(c@ =~= x + t@);
                assert(c@.subrange(0, c@.len() - 16) =~= x);
                assert(c@.subrange(c@.len() - 16, c@.len() as int) =~= t@);
            }
            Ok((c, nonce))
        },
    }
}

/// Datos cifrados con la etiqueta al final: el cifrado y la etiqueta, o
/// `None` si no alcanzan para una etiqueta de 16 bytes.
pub open spec fn separar_etiqueta(d: Seq<u8>) -> Option<(Seq<u8>, Seq<u8>)> {
    if d.len() < 16 {
        None
    } else {
        Some((d.subrange(0, d.len() - 16), d.subrange(d.len() - 16, d.len() as int)))
    }
}

/// Descifrado de datos con la etiqueta al final.
pub open spec fn descifrado(clave: Seq<u8>, datos: Seq<u8>, nonce: Seq<u8>) -> Result<Seq<u8>, ErrorCertificado> {
    match separar_etiqueta(datos) {
        None => Err(ErrorCertificado::Corrupto),
        Some((c, t)) => if nonce.len() != 12 {
            Err(ErrorCertificado::Corrupto)
        } else {
            match descifrado_gcm(clave, nonce, c, t) {
                Some(p) => Ok(p),
                None => Err(ErrorCertificado::Descifrado),
            }
        },
    }
}

/// Copia de `v[desde..hasta]`.
fn tramo(v: &[u8], desde: usize, hasta: usize) -> (r: Vec<u8>)
    requires
        desde <= hasta <= v@.len(),
    ensures
        r@ == v@.subrange(desde as int, hasta as int),
{
    let mut r: Vec<u8> = Vec::new();
    let mut i = desde;
    while i < hasta
        invariant
            desde <= i <= hasta,
            hasta <= v@.len(),
            r@ == v@.subrange(desde as int, i as int),
        decreases hasta - i,
    {
        r.push(v[i]);
        proof {
            assert(r@ =~= v@.subrange(desde as int, i + 1));
        }
        i = i + 1;
    }
    r
}

/// Descifra datos con la etiqueta de 16 bytes al final.
pub fn aead_decrypt(clave: &[u8], datos: &[u8], nonce: &[u8]) -> (r: Result<Vec<u8>, ErrorCertificado>)
    requires
        clave@.len() == 32,
    ensures
        match r {
            Ok(p) => descifrado(clave@, datos@, nonce@) == Ok::<Seq<u8>, ErrorCertificado>(p@),
            Err(e) => descifrado(clave@, datos@, nonce@) == Err::<Seq<u8>, ErrorCertificado>(e),
        },
{
    if datos.len() < 16 {
        return Err(ErrorCertificado::Corrupto);
    }
    if nonce.len() != 12 {
        return Err(ErrorCertificado::Corrupto);
    }
    let corte = datos.len() - 16;
    let c = tramo(datos, 0, corte);
    let t = tramo(datos, corte, datos.len());
    match descifrar_gcm(clave, nonce, c.as_slice(), t.as_slice()) {
        Some(p) => Ok(p),
        None => Err(ErrorCertificado::Descifrado),
    }
}

/// Lo que se recupera de un certificado guardado: el P12 y los bytes de la
/// contraseña descifrados, si la contraseña es UTF-8 válido.
pub open spec fn apertura(clave: Seq<u8>, c: CertificadoCifrado) -> Result<(Seq<u8>, Seq<u8>), ErrorCertificado> {
    match descifrado(clave, c.cert_encrypted@, c.cert_nonce@) {
        Err(e) => Err(e),
        Ok(der) => match descifrado(clave, c.password_encrypted@, c.password_nonce@) {
            Err(e) => Err(e),
            Ok(p) => if vstd::utf8::valid_utf8(p) {
                Ok((der, p))
            } else {
                Err(ErrorCertificado::ContrasenaCorrupta)
            },
        },
    }
}

/// Prepara un certificado para guardarlo: decodifica el P12 (base64 sin
/// espacios alrededor), comprueba que abre con la contraseña y cifra por
/// separado el P12 y la contraseña, cada uno con su nonce.
pub fn preparar_certificado(clave: &[u8], req: &UploadCertificadoRequest) -> (r: Result<
    CertificadoCifrado,
    ErrorCertificado,
>)
    requires
        clave@.len() == 32,
        !req.password@.contains('\0'),
    ensures
        base64_decodificado(recortar(req.p12_base64@)) is None ==> r == Err::<
            CertificadoCifrado,
            ErrorCertificado,
        >(ErrorCertificado::Base64Invalido),
        r matches Ok(c) ==> {
            &&& base64_decodificado(recortar(req.p12_base64@)) matches Some(der)
            &&& c.cert_nonce@.len() == 12 && c.password_nonce@.len() == 12
            &&& exists|x: Seq<u8>, t: Seq<u8>|
                cifrado_gcm(clave@, c.cert_nonce@, der) == Some((x, t)) && t.len() == 16
                    && c.cert_encrypted@ == x + t
            &&& exists|x: Seq<u8>, t: Seq<u8>|
                cifrado_gcm(clave@, c.password_nonce@, vstd::utf8::encode_utf8(req.password@))
                    == Some((x, t)) && t.len() == 16 && c.password_encrypted@ == x + t
            // Lo guardado se abre con la misma clave: el P12 y la contraseña que se subieron.
            &&& apertura(clave@, c) == Ok::<(Seq<u8>, Seq<u8>), ErrorCertificado>(
                (der, vstd::utf8::encode_utf8(req.password@)),
            )
        },
{
    let texto = recortado(req.p12_base64.as_str());
    let der = match decodificar_base64(texto.as_str()) {
        Some(d) => d,
        None => return Err(ErrorCertificado::Base64Invalido),
    };
    match load_p12(der.as_slice(), req.password.as_str()) {
        Ok(_) => {},
        Err(e) => return Err(ErrorCertificado::CertificadoInvalido(e)),
    }
    let (cert_encrypted, cert_nonce) = aead_encrypt(clave, der.as_slice())?;
    let (password_encrypted, password_nonce) = aead_encrypt(clave, req.password.as_str().as_bytes())?;
    proof {
        vstd::utf8::encode_utf8_valid_utf8(req.password@);
    }
    Ok(CertificadoCifrado { cert_encrypted, cert_nonce, password_encrypted, password_nonce })
}

/// Descifra el P12 y su contraseña guardados.
pub fn abrir_certificado(clave: &[u8], c: &CertificadoCifrado) -> (r: Result<(Vec<u8>, String), ErrorCertificado>)
    requires
        clave@.len() == 32,
    ensures
        match r {
            Ok((der, pass)) => apertura(clave@, *c) == Ok::<(Seq<u8>, Seq<u8>), ErrorCertificado>(
                (der@, vstd::utf8::encode_utf8(pass@)),
            ),
            Err(e) => apertura(clave@, *c) == Err::<(Seq<u8>, Seq<u8>), ErrorCertificado>(e),
        },
{
    let der = aead_decrypt(clave, c.cert_encrypted.as_slice(), c.cert_nonce.as_slice())?;
    let pass = aead_decrypt(clave, c.password_encrypted.as_slice(), c.password_nonce.as_slice())?;
    match texto_utf8(pass) {
        Some(p) => Ok((der, p)),
        None => Err(ErrorCertificado::ContrasenaCorrupta),
    }
}

} // verus!

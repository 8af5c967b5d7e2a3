//! Firma XAdES-BES del e-CF según la guía de la DGII.
//!
//! El flujo: se canonicaliza el XML original, se calcula su resumen SHA-256 en
//! base64, se arma el esqueleto `<Signature>` con el resumen y el certificado,
//! se inserta antes del cierre del elemento raíz, se canonicaliza el
//! `<SignedInfo>`, se firma con la clave privada (RSA-SHA256) y se inyecta el
//! `SignatureValue`. El código de seguridad son los seis primeros dígitos
//! hexadecimales (en mayúsculas) del SHA-256 de la firma.
use vstd::prelude::*;
use crate::texto::{
    a_string, buscar, buscar_desde, buscar_en, caracteres, coincide_en, empieza, empieza_con, empujar,
    lema_buscar_desde_rango, lema_buscar_atras_rango, buscar_ultimo, buscar_ultimo_en, contiene, recortado, recortar, reemplazar, reemplazar_todo, subcadena,
};
use crate::xml_c14n::{c14n_nodos, canonicalize, canonicalize_fragment, xml_plano};
use crate::cripto::{base64_estandar, base64_standard, hex, hex_mayusculas, sha256, sha256_de};

verus! {

// ---------------------------------------------------------------------------
// Especificación de los pasos de texto
// ---------------------------------------------------------------------------

/// El XML sin espacios alrededor y sin la declaración `<?xml ...?>` inicial.
pub open spec fn sin_declaracion(xml: Seq<char>) -> Seq<char> {
    let t = recortar(xml);
    if empieza_con(t, "<?xml"@) {
        match buscar(t, "?>"@) {
            Some(p) => recortar(t.skip(p + 2)),
            None => t,
        }
    } else {
        t
    }
}

/// Carácter que termina el nombre de la etiqueta raíz.
pub open spec fn fin_de_nombre(c: char) -> bool {
    c == '>' || c == ' ' || c == '\n' || c == '\r'
}

/// Primera posición `>= desde` con un carácter que termina un nombre.
pub open spec fn primer_fin_de_nombre(s: Seq<char>, desde: int) -> Option<int>
    decreases s.len() - desde,
{
    if desde < 0 || desde >= s.len() {
        None
    } else if fin_de_nombre(s[desde]) {
        Some(desde)
    } else {
        primer_fin_de_nombre(s, desde + 1)
    }
}

/// Nombre de la primera etiqueta del XML, sin declaración.
pub open spec fn etiqueta_raiz(xml: Seq<char>) -> Option<Seq<char>> {
    let x = sin_declaracion(xml);
    match buscar(x, "<"@) {
        None => None,
        Some(i) => match primer_fin_de_nombre(x, i + 1) {
            None => None,
            Some(e) => Some(x.subrange(i + 1, e)),
        },
    }
}

/// Esqueleto `<Signature>` sin `SignatureValue`, con el resumen y el
/// certificado en base64.
pub open spec fn esqueleto_firma(digest: Seq<char>, cert: Seq<char>) -> Seq<char> {
    "<Signature xmlns=\"http://www.w3.org/2000/09/xmldsig#\"><SignedInfo><CanonicalizationMethod Algorithm=\"http://www.w3.org/TR/2001/REC-xml-c14n-20010315\"/><SignatureMethod Algorithm=\"http://www.w3.org/2001/04/xmldsig-more#rsa-sha256\"/><Reference URI=\"\"><Transforms><Transform Algorithm=\"http://www.w3.org/2000/09/xmldsig#enveloped-signature\"/></Transforms><DigestMethod Algorithm=\"http://www.w3.org/2001/04/xmlenc#sha256\"/><DigestValue>"@
        + digest + "</DigestValue></Reference></SignedInfo><SignatureValue></SignatureValue><KeyInfo><X509Data><X509Certificate>"@
        + cert + "</X509Certificate></X509Data></KeyInfo></Signature>"@
}

/// El elemento `<SignedInfo>...</SignedInfo>` (la primera apertura y el primer
/// cierre que la sigue), si está.
pub open spec fn signed_info(x: Seq<char>) -> Result<Seq<char>, ErrorFirma> {
    match buscar(x, "<SignedInfo>"@) {
        None => Err(ErrorFirma::SinInicioSignedInfo),
        Some(i) => match buscar_desde(x, "</SignedInfo>"@, i) {
            None => Err(ErrorFirma::SinFinSignedInfo),
            Some(j) => Ok(x.subrange(i, j + "</SignedInfo>"@.len())),
        },
    }
}

/// Codificación de un carácter en los parámetros del enlace QR.
pub open spec fn codificar_caracter(c: char) -> Seq<char> {
    if c == ' ' {
        "%20"@
    } else if c == '&' {
        "%26"@
    } else if c == '=' {
        "%3D"@
    } else if c == '?' {
        "%3F"@
    } else {
        seq![c]
    }
}

/// Texto con espacios, `&`, `=` y `?` codificados en porcentaje.
pub open spec fn codificado_url(s: Seq<char>) -> Seq<char>
    decreases s.len(),
{
    if s.len() == 0 {
        Seq::empty()
    } else {
        codificado_url(s.drop_last()) + codificar_caracter(s.last())
    }
}

/// Enlace de consulta del timbre en la DGII.
pub open spec fn url_qr(
    rnc_emisor: Seq<char>,
    e_ncf: Seq<char>,
    rnc_comprador: Seq<char>,
    fecha: Seq<char>,
    monto: Seq<char>,
    codigo: Seq<char>,
) -> Seq<char> {
    "https://ecf.dgii.gov.do/eCF/ConsultaTimbre?RNCEmisor="@ + codificado_url(rnc_emisor)
        + "&eNCF="@ + codificado_url(e_ncf) + "&RNCComprador="@ + codificado_url(rnc_comprador)
        + "&FechaEmision="@ + codificado_url(fecha) + "&MontoTotal="@ + codificado_url(monto)
        + "&CodigoSeguridad="@ + codificado_url(codigo)
}

// ---------------------------------------------------------------------------
// Errores
// ---------------------------------------------------------------------------

/// Errores de la firma del e-CF.
#[derive(PartialEq, Eq, Structural, Clone, Copy, Debug)]
pub enum ErrorFirma {
    /// El archivo no es un PKCS#12 en DER.
    P12Invalido,
    /// El PKCS#12 no se pudo abrir (contraseña incorrecta), o su clave o su
    /// certificado no se pudieron codificar en DER.
    P12Clave,
    /// El PKCS#12 no trae clave privada.
    P12SinClave,
    /// El PKCS#12 no trae certificado.
    P12SinCertificado,
    /// El certificado no se pudo codificar en PEM.
    CertificadoPem,
    /// El XML original no se pudo canonicalizar.
    C14nOriginal,
    /// No se encontró el cierre del elemento raíz en el XML canónico.
    SinCierreRaiz,
    /// No se encontró `<SignedInfo>`.
    SinInicioSignedInfo,
    /// No se encontró `</SignedInfo>`.
    SinFinSignedInfo,
    /// El `SignedInfo` no se pudo canonicalizar.
    C14nSignedInfo,
    /// La clave privada no pudo firmar.
    Firma,
    /// No se encontró `</SignatureValue>` tras `<SignatureValue>`.
    SinFinSignatureValue,
    /// No se encontró `</Signature>`.
    SinCierreSignature,
}

// ---------------------------------------------------------------------------
// Funciones ejecutables de texto
// ---------------------------------------------------------------------------

/// Quita espacios alrededor y la declaración `<?xml ...?>` inicial.
pub fn remove_xml_declaration(xml: &str) -> (r: String)
    ensures
        r@ == sin_declaracion(xml@),
{
    let t = recortado(xml);
    let v = caracteres(t.as_str());
    let decl = caracteres("<?xml");
    if empieza(&v, &decl) {
        let fin = caracteres("?>");
        match buscar_en(&v, &fin, 0) {
            Some(p) => {
                proof {
                    reveal_strlit("?>");
                    lema_buscar_desde_rango(v@, fin@, 0);
                }
                assert(p + 2 <= v.len());
                let resto = subcadena(&v, p + 2, v.len());
                proof {
                    assert(resto@ =~= v@.skip(p + 2));
                }
                recortado(resto.as_str())
            },
            None => t,
        }
    } else {
        t
    }
}

/// Primera posición `>= desde` de un carácter que termina un nombre.
fn buscar_fin_de_nombre(s: &Vec<char>, desde: usize) -> (r: Option<usize>)
    ensures
        r matches Some(i) ==> primer_fin_de_nombre(s@, desde as int) == Some(i as int),
        r is None ==> primer_fin_de_nombre(s@, desde as int) is None,
{
    let mut i = desde;
    while i < s.len()
        invariant
            desde <= i,
            primer_fin_de_nombre(s@, desde as int) == primer_fin_de_nombre(s@, i as int),
        decreases s.len() - i,
    {
        let c = s[i];
        if c == '>' || c == ' ' || c == '\n' || c == '\r' {
            return Some(i);
        }
        i = i + 1;
    }
    None
}

/// Nombre de la primera etiqueta del XML (sin la declaración).
pub fn extract_root_tag(xml: &str) -> (r: Option<String>)
    ensures
        r matches Some(s) ==> etiqueta_raiz(xml@) == Some(s@),
        r is None ==> etiqueta_raiz(xml@) is None,
{
    let x = remove_xml_declaration(xml);
    let v = caracteres(x.as_str());
    let menor = caracteres("<");
    match buscar_en(&v, &menor, 0) {
        None => None,
        Some(i) => {
            proof {
                reveal_strlit("<");
                lema_buscar_desde_rango(v@, menor@, 0);
            }
            match buscar_fin_de_nombre(&v, i + 1) {
                None => None,
                Some(e) => {
                    proof {
                        lema_primer_fin_rango(v@, i + 1);
                    }
                    Some(subcadena(&v, i + 1, e))
                },
            }
        },
    }
}

proof fn lema_primer_fin_rango(s: Seq<char>, desde: int)
    ensures
        primer_fin_de_nombre(s, desde) matches Some(e) ==> desde <= e < s.len(),
    decreases s.len() - desde,
{
    if desde >= 0 && desde < s.len() && !fin_de_nombre(s[desde]) {
        lema_primer_fin_rango(s, desde + 1);
    }
}

/// Esqueleto `<Signature>` con el resumen y el certificado, sin el valor de la
/// firma.
pub fn build_signature_skeleton(digest_value: &str, cert_base64: &str) -> (r: String)
    ensures
        r@ == esqueleto_firma(digest_value@, cert_base64@),
{
    let mut r = a_string(
        "<Signature xmlns=\"http://www.w3.org/2000/09/xmldsig#\"><SignedInfo><CanonicalizationMethod Algorithm=\"http://www.w3.org/TR/2001/REC-xml-c14n-20010315\"/><SignatureMethod Algorithm=\"http://www.w3.org/2001/04/xmldsig-more#rsa-sha256\"/><Reference URI=\"\"><Transforms><Transform Algorithm=\"http://www.w3.org/2000/09/xmldsig#enveloped-signature\"/></Transforms><DigestMethod Algorithm=\"http://www.w3.org/2001/04/xmlenc#sha256\"/><DigestValue>",
    );
    r.append(digest_value);
    r.append(
        "</DigestValue></Reference></SignedInfo><SignatureValue></SignatureValue><KeyInfo><X509Data><X509Certificate>",
    );
    r.append(cert_base64);
    r.append("</X509Certificate></X509Data></KeyInfo></Signature>");
    r
}

/// Extrae el elemento `<SignedInfo>...</SignedInfo>`.
pub fn extract_signed_info(xml_with_sig: &str) -> (r: Result<String, ErrorFirma>)
    ensures
        match r {
            Ok(s) => signed_info(xml_with_sig@) == Ok::<Seq<char>, ErrorFirma>(s@),
            Err(e) => signed_info(xml_with_sig@) == Err::<Seq<char>, ErrorFirma>(e),
        },
{
    let v = caracteres(xml_with_sig);
    let inicio = caracteres("<SignedInfo>");
    let fin = caracteres("</SignedInfo>");
    match buscar_en(&v, &inicio, 0) {
        None => Err(ErrorFirma::SinInicioSignedInfo),
        Some(i) => match buscar_en(&v, &fin, i) {
            None => Err(ErrorFirma::SinFinSignedInfo),
            Some(j) => {
                proof {
                    lema_buscar_desde_rango(v@, fin@, i as int);
                }
                assert(j + fin.len() <= v.len());
                Ok(subcadena(&v, i, j + fin.len()))
            },
        },
    }
}

/// Codifica en porcentaje espacios, `&`, `=` y `?`.
pub fn encode(s: &str) -> (r: String)
    ensures
        r@ == codificado_url(s@),
{
    let v = caracteres(s);
    let mut r = String::new();
    let mut i: usize = 0;
    while i < v.len()
        invariant
            i <= v.len(),
            r@ == codificado_url(v@.take(i as int)),
        decreases v.len() - i,
    {
        let c = v[i];
        proof {
            assert(v@.take(i + 1).drop_last() =~= v@.take(i as int));
        }
        if c == ' ' {
            r.append("%20");
        } else if c == '&' {
            r.append("%26");
        } else if c == '=' {
            r.append("%3D");
        } else if c == '?' {
            r.append("%3F");
        } else {
            empujar(&mut r, c);
        }
        i = i + 1;
    }
    proof {
        assert(v@.take(i as int) =~= v@);
    }
    r
}

/// Enlace de consulta del timbre del e-CF en la DGII.
pub fn generate_qr_url(
    rnc_emisor: &str,
    e_ncf: &str,
    rnc_comprador: &str,
    fecha_emision: &str,
    monto_total: &str,
    codigo_seguridad: &str,
) -> (r: String)
    ensures
        r@ == url_qr(
            rnc_emisor@,
            e_ncf@,
            rnc_comprador@,
            fecha_emision@,
            monto_total@,
            codigo_seguridad@,
        ),
{
    let mut r = a_string("https://ecf.dgii.gov.do/eCF/ConsultaTimbre?RNCEmisor=");
    r.append(encode(rnc_emisor).as_str());
    r.append("&eNCF=");
    r.append(encode(e_ncf).as_str());
    r.append("&RNCComprador=");
    r.append(encode(rnc_comprador).as_str());
    r.append("&FechaEmision=");
    r.append(encode(fecha_emision).as_str());
    r.append("&MontoTotal=");
    r.append(encode(monto_total).as_str());
    r.append("&CodigoSeguridad=");
    r.append(encode(codigo_seguridad).as_str());
    r
}


// ---------------------------------------------------------------------------
// Certificado y clave (openssl)
// ---------------------------------------------------------------------------

#[verifier::external_type_specification]
#[verifier::external_body]
#[verifier::reject_recursive_types(T)]
pub struct ExPKey<T>(openssl::pkey::PKey<T>);

#[verifier::external_type_specification]
#[verifier::external_body]
pub struct ExPrivada(openssl::pkey::Private);

#[verifier::external_type_specification]
#[verifier::external_body]
pub struct ExX509(openssl::x509::X509);

#[verifier::external_type_specification]
#[verifier::external_body]
pub struct ExErrorStack(openssl::error::ErrorStack);

/// Los bytes son un PKCS#12 en DER que `Pkcs12::from_der` acepta.
pub uninterp spec fn pkcs12_der_valido(der: Seq<u8>) -> bool;

/// Lo que da abrir el PKCS#12 `der` con la contraseña `clave`: la clave
/// privada y el certificado en DER, cada uno si el archivo lo trae; `None` si
/// no se puede leer o abrir.
pub uninterp spec fn pkcs12_partes(der: Seq<u8>, clave: Seq<char>) -> Option<
    (Option<Seq<u8>>, Option<Seq<u8>>),
>;

/// Clave privada y certificado de un PKCS#12 abierto: cada objeto de openssl
/// con su codificación DER.
pub type Partes = (
    Option<(openssl::pkey::PKey<openssl::pkey::Private>, Vec<u8>)>,
    Option<(openssl::x509::X509, Vec<u8>)>,
);

/// El DER que acompaña a un objeto, si lo hay.
pub open spec fn der_de<T>(x: Option<(T, Vec<u8>)>) -> Option<Seq<u8>> {
    match x {
        Some(p) => Some(p.1@),
        None => None,
    }
}

/// `Pkcs12::from_der` y `Pkcs12::parse2` con la contraseña; la clave privada
/// y el certificado que traiga se entregan con su DER
/// (`PKeyRef::private_key_to_der`, `X509Ref::to_der`). El error dice si el
/// archivo no se pudo leer (`true`) o no se pudo abrir (`false`). El contrato
/// afirma que leerlo depende sólo de los bytes y que las partes en DER son
/// función de los bytes y la contraseña. `parse2` entra en pánico si la
/// contraseña contiene un byte nulo, de ahí el `requires`.
#[verifier::external_body]
fn pkcs12_abrir(der: &[u8], clave: &str) -> (r: Result<Partes, bool>)
    requires
        !clave@.contains('\0'),
    ensures
        r matches Err(ilegible) ==> (ilegible <==> !pkcs12_der_valido(der@)),
        r is Ok ==> pkcs12_der_valido(der@),
        r matches Ok(p) ==> pkcs12_partes(der@, clave@) == Some((der_de(p.0), der_de(p.1))),
        r is Err ==> pkcs12_partes(der@, clave@) is None,
{
    let a = openssl::pkcs12::Pkcs12::from_der(der).map_err(|_| true)?.parse2(clave).map_err(|_| false)?;
    let k = match a.pkey {
        Some(k) => Some((k.private_key_to_der().map_err(|_| false)?, k)),
        None => None,
    };
    let c = match a.cert {
        Some(c) => Some((c.to_der().map_err(|_| false)?, c)),
        None => None,
    };
    Ok((k.map(|(d, k)| (k, d)), c.map(|(d, c)| (c, d))))
}

/// `X509Ref::to_pem`: el certificado en PEM. `to_pem` escribe con
/// `PEM_write_bio_X509` en un búfer de memoria, que sólo falla si se agota la
/// memoria; el PEM es texto ASCII (encabezado, base64 y pie), por tanto UTF-8
/// válido. Los bytes no se enuncian.
#[verifier::external_body]
fn certificado_pem(c: &openssl::x509::X509) -> (r: Result<Vec<u8>, openssl::error::ErrorStack>)
    ensures
        r is Ok,
        r matches Ok(v) ==> vstd::utf8::valid_utf8(v@),
{
    c.to_pem()
}

/// `String::from_utf8`: el texto cuyos bytes UTF-8 son `v`, si y sólo si son
/// UTF-8 válido.
#[verifier::external_body]
pub(crate) fn texto_utf8(v: Vec<u8>) -> (r: Option<String>)
    ensures
        r is Some <==> vstd::utf8::valid_utf8(v@),
        r matches Some(s) ==> vstd::utf8::encode_utf8(s@) == v@,
{
    String::from_utf8(v).ok()
}

/// `firma` es una firma SHA-256 de `datos` que `openssl::sign::Verifier`
/// acepta con la clave pública de la clave privada `clave_der`.
pub uninterp spec fn firma_valida(clave_der: Seq<u8>, datos: Seq<u8>, firma: Seq<u8>) -> bool;

/// Firma SHA-256 con la clave privada en DER (`PKey::private_key_from_der`
/// y `openssl::sign::Signer` con `MessageDigest::sha256`, `update` y
/// `sign_to_vec`). El contrato afirma, como muestra la documentación del
/// módulo `openssl::sign`, que la firma se verifica con la clave pública de
/// esa clave; los bytes no se enuncian.
#[verifier::external_body]
fn firmar_rsa_sha256(clave_der: &[u8], datos: &[u8]) -> (r: Result<Vec<u8>, openssl::error::ErrorStack>)
    ensures
        r matches Ok(f) ==> firma_valida(clave_der@, datos@, f@),
{
    let clave = openssl::pkey::PKey::private_key_from_der(clave_der)?;
    let mut firmante = openssl::sign::Signer::new(openssl::hash::MessageDigest::sha256(), &clave)?;
    firmante.update(datos)?;
    firmante.sign_to_vec()
}

/// Clave privada y certificado de un PKCS#12.
pub struct P12Data {
    pub private_key: openssl::pkey::PKey<openssl::pkey::Private>,
    /// La clave privada en DER.
    pub private_key_der: Vec<u8>,
    pub certificate: openssl::x509::X509,
    /// Certificado en DER codificado en base64, para `<X509Certificate>`.
    pub cert_base64_der: String,
    /// Certificado en PEM sin encabezados ni saltos de línea.
    pub cert_pem_clean: String,
}

/// El PEM sin las líneas de encabezado y pie, sin retornos ni saltos de línea
/// y sin espacios alrededor.
pub open spec fn pem_limpio(pem: Seq<char>) -> Seq<char> {
    recortar(
        reemplazar(
            reemplazar(
                reemplazar(
                    reemplazar(pem, "-----BEGIN CERTIFICATE-----"@, Seq::empty()),
                    "-----END CERTIFICATE-----"@,
                    Seq::empty(),
                ),
                "\r"@,
                Seq::empty(),
            ),
            "\n"@,
            Seq::empty(),
        ),
    )
}

/// Limpia un certificado PEM: quita encabezado, pie y saltos de línea.
pub fn limpiar_pem(pem: &str) -> (r: String)
    ensures
        r@ == pem_limpio(pem@),
{
    proof {
        reveal_strlit("-----BEGIN CERTIFICATE-----");
        reveal_strlit("-----END CERTIFICATE-----");
        reveal_strlit("\r");
        reveal_strlit("\n");
        reveal_strlit("");
    }
    let p1 = caracteres("-----BEGIN CERTIFICATE-----");
    let p2 = caracteres("-----END CERTIFICATE-----");
    let p3 = caracteres("\r");
    let p4 = caracteres("\n");
    let a = reemplazar_todo(&caracteres(pem), &p1, "");
    let b = reemplazar_todo(&caracteres(a.as_str()), &p2, "");
    let c = reemplazar_todo(&caracteres(b.as_str()), &p3, "");
    let d = reemplazar_todo(&caracteres(c.as_str()), &p4, "");
    proof {
        assert(""@ =~= Seq::<char>::empty());
    }
    recortado(d.as_str())
}

/// Errores al cargar un PKCS#12.
pub open spec fn error_de_carga(e: ErrorFirma) -> bool {
    e == ErrorFirma::P12Invalido || e == ErrorFirma::P12Clave || e == ErrorFirma::P12SinClave
        || e == ErrorFirma::P12SinCertificado || e == ErrorFirma::CertificadoPem
}

/// Por qué falla la carga del PKCS#12 `der` con la contraseña `clave` con
/// el error `e`: archivo ilegible, que no abre, sin clave o sin certificado.
pub open spec fn fallo_de_carga(der: Seq<u8>, clave: Seq<char>, e: ErrorFirma) -> bool {
    match e {
        ErrorFirma::P12Invalido => !pkcs12_der_valido(der),
        ErrorFirma::P12Clave => pkcs12_der_valido(der) && pkcs12_partes(der, clave) is None,
        ErrorFirma::P12SinClave => pkcs12_partes(der, clave) matches Some((None, _)),
        ErrorFirma::P12SinCertificado => pkcs12_partes(der, clave) matches Some((Some(_), None)),
        _ => false,
    }
}

/// La clave privada en DER del PKCS#12 abierto con la contraseña.
pub open spec fn clave_de_pkcs12(der: Seq<u8>, clave: Seq<char>) -> Option<Seq<u8>> {
    match pkcs12_partes(der, clave) {
        Some((Some(k), _)) => Some(k),
        _ => None,
    }
}

/// El certificado en DER del PKCS#12 abierto con la contraseña.
pub open spec fn certificado_de_pkcs12(der: Seq<u8>, clave: Seq<char>) -> Option<Seq<u8>> {
    match pkcs12_partes(der, clave) {
        Some((_, Some(c))) => Some(c),
        _ => None,
    }
}

/// Carga la clave privada y el certificado de un PKCS#12 protegido por
/// contraseña, con el certificado en DER base64 y en PEM limpio.
pub fn load_p12(p12_der: &[u8], password: &str) -> (r: Result<P12Data, ErrorFirma>)
    requires
        !password@.contains('\0'),
    ensures
        r matches Ok(d) ==> {
            &&& clave_de_pkcs12(p12_der@, password@) == Some(d.private_key_der@)
            &&& certificado_de_pkcs12(p12_der@, password@) matches Some(c)
            &&& d.cert_base64_der@ == base64_estandar(c)
            &&& exists|pem: Seq<char>| d.cert_pem_clean@ == pem_limpio(pem)
        },
        // El archivo ilegible es el error P12Invalido, y sólo ese.
        r matches Err(ErrorFirma::P12Invalido) <==> !pkcs12_der_valido(p12_der@),
        r matches Err(e) ==> fallo_de_carga(p12_der@, password@, e),
        r matches Err(e) ==> error_de_carga(e),
        // Con la clave y el certificado presentes, la carga se logra.
        pkcs12_partes(p12_der@, password@) matches Some((Some(_), Some(_))) ==> r is Ok,
{
    let (clave, cert) = match pkcs12_abrir(p12_der, password) {
        Ok(p) => p,
        Err(true) => return Err(ErrorFirma::P12Invalido),
        Err(false) => return Err(ErrorFirma::P12Clave),
    };
    let (clave, clave_der) = match clave {
        Some(k) => k,
        None => return Err(ErrorFirma::P12SinClave),
    };
    let (cert, der) = match cert {
        Some(c) => c,
        None => return Err(ErrorFirma::P12SinCertificado),
    };
    let cert_base64_der = base64_standard(der.as_slice());
    let pem = match certificado_pem(&cert) {
        Ok(p) => p,
        Err(_) => return Err(ErrorFirma::CertificadoPem),
    };
    let pem = match texto_utf8(pem) {
        Some(t) => t,
        None => return Err(ErrorFirma::CertificadoPem),
    };
    let cert_pem_clean = limpiar_pem(pem.as_str());
    Ok(
        P12Data {
            private_key: clave,
            private_key_der: clave_der,
            certificate: cert,
            cert_base64_der,
            cert_pem_clean,
        },
    )
}


// ---------------------------------------------------------------------------
// Firma
// ---------------------------------------------------------------------------

/// Texto canónico de un XML, si está bien formado.
pub open spec fn c14n_texto(x: Seq<char>) -> Option<Seq<char>> {
    match xml_plano(x) {
        Some(n) => Some(c14n_nodos(n)),
        None => None,
    }
}

/// Resumen SHA-256 en base64 de los bytes UTF-8 de un texto.
pub open spec fn resumen_b64(c: Seq<char>) -> Seq<char> {
    base64_estandar(sha256_de(vstd::utf8::encode_utf8(c)))
}

/// Pasos previos a la firma: XML canónico con el esqueleto `<Signature>`
/// insertado antes del cierre de la raíz, el resumen en base64 y el
/// `SignedInfo` canonicalizado que se firma.
pub open spec fn preparacion(xml: Seq<char>, cert: Seq<char>) -> Result<
    (Seq<char>, Seq<char>, Seq<char>),
    ErrorFirma,
> {
    let limpio = sin_declaracion(xml);
    match c14n_texto(limpio) {
        None => Err(ErrorFirma::C14nOriginal),
        Some(c) => {
            let d = resumen_b64(c);
            let raiz = match etiqueta_raiz(limpio) {
                Some(t) => t,
                None => "ECF"@,
            };
            match buscar_ultimo(c, "</"@ + raiz + ">"@) {
                None => Err(ErrorFirma::SinCierreRaiz),
                Some(p) => {
                    let sv = c.take(p) + esqueleto_firma(d, cert) + c.skip(p);
                    match signed_info(sv) {
                        Err(e) => Err(e),
                        Ok(si) => match c14n_texto(si) {
                            None => Err(ErrorFirma::C14nSignedInfo),
                            Some(csi) => Ok((sv, d, csi)),
                        },
                    }
                },
            }
        },
    }
}

/// Inyección del valor de la firma: en el `<SignatureValue></SignatureValue>`
/// vacío (todas sus apariciones), o reemplazando el contenido del primer
/// `<SignatureValue>`, o antes del último `</Signature>`.
pub open spec fn inyeccion(x: Seq<char>, valor: Seq<char>) -> Result<Seq<char>, ErrorFirma> {
    let lleno = "<SignatureValue>"@ + valor + "</SignatureValue>"@;
    if contiene(x, "<SignatureValue></SignatureValue>"@) {
        Ok(reemplazar(x, "<SignatureValue></SignatureValue>"@, lleno))
    } else {
        match buscar(x, "<SignatureValue>"@) {
            Some(i) => match buscar_desde(x, "</SignatureValue>"@, i) {
                Some(j) => Ok(x.take(i) + lleno + x.skip(j + "</SignatureValue>"@.len())),
                None => Err(ErrorFirma::SinFinSignatureValue),
            },
            None => match buscar_ultimo(x, "</Signature>"@) {
                Some(p) => Ok(x.take(p) + lleno + "</Signature>"@ + x.skip(
                    p + "</Signature>"@.len(),
                )),
                None => Err(ErrorFirma::SinCierreSignature),
            },
        }
    }
}

/// Código de seguridad: los seis primeros dígitos hexadecimales del SHA-256 de
/// la firma, en mayúsculas.
pub open spec fn codigo_de_firma(firma: Seq<u8>) -> Seq<char> {
    hex_mayusculas(sha256_de(firma).take(3))
}

/// Resultado de la firma a partir del XML preparado `sv`, el resumen `d` y los
/// bytes de la firma: XML firmado, código de seguridad, resumen y firma en
/// base64.
pub open spec fn firmado(sv: Seq<char>, d: Seq<char>, firma: Seq<u8>) -> Result<
    (Seq<char>, Seq<char>, Seq<char>, Seq<char>),
    ErrorFirma,
> {
    let valor = base64_estandar(firma);
    match inyeccion(sv, valor) {
        Ok(x) => Ok((x, codigo_de_firma(firma), d, valor)),
        Err(e) => Err(e),
    }
}

/// Firma completa de `xml` con el certificado `cert` (en DER base64) y los
/// bytes de firma `firma`.
pub open spec fn firma_completa(xml: Seq<char>, cert: Seq<char>, firma: Seq<u8>) -> Result<
    (Seq<char>, Seq<char>, Seq<char>, Seq<char>),
    ErrorFirma,
> {
    match preparacion(xml, cert) {
        Ok(p) => firmado(p.0, p.1, firma),
        Err(e) => Err(e),
    }
}

/// XML preparado para firmar.
pub struct Preparacion {
    pub xml_sin_valor: String,
    pub digest_value: String,
    pub c14n_signed_info: String,
}

/// e-CF firmado.
pub struct SignedECF {
    pub signed_xml: String,
    /// Código de seguridad de seis caracteres.
    pub codigo_seguridad: String,
    pub digest_value: String,
    pub signature_value: String,
}

/// Vista de un e-CF firmado.
pub open spec fn vista_firmado(s: SignedECF) -> (Seq<char>, Seq<char>, Seq<char>, Seq<char>) {
    (s.signed_xml@, s.codigo_seguridad@, s.digest_value@, s.signature_value@)
}

/// Canonicaliza el XML, calcula su resumen, inserta el esqueleto de la firma y
/// canonicaliza el `SignedInfo`.
pub fn preparar_firma(xml_input: &str, cert_base64_der: &str) -> (r: Result<Preparacion, ErrorFirma>)
    ensures
        match r {
            Ok(p) => preparacion(xml_input@, cert_base64_der@) == Ok::<
                (Seq<char>, Seq<char>, Seq<char>),
                ErrorFirma,
            >((p.xml_sin_valor@, p.digest_value@, p.c14n_signed_info@)),
            Err(e) => preparacion(xml_input@, cert_base64_der@) == Err::<
                (Seq<char>, Seq<char>, Seq<char>),
                ErrorFirma,
            >(e),
        },
{
    let xml_clean = remove_xml_declaration(xml_input);
    let c14n = match canonicalize(xml_clean.as_str()) {
        Ok(c) => c,
        Err(_) => return Err(ErrorFirma::C14nOriginal),
    };
    let resumen = sha256(c14n.as_str().as_bytes());
    let digest_value = base64_standard(resumen.as_slice());
    let esqueleto = build_signature_skeleton(digest_value.as_str(), cert_base64_der);
    let raiz = match extract_root_tag(xml_clean.as_str()) {
        Some(t) => t,
        None => a_string("ECF"),
    };
    let mut cierre = a_string("</");
    cierre.append(raiz.as_str());
    cierre.append(">");
    let v = caracteres(c14n.as_str());
    let pos = match buscar_ultimo_en(&v, &caracteres(cierre.as_str())) {
        Some(p) => p,
        None => return Err(ErrorFirma::SinCierreRaiz),
    };
    proof {
        lema_buscar_atras_rango(v@, cierre@, v@.len() - cierre@.len());
    }
    let mut sin_valor = subcadena(&v, 0, pos);
    sin_valor.append(esqueleto.as_str());
    sin_valor.append(subcadena(&v, pos, v.len()).as_str());
    proof {
        assert(v@.subrange(0, pos as int) =~= v@.take(pos as int));
        assert(v@.subrange(pos as int, v@.len() as int) =~= v@.skip(pos as int));
    }
    let si = match extract_signed_info(sin_valor.as_str()) {
        Ok(si) => si,
        Err(e) => return Err(e),
    };
    let c14n_si = match canonicalize_fragment(si.as_str()) {
        Ok(c) => c,
        Err(_) => return Err(ErrorFirma::C14nSignedInfo),
    };
    Ok(Preparacion { xml_sin_valor: sin_valor, digest_value, c14n_signed_info: c14n_si })
}

/// Inyecta el valor de la firma en el XML preparado.
pub fn inyectar_valor(xml: &str, valor: &str) -> (r: Result<String, ErrorFirma>)
    ensures
        match r {
            Ok(s) => inyeccion(xml@, valor@) == Ok::<Seq<char>, ErrorFirma>(s@),
            Err(e) => inyeccion(xml@, valor@) == Err::<Seq<char>, ErrorFirma>(e),
        },
{
    let v = caracteres(xml);
    let mut lleno = a_string("<SignatureValue>");
    lleno.append(valor);
    lleno.append("</SignatureValue>");
    let vacio = caracteres("<SignatureValue></SignatureValue>");
    proof {
        reveal_strlit("<SignatureValue></SignatureValue>");
    }
    if buscar_en(&v, &vacio, 0).is_some() {
        return Ok(reemplazar_todo(&v, &vacio, lleno.as_str()));
    }
    let apertura = caracteres("<SignatureValue>");
    let cierre = caracteres("</SignatureValue>");
    match buscar_en(&v, &apertura, 0) {
        Some(i) => match buscar_en(&v, &cierre, i) {
            Some(j) => {
                proof {
                    lema_buscar_desde_rango(v@, apertura@, 0);
                    lema_buscar_desde_rango(v@, cierre@, i as int);
                }
                assert(j + cierre.len() <= v.len());
                let mut r = subcadena(&v, 0, i);
                r.append(lleno.as_str());
                r.append(subcadena(&v, j + cierre.len(), v.len()).as_str());
                proof {
                    assert(v@.subrange(0, i as int) =~= v@.take(i as int));
                    assert(v@.subrange(j + cierre@.len(), v@.len() as int) =~= v@.skip(
                        j + cierre@.len(),
                    ));
                }
                Ok(r)
            },
            None => Err(ErrorFirma::SinFinSignatureValue),
        },
        None => {
            let fin = caracteres("</Signature>");
            match buscar_ultimo_en(&v, &fin) {
                Some(p) => {
                    proof {
                        lema_buscar_atras_rango(v@, fin@, v@.len() - fin@.len());
                    }
                    assert(p + fin.len() <= v.len());
                    let mut r = subcadena(&v, 0, p);
                    r.append(lleno.as_str());
                    r.append("</Signature>");
                    r.append(subcadena(&v, p + fin.len(), v.len()).as_str());
                    proof {
                        assert(v@.subrange(0, p as int) =~= v@.take(p as int));
                        assert(v@.subrange(p + fin@.len(), v@.len() as int) =~= v@.skip(
                            p + fin@.len(),
                        ));
                    }
                    Ok(r)
                },
                None => Err(ErrorFirma::SinCierreSignature),
            }
        },
    }
}

/// Completa la firma con los bytes firmados: inyecta el valor en base64 y
/// calcula el código de seguridad.
pub fn completar_firma(prep: &Preparacion, firma: &[u8]) -> (r: Result<SignedECF, ErrorFirma>)
    ensures
        match r {
            Ok(s) => firmado(prep.xml_sin_valor@, prep.digest_value@, firma@) == Ok::<
                (Seq<char>, Seq<char>, Seq<char>, Seq<char>),
                ErrorFirma,
            >(vista_firmado(s)),
            Err(e) => firmado(prep.xml_sin_valor@, prep.digest_value@, firma@) == Err::<
                (Seq<char>, Seq<char>, Seq<char>, Seq<char>),
                ErrorFirma,
            >(e),
        },
{
    let signature_value = base64_standard(firma);
    let signed_xml = match inyectar_valor(prep.xml_sin_valor.as_str(), signature_value.as_str()) {
        Ok(x) => x,
        Err(e) => return Err(e),
    };
    let resumen = sha256(firma);
    let primeros = slice_prefijo(&resumen, 3);
    let codigo_seguridad = hex(primeros.as_slice(), true);
    Ok(SignedECF {
        signed_xml,
        codigo_seguridad,
        digest_value: prep.digest_value.clone(),
        signature_value,
    })
}

/// Los primeros `n` elementos de `v`.
fn slice_prefijo(v: &Vec<u8>, n: usize) -> (r: Vec<u8>)
    requires
        n <= v.len(),
    ensures
        r@ == v@.take(n as int),
{
    let mut r: Vec<u8> = Vec::new();
    let mut i: usize = 0;
    while i < n
        invariant
            i <= n <= v.len(),
            r@ == v@.take(i as int),
        decreases n - i,
    {
        r.push(v[i]);
        proof {
            assert(v@.take(i + 1) =~= v@.take(i as int).push(v@[i as int]));
        }
        i = i + 1;
    }
    r
}

/// Firma un e-CF según la guía de la DGII con la clave y el certificado del
/// PKCS#12: el certificado va en el esqueleto `<Signature>` y la clave firma
/// el `SignedInfo` canónico.
pub fn sign_xml_ecf(xml_input: &str, p12_der: &[u8], password: &str) -> (r: Result<
    SignedECF,
    ErrorFirma,
>)
    requires
        !password@.contains('\0'),
    ensures
        r matches Ok(s) ==> {
            &&& clave_de_pkcs12(p12_der@, password@) matches Some(k)
            &&& certificado_de_pkcs12(p12_der@, password@) matches Some(c)
            &&& preparacion(xml_input@, base64_estandar(c)) matches Ok(p)
            &&& exists|firma: Seq<u8>|
                firma_valida(k, vstd::utf8::encode_utf8(p.2), firma) && #[trigger] firmado(
                    p.0,
                    p.1,
                    firma,
                ) == Ok::<(Seq<char>, Seq<char>, Seq<char>, Seq<char>), ErrorFirma>(
                    vista_firmado(s),
                )
        },
        // Un PKCS#12 ilegible es el error P12Invalido, y sólo ese.
        r matches Err(ErrorFirma::P12Invalido) <==> !pkcs12_der_valido(p12_der@),
        // Un fallo es de la carga del PKCS#12, o (con la clave y el
        // certificado cargados) el de preparar el XML con ese certificado, el
        // de la firma RSA, o el de inyectar una firma válida.
        r matches Err(e) ==> if error_de_carga(e) {
            fallo_de_carga(p12_der@, password@, e)
        } else {
            &&& clave_de_pkcs12(p12_der@, password@) matches Some(k)
            &&& certificado_de_pkcs12(p12_der@, password@) matches Some(c)
            &&& match preparacion(xml_input@, base64_estandar(c)) {
                Err(e0) => e == e0,
                Ok(p) => e == ErrorFirma::Firma || exists|firma: Seq<u8>|
                    firma_valida(k, vstd::utf8::encode_utf8(p.2), firma) && #[trigger] firmado(
                        p.0,
                        p.1,
                        firma,
                    ) == Err::<(Seq<char>, Seq<char>, Seq<char>, Seq<char>), ErrorFirma>(e),
            }
        },
{
    let p12 = match load_p12(p12_der, password) {
        Ok(d) => d,
        Err(e) => return Err(e),
    };
    let ghost c = certificado_de_pkcs12(p12_der@, password@)->Some_0;
    let ghost k = clave_de_pkcs12(p12_der@, password@)->Some_0;
    proof {
        assert(base64_estandar(c) == p12.cert_base64_der@);
        assert(k == p12.private_key_der@);
    }
    let prep = match preparar_firma(xml_input, p12.cert_base64_der.as_str()) {
        Ok(p) => p,
        Err(e) => return Err(e),
    };
    let ghost pp = preparacion(xml_input@, base64_estandar(c))->Ok_0;
    proof {
        assert(pp == (prep.xml_sin_valor@, prep.digest_value@, prep.c14n_signed_info@));
    }
    let firma = match firmar_rsa_sha256(
        p12.private_key_der.as_slice(),
        prep.c14n_signed_info.as_str().as_bytes(),
    ) {
        Ok(f) => f,
        Err(_) => return Err(ErrorFirma::Firma),
    };
    let r = completar_firma(&prep, firma.as_slice());
    proof {
        assert(firma_valida(k, vstd::utf8::encode_utf8(pp.2), firma@));
        assert(firmado(pp.0, pp.1, firma@) == firmado(
            prep.xml_sin_valor@,
            prep.digest_value@,
            firma@,
        ));
    }
    r
}

} // verus!

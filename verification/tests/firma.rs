use base64::Engine;
use sha2::Digest;
use fiscal_core::ecfl::{
    build_signature_skeleton, encode, extract_root_tag, extract_signed_info, generate_qr_url,
    remove_xml_declaration,
};
use fiscal_core::certificados::{abrir_certificado, preparar_certificado, ErrorCertificado, UploadCertificadoRequest};
use fiscal_core::xml_c14n::{canonicalize, canonicalize_fragment, encode_attr, encode_text};

#[test]
fn test_build_skeleton() {
    let skel = build_signature_skeleton("abc123==", "MIIB...");
    assert!(skel.contains("DigestValue"));
    assert!(skel.contains("abc123=="));
    assert!(skel.contains("MIIB"));
}

#[test]
fn test_root_extraction() {
    let xml = "<ECF><Encabezado>hi</Encabezado></ECF>";
    assert_eq!(extract_root_tag(xml).unwrap(), "ECF");
}

#[test]
fn test_c14n_simple() {
    let xml = "<ECF><Encabezado><Version>1.0</Version></Encabezado></ECF>";
    let c = canonicalize(xml).unwrap();
    assert!(c.contains("<ECF>"));
    assert!(c.contains("</ECF>"));
    assert!(c.contains("<Version>1.0</Version>"));
}

#[test]
fn test_c14n_attrs_sorted() {
    let xml = r#"<ECF B="2" A="1"><Id>1</Id></ECF>"#;
    let c = canonicalize(xml).unwrap();
    assert!(c.find("A=\"1\"").unwrap() < c.find("B=\"2\"").unwrap());
}

#[test]
fn c14n_exact_output() {
    let xml = r#"<?xml version="1.0" encoding="UTF-8"?><ECF B="2" A="1"><Id>1 &amp; 2</Id><Vacio/></ECF>"#;
    let c = canonicalize(xml).unwrap();
    assert_eq!(c, r#"<ECF A="1" B="2"><Id>1 &amp; 2</Id><Vacio></Vacio></ECF>"#);
}

#[test]
fn c14n_rejects_malformed() {
    assert!(canonicalize("<ECF><Id></ECF>").is_err());
    assert!(canonicalize_fragment("no es xml <").is_err());
}

#[test]
fn c14n_escapes() {
    assert_eq!(encode_text("a<b>&c\r"), "a&lt;b&gt;&amp;c&#xD;");
    assert_eq!(encode_attr("\"x\"<&\t\n\r"), "&quot;x&quot;&lt;&amp;&#x9;&#xA;&#xD;");
}

#[test]
fn declaration_removed() {
    assert_eq!(remove_xml_declaration("<?xml version=\"1.0\"?>\n<ECF/>"), "<ECF/>");
    assert_eq!(remove_xml_declaration("<ECF/>"), "<ECF/>");
}

#[test]
fn root_tag_with_attributes_and_declaration() {
    assert_eq!(extract_root_tag("<?xml version=\"1.0\"?><ECF xmlns=\"x\"><A/></ECF>").unwrap(), "ECF");
    assert!(extract_root_tag("sin etiquetas").is_none());
}

#[test]
fn signed_info_extracted() {
    let skel = build_signature_skeleton("D", "C");
    let si = extract_signed_info(&skel).unwrap();
    assert!(si.starts_with("<SignedInfo>"));
    assert!(si.ends_with("</SignedInfo>"));
    assert!(si.contains("<DigestValue>D</DigestValue>"));
    assert!(extract_signed_info("<Signature></Signature>").is_err());
}

#[test]
fn url_encoding() {
    assert_eq!(encode("a b&c=d?e"), "a%20b%26c%3Dd%3Fe");
    assert_eq!(encode("AZaz09-_./é"), "AZaz09-_./é");
}

#[test]
fn qr_url_layout() {
    let url = generate_qr_url("101", "E310000000001", "", "15-01-2025", "1180.00", "ABC 123");
    assert_eq!(
        url,
        "https://ecf.dgii.gov.do/eCF/ConsultaTimbre?RNCEmisor=101&eNCF=E310000000001&RNCComprador=&FechaEmision=15-01-2025&MontoTotal=1180.00&CodigoSeguridad=ABC%20123"
    );
}

fn p12_de_prueba(clave: &str) -> (Vec<u8>, openssl::x509::X509) {
    let rsa = openssl::rsa::Rsa::generate(2048).unwrap();
    let pkey = openssl::pkey::PKey::from_rsa(rsa).unwrap();
    let mut nombre = openssl::x509::X509NameBuilder::new().unwrap();
    nombre.append_entry_by_text("CN", "Colmado de prueba").unwrap();
    let nombre = nombre.build();
    let mut b = openssl::x509::X509Builder::new().unwrap();
    b.set_version(2).unwrap();
    b.set_subject_name(&nombre).unwrap();
    b.set_issuer_name(&nombre).unwrap();
    b.set_pubkey(&pkey).unwrap();
    b.set_not_before(&openssl::asn1::Asn1Time::days_from_now(0).unwrap()).unwrap();
    b.set_not_after(&openssl::asn1::Asn1Time::days_from_now(365).unwrap()).unwrap();
    b.sign(&pkey, openssl::hash::MessageDigest::sha256()).unwrap();
    let cert = b.build();
    let p12 = openssl::pkcs12::Pkcs12::builder().name("prueba").pkey(&pkey).cert(&cert).build2(clave).unwrap();
    (p12.to_der().unwrap(), cert)
}

#[test]
fn carga_del_p12() {
    let (der, cert) = p12_de_prueba("clave");
    let datos = fiscal_core::ecfl::load_p12(&der, "clave").unwrap();
    assert_eq!(
        datos.cert_base64_der,
        base64::engine::general_purpose::STANDARD.encode(cert.to_der().unwrap())
    );
    assert!(!datos.cert_pem_clean.contains("BEGIN") && !datos.cert_pem_clean.contains('\n'));
    assert!(fiscal_core::ecfl::load_p12(&der, "otra").is_err());
    assert!(fiscal_core::ecfl::load_p12(b"no es p12", "clave").is_err());
}

#[test]
fn firma_completa_del_ecf() {
    let (der, cert) = p12_de_prueba("clave");
    let xml = "<?xml version=\"1.0\"?>\n<ECF><Encabezado><Version>1.0</Version><Monto>1 &amp; 2</Monto></Encabezado></ECF>";
    let s = fiscal_core::ecfl::sign_xml_ecf(xml, &der, "clave").unwrap();
    let c14n = canonicalize("<ECF><Encabezado><Version>1.0</Version><Monto>1 &amp; 2</Monto></Encabezado></ECF>").unwrap();
    let digest = base64::engine::general_purpose::STANDARD.encode(sha2::Sha256::digest(c14n.as_bytes()));
    assert_eq!(s.digest_value, digest);
    assert!(s.signed_xml.starts_with("<ECF><Encabezado>"));
    assert!(s.signed_xml.ends_with("</Signature></ECF>"));
    assert!(s.signed_xml.contains(&format!("<SignatureValue>{}</SignatureValue>", s.signature_value)));
    assert!(s.signed_xml.contains(&format!("<DigestValue>{}</DigestValue>", digest)));
    // La firma verifica con la clave pública sobre el SignedInfo canónico.
    let firma = base64::engine::general_purpose::STANDARD.decode(&s.signature_value).unwrap();
    let si = extract_signed_info(&build_signature_skeleton(&digest, &base64::engine::general_purpose::STANDARD.encode(cert.to_der().unwrap()))).unwrap();
    let si = canonicalize_fragment(&si).unwrap();
    let publica = cert.public_key().unwrap();
    let mut v = openssl::sign::Verifier::new(openssl::hash::MessageDigest::sha256(), &publica).unwrap();
    v.update(si.as_bytes()).unwrap();
    assert!(v.verify(&firma).unwrap());
    // Código de seguridad: seis primeros hexadecimales del SHA-256 de la firma.
    let esperado: String = sha2::Sha256::digest(&firma).iter().map(|b| format!("{:02x}", b)).collect::<String>()[..6].to_uppercase();
    assert_eq!(s.codigo_seguridad, esperado);
}

#[test]
fn firma_con_clave_incorrecta() {
    let (der, _) = p12_de_prueba("clave");
    assert!(fiscal_core::ecfl::sign_xml_ecf("<ECF/>", &der, "mala").is_err());
}

#[test]
fn certificado_guardado_se_recupera() {
    let (p12, _) = p12_de_prueba("clave-p12");
    let clave = [7u8; 32];
    let req = UploadCertificadoRequest {
        nombre_archivo: "emisor.p12".to_string(),
        p12_base64: format!("  {}\n", base64::engine::general_purpose::STANDARD.encode(&p12)),
        password: "clave-p12".to_string(),
    };
    let guardado = preparar_certificado(&clave, &req).unwrap();
    assert_eq!(guardado.cert_nonce.len(), 12);
    assert_ne!(guardado.cert_encrypted[..p12.len()], p12[..]);
    let (der, pass) = abrir_certificado(&clave, &guardado).unwrap();
    assert_eq!(der, p12);
    assert_eq!(pass, "clave-p12");
    assert_eq!(abrir_certificado(&[8u8; 32], &guardado), Err(ErrorCertificado::Descifrado));
    let malo = UploadCertificadoRequest { password: "otra".to_string(), ..req };
    assert!(matches!(preparar_certificado(&clave, &malo), Err(ErrorCertificado::CertificadoInvalido(_))));
}

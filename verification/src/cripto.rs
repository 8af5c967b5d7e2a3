//! Resúmenes SHA-256, codificación base64 y hexadecimal.
use vstd::prelude::*;
use base64::Engine;
use sha2::Digest;

verus! {

/// Resumen SHA-256 de una secuencia de bytes.
pub uninterp spec fn sha256_de(datos: Seq<u8>) -> Seq<u8>;

/// `sha2::Sha256::digest`: el resumen SHA-256 de `datos`, de 32 bytes.
#[verifier::external_body]
pub(crate) fn sha256(datos: &[u8]) -> (r: Vec<u8>)
    ensures
        r@ == sha256_de(datos@),
        r@.len() == 32,
{
    sha2::Sha256::digest(datos).to_vec()
}

/// Símbolo del alfabeto base64 estándar (RFC 4648) para un valor de 6 bits.
pub open spec fn simbolo_b64(i: int) -> char {
    if i < 26 {
        (65 + i) as char
    } else if i < 52 {
        (97 + i - 26) as char
    } else if i < 62 {
        (48 + i - 52) as char
    } else if i == 62 {
        '+'
    } else {
        '/'
    }
}

/// Base64 estándar con relleno `=` (RFC 4648, sección 4).
pub open spec fn base64_estandar(b: Seq<u8>) -> Seq<char>
    decreases b.len(),
{
    if b.len() == 0 {
        Seq::empty()
    } else if b.len() == 1 {
        seq![simbolo_b64((b[0] as int) / 4), simbolo_b64(((b[0] as int) % 4) * 16), '=', '=']
    } else if b.len() == 2 {
        seq![
            simbolo_b64((b[0] as int) / 4),
            simbolo_b64(((b[0] as int) % 4) * 16 + (b[1] as int) / 16),
            simbolo_b64(((b[1] as int) % 16) * 4),
            '=',
        ]
    } else {
        seq![
            simbolo_b64((b[0] as int) / 4),
            simbolo_b64(((b[0] as int) % 4) * 16 + (b[1] as int) / 16),
            simbolo_b64(((b[1] as int) % 16) * 4 + (b[2] as int) / 64),
            simbolo_b64((b[2] as int) % 64),
        ] + base64_estandar(b.skip(3))
    }
}

/// `base64::engine::general_purpose::STANDARD.encode`: base64 estándar con
/// relleno, tal como lo define la RFC 4648.
#[verifier::external_body]
pub(crate) fn base64_standard(datos: &[u8]) -> (r: String)
    ensures
        r@ == base64_estandar(datos@),
{
    base64::engine::general_purpose::STANDARD.encode(datos)
}

/// Dígito hexadecimal en minúsculas.
pub open spec fn digito_hex(n: int) -> char {
    if n < 10 {
        (48 + n) as char
    } else {
        (87 + n) as char
    }
}

/// Dígito hexadecimal en mayúsculas.
pub open spec fn digito_hex_mayus(n: int) -> char {
    if n < 10 {
        (48 + n) as char
    } else {
        (55 + n) as char
    }
}

/// Bytes en hexadecimal, dos dígitos en minúsculas por byte.
pub open spec fn hex_minusculas(b: Seq<u8>) -> Seq<char>
    decreases b.len(),
{
    if b.len() == 0 {
        Seq::empty()
    } else {
        hex_minusculas(b.drop_last()) + seq![digito_hex((b.last() as int) / 16), digito_hex((b.last() as int) % 16)]
    }
}

/// Bytes en hexadecimal, dos dígitos en mayúsculas por byte.
pub open spec fn hex_mayusculas(b: Seq<u8>) -> Seq<char>
    decreases b.len(),
{
    if b.len() == 0 {
        Seq::empty()
    } else {
        hex_mayusculas(b.drop_last()) + seq![
            digito_hex_mayus((b.last() as int) / 16),
            digito_hex_mayus((b.last() as int) % 16),
        ]
    }
}

fn caracter_hex(n: u8, mayus: bool) -> (c: char)
    requires
        n < 16,
    ensures
        mayus ==> c == digito_hex_mayus(n as int),
        !mayus ==> c == digito_hex(n as int),
{
    let b: u8 = if n < 10 {
        48 + n
    } else if mayus {
        55 + n
    } else {
        87 + n
    };
    b as char
}

/// Los bytes en hexadecimal, en minúsculas o en mayúsculas.
pub fn hex(b: &[u8], mayus: bool) -> (r: String)
    ensures
        mayus ==> r@ == hex_mayusculas(b@),
        !mayus ==> r@ == hex_minusculas(b@),
{
    let mut r = String::new();
    let mut i: usize = 0;
    while i < b.len()
        invariant
            i <= b.len(),
            mayus ==> r@ == hex_mayusculas(b@.take(i as int)),
            !mayus ==> r@ == hex_minusculas(b@.take(i as int)),
        decreases b.len() - i,
    {
        let x = b[i];
        proof {
            assert(b@.take(i + 1).drop_last() =~= b@.take(i as int));
        }
        crate::texto::empujar(&mut r, caracter_hex(x / 16, mayus));
        crate::texto::empujar(&mut r, caracter_hex(x % 16, mayus));
        i = i + 1;
    }
    proof {
        assert(b@.take(i as int) =~= b@);
    }
    r
}

} // verus!

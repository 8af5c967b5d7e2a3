//! Adjuntos de documentos: saneamiento del nombre de archivo, validación y
//! rutas bajo la carpeta pública de subidas.
use vstd::prelude::*;
use crate::texto::{
    a_string, caracteres, empieza, empieza_con, empujar, limites_recorte, mismo_texto, recortar,
    subcadena,
};

verus! {

/// Tamaño máximo de un adjunto, en bytes (20 MB).
pub const MAX_ADJUNTO_BYTES: usize = 20971520;

/// El carácter es alfanumérico según `char::is_alphanumeric` (Unicode).
pub uninterp spec fn alfanumerico(c: char) -> bool;

/// `char::is_alphanumeric`. Las tablas de Unicode no se enuncian: el contrato
/// afirma que el resultado es función del carácter y, como dice la
/// documentación (alfabético o numérico), que los separadores `/` y `\` no
/// lo son.
#[verifier::external_body]
fn es_alfanumerico(c: char) -> (r: bool)
    ensures
        r == alfanumerico(c),
        (c == '/' || c == '\\') ==> !r,
{
    c.is_alphanumeric()
}

/// Inicio del último segmento de una ruta (tras el último `/` o `\`).
pub open spec fn inicio_base(s: Seq<char>) -> int
    decreases s.len(),
{
    if s.len() == 0 {
        0
    } else if s.last() == '/' || s.last() == '\\' {
        s.len() as int
    } else {
        inicio_base(s.drop_last())
    }
}

/// Carácter permitido en un nombre de archivo.
pub open spec fn permitido(c: char) -> bool {
    alfanumerico(c) || c == '.' || c == '-' || c == '_' || c == ' '
}

/// Los caracteres permitidos de `s`, en orden.
pub open spec fn solo_permitidos(s: Seq<char>) -> Seq<char>
    decreases s.len(),
{
    if s.len() == 0 {
        Seq::empty()
    } else if permitido(s.last()) {
        solo_permitidos(s.drop_last()).push(s.last())
    } else {
        solo_permitidos(s.drop_last())
    }
}

/// El carácter en `i` es un punto junto a otro punto: parte de un `..`.
pub open spec fn en_puntos(s: Seq<char>, i: int) -> bool {
    s[i] == '.' && ((i > 0 && s[i - 1] == '.') || (i + 1 < s.len() && s[i + 1] == '.'))
}

/// Los primeros `n` caracteres de `s` sin los que forman parte de un `..`.
pub open spec fn sin_puntos_dobles(s: Seq<char>, n: int) -> Seq<char>
    decreases n,
{
    if n <= 0 {
        Seq::empty()
    } else if en_puntos(s, n - 1) {
        sin_puntos_dobles(s, n - 1)
    } else {
        sin_puntos_dobles(s, n - 1).push(s[n - 1])
    }
}

/// Ningún punto va seguido de otro: el texto no contiene `..`.
pub open spec fn sin_dos_puntos(s: Seq<char>) -> bool {
    forall|i: int| 0 <= i < s.len() - 1 ==> !(#[trigger] s[i] == '.' && s[i + 1] == '.')
}

/// Nombre saneado: el último segmento de la ruta, sólo con caracteres
/// permitidos, sin ningún `..` y recortado; `archivo` si queda vacío.
pub open spec fn nombre_saneado(s: Seq<char>) -> Seq<char> {
    let f = solo_permitidos(s.skip(inicio_base(s)));
    let limpio = recortar(sin_puntos_dobles(f, f.len() as int));
    if limpio.len() == 0 {
        "archivo"@
    } else {
        limpio
    }
}

/// Si el resultado parcial termina en punto, ese punto es `s[n - 1]`, que
/// no forma parte de un `..`; y el resultado parcial no contiene `..`.
proof fn lema_sin_puntos_dobles(s: Seq<char>, n: int)
    requires
        0 <= n <= s.len(),
    ensures
        sin_dos_puntos(sin_puntos_dobles(s, n)),
        sin_puntos_dobles(s, n).len() > 0 && sin_puntos_dobles(s, n).last() == '.' ==> s[n - 1]
            == '.' && !en_puntos(s, n - 1),
    decreases n,
{
    if n > 0 {
        lema_sin_puntos_dobles(s, n - 1);
        let p = sin_puntos_dobles(s, n - 1);
        if !en_puntos(s, n - 1) {
            let q = p.push(s[n - 1]);
            assert forall|i: int| 0 <= i < q.len() - 1 implies !(#[trigger] q[i] == '.' && q[i
                + 1] == '.') by {
                if i < p.len() - 1 {
                    assert(q[i] == p[i] && q[i + 1] == p[i + 1]);
                } else {
                    assert(q[i] == p.last());
                }
            }
        }
    }
}

/// Un tramo de un texto sin `..` no contiene `..`.
proof fn lema_tramo_sin_dos_puntos(s: Seq<char>, a: int, b: int)
    requires
        sin_dos_puntos(s),
        0 <= a <= b <= s.len(),
    ensures
        sin_dos_puntos(s.subrange(a, b)),
{
    let r = s.subrange(a, b);
    assert forall|i: int| 0 <= i < r.len() - 1 implies !(#[trigger] r[i] == '.' && r[i + 1]
        == '.') by {
        assert(r[i] == s[a + i] && r[i + 1] == s[a + i + 1]);
    }
}

proof fn lema_inicio_base(s: Seq<char>)
    ensures
        0 <= inicio_base(s) <= s.len(),
    decreases s.len(),
{
    if s.len() > 0 && !(s.last() == '/' || s.last() == '\\') {
        lema_inicio_base(s.drop_last());
    }
}

/// Sanea el nombre de un archivo subido: nunca se usa para construir una ruta
/// sin quitarle separadores ni caracteres especiales.
pub fn sanitize_filename(nombre: &str) -> (r: String)
    ensures
        r@ == nombre_saneado(nombre@),
        sin_dos_puntos(r@),
        // Ningún separador de ruta queda en el nombre.
        forall|i: int| 0 <= i < r@.len() ==> #[trigger] r@[i] != '/' && r@[i] != '\\',
{
    let v = caracteres(nombre);
    let mut inicio: usize = 0;
    let mut i: usize = 0;
    while i < v.len()
        invariant
            i <= v.len(),
            inicio == inicio_base(v@.take(i as int)),
            inicio <= i,
        decreases v.len() - i,
    {
        proof {
            assert(v@.take(i + 1).drop_last() =~= v@.take(i as int));
        }
        if v[i] == '/' || v[i] == '\\' {
            inicio = i + 1;
        }
        i = i + 1;
    }
    proof {
        assert(v@.take(i as int) =~= v@);
    }
    let mut filtrado: Vec<char> = Vec::new();
    let mut j: usize = inicio;
    let ghost base = v@.skip(inicio as int);
    while j < v.len()
        invariant
            inicio <= j <= v.len(),
            base == v@.skip(inicio as int),
            filtrado@ == solo_permitidos(base.take(j - inicio)),
            forall|k: int| 0 <= k < filtrado@.len() ==> #[trigger] filtrado@[k] != '/' && filtrado@[k]
                != '\\',
        decreases v.len() - j,
    {
        proof {
            assert(base.take(j - inicio + 1).drop_last() =~= base.take(j - inicio));
            assert(base.take(j - inicio + 1).last() == v@[j as int]);
        }
        let c = v[j];
        if es_alfanumerico(c) || c == '.' || c == '-' || c == '_' || c == ' ' {
            filtrado.push(c);
        }
        j = j + 1;
    }
    proof {
        assert(base.take(j - inicio) =~= base);
    }
    let mut sin_dobles: Vec<char> = Vec::new();
    let mut k: usize = 0;
    while k < filtrado.len()
        invariant
            k <= filtrado.len(),
            sin_dobles@ == sin_puntos_dobles(filtrado@, k as int),
            forall|m: int| 0 <= m < filtrado@.len() ==> #[trigger] filtrado@[m] != '/' && filtrado@[m]
                != '\\',
            forall|m: int| 0 <= m < sin_dobles@.len() ==> #[trigger] sin_dobles@[m] != '/'
                && sin_dobles@[m] != '\\',
        decreases filtrado.len() - k,
    {
        let c = filtrado[k];
        let doble = c == '.' && ((k > 0 && filtrado[k - 1] == '.') || (k + 1 < filtrado.len()
            && filtrado[k + 1] == '.'));
        if !doble {
            sin_dobles.push(c);
        }
        k = k + 1;
    }
    let (a, b) = limites_recorte(&sin_dobles);
    proof {
        lema_sin_puntos_dobles(filtrado@, filtrado@.len() as int);
        lema_tramo_sin_dos_puntos(sin_dobles@, a as int, b as int);
    }
    if a == b {
        proof {
            reveal_strlit("archivo");
        }
        a_string("archivo")
    } else {
        subcadena(&sin_dobles, a, b)
    }
}

/// El tipo de entidad admite adjuntos.
pub open spec fn entidad_valida(t: Seq<char>) -> bool {
    t == "ORDEN_SERVICIO"@ || t == "COTIZACION"@ || t == "VENTA"@ || t == "CLIENTE"@ || t
        == "ORDEN_COMPRA"@
}

/// Errores de un adjunto.
#[derive(PartialEq, Eq, Structural, Clone, Copy, Debug)]
pub enum ErrorAdjunto {
    /// El tipo de entidad no admite adjuntos.
    EntidadInvalida,
    /// El archivo está vacío.
    Vacio,
    /// El archivo supera los 20 MB.
    Grande,
}

/// Valida un adjunto: entidad admitida, archivo no vacío y de a lo sumo 20 MB.
pub fn validar_adjunto(entidad_tipo: &str, tamano: usize) -> (r: Result<(), ErrorAdjunto>)
    ensures
        !entidad_valida(entidad_tipo@) ==> r == Err::<(), ErrorAdjunto>(ErrorAdjunto::EntidadInvalida),
        entidad_valida(entidad_tipo@) && tamano == 0 ==> r == Err::<(), ErrorAdjunto>(
            ErrorAdjunto::Vacio,
        ),
        entidad_valida(entidad_tipo@) && tamano > MAX_ADJUNTO_BYTES ==> r == Err::<(), ErrorAdjunto>(
            ErrorAdjunto::Grande,
        ),
        entidad_valida(entidad_tipo@) && 0 < tamano <= MAX_ADJUNTO_BYTES ==> r is Ok,
{
    if !(mismo_texto(entidad_tipo, "ORDEN_SERVICIO") || mismo_texto(entidad_tipo, "COTIZACION")
        || mismo_texto(entidad_tipo, "VENTA") || mismo_texto(entidad_tipo, "CLIENTE") || mismo_texto(
        entidad_tipo,
        "ORDEN_COMPRA",
    )) {
        return Err(ErrorAdjunto::EntidadInvalida);
    }
    if tamano == 0 {
        return Err(ErrorAdjunto::Vacio);
    }
    if tamano > MAX_ADJUNTO_BYTES {
        return Err(ErrorAdjunto::Grande);
    }
    Ok(())
}

/// Rutas de un adjunto.
pub struct RutasAdjunto {
    /// `adjuntos/<entidad>/<id>`, relativa a la carpeta del negocio.
    pub dir_relativo: String,
    /// `<uuid>-<nombre saneado>`.
    pub archivo: String,
    /// `/uploads/<negocio>/<dir_relativo>/<archivo>`.
    pub ruta_publica: String,
}

/// Rutas de un adjunto a partir del negocio, la entidad, el identificador
/// aleatorio del archivo y el nombre original.
pub fn rutas_adjunto(tenant_id: &str, entidad_tipo: &str, entidad_id: &str, aleatorio: &str, nombre_archivo: &str) -> (r: RutasAdjunto)
    ensures
        r.dir_relativo@ == "adjuntos/"@ + entidad_tipo@ + "/"@ + entidad_id@,
        r.archivo@ == aleatorio@ + "-"@ + nombre_saneado(nombre_archivo@),
        r.ruta_publica@ == "/uploads/"@ + tenant_id@ + "/"@ + r.dir_relativo@ + "/"@ + r.archivo@,
{
    let mut dir = a_string("adjuntos/");
    dir.append(entidad_tipo);
    dir.append("/");
    dir.append(entidad_id);
    let mut archivo = a_string(aleatorio);
    archivo.append("-");
    archivo.append(sanitize_filename(nombre_archivo).as_str());
    let mut ruta = a_string("/uploads/");
    ruta.append(tenant_id);
    ruta.append("/");
    ruta.append(dir.as_str());
    ruta.append("/");
    ruta.append(archivo.as_str());
    RutasAdjunto { dir_relativo: dir, archivo, ruta_publica: ruta }
}

/// Ruta en disco, relativa a la carpeta de subidas, de una ruta pública
/// `/uploads/...` (`strip_prefix`).
pub fn ruta_en_disco(ruta_publica: &str) -> (r: Option<String>)
    ensures
        empieza_con(ruta_publica@, "/uploads/"@) ==> (r matches Some(s) && s@ == ruta_publica@.skip(
            9,
        )),
        !empieza_con(ruta_publica@, "/uploads/"@) ==> r is None,
{
    let v = caracteres(ruta_publica);
    let p = caracteres("/uploads/");
    proof {
        reveal_strlit("/uploads/");
    }
    if empieza(&v, &p) {
        proof {
            assert(v@.subrange(9, v@.len() as int) =~= v@.skip(9));
        }
        Some(subcadena(&v, 9, v.len()))
    } else {
        None
    }
}

} // verus!

//! Servicios de apoyo: respaldos locales, correo de restablecimiento de
//! contraseña y miniaturas de fotos de producto.
use vstd::prelude::*;
use crate::texto::a_string;

verus! {

/// Respaldos retenidos en la carpeta de respaldos.
pub const RETENCION: usize = 14;

/// Respaldo local con `pg_dump` de la base del negocio.
pub struct BackupService {
    pub database_url: String,
    /// Carpeta de los respaldos.
    pub backup_dir: String,
}

impl BackupService {
    /// Servicio de respaldos en la carpeta `backups`.
    pub fn new(database_url: String) -> (r: BackupService)
        ensures
            r.database_url == database_url,
            r.backup_dir@ == "backups"@,
    {
        BackupService { database_url, backup_dir: a_string("backups") }
    }
}

/// Nombre del archivo de un respaldo con la marca de tiempo dada.
pub fn nombre_respaldo(marca: &str) -> (r: String)
    ensures
        r@ == "backup-"@ + marca@ + ".dump"@,
{
    let mut r = a_string("backup-");
    r.append(marca);
    r.append(".dump");
    r
}

/// Cuántos de los respaldos más viejos se borran para conservar `keep`.
pub fn respaldos_a_borrar(total: usize, keep: usize) -> (r: usize)
    ensures
        r == if total > keep {
            total - keep
        } else {
            0
        },
{
    if total > keep {
        total - keep
    } else {
        0
    }
}

/// Envío del correo de restablecimiento de contraseña (Resend).
pub struct EmailService {
    pub api_key: Option<String>,
    pub from: String,
}

impl EmailService {
    /// Servicio de correo; sin clave de API los correos se omiten.
    pub fn new(api_key: Option<String>, from: String) -> (r: EmailService)
        ensures
            r.api_key == api_key,
            r.from == from,
    {
        EmailService { api_key, from }
    }
}

/// Cuerpo HTML del correo de restablecimiento de contraseña.
pub open spec fn html_reset(nombre: Seq<char>, url: Seq<char>) -> Seq<char> {
    "<p>Hola "@ + nombre
        + ",</p>\n<p>Recibimos una solicitud para restablecer tu contraseña de Colmado POS. Este enlace vence en 30 minutos:</p>\n<p><a href=\""@
        + url + "\">"@ + url
        + "</a></p>\n<p>Si no fuiste tú quien lo solicitó, puedes ignorar este correo - tu contraseña no cambiará.</p>"@
}

/// Cuerpo HTML del correo de restablecimiento de contraseña.
pub fn cuerpo_reset(nombre: &str, reset_url: &str) -> (r: String)
    ensures
        r@ == html_reset(nombre@, reset_url@),
{
    let mut r = a_string("<p>Hola ");
    r.append(nombre);
    r.append(
        ",</p>\n<p>Recibimos una solicitud para restablecer tu contraseña de Colmado POS. Este enlace vence en 30 minutos:</p>\n<p><a href=\"",
    );
    r.append(reset_url);
    r.append("\">");
    r.append(reset_url);
    r.append(
        "</a></p>\n<p>Si no fuiste tú quien lo solicitó, puedes ignorar este correo - tu contraseña no cambiará.</p>",
    );
    r
}

/// Lado máximo de una miniatura, en píxeles.
pub const MAX_DIMENSION: u32 = 240;

/// Tamaño máximo de la foto subida, en bytes.
pub const MAX_UPLOAD_BYTES: usize = 8388608;

/// Calidad JPEG de la miniatura.
pub const JPEG_QUALITY: u8 = 82;

/// JPEG que `image` produce al decodificar `bytes`, reescalarlos para caber en
/// `max_dim` × `max_dim` y codificarlos con la calidad dada; `None` si la
/// imagen no se puede decodificar o codificar.
pub uninterp spec fn miniatura_de(bytes: Seq<u8>, max_dim: u32, calidad: u8) -> Option<Seq<u8>>;

/// `image::load_from_memory`, `DynamicImage::resize` con filtro triangular y
/// `JpegEncoder::new_with_quality`: la miniatura en JPEG. El contrato sólo
/// afirma que es función de sus argumentos.
#[verifier::external_body]
fn miniatura_jpeg(bytes: &[u8], max_dim: u32, calidad: u8) -> (r: Option<Vec<u8>>)
    ensures
        r matches Some(v) ==> miniatura_de(bytes@, max_dim, calidad) == Some(v@),
        r is None ==> miniatura_de(bytes@, max_dim, calidad) is None,
{
    let img = image::load_from_memory(bytes).ok()?;
    let reducida = img.resize(max_dim, max_dim, image::imageops::FilterType::Triangle);
    let mut out = Vec::new();
    image::codecs::jpeg::JpegEncoder::new_with_quality(&mut out, calidad).encode_image(&reducida).ok()?;
    Some(out)
}

/// Errores de una foto de producto.
#[derive(PartialEq, Eq, Structural, Clone, Copy, Debug)]
pub enum ErrorImagen {
    /// El archivo está vacío.
    Vacia,
    /// El archivo supera los 8 MB.
    Grande,
    /// El formato no se puede decodificar.
    FormatoNoSoportado,
}

/// Miniatura lista para guardar: el JPEG, el nombre del archivo y la ruta
/// pública con que se sirve.
pub struct Miniatura {
    pub jpeg: Vec<u8>,
    pub archivo: String,
    pub ruta_publica: String,
}

/// Miniaturas de fotos de producto guardadas bajo una carpeta.
pub struct ImageService {
    pub dir: String,
}

impl ImageService {
    /// Servicio con la carpeta de miniaturas.
    pub fn new(dir: String) -> (r: ImageService)
        ensures
            r.dir == dir,
    {
        ImageService { dir }
    }

    /// Valida la foto y produce su miniatura JPEG, el nombre `<producto>.jpg` y
    /// la ruta pública `/uploads/<tenant>/<producto>.jpg`.
    pub fn preparar_miniatura(&self, tenant_id: &str, producto_id: &str, bytes: &[u8]) -> (r: Result<
        Miniatura,
        ErrorImagen,
    >)
        ensures
            bytes@.len() == 0 ==> r is Err && r->Err_0 == ErrorImagen::Vacia,
            bytes@.len() > MAX_UPLOAD_BYTES ==> r is Err && r->Err_0 == ErrorImagen::Grande,
            0 < bytes@.len() <= MAX_UPLOAD_BYTES ==> match r {
                Ok(m) => {
                    &&& miniatura_de(bytes@, MAX_DIMENSION, JPEG_QUALITY) == Some(m.jpeg@)
                    &&& m.archivo@ == producto_id@ + ".jpg"@
                    &&& m.ruta_publica@ == "/uploads/"@ + tenant_id@ + "/"@ + producto_id@ + ".jpg"@
                },
                Err(e) => e == ErrorImagen::FormatoNoSoportado && miniatura_de(
                    bytes@,
                    MAX_DIMENSION,
                    JPEG_QUALITY,
                ) is None,
            },
    {
        if bytes.len() == 0 {
            return Err(ErrorImagen::Vacia);
        }
        if bytes.len() > MAX_UPLOAD_BYTES {
            return Err(ErrorImagen::Grande);
        }
        let jpeg = match miniatura_jpeg(bytes, MAX_DIMENSION, JPEG_QUALITY) {
            Some(j) => j,
            None => return Err(ErrorImagen::FormatoNoSoportado),
        };
        let mut archivo = a_string(producto_id);
        archivo.append(".jpg");
        let mut ruta = a_string("/uploads/");
        ruta.append(tenant_id);
        ruta.append("/");
        ruta.append(archivo.as_str());
        Ok(Miniatura { jpeg, archivo, ruta_publica: ruta })
    }
}

} // verus!

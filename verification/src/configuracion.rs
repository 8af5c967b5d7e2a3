//! Configuración de la empresa y de la impresora de red.
use vstd::prelude::*;
use crate::texto::{a_string, caracteres, entero_texto, recortado, recortar, texto_entero};

verus! {

/// Datos de la empresa emisora.
#[derive(Clone, Debug)]
pub struct Empresa {
    pub rnc: String,
    pub razon_social: String,
    pub nombre_comercial: Option<String>,
    pub direccion: String,
    pub telefono: Option<String>,
    pub correo: Option<String>,
    pub logo_url: Option<String>,
    pub ambiente_dgii: String,
    pub factura_electronica_activa: bool,
}

/// Cambios a los datos de la empresa.
#[derive(Clone, Debug)]
pub struct UpdateEmpresaRequest {
    pub razon_social: String,
    pub nombre_comercial: Option<String>,
    pub direccion: String,
    pub telefono: Option<String>,
    pub correo: Option<String>,
    pub logo_url: Option<String>,
    pub ambiente_dgii: String,
    pub factura_electronica_activa: bool,
}

/// Configuración de la impresora de red.
#[derive(Clone, Debug)]
pub struct UpdateImpresoraRequest {
    pub ip: Option<String>,
    pub puerto: i32,
    pub ancho_mm: i32,
    pub copias: i32,
}

/// Resultado de probar la conexión con la impresora.
#[derive(Clone, Debug)]
pub struct TestImpresoraResult {
    pub alcanzable: bool,
    pub mensaje: String,
}

/// Cómo terminó el intento de conexión.
#[derive(Clone, Debug)]
pub enum Conexion {
    Exitosa,
    /// Falló con el error dado.
    Fallida(String),
    /// No respondió dentro del tiempo de espera.
    Agotada,
}

/// Dirección `ip:puerto` de la impresora, si hay una IP configurada que no
/// sea sólo espacios.
pub open spec fn destino(ip: Option<Seq<char>>, puerto: int) -> Option<Seq<char>> {
    match ip {
        Some(s) => if recortar(s).len() > 0 {
            Some(s + ":"@ + entero_texto(puerto))
        } else {
            None
        },
        None => None,
    }
}

/// Vista de un texto opcional.
pub open spec fn opcional(o: Option<String>) -> Option<Seq<char>> {
    match o {
        Some(s) => Some(s@),
        None => None,
    }
}

/// Dirección de la impresora configurada.
pub fn destino_impresora(ip: &Option<String>, puerto: i32) -> (r: Option<String>)
    ensures
        match r {
            Some(d) => destino(opcional(*ip), puerto as int) == Some(d@),
            None => destino(opcional(*ip), puerto as int) is None,
        },
{
    match ip {
        None => None,
        Some(s) => {
            let t = recortado(s.as_str());
            if caracteres(t.as_str()).len() == 0 {
                None
            } else {
                let mut d = a_string(s.as_str());
                d.append(":");
                d.append(texto_entero(puerto as i64).as_str());
                proof {
                    reveal_strlit(":");
                }
                Some(d)
            }
        },
    }
}

/// Mensaje de la prueba de conexión.
pub open spec fn mensaje_prueba(destino: Option<Seq<char>>, c: Conexion) -> (bool, Seq<char>) {
    match destino {
        None => (false, "No hay IP configurada"@),
        Some(d) => match c {
            Conexion::Exitosa => (true, "Conexión exitosa a "@ + d),
            Conexion::Fallida(e) => (false, "No se pudo conectar a "@ + d + ": "@ + e@),
            Conexion::Agotada => (false, "Tiempo de espera agotado conectando a "@ + d),
        },
    }
}

/// Resultado de la prueba de la impresora en `destino` (`None` si no hay IP
/// configurada) según cómo terminó la conexión.
pub fn resultado_prueba(destino: &Option<String>, c: Conexion) -> (r: TestImpresoraResult)
    ensures
        (r.alcanzable, r.mensaje@) == mensaje_prueba(opcional(*destino), c),
{
    match destino {
        None => TestImpresoraResult { alcanzable: false, mensaje: a_string("No hay IP configurada") },
        Some(d) => match c {
            Conexion::Exitosa => {
                let mut m = a_string("Conexión exitosa a ");
                m.append(d.as_str());
                TestImpresoraResult { alcanzable: true, mensaje: m }
            },
            Conexion::Fallida(e) => {
                let mut m = a_string("No se pudo conectar a ");
                m.append(d.as_str());
                m.append(": ");
                m.append(e.as_str());
                TestImpresoraResult { alcanzable: false, mensaje: m }
            },
            Conexion::Agotada => {
                let mut m = a_string("Tiempo de espera agotado conectando a ");
                m.append(d.as_str());
                TestImpresoraResult { alcanzable: false, mensaje: m }
            },
        },
    }
}

} // verus!

//! Catálogos: productos y categorías, clientes y proveedores, roles y
//! permisos, y el catálogo de módulos del panel interno.
use vstd::prelude::*;
use crate::dinero::Monto;
use crate::precios::cero;
use crate::texto::{a_string, caracteres, mismo_texto, recortado, recortar};

verus! {

/// Texto en mayúsculas según `str::to_uppercase` (mapeo de Unicode).
pub uninterp spec fn mayusculas(s: Seq<char>) -> Seq<char>;

/// Texto en minúsculas según `str::to_lowercase` (mapeo de Unicode).
pub uninterp spec fn minusculas(s: Seq<char>) -> Seq<char>;

/// `str::to_uppercase`. El mapeo de Unicode no se enuncia: el contrato sólo
/// afirma que el resultado es función del texto.
#[verifier::external_body]
pub(crate) fn a_mayusculas(s: &str) -> (r: String)
    ensures
        r@ == mayusculas(s@),
{
    s.to_uppercase()
}

/// `str::to_lowercase`. El mapeo de Unicode no se enuncia: el contrato sólo
/// afirma que el resultado es función del texto.
#[verifier::external_body]
pub(crate) fn a_minusculas(s: &str) -> (r: String)
    ensures
        r@ == minusculas(s@),
{
    s.to_lowercase()
}

/// Texto con cada espacio cambiado por `_`.
pub open spec fn espacios_a_guion_bajo(s: Seq<char>) -> Seq<char> {
    s.map_values(|c: char| if c == ' ' {
        '_'
    } else {
        c
    })
}

/// Código normalizado: recortado, en mayúsculas y con `_` en lugar de
/// espacios.
pub open spec fn codigo_normalizado(s: Seq<char>) -> Seq<char> {
    espacios_a_guion_bajo(mayusculas(recortar(s)))
}

/// Normaliza el código de un rol o un módulo.
pub fn normalizar_codigo(codigo: &str) -> (r: String)
    ensures
        r@ == codigo_normalizado(codigo@),
{
    let t = recortado(codigo);
    let m = a_mayusculas(t.as_str());
    let v = caracteres(m.as_str());
    let mut r = String::new();
    let mut i: usize = 0;
    while i < v.len()
        invariant
            i <= v.len(),
            r@ == espacios_a_guion_bajo(v@.take(i as int)),
        decreases v.len() - i,
    {
        let c = v[i];
        crate::texto::empujar(&mut r, if c == ' ' { '_' } else { c });
        proof {
            assert(espacios_a_guion_bajo(v@.take(i + 1)) =~= espacios_a_guion_bajo(v@.take(i as int)).push(
                if c == ' ' { '_' } else { c },
            ));
        }
        i = i + 1;
    }
    proof {
        assert(v@.take(i as int) =~= v@);
    }
    r
}

/// Errores de los catálogos.
#[derive(PartialEq, Eq, Structural, Clone, Copy, Debug)]
pub enum ErrorCatalogo {
    /// El código y el nombre son requeridos.
    CodigoONombreVacio,
    /// El nombre es requerido.
    NombreVacio,
    /// El SKU es requerido.
    SkuVacio,
    /// El tipo de ITBIS no es GRAVADO_18, GRAVADO_16 ni EXENTO.
    ItbisTipoInvalido,
    /// El tipo no es PRODUCTO ni SERVICIO.
    TipoInvalido,
}

/// El texto queda vacío al recortarlo.
fn vacio(s: &str) -> (r: bool)
    ensures
        r == (recortar(s@).len() == 0),
{
    let t = recortado(s);
    caracteres(t.as_str()).len() == 0
}

/// Rol nuevo del catálogo global.
pub struct CreateRolRequest {
    pub codigo: String,
    pub nombre: String,
    pub permisos: Vec<String>,
}

impl CreateRolRequest {
    /// Código normalizado del rol; código y nombre son requeridos.
    pub fn validar(&self) -> (r: Result<String, ErrorCatalogo>)
        ensures
            match r {
                Ok(c) => c@ == codigo_normalizado(self.codigo@) && c@.len() > 0 && recortar(
                    self.nombre@,
                ).len() > 0,
                Err(e) => e == ErrorCatalogo::CodigoONombreVacio && (codigo_normalizado(
                    self.codigo@,
                ).len() == 0 || recortar(self.nombre@).len() == 0),
            },
    {
        let c = normalizar_codigo(self.codigo.as_str());
        if caracteres(c.as_str()).len() == 0 || vacio(self.nombre.as_str()) {
            return Err(ErrorCatalogo::CodigoONombreVacio);
        }
        Ok(c)
    }
}

/// Nuevo conjunto de permisos de un rol.
pub struct SetPermisosRolRequest {
    pub permisos: Vec<String>,
}

/// Permiso del catálogo global.
pub struct PermisoCatalogo {
    pub codigo: String,
    pub nombre: String,
    pub descripcion: Option<String>,
    pub orden: i32,
    pub activo: bool,
}

/// Módulo del catálogo con su asignación a un negocio.
pub struct ModuloAsignado {
    pub codigo: String,
    pub nombre: String,
    pub descripcion: Option<String>,
    pub activo: bool,
}

/// Módulo del catálogo.
pub struct ModuloCatalogo {
    pub codigo: String,
    pub nombre: String,
    pub descripcion: Option<String>,
    pub orden: i32,
    pub activo: bool,
}

/// Módulo nuevo del catálogo.
pub struct CreateModuloRequest {
    pub codigo: String,
    pub nombre: String,
    pub descripcion: Option<String>,
    pub orden: Option<i32>,
}

impl CreateModuloRequest {
    /// Código normalizado y orden (cero por omisión) del módulo; código y
    /// nombre son requeridos.
    pub fn validar(&self) -> (r: Result<(String, i32), ErrorCatalogo>)
        ensures
            match r {
                Ok((c, o)) => c@ == codigo_normalizado(self.codigo@) && c@.len() > 0 && recortar(
                    self.nombre@,
                ).len() > 0 && o == match self.orden {
                    Some(x) => x,
                    None => 0,
                },
                Err(e) => e == ErrorCatalogo::CodigoONombreVacio && (codigo_normalizado(
                    self.codigo@,
                ).len() == 0 || recortar(self.nombre@).len() == 0),
            },
    {
        let c = normalizar_codigo(self.codigo.as_str());
        if caracteres(c.as_str()).len() == 0 || vacio(self.nombre.as_str()) {
            return Err(ErrorCatalogo::CodigoONombreVacio);
        }
        let o = match self.orden {
            Some(x) => x,
            None => 0,
        };
        Ok((c, o))
    }
}

/// Módulos asignados a un negocio.
pub struct SetModulosRequest {
    pub codigos: Vec<String>,
}

/// Categoría nueva.
pub struct CreateCategoriaRequest {
    pub nombre: String,
    pub color: Option<String>,
    pub icono: Option<String>,
    pub orden: Option<i32>,
}

impl CreateCategoriaRequest {
    /// Nombre recortado y orden (cero por omisión); el nombre es requerido.
    pub fn validar(&self) -> (r: Result<(String, i32), ErrorCatalogo>)
        ensures
            recortar(self.nombre@).len() == 0 ==> r is Err && r->Err_0 == ErrorCatalogo::NombreVacio,
            recortar(self.nombre@).len() > 0 ==> (r matches Ok((n, o)) && n@ == recortar(
                self.nombre@,
            ) && o == match self.orden {
                Some(x) => x,
                None => 0,
            }),
    {
        let n = recortado(self.nombre.as_str());
        if caracteres(n.as_str()).len() == 0 {
            return Err(ErrorCatalogo::NombreVacio);
        }
        let o = match self.orden {
            Some(x) => x,
            None => 0,
        };
        Ok((n, o))
    }
}

/// Cambios a una categoría (los ausentes conservan su valor).
pub struct UpdateCategoriaRequest {
    pub nombre: Option<String>,
    pub color: Option<String>,
    pub icono: Option<String>,
    pub orden: Option<i32>,
    pub activo: Option<bool>,
}

/// Proveedor nuevo.
pub struct CreateProveedorRequest {
    pub nombre: String,
    pub rnc: Option<String>,
    pub telefono: Option<String>,
    pub email: Option<String>,
    pub direccion: Option<String>,
    pub contacto: Option<String>,
}

impl CreateProveedorRequest {
    /// El nombre del proveedor es requerido.
    pub fn validar(&self) -> (r: Result<(), ErrorCatalogo>)
        ensures
            r is Ok <==> recortar(self.nombre@).len() > 0,
            r is Err ==> r == Err::<(), ErrorCatalogo>(ErrorCatalogo::NombreVacio),
    {
        if vacio(self.nombre.as_str()) {
            Err(ErrorCatalogo::NombreVacio)
        } else {
            Ok(())
        }
    }
}

/// Cambios a un proveedor (los ausentes conservan su valor).
pub struct UpdateProveedorRequest {
    pub nombre: Option<String>,
    pub rnc: Option<String>,
    pub telefono: Option<String>,
    pub email: Option<String>,
    pub direccion: Option<String>,
    pub contacto: Option<String>,
    pub activo: Option<bool>,
}

/// El nombre de un cliente nuevo es requerido.
pub fn validar_cliente(nombre: &str) -> (r: Result<(), ErrorCatalogo>)
    ensures
        r is Ok <==> recortar(nombre@).len() > 0,
        r is Err ==> r == Err::<(), ErrorCatalogo>(ErrorCatalogo::NombreVacio),
{
    if vacio(nombre) {
        Err(ErrorCatalogo::NombreVacio)
    } else {
        Ok(())
    }
}

/// El tipo de ITBIS es uno de los admitidos.
pub open spec fn itbis_tipo_valido(t: Seq<char>) -> bool {
    t == "GRAVADO_18"@ || t == "GRAVADO_16"@ || t == "EXENTO"@
}

/// Datos de un producto listos para guardar.
#[derive(Clone, Debug)]
pub struct ProductoValidado {
    pub itbis_tipo: String,
    pub tipo: String,
    pub precio_venta: Option<Monto>,
    pub stock_actual: Monto,
    pub stock_minimo: Monto,
}

/// Tipo de ITBIS y tipo de producto resueltos con sus valores por omisión.
pub open spec fn texto_o(s: Option<String>, d: Seq<char>) -> Seq<char> {
    match s {
        Some(x) => x@,
        None => d,
    }
}

/// Monto opcional o cero.
pub open spec fn monto_o_cero(m: Option<Monto>) -> Monto {
    match m {
        Some(x) => x,
        None => cero(),
    }
}

/// Valida un producto nuevo: SKU y nombre requeridos, ITBIS `GRAVADO_18` y
/// tipo `PRODUCTO` por omisión; un servicio no tiene precio fijo ni stock.
pub fn validar_producto_nuevo(
    sku: &str,
    nombre: &str,
    itbis_tipo: Option<String>,
    tipo: Option<String>,
    precio_venta: Option<Monto>,
    stock_actual: Option<Monto>,
    stock_minimo: Option<Monto>,
) -> (r: Result<ProductoValidado, ErrorCatalogo>)
    ensures
        recortar(sku@).len() == 0 ==> r is Err && r->Err_0 == ErrorCatalogo::SkuVacio,
        recortar(sku@).len() > 0 && recortar(nombre@).len() == 0 ==> r is Err && r->Err_0
            == ErrorCatalogo::NombreVacio,
        recortar(sku@).len() > 0 && recortar(nombre@).len() > 0 && !itbis_tipo_valido(
            texto_o(itbis_tipo, "GRAVADO_18"@),
        ) ==> r is Err && r->Err_0 == ErrorCatalogo::ItbisTipoInvalido,
        recortar(sku@).len() > 0 && recortar(nombre@).len() > 0 && itbis_tipo_valido(
            texto_o(itbis_tipo, "GRAVADO_18"@),
        ) && texto_o(tipo, "PRODUCTO"@) != "PRODUCTO"@ && texto_o(tipo, "PRODUCTO"@)
            != "SERVICIO"@ ==> r is Err && r->Err_0 == ErrorCatalogo::TipoInvalido,
        r matches Ok(p) ==> {
            &&& p.itbis_tipo@ == texto_o(itbis_tipo, "GRAVADO_18"@)
            &&& p.tipo@ == texto_o(tipo, "PRODUCTO"@)
            &&& itbis_tipo_valido(p.itbis_tipo@)
            &&& p.tipo@ == "SERVICIO"@ ==> p.precio_venta is None && p.stock_actual == cero()
                && p.stock_minimo == cero()
            &&& p.tipo@ == "PRODUCTO"@ ==> p.precio_venta == Some(monto_o_cero(precio_venta))
                && p.stock_actual == monto_o_cero(stock_actual) && p.stock_minimo == monto_o_cero(
                stock_minimo,
            )
        },
        recortar(sku@).len() > 0 && recortar(nombre@).len() > 0 && itbis_tipo_valido(
            texto_o(itbis_tipo, "GRAVADO_18"@),
        ) && (texto_o(tipo, "PRODUCTO"@) == "PRODUCTO"@ || texto_o(tipo, "PRODUCTO"@)
            == "SERVICIO"@) ==> r is Ok,
{
    if vacio(sku) {
        return Err(ErrorCatalogo::SkuVacio);
    }
    if vacio(nombre) {
        return Err(ErrorCatalogo::NombreVacio);
    }
    let it = match itbis_tipo {
        Some(x) => x,
        None => a_string("GRAVADO_18"),
    };
    if !mismo_texto(it.as_str(), "GRAVADO_18") && !mismo_texto(it.as_str(), "GRAVADO_16")
        && !mismo_texto(it.as_str(), "EXENTO") {
        return Err(ErrorCatalogo::ItbisTipoInvalido);
    }
    let t = match tipo {
        Some(x) => x,
        None => a_string("PRODUCTO"),
    };
    let es_servicio = mismo_texto(t.as_str(), "SERVICIO");
    if !mismo_texto(t.as_str(), "PRODUCTO") && !es_servicio {
        return Err(ErrorCatalogo::TipoInvalido);
    }
    let cero_m = Monto::cero();
    proof {
        reveal_strlit("SERVICIO");
        reveal_strlit("PRODUCTO");
        assert("SERVICIO"@ != "PRODUCTO"@) by {
            assert("SERVICIO"@[0] != "PRODUCTO"@[0]);
        }
    }
    if es_servicio {
        Ok(ProductoValidado {
            itbis_tipo: it,
            tipo: t,
            precio_venta: None,
            stock_actual: cero_m,
            stock_minimo: cero_m,
        })
    } else {
        Ok(ProductoValidado {
            itbis_tipo: it,
            tipo: t,
            precio_venta: Some(
                match precio_venta {
                    Some(p) => p,
                    None => cero_m,
                },
            ),
            stock_actual: match stock_actual {
                Some(s) => s,
                None => cero_m,
            },
            stock_minimo: match stock_minimo {
                Some(s) => s,
                None => cero_m,
            },
        })
    }
}

/// Patrón de búsqueda `LIKE`: el texto recortado y en minúsculas, con `%`
/// al final (o en ambos lados si `ambos`), o nada si queda vacío.
pub open spec fn patron(s: Option<Seq<char>>, ambos: bool) -> Option<Seq<char>> {
    match s {
        None => None,
        Some(x) => {
            let t = minusculas(recortar(x));
            if t.len() == 0 {
                None
            } else if ambos {
                Some("%"@ + t + "%"@)
            } else {
                Some(t + "%"@)
            }
        },
    }
}

/// Patrón de búsqueda de los listados.
pub fn patron_busqueda(search: Option<&str>, ambos: bool) -> (r: Option<String>)
    ensures
        match r {
            Some(p) => patron(
                match search {
                    Some(x) => Some(x@),
                    None => None,
                },
                ambos,
            ) == Some(p@),
            None => patron(
                match search {
                    Some(x) => Some(x@),
                    None => None,
                },
                ambos,
            ) is None,
        },
{
    match search {
        None => None,
        Some(x) => {
            let t = a_minusculas(recortado(x).as_str());
            if caracteres(t.as_str()).len() == 0 {
                None
            } else if ambos {
                let mut p = a_string("%");
                p.append(t.as_str());
                p.append("%");
                Some(p)
            } else {
                let mut p = t;
                p.append("%");
                Some(p)
            }
        },
    }
}

} // verus!

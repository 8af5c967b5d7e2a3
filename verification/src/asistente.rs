//! Asistente de chat y resumen diario: qué acciones y consultas puede pedir
//! cada rol, cómo se interpreta la respuesta del modelo y los textos que se
//! arman con cifras ya calculadas (el modelo nunca calcula una cifra).
use vstd::prelude::*;
use crate::dinero::{resta_decimal, restar, suma_decimal, sumar, texto, texto_decimal, Monto};
use crate::reportes::{unir, unir_campos, vistas};
use crate::ordenes::Fecha;
use crate::texto::{
    a_string, buscar, buscar_desde, buscar_en, buscar_ultimo, caracteres, coincide_en, empieza,
    empieza_con, entero_texto, lema_buscar_desde_rango, mismo_texto, recortado, recortar, subcadena,
    texto_entero,
};

verus! {

// ---------------------------------------------------------------------------
// Acciones y herramientas por rol
// ---------------------------------------------------------------------------

/// Registro que el asistente puede proponer crear.
#[derive(PartialEq, Eq, Structural, Clone, Copy, Debug)]
pub enum AccionDisponible {
    Producto,
    Cliente,
    Proveedor,
    Gasto,
}

/// Roles (además de ADMIN) que pueden crear el registro.
pub open spec fn roles_accion(a: AccionDisponible) -> Seq<Seq<char>> {
    match a {
        AccionDisponible::Producto => seq!["ALMACEN"@],
        AccionDisponible::Cliente => seq!["CAJERO"@],
        AccionDisponible::Proveedor => seq!["ALMACEN"@],
        AccionDisponible::Gasto => seq!["CONTADOR"@],
    }
}

/// Nombre de la entidad de una acción.
pub open spec fn entidad_spec(a: AccionDisponible) -> Seq<char> {
    match a {
        AccionDisponible::Producto => "producto"@,
        AccionDisponible::Cliente => "cliente"@,
        AccionDisponible::Proveedor => "proveedor"@,
        AccionDisponible::Gasto => "gasto"@,
    }
}

/// Todas las acciones, en el orden del catálogo.
pub open spec fn todas_las_acciones() -> Seq<AccionDisponible> {
    seq![
        AccionDisponible::Producto,
        AccionDisponible::Cliente,
        AccionDisponible::Proveedor,
        AccionDisponible::Gasto,
    ]
}

impl AccionDisponible {
    /// Nombre de la entidad.
    pub fn entidad(&self) -> (r: String)
        ensures
            r@ == entidad_spec(*self),
    {
        match self {
            AccionDisponible::Producto => a_string("producto"),
            AccionDisponible::Cliente => a_string("cliente"),
            AccionDisponible::Proveedor => a_string("proveedor"),
            AccionDisponible::Gasto => a_string("gasto"),
        }
    }
}

/// Herramienta de consulta del asistente.
#[derive(PartialEq, Eq, Structural, Clone, Copy, Debug)]
pub enum HerramientaDisponible {
    VentasPeriodo,
    ProductosMasVendidos,
    ProductoInfo,
    GastosPeriodo,
    ClienteInfo,
    CajaEstado,
    InventarioValor,
}

/// Roles (además de ADMIN) que pueden usar la herramienta.
pub open spec fn roles_herramienta(h: HerramientaDisponible) -> Seq<Seq<char>> {
    match h {
        HerramientaDisponible::VentasPeriodo => seq!["CAJERO"@],
        HerramientaDisponible::ProductosMasVendidos => seq!["CAJERO"@],
        HerramientaDisponible::ProductoInfo => seq!["CAJERO"@, "ALMACEN"@],
        HerramientaDisponible::GastosPeriodo => seq!["CONTADOR"@],
        HerramientaDisponible::ClienteInfo => seq!["CAJERO"@],
        HerramientaDisponible::CajaEstado => seq!["CAJERO"@],
        HerramientaDisponible::InventarioValor => seq!["CAJERO"@, "ALMACEN"@],
    }
}

/// Nombre de una herramienta.
pub open spec fn nombre_herramienta(h: HerramientaDisponible) -> Seq<char> {
    match h {
        HerramientaDisponible::VentasPeriodo => "ventas_periodo"@,
        HerramientaDisponible::ProductosMasVendidos => "productos_mas_vendidos"@,
        HerramientaDisponible::ProductoInfo => "producto_info"@,
        HerramientaDisponible::GastosPeriodo => "gastos_periodo"@,
        HerramientaDisponible::ClienteInfo => "cliente_info"@,
        HerramientaDisponible::CajaEstado => "caja_estado"@,
        HerramientaDisponible::InventarioValor => "inventario_valor"@,
    }
}

/// Todas las herramientas, en el orden del catálogo.
pub open spec fn todas_las_herramientas() -> Seq<HerramientaDisponible> {
    seq![
        HerramientaDisponible::VentasPeriodo,
        HerramientaDisponible::ProductosMasVendidos,
        HerramientaDisponible::ProductoInfo,
        HerramientaDisponible::GastosPeriodo,
        HerramientaDisponible::ClienteInfo,
        HerramientaDisponible::CajaEstado,
        HerramientaDisponible::InventarioValor,
    ]
}

impl HerramientaDisponible {
    /// Nombre de la herramienta.
    pub fn nombre(&self) -> (r: String)
        ensures
            r@ == nombre_herramienta(*self),
    {
        match self {
            HerramientaDisponible::VentasPeriodo => a_string("ventas_periodo"),
            HerramientaDisponible::ProductosMasVendidos => a_string("productos_mas_vendidos"),
            HerramientaDisponible::ProductoInfo => a_string("producto_info"),
            HerramientaDisponible::GastosPeriodo => a_string("gastos_periodo"),
            HerramientaDisponible::ClienteInfo => a_string("cliente_info"),
            HerramientaDisponible::CajaEstado => a_string("caja_estado"),
            HerramientaDisponible::InventarioValor => a_string("inventario_valor"),
        }
    }
}

/// Acciones que un rol puede pedir: todas para ADMIN, y para otro rol las de
/// su lista, en el orden del catálogo.
pub open spec fn acciones_de(rol: Seq<char>) -> Seq<AccionDisponible> {
    if rol == "ADMIN"@ {
        todas_las_acciones()
    } else {
        todas_las_acciones().filter(|a: AccionDisponible| roles_accion(a).contains(rol))
    }
}

/// Herramientas que un rol puede usar: todas para ADMIN, y para otro rol las
/// de su lista, en el orden del catálogo.
pub open spec fn herramientas_de(rol: Seq<char>) -> Seq<HerramientaDisponible> {
    if rol == "ADMIN"@ {
        todas_las_herramientas()
    } else {
        todas_las_herramientas().filter(|h: HerramientaDisponible| roles_herramienta(h).contains(rol))
    }
}

fn rol_en(rol: &str, roles: &[&str]) -> (r: bool)
    ensures
        r == roles@.map_values(|x: &str| x@).contains(rol@),
{
    let mut i: usize = 0;
    while i < roles.len()
        invariant
            i <= roles@.len(),
            forall|k: int| 0 <= k < i ==> roles@[k]@ != rol@,
        decreases roles.len() - i,
    {
        if mismo_texto(roles[i], rol) {
            proof {
                assert(roles@.map_values(|x: &str| x@)[i as int] == rol@);
            }
            return true;
        }
        i = i + 1;
    }
    proof {
        let m = roles@.map_values(|x: &str| x@);
        assert forall|k: int| 0 <= k < m.len() implies #[trigger] m[k] != rol@ by {
            assert(m[k] == roles@[k]@);
        }
    }
    false
}

/// Acciones que el rol puede pedir por el chat.
pub fn acciones_para_rol(rol: &str) -> (r: Vec<AccionDisponible>)
    ensures
        r@ == acciones_de(rol@),
{
    let todas = vec![
        AccionDisponible::Producto,
        AccionDisponible::Cliente,
        AccionDisponible::Proveedor,
        AccionDisponible::Gasto,
    ];
    proof {
        assert(todas@ =~= todas_las_acciones());
    }
    if mismo_texto(rol, "ADMIN") {
        return todas;
    }
    let mut r: Vec<AccionDisponible> = Vec::new();
    let mut i: usize = 0;
    while i < todas.len()
        invariant
            i <= todas@.len(),
            todas@ == todas_las_acciones(),
            r@ == todas@.take(i as int).filter(|a: AccionDisponible| roles_accion(a).contains(rol@)),
        decreases todas.len() - i,
    {
        let a = todas[i];
        let roles: &[&str] = match a {
            AccionDisponible::Producto => &["ALMACEN"],
            AccionDisponible::Cliente => &["CAJERO"],
            AccionDisponible::Proveedor => &["ALMACEN"],
            AccionDisponible::Gasto => &["CONTADOR"],
        };
        proof {
            assert(roles@.map_values(|x: &str| x@) =~= roles_accion(a));
            assert(todas@.take(i + 1).drop_last() =~= todas@.take(i as int));
        }
        if rol_en(rol, roles) {
            r.push(a);
        }
        proof {
            todas@.take(i as int).lemma_filter_push(
                a,
                |a: AccionDisponible| roles_accion(a).contains(rol@),
            );
            assert(todas@.take(i as int).push(a) =~= todas@.take(i + 1));
        }
        i = i + 1;
    }
    proof {
        assert(todas@.take(i as int) =~= todas@);
    }
    r
}

/// Herramientas que el rol puede usar por el chat.
pub fn herramientas_para_rol(rol: &str) -> (r: Vec<HerramientaDisponible>)
    ensures
        r@ == herramientas_de(rol@),
{
    let todas = vec![
        HerramientaDisponible::VentasPeriodo,
        HerramientaDisponible::ProductosMasVendidos,
        HerramientaDisponible::ProductoInfo,
        HerramientaDisponible::GastosPeriodo,
        HerramientaDisponible::ClienteInfo,
        HerramientaDisponible::CajaEstado,
        HerramientaDisponible::InventarioValor,
    ];
    proof {
        assert(todas@ =~= todas_las_herramientas());
    }
    if mismo_texto(rol, "ADMIN") {
        return todas;
    }
    let mut r: Vec<HerramientaDisponible> = Vec::new();
    let mut i: usize = 0;
    while i < todas.len()
        invariant
            i <= todas@.len(),
            todas@ == todas_las_herramientas(),
            r@ == todas@.take(i as int).filter(
                |h: HerramientaDisponible| roles_herramienta(h).contains(rol@),
            ),
        decreases todas.len() - i,
    {
        let h = todas[i];
        let roles: &[&str] = match h {
            HerramientaDisponible::VentasPeriodo => &["CAJERO"],
            HerramientaDisponible::ProductosMasVendidos => &["CAJERO"],
            HerramientaDisponible::ProductoInfo => &["CAJERO", "ALMACEN"],
            HerramientaDisponible::GastosPeriodo => &["CONTADOR"],
            HerramientaDisponible::ClienteInfo => &["CAJERO"],
            HerramientaDisponible::CajaEstado => &["CAJERO"],
            HerramientaDisponible::InventarioValor => &["CAJERO", "ALMACEN"],
        };
        proof {
            assert(roles@.map_values(|x: &str| x@) =~= roles_herramienta(h));
            assert(todas@.take(i + 1).drop_last() =~= todas@.take(i as int));
        }
        if rol_en(rol, roles) {
            r.push(h);
        }
        proof {
            todas@.take(i as int).lemma_filter_push(
                h,
                |h: HerramientaDisponible| roles_herramienta(h).contains(rol@),
            );
            assert(todas@.take(i as int).push(h) =~= todas@.take(i + 1));
        }
        i = i + 1;
    }
    proof {
        assert(todas@.take(i as int) =~= todas@);
    }
    r
}

/// ADMIN tiene todas las acciones y herramientas, y cualquier otro rol tiene
/// a lo sumo las de ADMIN.
pub proof fn ley_admin_ve_todo(rol: Seq<char>)
    ensures
        acciones_de("ADMIN"@) == todas_las_acciones(),
        herramientas_de("ADMIN"@) == todas_las_herramientas(),
        acciones_de(rol).len() <= acciones_de("ADMIN"@).len(),
        herramientas_de(rol).len() <= herramientas_de("ADMIN"@).len(),
{
    if rol != "ADMIN"@ {
        todas_las_acciones().lemma_filter_len(|a: AccionDisponible| roles_accion(a).contains(rol));
        todas_las_herramientas().lemma_filter_len(
            |h: HerramientaDisponible| roles_herramienta(h).contains(rol),
        );
    }
}


// ---------------------------------------------------------------------------
// Interpretación de la respuesta del modelo
// ---------------------------------------------------------------------------

/// JSON tras un marcador: del primer `{` al último `}` que siguen al primer
/// `marcador` del texto, si el `}` va después del `{`.
pub open spec fn json_tras_marcador(t: Seq<char>, m: Seq<char>) -> Option<Seq<char>> {
    match buscar(t, m) {
        None => None,
        Some(p) => {
            let s = p + m.len();
            match (buscar_desde(t, "{"@, s), buscar_ultimo(t, "}"@)) {
                (Some(i), Some(f)) => if f >= s && f > i {
                    Some(t.subrange(i, f + 1))
                } else {
                    None
                },
                _ => None,
            }
        },
    }
}

/// Busca el JSON que sigue a un marcador (`ACCION:` o `HERRAMIENTA:`) en
/// cualquier posición del texto.
pub fn buscar_marcador_json(texto: &str, marcador: &str) -> (r: Option<String>)
    requires
        marcador@.len() > 0,
    ensures
        match r {
            Some(j) => json_tras_marcador(texto@, marcador@) == Some(j@),
            None => json_tras_marcador(texto@, marcador@) is None,
        },
{
    let v = caracteres(texto);
    let m = caracteres(marcador);
    let p = match buscar_en(&v, &m, 0) {
        Some(p) => p,
        None => return None,
    };
    proof {
        lema_buscar_desde_rango(v@, m@, 0);
        assert(p + m@.len() <= v@.len());
        assert(p + m.len() <= v.len());
    }
    let s = p + m.len();
    let abre = caracteres("{");
    let cierra = caracteres("}");
    proof {
        reveal_strlit("{");
        reveal_strlit("}");
    }
    let i = match buscar_en(&v, &abre, s) {
        Some(i) => i,
        None => return None,
    };
    let f = match crate::texto::buscar_ultimo_en(&v, &cierra) {
        Some(f) => f,
        None => return None,
    };
    proof {
        crate::texto::lema_buscar_atras_rango(v@, cierra@, v@.len() - cierra@.len());
        assert(f + 1 <= v@.len());
        assert(f + 1 <= v.len());
    }
    if f >= s && f > i {
        Some(subcadena(&v, i, f + 1))
    } else {
        None
    }
}

/// `s` sin todas las repeticiones iniciales de `p` (`trim_start_matches`).
pub open spec fn sin_prefijos(s: Seq<char>, p: Seq<char>) -> Seq<char>
    decreases s.len(),
{
    if p.len() > 0 && empieza_con(s, p) {
        sin_prefijos(s.skip(p.len() as int), p)
    } else {
        s
    }
}

/// Quita todas las repeticiones iniciales de `p`.
fn quitar_prefijos(s: &str, p: &str) -> (r: String)
    requires
        p@.len() > 0,
    ensures
        r@ == sin_prefijos(s@, p@),
{
    let v = caracteres(s);
    let q = caracteres(p);
    let mut i: usize = 0;
    proof {
        assert(v@.skip(0) =~= v@);
    }
    while q.len() <= v.len() - i && crate::texto::coincide(&v, &q, i)
        invariant
            i <= v.len(),
            q@.len() > 0,
            sin_prefijos(v@, q@) == sin_prefijos(v@.skip(i as int), q@),
        decreases v.len() - i,
    {
        proof {
            assert(v@.skip(i as int).subrange(0, q@.len() as int) =~= v@.subrange(
                i as int,
                i + q@.len(),
            ));
            assert(v@.skip(i as int).skip(q@.len() as int) =~= v@.skip(i + q@.len()));
        }
        i = i + q.len();
    }
    proof {
        if i + q@.len() <= v@.len() {
            assert(v@.skip(i as int).subrange(0, q@.len() as int) =~= v@.subrange(
                i as int,
                i + q@.len(),
            ));
        }
    }
    let r = subcadena(&v, i, v.len());
    proof {
        assert(r@ =~= v@.skip(i as int));
    }
    r
}

/// Texto final de una respuesta redactada: recortado, sin los prefijos
/// `RESPUESTA:` y recortado de nuevo.
pub open spec fn respuesta_final(t: Seq<char>) -> Seq<char> {
    recortar(sin_prefijos(recortar(t), "RESPUESTA:"@))
}

/// Limpia la respuesta redactada por el modelo.
pub fn limpiar_respuesta(texto: &str) -> (r: String)
    ensures
        r@ == respuesta_final(texto@),
{
    proof {
        reveal_strlit("RESPUESTA:");
    }
    let t = recortado(texto);
    let s = quitar_prefijos(t.as_str(), "RESPUESTA:");
    recortado(s.as_str())
}

/// Lo que el modelo respondió.
#[derive(Debug)]
pub enum Interpretacion {
    /// Propone crear un registro: el JSON tras `ACCION:`.
    Accion(String),
    /// Pide consultar una herramienta: el JSON tras `HERRAMIENTA:`.
    Herramienta(String),
    /// Responde en texto.
    Respuesta(String),
}

/// Interpretación de la respuesta del modelo: una acción si hay JSON tras
/// `ACCION:`, si no una herramienta si hay JSON tras `HERRAMIENTA:`, y si no
/// el texto sin el prefijo `RESPUESTA:` (o un saludo si queda vacío).
pub open spec fn interpretacion_de(t: Seq<char>) -> (int, Seq<char>) {
    let x = recortar(t);
    match json_tras_marcador(x, "ACCION:"@) {
        Some(j) => (0, j),
        None => match json_tras_marcador(x, "HERRAMIENTA:"@) {
            Some(j) => (1, j),
            None => {
                let l = recortar(
                    if empieza_con(x, "RESPUESTA:"@) {
                        x.skip(10)
                    } else {
                        x
                    },
                );
                (2, if l.len() == 0 {
                    "¿En qué puedo ayudarte?"@
                } else {
                    l
                })
            },
        },
    }
}

/// Vista de una interpretación.
pub open spec fn vista_interpretacion(i: Interpretacion) -> (int, Seq<char>) {
    match i {
        Interpretacion::Accion(j) => (0, j@),
        Interpretacion::Herramienta(j) => (1, j@),
        Interpretacion::Respuesta(t) => (2, t@),
    }
}

/// Interpreta la respuesta del modelo.
pub fn interpretar(texto: &str) -> (r: Interpretacion)
    ensures
        vista_interpretacion(r) == interpretacion_de(texto@),
{
    proof {
        reveal_strlit("ACCION:");
        reveal_strlit("HERRAMIENTA:");
        reveal_strlit("RESPUESTA:");
    }
    let x = recortado(texto);
    match buscar_marcador_json(x.as_str(), "ACCION:") {
        Some(j) => return Interpretacion::Accion(j),
        None => {},
    }
    match buscar_marcador_json(x.as_str(), "HERRAMIENTA:") {
        Some(j) => return Interpretacion::Herramienta(j),
        None => {},
    }
    let v = caracteres(x.as_str());
    let p = caracteres("RESPUESTA:");
    let resto = if empieza(&v, &p) {
        proof {
            assert(v@.subrange(10, v@.len() as int) =~= v@.skip(10));
        }
        subcadena(&v, 10, v.len())
    } else {
        a_string(x.as_str())
    };
    let l = recortado(resto.as_str());
    if caracteres(l.as_str()).len() == 0 {
        Interpretacion::Respuesta(a_string("¿En qué puedo ayudarte?"))
    } else {
        Interpretacion::Respuesta(l)
    }
}

/// La entidad propuesta está entre las acciones permitidas.
pub fn accion_permitida(entidad: &str, acciones: &Vec<AccionDisponible>) -> (r: bool)
    ensures
        r == exists|i: int| 0 <= i < acciones@.len() && entidad_spec(#[trigger] acciones@[i]) == entidad@,
{
    let mut i: usize = 0;
    while i < acciones.len()
        invariant
            i <= acciones@.len(),
            forall|k: int| 0 <= k < i ==> entidad_spec(#[trigger] acciones@[k]) != entidad@,
        decreases acciones.len() - i,
    {
        if mismo_texto(acciones[i].entidad().as_str(), entidad) {
            return true;
        }
        i = i + 1;
    }
    false
}

/// La herramienta pedida está entre las permitidas.
pub fn herramienta_permitida(nombre: &str, herramientas: &Vec<HerramientaDisponible>) -> (r: bool)
    ensures
        r == exists|i: int|
            0 <= i < herramientas@.len() && nombre_herramienta(#[trigger] herramientas@[i]) == nombre@,
{
    let mut i: usize = 0;
    while i < herramientas.len()
        invariant
            i <= herramientas@.len(),
            forall|k: int| 0 <= k < i ==> nombre_herramienta(#[trigger] herramientas@[k]) != nombre@,
        decreases herramientas.len() - i,
    {
        if mismo_texto(herramientas[i].nombre().as_str(), nombre) {
            return true;
        }
        i = i + 1;
    }
    false
}

/// Límite de filas de la consulta de más vendidos: 5 por omisión, entre 1 y
/// 20.
pub fn limite_consulta(limite: Option<i64>) -> (r: i64)
    ensures
        r == ({
            let l = match limite {
                Some(x) => x,
                None => 5,
            };
            if l < 1 {
                1
            } else if l > 20 {
                20
            } else {
                l
            }
        }),
{
    let l = match limite {
        Some(x) => x,
        None => 5,
    };
    if l < 1 {
        1
    } else if l > 20 {
        20
    } else {
        l
    }
}

// ---------------------------------------------------------------------------
// Resumen diario
// ---------------------------------------------------------------------------

/// Producto con el stock en o bajo su mínimo.
#[derive(Clone, Debug)]
pub struct ProductoBajoStock {
    pub nombre: String,
    pub stock_actual: Monto,
    pub stock_minimo: Monto,
}

/// Los montos de los productos son válidos.
pub open spec fn productos_validos(ps: Seq<ProductoBajoStock>) -> bool {
    forall|i: int| 0 <= i < ps.len() ==> (#[trigger] ps[i]).stock_actual.valido() && ps[i].stock_minimo.valido()
}

/// `nombre (actual de mínimo)`.
pub open spec fn item_hecho(p: ProductoBajoStock) -> Seq<char> {
    p.nombre@ + " ("@ + texto_decimal(p.stock_actual) + " de "@ + texto_decimal(p.stock_minimo) + ")"@
}

/// Los hechos del día en una línea, para que el modelo los redacte.
pub open spec fn hechos_texto(ps: Seq<ProductoBajoStock>, ventas: Monto, caja_abierta: bool) -> Seq<char> {
    let stock = if ps.len() == 0 {
        "Ningún producto está bajo su mínimo de stock."@
    } else {
        "Productos con stock bajo: "@ + unir(ps.map_values(|p: ProductoBajoStock| item_hecho(p)), ", "@)
            + "."@
    };
    "Ventas de hoy: RD$"@ + texto_decimal(ventas) + ". Caja: "@ + (if caja_abierta {
        "abierta"@
    } else {
        "cerrada"@
    }) + ". "@ + stock
}

/// Mensaje de respaldo cuando el modelo no responde.
pub open spec fn plantilla_texto(ps: Seq<ProductoBajoStock>, ventas: Monto, caja_abierta: bool) -> Seq<char> {
    let partes = seq!["Hoy llevas RD$"@ + texto_decimal(ventas) + " en ventas."@];
    let partes = if !caja_abierta {
        partes.push("La caja está cerrada."@)
    } else {
        partes
    };
    let partes = if ps.len() > 0 {
        partes.push(
            "Se te está acabando: "@ + unir(ps.map_values(|p: ProductoBajoStock| p.nombre@), ", "@)
                + "."@,
        )
    } else {
        partes
    };
    unir(partes, " "@)
}

/// Textos `nombre (actual de mínimo)` de cada producto.
fn items_hechos(ps: &Vec<ProductoBajoStock>) -> (r: Vec<String>)
    requires
        productos_validos(ps@),
    ensures
        vistas(r@) == ps@.map_values(|p: ProductoBajoStock| item_hecho(p)),
{
    let mut r: Vec<String> = Vec::new();
    let mut i: usize = 0;
    while i < ps.len()
        invariant
            i <= ps.len(),
            productos_validos(ps@),
            vistas(r@) == ps@.take(i as int).map_values(|p: ProductoBajoStock| item_hecho(p)),
        decreases ps.len() - i,
    {
        let p = &ps[i];
        let mut s = a_string(p.nombre.as_str());
        s.append(" (");
        s.append(texto(p.stock_actual).as_str());
        s.append(" de ");
        s.append(texto(p.stock_minimo).as_str());
        s.append(")");
        proof {
            reveal_strlit(" (");
            reveal_strlit(" de ");
            reveal_strlit(")");
            assert(s@ =~= item_hecho(ps@[i as int]));
        }
        let ghost antes = r@;
        r.push(s);
        proof {
            assert(vistas(r@) =~= vistas(antes).push(s@));
            assert(ps@.take(i + 1).map_values(|p: ProductoBajoStock| item_hecho(p)) =~= ps@.take(
                i as int,
            ).map_values(|p: ProductoBajoStock| item_hecho(p)).push(item_hecho(ps@[i as int])));
        }
        i = i + 1;
    }
    proof {
        assert(ps@.take(ps@.len() as int) =~= ps@);
    }
    r
}

/// Nombres de los productos.
fn nombres_productos(ps: &Vec<ProductoBajoStock>) -> (r: Vec<String>)
    ensures
        vistas(r@) == ps@.map_values(|p: ProductoBajoStock| p.nombre@),
{
    let mut r: Vec<String> = Vec::new();
    let mut i: usize = 0;
    while i < ps.len()
        invariant
            i <= ps.len(),
            vistas(r@) == ps@.take(i as int).map_values(|p: ProductoBajoStock| p.nombre@),
        decreases ps.len() - i,
    {
        let s = a_string(ps[i].nombre.as_str());
        let ghost antes = r@;
        r.push(s);
        proof {
            assert(vistas(r@) =~= vistas(antes).push(s@));
            assert(ps@.take(i + 1).map_values(|p: ProductoBajoStock| p.nombre@) =~= ps@.take(
                i as int,
            ).map_values(|p: ProductoBajoStock| p.nombre@).push(ps@[i as int].nombre@));
        }
        i = i + 1;
    }
    proof {
        assert(ps@.take(ps@.len() as int) =~= ps@);
    }
    r
}

/// Texto con los hechos del día que se le pasa al modelo para redactar.
pub fn formatear_hechos(productos: &Vec<ProductoBajoStock>, ventas_hoy: Monto, caja_abierta: bool) -> (r: String)
    requires
        productos_validos(productos@),
        ventas_hoy.valido(),
    ensures
        r@ == hechos_texto(productos@, ventas_hoy, caja_abierta),
{
    proof {
        reveal_strlit("Ningún producto está bajo su mínimo de stock.");
        reveal_strlit("Productos con stock bajo: ");
        reveal_strlit(", ");
        reveal_strlit(".");
        reveal_strlit("Ventas de hoy: RD$");
        reveal_strlit(". Caja: ");
        reveal_strlit("abierta");
        reveal_strlit("cerrada");
        reveal_strlit(". ");
    }
    let stock = if productos.len() == 0 {
        a_string("Ningún producto está bajo su mínimo de stock.")
    } else {
        let items = items_hechos(productos);
        let mut s = a_string("Productos con stock bajo: ");
        s.append(unir_campos(&items, ", ").as_str());
        s.append(".");
        s
    };
    let mut r = a_string("Ventas de hoy: RD$");
    r.append(texto(ventas_hoy).as_str());
    r.append(". Caja: ");
    if caja_abierta {
        r.append("abierta");
    } else {
        r.append("cerrada");
    }
    r.append(". ");
    r.append(stock.as_str());
    r
}

/// Mensaje de respaldo del resumen diario: lo vendido hoy, si la caja está
/// cerrada y qué productos se están acabando.
pub fn mensaje_plantilla(productos: &Vec<ProductoBajoStock>, ventas_hoy: Monto, caja_abierta: bool) -> (r: String)
    requires
        ventas_hoy.valido(),
    ensures
        r@ == plantilla_texto(productos@, ventas_hoy, caja_abierta),
{
    proof {
        reveal_strlit("Hoy llevas RD$");
        reveal_strlit(" en ventas.");
        reveal_strlit("La caja está cerrada.");
        reveal_strlit("Se te está acabando: ");
        reveal_strlit(", ");
        reveal_strlit(".");
        reveal_strlit(" ");
    }
    let mut primera = a_string("Hoy llevas RD$");
    primera.append(texto(ventas_hoy).as_str());
    primera.append(" en ventas.");
    let mut partes: Vec<String> = Vec::new();
    partes.push(primera);
    let ghost p0 = vistas(partes@);
    if !caja_abierta {
        partes.push(a_string("La caja está cerrada."));
    }
    if productos.len() > 0 {
        let nombres = nombres_productos(productos);
        let mut s = a_string("Se te está acabando: ");
        s.append(unir_campos(&nombres, ", ").as_str());
        s.append(".");
        partes.push(s);
    }
    proof {
        let e = plantilla_texto(productos@, ventas_hoy, caja_abierta);
        let a = seq![primera@];
        assert(p0 =~= a);
        let b = if !caja_abierta {
            a.push("La caja está cerrada."@)
        } else {
            a
        };
        let c = if productos@.len() > 0 {
            b.push(
                "Se te está acabando: "@ + unir(
                    productos@.map_values(|p: ProductoBajoStock| p.nombre@),
                    ", "@,
                ) + "."@,
            )
        } else {
            b
        };
        assert(vistas(partes@) =~= c);
    }
    unir_campos(&partes, " ")
}

// ---------------------------------------------------------------------------
// Periodos de las consultas
// ---------------------------------------------------------------------------

/// Año bisiesto del calendario gregoriano.
pub open spec fn bisiesto(anio: int) -> bool {
    let a = if anio < 0 {
        -anio
    } else {
        anio
    };
    (a % 4 == 0 && a % 100 != 0) || a % 400 == 0
}

/// Días del mes.
pub open spec fn dias_del_mes(anio: int, mes: int) -> int {
    if mes == 2 {
        if bisiesto(anio) {
            29
        } else {
            28
        }
    } else if mes == 4 || mes == 6 || mes == 9 || mes == 11 {
        30
    } else {
        31
    }
}

/// Una fecha que existe en el calendario.
pub open spec fn fecha_valida(f: Fecha) -> bool {
    1 <= f.mes <= 12 && 1 <= f.dia <= dias_del_mes(f.anio as int, f.mes as int)
}

/// El día anterior.
pub open spec fn dia_anterior(f: Fecha) -> Fecha {
    if f.dia > 1 {
        Fecha { anio: f.anio, mes: f.mes, dia: (f.dia - 1) as u32 }
    } else if f.mes > 1 {
        Fecha {
            anio: f.anio,
            mes: (f.mes - 1) as u32,
            dia: dias_del_mes(f.anio as int, f.mes - 1) as u32,
        }
    } else {
        Fecha { anio: (f.anio - 1) as i32, mes: 12, dia: 31 }
    }
}

/// `n` días antes.
pub open spec fn dias_antes(f: Fecha, n: nat) -> Fecha
    decreases n,
{
    if n == 0 {
        f
    } else {
        dia_anterior(dias_antes(f, (n - 1) as nat))
    }
}

/// Primer día del mes de la fecha.
pub open spec fn primero_del_mes(f: Fecha) -> Fecha {
    Fecha { anio: f.anio, mes: f.mes, dia: 1 }
}

/// Rango de un periodo con nombre a partir de hoy: desde el inicio del día
/// `desde` hasta el inicio del día `hasta`, o hasta ahora si es `None`.
/// Cualquier nombre no reconocido es "hoy".
pub open spec fn periodo(nombre: Seq<char>, hoy: Fecha) -> (Fecha, Option<Fecha>) {
    if nombre == "ayer"@ {
        (dia_anterior(hoy), Some(hoy))
    } else if nombre == "semana"@ {
        (dias_antes(hoy, 7), None)
    } else if nombre == "mes"@ {
        (primero_del_mes(hoy), None)
    } else if nombre == "mes_pasado"@ {
        (primero_del_mes(dia_anterior(primero_del_mes(hoy))), Some(primero_del_mes(hoy)))
    } else {
        (hoy, None)
    }
}

/// El año es bisiesto.
pub fn es_bisiesto(anio: i32) -> (r: bool)
    ensures
        r == bisiesto(anio as int),
{
    let a: u64 = if anio < 0 {
        (-(anio as i64)) as u64
    } else {
        anio as u64
    };
    (a % 4 == 0 && a % 100 != 0) || a % 400 == 0
}

/// Días del mes.
pub fn dias_mes(anio: i32, mes: u32) -> (r: u32)
    ensures
        r == dias_del_mes(anio as int, mes as int),
{
    if mes == 2 {
        if es_bisiesto(anio) {
            29
        } else {
            28
        }
    } else if mes == 4 || mes == 6 || mes == 9 || mes == 11 {
        30
    } else {
        31
    }
}

/// El día anterior.
pub fn anterior(f: Fecha) -> (r: Fecha)
    requires
        f.anio > i32::MIN,
        f.mes >= 1,
    ensures
        r == dia_anterior(f),
{
    if f.dia > 1 {
        Fecha { anio: f.anio, mes: f.mes, dia: f.dia - 1 }
    } else if f.mes > 1 {
        Fecha { anio: f.anio, mes: f.mes - 1, dia: dias_mes(f.anio, f.mes - 1) }
    } else {
        Fecha { anio: f.anio - 1, mes: 12, dia: 31 }
    }
}

/// Rango de un periodo con nombre (`hoy`, `ayer`, `semana`, `mes`,
/// `mes_pasado`); el fin `None` es el momento actual.
pub fn resolver_periodo(nombre: &str, hoy: Fecha) -> (r: (Fecha, Option<Fecha>))
    requires
        hoy.anio > -262143,
        fecha_valida(hoy),
    ensures
        r == periodo(nombre@, hoy),
{
    if mismo_texto(nombre, "ayer") {
        (anterior(hoy), Some(hoy))
    } else if mismo_texto(nombre, "semana") {
        let mut f = hoy;
        let mut i: u32 = 0;
        while i < 7
            invariant
                i <= 7,
                f == dias_antes(hoy, i as nat),
                f.anio >= hoy.anio - i,
                f.mes >= 1,
                hoy.anio > -262143,
            decreases 7 - i,
        {
            f = anterior(f);
            i = i + 1;
        }
        (f, None)
    } else if mismo_texto(nombre, "mes") {
        (Fecha { anio: hoy.anio, mes: hoy.mes, dia: 1 }, None)
    } else if mismo_texto(nombre, "mes_pasado") {
        let primero = Fecha { anio: hoy.anio, mes: hoy.mes, dia: 1 };
        let u = anterior(primero);
        (Fecha { anio: u.anio, mes: u.mes, dia: 1 }, Some(primero))
    } else {
        (hoy, None)
    }
}

// ---------------------------------------------------------------------------
// Respuestas de las herramientas de consulta
// ---------------------------------------------------------------------------

/// Un monto opcional, cero si no hay (`unwrap_or_default`).
pub open spec fn o_cero(m: Option<Monto>) -> Monto {
    match m {
        Some(x) => x,
        None => Monto { mantisa: 0, escala: 0 },
    }
}

/// El monto opcional, si lo hay, es válido.
pub open spec fn opcion_valida(m: Option<Monto>) -> bool {
    m matches Some(x) ==> x.valido()
}

fn o_cero_exec(m: Option<Monto>) -> (r: Monto)
    requires
        opcion_valida(m),
    ensures
        r == o_cero(m),
        r.valido(),
{
    match m {
        Some(x) => x,
        None => Monto::cero(),
    }
}

/// Respuesta de ventas de un periodo.
pub open spec fn ventas_periodo_texto(periodo: Seq<char>, total: Option<Monto>, cantidad: i64) -> Seq<char> {
    "Periodo consultado: "@ + periodo + ". Total vendido: RD$"@ + texto_decimal(o_cero(total))
        + ". Cantidad de ventas: "@ + entero_texto(cantidad as int) + "."@
}

/// Responde cuánto se vendió en un periodo.
pub fn texto_ventas_periodo(periodo: &str, total: Option<Monto>, cantidad: i64) -> (r: String)
    requires
        opcion_valida(total),
    ensures
        r@ == ventas_periodo_texto(periodo@, total, cantidad),
{
    proof {
        reveal_strlit("Periodo consultado: ");
        reveal_strlit(". Total vendido: RD$");
        reveal_strlit(". Cantidad de ventas: ");
        reveal_strlit(".");
    }
    let mut r = a_string("Periodo consultado: ");
    r.append(periodo);
    r.append(". Total vendido: RD$");
    r.append(texto(o_cero_exec(total)).as_str());
    r.append(". Cantidad de ventas: ");
    r.append(texto_entero(cantidad).as_str());
    r.append(".");
    r
}

/// Un producto vendido en el periodo: nombre, unidades y monto.
#[derive(Clone, Debug)]
pub struct FilaVendido {
    pub nombre: String,
    pub cantidad: Monto,
    pub monto: Monto,
}

/// `nombre (cantidad unidades, RD$monto)`.
pub open spec fn item_vendido(f: FilaVendido) -> Seq<char> {
    f.nombre@ + " ("@ + texto_decimal(f.cantidad) + " unidades, RD$"@ + texto_decimal(f.monto) + ")"@
}

/// Respuesta de los productos más vendidos.
pub open spec fn mas_vendidos_texto(periodo: Seq<char>, filas: Seq<FilaVendido>) -> Seq<char> {
    if filas.len() == 0 {
        "No hubo ventas registradas en el periodo '"@ + periodo + "'."@
    } else {
        "Productos más vendidos ("@ + periodo + "): "@ + unir(
            filas.map_values(|f: FilaVendido| item_vendido(f)),
            ", "@,
        ) + "."@
    }
}

/// Responde cuáles fueron los productos más vendidos.
pub fn texto_mas_vendidos(periodo: &str, filas: &Vec<FilaVendido>) -> (r: String)
    requires
        forall|i: int| 0 <= i < filas@.len() ==> (#[trigger] filas@[i]).cantidad.valido() && filas@[i].monto.valido(),
    ensures
        r@ == mas_vendidos_texto(periodo@, filas@),
{
    proof {
        reveal_strlit("No hubo ventas registradas en el periodo '");
        reveal_strlit("'.");
        reveal_strlit("Productos más vendidos (");
        reveal_strlit("): ");
        reveal_strlit(", ");
        reveal_strlit(".");
        reveal_strlit(" (");
        reveal_strlit(" unidades, RD$");
        reveal_strlit(")");
    }
    if filas.len() == 0 {
        let mut r = a_string("No hubo ventas registradas en el periodo '");
        r.append(periodo);
        r.append("'.");
        return r;
    }
    let mut items: Vec<String> = Vec::new();
    let mut i: usize = 0;
    while i < filas.len()
        invariant
            i <= filas.len(),
            forall|k: int| 0 <= k < filas@.len() ==> (#[trigger] filas@[k]).cantidad.valido() && filas@[k].monto.valido(),
            vistas(items@) == filas@.take(i as int).map_values(|f: FilaVendido| item_vendido(f)),
        decreases filas.len() - i,
    {
        let f = &filas[i];
        let mut t = a_string(f.nombre.as_str());
        t.append(" (");
        t.append(texto(f.cantidad).as_str());
        t.append(" unidades, RD$");
        t.append(texto(f.monto).as_str());
        t.append(")");
        let ghost antes = items@;
        items.push(t);
        proof {
            assert(t@ =~= item_vendido(filas@[i as int]));
            assert(vistas(items@) =~= vistas(antes).push(t@));
            assert(filas@.take(i + 1).map_values(|f: FilaVendido| item_vendido(f)) =~= filas@.take(
                i as int,
            ).map_values(|f: FilaVendido| item_vendido(f)).push(item_vendido(filas@[i as int])));
        }
        i = i + 1;
    }
    proof {
        assert(filas@.take(i as int) =~= filas@);
    }
    let mut r = a_string("Productos más vendidos (");
    r.append(periodo);
    r.append("): ");
    r.append(unir_campos(&items, ", ").as_str());
    r.append(".");
    r
}

/// Datos de un producto encontrado.
#[derive(Clone, Debug)]
pub struct FilaProducto {
    pub nombre: String,
    pub sku: String,
    pub stock_actual: Monto,
    pub stock_minimo: Monto,
    pub precio: Monto,
}

/// Respuesta sobre un producto buscado por nombre o SKU.
pub open spec fn producto_info_texto(buscado: Seq<char>, fila: Option<FilaProducto>) -> Seq<char> {
    if recortar(buscado).len() == 0 {
        "No se especificó qué producto buscar."@
    } else {
        match fila {
            Some(f) => f.nombre@ + " (SKU "@ + f.sku@ + "): stock actual "@ + texto_decimal(f.stock_actual)
                + ", stock mínimo "@ + texto_decimal(f.stock_minimo) + ", precio de venta RD$"@
                + texto_decimal(f.precio) + "."@,
            None => "No se encontró ningún producto activo que coincida con '"@ + buscado + "'."@,
        }
    }
}

/// La búsqueda está vacía (sólo espacios): no hace falta consultar.
pub fn busqueda_vacia(buscado: &str) -> (r: bool)
    ensures
        r == (recortar(buscado@).len() == 0),
{
    caracteres(recortado(buscado).as_str()).len() == 0
}

/// Responde sobre un producto buscado.
pub fn texto_producto_info(buscado: &str, fila: &Option<FilaProducto>) -> (r: String)
    requires
        fila matches Some(f) ==> f.stock_actual.valido() && f.stock_minimo.valido() && f.precio.valido(),
    ensures
        r@ == producto_info_texto(buscado@, *fila),
{
    proof {
        reveal_strlit("No se especificó qué producto buscar.");
        reveal_strlit(" (SKU ");
        reveal_strlit("): stock actual ");
        reveal_strlit(", stock mínimo ");
        reveal_strlit(", precio de venta RD$");
        reveal_strlit(".");
        reveal_strlit("No se encontró ningún producto activo que coincida con '");
        reveal_strlit("'.");
    }
    if busqueda_vacia(buscado) {
        return a_string("No se especificó qué producto buscar.");
    }
    match fila {
        Some(f) => {
            let mut r = a_string(f.nombre.as_str());
            r.append(" (SKU ");
            r.append(f.sku.as_str());
            r.append("): stock actual ");
            r.append(texto(f.stock_actual).as_str());
            r.append(", stock mínimo ");
            r.append(texto(f.stock_minimo).as_str());
            r.append(", precio de venta RD$");
            r.append(texto(f.precio).as_str());
            r.append(".");
            r
        },
        None => {
            let mut r = a_string("No se encontró ningún producto activo que coincida con '");
            r.append(buscado);
            r.append("'.");
            r
        },
    }
}

/// Gasto total de una categoría.
#[derive(Clone, Debug)]
pub struct FilaCategoria {
    pub categoria: String,
    pub monto: Monto,
}

/// `categoria: RD$monto`.
pub open spec fn item_categoria(f: FilaCategoria) -> Seq<char> {
    f.categoria@ + ": RD$"@ + texto_decimal(f.monto)
}

/// Respuesta de gastos de un periodo con su desglose por categoría.
pub open spec fn gastos_periodo_texto(periodo: Seq<char>, total: Option<Monto>, filas: Seq<FilaCategoria>) -> Seq<char> {
    let desglose = if filas.len() == 0 {
        "sin gastos registrados en el periodo"@
    } else {
        unir(filas.map_values(|f: FilaCategoria| item_categoria(f)), ", "@)
    };
    "Gastos ("@ + periodo + "): total RD$"@ + texto_decimal(o_cero(total)) + ". Por categoría: "@ + desglose
        + "."@
}

/// Responde cuánto se gastó en un periodo.
pub fn texto_gastos_periodo(periodo: &str, total: Option<Monto>, filas: &Vec<FilaCategoria>) -> (r: String)
    requires
        opcion_valida(total),
        forall|i: int| 0 <= i < filas@.len() ==> (#[trigger] filas@[i]).monto.valido(),
    ensures
        r@ == gastos_periodo_texto(periodo@, total, filas@),
{
    proof {
        reveal_strlit("sin gastos registrados en el periodo");
        reveal_strlit(", ");
        reveal_strlit(": RD$");
        reveal_strlit("Gastos (");
        reveal_strlit("): total RD$");
        reveal_strlit(". Por categoría: ");
        reveal_strlit(".");
    }
    let desglose = if filas.len() == 0 {
        a_string("sin gastos registrados en el periodo")
    } else {
        let mut items: Vec<String> = Vec::new();
        let mut i: usize = 0;
        while i < filas.len()
            invariant
                i <= filas.len(),
                forall|k: int| 0 <= k < filas@.len() ==> (#[trigger] filas@[k]).monto.valido(),
                vistas(items@) == filas@.take(i as int).map_values(|f: FilaCategoria| item_categoria(f)),
            decreases filas.len() - i,
        {
            let mut t = a_string(filas[i].categoria.as_str());
            t.append(": RD$");
            t.append(texto(filas[i].monto).as_str());
            let ghost antes = items@;
            items.push(t);
            proof {
                assert(t@ =~= item_categoria(filas@[i as int]));
                assert(vistas(items@) =~= vistas(antes).push(t@));
                assert(filas@.take(i + 1).map_values(|f: FilaCategoria| item_categoria(f))
                    =~= filas@.take(i as int).map_values(|f: FilaCategoria| item_categoria(f)).push(
                    item_categoria(filas@[i as int]),
                ));
            }
            i = i + 1;
        }
        proof {
            assert(filas@.take(i as int) =~= filas@);
        }
        unir_campos(&items, ", ")
    };
    let mut r = a_string("Gastos (");
    r.append(periodo);
    r.append("): total RD$");
    r.append(texto(o_cero_exec(total)).as_str());
    r.append(". Por categoría: ");
    r.append(desglose.as_str());
    r.append(".");
    r
}

/// Datos de un cliente encontrado.
#[derive(Clone, Debug)]
pub struct FilaCliente {
    pub nombre: String,
    pub saldo: Monto,
    pub limite: Monto,
    pub telefono: Option<String>,
}

/// Respuesta sobre un cliente buscado por nombre.
pub open spec fn cliente_info_texto(buscado: Seq<char>, fila: Option<FilaCliente>) -> Seq<char> {
    if recortar(buscado).len() == 0 {
        "No se especificó qué cliente buscar."@
    } else {
        match fila {
            Some(f) => f.nombre@ + ": saldo fiado pendiente RD$"@ + texto_decimal(f.saldo)
                + ", límite de crédito RD$"@ + texto_decimal(f.limite) + match f.telefono {
                Some(t) => ", teléfono "@ + t@,
                None => Seq::empty(),
            } + "."@,
            None => "No se encontró ningún cliente activo que coincida con '"@ + buscado + "'."@,
        }
    }
}

/// Responde sobre un cliente buscado.
pub fn texto_cliente_info(buscado: &str, fila: &Option<FilaCliente>) -> (r: String)
    requires
        fila matches Some(f) ==> f.saldo.valido() && f.limite.valido(),
    ensures
        r@ == cliente_info_texto(buscado@, *fila),
{
    proof {
        reveal_strlit("No se especificó qué cliente buscar.");
        reveal_strlit(": saldo fiado pendiente RD$");
        reveal_strlit(", límite de crédito RD$");
        reveal_strlit(", teléfono ");
        reveal_strlit(".");
        reveal_strlit("No se encontró ningún cliente activo que coincida con '");
        reveal_strlit("'.");
    }
    if busqueda_vacia(buscado) {
        return a_string("No se especificó qué cliente buscar.");
    }
    match fila {
        Some(f) => {
            let mut r = a_string(f.nombre.as_str());
            r.append(": saldo fiado pendiente RD$");
            r.append(texto(f.saldo).as_str());
            r.append(", límite de crédito RD$");
            r.append(texto(f.limite).as_str());
            match &f.telefono {
                Some(t) => {
                    r.append(", teléfono ");
                    r.append(t.as_str());
                },
                None => {},
            }
            r.append(".");
            proof {
                assert(r@ =~= cliente_info_texto(buscado@, *fila));
            }
            r
        },
        None => {
            let mut r = a_string("No se encontró ningún cliente activo que coincida con '");
            r.append(buscado);
            r.append("'.");
            r
        },
    }
}

/// Sesión de caja abierta: monto inicial, fecha de apertura ya formateada
/// (`dd/mm/aaaa HH:MM`) y los ingresos y egresos desde entonces.
#[derive(Clone, Debug)]
pub struct SesionCaja {
    pub monto_inicial: Monto,
    pub abierta_desde: String,
    pub ingresos: Option<Monto>,
    pub egresos: Option<Monto>,
}

/// Saldo estimado: inicial más ingresos menos egresos.
pub open spec fn saldo_sesion(s: SesionCaja) -> Option<Monto> {
    match suma_decimal(s.monto_inicial, o_cero(s.ingresos)) {
        Some(x) => resta_decimal(x, o_cero(s.egresos)),
        None => None,
    }
}

/// Respuesta del estado de la caja; `None` si el saldo desborda.
pub open spec fn caja_estado_texto(sesion: Option<SesionCaja>) -> Option<Seq<char>> {
    match sesion {
        None => Some("La caja está cerrada actualmente."@),
        Some(s) => match saldo_sesion(s) {
            Some(saldo) => Some(
                "La caja está abierta desde "@ + s.abierta_desde@ + ". Monto inicial RD$"@ + texto_decimal(
                    s.monto_inicial,
                ) + ", saldo actual estimado RD$"@ + texto_decimal(saldo) + "."@,
            ),
            None => None,
        },
    }
}

/// Responde el estado de la caja.
pub fn texto_caja_estado(sesion: &Option<SesionCaja>) -> (r: Option<String>)
    requires
        sesion matches Some(s) ==> s.monto_inicial.valido() && opcion_valida(s.ingresos) && opcion_valida(
            s.egresos,
        ),
    ensures
        match r {
            Some(t) => caja_estado_texto(*sesion) == Some(t@),
            None => caja_estado_texto(*sesion) is None,
        },
{
    proof {
        reveal_strlit("La caja está cerrada actualmente.");
        reveal_strlit("La caja está abierta desde ");
        reveal_strlit(". Monto inicial RD$");
        reveal_strlit(", saldo actual estimado RD$");
        reveal_strlit(".");
    }
    match sesion {
        None => Some(a_string("La caja está cerrada actualmente.")),
        Some(s) => {
            let x = sumar(s.monto_inicial, o_cero_exec(s.ingresos))?;
            let saldo = restar(x, o_cero_exec(s.egresos))?;
            let mut r = a_string("La caja está abierta desde ");
            r.append(s.abierta_desde.as_str());
            r.append(". Monto inicial RD$");
            r.append(texto(s.monto_inicial).as_str());
            r.append(", saldo actual estimado RD$");
            r.append(texto(saldo).as_str());
            r.append(".");
            Some(r)
        },
    }
}

/// Respuesta del valor del inventario.
pub open spec fn inventario_valor_texto(valor: Option<Monto>, bajo_minimo: i64) -> Seq<char> {
    "Valor total del inventario: RD$"@ + texto_decimal(o_cero(valor))
        + ". Productos bajo el mínimo de stock: "@ + entero_texto(bajo_minimo as int) + "."@
}

/// Responde el valor del inventario y cuántos productos están bajo el mínimo.
pub fn texto_inventario_valor(valor: Option<Monto>, bajo_minimo: i64) -> (r: String)
    requires
        opcion_valida(valor),
    ensures
        r@ == inventario_valor_texto(valor, bajo_minimo),
{
    proof {
        reveal_strlit("Valor total del inventario: RD$");
        reveal_strlit(". Productos bajo el mínimo de stock: ");
        reveal_strlit(".");
    }
    let mut r = a_string("Valor total del inventario: RD$");
    r.append(texto(o_cero_exec(valor)).as_str());
    r.append(". Productos bajo el mínimo de stock: ");
    r.append(texto_entero(bajo_minimo).as_str());
    r.append(".");
    r
}

// ---------------------------------------------------------------------------
// Conversación: instrucciones al modelo y decisiones sobre su respuesta
// ---------------------------------------------------------------------------

/// Campos que se piden para crear cada registro.
pub open spec fn campos_accion(a: AccionDisponible) -> Seq<Seq<char>> {
    match a {
        AccionDisponible::Producto => seq![
            "sku"@,
            "nombre"@,
            "costo"@,
            "precio_venta"@,
            "stock_actual"@,
            "stock_minimo"@,
            "itbis_tipo (GRAVADO_18|GRAVADO_16|EXENTO)"@,
            "unidad_medida"@,
            "descripcion (opcional)"@,
        ],
        AccionDisponible::Cliente => seq![
            "nombre"@,
            "rnc_cedula (opcional)"@,
            "telefono (opcional)"@,
            "email (opcional)"@,
            "direccion (opcional)"@,
        ],
        AccionDisponible::Proveedor => seq![
            "nombre"@,
            "rnc (opcional)"@,
            "telefono (opcional)"@,
            "email (opcional)"@,
            "direccion (opcional)"@,
            "contacto (opcional)"@,
        ],
        AccionDisponible::Gasto => seq![
            "concepto"@,
            "categoria (ALQUILER|SERVICIOS|TRANSPORTE|OTROS)"@,
            "monto"@,
        ],
    }
}

/// Parámetros que acepta cada herramienta, como se le describen al modelo.
pub open spec fn parametros_herramienta(h: HerramientaDisponible) -> Seq<char> {
    match h {
        HerramientaDisponible::VentasPeriodo => "periodo (uno de: hoy, ayer, semana, mes, mes_pasado)"@,
        HerramientaDisponible::ProductosMasVendidos => "periodo (hoy|ayer|semana|mes|mes_pasado), limite (número, opcional, por defecto 5)"@,
        HerramientaDisponible::ProductoInfo => "nombre_o_sku (texto a buscar)"@,
        HerramientaDisponible::GastosPeriodo => "periodo (hoy|ayer|semana|mes|mes_pasado)"@,
        HerramientaDisponible::ClienteInfo => "nombre (texto a buscar)"@,
        HerramientaDisponible::CajaEstado => "(ninguno)"@,
        HerramientaDisponible::InventarioValor => "(ninguno)"@,
    }
}

impl AccionDisponible {
    /// Campos del registro.
    pub fn campos(&self) -> (r: Vec<String>)
        ensures
            vistas(r@) == campos_accion(*self),
    {
        let lista: Vec<&str> = match self {
            AccionDisponible::Producto => vec![
                "sku",
                "nombre",
                "costo",
                "precio_venta",
                "stock_actual",
                "stock_minimo",
                "itbis_tipo (GRAVADO_18|GRAVADO_16|EXENTO)",
                "unidad_medida",
                "descripcion (opcional)",
            ],
            AccionDisponible::Cliente => vec![
                "nombre",
                "rnc_cedula (opcional)",
                "telefono (opcional)",
                "email (opcional)",
                "direccion (opcional)",
            ],
            AccionDisponible::Proveedor => vec![
                "nombre",
                "rnc (opcional)",
                "telefono (opcional)",
                "email (opcional)",
                "direccion (opcional)",
                "contacto (opcional)",
            ],
            AccionDisponible::Gasto => vec![
                "concepto",
                "categoria (ALQUILER|SERVICIOS|TRANSPORTE|OTROS)",
                "monto",
            ],
        };
        let mut r: Vec<String> = Vec::new();
        let mut i: usize = 0;
        while i < lista.len()
            invariant
                i <= lista.len(),
                vistas(r@) == lista@.take(i as int).map_values(|x: &str| x@),
            decreases lista.len() - i,
        {
            let ghost antes = r@;
            r.push(a_string(lista[i]));
            proof {
                assert(vistas(r@) =~= vistas(antes).push(lista@[i as int]@));
                assert(lista@.take(i + 1).map_values(|x: &str| x@) =~= lista@.take(i as int).map_values(
                    |x: &str| x@,
                ).push(lista@[i as int]@));
            }
            i = i + 1;
        }
        proof {
            assert(lista@.take(i as int) =~= lista@);
            assert(vistas(r@) =~= campos_accion(*self));
        }
        r
    }
}

impl HerramientaDisponible {
    /// Parámetros de la herramienta.
    pub fn parametros(&self) -> (r: String)
        ensures
            r@ == parametros_herramienta(*self),
    {
        match self {
            HerramientaDisponible::VentasPeriodo => a_string("periodo (uno de: hoy, ayer, semana, mes, mes_pasado)"),
            HerramientaDisponible::ProductosMasVendidos => a_string(
                "periodo (hoy|ayer|semana|mes|mes_pasado), limite (número, opcional, por defecto 5)",
            ),
            HerramientaDisponible::ProductoInfo => a_string("nombre_o_sku (texto a buscar)"),
            HerramientaDisponible::GastosPeriodo => a_string("periodo (hoy|ayer|semana|mes|mes_pasado)"),
            HerramientaDisponible::ClienteInfo => a_string("nombre (texto a buscar)"),
            HerramientaDisponible::CajaEstado => a_string("(ninguno)"),
            HerramientaDisponible::InventarioValor => a_string("(ninguno)"),
        }
    }
}

/// Renglón de una acción: `- entidad: campos {c1, c2, ...}`.
pub open spec fn renglon_accion(a: AccionDisponible) -> Seq<char> {
    "- "@ + entidad_spec(a) + ": campos {"@ + unir(campos_accion(a), ", "@) + "}"@
}

/// Renglón de una herramienta: `- nombre: parámetros ...`.
pub open spec fn renglon_herramienta(h: HerramientaDisponible) -> Seq<char> {
    "- "@ + nombre_herramienta(h) + ": parámetros "@ + parametros_herramienta(h)
}

/// Lista de acciones que se le muestra al modelo.
pub open spec fn lista_acciones_texto(acciones: Seq<AccionDisponible>) -> Seq<char> {
    if acciones.len() == 0 {
        "Ninguna - este usuario no puede crear registros por este chat."@
    } else {
        unir(acciones.map_values(|a: AccionDisponible| renglon_accion(a)), "\n"@)
    }
}

/// Lista de herramientas que se le muestra al modelo.
pub open spec fn lista_herramientas_texto(herramientas: Seq<HerramientaDisponible>) -> Seq<char> {
    if herramientas.len() == 0 {
        "Ninguna - este usuario no puede consultar datos del negocio por este chat."@
    } else {
        unir(herramientas.map_values(|h: HerramientaDisponible| renglon_herramienta(h)), "\n"@)
    }
}

/// Lista de acciones para las instrucciones del modelo.
pub fn lista_acciones(acciones: &Vec<AccionDisponible>) -> (r: String)
    ensures
        r@ == lista_acciones_texto(acciones@),
{
    proof {
        reveal_strlit("Ninguna - este usuario no puede crear registros por este chat.");
        reveal_strlit("- ");
        reveal_strlit(": campos {");
        reveal_strlit(", ");
        reveal_strlit("}");
        reveal_strlit("\n");
    }
    if acciones.len() == 0 {
        return a_string("Ninguna - este usuario no puede crear registros por este chat.");
    }
    let mut renglones: Vec<String> = Vec::new();
    let mut i: usize = 0;
    while i < acciones.len()
        invariant
            i <= acciones.len(),
            vistas(renglones@) == acciones@.take(i as int).map_values(|a: AccionDisponible| renglon_accion(a)),
        decreases acciones.len() - i,
    {
        let a = acciones[i];
        let mut t = a_string("- ");
        t.append(a.entidad().as_str());
        t.append(": campos {");
        t.append(unir_campos(&a.campos(), ", ").as_str());
        t.append("}");
        let ghost antes = renglones@;
        renglones.push(t);
        proof {
            assert(t@ =~= renglon_accion(acciones@[i as int]));
            assert(vistas(renglones@) =~= vistas(antes).push(t@));
            assert(acciones@.take(i + 1).map_values(|a: AccionDisponible| renglon_accion(a))
                =~= acciones@.take(i as int).map_values(|a: AccionDisponible| renglon_accion(a)).push(
                renglon_accion(acciones@[i as int]),
            ));
        }
        i = i + 1;
    }
    proof {
        assert(acciones@.take(i as int) =~= acciones@);
    }
    unir_campos(&renglones, "\n")
}

/// Lista de herramientas para las instrucciones del modelo.
pub fn lista_herramientas(herramientas: &Vec<HerramientaDisponible>) -> (r: String)
    ensures
        r@ == lista_herramientas_texto(herramientas@),
{
    proof {
        reveal_strlit("Ninguna - este usuario no puede consultar datos del negocio por este chat.");
        reveal_strlit("- ");
        reveal_strlit(": parámetros ");
        reveal_strlit("\n");
    }
    if herramientas.len() == 0 {
        return a_string("Ninguna - este usuario no puede consultar datos del negocio por este chat.");
    }
    let mut renglones: Vec<String> = Vec::new();
    let mut i: usize = 0;
    while i < herramientas.len()
        invariant
            i <= herramientas.len(),
            vistas(renglones@) == herramientas@.take(i as int).map_values(
                |h: HerramientaDisponible| renglon_herramienta(h),
            ),
        decreases herramientas.len() - i,
    {
        let h = herramientas[i];
        let mut t = a_string("- ");
        t.append(h.nombre().as_str());
        t.append(": parámetros ");
        t.append(h.parametros().as_str());
        let ghost antes = renglones@;
        renglones.push(t);
        proof {
            assert(t@ =~= renglon_herramienta(herramientas@[i as int]));
            assert(vistas(renglones@) =~= vistas(antes).push(t@));
            assert(herramientas@.take(i + 1).map_values(|h: HerramientaDisponible| renglon_herramienta(h))
                =~= herramientas@.take(i as int).map_values(
                |h: HerramientaDisponible| renglon_herramienta(h),
            ).push(renglon_herramienta(herramientas@[i as int])));
        }
        i = i + 1;
    }
    proof {
        assert(herramientas@.take(i as int) =~= herramientas@);
    }
    unir_campos(&renglones, "\n")
}

/// Consulta que pidió el modelo, con sus parámetros ya resueltos.
#[derive(Clone, Debug)]
pub enum Consulta {
    VentasPeriodo(String),
    ProductosMasVendidos(String, i64),
    ProductoInfo(String),
    GastosPeriodo(String),
    ClienteInfo(String),
    CajaEstado,
    InventarioValor,
}

/// Vista de una consulta: número de herramienta, periodo o texto buscado, y
/// límite.
pub open spec fn vista_consulta(c: Consulta) -> (int, Seq<char>, int) {
    match c {
        Consulta::VentasPeriodo(p) => (0, p@, 0),
        Consulta::ProductosMasVendidos(p, l) => (1, p@, l as int),
        Consulta::ProductoInfo(q) => (2, q@, 0),
        Consulta::GastosPeriodo(p) => (3, p@, 0),
        Consulta::ClienteInfo(q) => (4, q@, 0),
        Consulta::CajaEstado => (5, Seq::empty(), 0),
        Consulta::InventarioValor => (6, Seq::empty(), 0),
    }
}

/// Texto opcional con valor por omisión.
pub open spec fn o_texto(o: Option<String>, omision: Seq<char>) -> Seq<char> {
    match o {
        Some(s) => s@,
        None => omision,
    }
}

/// Límite de la consulta de más vendidos.
pub open spec fn limite_spec(limite: Option<i64>) -> int {
    let l = match limite {
        Some(x) => x as int,
        None => 5,
    };
    if l < 1 {
        1
    } else if l > 20 {
        20
    } else {
        l
    }
}

/// Consulta que corresponde al nombre de herramienta y sus parámetros: el
/// periodo es `hoy` si no viene, el límite va de 1 a 20 (5 si no viene) y el
/// texto buscado es vacío si no viene. Un nombre desconocido es un error.
pub open spec fn consulta_spec(
    nombre: Seq<char>,
    periodo: Option<String>,
    limite: Option<i64>,
    nombre_o_sku: Option<String>,
    nombre_cliente: Option<String>,
) -> Result<(int, Seq<char>, int), Seq<char>> {
    let p = o_texto(periodo, "hoy"@);
    if nombre == "ventas_periodo"@ {
        Ok((0, p, 0))
    } else if nombre == "productos_mas_vendidos"@ {
        Ok((1, p, limite_spec(limite)))
    } else if nombre == "producto_info"@ {
        Ok((2, o_texto(nombre_o_sku, ""@), 0))
    } else if nombre == "gastos_periodo"@ {
        Ok((3, p, 0))
    } else if nombre == "cliente_info"@ {
        Ok((4, o_texto(nombre_cliente, ""@), 0))
    } else if nombre == "caja_estado"@ {
        Ok((5, Seq::empty(), 0))
    } else if nombre == "inventario_valor"@ {
        Ok((6, Seq::empty(), 0))
    } else {
        Err("Herramienta desconocida: "@ + nombre)
    }
}

fn texto_o(o: Option<String>, omision: &str) -> (r: String)
    ensures
        r@ == o_texto(o, omision@),
{
    match o {
        Some(s) => s,
        None => a_string(omision),
    }
}

/// Resuelve qué consulta ejecutar según lo que pidió el modelo.
pub fn consulta_pedida(
    nombre: &str,
    periodo: Option<String>,
    limite: Option<i64>,
    nombre_o_sku: Option<String>,
    nombre_cliente: Option<String>,
) -> (r: Result<Consulta, String>)
    ensures
        match r {
            Ok(c) => consulta_spec(nombre@, periodo, limite, nombre_o_sku, nombre_cliente) == Ok::<
                (int, Seq<char>, int),
                Seq<char>,
            >(vista_consulta(c)),
            Err(m) => consulta_spec(nombre@, periodo, limite, nombre_o_sku, nombre_cliente) == Err::<
                (int, Seq<char>, int),
                Seq<char>,
            >(m@),
        },
{
    proof {
        reveal_strlit("Herramienta desconocida: ");
    }
    let p = texto_o(periodo, "hoy");
    if mismo_texto(nombre, "ventas_periodo") {
        Ok(Consulta::VentasPeriodo(p))
    } else if mismo_texto(nombre, "productos_mas_vendidos") {
        Ok(Consulta::ProductosMasVendidos(p, limite_consulta(limite)))
    } else if mismo_texto(nombre, "producto_info") {
        Ok(Consulta::ProductoInfo(texto_o(nombre_o_sku, "")))
    } else if mismo_texto(nombre, "gastos_periodo") {
        Ok(Consulta::GastosPeriodo(p))
    } else if mismo_texto(nombre, "cliente_info") {
        Ok(Consulta::ClienteInfo(texto_o(nombre_cliente, "")))
    } else if mismo_texto(nombre, "caja_estado") {
        Ok(Consulta::CajaEstado)
    } else if mismo_texto(nombre, "inventario_valor") {
        Ok(Consulta::InventarioValor)
    } else {
        let mut m = a_string("Herramienta desconocida: ");
        m.append(nombre);
        Err(m)
    }
}

/// Qué hacer con una acción propuesta por el modelo.
#[derive(Clone, Debug)]
pub enum DecisionAccion {
    /// Proponer al usuario crear el registro de esta entidad.
    Proponer(String),
    /// Responder con este texto.
    Responder(String),
}

/// Decisión sobre una acción: `lectura` es `None` si el JSON no se pudo
/// leer, o la entidad (vacía si falta) y si trae campos. Sólo se propone
/// una entidad permitida al rol que además trae campos.
pub open spec fn decision_accion(lectura: Option<(Seq<char>, bool)>, acciones: Seq<AccionDisponible>) -> (bool, Seq<char>) {
    match lectura {
        None => (false, "No entendí bien esa acción, ¿puedes darme más detalles?"@),
        Some((entidad, tiene_campos)) => if tiene_campos && exists|i: int|
            0 <= i < acciones.len() && entidad_spec(#[trigger] acciones[i]) == entidad {
            (true, entidad)
        } else {
            (false, "No puedo hacer eso desde el chat con tu rol actual."@)
        },
    }
}

/// Decide qué hacer con la acción propuesta.
pub fn decidir_accion(lectura: Option<(String, bool)>, acciones: &Vec<AccionDisponible>) -> (r: DecisionAccion)
    ensures
        decision_accion(
            match lectura {
                Some((e, c)) => Some((e@, c)),
                None => None,
            },
            acciones@,
        ) == match r {
            DecisionAccion::Proponer(e) => (true, e@),
            DecisionAccion::Responder(t) => (false, t@),
        },
{
    match lectura {
        None => DecisionAccion::Responder(a_string("No entendí bien esa acción, ¿puedes darme más detalles?")),
        Some((entidad, tiene_campos)) => {
            if tiene_campos && accion_permitida(entidad.as_str(), acciones) {
                DecisionAccion::Proponer(entidad)
            } else {
                DecisionAccion::Responder(a_string("No puedo hacer eso desde el chat con tu rol actual."))
            }
        },
    }
}

/// Decisión sobre una consulta pedida: `lectura` es `None` si el JSON no se
/// pudo leer, o el nombre de la herramienta (vacío si falta). Se ejecuta
/// sólo una herramienta permitida al rol; si no, el texto de la respuesta.
pub open spec fn decision_herramienta(lectura: Option<Seq<char>>, herramientas: Seq<HerramientaDisponible>) -> Result<
    Seq<char>,
    Seq<char>,
> {
    match lectura {
        None => Err("No entendí bien esa pregunta, ¿puedes reformularla?"@),
        Some(nombre) => if exists|i: int|
            0 <= i < herramientas.len() && nombre_herramienta(#[trigger] herramientas[i]) == nombre {
            Ok(nombre)
        } else {
            Err("No tengo esa información disponible con tu rol actual."@)
        },
    }
}

/// Decide si se ejecuta la herramienta pedida.
pub fn decidir_herramienta(lectura: Option<String>, herramientas: &Vec<HerramientaDisponible>) -> (r: Result<
    String,
    String,
>)
    ensures
        decision_herramienta(
            match lectura {
                Some(n) => Some(n@),
                None => None,
            },
            herramientas@,
        ) == match r {
            Ok(n) => Ok::<Seq<char>, Seq<char>>(n@),
            Err(t) => Err::<Seq<char>, Seq<char>>(t@),
        },
{
    match lectura {
        None => Err(a_string("No entendí bien esa pregunta, ¿puedes reformularla?")),
        Some(nombre) => {
            if herramienta_permitida(nombre.as_str(), herramientas) {
                Ok(nombre)
            } else {
                Err(a_string("No tengo esa información disponible con tu rol actual."))
            }
        },
    }
}

/// Instrucción para redactar la respuesta con los datos obtenidos.
pub open spec fn redaccion_texto(mensaje: Seq<char>, hechos: Seq<char>) -> Seq<char> {
    "Pregunta del usuario: "@ + mensaje + "\nDatos reales obtenidos: "@ + hechos
        + "\nResponde de forma breve y natural en español dominicano usando SOLO estos datos, sin inventar nada adicional."@
}

/// Arma la instrucción para redactar la respuesta con los datos reales.
pub fn prompt_redaccion(mensaje: &str, hechos: &str) -> (r: String)
    ensures
        r@ == redaccion_texto(mensaje@, hechos@),
{
    let mut r = a_string("Pregunta del usuario: ");
    r.append(mensaje);
    r.append("\nDatos reales obtenidos: ");
    r.append(hechos);
    r.append(
        "\nResponde de forma breve y natural en español dominicano usando SOLO estos datos, sin inventar nada adicional.",
    );
    r
}

/// Respuesta tras consultar una herramienta: el texto redactado y limpio si
/// el modelo respondió, si no los datos tal cual; si la consulta falló, el
/// aviso de que no se pudo consultar.
pub open spec fn respuesta_consulta(hechos: Option<Seq<char>>, redactada: Option<Seq<char>>) -> Seq<char> {
    match hechos {
        None => "No pude consultar esa información en este momento."@,
        Some(h) => match redactada {
            Some(t) => respuesta_final(t),
            None => h,
        },
    }
}

/// Texto final de una consulta.
pub fn responder_consulta(hechos: Option<String>, redactada: Option<String>) -> (r: String)
    ensures
        r@ == respuesta_consulta(
            match hechos {
                Some(h) => Some(h@),
                None => None,
            },
            match redactada {
                Some(t) => Some(t@),
                None => None,
            },
        ),
{
    match hechos {
        None => a_string("No pude consultar esa información en este momento."),
        Some(h) => match redactada {
            Some(t) => limpiar_respuesta(t.as_str()),
            None => h,
        },
    }
}

/// Instrucciones del chat: la regla de no inventar cifras, las herramientas
/// y acciones disponibles para el rol, el formato de respuesta y el mensaje.
pub open spec fn instrucciones_chat(herramientas: Seq<char>, acciones: Seq<char>, mensaje: Seq<char>) -> Seq<char> {
    "Eres el asistente de Colmado POS, un sistema de punto de venta dominicano. Respondes en español dominicano, breve y amistoso.\n\nREGLA MÁS IMPORTANTE: nunca calcules, estimes o inventes una cifra de negocio por tu cuenta - ni combinando, dividiendo o \"derivando\" otros números que veas en la conversación. La ÚNICA fuente de cifras reales son las herramientas de abajo. Si la pregunta pide un dato de negocio (ventas, gastos, inventario, clientes, caja, etc.) y ninguna herramienta de tu lista lo cubre, di honestamente que no tienes esa información disponible con el rol del usuario - NUNCA \"calcules algo aproximado\" para no dejar la pregunta sin respuesta. Inventar un número es peor que decir que no lo sabes.\n\nPuedes consultar información REAL del negocio usando estas herramientas, y SOLO estas:\n"@ + herramientas + "\n\nSi la pregunta se responde con una de ellas, responde ÚNICAMENTE con una línea: HERRAMIENTA: {\"nombre\": \"...\", \"parametros\": {...}} (JSON válido, sin texto adicional).\n\nPuedes ayudar a crear estos tipos de registro, y SOLO estos:\n"@ + acciones + "\n\nSi el usuario quiere crear uno de estos, responde ÚNICAMENTE con una línea: ACCION: {\"entidad\": \"...\", \"campos\": {...}} (JSON válido, sin texto adicional).\nSi pide crear o consultar algo que no está en ninguna lista, explica amablemente que no puedes hacerlo desde el chat con su rol actual - nunca lo sustituyas con un cálculo propio.\nPara cualquier otra cosa (preguntas generales, saludos, etc.) responde con: RESPUESTA: <tu respuesta>\n\nMensaje del usuario: "@ + mensaje
}

/// Arma las instrucciones del chat con las listas ya formateadas.
pub fn prompt_chat(herramientas: &str, acciones: &str, mensaje: &str) -> (r: String)
    ensures
        r@ == instrucciones_chat(herramientas@, acciones@, mensaje@),
{
    let mut r = a_string("Eres el asistente de Colmado POS, un sistema de punto de venta dominicano. Respondes en español dominicano, breve y amistoso.\n\nREGLA MÁS IMPORTANTE: nunca calcules, estimes o inventes una cifra de negocio por tu cuenta - ni combinando, dividiendo o \"derivando\" otros números que veas en la conversación. La ÚNICA fuente de cifras reales son las herramientas de abajo. Si la pregunta pide un dato de negocio (ventas, gastos, inventario, clientes, caja, etc.) y ninguna herramienta de tu lista lo cubre, di honestamente que no tienes esa información disponible con el rol del usuario - NUNCA \"calcules algo aproximado\" para no dejar la pregunta sin respuesta. Inventar un número es peor que decir que no lo sabes.\n\nPuedes consultar información REAL del negocio usando estas herramientas, y SOLO estas:\n");
    r.append(herramientas);
    r.append("\n\nSi la pregunta se responde con una de ellas, responde ÚNICAMENTE con una línea: HERRAMIENTA: {\"nombre\": \"...\", \"parametros\": {...}} (JSON válido, sin texto adicional).\n\nPuedes ayudar a crear estos tipos de registro, y SOLO estos:\n");
    r.append(acciones);
    r.append("\n\nSi el usuario quiere crear uno de estos, responde ÚNICAMENTE con una línea: ACCION: {\"entidad\": \"...\", \"campos\": {...}} (JSON válido, sin texto adicional).\nSi pide crear o consultar algo que no está en ninguna lista, explica amablemente que no puedes hacerlo desde el chat con su rol actual - nunca lo sustituyas con un cálculo propio.\nPara cualquier otra cosa (preguntas generales, saludos, etc.) responde con: RESPUESTA: <tu respuesta>\n\nMensaje del usuario: ");
    r.append(mensaje);
    r
}

/// Respuesta cuando el modelo no está disponible.
pub fn asistente_no_disponible() -> (r: String)
    ensures
        r@ == "El asistente no está disponible en este momento. Intenta de nuevo en un momento."@,
{
    a_string("El asistente no está disponible en este momento. Intenta de nuevo en un momento.")
}

/// Instrucción para que el modelo redacte el resumen diario con los hechos.
pub open spec fn instrucciones_resumen(hechos: Seq<char>) -> Seq<char> {
    "Convierte estos datos de un colmado en la República Dominicana en un párrafo breve (2-3 frases), amistoso y en español dominicano, para el dueño del negocio. No inventes cifras ni productos que no estén en los datos - usa exactamente los que te doy.\n\nDatos: "@ + hechos
}

/// Arma la instrucción del resumen diario.
pub fn prompt_resumen(hechos: &str) -> (r: String)
    ensures
        r@ == instrucciones_resumen(hechos@),
{
    let mut r = a_string("Convierte estos datos de un colmado en la República Dominicana en un párrafo breve (2-3 frases), amistoso y en español dominicano, para el dueño del negocio. No inventes cifras ni productos que no estén en los datos - usa exactamente los que te doy.\n\nDatos: ");
    r.append(hechos);
    r
}

} // verus!

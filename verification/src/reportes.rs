//! Reportes de la DGII: formatos 606 (compras) y 607 (ventas fuera del e-CF),
//! en texto delimitado por barras y en CSV, y los límites de sus períodos.
use vstd::prelude::*;
use crate::dinero::{
    lema_suma_valor28, restar, resta_decimal, suma_cabe, suma_decimal, sumar, texto, texto_decimal, valor28,
    Monto,
};
use crate::ordenes::Fecha;
use crate::precios::cero;
use crate::texto::{
    a_string, caracteres, con_ceros, digitos, empujar, entero_texto, mismo_texto,
    numero_con_ceros, texto_entero, texto_numero,
};

verus! {

/// Errores de los reportes.
#[derive(PartialEq, Eq, Structural, Clone, Copy, Debug)]
pub enum ErrorReporte {
    /// El período no tiene el formato `AAAAMM`.
    PeriodoInvalido,
    /// La fecha final es anterior a la inicial.
    RangoInvertido,
    /// Un monto desborda la representación decimal.
    Desbordamiento,
}

// ---------------------------------------------------------------------------
// Campos
// ---------------------------------------------------------------------------

/// El campo necesita comillas en CSV: tiene coma, comilla o salto de línea.
pub open spec fn necesita_comillas(s: Seq<char>) -> bool {
    s.contains(',') || s.contains('"') || s.contains('\n')
}

/// Campo con cada comilla duplicada.
pub open spec fn comillas_dobladas(s: Seq<char>) -> Seq<char>
    decreases s.len(),
{
    if s.len() == 0 {
        Seq::empty()
    } else {
        comillas_dobladas(s.drop_last()) + if s.last() == '"' {
            seq!['"', '"']
        } else {
            seq![s.last()]
        }
    }
}

/// Campo de CSV: entre comillas y con las comillas dobladas sólo si lo
/// necesita.
pub open spec fn campo_csv(s: Seq<char>) -> Seq<char> {
    if necesita_comillas(s) {
        seq!['"'] + comillas_dobladas(s) + seq!['"']
    } else {
        s
    }
}

/// Escapa un campo de CSV.
pub fn csv_escape(field: &str) -> (r: String)
    ensures
        r@ == campo_csv(field@),
{
    let v = caracteres(field);
    let mut hace_falta = false;
    let mut i: usize = 0;
    while i < v.len()
        invariant
            i <= v.len(),
            hace_falta == (v@.take(i as int).contains(',') || v@.take(i as int).contains('"')
                || v@.take(i as int).contains('\n')),
        decreases v.len() - i,
    {
        proof {
            let t = v@.take(i + 1);
            assert(t =~= v@.take(i as int).push(v@[i as int]));
            assert forall|c: char| t.contains(c) <==> (v@.take(i as int).contains(c) || v@[i as int]
                == c) by {
                if t.contains(c) {
                    let k = choose|k: int| 0 <= k < t.len() && t[k] == c;
                    if k < i {
                        assert(v@.take(i as int)[k] == c);
                    }
                }
                if v@.take(i as int).contains(c) {
                    let k = choose|k: int| 0 <= k < i && v@.take(i as int)[k] == c;
                    assert(t[k] == c);
                }
                if v@[i as int] == c {
                    assert(t[i as int] == c);
                }
            }
        }
        let c = v[i];
        if c == ',' || c == '"' || c == '\n' {
            hace_falta = true;
        }
        i = i + 1;
    }
    proof {
        assert(v@.take(i as int) =~= v@);
    }
    if !hace_falta {
        return a_string(field);
    }
    let mut r = String::new();
    empujar(&mut r, '"');
    let mut j: usize = 0;
    while j < v.len()
        invariant
            j <= v.len(),
            r@ == seq!['"'] + comillas_dobladas(v@.take(j as int)),
        decreases v.len() - j,
    {
        proof {
            assert(v@.take(j + 1).drop_last() =~= v@.take(j as int));
        }
        let c = v[j];
        if c == '"' {
            empujar(&mut r, '"');
            empujar(&mut r, '"');
        } else {
            empujar(&mut r, c);
        }
        proof {
            assert(r@ =~= seq!['"'] + comillas_dobladas(v@.take(j + 1)));
        }
        j = j + 1;
    }
    empujar(&mut r, '"');
    proof {
        assert(v@.take(j as int) =~= v@);
    }
    r
}

/// Cantidad de dígitos ASCII del texto.
pub open spec fn cuenta_digitos(s: Seq<char>) -> nat
    decreases s.len(),
{
    if s.len() == 0 {
        0
    } else {
        cuenta_digitos(s.drop_last()) + if '0' <= s.last() && s.last() <= '9' {
            1nat
        } else {
            0nat
        }
    }
}

/// Tipo de identificación: 2 (cédula) si tiene once dígitos, 1 (RNC) si no.
pub open spec fn tipo_id(s: Seq<char>) -> u8 {
    if cuenta_digitos(s) == 11 {
        2
    } else {
        1
    }
}

/// Tipo de identificación del 606 y 607 según la cantidad de dígitos.
pub fn tipo_id_dgii(identificador: &str) -> (r: u8)
    ensures
        r == tipo_id(identificador@),
{
    let v = caracteres(identificador);
    let mut n: usize = 0;
    let mut i: usize = 0;
    while i < v.len()
        invariant
            i <= v.len(),
            n == cuenta_digitos(v@.take(i as int)),
            n <= i,
        decreases v.len() - i,
    {
        proof {
            assert(v@.take(i + 1).drop_last() =~= v@.take(i as int));
        }
        let c = v[i];
        if '0' <= c && c <= '9' {
            n = n + 1;
        }
        i = i + 1;
    }
    proof {
        assert(v@.take(i as int) =~= v@);
    }
    if n == 11 {
        2
    } else {
        1
    }
}

/// Forma de pago del 606.
pub open spec fn forma_pago(m: Seq<char>) -> u8 {
    if m == "EFECTIVO"@ {
        1
    } else if m == "TRANSFERENCIA"@ {
        2
    } else if m == "TARJETA"@ {
        3
    } else if m == "FIADO"@ {
        4
    } else {
        1
    }
}

/// Forma de pago (casilla 23 del 606) según el método de pago de la compra.
pub fn forma_pago_606(metodo_pago: &str) -> (r: u8)
    ensures
        r == forma_pago(metodo_pago@),
{
    if mismo_texto(metodo_pago, "EFECTIVO") {
        1
    } else if mismo_texto(metodo_pago, "TRANSFERENCIA") {
        2
    } else if mismo_texto(metodo_pago, "TARJETA") {
        3
    } else if mismo_texto(metodo_pago, "FIADO") {
        4
    } else {
        1
    }
}

/// Año con al menos cuatro dígitos y signo si es negativo.
pub open spec fn anio_texto(a: i32) -> Seq<char> {
    if a < 0 {
        "-"@ + con_ceros(digitos((-a) as nat), 4)
    } else {
        con_ceros(digitos(a as nat), 4)
    }
}

/// Fecha `AAAAMMDD`.
pub open spec fn fecha_compacta(f: Fecha) -> Seq<char> {
    anio_texto(f.anio) + con_ceros(digitos(f.mes as nat), 2) + con_ceros(digitos(f.dia as nat), 2)
}

/// Fecha `DD-MM-AAAA`.
pub open spec fn fecha_guiones(f: Fecha) -> Seq<char> {
    con_ceros(digitos(f.dia as nat), 2) + "-"@ + con_ceros(digitos(f.mes as nat), 2) + "-"@
        + anio_texto(f.anio)
}

fn texto_anio(a: i32) -> (r: String)
    ensures
        r@ == anio_texto(a),
{
    if a < 0 {
        let mut r = a_string("-");
        r.append(numero_con_ceros((-(a as i64)) as u64, 4).as_str());
        r
    } else {
        numero_con_ceros(a as u64, 4)
    }
}

/// Fecha en formato `AAAAMMDD`.
pub fn texto_fecha_compacta(f: Fecha) -> (r: String)
    ensures
        r@ == fecha_compacta(f),
{
    let mut r = texto_anio(f.anio);
    r.append(numero_con_ceros(f.mes as u64, 2).as_str());
    r.append(numero_con_ceros(f.dia as u64, 2).as_str());
    r
}

/// Fecha en formato `DD-MM-AAAA`.
pub fn texto_fecha_guiones(f: Fecha) -> (r: String)
    ensures
        r@ == fecha_guiones(f),
{
    let mut r = numero_con_ceros(f.dia as u64, 2);
    r.append("-");
    r.append(numero_con_ceros(f.mes as u64, 2).as_str());
    r.append("-");
    r.append(texto_anio(f.anio).as_str());
    r
}

/// Campos unidos con un separador.
pub open spec fn unir(campos: Seq<Seq<char>>, sep: Seq<char>) -> Seq<char>
    decreases campos.len(),
{
    if campos.len() == 0 {
        Seq::empty()
    } else if campos.len() == 1 {
        campos[0]
    } else {
        unir(campos.drop_last(), sep) + sep + campos.last()
    }
}

/// Vista de una lista de textos.
pub open spec fn vistas(v: Seq<String>) -> Seq<Seq<char>> {
    v.map_values(|s: String| s@)
}

/// Une los campos con el separador.
pub fn unir_campos(campos: &Vec<String>, sep: &str) -> (r: String)
    ensures
        r@ == unir(vistas(campos@), sep@),
{
    let mut r = String::new();
    let mut i: usize = 0;
    while i < campos.len()
        invariant
            i <= campos.len(),
            r@ == unir(vistas(campos@).take(i as int), sep@),
        decreases campos.len() - i,
    {
        let ghost antes = r@;
        if i > 0 {
            r.append(sep);
        }
        r.append(campos[i].as_str());
        proof {
            let t = vistas(campos@).take(i + 1);
            assert(t.drop_last() =~= vistas(campos@).take(i as int));
            assert(t.last() == campos@[i as int]@);
            if i == 0 {
                assert(t =~= seq![campos@[0]@]);
            }
        }
        i = i + 1;
    }
    proof {
        assert(vistas(campos@).take(i as int) =~= vistas(campos@));
    }
    r
}

// ---------------------------------------------------------------------------
// Formato 606
// ---------------------------------------------------------------------------

/// Compra del período con los campos del formato 606.
pub struct Compra606 {
    pub rnc: Option<String>,
    pub ncf: Option<String>,
    pub ncf_modificado: Option<String>,
    pub tipo_bienes_servicios: Option<i16>,
    pub fecha: Fecha,
    pub fecha_pago: Option<Fecha>,
    pub monto_servicios: Monto,
    pub monto_bienes: Monto,
    pub itbis_facturado: Monto,
    pub itbis_retenido: Monto,
    pub itbis_proporcionalidad: Monto,
    pub itbis_costo: Monto,
    pub tipo_retencion_isr: Option<i16>,
    pub monto_retencion_renta: Monto,
    pub isc: Monto,
    pub otros_impuestos: Monto,
    pub propina_legal: Monto,
    pub metodo_pago: String,
}

impl Compra606 {
    /// Los montos son válidos.
    pub open spec fn valida(&self) -> bool {
        &&& self.monto_servicios.valido()
        &&& self.monto_bienes.valido()
        &&& self.itbis_facturado.valido()
        &&& self.itbis_retenido.valido()
        &&& self.itbis_proporcionalidad.valido()
        &&& self.itbis_costo.valido()
        &&& self.monto_retencion_renta.valido()
        &&& self.isc.valido()
        &&& self.otros_impuestos.valido()
        &&& self.propina_legal.valido()
    }
}

/// Texto opcional o vacío.
pub open spec fn o_vacio(s: Option<String>) -> Seq<char> {
    match s {
        Some(x) => x@,
        None => Seq::empty(),
    }
}

/// Campos de una compra en el 606, dados el total facturado y el ITBIS por
/// adelantar. `csv` cambia el formato de la fecha, escapa los textos y omite
/// las dos casillas que la DGII aún no habilita.
pub open spec fn campos_606(r: Compra606, total: Monto, adelantar: Monto, csv: bool) -> Seq<Seq<char>> {
    let texto_opc = |s: Option<String>|
        if csv {
            campo_csv(o_vacio(s))
        } else {
            o_vacio(s)
        };
    let fecha = |f: Fecha|
        if csv {
            fecha_guiones(f)
        } else {
            fecha_compacta(f)
        };
    let inicio = seq![
        texto_opc(r.rnc),
        digitos(tipo_id(o_vacio(r.rnc)) as nat),
        entero_texto(
            match r.tipo_bienes_servicios {
                Some(t) => t as int,
                None => 9,
            },
        ),
        texto_opc(r.ncf),
        texto_opc(r.ncf_modificado),
        fecha(r.fecha),
        match r.fecha_pago {
            Some(f) => fecha(f),
            None => Seq::empty(),
        },
        texto_decimal(r.monto_servicios),
        texto_decimal(r.monto_bienes),
        texto_decimal(total),
        texto_decimal(r.itbis_facturado),
        texto_decimal(r.itbis_retenido),
        texto_decimal(r.itbis_proporcionalidad),
        texto_decimal(r.itbis_costo),
        texto_decimal(adelantar),
    ];
    let retencion = match r.tipo_retencion_isr {
        Some(t) => entero_texto(t as int),
        None => Seq::empty(),
    };
    let fin = seq![
        texto_decimal(r.isc),
        texto_decimal(r.otros_impuestos),
        texto_decimal(r.propina_legal),
        digitos(forma_pago(r.metodo_pago@) as nat),
    ];
    if csv {
        inicio + seq![retencion, texto_decimal(r.monto_retencion_renta)] + fin
    } else {
        inicio + seq![
            texto_decimal(cero()),
            retencion,
            texto_decimal(r.monto_retencion_renta),
            texto_decimal(cero()),
        ] + fin
    }
}

/// Separador de campos: `,` en CSV, `|` en texto.
pub open spec fn separador(csv: bool) -> Seq<char> {
    if csv {
        ","@
    } else {
        "|"@
    }
}

/// La línea del 606 son los campos separados por `|` (o `,` en CSV): 23 en
/// texto y 21 en CSV. Se escribe exactamente cuando el total (servicios +
/// bienes) y el ITBIS por adelantar (facturado - llevado al costo) no
/// desbordan; el décimo campo es el texto del total, el undécimo el ITBIS
/// facturado, el decimocuarto el ITBIS llevado al costo y el decimoquinto el
/// de su diferencia, el ITBIS por adelantar; los demás montos van en su
/// casilla (servicios, bienes, retenido, proporcionalidad, retención de
/// renta, ISC, otros impuestos y propina).
pub proof fn ley_campos_606(r: Compra606, csv: bool)
    ensures
        linea_606(r, csv) is Some <==> (suma_decimal(r.monto_servicios, r.monto_bienes) is Some
            && resta_decimal(r.itbis_facturado, r.itbis_costo) is Some),
        linea_606(r, csv) matches Some(s) ==> exists|campos: Seq<Seq<char>>|
            #[trigger] unir(campos, separador(csv)) + "\n"@ == s && campos.len()
                == (if csv { 21int } else { 23int }) && campos[9] == texto_decimal(
                suma_decimal(r.monto_servicios, r.monto_bienes)->Some_0,
            ) && campos[10] == texto_decimal(r.itbis_facturado) && campos[13] == texto_decimal(
                r.itbis_costo,
            ) && campos[14] == texto_decimal(
                resta_decimal(r.itbis_facturado, r.itbis_costo)->Some_0,
            ) && campos[7] == texto_decimal(r.monto_servicios) && campos[8] == texto_decimal(
                r.monto_bienes,
            ) && campos[11] == texto_decimal(r.itbis_retenido) && campos[12] == texto_decimal(
                r.itbis_proporcionalidad,
            ) && campos[campos.len() - 4] == texto_decimal(r.isc) && campos[campos.len() - 3]
                == texto_decimal(r.otros_impuestos) && campos[campos.len() - 2] == texto_decimal(
                r.propina_legal,
            ) && campos[campos.len() - (if csv { 5int } else { 6int })] == texto_decimal(
                r.monto_retencion_renta,
            ),
{
    if linea_606(r, csv) is Some {
        let total = suma_decimal(r.monto_servicios, r.monto_bienes)->Some_0;
        let adelantar = resta_decimal(r.itbis_facturado, r.itbis_costo)->Some_0;
        let campos = campos_606(r, total, adelantar, csv);
        assert(unir(campos, separador(csv)) + "\n"@ == linea_606(r, csv)->Some_0);
        assert(campos[9] == texto_decimal(total));
        assert(campos[10] == texto_decimal(r.itbis_facturado));
        assert(campos[13] == texto_decimal(r.itbis_costo));
        assert(campos[14] == texto_decimal(adelantar));
    }
}

/// Línea de una compra en el 606: campos separados por `|` (o `,` en CSV) y
/// salto de línea; `None` si el total o el ITBIS por adelantar desbordan.
pub open spec fn linea_606(r: Compra606, csv: bool) -> Option<Seq<char>> {
    match (
        suma_decimal(r.monto_servicios, r.monto_bienes),
        resta_decimal(r.itbis_facturado, r.itbis_costo),
    ) {
        (Some(total), Some(adelantar)) => Some(
            unir(campos_606(r, total, adelantar, csv), if csv {
                ","@
            } else {
                "|"@
            }) + "\n"@,
        ),
        _ => None,
    }
}

fn texto_opcional(s: &Option<String>, csv: bool) -> (r: String)
    ensures
        csv ==> r@ == campo_csv(o_vacio(*s)),
        !csv ==> r@ == o_vacio(*s),
{
    let t = match s {
        Some(x) => x.clone(),
        None => String::new(),
    };
    if csv {
        csv_escape(t.as_str())
    } else {
        t
    }
}

fn texto_fecha(f: Fecha, csv: bool) -> (r: String)
    ensures
        csv ==> r@ == fecha_guiones(f),
        !csv ==> r@ == fecha_compacta(f),
{
    if csv {
        texto_fecha_guiones(f)
    } else {
        texto_fecha_compacta(f)
    }
}

/// Línea de una compra en el 606 (texto para la DGII o CSV).
pub fn compra_606_line(r: &Compra606, csv: bool) -> (res: Result<String, ErrorReporte>)
    requires
        r.valida(),
    ensures
        match res {
            Ok(s) => linea_606(*r, csv) == Some(s@),
            Err(e) => e == ErrorReporte::Desbordamiento && linea_606(*r, csv) is None,
        },
        // Sin redondeo, el total facturado vale servicios + bienes y el ITBIS
        // por adelantar vale ITBIS facturado - ITBIS llevado al costo.
        res is Ok ==> (suma_cabe(r.monto_servicios, r.monto_bienes, false) ==> valor28(
            suma_decimal(r.monto_servicios, r.monto_bienes)->Some_0,
        ) == valor28(r.monto_servicios) + valor28(r.monto_bienes)),
        res is Ok ==> (suma_cabe(r.itbis_facturado, r.itbis_costo, true) ==> valor28(
            resta_decimal(r.itbis_facturado, r.itbis_costo)->Some_0,
        ) == valor28(r.itbis_facturado) - valor28(r.itbis_costo)),
{
    let total = match sumar(r.monto_servicios, r.monto_bienes) {
        Some(t) => t,
        None => return Err(ErrorReporte::Desbordamiento),
    };
    let adelantar = match restar(r.itbis_facturado, r.itbis_costo) {
        Some(a) => a,
        None => return Err(ErrorReporte::Desbordamiento),
    };
    assert(suma_cabe(r.monto_servicios, r.monto_bienes, false) ==> valor28(total) == valor28(
        r.monto_servicios,
    ) + valor28(r.monto_bienes)) by {
        if suma_cabe(r.monto_servicios, r.monto_bienes, false) {
            lema_suma_valor28(r.monto_servicios, r.monto_bienes, total, false);
        }
    }
    assert(suma_cabe(r.itbis_facturado, r.itbis_costo, true) ==> valor28(adelantar) == valor28(
        r.itbis_facturado,
    ) - valor28(r.itbis_costo)) by {
        if suma_cabe(r.itbis_facturado, r.itbis_costo, true) {
            lema_suma_valor28(r.itbis_facturado, r.itbis_costo, adelantar, true);
        }
    }
    let rnc_texto = match &r.rnc {
        Some(x) => x.clone(),
        None => String::new(),
    };
    let mut campos: Vec<String> = Vec::new();
    campos.push(texto_opcional(&r.rnc, csv));
    campos.push(texto_numero(tipo_id_dgii(rnc_texto.as_str()) as u64));
    campos.push(
        texto_entero(
            match r.tipo_bienes_servicios {
                Some(t) => t as i64,
                None => 9,
            },
        ),
    );
    campos.push(texto_opcional(&r.ncf, csv));
    campos.push(texto_opcional(&r.ncf_modificado, csv));
    campos.push(texto_fecha(r.fecha, csv));
    campos.push(
        match r.fecha_pago {
            Some(f) => texto_fecha(f, csv),
            None => String::new(),
        },
    );
    campos.push(texto(r.monto_servicios));
    campos.push(texto(r.monto_bienes));
    campos.push(texto(total));
    campos.push(texto(r.itbis_facturado));
    campos.push(texto(r.itbis_retenido));
    campos.push(texto(r.itbis_proporcionalidad));
    campos.push(texto(r.itbis_costo));
    campos.push(texto(adelantar));
    let retencion = match r.tipo_retencion_isr {
        Some(t) => texto_entero(t as i64),
        None => String::new(),
    };
    if csv {
        campos.push(retencion);
        campos.push(texto(r.monto_retencion_renta));
    } else {
        campos.push(texto(Monto::cero()));
        campos.push(retencion);
        campos.push(texto(r.monto_retencion_renta));
        campos.push(texto(Monto::cero()));
    }
    campos.push(texto(r.isc));
    campos.push(texto(r.otros_impuestos));
    campos.push(texto(r.propina_legal));
    campos.push(texto_numero(forma_pago_606(r.metodo_pago.as_str()) as u64));
    proof {
        assert(vistas(campos@) =~= campos_606(*r, total, adelantar, csv));
    }
    let mut linea = if csv {
        unir_campos(&campos, ",")
    } else {
        unir_campos(&campos, "|")
    };
    linea.append("\n");
    Ok(linea)
}

// ---------------------------------------------------------------------------
// Formato 607 y encabezados
// ---------------------------------------------------------------------------

/// Encabezado de un reporte: `tenant|período|filas` y salto de línea.
pub open spec fn encabezado(tenant: Seq<char>, periodo: Seq<char>, filas: nat) -> Seq<char> {
    tenant + "|"@ + periodo + "|"@ + digitos(filas) + "\n"@
}

/// Encabezado de los reportes 606 y 607.
pub fn encabezado_reporte(tenant_id: &str, period: &str, filas: u64) -> (r: String)
    ensures
        r@ == encabezado(tenant_id@, period@, filas as nat),
{
    let mut r = a_string(tenant_id);
    r.append("|");
    r.append(period);
    r.append("|");
    r.append(texto_numero(filas).as_str());
    r.append("\n");
    r
}

/// Línea de una venta en el 607: RNC (`000000000` si no hay), NCF, fecha
/// `DD-MM-AAAA`, monto e ITBIS; en texto termina con `|01`, en CSV escapa
/// los textos y se separa con comas.
pub open spec fn linea_607(
    rnc: Option<Seq<char>>,
    ncf: Option<Seq<char>>,
    fecha: Fecha,
    monto: Monto,
    itbis: Monto,
    csv: bool,
) -> Seq<char> {
    let r = match rnc {
        Some(x) => x,
        None => "000000000"@,
    };
    let n = match ncf {
        Some(x) => x,
        None => Seq::empty(),
    };
    if csv {
        campo_csv(r) + ","@ + campo_csv(n) + ","@ + fecha_guiones(fecha) + ","@ + texto_decimal(
            monto,
        ) + ","@ + texto_decimal(itbis) + "\n"@
    } else {
        r + "|"@ + n + "|"@ + fecha_guiones(fecha) + "|"@ + texto_decimal(monto) + "|"@
            + texto_decimal(itbis) + "|01\n"@
    }
}

/// Línea de una venta en el 607 (texto para la DGII o CSV).
pub fn venta_607_line(
    rnc: Option<String>,
    ncf: Option<String>,
    fecha: Fecha,
    monto: Monto,
    itbis: Monto,
    csv: bool,
) -> (r: String)
    requires
        monto.valido(),
        itbis.valido(),
    ensures
        r@ == linea_607(
            match rnc {
                Some(x) => Some(x@),
                None => None,
            },
            match ncf {
                Some(x) => Some(x@),
                None => None,
            },
            fecha,
            monto,
            itbis,
            csv,
        ),
{
    let r = match rnc {
        Some(x) => x,
        None => a_string("000000000"),
    };
    let n = match ncf {
        Some(x) => x,
        None => String::new(),
    };
    let mut out = if csv {
        csv_escape(r.as_str())
    } else {
        r
    };
    if csv {
        out.append(",");
        out.append(csv_escape(n.as_str()).as_str());
        out.append(",");
    } else {
        out.append("|");
        out.append(n.as_str());
        out.append("|");
    }
    out.append(texto_fecha_guiones(fecha).as_str());
    if csv {
        out.append(",");
    } else {
        out.append("|");
    }
    out.append(texto(monto).as_str());
    if csv {
        out.append(",");
    } else {
        out.append("|");
    }
    out.append(texto(itbis).as_str());
    if csv {
        out.append("\n");
    } else {
        out.append("|01\n");
    }
    out
}


// ---------------------------------------------------------------------------
// Períodos
// ---------------------------------------------------------------------------

/// Valor de una secuencia de dígitos ASCII, si todos lo son y hay al menos uno.
pub open spec fn valor_digitos(b: Seq<u8>) -> Option<int>
    decreases b.len(),
{
    if b.len() == 0 {
        None
    } else if !(48 <= b.last() && b.last() <= 57) {
        None
    } else if b.len() == 1 {
        Some(b.last() - 48)
    } else {
        match valor_digitos(b.drop_last()) {
            None => None,
            Some(v) => Some(v * 10 + (b.last() - 48)),
        }
    }
}

/// Entero con signo opcional (`i32::from_str` sobre un texto corto).
pub open spec fn entero_con_signo(b: Seq<u8>) -> Option<int> {
    if b.len() > 0 && b[0] == 43 {
        valor_digitos(b.skip(1))
    } else if b.len() > 0 && b[0] == 45 {
        match valor_digitos(b.skip(1)) {
            Some(v) => Some(-v),
            None => None,
        }
    } else {
        valor_digitos(b)
    }
}

/// Natural con `+` opcional (`u32::from_str` sobre un texto corto).
pub open spec fn natural_con_signo(b: Seq<u8>) -> Option<int> {
    if b.len() > 0 && b[0] == 43 {
        valor_digitos(b.skip(1))
    } else {
        valor_digitos(b)
    }
}

/// Primer día del mes y primer día del mes siguiente de un período `AAAAMM`.
pub open spec fn limites_periodo(b: Seq<u8>) -> Option<(Fecha, Fecha)> {
    if b.len() != 6 {
        None
    } else {
        match (entero_con_signo(b.subrange(0, 4)), natural_con_signo(b.subrange(4, 6))) {
            (Some(a), Some(m)) => if 1 <= m <= 12 {
                Some(
                    (
                        Fecha { anio: a as i32, mes: m as u32, dia: 1 },
                        if m == 12 {
                            Fecha { anio: (a + 1) as i32, mes: 1, dia: 1 }
                        } else {
                            Fecha { anio: a as i32, mes: (m + 1) as u32, dia: 1 }
                        },
                    ),
                )
            } else {
                None
            },
            _ => None,
        }
    }
}

/// Valor de `b[desde..hasta]` si son dígitos ASCII.
fn leer_digitos(b: &[u8], desde: usize, hasta: usize) -> (r: Option<u32>)
    requires
        desde <= hasta <= b@.len(),
        hasta - desde <= 4,
    ensures
        match r {
            Some(v) => valor_digitos(b@.subrange(desde as int, hasta as int)) == Some(v as int)
                && v < 10000,
            None => valor_digitos(b@.subrange(desde as int, hasta as int)) is None,
        },
{
    proof {
        reveal_with_fuel(pot10_u32, 5);
    }
    if desde == hasta {
        return None;
    }
    let mut v: u32 = 0;
    let mut i = desde;
    while i < hasta
        invariant
            desde <= i <= hasta <= b@.len(),
            hasta - desde <= 4,
            i > desde ==> valor_digitos(b@.subrange(desde as int, i as int)) == Some(v as int),
            i - desde <= 4,
            v < pot10_u32((i - desde) as nat),
            pot10_u32(0) == 1 && pot10_u32(1) == 10 && pot10_u32(2) == 100 && pot10_u32(3) == 1000
                && pot10_u32(4) == 10000,
        decreases hasta - i,
    {
        let c = b[i];
        proof {
            assert(b@.subrange(desde as int, i + 1).drop_last() =~= b@.subrange(desde as int, i as int));
            assert(b@.subrange(desde as int, i + 1).last() == c);
        }
        if c < 48 || c > 57 {
            proof {
                lema_digitos_prefijo(b@.subrange(desde as int, hasta as int), (i - desde + 1) as int);
                assert(b@.subrange(desde as int, hasta as int).take(i - desde + 1) =~= b@.subrange(
                    desde as int,
                    i + 1,
                ));
            }
            return None;
        }
        proof {
            assert(v * 10 + 9 < pot10_u32((i - desde + 1) as nat)) by (nonlinear_arith)
                requires
                    v < pot10_u32((i - desde) as nat),
                    pot10_u32((i - desde + 1) as nat) == 10 * pot10_u32((i - desde) as nat),
            ;
        }
        v = v * 10 + (c - 48) as u32;
        i = i + 1;
    }
    Some(v)
}

/// Potencias de diez pequeñas.
pub open spec fn pot10_u32(n: nat) -> int
    decreases n,
{
    if n == 0 {
        1
    } else {
        10 * pot10_u32((n - 1) as nat)
    }
}

proof fn lema_digitos_prefijo(s: Seq<u8>, k: int)
    requires
        1 <= k <= s.len(),
        valor_digitos(s.take(k)) is None,
    ensures
        valor_digitos(s) is None,
    decreases s.len() - k,
{
    if k < s.len() {
        assert(s.take(k + 1).drop_last() =~= s.take(k));
        lema_digitos_prefijo(s, k + 1);
    } else {
        assert(s.take(k) =~= s);
    }
}

/// Límites de un período `AAAAMM`: el primer día del mes y el del mes
/// siguiente.
pub fn period_bounds(period: &str) -> (r: Result<(Fecha, Fecha), ErrorReporte>)
    requires
        vstd::utf8::encode_utf8(period@).len() == 6 ==> vstd::utf8::is_char_boundary(vstd::utf8::encode_utf8(period@), 4),
    ensures
        match r {
            Ok(p) => limites_periodo(vstd::utf8::encode_utf8(period@)) == Some(p),
            Err(e) => e == ErrorReporte::PeriodoInvalido && limites_periodo(vstd::utf8::encode_utf8(period@))
                is None,
        },
{
    let b = period.as_bytes();
    if b.len() != 6 {
        return Err(ErrorReporte::PeriodoInvalido);
    }
    let ghost anio_b = b@.subrange(0, 4);
    let ghost mes_b = b@.subrange(4, 6);
    let anio: i32 = if b[0] == 43 || b[0] == 45 {
        proof {
            assert(anio_b.skip(1) =~= b@.subrange(1, 4));
        }
        match leer_digitos(b, 1, 4) {
            Some(v) => if b[0] == 45 {
                -(v as i32)
            } else {
                v as i32
            },
            None => return Err(ErrorReporte::PeriodoInvalido),
        }
    } else {
        match leer_digitos(b, 0, 4) {
            Some(v) => v as i32,
            None => return Err(ErrorReporte::PeriodoInvalido),
        }
    };
    let mes: u32 = if b[4] == 43 {
        proof {
            assert(mes_b.skip(1) =~= b@.subrange(5, 6));
        }
        match leer_digitos(b, 5, 6) {
            Some(v) => v,
            None => return Err(ErrorReporte::PeriodoInvalido),
        }
    } else {
        match leer_digitos(b, 4, 6) {
            Some(v) => v,
            None => return Err(ErrorReporte::PeriodoInvalido),
        }
    };
    if mes < 1 || mes > 12 {
        return Err(ErrorReporte::PeriodoInvalido);
    }
    let desde = Fecha { anio, mes, dia: 1 };
    let hasta = if mes == 12 {
        Fecha { anio: anio + 1, mes: 1, dia: 1 }
    } else {
        Fecha { anio, mes: mes + 1, dia: 1 }
    };
    Ok((desde, hasta))
}

/// Límites de un rango de fechas (días del calendario): el primer día y el
/// día siguiente al último, que queda fuera.
pub fn date_range_bounds(fecha_desde: i64, fecha_hasta: i64) -> (r: Result<(i64, i64), ErrorReporte>)
    requires
        fecha_hasta < i64::MAX,
    ensures
        fecha_hasta < fecha_desde ==> r == Err::<(i64, i64), ErrorReporte>(ErrorReporte::RangoInvertido),
        fecha_desde <= fecha_hasta ==> r == Ok::<(i64, i64), ErrorReporte>(
            (fecha_desde, (fecha_hasta + 1) as i64),
        ),
{
    if fecha_hasta < fecha_desde {
        return Err(ErrorReporte::RangoInvertido);
    }
    Ok((fecha_desde, fecha_hasta + 1))
}


/// Una venta del 607: RNC y NCF (si los hay), fecha, monto e ITBIS.
pub struct Venta607 {
    pub rnc: Option<String>,
    pub ncf: Option<String>,
    pub fecha: Fecha,
    pub monto: Monto,
    pub itbis: Monto,
}

/// Texto de un texto opcional.
pub open spec fn vista_opcion(o: Option<String>) -> Option<Seq<char>> {
    match o {
        Some(x) => Some(x@),
        None => None,
    }
}

/// Las líneas del 606 de las compras, en orden; `None` si alguna desborda.
pub open spec fn lineas_606(cs: Seq<Compra606>) -> Option<Seq<char>>
    decreases cs.len(),
{
    if cs.len() == 0 {
        Some(Seq::empty())
    } else {
        match (lineas_606(cs.drop_last()), linea_606(cs.last(), false)) {
            (Some(a), Some(b)) => Some(a + b),
            _ => None,
        }
    }
}

/// Las líneas del 607 de las ventas, en orden.
pub open spec fn lineas_607(vs: Seq<Venta607>) -> Seq<char>
    decreases vs.len(),
{
    if vs.len() == 0 {
        Seq::empty()
    } else {
        lineas_607(vs.drop_last()) + linea_607(
            vista_opcion(vs.last().rnc),
            vista_opcion(vs.last().ncf),
            vs.last().fecha,
            vs.last().monto,
            vs.last().itbis,
            false,
        )
    }
}

/// Copia de un texto opcional.
fn copiar_opcion(o: &Option<String>) -> (r: Option<String>)
    ensures
        vista_opcion(r) == vista_opcion(*o),
{
    match o {
        Some(x) => Some(x.clone()),
        None => None,
    }
}

/// Formato 606 completo: el encabezado con el número de compras y una línea
/// por compra, en orden; el error `Desbordamiento` si un monto desborda.
pub fn reporte_606(tenant_id: &str, period: &str, compras: &Vec<Compra606>) -> (r: Result<
    String,
    ErrorReporte,
>)
    requires
        forall|i: int| 0 <= i < compras@.len() ==> (#[trigger] compras@[i]).valida(),
    ensures
        match r {
            Ok(s) => lineas_606(compras@) matches Some(l) && s@ == encabezado(
                tenant_id@,
                period@,
                compras@.len(),
            ) + l,
            Err(e) => e == ErrorReporte::Desbordamiento && lineas_606(compras@) is None,
        },
{
    let mut out = encabezado_reporte(tenant_id, period, compras.len() as u64);
    let ghost cabeza = out@;
    let mut i: usize = 0;
    proof {
        assert(compras@.take(0) =~= Seq::<Compra606>::empty());
        assert(cabeza + Seq::<char>::empty() =~= cabeza);
    }
    while i < compras.len()
        invariant
            i <= compras.len(),
            forall|k: int| 0 <= k < compras@.len() ==> (#[trigger] compras@[k]).valida(),
            lineas_606(compras@.take(i as int)) matches Some(l) && out@ == cabeza + l,
        decreases compras.len() - i,
    {
        proof {
            assert(compras@.take(i + 1).drop_last() =~= compras@.take(i as int));
            assert(compras@.take(i + 1).last() == compras@[i as int]);
        }
        let linea = match compra_606_line(&compras[i], false) {
            Ok(l) => l,
            Err(e) => {
                proof {
                    lema_lineas_606_prefijo(compras@, i + 1);
                }
                return Err(e);
            },
        };
        let ghost antes = out@;
        out.append(linea.as_str());
        proof {
            let l = lineas_606(compras@.take(i as int))->Some_0;
            assert(out@ =~= cabeza + (l + linea@));
        }
        i = i + 1;
    }
    proof {
        assert(compras@.take(i as int) =~= compras@);
    }
    Ok(out)
}

/// Si las líneas de un prefijo no se pueden escribir, las del todo tampoco.
proof fn lema_lineas_606_prefijo(cs: Seq<Compra606>, j: int)
    requires
        0 <= j <= cs.len(),
        lineas_606(cs.take(j)) is None,
    ensures
        lineas_606(cs) is None,
    decreases cs.len(),
{
    if j == cs.len() {
        assert(cs.take(j) =~= cs);
    } else {
        assert(cs.take(j) =~= cs.drop_last().take(j));
        lema_lineas_606_prefijo(cs.drop_last(), j);
    }
}

/// Formato 607 completo: el encabezado con el número de ventas y una línea
/// por venta, en orden.
pub fn reporte_607(tenant_id: &str, period: &str, ventas: &Vec<Venta607>) -> (r: String)
    requires
        forall|i: int| 0 <= i < ventas@.len() ==> (#[trigger] ventas@[i]).monto.valido()
            && ventas@[i].itbis.valido(),
    ensures
        r@ == encabezado(tenant_id@, period@, ventas@.len()) + lineas_607(ventas@),
{
    let mut out = encabezado_reporte(tenant_id, period, ventas.len() as u64);
    let ghost cabeza = out@;
    let mut i: usize = 0;
    proof {
        assert(ventas@.take(0) =~= Seq::<Venta607>::empty());
        assert(cabeza + Seq::<char>::empty() =~= cabeza);
    }
    while i < ventas.len()
        invariant
            i <= ventas.len(),
            forall|k: int| 0 <= k < ventas@.len() ==> (#[trigger] ventas@[k]).monto.valido()
                && ventas@[k].itbis.valido(),
            out@ == cabeza + lineas_607(ventas@.take(i as int)),
        decreases ventas.len() - i,
    {
        proof {
            assert(ventas@.take(i + 1).drop_last() =~= ventas@.take(i as int));
            assert(ventas@.take(i + 1).last() == ventas@[i as int]);
        }
        let v = &ventas[i];
        assert(v.monto.valido() && v.itbis.valido());
        let linea = venta_607_line(copiar_opcion(&v.rnc), copiar_opcion(&v.ncf), v.fecha, v.monto, v.itbis, false);
        let ghost antes = out@;
        out.append(linea.as_str());
        proof {
            assert(out@ =~= cabeza + (lineas_607(ventas@.take(i as int)) + linea@));
        }
        i = i + 1;
    }
    proof {
        assert(ventas@.take(i as int) =~= ventas@);
    }
    out
}

} // verus!

//! Órdenes de servicio: ciclo de vida, programación en la agenda de los
//! técnicos, conflictos de horario, materiales y notas.
//!
//! Ciclo de vida: BORRADOR → PROGRAMADA → EN_PROCESO ⇄ PAUSADA → COMPLETADA,
//! o CANCELADA desde cualquier estado activo.
use vstd::prelude::*;
use crate::cripto::{hex, hex_mayusculas};
use crate::dinero::{menor, suma_decimal, sumar, valor_menor, Monto};
use crate::precios::cero;
use crate::texto::{
    a_string, caracteres, con_ceros, digitos, mismo_texto, numero_con_ceros, recortado, recortar,
};

verus! {

/// Errores de las órdenes de servicio.
#[derive(PartialEq, Eq, Structural, Clone, Copy, Debug)]
pub enum ErrorOrden {
    /// La orden no tiene líneas.
    SinLineas,
    /// La prioridad no es BAJA, NORMAL, ALTA ni URGENTE.
    PrioridadInvalida,
    /// La hora de fin no es posterior a la de inicio.
    BloqueInvalido,
    /// La transición de estado no está permitida.
    TransicionInvalida,
    /// El rango de la agenda está invertido.
    RangoInvertido,
    /// El rango de la agenda excede el máximo de días.
    RangoExcesivo,
    /// El rol del técnico no es TECNICO_PRINCIPAL ni ASISTENTE.
    RolInvalido,
    /// La cantidad planificada es negativa.
    CantidadPlanificadaInvalida,
    /// Un servicio no es un material consumible.
    ServicioComoMaterial,
    /// La cantidad a consumir debe ser mayor a cero.
    CantidadNoPositiva,
    /// La orden está completada o cancelada.
    OrdenCerrada,
    /// El tipo de nota no es INTERNA, TECNICO, CLIENTE ni SISTEMA.
    TipoNotaInvalido,
    /// La nota está vacía.
    NotaVacia,
    /// Sólo una orden completada puede facturarse.
    NoCompletada,
    /// Un monto desborda la representación decimal.
    Desbordamiento,
}

// ---------------------------------------------------------------------------
// Ciclo de vida
// ---------------------------------------------------------------------------

/// Acción sobre el estado de una orden.
#[derive(PartialEq, Eq, Structural, Clone, Copy, Debug)]
pub enum AccionOrden {
    Iniciar,
    Pausar,
    Completar,
    Cancelar,
}

/// Estado al que lleva una acción.
pub open spec fn destino(a: AccionOrden) -> Seq<char> {
    match a {
        AccionOrden::Iniciar => "EN_PROCESO"@,
        AccionOrden::Pausar => "PAUSADA"@,
        AccionOrden::Completar => "COMPLETADA"@,
        AccionOrden::Cancelar => "CANCELADA"@,
    }
}

/// Estados desde los que se permite la acción.
pub open spec fn permitida_desde(a: AccionOrden, estado: Seq<char>) -> bool {
    match a {
        AccionOrden::Iniciar => estado == "BORRADOR"@ || estado == "PROGRAMADA"@ || estado
            == "PAUSADA"@,
        AccionOrden::Pausar => estado == "EN_PROCESO"@,
        AccionOrden::Completar => estado == "EN_PROCESO"@ || estado == "PAUSADA"@,
        AccionOrden::Cancelar => estado == "BORRADOR"@ || estado == "PROGRAMADA"@ || estado
            == "EN_PROCESO"@ || estado == "PAUSADA"@,
    }
}

/// Nuevo estado tras la acción, si está permitida desde `estado`.
pub open spec fn transicion(estado: Seq<char>, a: AccionOrden) -> Option<Seq<char>> {
    if permitida_desde(a, estado) {
        Some(destino(a))
    } else {
        None
    }
}

/// Aplica una acción al estado de la orden.
pub fn transicionar(estado: &str, accion: AccionOrden) -> (r: Result<String, ErrorOrden>)
    ensures
        match r {
            Ok(s) => transicion(estado@, accion) == Some(s@),
            Err(e) => transicion(estado@, accion) is None && e == ErrorOrden::TransicionInvalida,
        },
{
    let b = mismo_texto(estado, "BORRADOR");
    let p = mismo_texto(estado, "PROGRAMADA");
    let en = mismo_texto(estado, "EN_PROCESO");
    let pa = mismo_texto(estado, "PAUSADA");
    let (ok, hacia) = match accion {
        AccionOrden::Iniciar => (b || p || pa, "EN_PROCESO"),
        AccionOrden::Pausar => (en, "PAUSADA"),
        AccionOrden::Completar => (en || pa, "COMPLETADA"),
        AccionOrden::Cancelar => (b || p || en || pa, "CANCELADA"),
    };
    if ok {
        Ok(a_string(hacia))
    } else {
        Err(ErrorOrden::TransicionInvalida)
    }
}

/// Una orden completada o cancelada ya no cambia de estado.
pub proof fn ley_estados_finales(a: AccionOrden)
    ensures
        transicion("COMPLETADA"@, a) is None,
        transicion("CANCELADA"@, a) is None,
{
    reveal_strlit("COMPLETADA");
    reveal_strlit("CANCELADA");
    reveal_strlit("BORRADOR");
    reveal_strlit("PROGRAMADA");
    reveal_strlit("EN_PROCESO");
    reveal_strlit("PAUSADA");
    assert("COMPLETADA"@ != "BORRADOR"@ && "COMPLETADA"@ != "PROGRAMADA"@ && "COMPLETADA"@
        != "EN_PROCESO"@ && "COMPLETADA"@ != "PAUSADA"@) by {
        assert("COMPLETADA"@[0] != "BORRADOR"@[0]);
        assert("COMPLETADA"@[0] != "PROGRAMADA"@[0]);
        assert("COMPLETADA"@[0] != "EN_PROCESO"@[0]);
        assert("COMPLETADA"@[0] != "PAUSADA"@[0]);
    }
    assert("CANCELADA"@ != "BORRADOR"@ && "CANCELADA"@ != "PROGRAMADA"@ && "CANCELADA"@
        != "EN_PROCESO"@ && "CANCELADA"@ != "PAUSADA"@) by {
        assert("CANCELADA"@[1] != "BORRADOR"@[1]);
        assert("CANCELADA"@[0] != "PROGRAMADA"@[0]);
        assert("CANCELADA"@[0] != "EN_PROCESO"@[0]);
        assert("CANCELADA"@[0] != "PAUSADA"@[0]);
    }
}

/// Toda transición permitida lleva al estado de su acción, y pausar y volver
/// a iniciar regresa a EN_PROCESO.
pub proof fn ley_pausa_reanuda(estado: Seq<char>)
    ensures
        transicion(estado, AccionOrden::Pausar) matches Some(p) ==> p == "PAUSADA"@ && transicion(
            p,
            AccionOrden::Iniciar,
        ) == Some("EN_PROCESO"@),
{
}

/// Tabla completa del ciclo de vida de una orden: BORRADOR o PROGRAMADA se
/// inician; EN_PROCESO y PAUSADA alternan; se completa desde EN_PROCESO o
/// PAUSADA; se cancela desde cualquier estado que no sea final. Ninguna otra
/// combinación de estado y acción está permitida.
pub proof fn ley_tabla_transiciones(s: Seq<char>)
    ensures
        transicion(s, AccionOrden::Iniciar) == (if s == "BORRADOR"@ || s == "PROGRAMADA"@ || s
            == "PAUSADA"@ {
            Some("EN_PROCESO"@)
        } else {
            None::<Seq<char>>
        }),
        transicion(s, AccionOrden::Pausar) == (if s == "EN_PROCESO"@ {
            Some("PAUSADA"@)
        } else {
            None::<Seq<char>>
        }),
        transicion(s, AccionOrden::Completar) == (if s == "EN_PROCESO"@ || s == "PAUSADA"@ {
            Some("COMPLETADA"@)
        } else {
            None::<Seq<char>>
        }),
        transicion(s, AccionOrden::Cancelar) == (if s == "BORRADOR"@ || s == "PROGRAMADA"@ || s
            == "EN_PROCESO"@ || s == "PAUSADA"@ {
            Some("CANCELADA"@)
        } else {
            None::<Seq<char>>
        }),
{
}

/// Estado inicial de una orden nueva: PROGRAMADA si tiene fecha, BORRADOR si
/// no.
pub fn estado_inicial(tiene_fecha_programada: bool) -> (r: String)
    ensures
        tiene_fecha_programada ==> r@ == "PROGRAMADA"@,
        !tiene_fecha_programada ==> r@ == "BORRADOR"@,
{
    if tiene_fecha_programada {
        a_string("PROGRAMADA")
    } else {
        a_string("BORRADOR")
    }
}

/// La orden pasa a PROGRAMADA si estaba en BORRADOR y se le fija fecha.
pub fn estado_tras_editar(estado: &str, fija_fecha: bool) -> (r: String)
    ensures
        estado@ == "BORRADOR"@ && fija_fecha ==> r@ == "PROGRAMADA"@,
        !(estado@ == "BORRADOR"@ && fija_fecha) ==> r@ == estado@,
{
    if mismo_texto(estado, "BORRADOR") && fija_fecha {
        a_string("PROGRAMADA")
    } else {
        a_string(estado)
    }
}

/// Sólo una orden completada se factura.
pub fn validar_facturacion(estado: &str) -> (r: Result<(), ErrorOrden>)
    ensures
        r is Ok <==> estado@ == "COMPLETADA"@,
        r is Err ==> r == Err::<(), ErrorOrden>(ErrorOrden::NoCompletada),
{
    if mismo_texto(estado, "COMPLETADA") {
        Ok(())
    } else {
        Err(ErrorOrden::NoCompletada)
    }
}

/// La prioridad es una de las admitidas.
pub open spec fn prioridad_valida(p: Seq<char>) -> bool {
    p == "BAJA"@ || p == "NORMAL"@ || p == "ALTA"@ || p == "URGENTE"@
}

fn es_prioridad(p: &str) -> (r: bool)
    ensures
        r == prioridad_valida(p@),
{
    mismo_texto(p, "BAJA") || mismo_texto(p, "NORMAL") || mismo_texto(p, "ALTA") || mismo_texto(
        p,
        "URGENTE",
    )
}

/// Prioridad de una orden nueva: la dada o NORMAL, y debe ser válida.
pub fn prioridad_orden(prioridad: Option<String>) -> (r: Result<String, ErrorOrden>)
    ensures
        match r {
            Ok(p) => p@ == match prioridad {
                Some(x) => x@,
                None => "NORMAL"@,
            } && prioridad_valida(p@),
            Err(e) => e == ErrorOrden::PrioridadInvalida && !prioridad_valida(
                match prioridad {
                    Some(x) => x@,
                    None => "NORMAL"@,
                },
            ),
        },
{
    let p = match prioridad {
        Some(x) => x,
        None => a_string("NORMAL"),
    };
    if es_prioridad(p.as_str()) {
        Ok(p)
    } else {
        Err(ErrorOrden::PrioridadInvalida)
    }
}

/// Prioridad de una edición: si se da, debe ser válida.
pub fn validar_prioridad_opcional(prioridad: Option<&str>) -> (r: Result<(), ErrorOrden>)
    ensures
        r is Ok <==> match prioridad {
            Some(p) => prioridad_valida(p@),
            None => true,
        },
        r is Err ==> r == Err::<(), ErrorOrden>(ErrorOrden::PrioridadInvalida),
{
    match prioridad {
        Some(p) => if es_prioridad(p) {
            Ok(())
        } else {
            Err(ErrorOrden::PrioridadInvalida)
        },
        None => Ok(()),
    }
}

// ---------------------------------------------------------------------------
// Agenda y conflictos
// ---------------------------------------------------------------------------

/// Un bloque con inicio y fin debe terminar después de empezar. Las horas
/// son nanosegundos desde la medianoche.
pub fn validar_bloque(hora_inicio: Option<u64>, hora_fin: Option<u64>) -> (r: Result<(), ErrorOrden>)
    ensures
        r is Err <==> (hora_inicio is Some && hora_fin is Some && hora_fin->Some_0
            <= hora_inicio->Some_0),
        r is Err ==> r == Err::<(), ErrorOrden>(ErrorOrden::BloqueInvalido),
{
    match (hora_inicio, hora_fin) {
        (Some(desde), Some(hasta)) => if hasta <= desde {
            Err(ErrorOrden::BloqueInvalido)
        } else {
            Ok(())
        },
        _ => Ok(()),
    }
}

/// Fecha del calendario.
#[derive(Clone, Copy, Debug, PartialEq, Eq, Structural)]
pub struct Fecha {
    pub anio: i32,
    pub mes: u32,
    pub dia: u32,
}

/// Otra orden del mismo técnico el mismo día.
#[derive(Clone, Debug)]
pub struct ConflictoAgenda {
    /// Identificador de la orden.
    pub orden_id: u128,
    pub codigo: String,
    pub cliente_nombre: Option<String>,
    pub estado: String,
    pub fecha_programada: Fecha,
    pub hora_inicio: Option<u64>,
    pub hora_fin: Option<u64>,
    pub empleado_id: u128,
    pub empleado_nombre: String,
}

/// Dos bloques `[desde, hasta)` y `[o_desde, o_hasta)` se solapan;
/// adyacentes no se solapan.
pub open spec fn solapan(desde: u64, hasta: u64, o_desde: u64, o_hasta: u64) -> bool {
    desde < o_hasta && o_desde < hasta
}

/// El solapamiento de bloques es simétrico.
pub proof fn ley_solapamiento_simetrico(a: u64, b: u64, c: u64, d: u64)
    ensures
        solapan(a, b, c, d) == solapan(c, d, a, b),
{
}

/// Clase de una orden del mismo día respecto del bloque propio: 0 si es un
/// conflicto duro (ambos bloques completos y solapados), 1 si los dos bloques
/// están completos y no se tocan, 2 si a alguno le faltan horas (aviso).
pub open spec fn clase(inicio: Option<u64>, fin: Option<u64>, otra: ConflictoAgenda) -> int {
    match (inicio, fin, otra.hora_inicio, otra.hora_fin) {
        (Some(d), Some(h), Some(od), Some(oh)) => if solapan(d, h, od, oh) {
            0
        } else {
            1
        },
        _ => 2,
    }
}

/// Órdenes de `s` de la clase `k`, en su orden.
pub open spec fn de_clase(s: Seq<ConflictoAgenda>, inicio: Option<u64>, fin: Option<u64>, k: int) -> Seq<
    ConflictoAgenda,
>
    decreases s.len(),
{
    if s.len() == 0 {
        Seq::empty()
    } else if clase(inicio, fin, s.last()) == k {
        de_clase(s.drop_last(), inicio, fin, k).push(s.last())
    } else {
        de_clase(s.drop_last(), inicio, fin, k)
    }
}

/// Separa la agenda del día en conflictos duros y avisos.
pub fn partir_conflictos(del_dia: Vec<ConflictoAgenda>, hora_inicio: Option<u64>, hora_fin: Option<u64>) -> (r: (
    Vec<ConflictoAgenda>,
    Vec<ConflictoAgenda>,
))
    ensures
        r.0@ == de_clase(del_dia@, hora_inicio, hora_fin, 0),
        r.1@ == de_clase(del_dia@, hora_inicio, hora_fin, 2),
{
    let mut duros: Vec<ConflictoAgenda> = Vec::new();
    let mut avisos: Vec<ConflictoAgenda> = Vec::new();
    let mut resto = del_dia;
    let ghost todo = resto@;
    proof {
        assert(todo.skip(0) =~= todo);
        assert(todo.take(0) =~= Seq::<ConflictoAgenda>::empty());
    }
    while resto.len() > 0
        invariant
            resto@.len() <= todo.len(),
            resto@ == todo.skip(todo.len() - resto@.len()),
            duros@ == de_clase(todo.take(todo.len() - resto@.len()), hora_inicio, hora_fin, 0),
            avisos@ == de_clase(todo.take(todo.len() - resto@.len()), hora_inicio, hora_fin, 2),
        decreases resto.len(),
    {
        let ghost k = todo.len() - resto@.len();
        let otra = resto.remove(0);
        proof {
            assert(todo.take(k + 1).drop_last() =~= todo.take(k));
            assert(todo.skip(k)[0] == otra);
            assert(todo.take(k + 1).last() == otra);
            assert(resto@ =~= todo.skip(k + 1));
        }
        let c = match (hora_inicio, hora_fin, otra.hora_inicio, otra.hora_fin) {
            (Some(desde), Some(hasta), Some(o_desde), Some(o_hasta)) => if desde < o_hasta
                && o_desde < hasta {
                0u8
            } else {
                1u8
            },
            _ => 2u8,
        };
        if c == 0 {
            duros.push(otra);
        } else if c == 2 {
            avisos.push(otra);
        }
    }
    proof {
        assert(todo.take(todo.len() as int) =~= todo);
    }
    (duros, avisos)
}

/// `HH:MM` de una hora en nanosegundos desde la medianoche.
pub open spec fn hora_texto(t: u64) -> Seq<char> {
    let minutos = t as nat / 60000000000;
    con_ceros(digitos(minutos / 60), 2) + ":"@ + con_ceros(digitos(minutos % 60), 2)
}

/// `dd/mm/aaaa` de una fecha.
pub open spec fn fecha_texto(f: Fecha) -> Seq<char> {
    con_ceros(digitos(f.dia as nat), 2) + "/"@ + con_ceros(digitos(f.mes as nat), 2) + "/"@
        + if f.anio < 0 {
        "-"@ + con_ceros(digitos((-f.anio) as nat), 4)
    } else {
        con_ceros(digitos(f.anio as nat), 4)
    }
}

fn escribir_hora(out: &mut String, t: u64)
    requires
        t < 86400000000000,
    ensures
        final(out)@ == old(out)@ + hora_texto(t),
{
    let minutos = t / 60000000000;
    out.append(numero_con_ceros(minutos / 60, 2).as_str());
    out.append(":");
    out.append(numero_con_ceros(minutos % 60, 2).as_str());
}

fn escribir_fecha(out: &mut String, f: Fecha)
    ensures
        final(out)@ == old(out)@ + fecha_texto(f),
{
    out.append(numero_con_ceros(f.dia as u64, 2).as_str());
    out.append("/");
    out.append(numero_con_ceros(f.mes as u64, 2).as_str());
    out.append("/");
    if f.anio < 0 {
        out.append("-");
        out.append(numero_con_ceros((-(f.anio as i64)) as u64, 4).as_str());
    } else {
        out.append(numero_con_ceros(f.anio as u64, 4).as_str());
    }
}

/// Horas de un conflicto en el mensaje.
pub open spec fn horas_texto(c: ConflictoAgenda) -> Seq<char> {
    match (c.hora_inicio, c.hora_fin) {
        (Some(d), Some(h)) => hora_texto(d) + " a "@ + hora_texto(h),
        _ => "sin hora definida"@,
    }
}

/// Descripción de un conflicto: `código (cliente, fecha — horas)`.
pub open spec fn detalle_conflicto(c: ConflictoAgenda) -> Seq<char> {
    c.codigo@ + " ("@ + match c.cliente_nombre {
        Some(n) => n@,
        None => "Consumidor final"@,
    } + ", "@ + fecha_texto(c.fecha_programada) + " — "@ + horas_texto(c) + ")"@
}

/// Descripciones unidas con `; `.
pub open spec fn detalles(s: Seq<ConflictoAgenda>) -> Seq<char>
    decreases s.len(),
{
    if s.len() == 0 {
        Seq::empty()
    } else if s.len() == 1 {
        detalle_conflicto(s[0])
    } else {
        detalles(s.drop_last()) + "; "@ + detalle_conflicto(s.last())
    }
}

/// Quién tiene el trabajo: el técnico si todos los conflictos son suyos, o
/// "Los técnicos asignados" si son de varios.
pub open spec fn quien(s: Seq<ConflictoAgenda>) -> Seq<char> {
    if s.len() == 0 {
        "El técnico"@
    } else if forall|i: int| 0 <= i < s.len() ==> (#[trigger] s[i]).empleado_nombre@
        == s[0].empleado_nombre@ {
        s[0].empleado_nombre@
    } else {
        "Los técnicos asignados"@
    }
}

/// Mensaje de un conflicto de agenda.
pub open spec fn mensaje(s: Seq<ConflictoAgenda>) -> Seq<char> {
    quien(s) + " ya tiene trabajo asignado en ese horario: "@ + detalles(s)
        + ". Si aun así quieres agendarlo, confirma el conflicto."@
}

/// Las horas de los conflictos están dentro del día.
pub open spec fn horas_del_dia(s: Seq<ConflictoAgenda>) -> bool {
    forall|i: int|
        0 <= i < s.len() ==> ((#[trigger] s[i]).hora_inicio matches Some(h) ==> h
            < 86400000000000) && (s[i].hora_fin matches Some(h) ==> h < 86400000000000)
}

fn escribir_detalle(det: &mut String, c: &ConflictoAgenda)
    requires
        c.hora_inicio matches Some(h) ==> h < 86400000000000,
        c.hora_fin matches Some(h) ==> h < 86400000000000,
    ensures
        final(det)@ == old(det)@ + detalle_conflicto(*c),
{
    det.append(c.codigo.as_str());
    det.append(" (");
    match &c.cliente_nombre {
        Some(n) => det.append(n.as_str()),
        None => det.append("Consumidor final"),
    }
    det.append(", ");
    escribir_fecha(det, c.fecha_programada);
    det.append(" — ");
    match (c.hora_inicio, c.hora_fin) {
        (Some(d), Some(h)) => {
            escribir_hora(det, d);
            det.append(" a ");
            escribir_hora(det, h);
        },
        _ => det.append("sin hora definida"),
    }
    det.append(")");
    proof {
        assert(det@ =~= old(det)@ + detalle_conflicto(*c));
    }
}

/// Mensaje que explica un conflicto duro de agenda.
pub fn mensaje_conflicto(conflictos: &Vec<ConflictoAgenda>) -> (r: String)
    requires
        horas_del_dia(conflictos@),
    ensures
        r@ == mensaje(conflictos@),
{
    let mut det = String::new();
    let mut i: usize = 0;
    while i < conflictos.len()
        invariant
            i <= conflictos.len(),
            horas_del_dia(conflictos@),
            det@ == detalles(conflictos@.take(i as int)),
        decreases conflictos.len() - i,
    {
        let c = &conflictos[i];
        let ghost antes = det@;
        if i > 0 {
            det.append("; ");
        }
        escribir_detalle(&mut det, c);
        proof {
            let s = conflictos@.take(i + 1);
            assert(s.drop_last() =~= conflictos@.take(i as int));
            assert(s.last() == *c);
            if i == 0 {
                assert(s =~= seq![*c]);
                assert(det@ =~= detalle_conflicto(*c));
            } else {
                assert(det@ =~= antes + "; "@ + detalle_conflicto(*c));
            }
        }
        i = i + 1;
    }
    proof {
        assert(conflictos@.take(i as int) =~= conflictos@);
    }
    let mut r = if conflictos.len() == 0 {
        a_string("El técnico")
    } else {
        let primero = &conflictos[0].empleado_nombre;
        let mut todos = true;
        let mut j: usize = 0;
        while j < conflictos.len()
            invariant
                j <= conflictos.len(),
                conflictos.len() > 0,
                *primero == conflictos@[0].empleado_nombre,
                todos == forall|k: int| 0 <= k < j ==> (#[trigger] conflictos@[k]).empleado_nombre@
                    == conflictos@[0].empleado_nombre@,
            decreases conflictos.len() - j,
        {
            if !mismo_texto(conflictos[j].empleado_nombre.as_str(), primero.as_str()) {
                todos = false;
            }
            j = j + 1;
        }
        if todos {
            primero.clone()
        } else {
            a_string("Los técnicos asignados")
        }
    };
    r.append(" ya tiene trabajo asignado en ese horario: ");
    r.append(det.as_str());
    r.append(". Si aun así quieres agendarlo, confirma el conflicto.");
    r
}

/// Máximo de días de una agenda.
pub const AGENDA_MAX_DIAS: i64 = 62;

/// Rango de la agenda en días del calendario: no invertido y de a lo sumo 62
/// días contando ambos extremos.
pub fn validar_rango_agenda(desde: i64, hasta: i64) -> (r: Result<i64, ErrorOrden>)
    requires
        -1000000000 <= desde <= 1000000000,
        -1000000000 <= hasta <= 1000000000,
    ensures
        hasta < desde ==> r == Err::<i64, ErrorOrden>(ErrorOrden::RangoInvertido),
        desde <= hasta && hasta - desde + 1 > AGENDA_MAX_DIAS ==> r == Err::<i64, ErrorOrden>(
            ErrorOrden::RangoExcesivo,
        ),
        desde <= hasta && hasta - desde + 1 <= AGENDA_MAX_DIAS ==> r == Ok::<i64, ErrorOrden>(
            (hasta - desde + 1) as i64,
        ),
{
    if hasta < desde {
        return Err(ErrorOrden::RangoInvertido);
    }
    let dias = hasta - desde + 1;
    if dias > AGENDA_MAX_DIAS {
        return Err(ErrorOrden::RangoExcesivo);
    }
    Ok(dias)
}

/// El bloque de una orden cambió: algún campo dado difiere del actual.
pub fn cambio_programacion(
    fecha_nueva: Option<Fecha>,
    fecha_actual: Option<Fecha>,
    inicio_nuevo: Option<u64>,
    inicio_actual: Option<u64>,
    fin_nuevo: Option<u64>,
    fin_actual: Option<u64>,
) -> (r: bool)
    ensures
        r == ((fecha_nueva is Some && fecha_nueva != fecha_actual) || (inicio_nuevo is Some
            && inicio_nuevo != inicio_actual) || (fin_nuevo is Some && fin_nuevo != fin_actual)),
{
    let f = match (fecha_nueva, fecha_actual) {
        (Some(a), Some(b)) => a != b,
        (Some(_), None) => true,
        _ => false,
    };
    let i = match (inicio_nuevo, inicio_actual) {
        (Some(a), Some(b)) => a != b,
        (Some(_), None) => true,
        _ => false,
    };
    let h = match (fin_nuevo, fin_actual) {
        (Some(a), Some(b)) => a != b,
        (Some(_), None) => true,
        _ => false,
    };
    f || i || h
}

/// Rol de un técnico asignado: el dado o TECNICO_PRINCIPAL; sólo se admiten
/// TECNICO_PRINCIPAL y ASISTENTE.
pub fn rol_tecnico(rol: Option<String>) -> (r: Result<String, ErrorOrden>)
    ensures
        match r {
            Ok(x) => x@ == match rol {
                Some(y) => y@,
                None => "TECNICO_PRINCIPAL"@,
            } && (x@ == "TECNICO_PRINCIPAL"@ || x@ == "ASISTENTE"@),
            Err(e) => e == ErrorOrden::RolInvalido && (match rol {
                Some(y) => y@,
                None => "TECNICO_PRINCIPAL"@,
            }) != "TECNICO_PRINCIPAL"@ && (match rol {
                Some(y) => y@,
                None => "TECNICO_PRINCIPAL"@,
            }) != "ASISTENTE"@,
        },
{
    let r = match rol {
        Some(x) => x,
        None => a_string("TECNICO_PRINCIPAL"),
    };
    if !mismo_texto(r.as_str(), "TECNICO_PRINCIPAL") && !mismo_texto(r.as_str(), "ASISTENTE") {
        return Err(ErrorOrden::RolInvalido);
    }
    Ok(r)
}

/// Código legible de una orden: `OS-` y los primeros ocho dígitos
/// hexadecimales de su UUID, en mayúsculas.
pub open spec fn codigo_de(id: u128) -> Seq<char> {
    "OS-"@ + hex_mayusculas(
        seq![
            (id / 0x1000000000000000000000000000000) as u8,
            ((id / 0x10000000000000000000000000000) % 256) as u8,
            ((id / 0x100000000000000000000000000) % 256) as u8,
            ((id / 0x1000000000000000000000000) % 256) as u8,
        ],
    )
}

/// Código legible de una orden a partir del valor de su UUID.
pub fn codigo_orden(id: u128) -> (r: String)
    ensures
        r@ == codigo_de(id),
{
    let b = vec![
        (id / 0x1000000000000000000000000000000) as u8,
        ((id / 0x10000000000000000000000000000) % 256) as u8,
        ((id / 0x100000000000000000000000000) % 256) as u8,
        ((id / 0x1000000000000000000000000) % 256) as u8,
    ];
    let mut r = a_string("OS-");
    r.append(hex(b.as_slice(), true).as_str());
    proof {
        assert(b@ =~= seq![
            (id / 0x1000000000000000000000000000000) as u8,
            ((id / 0x10000000000000000000000000000) % 256) as u8,
            ((id / 0x100000000000000000000000000) % 256) as u8,
            ((id / 0x1000000000000000000000000) % 256) as u8,
        ]);
    }
    r
}

// ---------------------------------------------------------------------------
// Materiales y notas
// ---------------------------------------------------------------------------

/// Un material se planifica con cantidad no negativa y no puede ser un
/// servicio.
pub fn validar_material(cantidad_planificada: Monto, es_servicio: bool) -> (r: Result<(), ErrorOrden>)
    requires
        cantidad_planificada.valido(),
    ensures
        valor_menor(cantidad_planificada, cero()) ==> r == Err::<(), ErrorOrden>(
            ErrorOrden::CantidadPlanificadaInvalida,
        ),
        !valor_menor(cantidad_planificada, cero()) && es_servicio ==> r == Err::<(), ErrorOrden>(
            ErrorOrden::ServicioComoMaterial,
        ),
        !valor_menor(cantidad_planificada, cero()) && !es_servicio ==> r is Ok,
{
    if menor(cantidad_planificada, Monto::cero()) {
        return Err(ErrorOrden::CantidadPlanificadaInvalida);
    }
    if es_servicio {
        return Err(ErrorOrden::ServicioComoMaterial);
    }
    Ok(())
}

/// Consumo de un material: cantidad positiva en una orden abierta; devuelve
/// la nueva cantidad utilizada.
pub fn consumir_material(cantidad: Monto, estado: &str, utilizada_previa: Monto) -> (r: Result<
    Monto,
    ErrorOrden,
>)
    requires
        cantidad.valido(),
        utilizada_previa.valido(),
    ensures
        !valor_menor(cero(), cantidad) ==> r == Err::<Monto, ErrorOrden>(
            ErrorOrden::CantidadNoPositiva,
        ),
        valor_menor(cero(), cantidad) && (estado@ == "COMPLETADA"@ || estado@ == "CANCELADA"@) ==> r
            == Err::<Monto, ErrorOrden>(ErrorOrden::OrdenCerrada),
        valor_menor(cero(), cantidad) && estado@ != "COMPLETADA"@ && estado@ != "CANCELADA"@ ==> match r {
            Ok(n) => suma_decimal(utilizada_previa, cantidad) == Some(n),
            Err(e) => e == ErrorOrden::Desbordamiento && suma_decimal(utilizada_previa, cantidad)
                is None,
        },
{
    if !menor(Monto::cero(), cantidad) {
        return Err(ErrorOrden::CantidadNoPositiva);
    }
    if mismo_texto(estado, "COMPLETADA") || mismo_texto(estado, "CANCELADA") {
        return Err(ErrorOrden::OrdenCerrada);
    }
    match sumar(utilizada_previa, cantidad) {
        Some(n) => Ok(n),
        None => Err(ErrorOrden::Desbordamiento),
    }
}

/// Nota sobre una orden de servicio.
pub struct AgregarNotaRequest {
    pub tipo: Option<String>,
    pub contenido: String,
}

/// El tipo de nota es uno de los admitidos.
pub open spec fn tipo_nota_valido(t: Seq<char>) -> bool {
    t == "INTERNA"@ || t == "TECNICO"@ || t == "CLIENTE"@ || t == "SISTEMA"@
}

impl AgregarNotaRequest {
    /// Valida la nota y devuelve su tipo (INTERNA por omisión).
    pub fn validar(&self) -> (r: Result<String, ErrorOrden>)
        ensures
            !tipo_nota_valido(
                match self.tipo {
                    Some(t) => t@,
                    None => "INTERNA"@,
                },
            ) ==> r == Err::<String, ErrorOrden>(ErrorOrden::TipoNotaInvalido),
            tipo_nota_valido(
                match self.tipo {
                    Some(t) => t@,
                    None => "INTERNA"@,
                },
            ) && recortar(self.contenido@).len() == 0 ==> r == Err::<String, ErrorOrden>(
                ErrorOrden::NotaVacia,
            ),
            tipo_nota_valido(
                match self.tipo {
                    Some(t) => t@,
                    None => "INTERNA"@,
                },
            ) && recortar(self.contenido@).len() > 0 ==> (r matches Ok(t) && t@ == match self.tipo {
                Some(x) => x@,
                None => "INTERNA"@,
            }),
    {
        let t = match &self.tipo {
            Some(x) => x.clone(),
            None => a_string("INTERNA"),
        };
        let s = t.as_str();
        if !mismo_texto(s, "INTERNA") && !mismo_texto(s, "TECNICO") && !mismo_texto(s, "CLIENTE")
            && !mismo_texto(s, "SISTEMA") {
            return Err(ErrorOrden::TipoNotaInvalido);
        }
        let c = recortado(self.contenido.as_str());
        if caracteres(c.as_str()).len() == 0 {
            return Err(ErrorOrden::NotaVacia);
        }
        Ok(t)
    }
}

/// Lo que da `chrono::NaiveTime::parse_from_str(texto, formato)`: los
/// segundos desde la medianoche y la fracción en nanosegundos.
pub uninterp spec fn hora_de_texto(texto: Seq<char>, formato: Seq<char>) -> Option<(u32, u32)>;

/// `NaiveTime::parse_from_str` con `Timelike::num_seconds_from_midnight` y
/// `Timelike::nanosecond` del resultado. Se afirma sólo que es función del
/// texto y del formato.
#[verifier::external_body]
fn leer_hora(texto: &str, formato: &str) -> (r: Option<(u32, u32)>)
    ensures
        r == hora_de_texto(texto@, formato@),
{
    chrono::NaiveTime::parse_from_str(texto, formato).ok().map(|t| (chrono::Timelike::num_seconds_from_midnight(&t), chrono::Timelike::nanosecond(&t)))
}

/// Nanosegundos desde la medianoche.
pub open spec fn nanos_de(h: (u32, u32)) -> int {
    h.0 * 1_000_000_000 + h.1
}

/// Hora opcional escrita a mano: vacía o sólo espacios es ninguna; si no,
/// se prueba `HH:MM:SS` con fracción, `HH:MM:SS` y `HH:MM`, en ese orden.
pub open spec fn hora_opcional(raw: Option<Seq<char>>) -> Result<Option<int>, Seq<char>> {
    match raw {
        None => Ok(None),
        Some(s) => {
            let t = recortar(s);
            if t.len() == 0 {
                Ok(None)
            } else {
                match hora_de_texto(t, "%H:%M:%S%.f"@) {
                    Some(h) => Ok(Some(nanos_de(h))),
                    None => match hora_de_texto(t, "%H:%M:%S"@) {
                        Some(h) => Ok(Some(nanos_de(h))),
                        None => match hora_de_texto(t, "%H:%M"@) {
                            Some(h) => Ok(Some(nanos_de(h))),
                            None => Err("Hora inválida: "@ + t + " (use HH:MM o HH:MM:SS)"@),
                        },
                    },
                }
            }
        },
    }
}

/// Interpreta una hora opcional (`HH:MM` o `HH:MM:SS`) como nanosegundos
/// desde la medianoche; el error trae el mensaje para el usuario.
pub fn interpretar_hora(raw: Option<String>) -> (r: Result<Option<u64>, String>)
    ensures
        match r {
            Ok(Some(n)) => hora_opcional(opcional_vista(raw)) == Ok::<Option<int>, Seq<char>>(
                Some(n as int),
            ),
            Ok(None) => hora_opcional(opcional_vista(raw)) == Ok::<Option<int>, Seq<char>>(None),
            Err(m) => hora_opcional(opcional_vista(raw)) == Err::<Option<int>, Seq<char>>(m@),
        },
{
    let s = match raw {
        None => return Ok(None),
        Some(s) => s,
    };
    let t = recortado(s.as_str());
    if caracteres(t.as_str()).len() == 0 {
        return Ok(None);
    }
    let h = match leer_hora(t.as_str(), "%H:%M:%S%.f") {
        Some(h) => Some(h),
        None => match leer_hora(t.as_str(), "%H:%M:%S") {
            Some(h) => Some(h),
            None => leer_hora(t.as_str(), "%H:%M"),
        },
    };
    match h {
        Some((seg, frac)) => Ok(Some(seg as u64 * 1_000_000_000 + frac as u64)),
        None => {
            let mut m = a_string("Hora inválida: ");
            m.append(t.as_str());
            m.append(" (use HH:MM o HH:MM:SS)");
            Err(m)
        },
    }
}

/// Vista de un texto opcional.
pub open spec fn opcional_vista(o: Option<String>) -> Option<Seq<char>> {
    match o {
        Some(s) => Some(s@),
        None => None,
    }
}

} // verus!

use fiscal_core::dinero::Monto;
use fiscal_core::ordenes::{
    cambio_programacion, codigo_orden, consumir_material, estado_inicial, estado_tras_editar,
    interpretar_hora, mensaje_conflicto, partir_conflictos, prioridad_orden, rol_tecnico,
    transicionar, validar_bloque, validar_facturacion, validar_material,
    validar_prioridad_opcional, validar_rango_agenda, AccionOrden, AgregarNotaRequest,
    ConflictoAgenda, ErrorOrden, Fecha, AGENDA_MAX_DIAS,
};

const H: u64 = 3_600_000_000_000;
const MIN: u64 = 60_000_000_000;

fn m(mantisa: i128, escala: u32) -> Monto {
    Monto { mantisa, escala }
}

fn conflicto(codigo: &str, inicio: Option<u64>, fin: Option<u64>, tecnico: &str) -> ConflictoAgenda {
    ConflictoAgenda {
        orden_id: 1,
        codigo: codigo.to_string(),
        cliente_nombre: None,
        estado: "PROGRAMADA".to_string(),
        fecha_programada: Fecha { anio: 2025, mes: 3, dia: 7 },
        hora_inicio: inicio,
        hora_fin: fin,
        empleado_id: 9,
        empleado_nombre: tecnico.to_string(),
    }
}

#[test]
fn ciclo_de_vida() {
    assert_eq!(transicionar("BORRADOR", AccionOrden::Iniciar).unwrap(), "EN_PROCESO");
    assert_eq!(transicionar("EN_PROCESO", AccionOrden::Pausar).unwrap(), "PAUSADA");
    assert_eq!(transicionar("PAUSADA", AccionOrden::Completar).unwrap(), "COMPLETADA");
    assert_eq!(transicionar("PROGRAMADA", AccionOrden::Cancelar).unwrap(), "CANCELADA");
    assert_eq!(transicionar("PROGRAMADA", AccionOrden::Pausar), Err(ErrorOrden::TransicionInvalida));
}

#[test]
fn estados_finales_no_cambian() {
    for estado in ["COMPLETADA", "CANCELADA"] {
        for a in [AccionOrden::Iniciar, AccionOrden::Pausar, AccionOrden::Completar, AccionOrden::Cancelar] {
            assert_eq!(transicionar(estado, a), Err(ErrorOrden::TransicionInvalida));
        }
    }
}

#[test]
fn pausar_y_reanudar_vuelve_a_en_proceso() {
    let p = transicionar("EN_PROCESO", AccionOrden::Pausar).unwrap();
    assert_eq!(transicionar(&p, AccionOrden::Iniciar).unwrap(), "EN_PROCESO");
}

#[test]
fn estados_al_crear_y_editar() {
    assert_eq!(estado_inicial(true), "PROGRAMADA");
    assert_eq!(estado_inicial(false), "BORRADOR");
    assert_eq!(estado_tras_editar("BORRADOR", true), "PROGRAMADA");
    assert_eq!(estado_tras_editar("BORRADOR", false), "BORRADOR");
    assert_eq!(estado_tras_editar("EN_PROCESO", true), "EN_PROCESO");
    assert_eq!(validar_facturacion("COMPLETADA"), Ok(()));
    assert_eq!(validar_facturacion("EN_PROCESO"), Err(ErrorOrden::NoCompletada));
}

#[test]
fn prioridades_y_roles() {
    assert_eq!(prioridad_orden(None).unwrap(), "NORMAL");
    assert_eq!(prioridad_orden(Some("URGENTE".to_string())).unwrap(), "URGENTE");
    assert_eq!(prioridad_orden(Some("urgente".to_string())), Err(ErrorOrden::PrioridadInvalida));
    assert_eq!(validar_prioridad_opcional(None), Ok(()));
    assert_eq!(validar_prioridad_opcional(Some("MEDIA")), Err(ErrorOrden::PrioridadInvalida));
    assert_eq!(rol_tecnico(None).unwrap(), "TECNICO_PRINCIPAL");
    assert_eq!(rol_tecnico(Some("ASISTENTE".to_string())).unwrap(), "ASISTENTE");
    assert_eq!(rol_tecnico(Some("JEFE".to_string())), Err(ErrorOrden::RolInvalido));
}

#[test]
fn bloques_y_rangos() {
    assert_eq!(validar_bloque(Some(9 * H), Some(9 * H)), Err(ErrorOrden::BloqueInvalido));
    assert_eq!(validar_bloque(Some(9 * H), Some(10 * H)), Ok(()));
    assert_eq!(validar_bloque(None, Some(1)), Ok(()));
    assert_eq!(validar_rango_agenda(10, 9), Err(ErrorOrden::RangoInvertido));
    assert_eq!(validar_rango_agenda(0, AGENDA_MAX_DIAS - 1), Ok(62));
    assert_eq!(validar_rango_agenda(0, AGENDA_MAX_DIAS), Err(ErrorOrden::RangoExcesivo));
    assert_eq!(validar_rango_agenda(5, 5), Ok(1));
}

#[test]
fn conflictos_duros_y_avisos() {
    let dia = vec![
        conflicto("OS-A", Some(8 * H), Some(10 * H), "Pedro"),
        conflicto("OS-B", Some(10 * H), Some(11 * H), "Pedro"),
        conflicto("OS-C", None, None, "Pedro"),
        conflicto("OS-D", Some(9 * H + 30 * MIN), Some(12 * H), "Pedro"),
    ];
    let (duros, avisos) = partir_conflictos(dia.clone(), Some(9 * H), Some(10 * H));
    let codigos: Vec<String> = duros.iter().map(|c| c.codigo.clone()).collect();
    assert_eq!(codigos, vec!["OS-A", "OS-D"]);
    assert_eq!(avisos.len(), 1);
    assert_eq!(avisos[0].codigo, "OS-C");
    // Sin horas propias todo es aviso.
    let (duros, avisos) = partir_conflictos(dia, None, Some(10 * H));
    assert!(duros.is_empty());
    assert_eq!(avisos.len(), 4);
}

#[test]
fn mensaje_de_conflicto() {
    let c = vec![
        conflicto("OS-A", Some(8 * H), Some(10 * H + 5 * MIN), "Pedro"),
        conflicto("OS-C", None, None, "Pedro"),
    ];
    assert_eq!(
        mensaje_conflicto(&c),
        "Pedro ya tiene trabajo asignado en ese horario: OS-A (Consumidor final, 07/03/2025 — 08:00 a 10:05); OS-C (Consumidor final, 07/03/2025 — sin hora definida). Si aun así quieres agendarlo, confirma el conflicto."
    );
    let varios = vec![conflicto("OS-A", None, None, "Pedro"), conflicto("OS-B", None, None, "Juan")];
    assert!(mensaje_conflicto(&varios).starts_with("Los técnicos asignados ya tiene trabajo asignado"));
}

#[test]
fn cambio_de_programacion() {
    let f = Fecha { anio: 2025, mes: 1, dia: 2 };
    assert!(!cambio_programacion(None, Some(f), None, Some(1), None, Some(2)));
    assert!(!cambio_programacion(Some(f), Some(f), Some(1), Some(1), None, None));
    assert!(cambio_programacion(Some(f), None, None, None, None, None));
    assert!(cambio_programacion(None, None, None, None, Some(3), Some(2)));
}

#[test]
fn codigo_legible() {
    assert_eq!(codigo_orden(0x1a2b3c4d_0000_0000_0000_000000000000), "OS-1A2B3C4D");
    assert_eq!(codigo_orden(0x00000001_ffff_ffff_ffff_ffffffffffff), "OS-00000001");
}

#[test]
fn materiales() {
    assert_eq!(validar_material(m(-1, 0), false), Err(ErrorOrden::CantidadPlanificadaInvalida));
    assert_eq!(validar_material(m(1, 0), true), Err(ErrorOrden::ServicioComoMaterial));
    assert_eq!(validar_material(m(0, 0), false), Ok(()));
    assert_eq!(consumir_material(m(0, 0), "EN_PROCESO", m(1, 0)), Err(ErrorOrden::CantidadNoPositiva));
    assert_eq!(consumir_material(m(1, 0), "COMPLETADA", m(1, 0)), Err(ErrorOrden::OrdenCerrada));
    assert_eq!(consumir_material(m(15, 1), "EN_PROCESO", m(1, 0)), Ok(m(25, 1)));
}

#[test]
fn notas() {
    let n = AgregarNotaRequest { tipo: None, contenido: "Cliente ausente".to_string() };
    assert_eq!(n.validar().unwrap(), "INTERNA");
    let n = AgregarNotaRequest { tipo: Some("CLIENTE".to_string()), contenido: "ok".to_string() };
    assert_eq!(n.validar().unwrap(), "CLIENTE");
    let n = AgregarNotaRequest { tipo: Some("SECRETA".to_string()), contenido: "ok".to_string() };
    assert_eq!(n.validar(), Err(ErrorOrden::TipoNotaInvalido));
    let n = AgregarNotaRequest { tipo: None, contenido: "   ".to_string() };
    assert_eq!(n.validar(), Err(ErrorOrden::NotaVacia));
}

#[test]
fn horas_escritas_a_mano() {
    assert_eq!(interpretar_hora(None), Ok(None));
    assert_eq!(interpretar_hora(Some("   ".to_string())), Ok(None));
    assert_eq!(interpretar_hora(Some(" 08:30 ".to_string())), Ok(Some(8 * H + 30 * MIN)));
    assert_eq!(interpretar_hora(Some("08:30:15".to_string())), Ok(Some(8 * H + 30 * MIN + 15_000_000_000)));
    assert_eq!(
        interpretar_hora(Some("8 y media".to_string())),
        Err("Hora inválida: 8 y media (use HH:MM o HH:MM:SS)".to_string())
    );
}

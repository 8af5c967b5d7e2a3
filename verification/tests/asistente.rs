use fiscal_core::asistente::{
    accion_permitida, acciones_para_rol, anterior, asistente_no_disponible, buscar_marcador_json,
    busqueda_vacia, consulta_pedida, decidir_accion, decidir_herramienta, dias_mes, es_bisiesto,
    formatear_hechos, herramienta_permitida, herramientas_para_rol, interpretar, limite_consulta,
    limpiar_respuesta, lista_acciones, lista_herramientas, mensaje_plantilla, prompt_chat,
    prompt_redaccion, prompt_resumen, resolver_periodo, responder_consulta, texto_caja_estado,
    texto_cliente_info, texto_gastos_periodo, texto_inventario_valor, texto_mas_vendidos,
    texto_producto_info, texto_ventas_periodo, AccionDisponible, Consulta, DecisionAccion,
    FilaCategoria, FilaCliente, FilaProducto, FilaVendido, HerramientaDisponible, Interpretacion,
    ProductoBajoStock, SesionCaja,
};
use fiscal_core::configuracion::{destino_impresora, resultado_prueba, Conexion};
use fiscal_core::dinero::Monto;
use fiscal_core::ordenes::Fecha;

fn m(mantisa: i128, escala: u32) -> Monto {
    Monto { mantisa, escala }
}

fn f(anio: i32, mes: u32, dia: u32) -> Fecha {
    Fecha { anio, mes, dia }
}

// ---- roles ----

#[test]
fn admin_ve_todas_las_acciones_y_herramientas() {
    assert_eq!(acciones_para_rol("ADMIN").len(), 4);
    assert_eq!(herramientas_para_rol("ADMIN").len(), 7);
}

#[test]
fn cada_rol_ve_lo_suyo() {
    assert_eq!(acciones_para_rol("CAJERO"), vec![AccionDisponible::Cliente]);
    assert_eq!(acciones_para_rol("ALMACEN"), vec![AccionDisponible::Producto, AccionDisponible::Proveedor]);
    assert_eq!(
        herramientas_para_rol("ALMACEN"),
        vec![HerramientaDisponible::ProductoInfo, HerramientaDisponible::InventarioValor]
    );
    assert_eq!(herramientas_para_rol("CONTADOR"), vec![HerramientaDisponible::GastosPeriodo]);
    assert!(acciones_para_rol("INVITADO").is_empty());
    assert!(accion_permitida("cliente", &acciones_para_rol("CAJERO")));
    assert!(!accion_permitida("gasto", &acciones_para_rol("CAJERO")));
    assert!(herramienta_permitida("caja_estado", &herramientas_para_rol("CAJERO")));
    assert!(!herramienta_permitida("gastos_periodo", &herramientas_para_rol("CAJERO")));
}

// ---- interpretación ----

#[test]
fn marcador_en_cualquier_posicion() {
    assert_eq!(
        buscar_marcador_json("Claro! ACCION: {\"entidad\": \"cliente\", \"campos\": {\"nombre\": \"Ana\"}} listo", "ACCION:"),
        Some("{\"entidad\": \"cliente\", \"campos\": {\"nombre\": \"Ana\"}}".to_string())
    );
    assert_eq!(buscar_marcador_json("ACCION: sin json", "ACCION:"), None);
    assert_eq!(buscar_marcador_json("} ACCION: {", "ACCION:"), None);
    assert_eq!(buscar_marcador_json("nada", "ACCION:"), None);
}

#[test]
fn interpretacion_de_la_respuesta() {
    match interpretar("  HERRAMIENTA: {\"nombre\": \"caja_estado\"}  ") {
        Interpretacion::Herramienta(j) => assert_eq!(j, "{\"nombre\": \"caja_estado\"}"),
        _ => panic!("se esperaba una herramienta"),
    }
    match interpretar("ACCION: {\"entidad\": \"gasto\"} HERRAMIENTA: {\"nombre\": \"x\"}") {
        Interpretacion::Accion(j) => assert!(j.starts_with("{\"entidad\"")),
        _ => panic!("la acción tiene prioridad"),
    }
    match interpretar("RESPUESTA:   Hola, ¿qué tal?  ") {
        Interpretacion::Respuesta(t) => assert_eq!(t, "Hola, ¿qué tal?"),
        _ => panic!("se esperaba una respuesta"),
    }
    match interpretar("RESPUESTA:") {
        Interpretacion::Respuesta(t) => assert_eq!(t, "¿En qué puedo ayudarte?"),
        _ => panic!("se esperaba una respuesta"),
    }
    assert_eq!(limpiar_respuesta("  RESPUESTA:RESPUESTA: Vendiste 5 "), "Vendiste 5");
    assert_eq!(limpiar_respuesta("RESPUESTA: RESPUESTA: Vendiste 5"), "RESPUESTA: Vendiste 5");
}

#[test]
fn decisiones_sobre_la_respuesta() {
    let acciones = acciones_para_rol("CAJERO");
    match decidir_accion(Some(("cliente".to_string(), true)), &acciones) {
        DecisionAccion::Proponer(e) => assert_eq!(e, "cliente"),
        _ => panic!(),
    }
    match decidir_accion(Some(("cliente".to_string(), false)), &acciones) {
        DecisionAccion::Responder(t) => assert_eq!(t, "No puedo hacer eso desde el chat con tu rol actual."),
        _ => panic!(),
    }
    match decidir_accion(None, &acciones) {
        DecisionAccion::Responder(t) => assert_eq!(t, "No entendí bien esa acción, ¿puedes darme más detalles?"),
        _ => panic!(),
    }
    let h = herramientas_para_rol("CONTADOR");
    assert_eq!(decidir_herramienta(Some("gastos_periodo".to_string()), &h), Ok("gastos_periodo".to_string()));
    assert_eq!(
        decidir_herramienta(Some("caja_estado".to_string()), &h),
        Err("No tengo esa información disponible con tu rol actual.".to_string())
    );
    assert_eq!(
        decidir_herramienta(None, &h),
        Err("No entendí bien esa pregunta, ¿puedes reformularla?".to_string())
    );
}

#[test]
fn consultas_pedidas() {
    match consulta_pedida("productos_mas_vendidos", None, Some(99), None, None).unwrap() {
        Consulta::ProductosMasVendidos(p, l) => assert_eq!((p.as_str(), l), ("hoy", 20)),
        _ => panic!(),
    }
    match consulta_pedida("ventas_periodo", Some("mes".to_string()), None, None, None).unwrap() {
        Consulta::VentasPeriodo(p) => assert_eq!(p, "mes"),
        _ => panic!(),
    }
    match consulta_pedida("cliente_info", None, None, Some("x".to_string()), Some("Ana".to_string())).unwrap() {
        Consulta::ClienteInfo(q) => assert_eq!(q, "Ana"),
        _ => panic!(),
    }
    assert!(matches!(consulta_pedida("caja_estado", None, None, None, None), Ok(Consulta::CajaEstado)));
    assert_eq!(consulta_pedida("borrar_todo", None, None, None, None).err(), Some("Herramienta desconocida: borrar_todo".to_string()));
    assert_eq!(limite_consulta(None), 5);
    assert_eq!(limite_consulta(Some(0)), 1);
    assert_eq!(limite_consulta(Some(7)), 7);
}

#[test]
fn respuestas_finales_de_consulta() {
    assert_eq!(responder_consulta(None, None), "No pude consultar esa información en este momento.");
    assert_eq!(responder_consulta(Some("datos".to_string()), None), "datos");
    assert_eq!(responder_consulta(Some("datos".to_string()), Some(" RESPUESTA: Listo ".to_string())), "Listo");
    assert_eq!(asistente_no_disponible(), "El asistente no está disponible en este momento. Intenta de nuevo en un momento.");
}

#[test]
fn instrucciones_al_modelo() {
    let la = lista_acciones(&vec![AccionDisponible::Gasto]);
    assert_eq!(la, "- gasto: campos {concepto, categoria (ALQUILER|SERVICIOS|TRANSPORTE|OTROS), monto}");
    let lh = lista_herramientas(&vec![HerramientaDisponible::CajaEstado, HerramientaDisponible::ClienteInfo]);
    assert_eq!(lh, "- caja_estado: parámetros (ninguno)\n- cliente_info: parámetros nombre (texto a buscar)");
    assert_eq!(lista_acciones(&vec![]), "Ninguna - este usuario no puede crear registros por este chat.");
    let p = prompt_chat(&lh, &la, "¿cuánto vendí?");
    assert!(p.starts_with("Eres el asistente de Colmado POS, un sistema de punto de venta dominicano. Respondes en español dominicano"));
    assert!(p.contains("SOLO estas:\n- caja_estado"));
    assert!(p.contains("HERRAMIENTA: {\"nombre\": \"...\", \"parametros\": {...}}"));
    assert!(p.ends_with("Mensaje del usuario: ¿cuánto vendí?"));
    assert_eq!(
        prompt_redaccion("¿y hoy?", "Total 5"),
        "Pregunta del usuario: ¿y hoy?\nDatos reales obtenidos: Total 5\nResponde de forma breve y natural en español dominicano usando SOLO estos datos, sin inventar nada adicional."
    );
    assert!(prompt_resumen("X").ends_with("usa exactamente los que te doy.\n\nDatos: X"));
}

// ---- resumen diario ----

#[test]
fn hechos_y_plantilla() {
    let productos = vec![
        ProductoBajoStock { nombre: "Arroz".to_string(), stock_actual: m(2, 0), stock_minimo: m(10, 0) },
        ProductoBajoStock { nombre: "Aceite".to_string(), stock_actual: m(5, 1), stock_minimo: m(3, 0) },
    ];
    assert_eq!(
        formatear_hechos(&productos, m(150050, 2), true),
        "Ventas de hoy: RD$1500.50. Caja: abierta. Productos con stock bajo: Arroz (2 de 10), Aceite (0.5 de 3)."
    );
    assert_eq!(
        formatear_hechos(&vec![], m(0, 0), false),
        "Ventas de hoy: RD$0. Caja: cerrada. Ningún producto está bajo su mínimo de stock."
    );
    assert_eq!(
        mensaje_plantilla(&productos, m(150050, 2), false),
        "Hoy llevas RD$1500.50 en ventas. La caja está cerrada. Se te está acabando: Arroz, Aceite."
    );
    assert_eq!(mensaje_plantilla(&vec![], m(7, 0), true), "Hoy llevas RD$7 en ventas.");
}

// ---- periodos ----

#[test]
fn calendario() {
    assert!(es_bisiesto(2024));
    assert!(!es_bisiesto(1900));
    assert!(es_bisiesto(2000));
    assert!(es_bisiesto(-4));
    assert_eq!(dias_mes(2024, 2), 29);
    assert_eq!(dias_mes(2023, 2), 28);
    assert_eq!(dias_mes(2023, 4), 30);
    assert_eq!(anterior(f(2024, 3, 1)), f(2024, 2, 29));
    assert_eq!(anterior(f(2025, 1, 1)), f(2024, 12, 31));
}

#[test]
fn periodos_con_nombre() {
    let hoy = f(2025, 3, 3);
    assert_eq!(resolver_periodo("hoy", hoy), (hoy, None));
    assert_eq!(resolver_periodo("ayer", hoy), (f(2025, 3, 2), Some(hoy)));
    assert_eq!(resolver_periodo("semana", hoy), (f(2025, 2, 24), None));
    assert_eq!(resolver_periodo("mes", hoy), (f(2025, 3, 1), None));
    assert_eq!(resolver_periodo("mes_pasado", hoy), (f(2025, 2, 1), Some(f(2025, 3, 1))));
    assert_eq!(resolver_periodo("mes_pasado", f(2025, 1, 15)), (f(2024, 12, 1), Some(f(2025, 1, 1))));
    assert_eq!(resolver_periodo("trimestre", hoy), (hoy, None));
}

// ---- respuestas de las herramientas ----

#[test]
fn textos_de_las_herramientas() {
    assert_eq!(
        texto_ventas_periodo("mes", Some(m(125000, 2)), 3),
        "Periodo consultado: mes. Total vendido: RD$1250.00. Cantidad de ventas: 3."
    );
    assert_eq!(texto_ventas_periodo("hoy", None, 0), "Periodo consultado: hoy. Total vendido: RD$0. Cantidad de ventas: 0.");
    let filas = vec![
        FilaVendido { nombre: "Arroz".to_string(), cantidad: m(12, 0), monto: m(66000, 2) },
        FilaVendido { nombre: "Café".to_string(), cantidad: m(3, 0), monto: m(450, 0) },
    ];
    assert_eq!(
        texto_mas_vendidos("semana", &filas),
        "Productos más vendidos (semana): Arroz (12 unidades, RD$660.00), Café (3 unidades, RD$450)."
    );
    assert_eq!(texto_mas_vendidos("ayer", &vec![]), "No hubo ventas registradas en el periodo 'ayer'.");
    let p = FilaProducto { nombre: "Arroz".to_string(), sku: "A1".to_string(), stock_actual: m(4, 0), stock_minimo: m(10, 0), precio: m(5500, 2) };
    assert_eq!(
        texto_producto_info("arroz", &Some(p)),
        "Arroz (SKU A1): stock actual 4, stock mínimo 10, precio de venta RD$55.00."
    );
    assert_eq!(texto_producto_info("  ", &None), "No se especificó qué producto buscar.");
    assert!(busqueda_vacia(" \t"));
    assert_eq!(texto_producto_info("zzz", &None), "No se encontró ningún producto activo que coincida con 'zzz'.");
    let g = vec![FilaCategoria { categoria: "ALQUILER".to_string(), monto: m(15000, 0) }];
    assert_eq!(
        texto_gastos_periodo("mes", Some(m(15000, 0)), &g),
        "Gastos (mes): total RD$15000. Por categoría: ALQUILER: RD$15000."
    );
    assert_eq!(
        texto_gastos_periodo("hoy", None, &vec![]),
        "Gastos (hoy): total RD$0. Por categoría: sin gastos registrados en el periodo."
    );
    let c = FilaCliente { nombre: "Ana".to_string(), saldo: m(300, 0), limite: m(1000, 0), telefono: Some("809-555-0000".to_string()) };
    assert_eq!(
        texto_cliente_info("ana", &Some(c)),
        "Ana: saldo fiado pendiente RD$300, límite de crédito RD$1000, teléfono 809-555-0000."
    );
    let c = FilaCliente { nombre: "Luis".to_string(), saldo: m(0, 0), limite: m(0, 0), telefono: None };
    assert_eq!(texto_cliente_info("luis", &Some(c)), "Luis: saldo fiado pendiente RD$0, límite de crédito RD$0.");
    let s = SesionCaja { monto_inicial: m(1000, 0), abierta_desde: "03/03/2025 08:00".to_string(), ingresos: Some(m(500, 0)), egresos: None };
    assert_eq!(
        texto_caja_estado(&Some(s)).unwrap(),
        "La caja está abierta desde 03/03/2025 08:00. Monto inicial RD$1000, saldo actual estimado RD$1500."
    );
    assert_eq!(texto_caja_estado(&None).unwrap(), "La caja está cerrada actualmente.");
    assert_eq!(
        texto_inventario_valor(Some(m(9999, 1)), 2),
        "Valor total del inventario: RD$999.9. Productos bajo el mínimo de stock: 2."
    );
}

// ---- impresora ----

#[test]
fn prueba_de_impresora() {
    assert_eq!(destino_impresora(&Some("192.168.1.50".to_string()), 9100), Some("192.168.1.50:9100".to_string()));
    assert_eq!(destino_impresora(&Some("   ".to_string()), 9100), None);
    assert_eq!(destino_impresora(&None, 9100), None);
    let d = Some("10.0.0.2:9100".to_string());
    let r = resultado_prueba(&d, Conexion::Exitosa);
    assert!(r.alcanzable);
    assert_eq!(r.mensaje, "Conexión exitosa a 10.0.0.2:9100");
    let r = resultado_prueba(&d, Conexion::Fallida("connection refused".to_string()));
    assert!(!r.alcanzable);
    assert_eq!(r.mensaje, "No se pudo conectar a 10.0.0.2:9100: connection refused");
    assert_eq!(resultado_prueba(&d, Conexion::Agotada).mensaje, "Tiempo de espera agotado conectando a 10.0.0.2:9100");
    assert_eq!(resultado_prueba(&None, Conexion::Exitosa).mensaje, "No hay IP configurada");
}

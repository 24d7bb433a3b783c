use gestor_tareas::comando::{ejecutar, interpretar, Comando, ErrorComando, Resultado};
use gestor_tareas::estado::EstadoTarea;
use gestor_tareas::gestor::GestorTareas;
use gestor_tareas::tarea::{RegistroTarea, Tarea};
use gestor_tareas::texto::{analizar_id, iguales};

fn palabras(ws: &[&str]) -> Vec<String> {
    ws.iter().map(|w| w.to_string()).collect()
}

fn resumen(g: &GestorTareas) -> Vec<(u32, String, EstadoTarea)> {
    let mut v: Vec<(u32, String, EstadoTarea)> = g
        .listar_todas()
        .iter()
        .map(|t| (t.id, t.descripcion.clone(), t.estado))
        .collect();
    v.sort_by_key(|t| t.0);
    v
}

fn ids(ts: &[&Tarea]) -> Vec<u32> {
    let mut v: Vec<u32> = ts.iter().map(|t| t.id).collect();
    v.sort();
    v
}

fn tienda_de_ejemplo() -> GestorTareas {
    let mut g = GestorTareas::new("tareas.json");
    assert_eq!(g.agregar_tarea("buy milk".to_string()), 1);
    assert_eq!(g.agregar_tarea("walk dog".to_string()), 2);
    assert!(g.eliminar_tarea(1));
    assert_eq!(g.agregar_tarea("feed cat".to_string()), 3);
    g
}

fn correr(g: &mut GestorTareas, ws: &[&str]) -> Resultado {
    let c = interpretar(&palabras(ws)).expect("a valid command");
    ejecutar(g, c)
}

#[test]
fn escenario_agregar_eliminar_agregar() {
    let g = tienda_de_ejemplo();
    assert_eq!(
        resumen(&g),
        vec![
            (2, "walk dog".to_string(), EstadoTarea::Pendiente),
            (3, "feed cat".to_string(), EstadoTarea::Pendiente),
        ]
    );
}

#[test]
fn escenario_estado_completada() {
    let mut g = tienda_de_ejemplo();
    match correr(&mut g, &["estado", "2", "completada"]) {
        Resultado::EstadoCambiado(id, palabra) => {
            assert_eq!(id, 2);
            assert_eq!(palabra, "completada");
        }
        otro => panic!("unexpected {:?}", otro),
    }
    assert_eq!(
        resumen(&g),
        vec![
            (2, "walk dog".to_string(), EstadoTarea::Completada),
            (3, "feed cat".to_string(), EstadoTarea::Pendiente),
        ]
    );
    match correr(&mut g, &["listar-completadas"]) {
        Resultado::Lista(filtro, ts) => {
            assert_eq!(filtro, Some(EstadoTarea::Completada));
            assert_eq!(ts.len(), 1);
            assert_eq!(ts[0].id, 2);
            assert_eq!(ts[0].descripcion, "walk dog");
        }
        otro => panic!("unexpected {:?}", otro),
    }
}

#[test]
fn escenario_actualizar_inexistente() {
    let mut g = tienda_de_ejemplo();
    let antes = g.guardar_texto();
    let resumen_antes = resumen(&g);
    match correr(&mut g, &["actualizar", "99", "new", "text"]) {
        Resultado::NoEncontrada(id) => assert_eq!(id, 99),
        otro => panic!("unexpected {:?}", otro),
    }
    assert_eq!(resumen(&g), resumen_antes);
    let despues = g.guardar_texto();
    assert_eq!(antes, despues);
}

#[test]
fn ids_crecen_aunque_se_elimine() {
    let mut g = GestorTareas::new("x.json");
    let mut vistos = Vec::new();
    for i in 0..6 {
        let id = g.agregar_tarea(format!("t{}", i));
        vistos.push(id);
        if i % 2 == 0 {
            assert!(g.eliminar_tarea(id));
        }
    }
    assert_eq!(vistos, vec![1, 2, 3, 4, 5, 6]);
    assert!(!g.eliminar_tarea(1));
    assert_eq!(g.agregar_tarea("otra".to_string()), 7);
}

#[test]
fn guardar_y_cargar_conserva_tareas() {
    let mut g = tienda_de_ejemplo();
    assert!(g.cambiar_estado(2, EstadoTarea::EnProgreso));
    assert!(g.actualizar_tarea(3, "feed the cat".to_string()));
    let texto = g.guardar_texto();
    assert!(texto.contains("\"En Progreso\""));
    let mut h = GestorTareas::new("tareas.json");
    assert!(h.cargar_texto(&texto).is_ok());
    assert_eq!(resumen(&h), resumen(&g));
    assert_eq!(h.agregar_tarea("nueva".to_string()), 4);
}

#[test]
fn actualizar_inexistente_no_cambia_cantidad() {
    let mut g = tienda_de_ejemplo();
    assert!(!g.actualizar_tarea(1, "x".to_string()));
    assert_eq!(g.listar_todas().len(), 2);
    assert!(g.actualizar_tarea(2, "".to_string()));
    assert_eq!(resumen(&g)[0], (2, "".to_string(), EstadoTarea::Pendiente));
}

#[test]
fn cambiar_estado_dos_veces() {
    let mut g = tienda_de_ejemplo();
    assert!(g.cambiar_estado(3, EstadoTarea::Completada));
    let una = resumen(&g);
    assert!(g.cambiar_estado(3, EstadoTarea::Completada));
    assert_eq!(resumen(&g), una);
    assert!(!g.cambiar_estado(1, EstadoTarea::Completada));
}

#[test]
fn listas_por_estado_particionan() {
    let mut g = GestorTareas::new("x.json");
    for i in 0..5 {
        g.agregar_tarea(format!("t{}", i));
    }
    g.cambiar_estado(1, EstadoTarea::EnProgreso);
    g.cambiar_estado(4, EstadoTarea::Completada);
    g.cambiar_estado(5, EstadoTarea::EnProgreso);
    assert_eq!(ids(&g.listar_por_estado(EstadoTarea::Pendiente)), vec![2, 3]);
    assert_eq!(ids(&g.listar_por_estado(EstadoTarea::EnProgreso)), vec![1, 5]);
    assert_eq!(ids(&g.listar_por_estado(EstadoTarea::Completada)), vec![4]);
    assert_eq!(ids(&g.listar_todas()), vec![1, 2, 3, 4, 5]);
}

#[test]
fn listas_de_tienda_vacia() {
    let g = GestorTareas::new("x.json");
    assert!(g.listar_todas().is_empty());
    assert!(g.listar_por_estado(EstadoTarea::Pendiente).is_empty());
    assert_eq!(g.ruta_archivo(), "x.json");
}

#[test]
fn estado_desde_palabra() {
    assert_eq!(EstadoTarea::from_str("pendiente"), Some(EstadoTarea::Pendiente));
    assert_eq!(EstadoTarea::from_str("PENDIENTE"), Some(EstadoTarea::Pendiente));
    assert_eq!(EstadoTarea::from_str("EnProgreso"), Some(EstadoTarea::EnProgreso));
    assert_eq!(EstadoTarea::from_str("Completada"), Some(EstadoTarea::Completada));
    assert_eq!(EstadoTarea::from_str("en progreso"), None);
    assert_eq!(EstadoTarea::from_str("completed"), None);
    assert_eq!(EstadoTarea::from_str("pend"), None);
    assert_eq!(EstadoTarea::desde_minusculas("PENDIENTE"), None);
}

#[test]
fn estado_nombres() {
    assert_eq!(EstadoTarea::Pendiente.to_string(), "Pendiente");
    assert_eq!(EstadoTarea::EnProgreso.to_string(), "En Progreso");
    assert_eq!(EstadoTarea::Completada.to_string(), "Completada");
}

#[test]
fn estado_guardado_acepta_nombres_y_palabras() {
    assert_eq!(EstadoTarea::desde_guardado("En Progreso"), Some(EstadoTarea::EnProgreso));
    assert_eq!(EstadoTarea::desde_guardado("Pendiente"), Some(EstadoTarea::Pendiente));
    assert_eq!(EstadoTarea::desde_guardado("enprogreso"), Some(EstadoTarea::EnProgreso));
    assert_eq!(EstadoTarea::desde_guardado("COMPLETADA"), Some(EstadoTarea::Completada));
    assert_eq!(EstadoTarea::desde_guardado("en progreso"), None);
}

#[test]
fn ids_decimales() {
    assert_eq!(analizar_id("42"), Some(42));
    assert_eq!(analizar_id("+7"), Some(7));
    assert_eq!(analizar_id("007"), Some(7));
    assert_eq!(analizar_id("0"), Some(0));
    assert_eq!(analizar_id("4294967295"), Some(4294967295));
    assert_eq!(analizar_id("4294967296"), None);
    assert_eq!(analizar_id("99999999999999999999"), None);
    assert_eq!(analizar_id(""), None);
    assert_eq!(analizar_id("+"), None);
    assert_eq!(analizar_id("-1"), None);
    assert_eq!(analizar_id("1a"), None);
    assert_eq!(analizar_id(" 1"), None);
}

#[test]
fn comparar_textos() {
    assert!(iguales("abc", "abc"));
    assert!(!iguales("abc", "abd"));
    assert!(!iguales("abc", "ab"));
    assert!(iguales("", ""));
}

#[test]
fn interpretar_comandos_validos() {
    match interpretar(&palabras(&["agregar", "buy", "milk"])) {
        Ok(Comando::Agregar(d)) => assert_eq!(d, "buy milk"),
        otro => panic!("unexpected {:?}", otro),
    }
    match interpretar(&palabras(&["actualizar", "3", "a", "b", "c"])) {
        Ok(Comando::Actualizar(id, d)) => {
            assert_eq!(id, 3);
            assert_eq!(d, "a b c");
        }
        otro => panic!("unexpected {:?}", otro),
    }
    assert!(matches!(interpretar(&palabras(&["eliminar", "8"])), Ok(Comando::Eliminar(8))));
    match interpretar(&palabras(&["estado", "2", "EnProgreso"])) {
        Ok(Comando::Estado(id, e, p)) => {
            assert_eq!(id, 2);
            assert_eq!(e, EstadoTarea::EnProgreso);
            assert_eq!(p, "EnProgreso");
        }
        otro => panic!("unexpected {:?}", otro),
    }
    assert!(matches!(interpretar(&palabras(&["listar"])), Ok(Comando::Listar)));
    assert!(matches!(interpretar(&palabras(&["listar-pendientes"])), Ok(Comando::ListarPendientes)));
    assert!(matches!(interpretar(&palabras(&["listar-enprogreso"])), Ok(Comando::ListarEnProgreso)));
    assert!(matches!(interpretar(&palabras(&["listar-completadas"])), Ok(Comando::ListarCompletadas)));
}

#[test]
fn interpretar_errores() {
    let casos: Vec<(Vec<&str>, ErrorComando)> = vec![
        (vec![], ErrorComando::SinComando),
        (vec!["agregar"], ErrorComando::FaltaDescripcion),
        (vec!["actualizar", "1"], ErrorComando::FaltaIdODescripcion),
        (vec!["actualizar", "x", "d"], ErrorComando::IdInvalido),
        (vec!["eliminar"], ErrorComando::FaltaIdAEliminar),
        (vec!["eliminar", "-3"], ErrorComando::IdInvalido),
        (vec!["estado", "1"], ErrorComando::FaltaIdOEstado),
        (vec!["estado", "uno", "pendiente"], ErrorComando::IdInvalido),
        (vec!["estado", "1", "hecha"], ErrorComando::EstadoInvalido),
        (vec!["borrar", "1"], ErrorComando::ComandoDesconocido),
        (vec!["Agregar", "x"], ErrorComando::ComandoDesconocido),
    ];
    for (ws, esperado) in casos {
        match interpretar(&palabras(&ws)) {
            Err(e) => assert_eq!(e, esperado, "{:?}", ws),
            Ok(c) => panic!("unexpected {:?} for {:?}", c, ws),
        }
    }
}

#[test]
fn ejecutar_reporta_cada_caso() {
    let mut g = GestorTareas::new("x.json");
    assert!(matches!(correr(&mut g, &["agregar", "a"]), Resultado::Agregada(1)));
    assert!(matches!(correr(&mut g, &["actualizar", "1", "b"]), Resultado::Actualizada(1)));
    assert!(matches!(correr(&mut g, &["eliminar", "2"]), Resultado::NoEncontrada(2)));
    assert!(matches!(correr(&mut g, &["estado", "5", "pendiente"]), Resultado::NoEncontrada(5)));
    assert!(matches!(correr(&mut g, &["eliminar", "1"]), Resultado::Eliminada(1)));
    match correr(&mut g, &["listar"]) {
        Resultado::Lista(None, ts) => assert!(ts.is_empty()),
        otro => panic!("unexpected {:?}", otro),
    }
}

#[test]
fn cargar_texto_invalido_no_cambia_nada() {
    let mut g = tienda_de_ejemplo();
    let r = g.cargar_texto("{ not json");
    match r {
        Err(e) => assert!(!e.mensaje.is_empty()),
        Ok(()) => panic!("expected an error"),
    }
    assert_eq!(resumen(&g).len(), 2);
}

#[test]
fn cargar_texto_que_no_es_lista() {
    let mut g = GestorTareas::new("x.json");
    assert!(g.cargar_texto("{\"id\": 1}").is_ok());
    assert!(g.listar_todas().is_empty());
    assert_eq!(g.agregar_tarea("a".to_string()), 1);
}

#[test]
fn cargar_texto_salta_registros_malos() {
    let mut g = GestorTareas::new("x.json");
    let texto = r#"[
        {"id": 5, "descripcion": "cinco", "estado": "pendiente"},
        {"id": 6, "descripcion": "seis"},
        {"id": 7, "descripcion": "siete", "estado": "hecha"},
        {"descripcion": "sin id", "estado": "Completada"},
        {"id": 2, "descripcion": "dos", "estado": "En Progreso"},
        {"id": "9", "descripcion": "texto", "estado": "pendiente"},
        3
    ]"#;
    assert!(g.cargar_texto(texto).is_ok());
    assert_eq!(
        resumen(&g),
        vec![
            (2, "dos".to_string(), EstadoTarea::EnProgreso),
            (5, "cinco".to_string(), EstadoTarea::Pendiente),
        ]
    );
    assert_eq!(g.agregar_tarea("nueva".to_string()), 6);
}

#[test]
fn cargar_registros_repetidos_gana_el_ultimo() {
    let mut g = GestorTareas::new("x.json");
    let registros = vec![
        RegistroTarea {
            id: Some(3),
            descripcion: Some("a".to_string()),
            estado: Some("pendiente".to_string()),
        },
        RegistroTarea {
            id: Some(3),
            descripcion: Some("b".to_string()),
            estado: Some("Completada".to_string()),
        },
        RegistroTarea { id: Some(8), descripcion: None, estado: Some("pendiente".to_string()) },
    ];
    g.cargar_registros(&registros);
    assert_eq!(resumen(&g), vec![(3, "b".to_string(), EstadoTarea::Completada)]);
    assert_eq!(g.agregar_tarea("c".to_string()), 4);
}

#[test]
fn id_mas_alto_agota_los_ids() {
    let mut g = GestorTareas::new("x.json");
    assert!(g.hay_id_libre());
    assert!(g
        .cargar_texto(r#"[{"id": 4294967295, "descripcion": "ultima", "estado": "pendiente"}]"#)
        .is_ok());
    assert!(!g.hay_id_libre());
    assert!(matches!(correr(&mut g, &["agregar", "otra"]), Resultado::SinIdLibre));
    assert_eq!(g.listar_todas().len(), 1);
}

#[test]
fn registro_de_tarea_y_vuelta() {
    let t = Tarea::new(9, "nueve".to_string());
    assert_eq!(t.estado, EstadoTarea::Pendiente);
    let r = t.to_json();
    assert_eq!(r.id, Some(9));
    assert_eq!(r.estado.as_deref(), Some("Pendiente"));
    let u = Tarea::desde_registro(&r).expect("a task");
    assert_eq!((u.id, u.descripcion.as_str(), u.estado), (9, "nueve", EstadoTarea::Pendiente));
    let copia = u.copia();
    assert_eq!(copia.descripcion, "nueve");
}

#[test]
fn tarea_desde_json() {
    let v: serde_json::Value =
        serde_json::from_str(r#"{"id": 4, "descripcion": "cuatro", "estado": "En Progreso"}"#)
            .expect("json");
    let r = RegistroTarea::from_json(&v);
    assert_eq!(r.id, Some(4));
    assert_eq!(r.descripcion.as_deref(), Some("cuatro"));
    assert_eq!(r.estado.as_deref(), Some("En Progreso"));
    let t = Tarea::from_json(&v).expect("a task");
    assert_eq!((t.id, t.descripcion.as_str(), t.estado), (4, "cuatro", EstadoTarea::EnProgreso));
    let otro: serde_json::Value = serde_json::from_str(r#"{"id": 4, "descripcion": 5}"#).expect("json");
    let r = RegistroTarea::from_json(&otro);
    assert_eq!((r.id, r.descripcion, r.estado), (Some(4), None, None));
    assert!(Tarea::from_json(&otro).is_none());
}

#[test]
fn guardar_texto_un_objeto_por_tarea() {
    let mut g = tienda_de_ejemplo();
    assert!(g.cambiar_estado(2, EstadoTarea::EnProgreso));
    let texto = g.guardar_texto();
    let v: serde_json::Value = serde_json::from_str(&texto).expect("json");
    let elementos = v.as_array().expect("an array");
    assert_eq!(elementos.len(), 2);
    let mut vistos: Vec<(u64, String, String)> = elementos
        .iter()
        .map(|e| {
            (
                e["id"].as_u64().unwrap(),
                e["descripcion"].as_str().unwrap().to_string(),
                e["estado"].as_str().unwrap().to_string(),
            )
        })
        .collect();
    vistos.sort();
    assert_eq!(
        vistos,
        vec![
            (2, "walk dog".to_string(), "En Progreso".to_string()),
            (3, "feed cat".to_string(), "Pendiente".to_string()),
        ]
    );
    assert_eq!(GestorTareas::new("x.json").guardar_texto(), "[]");
}

#[test]
fn ids_fuera_de_rango_se_saltan() {
    let mut g = tienda_de_ejemplo();
    let texto = r#"[
        {"id": 4294967298, "descripcion": "grande", "estado": "pendiente"},
        {"id": 0, "descripcion": "cero", "estado": "pendiente"}
    ]"#;
    assert!(g.cargar_texto(texto).is_ok());
    assert_eq!(
        resumen(&g),
        vec![
            (2, "walk dog".to_string(), EstadoTarea::Pendiente),
            (3, "feed cat".to_string(), EstadoTarea::Pendiente),
        ]
    );
    assert_eq!(g.agregar_tarea("otra".to_string()), 4);
}

#[test]
fn json_que_no_es_lista_no_cambia_nada() {
    let mut g = tienda_de_ejemplo();
    assert!(g.cargar_texto("{}").is_ok());
    assert!(g.cargar_texto("5").is_ok());
    assert_eq!(resumen(&g).len(), 2);
    assert_eq!(g.agregar_tarea("otra".to_string()), 4);
}

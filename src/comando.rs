//! The command layer: the words of a command line read as one operation on
//! the store, and the operation carried out.

use vstd::prelude::*;
use crate::estado::{EstadoTarea, estado_de_palabra};
use crate::gestor::{GestorTareas, ids_de, ids_de_copias};
use crate::tarea::Tarea;
use crate::texto::{analizar_id, id_decimal, iguales, minusculas_de};

verus! {

/// One operation that a command line asks for.
#[derive(Debug)]
pub enum Comando {
    /// `agregar <descripcion...>`
    Agregar(String),
    /// `actualizar <id> <descripcion...>`
    Actualizar(u32, String),
    /// `eliminar <id>`
    Eliminar(u32),
    /// `estado <id> <estado>`, with the state word as it was typed.
    Estado(u32, EstadoTarea, String),
    /// `listar`
    Listar,
    /// `listar-pendientes`
    ListarPendientes,
    /// `listar-enprogreso`
    ListarEnProgreso,
    /// `listar-completadas`
    ListarCompletadas,
}

/// A command, as mathematical values.
pub enum VistaComando {
    Agregar(Seq<char>),
    Actualizar(u32, Seq<char>),
    Eliminar(u32),
    Estado(u32, EstadoTarea, Seq<char>),
    Listar,
    ListarPendientes,
    ListarEnProgreso,
    ListarCompletadas,
}

impl View for Comando {
    type V = VistaComando;

    open spec fn view(&self) -> VistaComando {
        match self {
            Comando::Agregar(d) => VistaComando::Agregar(d@),
            Comando::Actualizar(id, d) => VistaComando::Actualizar(*id, d@),
            Comando::Eliminar(id) => VistaComando::Eliminar(*id),
            Comando::Estado(id, e, p) => VistaComando::Estado(*id, *e, p@),
            Comando::Listar => VistaComando::Listar,
            Comando::ListarPendientes => VistaComando::ListarPendientes,
            Comando::ListarEnProgreso => VistaComando::ListarEnProgreso,
            Comando::ListarCompletadas => VistaComando::ListarCompletadas,
        }
    }
}

/// Why a command line asks for no operation.
#[derive(Clone, Copy, Debug, PartialEq, Eq, Structural)]
pub enum ErrorComando {
    /// No word at all.
    SinComando,
    /// `agregar` without a description.
    FaltaDescripcion,
    /// `actualizar` without an identifier or a description.
    FaltaIdODescripcion,
    /// `eliminar` without an identifier.
    FaltaIdAEliminar,
    /// `estado` without an identifier or a state.
    FaltaIdOEstado,
    /// An identifier that is not a `u32` written in decimal.
    IdInvalido,
    /// A word that names no state.
    EstadoInvalido,
    /// A first word that names no command.
    ComandoDesconocido,
}

/// Words joined with one space between each two.
pub open spec fn unir(ws: Seq<Seq<char>>) -> Seq<char>
    decreases ws.len(),
{
    if ws.len() == 0 {
        Seq::empty()
    } else if ws.len() == 1 {
        ws[0]
    } else {
        unir(ws.drop_last()) + " "@ + ws.last()
    }
}

/// The characters of each string.
pub open spec fn vistas(a: Seq<String>) -> Seq<Seq<char>> {
    a.map_values(|s: String| s@)
}

/// The operation that the words after the program's name ask for.
pub open spec fn interpretacion(a: Seq<Seq<char>>) -> Result<VistaComando, ErrorComando> {
    if a.len() == 0 {
        Err(ErrorComando::SinComando)
    } else if a[0] == "agregar"@ {
        if a.len() < 2 {
            Err(ErrorComando::FaltaDescripcion)
        } else {
            Ok(VistaComando::Agregar(unir(a.subrange(1, a.len() as int))))
        }
    } else if a[0] == "actualizar"@ {
        if a.len() < 3 {
            Err(ErrorComando::FaltaIdODescripcion)
        } else if id_decimal(a[1]) is None {
            Err(ErrorComando::IdInvalido)
        } else {
            Ok(VistaComando::Actualizar(id_decimal(a[1])->0, unir(a.subrange(2, a.len() as int))))
        }
    } else if a[0] == "eliminar"@ {
        if a.len() < 2 {
            Err(ErrorComando::FaltaIdAEliminar)
        } else if id_decimal(a[1]) is None {
            Err(ErrorComando::IdInvalido)
        } else {
            Ok(VistaComando::Eliminar(id_decimal(a[1])->0))
        }
    } else if a[0] == "estado"@ {
        if a.len() < 3 {
            Err(ErrorComando::FaltaIdOEstado)
        } else if id_decimal(a[1]) is None {
            Err(ErrorComando::IdInvalido)
        } else if estado_de_palabra(minusculas_de(a[2])) is None {
            Err(ErrorComando::EstadoInvalido)
        } else {
            Ok(VistaComando::Estado(id_decimal(a[1])->0, estado_de_palabra(minusculas_de(a[2]))->0, a[2]))
        }
    } else if a[0] == "listar"@ {
        Ok(VistaComando::Listar)
    } else if a[0] == "listar-pendientes"@ {
        Ok(VistaComando::ListarPendientes)
    } else if a[0] == "listar-enprogreso"@ {
        Ok(VistaComando::ListarEnProgreso)
    } else if a[0] == "listar-completadas"@ {
        Ok(VistaComando::ListarCompletadas)
    } else {
        Err(ErrorComando::ComandoDesconocido)
    }
}

/// The words from `desde` on, joined with one space between each two.
fn unir_desde(args: &Vec<String>, desde: usize) -> (r: String)
    requires
        desde < args.len(),
    ensures
        r@ == unir(vistas(args@).subrange(desde as int, args.len() as int)),
{
    let ghost ws = vistas(args@).subrange(desde as int, args.len() as int);
    let mut r = args[desde].clone();
    let mut i: usize = desde + 1;
    assert(ws.take(1) =~= seq![ws[0]]);
    while i < args.len()
        invariant
            desde < i <= args.len(),
            ws == vistas(args@).subrange(desde as int, args.len() as int),
            r@ == unir(ws.take(i - desde)),
        decreases args.len() - i,
    {
        assert(ws.take(i + 1 - desde).drop_last() =~= ws.take(i - desde));
        r.append(" ");
        r.append(args[i].as_str());
        i = i + 1;
    }
    assert(ws.take(i - desde) =~= ws);
    r
}

/// Reads the words after the program's name as an operation.
pub fn interpretar(args: &Vec<String>) -> (r: Result<Comando, ErrorComando>)
    ensures
        match r {
            Ok(c) => interpretacion(vistas(args@)) == Ok::<VistaComando, ErrorComando>(c@),
            Err(e) => interpretacion(vistas(args@)) == Err::<VistaComando, ErrorComando>(e),
        },
{
    let ghost a = vistas(args@);
    let n = args.len();
    if n == 0 {
        return Err(ErrorComando::SinComando);
    }
    let orden = args[0].as_str();
    assert(a[0] == orden@);
    if iguales(orden, "agregar") {
        if n < 2 {
            Err(ErrorComando::FaltaDescripcion)
        } else {
            Ok(Comando::Agregar(unir_desde(args, 1)))
        }
    } else if iguales(orden, "actualizar") {
        if n < 3 {
            return Err(ErrorComando::FaltaIdODescripcion);
        }
        assert(a[1] == args[1]@);
        match analizar_id(args[1].as_str()) {
            Some(id) => Ok(Comando::Actualizar(id, unir_desde(args, 2))),
            None => Err(ErrorComando::IdInvalido),
        }
    } else if iguales(orden, "eliminar") {
        if n < 2 {
            return Err(ErrorComando::FaltaIdAEliminar);
        }
        assert(a[1] == args[1]@);
        match analizar_id(args[1].as_str()) {
            Some(id) => Ok(Comando::Eliminar(id)),
            None => Err(ErrorComando::IdInvalido),
        }
    } else if iguales(orden, "estado") {
        if n < 3 {
            return Err(ErrorComando::FaltaIdOEstado);
        }
        assert(a[1] == args[1]@);
        assert(a[2] == args[2]@);
        let id = match analizar_id(args[1].as_str()) {
            Some(id) => id,
            None => return Err(ErrorComando::IdInvalido),
        };
        match EstadoTarea::from_str(args[2].as_str()) {
            Some(e) => Ok(Comando::Estado(id, e, args[2].clone())),
            None => Err(ErrorComando::EstadoInvalido),
        }
    } else if iguales(orden, "listar") {
        Ok(Comando::Listar)
    } else if iguales(orden, "listar-pendientes") {
        Ok(Comando::ListarPendientes)
    } else if iguales(orden, "listar-enprogreso") {
        Ok(Comando::ListarEnProgreso)
    } else if iguales(orden, "listar-completadas") {
        Ok(Comando::ListarCompletadas)
    } else {
        Err(ErrorComando::ComandoDesconocido)
    }
}

/// What carrying out an operation came to.
#[derive(Debug)]
pub enum Resultado {
    /// A task was added under this identifier.
    Agregada(u32),
    /// No identifier is left to hand out; nothing changed.
    SinIdLibre,
    /// The task's description was replaced.
    Actualizada(u32),
    /// The task was removed.
    Eliminada(u32),
    /// The task's state was set, from the word as typed.
    EstadoCambiado(u32, String),
    /// The store has no task under this identifier; nothing changed.
    NoEncontrada(u32),
    /// Copies of the tasks listed, all of them or those in one state.
    Lista(Option<EstadoTarea>, Vec<Tarea>),
}

/// Copies of the tasks of a list, in the same order.
fn copiar(ts: &Vec<&Tarea>) -> (r: Vec<Tarea>)
    ensures
        r@.len() == ts@.len(),
        forall|i: int| 0 <= i < r@.len() ==> #[trigger] r@[i]@ == ts@[i]@,
{
    let mut r: Vec<Tarea> = Vec::new();
    let mut i: usize = 0;
    while i < ts.len()
        invariant
            i <= ts.len(),
            r@.len() == i,
            forall|j: int| 0 <= j < i ==> #[trigger] r@[j]@ == ts@[j]@,
        decreases ts.len() - i,
    {
        r.push(ts[i].copia());
        i = i + 1;
    }
    r
}

/// A listing of the tasks in one state, or of all of them where `filtro` is
/// `None`, that stands for the store as it is.
pub open spec fn lista_fiel(
    g: crate::gestor::ModeloGestor,
    filtro: Option<EstadoTarea>,
    ts: Seq<Tarea>,
) -> bool {
    &&& g.contiene_copias(ts)
    &&& match filtro {
        Some(e) => ids_de_copias(ts) == g.ids_en_estado(e) && ts.len() == g.ids_en_estado(e).len(),
        None => ids_de_copias(ts) == g.tareas.dom() && ts.len() == g.tareas.len(),
    }
}

/// Whether a result is a faithful listing under the given filter.
pub open spec fn lista_dada(
    g: crate::gestor::ModeloGestor,
    filtro: Option<EstadoTarea>,
    r: Resultado,
) -> bool {
    match r {
        Resultado::Lista(f, ts) => f == filtro && lista_fiel(g, filtro, ts@),
        _ => false,
    }
}

/// Copies of the tasks of the store in one state, or of all of them.
fn listar(gestor: &GestorTareas, filtro: Option<EstadoTarea>) -> (r: Vec<Tarea>)
    requires
        gestor@.valido(),
    ensures
        lista_fiel(gestor@, filtro, r@),
{
    let ts = match filtro {
        Some(e) => gestor.listar_por_estado(e),
        None => gestor.listar_todas(),
    };
    let r = copiar(&ts);
    assert forall|i: int| 0 <= i < r@.len() implies r@[i].id == ts@[i].id && r@[i]@ == ts@[i]@ by {
        assert(r@[i]@ == ts@[i]@);
    }
    assert(r@.map_values(|t: Tarea| t.id) =~= ts@.map_values(|t: &Tarea| t.id));
    assert(ids_de_copias(r@) == ids_de(ts@));
    assert(gestor@.contiene_copias(r@)) by {
        assert forall|i: int| 0 <= i < r@.len() implies #[trigger] gestor@.tareas.contains_key(
            r@[i].id,
        ) && gestor@.tareas[r@[i].id] == r@[i]@ by {
            assert(r@[i].id == ts@[i].id && r@[i]@ == ts@[i]@);
            assert(gestor@.tareas.contains_key(ts@[i].id));
        }
    }
    r
}

/// Carries out an operation on the store. Adding needs a free identifier;
/// updating, deleting and setting a state need the task to be there;
/// otherwise the store stays as it is and the result says why.
pub fn ejecutar(gestor: &mut GestorTareas, comando: Comando) -> (r: Resultado)
    requires
        old(gestor)@.valido(),
    ensures
        final(gestor)@.valido(),
        final(gestor).ruta() == old(gestor).ruta(),
        match comando {
            Comando::Agregar(d) => if old(gestor)@.hay_id_libre() {
                &&& final(gestor)@ == old(gestor)@.tras_agregar(d@)
                &&& r matches Resultado::Agregada(id) && id as nat == old(gestor)@.siguiente
            } else {
                final(gestor)@ == old(gestor)@ && r is SinIdLibre
            },
            Comando::Actualizar(id, d) => {
                &&& final(gestor)@ == old(gestor)@.tras_actualizar(id, d@)
                &&& if old(gestor)@.tareas.contains_key(id) {
                    r matches Resultado::Actualizada(i) && i == id
                } else {
                    r matches Resultado::NoEncontrada(i) && i == id
                }
            },
            Comando::Eliminar(id) => {
                &&& final(gestor)@ == old(gestor)@.tras_eliminar(id)
                &&& if old(gestor)@.tareas.contains_key(id) {
                    r matches Resultado::Eliminada(i) && i == id
                } else {
                    r matches Resultado::NoEncontrada(i) && i == id
                }
            },
            Comando::Estado(id, e, p) => {
                &&& final(gestor)@ == old(gestor)@.tras_cambiar_estado(id, e)
                &&& if old(gestor)@.tareas.contains_key(id) {
                    r matches Resultado::EstadoCambiado(i, w) && i == id && w@ == p@
                } else {
                    r matches Resultado::NoEncontrada(i) && i == id
                }
            },
            Comando::Listar => final(gestor)@ == old(gestor)@ && lista_dada(old(gestor)@, None, r),
            Comando::ListarPendientes => final(gestor)@ == old(gestor)@ && lista_dada(old(gestor)@, Some(EstadoTarea::Pendiente), r),
            Comando::ListarEnProgreso => final(gestor)@ == old(gestor)@ && lista_dada(old(gestor)@, Some(EstadoTarea::EnProgreso), r),
            Comando::ListarCompletadas => final(gestor)@ == old(gestor)@ && lista_dada(old(gestor)@, Some(EstadoTarea::Completada), r),
        },
{
    match comando {
        Comando::Agregar(d) => {
            if gestor.hay_id_libre() {
                Resultado::Agregada(gestor.agregar_tarea(d))
            } else {
                Resultado::SinIdLibre
            }
        },
        Comando::Actualizar(id, d) => {
            if gestor.actualizar_tarea(id, d) {
                Resultado::Actualizada(id)
            } else {
                Resultado::NoEncontrada(id)
            }
        },
        Comando::Eliminar(id) => {
            if gestor.eliminar_tarea(id) {
                Resultado::Eliminada(id)
            } else {
                Resultado::NoEncontrada(id)
            }
        },
        Comando::Estado(id, e, p) => {
            if gestor.cambiar_estado(id, e) {
                Resultado::EstadoCambiado(id, p)
            } else {
                Resultado::NoEncontrada(id)
            }
        },
        Comando::Listar => Resultado::Lista(None, listar(gestor, None)),
        Comando::ListarPendientes => {
            let f = Some(EstadoTarea::Pendiente);
            Resultado::Lista(f, listar(gestor, f))
        },
        Comando::ListarEnProgreso => {
            let f = Some(EstadoTarea::EnProgreso);
            Resultado::Lista(f, listar(gestor, f))
        },
        Comando::ListarCompletadas => {
            let f = Some(EstadoTarea::Completada);
            Resultado::Lista(f, listar(gestor, f))
        },
    }
}

} // verus!

//! Laws of the store that relate several operations.

use vstd::prelude::*;
use crate::estado::EstadoTarea;
use crate::gestor::{ModeloGestor, ids_de};
use crate::tarea::{
    Tarea, VistaRegistro, VistaTarea, lema_registro_ida_y_vuelta, registro_de_tarea, registros_de,
};

verus! {

/// One operation that changes the store, as mathematical values.
pub enum Operacion {
    Agregar(Seq<char>),
    Actualizar(u32, Seq<char>),
    Eliminar(u32),
    CambiarEstado(u32, EstadoTarea),
}

/// The store after one operation, as `ejecutar` leaves it: an addition with
/// no identifier left changes nothing.
pub open spec fn aplicar(m: ModeloGestor, op: Operacion) -> ModeloGestor {
    match op {
        Operacion::Agregar(d) => if m.hay_id_libre() {
            m.tras_agregar(d)
        } else {
            m
        },
        Operacion::Actualizar(id, d) => m.tras_actualizar(id, d),
        Operacion::Eliminar(id) => m.tras_eliminar(id),
        Operacion::CambiarEstado(id, e) => m.tras_cambiar_estado(id, e),
    }
}

/// The store after a sequence of operations.
pub open spec fn aplicar_todas(m: ModeloGestor, ops: Seq<Operacion>) -> ModeloGestor
    decreases ops.len(),
{
    if ops.len() == 0 {
        m
    } else {
        aplicar(aplicar_todas(m, ops.drop_last()), ops.last())
    }
}

/// The identifiers that the additions of a sequence of operations hand
/// out, in order: each the counter at the time, as `agregar_tarea` returns.
pub open spec fn ids_entregados(m: ModeloGestor, ops: Seq<Operacion>) -> Seq<u32>
    decreases ops.len(),
{
    if ops.len() == 0 {
        Seq::empty()
    } else {
        let antes = aplicar_todas(m, ops.drop_last());
        let previos = ids_entregados(m, ops.drop_last());
        if ops.last() is Agregar && antes.hay_id_libre() {
            previos.push(antes.siguiente as u32)
        } else {
            previos
        }
    }
}

/// Every identifier handed out lies between the first counter and the
/// counter after the operations, and the counter never goes back.
proof fn lema_ids_acotados(m: ModeloGestor, ops: Seq<Operacion>)
    requires
        m.valido(),
    ensures
        aplicar_todas(m, ops).valido(),
        m.siguiente <= aplicar_todas(m, ops).siguiente,
        forall|i: int|
            0 <= i < ids_entregados(m, ops).len() ==> m.siguiente <= #[trigger] ids_entregados(
                m,
                ops,
            )[i] < aplicar_todas(m, ops).siguiente,
        forall|i: int, j: int|
            0 <= i < j < ids_entregados(m, ops).len() ==> #[trigger] ids_entregados(m, ops)[i]
                < #[trigger] ids_entregados(m, ops)[j],
    decreases ops.len(),
{
    if ops.len() > 0 {
        lema_ids_acotados(m, ops.drop_last());
        let antes = aplicar_todas(m, ops.drop_last());
        assert(aplicar_todas(m, ops) == aplicar(antes, ops.last()));
        let previos = ids_entregados(m, ops.drop_last());
        let ids = ids_entregados(m, ops);
        if ops.last() is Agregar && antes.hay_id_libre() {
            assert(ids == previos.push(antes.siguiente as u32));
            assert((antes.siguiente as u32) as nat == antes.siguiente);
            assert forall|i: int| 0 <= i < ids.len() implies m.siguiente <= #[trigger] ids[i]
                < aplicar_todas(m, ops).siguiente by {
                if i < previos.len() {
                    assert(ids[i] == previos[i]);
                }
            }
            assert forall|i: int, j: int| 0 <= i < j < ids.len() implies #[trigger] ids[i]
                < #[trigger] ids[j] by {
                assert(ids[i] == previos[i]);
                if j < previos.len() {
                    assert(ids[j] == previos[j]);
                }
            }
        } else {
            assert(ids == previos);
            match ops.last() {
                Operacion::Agregar(d) => {},
                Operacion::Actualizar(id, d) => {},
                Operacion::Eliminar(id) => {},
                Operacion::CambiarEstado(id, e) => {},
            }
        }
    }
}

/// The identifiers that additions hand out increase strictly, whatever
/// updates, deletions and state changes stand between them; so none is
/// handed out twice, and none is that of a task the store held at the start,
/// even one deleted since.
pub proof fn lema_ids_crecientes(m: ModeloGestor, ops: Seq<Operacion>)
    requires
        m.valido(),
    ensures
        forall|i: int, j: int|
            0 <= i < j < ids_entregados(m, ops).len() ==> #[trigger] ids_entregados(m, ops)[i]
                < #[trigger] ids_entregados(m, ops)[j],
        forall|i: int|
            0 <= i < ids_entregados(m, ops).len() ==> !m.tareas.contains_key(
                #[trigger] ids_entregados(m, ops)[i],
            ),
{
    lema_ids_acotados(m, ops);
    assert forall|i: int|
        0 <= i < ids_entregados(m, ops).len() implies !m.tareas.contains_key(
        #[trigger] ids_entregados(m, ops)[i],
    ) by {
        let k = ids_entregados(m, ops)[i];
        if m.tareas.contains_key(k) {
            assert((k as nat) < m.siguiente);
        }
    }
}

/// Updating a task that is not there changes nothing, so the number of
/// tasks stays.
pub proof fn lema_actualizar_ausente(m: ModeloGestor, id: u32, descripcion: Seq<char>)
    requires
        !m.tareas.contains_key(id),
    ensures
        m.tras_actualizar(id, descripcion) == m,
        m.tras_actualizar(id, descripcion).tareas.len() == m.tareas.len(),
{
}

/// Setting the same state twice leaves the store as setting it once, and
/// both calls report the same.
pub proof fn lema_estado_idempotente(m: ModeloGestor, id: u32, estado: EstadoTarea)
    ensures
        m.tras_cambiar_estado(id, estado).tras_cambiar_estado(id, estado) == m.tras_cambiar_estado(
            id,
            estado,
        ),
        m.tras_cambiar_estado(id, estado).tareas.contains_key(id) == m.tareas.contains_key(id),
{
    if m.tareas.contains_key(id) {
        let una = m.tras_cambiar_estado(id, estado);
        assert(una.tareas.insert(id, VistaTarea { estado, ..una.tareas[id] }) =~= una.tareas);
    }
}

/// The three states part the store: each task is in exactly one of them,
/// so the listing of all tasks is the disjoint union of the three listings
/// by state.
pub proof fn lema_estados_particionan(m: ModeloGestor)
    ensures
        m.ids_en_estado(EstadoTarea::Pendiente) + m.ids_en_estado(EstadoTarea::EnProgreso)
            + m.ids_en_estado(EstadoTarea::Completada) == m.tareas.dom(),
        m.ids_en_estado(EstadoTarea::Pendiente).disjoint(m.ids_en_estado(EstadoTarea::EnProgreso)),
        m.ids_en_estado(EstadoTarea::Pendiente).disjoint(m.ids_en_estado(EstadoTarea::Completada)),
        m.ids_en_estado(EstadoTarea::EnProgreso).disjoint(m.ids_en_estado(EstadoTarea::Completada)),
{
    assert(m.ids_en_estado(EstadoTarea::Pendiente) + m.ids_en_estado(EstadoTarea::EnProgreso)
        + m.ids_en_estado(EstadoTarea::Completada) =~= m.tareas.dom());
}

/// The identifiers of the first `k` tasks of a list.
pub open spec fn ids_iniciales(r: Seq<&Tarea>, k: int) -> Set<u32> {
    Set::new(|x: u32| exists|j: int| 0 <= j < k && r[j].id == x)
}

/// Reading back the records of the first `k` tasks of a listing gives those
/// tasks of the store.
proof fn lema_carga_parcial(g: ModeloGestor, r: Seq<&Tarea>, k: int)
    requires
        g.valido(),
        g.contiene_todas(r),
        0 <= k <= r.len(),
    ensures
        ModeloGestor::vacio().tras_registros(registros_de(r).take(k)).tareas == g.tareas.restrict(
            ids_iniciales(r, k),
        ),
    decreases k,
{
    let rs = registros_de(r);
    if k == 0 {
        assert(rs.take(0) =~= Seq::<VistaRegistro>::empty());
        assert(ids_iniciales(r, 0) =~= Set::empty());
        assert(g.tareas.restrict(ids_iniciales(r, 0)) =~= Map::empty());
    } else {
        lema_carga_parcial(g, r, k - 1);
        assert(rs.take(k).drop_last() =~= rs.take(k - 1));
        assert(rs.take(k).last() == registro_de_tarea(r[k - 1]@));
        assert(g.tareas.contains_key(r[k - 1].id));
        lema_registro_ida_y_vuelta(r[k - 1]@);
        assert(ids_iniciales(r, k) =~= ids_iniciales(r, k - 1).insert(r[k - 1].id));
        assert(ModeloGestor::vacio().tras_registros(rs.take(k)).tareas =~= g.tareas.restrict(
            ids_iniciales(r, k),
        ));
    }
}

/// Saving and loading back: the records that `guardar_texto` writes for a listing of
/// all the tasks of a store, read into an empty store, give the same tasks,
/// with the same identifiers, descriptions and states.
pub proof fn lema_guardar_y_cargar(g: ModeloGestor, r: Seq<&Tarea>)
    requires
        g.valido(),
        g.contiene_todas(r),
        ids_de(r) == g.tareas.dom(),
    ensures
        ModeloGestor::vacio().tras_registros(registros_de(r)).tareas == g.tareas,
{
    lema_carga_parcial(g, r, r.len() as int);
    assert(registros_de(r).take(r.len() as int) =~= registros_de(r));
    assert forall|x: u32| ids_iniciales(r, r.len() as int).contains(x) <==> #[trigger] g.tareas.dom().contains(x) by {
        if ids_iniciales(r, r.len() as int).contains(x) {
            let j = choose|j: int| 0 <= j < r.len() && r[j].id == x;
            assert(r.map_values(|t: &Tarea| t.id)[j] == x);
        }
        if g.tareas.dom().contains(x) {
            let ids = r.map_values(|t: &Tarea| t.id);
            assert(ids.contains(x));
            let j = choose|j: int| 0 <= j < ids.len() && #[trigger] ids[j] == x;
            assert(r[j].id == x);
        }
    }
    assert(g.tareas.restrict(ids_iniciales(r, r.len() as int)) =~= g.tareas);
}

} // verus!

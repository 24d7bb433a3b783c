//! The task store: tasks keyed by identifier and the counter that hands out
//! identifiers.

use vstd::prelude::*;
use std::collections::HashMap;
use vstd::std_specs::iter::IteratorSpec;
use crate::estado::EstadoTarea;
use crate::json::{
    ErrorJson, es_json, escribir_registros, leer_registros, mensaje_error, registros_json,
    texto_de_registros, vistas_registros,
};
use crate::tarea::{
    RegistroTarea, Tarea, VistaRegistro, VistaTarea, registros_de, tarea_de_registro,
};

verus! {

broadcast use vstd::std_specs::hash::group_hash_axioms;

/// The store as mathematical values: its tasks by identifier, and the next
/// identifier to hand out.
pub struct ModeloGestor {
    pub tareas: Map<u32, VistaTarea>,
    pub siguiente: nat,
}

impl ModeloGestor {
    /// Each task sits under its own identifier, which is positive and below
    /// the counter; the counter starts at one and never passes the first
    /// value beyond `u32`.
    pub open spec fn valido(self) -> bool {
        &&& 1 <= self.siguiente <= u32::MAX as nat + 1
        &&& forall|k: u32| #[trigger]
            self.tareas.contains_key(k) ==> self.tareas[k].id == k && 1 <= k && (k as nat)
                < self.siguiente
    }

    /// The store with no task, its counter at one.
    pub open spec fn vacio() -> ModeloGestor {
        ModeloGestor { tareas: Map::empty(), siguiente: 1 }
    }

    /// Whether the counter still names an identifier.
    pub open spec fn hay_id_libre(self) -> bool {
        self.siguiente <= u32::MAX as nat
    }

    /// After adding a pending task with the given description under the
    /// counter's identifier; the counter moves on by one.
    pub open spec fn tras_agregar(self, descripcion: Seq<char>) -> ModeloGestor {
        let id = self.siguiente as u32;
        ModeloGestor {
            tareas: self.tareas.insert(
                id,
                VistaTarea { id, descripcion, estado: EstadoTarea::Pendiente },
            ),
            siguiente: self.siguiente + 1,
        }
    }

    /// After giving the task `id`, if there is one, a new description.
    pub open spec fn tras_actualizar(self, id: u32, descripcion: Seq<char>) -> ModeloGestor {
        if self.tareas.contains_key(id) {
            ModeloGestor {
                tareas: self.tareas.insert(id, VistaTarea { descripcion, ..self.tareas[id] }),
                ..self
            }
        } else {
            self
        }
    }

    /// After removing the task `id`, if there is one; the counter stays.
    pub open spec fn tras_eliminar(self, id: u32) -> ModeloGestor {
        ModeloGestor { tareas: self.tareas.remove(id), ..self }
    }

    /// After setting the state of the task `id`, if there is one.
    pub open spec fn tras_cambiar_estado(self, id: u32, estado: EstadoTarea) -> ModeloGestor {
        if self.tareas.contains_key(id) {
            ModeloGestor {
                tareas: self.tareas.insert(id, VistaTarea { estado, ..self.tareas[id] }),
                ..self
            }
        } else {
            self
        }
    }

    /// After reading one record of the store file: a record that gives a
    /// task puts it under its identifier, replacing any task there, and
    /// moves the counter past that identifier; any other record changes
    /// nothing.
    pub open spec fn tras_registro(self, r: VistaRegistro) -> ModeloGestor {
        match tarea_de_registro(r) {
            Some(t) => ModeloGestor {
                tareas: self.tareas.insert(t.id, t),
                siguiente: if t.id as nat >= self.siguiente {
                    t.id as nat + 1
                } else {
                    self.siguiente
                },
            },
            None => self,
        }
    }

    /// After reading the records of the store file in order.
    pub open spec fn tras_registros(self, rs: Seq<VistaRegistro>) -> ModeloGestor
        decreases rs.len(),
    {
        if rs.len() == 0 {
            self
        } else {
            self.tras_registros(rs.drop_last()).tras_registro(rs.last())
        }
    }

    /// Whether each task of a list stands in the store as it is.
    pub open spec fn contiene_todas(self, r: Seq<&Tarea>) -> bool {
        forall|i: int|
            0 <= i < r.len() ==> #[trigger] self.tareas.contains_key(r[i].id)
                && self.tareas[r[i].id] == r[i]@
    }

    /// Whether each task of a list of copies stands in the store as it is.
    pub open spec fn contiene_copias(self, r: Seq<Tarea>) -> bool {
        forall|i: int|
            0 <= i < r.len() ==> #[trigger] self.tareas.contains_key(r[i].id)
                && self.tareas[r[i].id] == r[i]@
    }

    /// The identifiers of the tasks in the given state.
    pub open spec fn ids_en_estado(self, estado: EstadoTarea) -> Set<u32> {
        self.tareas.dom().filter(|k: u32| self.tareas[k].estado == estado)
    }
}

/// The identifiers of a list of tasks.
pub open spec fn ids_de(r: Seq<&Tarea>) -> Set<u32> {
    r.map_values(|t: &Tarea| t.id).to_set()
}

/// The identifiers of a list of copies of tasks.
pub open spec fn ids_de_copias(r: Seq<Tarea>) -> Set<u32> {
    r.map_values(|t: Tarea| t.id).to_set()
}

/// Whether a task is in the given state, as a predicate.
pub open spec fn filtro_estado<'a>(estado: EstadoTarea) -> spec_fn(&'a Tarea) -> bool {
    |t: &'a Tarea| t.estado == estado
}

/// Filtering keeps identifiers apart: where no two tasks of a list share an
/// identifier, no two of those kept do.
proof fn lema_filtro_sin_repetidos(w: Seq<&Tarea>, pred: spec_fn(&Tarea) -> bool)
    requires
        w.map_values(|t: &Tarea| t.id).no_duplicates(),
    ensures
        w.filter(pred).map_values(|t: &Tarea| t.id).no_duplicates(),
    decreases w.len(),
{
    reveal(Seq::filter);
    if w.len() > 0 {
        let resto = w.drop_last();
        assert(resto.map_values(|t: &Tarea| t.id) =~= w.map_values(|t: &Tarea| t.id).drop_last());
        lema_filtro_sin_repetidos(resto, pred);
        if pred(w.last()) {
            let previos = resto.filter(pred);
            let ids = w.filter(pred).map_values(|t: &Tarea| t.id);
            assert(w.filter(pred) == previos.push(w.last()));
            assert forall|i: int, j: int| 0 <= i < ids.len() && 0 <= j < ids.len() && i != j
                implies ids[i] != ids[j] by {
                if i < previos.len() && j < previos.len() {
                    assert(ids[i] == previos.map_values(|t: &Tarea| t.id)[i]);
                    assert(ids[j] == previos.map_values(|t: &Tarea| t.id)[j]);
                } else {
                    let k = if i < previos.len() { i } else { j };
                    assert(previos.contains(previos[k]));
                    resto.lemma_filter_contains_rev(pred, previos[k]);
                    let x = choose|x: int| 0 <= x < resto.len() && resto[x] == previos[k];
                    assert(w.map_values(|t: &Tarea| t.id)[x] == previos[k].id);
                    assert(w.map_values(|t: &Tarea| t.id)[w.len() - 1] == w.last().id);
                }
            }
        }
    }
}

/// The task store, together with the path of the file it is kept in.
pub struct GestorTareas {
    tareas: HashMap<u32, Tarea>,
    siguiente_id: u64,
    ruta_archivo: String,
}

impl View for GestorTareas {
    type V = ModeloGestor;

    closed spec fn view(&self) -> ModeloGestor {
        ModeloGestor {
            tareas: self.tareas@.map_values(|t: Tarea| t@),
            siguiente: self.siguiente_id as nat,
        }
    }
}

impl GestorTareas {
    /// The path of the file the store is kept in.
    pub closed spec fn ruta(&self) -> Seq<char> {
        self.ruta_archivo@
    }

    /// An empty store kept in the file at `ruta_archivo`.
    pub fn new(ruta_archivo: &str) -> (g: GestorTareas)
        ensures
            g@ == ModeloGestor::vacio(),
            g.ruta() == ruta_archivo@,
    {
        let g = GestorTareas {
            tareas: HashMap::new(),
            siguiente_id: 1,
            ruta_archivo: ruta_archivo.to_string(),
        };
        assert(g@.tareas =~= Map::empty());
        g
    }

    /// The path of the file the store is kept in.
    pub fn ruta_archivo(&self) -> (r: &str)
        ensures
            r@ == self.ruta(),
    {
        self.ruta_archivo.as_str()
    }

    /// Whether an identifier is still free for `agregar_tarea`: identifiers
    /// are `u32` and none is ever handed out twice.
    pub fn hay_id_libre(&self) -> (r: bool)
        ensures
            r == self@.hay_id_libre(),
    {
        self.siguiente_id <= u32::MAX as u64
    }

    /// Adds a pending task and returns its identifier, which no task of the
    /// store has had before.
    pub fn agregar_tarea(&mut self, descripcion: String) -> (id: u32)
        requires
            old(self)@.valido(),
            old(self)@.hay_id_libre(),
        ensures
            id as nat == old(self)@.siguiente,
            !old(self)@.tareas.contains_key(id),
            (id as nat) < final(self)@.siguiente,
            final(self)@ == old(self)@.tras_agregar(descripcion@),
            final(self)@.valido(),
            final(self).ruta() == old(self).ruta(),
    {
        let id = self.siguiente_id as u32;
        self.siguiente_id = self.siguiente_id + 1;
        let tarea = Tarea::new(id, descripcion);
        self.tareas.insert(id, tarea);
        assert(self@.tareas =~= old(self)@.tras_agregar(descripcion@).tareas);
        id
    }

    /// Gives the task `id` a new description, keeping its state; returns
    /// whether there was such a task.
    pub fn actualizar_tarea(&mut self, id: u32, descripcion: String) -> (r: bool)
        requires
            old(self)@.valido(),
        ensures
            r == old(self)@.tareas.contains_key(id),
            final(self)@ == old(self)@.tras_actualizar(id, descripcion@),
            final(self)@.siguiente == old(self)@.siguiente,
            final(self)@.valido(),
            final(self).ruta() == old(self).ruta(),
    {
        match self.tareas.get(&id) {
            Some(t) => {
                let estado = t.estado;
                self.tareas.insert(id, Tarea { id, descripcion, estado });
                assert(self@.tareas =~= old(self)@.tras_actualizar(id, descripcion@).tareas);
                true
            },
            None => false,
        }
    }

    /// Removes the task `id`; returns whether there was such a task. The
    /// counter stays, so its identifier is never handed out again.
    pub fn eliminar_tarea(&mut self, id: u32) -> (r: bool)
        requires
            old(self)@.valido(),
        ensures
            r == old(self)@.tareas.contains_key(id),
            final(self)@ == old(self)@.tras_eliminar(id),
            final(self)@.siguiente == old(self)@.siguiente,
            final(self)@.valido(),
            final(self).ruta() == old(self).ruta(),
    {
        let r = self.tareas.remove(&id).is_some();
        assert(self@.tareas =~= old(self)@.tras_eliminar(id).tareas);
        r
    }

    /// Sets the state of the task `id`; returns whether there was such a
    /// task.
    pub fn cambiar_estado(&mut self, id: u32, estado: EstadoTarea) -> (r: bool)
        requires
            old(self)@.valido(),
        ensures
            r == old(self)@.tareas.contains_key(id),
            final(self)@ == old(self)@.tras_cambiar_estado(id, estado),
            final(self)@.siguiente == old(self)@.siguiente,
            final(self)@.valido(),
            final(self).ruta() == old(self).ruta(),
    {
        match self.tareas.get(&id) {
            Some(t) => {
                let descripcion = t.descripcion.clone();
                self.tareas.insert(id, Tarea { id, descripcion, estado });
                assert(self@.tareas =~= old(self)@.tras_cambiar_estado(id, estado).tareas);
                true
            },
            None => false,
        }
    }

    /// Reads the records of the store file, in order, into the store.
    pub fn cargar_registros(&mut self, registros: &Vec<RegistroTarea>)
        requires
            old(self)@.valido(),
        ensures
            final(self)@ == old(self)@.tras_registros(registros@.map_values(|r: RegistroTarea| r@)),
            old(self)@.siguiente <= final(self)@.siguiente,
            final(self)@.valido(),
            final(self).ruta() == old(self).ruta(),
    {
        let ghost vistas = registros@.map_values(|r: RegistroTarea| r@);
        let mut i: usize = 0;
        while i < registros.len()
            invariant
                i <= registros.len(),
                vistas == registros@.map_values(|r: RegistroTarea| r@),
                self@ == old(self)@.tras_registros(vistas.take(i as int)),
                old(self)@.siguiente <= self@.siguiente,
                self@.valido(),
                self.ruta() == old(self).ruta(),
            decreases registros.len() - i,
        {
            let ghost antes = self@;
            assert(vistas.take(i + 1).drop_last() =~= vistas.take(i as int));
            match Tarea::desde_registro(&registros[i]) {
                Some(tarea) => {
                    let id = tarea.id;
                    if id as u64 >= self.siguiente_id {
                        self.siguiente_id = id as u64 + 1;
                    }
                    self.tareas.insert(id, tarea);
                    assert(self@.tareas =~= antes.tras_registro(vistas[i as int]).tareas);
                },
                None => {},
            }
            i = i + 1;
        }
        assert(vistas.take(i as int) =~= vistas);
    }

    /// Every task of the store, in no particular order.
    pub fn listar_todas(&self) -> (r: Vec<&Tarea>)
        requires
            self@.valido(),
        ensures
            r.len() == self@.tareas.len(),
            self@.contiene_todas(r@),
            ids_de(r@) == self@.tareas.dom(),
            r@.map_values(|t: &Tarea| t.id).no_duplicates(),
    {
        let mut r: Vec<&Tarea> = Vec::new();
        for par in it: self.tareas.iter()
            invariant
                it.seq() == vstd::std_specs::hash::spec_hash_map_iter(&self.tareas).remaining(),
                r.len() == it.index(),
                forall|j: int| 0 <= j < r.len() ==> r[j] == it.seq()[j].1,
        {
            r.push(par.1);
        }
        let ghost v = vstd::std_specs::hash::spec_hash_map_iter(&self.tareas).remaining();
        assert(self@.tareas.dom() =~= self.tareas@.dom());
        assert forall|i: int| 0 <= i < r.len() implies #[trigger] self@.tareas.contains_key(r[i].id)
            && self@.tareas[r[i].id] == r[i]@ by {
            assert(self.tareas@.contains_key(*v[i].0));
            assert(self@.tareas.contains_key(*v[i].0));
        }
        let ghost ids = r@.map_values(|t: &Tarea| t.id);
        assert forall|k: u32| #[trigger] self@.tareas.contains_key(k) implies ids.contains(k) by {
            assert(self.tareas@.contains_key(k));
            assert(v.contains((&k, &self.tareas@[k])));
            let i = choose|i: int| 0 <= i < v.len() && v[i] == (&k, &self.tareas@[k]);
            assert(ids[i] == k);
        }
        assert(ids_de(r@) =~= self@.tareas.dom());
        proof {
            assert(self@.tareas.dom() =~= self.tareas@.dom());
            r@.map_values(|t: &Tarea| t.id).lemma_no_dup_set_cardinality();
        }
        r
    }

    /// The tasks of the store in the given state, in no particular order.
    #[verifier::spinoff_prover]
    pub fn listar_por_estado(&self, estado: EstadoTarea) -> (r: Vec<&Tarea>)
        requires
            self@.valido(),
        ensures
            self@.contiene_todas(r@),
            ids_de(r@) == self@.ids_en_estado(estado),
            r.len() == self@.ids_en_estado(estado).len(),
            r@.map_values(|t: &Tarea| t.id).no_duplicates(),
    {
        let mut r: Vec<&Tarea> = Vec::new();
        for par in it: self.tareas.iter()
            invariant
                it.seq() == vstd::std_specs::hash::spec_hash_map_iter(&self.tareas).remaining(),
                0 <= it.index() <= it.seq().len(),
                r@ == it.seq().take(it.index()).map_values(|p: (&u32, &Tarea)| p.1).filter(
                    filtro_estado(estado),
                ),
        {
            let ghost antes = it.seq().take(it.index()).map_values(|p: (&u32, &Tarea)| p.1);
            let ghost despues = it.seq().take(it.index() + 1).map_values(
                |p: (&u32, &Tarea)| p.1,
            );
            proof {
                assert(despues.drop_last() =~= antes);
                assert(despues.last() == par.1);
            }
            if par.1.estado == estado {
                r.push(par.1);
                assert(r@ == despues.filter(filtro_estado(estado))) by {
                    reveal(Seq::filter);
                    assert(filtro_estado(estado)(par.1));
                }
            } else {
                assert(r@ == despues.filter(filtro_estado(estado))) by {
                    reveal(Seq::filter);
                    assert(!filtro_estado(estado)(par.1));
                }
            }
        }
        let ghost v = vstd::std_specs::hash::spec_hash_map_iter(&self.tareas).remaining();
        let ghost w = v.map_values(|p: (&u32, &Tarea)| p.1);
        assert(v.take(v.len() as int) =~= v);
        assert(r@ == w.filter(filtro_estado(estado)));
        assert(self@.tareas.dom() =~= self.tareas@.dom());
        assert(self@.contiene_todas(r@)) by {
            assert forall|i: int| 0 <= i < r@.len() implies #[trigger] self@.tareas.contains_key(r@[i].id)
                && self@.tareas[r@[i].id] == r@[i]@ by {
                assert(w.filter(filtro_estado(estado)).contains(r@[i]));
                w.lemma_filter_contains_rev(filtro_estado(estado), r@[i]);
                let x = choose|x: int| 0 <= x < w.len() && w[x] == r@[i];
                assert(self.tareas@.contains_key(*v[x].0));
                assert(self@.tareas.contains_key(*v[x].0));
            }
        }
        let ghost ids = r@.map_values(|t: &Tarea| t.id);
        assert forall|k: u32| #[trigger] self@.ids_en_estado(estado).contains(k) implies ids.contains(k) by {
            assert(self.tareas@.contains_key(k));
            assert(v.contains((&k, &self.tareas@[k])));
            let x = choose|x: int| 0 <= x < v.len() && v[x] == (&k, &self.tareas@[k]);
            assert(filtro_estado(estado)(w[x]));
            w.lemma_filter_contains(filtro_estado(estado), x);
            let j = choose|j: int| 0 <= j < r.len() && r[j] == w[x];
            assert(ids[j] == k);
        }
        assert forall|k: u32| #[trigger] ids.contains(k) implies self@.ids_en_estado(estado).contains(k) by {
            let j = choose|j: int| 0 <= j < ids.len() && ids[j] == k;
            assert(self@.tareas.contains_key(r[j].id));
            w.lemma_filter_pred(filtro_estado(estado), j);
        }
        assert(ids_de(r@) =~= self@.ids_en_estado(estado));
        proof {
            let claves = w.map_values(|t: &Tarea| t.id);
            assert forall|x: int| 0 <= x < claves.len() implies #[trigger] claves[x] == *v[x].0 by {
                assert(self.tareas@.contains_key(*v[x].0));
                assert(self@.tareas.contains_key(*v[x].0));
            }
            assert forall|k: u32| claves.to_set().contains(k) <==> #[trigger] self@.tareas.dom().contains(k) by {
                if claves.to_set().contains(k) {
                    let x = choose|x: int| 0 <= x < claves.len() && claves[x] == k;
                    assert(self.tareas@.contains_key(*v[x].0));
                }
                if self@.tareas.dom().contains(k) {
                    assert(self.tareas@.contains_key(k));
                    assert(v.contains((&k, &self.tareas@[k])));
                    let x = choose|x: int| 0 <= x < v.len() && v[x] == (&k, &self.tareas@[k]);
                    assert(claves[x] == k);
                }
            }
            assert(claves.to_set() =~= self@.tareas.dom());
            claves.lemma_no_dup_set_cardinality();
            lema_filtro_sin_repetidos(w, filtro_estado(estado));
            r@.map_values(|t: &Tarea| t.id).unique_seq_to_set();
        }
        r
    }

    /// Reads the text of the store file into the store. A text that is not
    /// JSON is an error and changes nothing. Otherwise the records that the
    /// text holds are read in order, as `cargar_registros` does; JSON that is
    /// no array holds none and changes nothing.
    pub fn cargar_texto(&mut self, contenido: &str) -> (r: Result<(), ErrorJson>)
        requires
            old(self)@.valido(),
        ensures
            r is Ok <==> es_json(contenido@),
            r is Err ==> final(self)@ == old(self)@,
            r is Ok ==> match registros_json(contenido@) {
                Some(rs) => final(self)@ == old(self)@.tras_registros(rs),
                None => final(self)@ == old(self)@,
            },
            final(self)@.valido(),
            final(self).ruta() == old(self).ruta(),
    {
        match leer_registros(contenido) {
            Ok(Some(registros)) => {
                self.cargar_registros(&registros);
                Ok(())
            },
            Ok(None) => Ok(()),
            Err(e) => Err(ErrorJson { mensaje: mensaje_error(&e) }),
        }
    }

    /// The text that saving writes: a JSON array with the record of each
    /// task once, as `Tarea::to_json` gives it, in no particular order.
    pub fn guardar_texto(&self) -> (r: String)
        requires
            self@.valido(),
        ensures
            exists|ts: Seq<&Tarea>|
                {
                    &&& self@.contiene_todas(ts)
                    &&& ids_de(ts) == self@.tareas.dom()
                    &&& ts.len() == self@.tareas.len()
                    &&& r@ == texto_de_registros(registros_de(ts))
                },
    {
        let tareas = self.listar_todas();
        let mut registros: Vec<RegistroTarea> = Vec::new();
        let mut i: usize = 0;
        while i < tareas.len()
            invariant
                i <= tareas.len(),
                vistas_registros(registros@) == registros_de(tareas@.take(i as int)),
            decreases tareas.len() - i,
        {
            let registro = tareas[i].to_json();
            let ghost antes = registros@;
            assert(registros_de(tareas@.take(i as int)).len() == i);
            assert(vistas_registros(antes).len() == antes.len());
            registros.push(registro);
            assert(registros@ == antes.push(registro));
            assert forall|j: int| 0 <= j <= i implies #[trigger] vistas_registros(registros@)[j]
                == registros_de(tareas@.take(i + 1))[j] by {
                if j < i {
                    assert(vistas_registros(antes)[j] == registros_de(tareas@.take(i as int))[j]);
                }
            }
            assert(vistas_registros(registros@) =~= registros_de(tareas@.take(i + 1)));
            i = i + 1;
        }
        assert(tareas@.take(i as int) =~= tareas@);
        escribir_registros(&registros)
    }
}

} // verus!

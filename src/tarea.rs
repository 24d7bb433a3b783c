//! A task, and the record that the store file keeps of one.

use vstd::prelude::*;
use crate::estado::{EstadoTarea, estado_guardado, nombre_estado};

verus! {

/// One unit of work.
#[derive(Debug)]
pub struct Tarea {
    pub id: u32,
    pub descripcion: String,
    pub estado: EstadoTarea,
}

/// What a task holds, as mathematical values.
pub struct VistaTarea {
    pub id: u32,
    pub descripcion: Seq<char>,
    pub estado: EstadoTarea,
}

impl View for Tarea {
    type V = VistaTarea;

    open spec fn view(&self) -> VistaTarea {
        VistaTarea { id: self.id, descripcion: self.descripcion@, estado: self.estado }
    }
}

/// The fields that one element of the store file gives, each absent where
/// the element lacks it or holds a value of another kind there.
pub struct RegistroTarea {
    pub id: Option<u64>,
    pub descripcion: Option<String>,
    pub estado: Option<String>,
}

/// What a record holds, as mathematical values.
pub struct VistaRegistro {
    pub id: Option<u64>,
    pub descripcion: Option<Seq<char>>,
    pub estado: Option<Seq<char>>,
}

impl View for RegistroTarea {
    type V = VistaRegistro;

    open spec fn view(&self) -> VistaRegistro {
        VistaRegistro {
            id: self.id,
            descripcion: match self.descripcion {
                Some(d) => Some(d@),
                None => None,
            },
            estado: match self.estado {
                Some(e) => Some(e@),
                None => None,
            },
        }
    }
}

/// The task that a record gives: one needs all three fields, an identifier
/// from one to `u32::MAX` (identifiers are positive, and a larger one would
/// not be the one in the file), and a state name that `estado_guardado` reads.
pub open spec fn tarea_de_registro(r: VistaRegistro) -> Option<VistaTarea> {
    if r.id is Some && 1 <= r.id->0 <= u32::MAX && r.descripcion is Some && r.estado is Some
        && estado_guardado(r.estado->0) is Some {
        Some(
            VistaTarea {
                id: r.id->0 as u32,
                descripcion: r.descripcion->0,
                estado: estado_guardado(r.estado->0)->0,
            },
        )
    } else {
        None
    }
}

/// The record that the store file keeps of a task.
pub open spec fn registro_de_tarea(t: VistaTarea) -> VistaRegistro {
    VistaRegistro {
        id: Some(t.id as u64),
        descripcion: Some(t.descripcion),
        estado: Some(nombre_estado(t.estado)),
    }
}

impl Tarea {
    /// A new task, pending.
    pub fn new(id: u32, descripcion: String) -> (t: Tarea)
        ensures
            t@ == (VistaTarea { id, descripcion: descripcion@, estado: EstadoTarea::Pendiente }),
    {
        Tarea { id, descripcion, estado: EstadoTarea::Pendiente }
    }

    /// The task that a record gives, if it gives one.
    pub fn desde_registro(r: &RegistroTarea) -> (t: Option<Tarea>)
        ensures
            match t {
                Some(t) => tarea_de_registro(r@) == Some(t@),
                None => tarea_de_registro(r@) is None,
            },
    {
        let id = match r.id {
            Some(id) => id,
            None => return None,
        };
        if id == 0 || id > u32::MAX as u64 {
            return None;
        }
        let descripcion = match &r.descripcion {
            Some(d) => d.clone(),
            None => return None,
        };
        let estado = match &r.estado {
            Some(e) => match EstadoTarea::desde_guardado(e.as_str()) {
                Some(e) => e,
                None => return None,
            },
            None => return None,
        };
        Some(Tarea { id: id as u32, descripcion, estado })
    }

    /// A copy of the task.
    pub fn copia(&self) -> (t: Tarea)
        ensures
            t@ == self@,
    {
        Tarea { id: self.id, descripcion: self.descripcion.clone(), estado: self.estado }
    }

    /// The record that the store file keeps of the task: its fields `id`,
    /// `descripcion` and `estado`, the last under the state's shown name.
    pub fn to_json(&self) -> (r: RegistroTarea)
        ensures
            r@ == registro_de_tarea(self@),
    {
        RegistroTarea {
            id: Some(self.id as u64),
            descripcion: Some(self.descripcion.clone()),
            estado: Some(self.estado.to_string()),
        }
    }
}

impl Tarea {
    /// The task that one element of the store file gives, if it gives one:
    /// the record that `RegistroTarea::from_json` reads, as
    /// `Tarea::desde_registro` takes it.
    pub fn from_json(valor: &serde_json::Value) -> (t: Option<Tarea>)
        ensures
            match t {
                Some(t) => tarea_de_registro(registro_de_valor(*valor)) == Some(t@),
                None => tarea_de_registro(registro_de_valor(*valor)) is None,
            },
    {
        Tarea::desde_registro(&RegistroTarea::from_json(valor))
    }
}

impl RegistroTarea {
    /// Relies on `Value::pointer`, `Value::as_u64` and `Value::as_str`: the
    /// fields `id`, `descripcion` and `estado` of one element of the store
    /// file, each as far as it holds a value of the kind needed; what they
    /// give depends on the element alone.
    #[verifier::external_body]
    pub fn from_json(valor: &serde_json::Value) -> (r: RegistroTarea)
        ensures
            r@ == registro_de_valor(*valor),
    {
        RegistroTarea {
            id: valor.pointer("/id").and_then(|v| v.as_u64()),
            descripcion: valor.pointer("/descripcion").and_then(|v| v.as_str()).map(|s| s.to_string()),
            estado: valor.pointer("/estado").and_then(|v| v.as_str()).map(|s| s.to_string()),
        }
    }
}

/// The record that the fields of a JSON element give.
pub uninterp spec fn registro_de_valor(v: serde_json::Value) -> VistaRegistro;

/// The records that the store file keeps of a list of tasks, in order.
pub open spec fn registros_de(r: Seq<&Tarea>) -> Seq<VistaRegistro> {
    r.map_values(|t: &Tarea| registro_de_tarea(t@))
}

/// A task read back from the record that saving wrote for it is the same task.
pub proof fn lema_registro_ida_y_vuelta(t: VistaTarea)
    requires
        t.id >= 1,
    ensures
        tarea_de_registro(registro_de_tarea(t)) == Some(t),
{
    crate::estado::lema_estado_ida_y_vuelta(t.estado);
}

} // verus!

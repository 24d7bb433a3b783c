//! The state of a task, and the two places where it meets text: the words a
//! user types and the names the store file holds.

use vstd::prelude::*;
use crate::texto::{iguales, minusculas, minusculas_de};

verus! {

/// Where a task stands. Any state can follow any other.
#[derive(Clone, Copy, Debug, PartialEq, Eq, Structural)]
pub enum EstadoTarea {
    Pendiente,
    EnProgreso,
    Completada,
}

/// The state that a lower-case word names: `pendiente`, `enprogreso` or
/// `completada`, exactly; no other word names one.
pub open spec fn estado_de_palabra(t: Seq<char>) -> Option<EstadoTarea> {
    if t == "pendiente"@ {
        Some(EstadoTarea::Pendiente)
    } else if t == "enprogreso"@ {
        Some(EstadoTarea::EnProgreso)
    } else if t == "completada"@ {
        Some(EstadoTarea::Completada)
    } else {
        None
    }
}

/// The name under which a state is shown and saved.
pub open spec fn nombre_estado(e: EstadoTarea) -> Seq<char> {
    match e {
        EstadoTarea::Pendiente => "Pendiente"@,
        EstadoTarea::EnProgreso => "En Progreso"@,
        EstadoTarea::Completada => "Completada"@,
    }
}

/// The state that a name read from the store file stands for: a name as
/// saving writes it, or else a word that names a state in any case.
pub open spec fn estado_guardado(s: Seq<char>) -> Option<EstadoTarea> {
    if s == nombre_estado(EstadoTarea::Pendiente) {
        Some(EstadoTarea::Pendiente)
    } else if s == nombre_estado(EstadoTarea::EnProgreso) {
        Some(EstadoTarea::EnProgreso)
    } else if s == nombre_estado(EstadoTarea::Completada) {
        Some(EstadoTarea::Completada)
    } else {
        estado_de_palabra(minusculas_de(s))
    }
}

impl EstadoTarea {
    /// The state that a word already in lower case names.
    pub fn desde_minusculas(t: &str) -> (r: Option<EstadoTarea>)
        ensures
            r == estado_de_palabra(t@),
    {
        if iguales(t, "pendiente") {
            Some(EstadoTarea::Pendiente)
        } else if iguales(t, "enprogreso") {
            Some(EstadoTarea::EnProgreso)
        } else if iguales(t, "completada") {
            Some(EstadoTarea::Completada)
        } else {
            None
        }
    }

    /// The state that a word names, whatever its case.
    pub fn from_str(s: &str) -> (r: Option<EstadoTarea>)
        ensures
            r == estado_de_palabra(minusculas_de(s@)),
    {
        let t = minusculas(s);
        EstadoTarea::desde_minusculas(t.as_str())
    }

    /// The name under which the state is shown and saved.
    pub fn to_string(&self) -> (r: String)
        ensures
            r@ == nombre_estado(*self),
    {
        match self {
            EstadoTarea::Pendiente => "Pendiente".to_string(),
            EstadoTarea::EnProgreso => "En Progreso".to_string(),
            EstadoTarea::Completada => "Completada".to_string(),
        }
    }

    /// The state that a name read from the store file stands for. Besides the
    /// words that `from_str` takes, this accepts each name exactly as
    /// `to_string` writes it, so that a saved state is read back as itself.
    pub fn desde_guardado(s: &str) -> (r: Option<EstadoTarea>)
        ensures
            r == estado_guardado(s@),
    {
        if iguales(s, "Pendiente") {
            Some(EstadoTarea::Pendiente)
        } else if iguales(s, "En Progreso") {
            Some(EstadoTarea::EnProgreso)
        } else if iguales(s, "Completada") {
            Some(EstadoTarea::Completada)
        } else {
            EstadoTarea::from_str(s)
        }
    }
}

/// A saved state is read back as itself.
pub proof fn lema_estado_ida_y_vuelta(e: EstadoTarea)
    ensures
        estado_guardado(nombre_estado(e)) == Some(e),
{
    reveal_strlit("Pendiente");
    reveal_strlit("En Progreso");
    reveal_strlit("Completada");
    assert("Pendiente"@.len() == 9);
    assert("En Progreso"@.len() == 11);
    assert("Completada"@.len() == 10);
}

} // verus!

//! What the store takes from `serde_json`: reading the store file's text as
//! the records it holds, and writing records out as that text.

use vstd::prelude::*;
use crate::tarea::{RegistroTarea, VistaRegistro};

verus! {

#[verifier::external_type_specification]
#[verifier::external_body]
pub struct ExValor(serde_json::Value);

#[verifier::external_type_specification]
#[verifier::external_body]
pub struct ExErrorJson(serde_json::Error);

/// Why the store file could not be read as JSON, in the words of
/// `serde_json`.
pub struct ErrorJson {
    pub mensaje: String,
}

/// Whether `serde_json::from_str` reads the text as one JSON value.
pub uninterp spec fn es_json(s: Seq<char>) -> bool;

/// The records of a text that is JSON: those of the elements of the array
/// it holds, in order, or none where it holds a value that is no array.
pub uninterp spec fn registros_json(s: Seq<char>) -> Option<Seq<VistaRegistro>>;

/// The text that `serde_json::to_string_pretty` writes for a list of records,
/// each as an object with the fields `id`, `descripcion` and `estado`.
pub uninterp spec fn texto_de_registros(rs: Seq<VistaRegistro>) -> Seq<char>;

/// The views of a list of records.
pub open spec fn vistas_registros(rs: Seq<RegistroTarea>) -> Seq<VistaRegistro> {
    rs.map_values(|r: RegistroTarea| r@)
}

/// Relies on `serde_json::from_str::<Value>` and `Value::as_array`: whether
/// the text is JSON, and what it holds, depend on the text alone. Each
/// element is read by `RegistroTarea::from_json`.
#[verifier::external_body]
pub(crate) fn leer_registros(texto: &str) -> (r: Result<Option<Vec<RegistroTarea>>, serde_json::Error>)
    ensures
        r is Ok <==> es_json(texto@),
        r matches Ok(o) ==> match o {
            Some(v) => registros_json(texto@) == Some(vistas_registros(v@)),
            None => registros_json(texto@) is None,
        },
{
    let valor: serde_json::Value = serde_json::from_str(texto)?;
    Ok(valor.as_array().map(|a| a.iter().map(RegistroTarea::from_json).collect()))
}

/// Relies on `serde_json::to_string_pretty`, on a list of objects built with
/// `Map::insert` and `Value::from`. It cannot fail there: its documentation
/// names as causes only a failing `Serialize` impl and a map whose keys are
/// not strings, and neither occurs in a `Vec<Value>` of string-keyed objects.
#[verifier::external_body]
pub(crate) fn escribir_registros(rs: &Vec<RegistroTarea>) -> (r: String)
    ensures
        r@ == texto_de_registros(vistas_registros(rs@)),
{
    let valores: Vec<serde_json::Value> = rs.iter().map(|r| {
        let mut objeto = serde_json::Map::new();
        objeto.insert("id".to_string(), serde_json::Value::from(r.id));
        objeto.insert("descripcion".to_string(), serde_json::Value::from(r.descripcion.clone()));
        objeto.insert("estado".to_string(), serde_json::Value::from(r.estado.clone()));
        serde_json::Value::from(objeto)
    }).collect();
    serde_json::to_string_pretty(&valores).unwrap_or_default()
}

/// Relies on `serde_json::Error`'s `Display`, for the message it carries.
#[verifier::external_body]
pub(crate) fn mensaje_error(e: &serde_json::Error) -> (r: String) {
    e.to_string()
}

} // verus!

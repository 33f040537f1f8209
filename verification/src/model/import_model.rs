//! The shape of an import batch: a series of operations on the shared
//! referentials and on the relations of one code.
use crate::str_map::StrMap;
use crate::text::concat3;
use vstd::prelude::*;

verus! {

/// What an operation does.
#[derive(Debug, Clone, Copy, PartialEq, Eq, Structural)]
pub enum ImportOperationType {
    Add,
    Update,
    Remove,
}

/// What an operation acts on: a shared referential, or a relation of the
/// code that the batch targets.
#[derive(Debug, Clone, Copy, PartialEq, Eq, Structural)]
pub enum ImportEntityType {
    Circulaire,
    Color,
    Filiere,
    Placement,
    Position,
    Symbole,
    Signification,
    SymboleSens,
    SymboleAccessoire,
    Relation,
}

/// A JSON value of an operation's fields, as far as the import reads it.
#[derive(Debug, Clone)]
pub enum FieldValue {
    Null,
    Bool(bool),
    Text(String),
    /// A number, an array or an object, as its JSON text.
    Other(String),
}

/// A field value, with its string seen as a character sequence.
pub enum FieldValueView {
    Null,
    Bool(bool),
    Text(Seq<char>),
    Other(Seq<char>),
}

impl View for FieldValue {
    type V = FieldValueView;

    open spec fn view(&self) -> FieldValueView {
        match self {
            FieldValue::Null => FieldValueView::Null,
            FieldValue::Bool(b) => FieldValueView::Bool(*b),
            FieldValue::Text(s) => FieldValueView::Text(s@),
            FieldValue::Other(j) => FieldValueView::Other(j@),
        }
    }
}

/// One operation of a batch. The confidence that the batch gives each
/// operation is a float and stays with the application.
pub struct ImportOperation {
    pub op: ImportOperationType,
    pub entity: ImportEntityType,
    /// A real id, or a temporary one prefixed with `tmp:` for an entity that
    /// an earlier operation of the same batch adds.
    pub id: String,
    /// The fields of the entity: for an update, only those that change.
    pub fields: StrMap<FieldValue>,
    pub incertain: bool,
    pub note: Option<String>,
}

/// The new code to create when the batch targets no existing one.
#[derive(Debug, Clone)]
pub struct ImportNewLinkFields {
    pub name: String,
    pub annee: Option<u64>,
}

/// An import batch, as the dashboard sends it once reviewed.
pub struct ImportBatchRequest {
    pub name: String,
    /// The existing code to update; exclusive with `new_link`.
    pub link_id: Option<String>,
    /// The code to create; exclusive with `link_id`.
    pub new_link: Option<ImportNewLinkFields>,
    pub operations: Vec<ImportOperation>,
}

/// Whether an import was applied.
#[derive(Debug, Clone, Copy, PartialEq, Eq, Structural)]
pub enum ImportCodeStatus {
    Applied,
    Failed,
}


/// The record of an import, kept for its history: who ran it, when, on which
/// code, whether it was applied, and what each operation did (`T`).
pub struct ImportCode<T> {
    pub id: String,
    pub name: String,
    pub date: String,
    pub user_id: String,
    pub user_name: String,
    pub link_id: Option<String>,
    pub status: ImportCodeStatus,
    pub operations: Vec<T>,
    /// The error, when the import failed.
    pub error: Option<String>,
}

/// The record of an import given its outcome: applied, with what each
/// operation did and the code it went to; or failed, with no operation,
/// the code the batch asked for, and the error.
pub fn import_code<T>(
    id: String,
    name: String,
    date: String,
    user_id: String,
    user_name: String,
    requested_link_id: Option<String>,
    outcome: Result<(Vec<T>, Option<String>), String>,
) -> (r: ImportCode<T>)
    ensures
        r.id == id,
        r.name == name,
        r.date == date,
        r.user_id == user_id,
        r.user_name == user_name,
        match outcome {
            Ok(applied) => {
                &&& r.status == ImportCodeStatus::Applied
                &&& r.operations@ == applied.0@
                &&& r.link_id == applied.1
                &&& r.error is None
            },
            Err(e) => {
                &&& r.status == ImportCodeStatus::Failed
                &&& r.operations@.len() == 0
                &&& r.link_id == requested_link_id
                &&& r.error == Some(e)
            },
        },
{
    match outcome {
        Ok((operations, link_id)) => ImportCode {
            id,
            name,
            date,
            user_id,
            user_name,
            link_id,
            status: ImportCodeStatus::Applied,
            operations,
            error: None,
        },
        Err(e) => ImportCode {
            id,
            name,
            date,
            user_id,
            user_name,
            link_id: requested_link_id,
            status: ImportCodeStatus::Failed,
            operations: Vec::new(),
            error: Some(e),
        },
    }
}

/// What the JSON Schema validator reports on `instance` (a JSON text) against
/// `schema` (a JSON text): each error as the JSON pointer of the place in the
/// instance and its message, or why it could not check (a text that is not
/// JSON, or a schema that is not valid).
pub uninterp spec fn schema_report(schema: Seq<char>, instance: Seq<char>) -> Result<Seq<(Seq<char>, Seq<char>)>, Seq<char>>;

/// A validator report, with its strings seen as character sequences.
pub open spec fn report_view(r: Result<Vec<(String, String)>, String>) -> Result<Seq<(Seq<char>, Seq<char>)>, Seq<char>> {
    match r {
        Ok(v) => Ok(v@.map_values(|p: (String, String)| (p.0@, p.1@))),
        Err(e) => Err(e@),
    }
}

/// Validates `instance` against `schema`, both JSON texts.
///
/// Trusted: parses both texts with `serde_json::from_str`, compiles the
/// schema with `jsonschema::validator_for`, and lists what
/// `Validator::iter_errors` yields, each error as its `instance_path()` and
/// its message, in the order given. The report is a function of the two
/// texts, named `schema_report`. With the crate's default features off, a
/// reference to a remote schema is an error, not a blocking fetch.
#[verifier::external_body]
fn jsonschema_errors(schema: &str, instance: &str) -> (r: Result<Vec<(String, String)>, String>)
    ensures
        report_view(r) == schema_report(schema@, instance@),
{
    let schema: serde_json::Value = serde_json::from_str(schema).map_err(|e| e.to_string())?;
    let instance: serde_json::Value = serde_json::from_str(instance).map_err(|e| e.to_string())?;
    let validator = jsonschema::validator_for(&schema).map_err(|e| e.to_string())?;
    let mut errors = Vec::new();
    for e in validator.iter_errors(&instance) {
        errors.push((e.instance_path().to_string(), e.to_string()));
    }
    Ok(errors)
}

/// One error of a validator report, as the batch check shows it: the place,
/// a colon and a space, and the message.
pub open spec fn error_line(p: (Seq<char>, Seq<char>)) -> Seq<char> {
    p.0 + ": "@ + p.1
}

/// The batch check that a validator report gives: accepted with no error,
/// else refused with each error's line, or with why it could not check.
pub open spec fn spec_batch_check(report: Result<Seq<(Seq<char>, Seq<char>)>, Seq<char>>) -> Result<(), Seq<Seq<char>>> {
    match report {
        Ok(errors) => if errors.len() == 0 {
            Ok(())
        } else {
            Err(errors.map_values(|p: (Seq<char>, Seq<char>)| error_line(p)))
        },
        Err(e) => Err(seq![e]),
    }
}

/// A batch check, with its strings seen as character sequences.
pub open spec fn check_view(r: Result<(), Vec<String>>) -> Result<(), Seq<Seq<char>>> {
    match r {
        Ok(()) => Ok(()),
        Err(v) => Err(v@.map_values(|s: String| s@)),
    }
}

/// The batch check that a validator report gives.
pub fn batch_check_from_report(report: Result<Vec<(String, String)>, String>) -> (r: Result<(), Vec<String>>)
    ensures
        check_view(r) == spec_batch_check(report_view(report)),
{
    match report {
        Err(e) => {
            let mut v: Vec<String> = Vec::new();
            v.push(e);
            assert(v@.map_values(|s: String| s@) =~= seq![report_view(report)->Err_0]);
            Err(v)
        },
        Ok(errors) => {
            let ghost rv = errors@.map_values(|p: (String, String)| (p.0@, p.1@));
            if errors.len() == 0 {
                return Ok(());
            }
            let mut lines: Vec<String> = Vec::new();
            let mut i: usize = 0;
            while i < errors.len()
                invariant
                    i <= errors.len(),
                    rv == errors@.map_values(|p: (String, String)| (p.0@, p.1@)),
                    lines@.len() == i,
                    forall|j: int| 0 <= j < i ==> #[trigger] lines@[j]@ == error_line(rv[j]),
                decreases errors.len() - i,
            {
                let line = concat3(errors[i].0.as_str(), ": ", errors[i].1.as_str());
                lines.push(line);
                i = i + 1;
            }
            assert(lines@.map_values(|s: String| s@) =~= rv.map_values(|p: (Seq<char>, Seq<char>)| error_line(p)));
            Err(lines)
        },
    }
}

/// Checks the raw body of an import batch (a JSON text) against the JSON
/// Schema of the import format (a JSON text), before it is read as a batch:
/// accepted, or refused with every error found, each as its place in the
/// body and its message.
pub fn validate_batch_json(schema: &str, body: &str) -> (r: Result<(), Vec<String>>)
    ensures
        check_view(r) == spec_batch_check(schema_report(schema@, body@)),
{
    let report = jsonschema_errors(schema, body);
    batch_check_from_report(report)
}


/// The JSON Schema (draft-07) of the body of an import request, the contract
/// that the batch types above follow: a name, at most one of an existing
/// code or a new one, and operations whose kind, entity, id, confidence
/// between 0 and 1 and uncertainty are all given; nothing else.
pub fn import_json_schema() -> &'static str {
    r#"{
  "$schema": "http://json-schema.org/draft-07/schema#",
  "type": "object",
  "required": ["name", "operations"],
  "additionalProperties": false,
  "properties": {
    "name": { "type": "string" },
    "linkId": { "type": ["string", "null"] },
    "newLink": {
      "type": ["object", "null"],
      "required": ["name"],
      "additionalProperties": false,
      "properties": {
        "name": { "type": "string" },
        "annee": { "type": ["integer", "null"], "minimum": 0 }
      }
    },
    "operations": {
      "type": "array",
      "items": {
        "type": "object",
        "required": ["op", "entity", "id", "confidence", "incertain"],
        "additionalProperties": false,
        "properties": {
          "op": { "enum": ["add", "update", "remove"] },
          "entity": {
            "enum": ["circulaire", "color", "filiere", "placement", "position", "symbole",
                     "signification", "symboleSens", "symboleAccessoire", "relation"]
          },
          "id": { "type": "string" },
          "fields": { "type": "object" },
          "confidence": { "type": "number", "minimum": 0, "maximum": 1 },
          "incertain": { "type": "boolean" },
          "note": { "type": ["string", "null"] }
        }
      }
    }
  }
}"#
}

} // verus!

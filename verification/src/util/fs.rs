//! Model directories: which file holds the model document, and what stands
//! in it.

use crate::serial::document::read_result;
use crate::serial::tree::{json_tree, parsed_json, pretty_form};
use crate::structure::common::{timestamp_value, ModelLoadError};
use crate::structure::modelx::{Modelx, ModelxDocument};
use crate::util::naming::{empty_uuid, uuid_bytes, zero_bytes};
use serde_json::Value;
use vstd::prelude::*;
use vstd::string::StringExecFns;

verus! {

/// A file to write: where, and what.
#[derive(Debug, PartialEq, Eq)]
pub struct ModelFile {
    pub filename: String,
    pub content: String,
}

/// The name of the file that holds the model document of a directory.
pub open spec fn model_file_path(path: Seq<char>) -> Seq<char> {
    path + "/modelx.json"@
}

/// The name of the file that holds the model document of a directory.
pub fn model_file_name(path: &str) -> (filename: String)
    ensures
        filename@ == model_file_path(path@),
{
    let mut filename = path.to_owned();
    filename.append("/modelx.json");
    filename
}

/// The file that stores a model in a directory: `modelx.json` there, with
/// the model document as indented JSON. This never fails.
pub fn model_to_fs(model: &ModelxDocument, path: &str) -> (r: Result<ModelFile, ModelLoadError>)
    ensures
        r is Ok,
        r->Ok_0.filename@ == model_file_path(path@),
        exists|v: Value|
            json_tree(v) == ModelxDocument::encode(model@) && r->Ok_0.content@ == pretty_form(v),
{
    Ok(ModelFile { filename: model_file_name(path), content: model.to_json() })
}

/// The model that the text of a directory's model file describes.
pub fn model_from_fs(model_json: &str) -> (r: Result<ModelxDocument, ModelLoadError>)
    ensures
        read_result::<Modelx>(parsed_json(model_json@), r),
{
    ModelxDocument::from_json(model_json)
}

/// The file that makes a directory a model directory: a new model document
/// that belongs to no project, stored as `model_to_fs` stores it.
pub fn init_new_model_dir(path: &str) -> (r: Result<ModelFile, ModelLoadError>)
    ensures
        r is Ok,
        r->Ok_0.filename@ == model_file_path(path@),
        exists|v: Value, model: ModelxDocument|
            {
                &&& json_tree(v) == ModelxDocument::encode(model@)
                &&& r->Ok_0.content@ == pretty_form(v)
                &&& model.well_formed()
                &&& uuid_bytes(model.project_id) == zero_bytes()
                &&& model.name@ == "default"@
                &&& model.version == 0
                &&& model.created_at == timestamp_value(0, 0)
                &&& model.updated_at == timestamp_value(0, 0)
            },
{
    let model = ModelxDocument::new(&empty_uuid(), "modelx".to_owned());
    model_to_fs(&model, path)
}

/// Whether the text of a directory's model file describes a model.
pub fn is_model_dir(model_json: &str) -> (is: bool)
    ensures
        is == match parsed_json(model_json@) {
            Ok(v) => ModelxDocument::decode(json_tree(v)) is Some,
            Err(_) => false,
        },
{
    model_from_fs(model_json).is_ok()
}

} // verus!

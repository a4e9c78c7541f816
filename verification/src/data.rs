//! The opaque structured value and the payload capability traits.

use vstd::prelude::*;
use core::cmp::Ordering;
use crate::json::{
    Json, JsonV, json_view, json_view_list, spec_render, render_json, lemma_json_view_list,
};
use crate::text::{lex_cmp, lex_compare, chars_of, chars_eq};

verus! {

/// An arbitrary JSON value used where dataset point data can take one of
/// several shapes (flat numbers, x/y pairs, ranges). Emptiness is defined
/// only for the array shape; ordering compares the canonical textual
/// rendering of the two trees, which is total but not numerically
/// meaningful, and serves only deterministic output.
#[derive(Debug)]
pub struct DatasetData {
    value: Json,
}

impl View for DatasetData {
    type V = JsonV;

    closed spec fn view(&self) -> JsonV {
        self.value@
    }
}

impl DatasetData {
    /// Capture the given JSON tree.
    pub fn new(value: Json) -> (r: Self)
        ensures
            r@ == value@,
    {
        DatasetData { value }
    }

    /// A copy of the captured JSON tree.
    pub fn to_json(&self) -> (r: Json)
        ensures
            r@ == self@,
    {
        self.value.clone()
    }

    /// Whether the wrapped array is empty. Emptiness is defined only for
    /// the array shape; querying any other top-level shape is ruled out by
    /// contract rather than checked at run time.
    pub fn is_empty(&self) -> (r: bool)
        requires
            self@ is Array,
        ensures
            r <==> self@->Array_0.len() == 0,
    {
        reveal(crate::json::json_view);
        match &self.value {
            Json::Array(v) => {
                proof {
                    lemma_json_view_list(v@);
                }
                v.len() == 0
            },
            _ => {
                proof {
                    assert(false);
                }
                false
            },
        }
    }

    /// Total order by the canonical textual rendering of the two trees.
    pub fn compare(&self, other: &Self) -> (r: Ordering)
        ensures
            r == lex_cmp(spec_render(self@), spec_render(other@)),
    {
        let a = render_json(&self.value);
        let b = render_json(&other.value);
        let ac = chars_of(a.as_str());
        let bc = chars_of(b.as_str());
        lex_compare(ac.as_slice(), bc.as_slice())
    }
}

impl PartialEq for DatasetData {
    fn eq(&self, other: &Self) -> bool {
        let a = render_json(&self.value);
        let b = render_json(&other.value);
        let ac = chars_of(a.as_str());
        let bc = chars_of(b.as_str());
        chars_eq(ac.as_slice(), bc.as_slice())
    }
}

impl vstd::std_specs::cmp::PartialEqSpecImpl for DatasetData {
    open spec fn obeys_eq_spec() -> bool {
        true
    }

    open spec fn eq_spec(&self, other: &Self) -> bool {
        spec_render(self@) == spec_render(other@)
    }
}

impl Clone for DatasetData {
    fn clone(&self) -> (r: Self)
        ensures
            r@ == self@,
    {
        DatasetData { value: self.value.clone() }
    }
}

impl Default for DatasetData {
    /// The empty array: the one shape that is empty.
    fn default() -> (r: Self)
        ensures
            r@ == JsonV::Array(Seq::empty()),
    {
        let v: Vec<Json> = Vec::new();
        reveal(crate::json::json_view);
        proof {
            crate::json::lemma_json_view_list_empty();
        }
        DatasetData { value: Json::Array(v) }
    }
}

/// Capability of a dataset payload: anything with a JSON shape may sit in
/// the dataset slot of the envelope.
pub trait DatasetTrait {
    /// Whether the payload is fit to serialize; payloads carrying an
    /// opaque structured value insist on its array shape here.
    spec fn wf(&self) -> bool;

    /// The JSON shape this payload serializes to.
    spec fn shape(&self) -> JsonV;

    /// Serialize the payload.
    fn to_json(&self) -> (r: Json)
        requires
            self.wf(),
        ensures
            r@ == self.shape(),
    ;
}

/// Capability of an annotation payload: anything with a JSON shape may sit
/// under an annotation key.
pub trait Annotation {
    /// The JSON shape this annotation serializes to.
    spec fn shape(&self) -> JsonV;

    /// Serialize the annotation.
    fn to_json(&self) -> (r: Json)
        ensures
            r@ == self.shape(),
    ;
}

/// Conversion into the opaque structured value, for embedding point
/// collections into a dataset payload. The embedded copy reproduces field
/// omission exactly as direct serialization does.
pub trait DatasetDataExt {
    /// The JSON shape of the embedded copy.
    spec fn embedded(&self) -> JsonV;

    /// Embed into an opaque structured value; a value copy, after which
    /// the original and the copy are independent.
    fn to_dataset_data(self) -> (r: DatasetData)
        ensures
            r@ == self.embedded(),
    ;
}

/// The empty dataset payload: serializes to an empty object.
#[derive(Debug, Clone, Default)]
pub struct NoDatasets {}

impl DatasetTrait for NoDatasets {
    open spec fn wf(&self) -> bool {
        true
    }

    open spec fn shape(&self) -> JsonV {
        JsonV::Object(Seq::empty())
    }

    fn to_json(&self) -> (r: Json) {
        let v: Vec<(String, Json)> = Vec::new();
        reveal(crate::json::json_view);
        proof {
            crate::json::lemma_json_view_obj_empty();
        }
        Json::Object(v)
    }
}

/// The empty annotation payload: serializes to an empty object.
#[derive(Debug, Clone, Default)]
pub struct NoAnnotations {}

impl Annotation for NoAnnotations {
    open spec fn shape(&self) -> JsonV {
        JsonV::Object(Seq::empty())
    }

    fn to_json(&self) -> (r: Json) {
        let v: Vec<(String, Json)> = Vec::new();
        reveal(crate::json::json_view);
        proof {
            crate::json::lemma_json_view_obj_empty();
        }
        Json::Object(v)
    }
}

} // verus!

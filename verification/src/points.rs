//! Point and range values: fixed-shape composites of the scalar coercion
//! types, convertible into the opaque structured value for embedding into
//! a dataset payload.

use vstd::prelude::*;
use crate::json::{
    Json, JsonV, json_view, json_view_obj, json_view_list, member_if, push_member,
    lemma_json_view_list,
};
use crate::scalar::{NumberOrDateString, NumberString, coerce_number_text};
use crate::data::{DatasetData, DatasetDataExt};

verus! {

/// A point with an x scalar (number or date), a y scalar (number), and an
/// optional description.
#[derive(Debug, Clone, Default)]
pub struct XYPoint {
    pub x: NumberOrDateString,
    pub y: NumberString,
    pub description: String,
}

/// The object members an `XYPoint` serializes to: each field is omitted
/// where its text is empty.
pub open spec fn xy_point_fields(p: XYPoint) -> Seq<(Seq<char>, JsonV)> {
    member_if(p.x@.len() != 0, "x"@, coerce_number_text(p.x@)) + member_if(
        p.y@.len() != 0,
        "y"@,
        coerce_number_text(p.y@),
    ) + member_if(p.description@.len() != 0, "description"@, JsonV::Str(p.description@))
}

pub open spec fn xy_point_json(p: XYPoint) -> JsonV {
    JsonV::Object(xy_point_fields(p))
}

impl XYPoint {
    /// A point from its two coordinates, with no description.
    pub fn new(x: NumberOrDateString, y: NumberString) -> (r: Self)
        ensures
            r.x@ == x@,
            r.y@ == y@,
            r.description@.len() == 0,
    {
        XYPoint { x, y, description: String::new() }
    }

    /// The not-a-number sentinel: a point whose x and y are both the
    /// literal text `NaN`, marking a gap in a line series.
    #[allow(non_snake_case)]
    pub fn NaN() -> (r: Self)
        ensures
            r.x@ == seq!['N', 'a', 'N'],
            r.y@ == seq!['N', 'a', 'N'],
            r.description@.len() == 0,
    {
        proof {
            reveal_strlit("NaN");
            assert("NaN"@ =~= seq!['N', 'a', 'N']);
        }
        XYPoint {
            x: NumberOrDateString::from_text("NaN"),
            y: NumberString::from_text("NaN"),
            description: String::new(),
        }
    }

    /// Serialize; empty fields are omitted.
    pub fn to_json(&self) -> (r: Json)
        ensures
            r@ == xy_point_json(*self),
    {
        let mut out: Vec<(String, Json)> = Vec::new();
        let ghost mut want: Seq<(Seq<char>, JsonV)> = Seq::empty();
        reveal(crate::json::json_view);
        proof {
            crate::json::lemma_json_view_obj_empty();
            assert(json_view_obj(out@) == want);
        }
        if !self.x.is_empty() {
            push_member(&mut out, "x", self.x.to_json());
        }
        proof {
            want = want + member_if(self.x@.len() != 0, "x"@, coerce_number_text(self.x@));
            assert(json_view_obj(out@) =~= want);
        }
        if !self.y.is_empty() {
            push_member(&mut out, "y", self.y.to_json());
        }
        proof {
            want = want + member_if(self.y@.len() != 0, "y"@, coerce_number_text(self.y@));
            assert(json_view_obj(out@) =~= want);
        }
        if !self.description.as_str().is_empty() {
            push_member(&mut out, "description", Json::Str(self.description.clone()));
        }
        proof {
            want = want + member_if(
                self.description@.len() != 0,
                "description"@,
                JsonV::Str(self.description@),
            );
            assert(json_view_obj(out@) =~= want);
            assert(want =~= xy_point_fields(*self));
        }
        Json::Object(out)
    }
}

/// The JSON shapes of a sequence of points.
pub open spec fn xy_point_views(s: Seq<XYPoint>) -> Seq<JsonV> {
    Seq::new(s.len(), |i: int| xy_point_json(s[i]))
}

impl DatasetDataExt for Vec<XYPoint> {
    open spec fn embedded(&self) -> JsonV {
        JsonV::Array(xy_point_views(self@))
    }

    fn to_dataset_data(self) -> (r: DatasetData) {
        let mut out: Vec<Json> = Vec::new();
        let mut k: usize = 0;
        let n = self.len();
        reveal(crate::json::json_view);
        while k < n
            invariant
                0 <= k <= n,
                n == self@.len(),
                out@.len() == k,
                forall|i: int|
                    0 <= i < k ==> json_view(#[trigger] out@[i]) == xy_point_json(self@[i]),
            decreases n - k,
        {
            let j = self[k].to_json();
            out.push(j);
            k = k + 1;
        }
        proof {
            lemma_json_view_list(out@);
            assert forall|i: int|
                0 <= i < out@.len() implies json_view_list(out@)[i] == xy_point_views(
                self@,
            )[i] by {
                assert(json_view_list(out@)[i] == json_view(out@[i]));
            }
            assert(json_view_list(out@) =~= xy_point_views(self@));
        }
        DatasetData::new(Json::Array(out))
    }
}

/// A fixed pair of number-or-date scalars, serialized as a two-element
/// array with no omission.
pub type MinMaxPoint = [NumberOrDateString; 2];

/// The JSON shape of a min/max pair.
pub open spec fn min_max_json(p: MinMaxPoint) -> JsonV {
    JsonV::Array(seq![coerce_number_text(p[0]@), coerce_number_text(p[1]@)])
}

/// The JSON shapes of a sequence of min/max pairs.
pub open spec fn min_max_views(s: Seq<MinMaxPoint>) -> Seq<JsonV> {
    Seq::new(s.len(), |i: int| min_max_json(s[i]))
}

impl DatasetDataExt for Vec<MinMaxPoint> {
    open spec fn embedded(&self) -> JsonV {
        JsonV::Array(min_max_views(self@))
    }

    fn to_dataset_data(self) -> (r: DatasetData) {
        let mut out: Vec<Json> = Vec::new();
        let mut k: usize = 0;
        let n = self.len();
        reveal(crate::json::json_view);
        while k < n
            invariant
                0 <= k <= n,
                n == self@.len(),
                out@.len() == k,
                forall|i: int|
                    0 <= i < k ==> json_view(#[trigger] out@[i]) == min_max_json(self@[i]),
            decreases n - k,
        {
            let lo = self[k][0].to_json();
            let hi = self[k][1].to_json();
            let mut pair: Vec<Json> = Vec::new();
            pair.push(lo);
            pair.push(hi);
            reveal(crate::json::json_view);
            proof {
                lemma_json_view_list(pair@);
                assert(json_view_list(pair@)[0] == json_view(pair@[0]));
                assert(json_view_list(pair@)[1] == json_view(pair@[1]));
                assert(json_view_list(pair@) =~= seq![
                    coerce_number_text(self@[k as int][0]@),
                    coerce_number_text(self@[k as int][1]@),
                ]);
            }
            out.push(Json::Array(pair));
            k = k + 1;
        }
        proof {
            lemma_json_view_list(out@);
            assert forall|i: int|
                0 <= i < out@.len() implies json_view_list(out@)[i] == min_max_views(
                self@,
            )[i] by {
                assert(json_view_list(out@)[i] == json_view(out@[i]));
            }
            assert(json_view_list(out@) =~= min_max_views(self@));
        }
        DatasetData::new(Json::Array(out))
    }
}

} // verus!

//! Annotation shapes: lines and boxes drawn over the chart.

use vstd::prelude::*;
use crate::json::{Json, JsonV, json_view_obj, push_member, lemma_json_view_obj_empty};
use crate::scalar::{
    NumberOrDateString, NumberString, coerce_number_text, number_views, numbers_to_json,
};
use crate::data::Annotation;

verus! {

/// A line drawn over the chart; the `type` key carries the shape kind.
#[derive(Debug, Clone, Default)]
pub struct LineAnnotation {
    pub type_: String,
    pub drawTime: String,
    pub xMin: NumberOrDateString,
    pub xMax: NumberOrDateString,
    pub yMin: NumberOrDateString,
    pub yMax: NumberOrDateString,
    pub borderColor: String,
    pub borderDash: Vec<NumberString>,
    pub borderWidth: NumberString,
    pub yScaleID: NumberString,
}

/// The object members a `LineAnnotation` serializes to, in declaration
/// order; absent and empty fields are omitted.
pub open spec fn line_annotation_fields(c: LineAnnotation) -> Seq<(Seq<char>, JsonV)> {
    let s = Seq::<(Seq<char>, JsonV)>::empty();
    let s = if c.type_@.len() != 0 {
        s.push(("type"@, JsonV::Str(c.type_@)))
    } else {
        s
    };
    let s = if c.drawTime@.len() != 0 {
        s.push(("drawTime"@, JsonV::Str(c.drawTime@)))
    } else {
        s
    };
    let s = if c.xMin@.len() != 0 {
        s.push(("xMin"@, coerce_number_text(c.xMin@)))
    } else {
        s
    };
    let s = if c.xMax@.len() != 0 {
        s.push(("xMax"@, coerce_number_text(c.xMax@)))
    } else {
        s
    };
    let s = if c.yMin@.len() != 0 {
        s.push(("yMin"@, coerce_number_text(c.yMin@)))
    } else {
        s
    };
    let s = if c.yMax@.len() != 0 {
        s.push(("yMax"@, coerce_number_text(c.yMax@)))
    } else {
        s
    };
    let s = if c.borderColor@.len() != 0 {
        s.push(("borderColor"@, JsonV::Str(c.borderColor@)))
    } else {
        s
    };
    let s = if c.borderDash@.len() != 0 {
        s.push(("borderDash"@, JsonV::Array(number_views(c.borderDash@))))
    } else {
        s
    };
    let s = if c.borderWidth@.len() != 0 {
        s.push(("borderWidth"@, coerce_number_text(c.borderWidth@)))
    } else {
        s
    };
    let s = if c.yScaleID@.len() != 0 {
        s.push(("yScaleID"@, coerce_number_text(c.yScaleID@)))
    } else {
        s
    };
    s
}

pub open spec fn line_annotation_json(c: LineAnnotation) -> JsonV {
    JsonV::Object(line_annotation_fields(c))
}

impl Annotation for LineAnnotation {
    open spec fn shape(&self) -> JsonV {
        line_annotation_json(*self)
    }

    #[verifier::rlimit(100)]
    fn to_json(&self) -> (r: Json) {
        let mut out: Vec<(String, Json)> = Vec::new();
        let ghost mut want: Seq<(Seq<char>, JsonV)> = Seq::empty();
        reveal(crate::json::json_view);
        proof {
            lemma_json_view_obj_empty();
            assert(json_view_obj(out@) == want);
        }
        if !self.type_.as_str().is_empty() {
            push_member(&mut out, "type", Json::Str(self.type_.clone()));
        }
        proof {
            want = if self.type_@.len() != 0 {
                want.push(("type"@, JsonV::Str(self.type_@)))
            } else {
                want
            };
            assert(json_view_obj(out@) == want);
        }
        if !self.drawTime.as_str().is_empty() {
            push_member(&mut out, "drawTime", Json::Str(self.drawTime.clone()));
        }
        proof {
            want = if self.drawTime@.len() != 0 {
                want.push(("drawTime"@, JsonV::Str(self.drawTime@)))
            } else {
                want
            };
            assert(json_view_obj(out@) == want);
        }
        if !self.xMin.is_empty() {
            push_member(&mut out, "xMin", self.xMin.to_json());
        }
        proof {
            want = if self.xMin@.len() != 0 {
                want.push(("xMin"@, coerce_number_text(self.xMin@)))
            } else {
                want
            };
            assert(json_view_obj(out@) == want);
        }
        if !self.xMax.is_empty() {
            push_member(&mut out, "xMax", self.xMax.to_json());
        }
        proof {
            want = if self.xMax@.len() != 0 {
                want.push(("xMax"@, coerce_number_text(self.xMax@)))
            } else {
                want
            };
            assert(json_view_obj(out@) == want);
        }
        if !self.yMin.is_empty() {
            push_member(&mut out, "yMin", self.yMin.to_json());
        }
        proof {
            want = if self.yMin@.len() != 0 {
                want.push(("yMin"@, coerce_number_text(self.yMin@)))
            } else {
                want
            };
            assert(json_view_obj(out@) == want);
        }
        if !self.yMax.is_empty() {
            push_member(&mut out, "yMax", self.yMax.to_json());
        }
        proof {
            want = if self.yMax@.len() != 0 {
                want.push(("yMax"@, coerce_number_text(self.yMax@)))
            } else {
                want
            };
            assert(json_view_obj(out@) == want);
        }
        if !self.borderColor.as_str().is_empty() {
            push_member(&mut out, "borderColor", Json::Str(self.borderColor.clone()));
        }
        proof {
            want = if self.borderColor@.len() != 0 {
                want.push(("borderColor"@, JsonV::Str(self.borderColor@)))
            } else {
                want
            };
            assert(json_view_obj(out@) == want);
        }
        if self.borderDash.len() != 0 {
            push_member(&mut out, "borderDash", numbers_to_json(&self.borderDash));
        }
        proof {
            want = if self.borderDash@.len() != 0 {
                want.push(("borderDash"@, JsonV::Array(number_views(self.borderDash@))))
            } else {
                want
            };
            assert(json_view_obj(out@) == want);
        }
        if !self.borderWidth.is_empty() {
            push_member(&mut out, "borderWidth", self.borderWidth.to_json());
        }
        proof {
            want = if self.borderWidth@.len() != 0 {
                want.push(("borderWidth"@, coerce_number_text(self.borderWidth@)))
            } else {
                want
            };
            assert(json_view_obj(out@) == want);
        }
        if !self.yScaleID.is_empty() {
            push_member(&mut out, "yScaleID", self.yScaleID.to_json());
        }
        proof {
            want = if self.yScaleID@.len() != 0 {
                want.push(("yScaleID"@, coerce_number_text(self.yScaleID@)))
            } else {
                want
            };
            assert(json_view_obj(out@) == want);
        }
        proof {
            assert(want == line_annotation_fields(*self));
        }
        Json::Object(out)
    }
}

/// A box drawn over the chart; the `type` key carries the shape kind.
#[derive(Debug, Clone, Default)]
pub struct BoxAnnotation {
    pub type_: String,
    pub drawTime: String,
    pub xMin: String,
    pub xMax: String,
    pub yMin: String,
    pub yMax: String,
    pub borderColor: String,
    pub backgroundColor: String,
    pub borderDash: Vec<NumberString>,
    pub borderWidth: NumberString,
}

/// The object members a `BoxAnnotation` serializes to, in declaration
/// order; absent and empty fields are omitted.
pub open spec fn box_annotation_fields(c: BoxAnnotation) -> Seq<(Seq<char>, JsonV)> {
    let s = Seq::<(Seq<char>, JsonV)>::empty();
    let s = if c.type_@.len() != 0 {
        s.push(("type"@, JsonV::Str(c.type_@)))
    } else {
        s
    };
    let s = if c.drawTime@.len() != 0 {
        s.push(("drawTime"@, JsonV::Str(c.drawTime@)))
    } else {
        s
    };
    let s = if c.xMin@.len() != 0 {
        s.push(("xMin"@, JsonV::Str(c.xMin@)))
    } else {
        s
    };
    let s = if c.xMax@.len() != 0 {
        s.push(("xMax"@, JsonV::Str(c.xMax@)))
    } else {
        s
    };
    let s = if c.yMin@.len() != 0 {
        s.push(("yMin"@, JsonV::Str(c.yMin@)))
    } else {
        s
    };
    let s = if c.yMax@.len() != 0 {
        s.push(("yMax"@, JsonV::Str(c.yMax@)))
    } else {
        s
    };
    let s = if c.borderColor@.len() != 0 {
        s.push(("borderColor"@, JsonV::Str(c.borderColor@)))
    } else {
        s
    };
    let s = if c.backgroundColor@.len() != 0 {
        s.push(("backgroundColor"@, JsonV::Str(c.backgroundColor@)))
    } else {
        s
    };
    let s = if c.borderDash@.len() != 0 {
        s.push(("borderDash"@, JsonV::Array(number_views(c.borderDash@))))
    } else {
        s
    };
    let s = if c.borderWidth@.len() != 0 {
        s.push(("borderWidth"@, coerce_number_text(c.borderWidth@)))
    } else {
        s
    };
    s
}

pub open spec fn box_annotation_json(c: BoxAnnotation) -> JsonV {
    JsonV::Object(box_annotation_fields(c))
}

impl Annotation for BoxAnnotation {
    open spec fn shape(&self) -> JsonV {
        box_annotation_json(*self)
    }

    #[verifier::rlimit(100)]
    fn to_json(&self) -> (r: Json) {
        let mut out: Vec<(String, Json)> = Vec::new();
        let ghost mut want: Seq<(Seq<char>, JsonV)> = Seq::empty();
        reveal(crate::json::json_view);
        proof {
            lemma_json_view_obj_empty();
            assert(json_view_obj(out@) == want);
        }
        if !self.type_.as_str().is_empty() {
            push_member(&mut out, "type", Json::Str(self.type_.clone()));
        }
        proof {
            want = if self.type_@.len() != 0 {
                want.push(("type"@, JsonV::Str(self.type_@)))
            } else {
                want
            };
            assert(json_view_obj(out@) == want);
        }
        if !self.drawTime.as_str().is_empty() {
            push_member(&mut out, "drawTime", Json::Str(self.drawTime.clone()));
        }
        proof {
            want = if self.drawTime@.len() != 0 {
                want.push(("drawTime"@, JsonV::Str(self.drawTime@)))
            } else {
                want
            };
            assert(json_view_obj(out@) == want);
        }
        if !self.xMin.as_str().is_empty() {
            push_member(&mut out, "xMin", Json::Str(self.xMin.clone()));
        }
        proof {
            want = if self.xMin@.len() != 0 {
                want.push(("xMin"@, JsonV::Str(self.xMin@)))
            } else {
                want
            };
            assert(json_view_obj(out@) == want);
        }
        if !self.xMax.as_str().is_empty() {
            push_member(&mut out, "xMax", Json::Str(self.xMax.clone()));
        }
        proof {
            want = if self.xMax@.len() != 0 {
                want.push(("xMax"@, JsonV::Str(self.xMax@)))
            } else {
                want
            };
            assert(json_view_obj(out@) == want);
        }
        if !self.yMin.as_str().is_empty() {
            push_member(&mut out, "yMin", Json::Str(self.yMin.clone()));
        }
        proof {
            want = if self.yMin@.len() != 0 {
                want.push(("yMin"@, JsonV::Str(self.yMin@)))
            } else {
                want
            };
            assert(json_view_obj(out@) == want);
        }
        if !self.yMax.as_str().is_empty() {
            push_member(&mut out, "yMax", Json::Str(self.yMax.clone()));
        }
        proof {
            want = if self.yMax@.len() != 0 {
                want.push(("yMax"@, JsonV::Str(self.yMax@)))
            } else {
                want
            };
            assert(json_view_obj(out@) == want);
        }
        if !self.borderColor.as_str().is_empty() {
            push_member(&mut out, "borderColor", Json::Str(self.borderColor.clone()));
        }
        proof {
            want = if self.borderColor@.len() != 0 {
                want.push(("borderColor"@, JsonV::Str(self.borderColor@)))
            } else {
                want
            };
            assert(json_view_obj(out@) == want);
        }
        if !self.backgroundColor.as_str().is_empty() {
            push_member(&mut out, "backgroundColor", Json::Str(self.backgroundColor.clone()));
        }
        proof {
            want = if self.backgroundColor@.len() != 0 {
                want.push(("backgroundColor"@, JsonV::Str(self.backgroundColor@)))
            } else {
                want
            };
            assert(json_view_obj(out@) == want);
        }
        if self.borderDash.len() != 0 {
            push_member(&mut out, "borderDash", numbers_to_json(&self.borderDash));
        }
        proof {
            want = if self.borderDash@.len() != 0 {
                want.push(("borderDash"@, JsonV::Array(number_views(self.borderDash@))))
            } else {
                want
            };
            assert(json_view_obj(out@) == want);
        }
        if !self.borderWidth.is_empty() {
            push_member(&mut out, "borderWidth", self.borderWidth.to_json());
        }
        proof {
            want = if self.borderWidth@.len() != 0 {
                want.push(("borderWidth"@, coerce_number_text(self.borderWidth@)))
            } else {
                want
            };
            assert(json_view_obj(out@) == want);
        }
        proof {
            assert(want == box_annotation_fields(*self));
        }
        Json::Object(out)
    }
}

} // verus!

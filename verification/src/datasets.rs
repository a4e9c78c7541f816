//! Dataset records and the generic dataset envelope.

use vstd::prelude::*;
use crate::json::{
    Json, JsonV, json_view, json_view_list, json_view_obj, push_member, str_views,
    strings_to_json, lemma_json_view_list, lemma_json_view_obj_empty,
};
use crate::scalar::{
    BoolString, NumberOrDateString, NumberString, coerce_bool_text, coerce_number_text,
    number_views, numbers_to_json, nod_views, nods_to_json,
};
use crate::data::{DatasetData, DatasetTrait};
use crate::options::{DataLabels, data_labels_json, Segment, segment_json};

verus! {

/// A dataset of plain numeric points; the `type` key carries the chart
/// kind.
#[derive(Debug, Clone, Default)]
pub struct SinglePointDataset {
    pub backgroundColor: Vec<String>,
    pub base: NumberString,
    pub barThickness: NumberString,
    pub barPercentage: NumberString,
    pub borderColor: String,
    pub borderSkipped: String,
    pub borderWidth: NumberString,
    pub borderRadius: NumberString,
    pub borderJoinStyle: String,
    pub categoryPercentage: NumberString,
    pub clip: NumberString,
    pub data: Vec<NumberString>,
    pub grouped: Option<bool>,
    pub hoverBackgroundColor: String,
    pub hoverBorderColor: String,
    pub hoverBorderWidth: NumberString,
    pub hoverBorderRadius: NumberString,
    pub indexAxis: String,
    pub inflateAmount: NumberString,
    pub label: String,
    pub maxBarThickness: NumberString,
    pub minBarLength: NumberString,
    pub order: NumberString,
    pub pointBackgroundColor: String,
    pub pointBorderColor: String,
    pub pointBorderWidth: NumberString,
    pub pointHoverBackgroundColor: String,
    pub pointHoverBorderWidth: NumberString,
    pub pointHoverRadius: NumberOrDateString,
    pub pointRadius: NumberString,
    pub pointStyle: String,
    pub datalabels: Option<DataLabels>,
    pub type_: String,
    pub stepped: Option<bool>,
    pub skipNull: Option<bool>,
    pub stack: String,
    pub xAxisID: String,
    pub yAxisID: String,
}

pub open spec fn single_point_dataset_fields_part1(c: SinglePointDataset, acc: Seq<(Seq<char>, JsonV)>) -> Seq<
    (Seq<char>, JsonV),
> {
    let s = acc;
    let s = if c.backgroundColor@.len() != 0 {
        s.push(("backgroundColor"@, JsonV::Array(str_views(c.backgroundColor@))))
    } else {
        s
    };
    let s = if c.base@.len() != 0 {
        s.push(("base"@, coerce_number_text(c.base@)))
    } else {
        s
    };
    let s = if c.barThickness@.len() != 0 {
        s.push(("barThickness"@, coerce_number_text(c.barThickness@)))
    } else {
        s
    };
    let s = if c.barPercentage@.len() != 0 {
        s.push(("barPercentage"@, coerce_number_text(c.barPercentage@)))
    } else {
        s
    };
    let s = if c.borderColor@.len() != 0 {
        s.push(("borderColor"@, JsonV::Str(c.borderColor@)))
    } else {
        s
    };
    let s = if c.borderSkipped@.len() != 0 {
        s.push(("borderSkipped"@, JsonV::Str(c.borderSkipped@)))
    } else {
        s
    };
    let s = if c.borderWidth@.len() != 0 {
        s.push(("borderWidth"@, coerce_number_text(c.borderWidth@)))
    } else {
        s
    };
    let s = if c.borderRadius@.len() != 0 {
        s.push(("borderRadius"@, coerce_number_text(c.borderRadius@)))
    } else {
        s
    };
    let s = if c.borderJoinStyle@.len() != 0 {
        s.push(("borderJoinStyle"@, JsonV::Str(c.borderJoinStyle@)))
    } else {
        s
    };
    let s = if c.categoryPercentage@.len() != 0 {
        s.push(("categoryPercentage"@, coerce_number_text(c.categoryPercentage@)))
    } else {
        s
    };
    s
}

pub open spec fn single_point_dataset_fields_part2(c: SinglePointDataset, acc: Seq<(Seq<char>, JsonV)>) -> Seq<
    (Seq<char>, JsonV),
> {
    let s = acc;
    let s = if c.clip@.len() != 0 {
        s.push(("clip"@, coerce_number_text(c.clip@)))
    } else {
        s
    };
    let s = if c.data@.len() != 0 {
        s.push(("data"@, JsonV::Array(number_views(c.data@))))
    } else {
        s
    };
    let s = if c.grouped is Some {
        s.push(("grouped"@, JsonV::Bool(c.grouped->0)))
    } else {
        s
    };
    let s = if c.hoverBackgroundColor@.len() != 0 {
        s.push(("hoverBackgroundColor"@, JsonV::Str(c.hoverBackgroundColor@)))
    } else {
        s
    };
    let s = if c.hoverBorderColor@.len() != 0 {
        s.push(("hoverBorderColor"@, JsonV::Str(c.hoverBorderColor@)))
    } else {
        s
    };
    let s = if c.hoverBorderWidth@.len() != 0 {
        s.push(("hoverBorderWidth"@, coerce_number_text(c.hoverBorderWidth@)))
    } else {
        s
    };
    let s = if c.hoverBorderRadius@.len() != 0 {
        s.push(("hoverBorderRadius"@, coerce_number_text(c.hoverBorderRadius@)))
    } else {
        s
    };
    let s = if c.indexAxis@.len() != 0 {
        s.push(("indexAxis"@, JsonV::Str(c.indexAxis@)))
    } else {
        s
    };
    let s = if c.inflateAmount@.len() != 0 {
        s.push(("inflateAmount"@, coerce_number_text(c.inflateAmount@)))
    } else {
        s
    };
    let s = if c.label@.len() != 0 {
        s.push(("label"@, JsonV::Str(c.label@)))
    } else {
        s
    };
    s
}

pub open spec fn single_point_dataset_fields_part3(c: SinglePointDataset, acc: Seq<(Seq<char>, JsonV)>) -> Seq<
    (Seq<char>, JsonV),
> {
    let s = acc;
    let s = if c.maxBarThickness@.len() != 0 {
        s.push(("maxBarThickness"@, coerce_number_text(c.maxBarThickness@)))
    } else {
        s
    };
    let s = if c.minBarLength@.len() != 0 {
        s.push(("minBarLength"@, coerce_number_text(c.minBarLength@)))
    } else {
        s
    };
    let s = if c.order@.len() != 0 {
        s.push(("order"@, coerce_number_text(c.order@)))
    } else {
        s
    };
    let s = if c.pointBackgroundColor@.len() != 0 {
        s.push(("pointBackgroundColor"@, JsonV::Str(c.pointBackgroundColor@)))
    } else {
        s
    };
    let s = if c.pointBorderColor@.len() != 0 {
        s.push(("pointBorderColor"@, JsonV::Str(c.pointBorderColor@)))
    } else {
        s
    };
    let s = if c.pointBorderWidth@.len() != 0 {
        s.push(("pointBorderWidth"@, coerce_number_text(c.pointBorderWidth@)))
    } else {
        s
    };
    let s = if c.pointHoverBackgroundColor@.len() != 0 {
        s.push(("pointHoverBackgroundColor"@, JsonV::Str(c.pointHoverBackgroundColor@)))
    } else {
        s
    };
    let s = if c.pointHoverBorderWidth@.len() != 0 {
        s.push(("pointHoverBorderWidth"@, coerce_number_text(c.pointHoverBorderWidth@)))
    } else {
        s
    };
    let s = if c.pointHoverRadius@.len() != 0 {
        s.push(("pointHoverRadius"@, coerce_number_text(c.pointHoverRadius@)))
    } else {
        s
    };
    let s = if c.pointRadius@.len() != 0 {
        s.push(("pointRadius"@, coerce_number_text(c.pointRadius@)))
    } else {
        s
    };
    s
}

pub open spec fn single_point_dataset_fields_part4(c: SinglePointDataset, acc: Seq<(Seq<char>, JsonV)>) -> Seq<
    (Seq<char>, JsonV),
> {
    let s = acc;
    let s = if c.pointStyle@.len() != 0 {
        s.push(("pointStyle"@, JsonV::Str(c.pointStyle@)))
    } else {
        s
    };
    let s = if c.datalabels is Some {
        s.push(("datalabels"@, data_labels_json(c.datalabels->0)))
    } else {
        s
    };
    let s = if c.type_@.len() != 0 {
        s.push(("type"@, JsonV::Str(c.type_@)))
    } else {
        s
    };
    let s = if c.stepped is Some {
        s.push(("stepped"@, JsonV::Bool(c.stepped->0)))
    } else {
        s
    };
    let s = if c.skipNull is Some {
        s.push(("skipNull"@, JsonV::Bool(c.skipNull->0)))
    } else {
        s
    };
    let s = if c.stack@.len() != 0 {
        s.push(("stack"@, JsonV::Str(c.stack@)))
    } else {
        s
    };
    let s = if c.xAxisID@.len() != 0 {
        s.push(("xAxisID"@, JsonV::Str(c.xAxisID@)))
    } else {
        s
    };
    let s = if c.yAxisID@.len() != 0 {
        s.push(("yAxisID"@, JsonV::Str(c.yAxisID@)))
    } else {
        s
    };
    s
}

/// The object members a `SinglePointDataset` serializes to, in declaration
/// order; absent and empty fields are omitted.
pub open spec fn single_point_dataset_fields(c: SinglePointDataset) -> Seq<(Seq<char>, JsonV)> {
    single_point_dataset_fields_part4(c, single_point_dataset_fields_part3(c, single_point_dataset_fields_part2(c, single_point_dataset_fields_part1(c, Seq::empty()))))
}

pub open spec fn single_point_dataset_json(c: SinglePointDataset) -> JsonV {
    JsonV::Object(single_point_dataset_fields(c))
}

fn single_point_dataset_append_part1(c: &SinglePointDataset, out: &mut Vec<(String, Json)>)
    ensures
        json_view_obj(final(out)@) == single_point_dataset_fields_part1(*c, json_view_obj(old(out)@)),
{
    let ghost mut want: Seq<(Seq<char>, JsonV)> = json_view_obj(out@);
    reveal(crate::json::json_view);
    if c.backgroundColor.len() != 0 {
        push_member(out, "backgroundColor", strings_to_json(&c.backgroundColor));
    }
    proof {
        want = if c.backgroundColor@.len() != 0 {
            want.push(("backgroundColor"@, JsonV::Array(str_views(c.backgroundColor@))))
        } else {
            want
        };
        assert(json_view_obj(out@) == want);
    }
    if !c.base.is_empty() {
        push_member(out, "base", c.base.to_json());
    }
    proof {
        want = if c.base@.len() != 0 {
            want.push(("base"@, coerce_number_text(c.base@)))
        } else {
            want
        };
        assert(json_view_obj(out@) == want);
    }
    if !c.barThickness.is_empty() {
        push_member(out, "barThickness", c.barThickness.to_json());
    }
    proof {
        want = if c.barThickness@.len() != 0 {
            want.push(("barThickness"@, coerce_number_text(c.barThickness@)))
        } else {
            want
        };
        assert(json_view_obj(out@) == want);
    }
    if !c.barPercentage.is_empty() {
        push_member(out, "barPercentage", c.barPercentage.to_json());
    }
    proof {
        want = if c.barPercentage@.len() != 0 {
            want.push(("barPercentage"@, coerce_number_text(c.barPercentage@)))
        } else {
            want
        };
        assert(json_view_obj(out@) == want);
    }
    if !c.borderColor.as_str().is_empty() {
        push_member(out, "borderColor", Json::Str(c.borderColor.clone()));
    }
    proof {
        want = if c.borderColor@.len() != 0 {
            want.push(("borderColor"@, JsonV::Str(c.borderColor@)))
        } else {
            want
        };
        assert(json_view_obj(out@) == want);
    }
    if !c.borderSkipped.as_str().is_empty() {
        push_member(out, "borderSkipped", Json::Str(c.borderSkipped.clone()));
    }
    proof {
        want = if c.borderSkipped@.len() != 0 {
            want.push(("borderSkipped"@, JsonV::Str(c.borderSkipped@)))
        } else {
            want
        };
        assert(json_view_obj(out@) == want);
    }
    if !c.borderWidth.is_empty() {
        push_member(out, "borderWidth", c.borderWidth.to_json());
    }
    proof {
        want = if c.borderWidth@.len() != 0 {
            want.push(("borderWidth"@, coerce_number_text(c.borderWidth@)))
        } else {
            want
        };
        assert(json_view_obj(out@) == want);
    }
    if !c.borderRadius.is_empty() {
        push_member(out, "borderRadius", c.borderRadius.to_json());
    }
    proof {
        want = if c.borderRadius@.len() != 0 {
            want.push(("borderRadius"@, coerce_number_text(c.borderRadius@)))
        } else {
            want
        };
        assert(json_view_obj(out@) == want);
    }
    if !c.borderJoinStyle.as_str().is_empty() {
        push_member(out, "borderJoinStyle", Json::Str(c.borderJoinStyle.clone()));
    }
    proof {
        want = if c.borderJoinStyle@.len() != 0 {
            want.push(("borderJoinStyle"@, JsonV::Str(c.borderJoinStyle@)))
        } else {
            want
        };
        assert(json_view_obj(out@) == want);
    }
    if !c.categoryPercentage.is_empty() {
        push_member(out, "categoryPercentage", c.categoryPercentage.to_json());
    }
    proof {
        want = if c.categoryPercentage@.len() != 0 {
            want.push(("categoryPercentage"@, coerce_number_text(c.categoryPercentage@)))
        } else {
            want
        };
        assert(json_view_obj(out@) == want);
    }
    proof {
        assert(want == single_point_dataset_fields_part1(*c, json_view_obj(old(out)@)));
    }
}

fn single_point_dataset_append_part2(c: &SinglePointDataset, out: &mut Vec<(String, Json)>)
    ensures
        json_view_obj(final(out)@) == single_point_dataset_fields_part2(*c, json_view_obj(old(out)@)),
{
    let ghost mut want: Seq<(Seq<char>, JsonV)> = json_view_obj(out@);
    reveal(crate::json::json_view);
    if !c.clip.is_empty() {
        push_member(out, "clip", c.clip.to_json());
    }
    proof {
        want = if c.clip@.len() != 0 {
            want.push(("clip"@, coerce_number_text(c.clip@)))
        } else {
            want
        };
        assert(json_view_obj(out@) == want);
    }
    if c.data.len() != 0 {
        push_member(out, "data", numbers_to_json(&c.data));
    }
    proof {
        want = if c.data@.len() != 0 {
            want.push(("data"@, JsonV::Array(number_views(c.data@))))
        } else {
            want
        };
        assert(json_view_obj(out@) == want);
    }
    match c.grouped {
        Some(b) => push_member(out, "grouped", Json::Bool(b)),
        None => {},
    }
    proof {
        want = if c.grouped is Some {
            want.push(("grouped"@, JsonV::Bool(c.grouped->0)))
        } else {
            want
        };
        assert(json_view_obj(out@) == want);
    }
    if !c.hoverBackgroundColor.as_str().is_empty() {
        push_member(out, "hoverBackgroundColor", Json::Str(c.hoverBackgroundColor.clone()));
    }
    proof {
        want = if c.hoverBackgroundColor@.len() != 0 {
            want.push(("hoverBackgroundColor"@, JsonV::Str(c.hoverBackgroundColor@)))
        } else {
            want
        };
        assert(json_view_obj(out@) == want);
    }
    if !c.hoverBorderColor.as_str().is_empty() {
        push_member(out, "hoverBorderColor", Json::Str(c.hoverBorderColor.clone()));
    }
    proof {
        want = if c.hoverBorderColor@.len() != 0 {
            want.push(("hoverBorderColor"@, JsonV::Str(c.hoverBorderColor@)))
        } else {
            want
        };
        assert(json_view_obj(out@) == want);
    }
    if !c.hoverBorderWidth.is_empty() {
        push_member(out, "hoverBorderWidth", c.hoverBorderWidth.to_json());
    }
    proof {
        want = if c.hoverBorderWidth@.len() != 0 {
            want.push(("hoverBorderWidth"@, coerce_number_text(c.hoverBorderWidth@)))
        } else {
            want
        };
        assert(json_view_obj(out@) == want);
    }
    if !c.hoverBorderRadius.is_empty() {
        push_member(out, "hoverBorderRadius", c.hoverBorderRadius.to_json());
    }
    proof {
        want = if c.hoverBorderRadius@.len() != 0 {
            want.push(("hoverBorderRadius"@, coerce_number_text(c.hoverBorderRadius@)))
        } else {
            want
        };
        assert(json_view_obj(out@) == want);
    }
    if !c.indexAxis.as_str().is_empty() {
        push_member(out, "indexAxis", Json::Str(c.indexAxis.clone()));
    }
    proof {
        want = if c.indexAxis@.len() != 0 {
            want.push(("indexAxis"@, JsonV::Str(c.indexAxis@)))
        } else {
            want
        };
        assert(json_view_obj(out@) == want);
    }
    if !c.inflateAmount.is_empty() {
        push_member(out, "inflateAmount", c.inflateAmount.to_json());
    }
    proof {
        want = if c.inflateAmount@.len() != 0 {
            want.push(("inflateAmount"@, coerce_number_text(c.inflateAmount@)))
        } else {
            want
        };
        assert(json_view_obj(out@) == want);
    }
    if !c.label.as_str().is_empty() {
        push_member(out, "label", Json::Str(c.label.clone()));
    }
    proof {
        want = if c.label@.len() != 0 {
            want.push(("label"@, JsonV::Str(c.label@)))
        } else {
            want
        };
        assert(json_view_obj(out@) == want);
    }
    proof {
        assert(want == single_point_dataset_fields_part2(*c, json_view_obj(old(out)@)));
    }
}

fn single_point_dataset_append_part3(c: &SinglePointDataset, out: &mut Vec<(String, Json)>)
    ensures
        json_view_obj(final(out)@) == single_point_dataset_fields_part3(*c, json_view_obj(old(out)@)),
{
    let ghost mut want: Seq<(Seq<char>, JsonV)> = json_view_obj(out@);
    reveal(crate::json::json_view);
    if !c.maxBarThickness.is_empty() {
        push_member(out, "maxBarThickness", c.maxBarThickness.to_json());
    }
    proof {
        want = if c.maxBarThickness@.len() != 0 {
            want.push(("maxBarThickness"@, coerce_number_text(c.maxBarThickness@)))
        } else {
            want
        };
        assert(json_view_obj(out@) == want);
    }
    if !c.minBarLength.is_empty() {
        push_member(out, "minBarLength", c.minBarLength.to_json());
    }
    proof {
        want = if c.minBarLength@.len() != 0 {
            want.push(("minBarLength"@, coerce_number_text(c.minBarLength@)))
        } else {
            want
        };
        assert(json_view_obj(out@) == want);
    }
    if !c.order.is_empty() {
        push_member(out, "order", c.order.to_json());
    }
    proof {
        want = if c.order@.len() != 0 {
            want.push(("order"@, coerce_number_text(c.order@)))
        } else {
            want
        };
        assert(json_view_obj(out@) == want);
    }
    if !c.pointBackgroundColor.as_str().is_empty() {
        push_member(out, "pointBackgroundColor", Json::Str(c.pointBackgroundColor.clone()));
    }
    proof {
        want = if c.pointBackgroundColor@.len() != 0 {
            want.push(("pointBackgroundColor"@, JsonV::Str(c.pointBackgroundColor@)))
        } else {
            want
        };
        assert(json_view_obj(out@) == want);
    }
    if !c.pointBorderColor.as_str().is_empty() {
        push_member(out, "pointBorderColor", Json::Str(c.pointBorderColor.clone()));
    }
    proof {
        want = if c.pointBorderColor@.len() != 0 {
            want.push(("pointBorderColor"@, JsonV::Str(c.pointBorderColor@)))
        } else {
            want
        };
        assert(json_view_obj(out@) == want);
    }
    if !c.pointBorderWidth.is_empty() {
        push_member(out, "pointBorderWidth", c.pointBorderWidth.to_json());
    }
    proof {
        want = if c.pointBorderWidth@.len() != 0 {
            want.push(("pointBorderWidth"@, coerce_number_text(c.pointBorderWidth@)))
        } else {
            want
        };
        assert(json_view_obj(out@) == want);
    }
    if !c.pointHoverBackgroundColor.as_str().is_empty() {
        push_member(out, "pointHoverBackgroundColor", Json::Str(c.pointHoverBackgroundColor.clone()));
    }
    proof {
        want = if c.pointHoverBackgroundColor@.len() != 0 {
            want.push(("pointHoverBackgroundColor"@, JsonV::Str(c.pointHoverBackgroundColor@)))
        } else {
            want
        };
        assert(json_view_obj(out@) == want);
    }
    if !c.pointHoverBorderWidth.is_empty() {
        push_member(out, "pointHoverBorderWidth", c.pointHoverBorderWidth.to_json());
    }
    proof {
        want = if c.pointHoverBorderWidth@.len() != 0 {
            want.push(("pointHoverBorderWidth"@, coerce_number_text(c.pointHoverBorderWidth@)))
        } else {
            want
        };
        assert(json_view_obj(out@) == want);
    }
    if !c.pointHoverRadius.is_empty() {
        push_member(out, "pointHoverRadius", c.pointHoverRadius.to_json());
    }
    proof {
        want = if c.pointHoverRadius@.len() != 0 {
            want.push(("pointHoverRadius"@, coerce_number_text(c.pointHoverRadius@)))
        } else {
            want
        };
        assert(json_view_obj(out@) == want);
    }
    if !c.pointRadius.is_empty() {
        push_member(out, "pointRadius", c.pointRadius.to_json());
    }
    proof {
        want = if c.pointRadius@.len() != 0 {
            want.push(("pointRadius"@, coerce_number_text(c.pointRadius@)))
        } else {
            want
        };
        assert(json_view_obj(out@) == want);
    }
    proof {
        assert(want == single_point_dataset_fields_part3(*c, json_view_obj(old(out)@)));
    }
}

fn single_point_dataset_append_part4(c: &SinglePointDataset, out: &mut Vec<(String, Json)>)
    ensures
        json_view_obj(final(out)@) == single_point_dataset_fields_part4(*c, json_view_obj(old(out)@)),
{
    let ghost mut want: Seq<(Seq<char>, JsonV)> = json_view_obj(out@);
    reveal(crate::json::json_view);
    if !c.pointStyle.as_str().is_empty() {
        push_member(out, "pointStyle", Json::Str(c.pointStyle.clone()));
    }
    proof {
        want = if c.pointStyle@.len() != 0 {
            want.push(("pointStyle"@, JsonV::Str(c.pointStyle@)))
        } else {
            want
        };
        assert(json_view_obj(out@) == want);
    }
    match &c.datalabels {
        Some(x) => push_member(out, "datalabels", x.to_json()),
        None => {},
    }
    proof {
        want = if c.datalabels is Some {
            want.push(("datalabels"@, data_labels_json(c.datalabels->0)))
        } else {
            want
        };
        assert(json_view_obj(out@) == want);
    }
    if !c.type_.as_str().is_empty() {
        push_member(out, "type", Json::Str(c.type_.clone()));
    }
    proof {
        want = if c.type_@.len() != 0 {
            want.push(("type"@, JsonV::Str(c.type_@)))
        } else {
            want
        };
        assert(json_view_obj(out@) == want);
    }
    match c.stepped {
        Some(b) => push_member(out, "stepped", Json::Bool(b)),
        None => {},
    }
    proof {
        want = if c.stepped is Some {
            want.push(("stepped"@, JsonV::Bool(c.stepped->0)))
        } else {
            want
        };
        assert(json_view_obj(out@) == want);
    }
    match c.skipNull {
        Some(b) => push_member(out, "skipNull", Json::Bool(b)),
        None => {},
    }
    proof {
        want = if c.skipNull is Some {
            want.push(("skipNull"@, JsonV::Bool(c.skipNull->0)))
        } else {
            want
        };
        assert(json_view_obj(out@) == want);
    }
    if !c.stack.as_str().is_empty() {
        push_member(out, "stack", Json::Str(c.stack.clone()));
    }
    proof {
        want = if c.stack@.len() != 0 {
            want.push(("stack"@, JsonV::Str(c.stack@)))
        } else {
            want
        };
        assert(json_view_obj(out@) == want);
    }
    if !c.xAxisID.as_str().is_empty() {
        push_member(out, "xAxisID", Json::Str(c.xAxisID.clone()));
    }
    proof {
        want = if c.xAxisID@.len() != 0 {
            want.push(("xAxisID"@, JsonV::Str(c.xAxisID@)))
        } else {
            want
        };
        assert(json_view_obj(out@) == want);
    }
    if !c.yAxisID.as_str().is_empty() {
        push_member(out, "yAxisID", Json::Str(c.yAxisID.clone()));
    }
    proof {
        want = if c.yAxisID@.len() != 0 {
            want.push(("yAxisID"@, JsonV::Str(c.yAxisID@)))
        } else {
            want
        };
        assert(json_view_obj(out@) == want);
    }
    proof {
        assert(want == single_point_dataset_fields_part4(*c, json_view_obj(old(out)@)));
    }
}

impl SinglePointDataset {
    /// Serialize; absent and empty fields are omitted.
    #[verifier::rlimit(100)]
    pub fn to_json(&self) -> (r: Json)
        ensures
            r@ == single_point_dataset_json(*self),
    {
        let mut out: Vec<(String, Json)> = Vec::new();
        proof {
            crate::json::lemma_json_view_obj_empty();
        }
        single_point_dataset_append_part1(self, &mut out);
        single_point_dataset_append_part2(self, &mut out);
        single_point_dataset_append_part3(self, &mut out);
        single_point_dataset_append_part4(self, &mut out);
        reveal(crate::json::json_view);
        proof {
            assert(json_view_obj(out@) == single_point_dataset_fields(*self));
        }
        Json::Object(out)
    }
}

/// A dataset of x/y point data held as an opaque structured value; its
/// `data` must wrap an array.
#[derive(Debug, Clone, Default)]
pub struct XYDataset {
    pub backgroundColor: String,
    pub barThickness: NumberString,
    pub borderColor: String,
    pub borderDash: Vec<NumberString>,
    pub borderJoinStyle: String,
    pub borderWidth: NumberString,
    pub data: DatasetData,
    pub datalabels: Option<DataLabels>,
    pub description: String,
    pub category_label: String,
    pub hoverBackgroundColor: String,
    pub label: String,
    pub order: NumberString,
    pub pointBackgroundColor: String,
    pub pointBorderColor: String,
    pub pointBorderWidth: NumberString,
    pub pointHoverBackgroundColor: String,
    pub pointHoverBorderWidth: NumberString,
    pub pointHoverRadius: NumberOrDateString,
    pub pointRadius: NumberString,
    pub pointHitRadius: NumberString,
    pub hitRadius: NumberString,
    pub pointStyle: String,
    pub type_: String,
    pub stepped: Option<BoolString>,
    pub tension: NumberString,
    pub xAxisID: String,
    pub yAxisID: String,
    pub fill: String,
    pub base: NumberString,
    pub barPercentage: NumberString,
    pub borderSkipped: String,
    pub borderRadius: NumberString,
    pub categoryPercentage: NumberString,
    pub clip: NumberString,
    pub grouped: Option<bool>,
    pub hoverBorderColor: String,
    pub hoverBorderWidth: NumberString,
    pub hoverBorderRadius: NumberString,
    pub indexAxis: String,
    pub inflateAmount: NumberString,
    pub maxBarThickness: NumberString,
    pub minBarLength: NumberString,
    pub skipNull: Option<bool>,
    pub stack: String,
    pub z: NumberString,
    pub segment: Option<Segment>,
    pub spanGaps: Option<bool>,
}

pub open spec fn xy_dataset_fields_part1(c: XYDataset, acc: Seq<(Seq<char>, JsonV)>) -> Seq<
    (Seq<char>, JsonV),
> {
    let s = acc;
    let s = if c.backgroundColor@.len() != 0 {
        s.push(("backgroundColor"@, JsonV::Str(c.backgroundColor@)))
    } else {
        s
    };
    let s = if c.barThickness@.len() != 0 {
        s.push(("barThickness"@, coerce_number_text(c.barThickness@)))
    } else {
        s
    };
    let s = if c.borderColor@.len() != 0 {
        s.push(("borderColor"@, JsonV::Str(c.borderColor@)))
    } else {
        s
    };
    let s = if c.borderDash@.len() != 0 {
        s.push(("borderDash"@, JsonV::Array(number_views(c.borderDash@))))
    } else {
        s
    };
    let s = if c.borderJoinStyle@.len() != 0 {
        s.push(("borderJoinStyle"@, JsonV::Str(c.borderJoinStyle@)))
    } else {
        s
    };
    let s = if c.borderWidth@.len() != 0 {
        s.push(("borderWidth"@, coerce_number_text(c.borderWidth@)))
    } else {
        s
    };
    let s = if c.data@->Array_0.len() != 0 {
        s.push(("data"@, c.data@))
    } else {
        s
    };
    let s = if c.datalabels is Some {
        s.push(("datalabels"@, data_labels_json(c.datalabels->0)))
    } else {
        s
    };
    let s = if c.description@.len() != 0 {
        s.push(("description"@, JsonV::Str(c.description@)))
    } else {
        s
    };
    let s = if c.category_label@.len() != 0 {
        s.push(("category_label"@, JsonV::Str(c.category_label@)))
    } else {
        s
    };
    s
}

pub open spec fn xy_dataset_fields_part2(c: XYDataset, acc: Seq<(Seq<char>, JsonV)>) -> Seq<
    (Seq<char>, JsonV),
> {
    let s = acc;
    let s = if c.hoverBackgroundColor@.len() != 0 {
        s.push(("hoverBackgroundColor"@, JsonV::Str(c.hoverBackgroundColor@)))
    } else {
        s
    };
    let s = if c.label@.len() != 0 {
        s.push(("label"@, JsonV::Str(c.label@)))
    } else {
        s
    };
    let s = if c.order@.len() != 0 {
        s.push(("order"@, coerce_number_text(c.order@)))
    } else {
        s
    };
    let s = if c.pointBackgroundColor@.len() != 0 {
        s.push(("pointBackgroundColor"@, JsonV::Str(c.pointBackgroundColor@)))
    } else {
        s
    };
    let s = if c.pointBorderColor@.len() != 0 {
        s.push(("pointBorderColor"@, JsonV::Str(c.pointBorderColor@)))
    } else {
        s
    };
    let s = if c.pointBorderWidth@.len() != 0 {
        s.push(("pointBorderWidth"@, coerce_number_text(c.pointBorderWidth@)))
    } else {
        s
    };
    let s = if c.pointHoverBackgroundColor@.len() != 0 {
        s.push(("pointHoverBackgroundColor"@, JsonV::Str(c.pointHoverBackgroundColor@)))
    } else {
        s
    };
    let s = if c.pointHoverBorderWidth@.len() != 0 {
        s.push(("pointHoverBorderWidth"@, coerce_number_text(c.pointHoverBorderWidth@)))
    } else {
        s
    };
    let s = if c.pointHoverRadius@.len() != 0 {
        s.push(("pointHoverRadius"@, coerce_number_text(c.pointHoverRadius@)))
    } else {
        s
    };
    let s = if c.pointRadius@.len() != 0 {
        s.push(("pointRadius"@, coerce_number_text(c.pointRadius@)))
    } else {
        s
    };
    s
}

pub open spec fn xy_dataset_fields_part3(c: XYDataset, acc: Seq<(Seq<char>, JsonV)>) -> Seq<
    (Seq<char>, JsonV),
> {
    let s = acc;
    let s = if c.pointHitRadius@.len() != 0 {
        s.push(("pointHitRadius"@, coerce_number_text(c.pointHitRadius@)))
    } else {
        s
    };
    let s = if c.hitRadius@.len() != 0 {
        s.push(("hitRadius"@, coerce_number_text(c.hitRadius@)))
    } else {
        s
    };
    let s = if c.pointStyle@.len() != 0 {
        s.push(("pointStyle"@, JsonV::Str(c.pointStyle@)))
    } else {
        s
    };
    let s = if c.type_@.len() != 0 {
        s.push(("type"@, JsonV::Str(c.type_@)))
    } else {
        s
    };
    let s = if c.stepped is Some {
        s.push(("stepped"@, coerce_bool_text(c.stepped->0@)))
    } else {
        s
    };
    let s = if c.tension@.len() != 0 {
        s.push(("tension"@, coerce_number_text(c.tension@)))
    } else {
        s
    };
    let s = if c.xAxisID@.len() != 0 {
        s.push(("xAxisID"@, JsonV::Str(c.xAxisID@)))
    } else {
        s
    };
    let s = if c.yAxisID@.len() != 0 {
        s.push(("yAxisID"@, JsonV::Str(c.yAxisID@)))
    } else {
        s
    };
    let s = if c.fill@.len() != 0 {
        s.push(("fill"@, JsonV::Str(c.fill@)))
    } else {
        s
    };
    let s = if c.base@.len() != 0 {
        s.push(("base"@, coerce_number_text(c.base@)))
    } else {
        s
    };
    s
}

pub open spec fn xy_dataset_fields_part4(c: XYDataset, acc: Seq<(Seq<char>, JsonV)>) -> Seq<
    (Seq<char>, JsonV),
> {
    let s = acc;
    let s = if c.barPercentage@.len() != 0 {
        s.push(("barPercentage"@, coerce_number_text(c.barPercentage@)))
    } else {
        s
    };
    let s = if c.borderSkipped@.len() != 0 {
        s.push(("borderSkipped"@, JsonV::Str(c.borderSkipped@)))
    } else {
        s
    };
    let s = if c.borderRadius@.len() != 0 {
        s.push(("borderRadius"@, coerce_number_text(c.borderRadius@)))
    } else {
        s
    };
    let s = if c.categoryPercentage@.len() != 0 {
        s.push(("categoryPercentage"@, coerce_number_text(c.categoryPercentage@)))
    } else {
        s
    };
    let s = if c.clip@.len() != 0 {
        s.push(("clip"@, coerce_number_text(c.clip@)))
    } else {
        s
    };
    let s = if c.grouped is Some {
        s.push(("grouped"@, JsonV::Bool(c.grouped->0)))
    } else {
        s
    };
    let s = if c.hoverBorderColor@.len() != 0 {
        s.push(("hoverBorderColor"@, JsonV::Str(c.hoverBorderColor@)))
    } else {
        s
    };
    let s = if c.hoverBorderWidth@.len() != 0 {
        s.push(("hoverBorderWidth"@, coerce_number_text(c.hoverBorderWidth@)))
    } else {
        s
    };
    let s = if c.hoverBorderRadius@.len() != 0 {
        s.push(("hoverBorderRadius"@, coerce_number_text(c.hoverBorderRadius@)))
    } else {
        s
    };
    let s = if c.indexAxis@.len() != 0 {
        s.push(("indexAxis"@, JsonV::Str(c.indexAxis@)))
    } else {
        s
    };
    s
}

pub open spec fn xy_dataset_fields_part5(c: XYDataset, acc: Seq<(Seq<char>, JsonV)>) -> Seq<
    (Seq<char>, JsonV),
> {
    let s = acc;
    let s = if c.inflateAmount@.len() != 0 {
        s.push(("inflateAmount"@, coerce_number_text(c.inflateAmount@)))
    } else {
        s
    };
    let s = if c.maxBarThickness@.len() != 0 {
        s.push(("maxBarThickness"@, coerce_number_text(c.maxBarThickness@)))
    } else {
        s
    };
    let s = if c.minBarLength@.len() != 0 {
        s.push(("minBarLength"@, coerce_number_text(c.minBarLength@)))
    } else {
        s
    };
    let s = if c.skipNull is Some {
        s.push(("skipNull"@, JsonV::Bool(c.skipNull->0)))
    } else {
        s
    };
    let s = if c.stack@.len() != 0 {
        s.push(("stack"@, JsonV::Str(c.stack@)))
    } else {
        s
    };
    let s = if c.z@.len() != 0 {
        s.push(("z"@, coerce_number_text(c.z@)))
    } else {
        s
    };
    let s = if c.segment is Some {
        s.push(("segment"@, segment_json(c.segment->0)))
    } else {
        s
    };
    let s = if c.spanGaps is Some {
        s.push(("spanGaps"@, JsonV::Bool(c.spanGaps->0)))
    } else {
        s
    };
    s
}

/// The object members a `XYDataset` serializes to, in declaration
/// order; absent and empty fields are omitted.
pub open spec fn xy_dataset_fields(c: XYDataset) -> Seq<(Seq<char>, JsonV)> {
    xy_dataset_fields_part5(c, xy_dataset_fields_part4(c, xy_dataset_fields_part3(c, xy_dataset_fields_part2(c, xy_dataset_fields_part1(c, Seq::empty())))))
}

pub open spec fn xy_dataset_json(c: XYDataset) -> JsonV {
    JsonV::Object(xy_dataset_fields(c))
}

fn xy_dataset_append_part1(c: &XYDataset, out: &mut Vec<(String, Json)>)
    requires
        c.data@ is Array,
    ensures
        json_view_obj(final(out)@) == xy_dataset_fields_part1(*c, json_view_obj(old(out)@)),
{
    let ghost mut want: Seq<(Seq<char>, JsonV)> = json_view_obj(out@);
    reveal(crate::json::json_view);
    if !c.backgroundColor.as_str().is_empty() {
        push_member(out, "backgroundColor", Json::Str(c.backgroundColor.clone()));
    }
    proof {
        want = if c.backgroundColor@.len() != 0 {
            want.push(("backgroundColor"@, JsonV::Str(c.backgroundColor@)))
        } else {
            want
        };
        assert(json_view_obj(out@) == want);
    }
    if !c.barThickness.is_empty() {
        push_member(out, "barThickness", c.barThickness.to_json());
    }
    proof {
        want = if c.barThickness@.len() != 0 {
            want.push(("barThickness"@, coerce_number_text(c.barThickness@)))
        } else {
            want
        };
        assert(json_view_obj(out@) == want);
    }
    if !c.borderColor.as_str().is_empty() {
        push_member(out, "borderColor", Json::Str(c.borderColor.clone()));
    }
    proof {
        want = if c.borderColor@.len() != 0 {
            want.push(("borderColor"@, JsonV::Str(c.borderColor@)))
        } else {
            want
        };
        assert(json_view_obj(out@) == want);
    }
    if c.borderDash.len() != 0 {
        push_member(out, "borderDash", numbers_to_json(&c.borderDash));
    }
    proof {
        want = if c.borderDash@.len() != 0 {
            want.push(("borderDash"@, JsonV::Array(number_views(c.borderDash@))))
        } else {
            want
        };
        assert(json_view_obj(out@) == want);
    }
    if !c.borderJoinStyle.as_str().is_empty() {
        push_member(out, "borderJoinStyle", Json::Str(c.borderJoinStyle.clone()));
    }
    proof {
        want = if c.borderJoinStyle@.len() != 0 {
            want.push(("borderJoinStyle"@, JsonV::Str(c.borderJoinStyle@)))
        } else {
            want
        };
        assert(json_view_obj(out@) == want);
    }
    if !c.borderWidth.is_empty() {
        push_member(out, "borderWidth", c.borderWidth.to_json());
    }
    proof {
        want = if c.borderWidth@.len() != 0 {
            want.push(("borderWidth"@, coerce_number_text(c.borderWidth@)))
        } else {
            want
        };
        assert(json_view_obj(out@) == want);
    }
    if !c.data.is_empty() {
        push_member(out, "data", c.data.to_json());
    }
    proof {
        want = if c.data@->Array_0.len() != 0 {
            want.push(("data"@, c.data@))
        } else {
            want
        };
        assert(json_view_obj(out@) == want);
    }
    match &c.datalabels {
        Some(x) => push_member(out, "datalabels", x.to_json()),
        None => {},
    }
    proof {
        want = if c.datalabels is Some {
            want.push(("datalabels"@, data_labels_json(c.datalabels->0)))
        } else {
            want
        };
        assert(json_view_obj(out@) == want);
    }
    if !c.description.as_str().is_empty() {
        push_member(out, "description", Json::Str(c.description.clone()));
    }
    proof {
        want = if c.description@.len() != 0 {
            want.push(("description"@, JsonV::Str(c.description@)))
        } else {
            want
        };
        assert(json_view_obj(out@) == want);
    }
    if !c.category_label.as_str().is_empty() {
        push_member(out, "category_label", Json::Str(c.category_label.clone()));
    }
    proof {
        want = if c.category_label@.len() != 0 {
            want.push(("category_label"@, JsonV::Str(c.category_label@)))
        } else {
            want
        };
        assert(json_view_obj(out@) == want);
    }
    proof {
        assert(want == xy_dataset_fields_part1(*c, json_view_obj(old(out)@)));
    }
}

fn xy_dataset_append_part2(c: &XYDataset, out: &mut Vec<(String, Json)>)
    ensures
        json_view_obj(final(out)@) == xy_dataset_fields_part2(*c, json_view_obj(old(out)@)),
{
    let ghost mut want: Seq<(Seq<char>, JsonV)> = json_view_obj(out@);
    reveal(crate::json::json_view);
    if !c.hoverBackgroundColor.as_str().is_empty() {
        push_member(out, "hoverBackgroundColor", Json::Str(c.hoverBackgroundColor.clone()));
    }
    proof {
        want = if c.hoverBackgroundColor@.len() != 0 {
            want.push(("hoverBackgroundColor"@, JsonV::Str(c.hoverBackgroundColor@)))
        } else {
            want
        };
        assert(json_view_obj(out@) == want);
    }
    if !c.label.as_str().is_empty() {
        push_member(out, "label", Json::Str(c.label.clone()));
    }
    proof {
        want = if c.label@.len() != 0 {
            want.push(("label"@, JsonV::Str(c.label@)))
        } else {
            want
        };
        assert(json_view_obj(out@) == want);
    }
    if !c.order.is_empty() {
        push_member(out, "order", c.order.to_json());
    }
    proof {
        want = if c.order@.len() != 0 {
            want.push(("order"@, coerce_number_text(c.order@)))
        } else {
            want
        };
        assert(json_view_obj(out@) == want);
    }
    if !c.pointBackgroundColor.as_str().is_empty() {
        push_member(out, "pointBackgroundColor", Json::Str(c.pointBackgroundColor.clone()));
    }
    proof {
        want = if c.pointBackgroundColor@.len() != 0 {
            want.push(("pointBackgroundColor"@, JsonV::Str(c.pointBackgroundColor@)))
        } else {
            want
        };
        assert(json_view_obj(out@) == want);
    }
    if !c.pointBorderColor.as_str().is_empty() {
        push_member(out, "pointBorderColor", Json::Str(c.pointBorderColor.clone()));
    }
    proof {
        want = if c.pointBorderColor@.len() != 0 {
            want.push(("pointBorderColor"@, JsonV::Str(c.pointBorderColor@)))
        } else {
            want
        };
        assert(json_view_obj(out@) == want);
    }
    if !c.pointBorderWidth.is_empty() {
        push_member(out, "pointBorderWidth", c.pointBorderWidth.to_json());
    }
    proof {
        want = if c.pointBorderWidth@.len() != 0 {
            want.push(("pointBorderWidth"@, coerce_number_text(c.pointBorderWidth@)))
        } else {
            want
        };
        assert(json_view_obj(out@) == want);
    }
    if !c.pointHoverBackgroundColor.as_str().is_empty() {
        push_member(out, "pointHoverBackgroundColor", Json::Str(c.pointHoverBackgroundColor.clone()));
    }
    proof {
        want = if c.pointHoverBackgroundColor@.len() != 0 {
            want.push(("pointHoverBackgroundColor"@, JsonV::Str(c.pointHoverBackgroundColor@)))
        } else {
            want
        };
        assert(json_view_obj(out@) == want);
    }
    if !c.pointHoverBorderWidth.is_empty() {
        push_member(out, "pointHoverBorderWidth", c.pointHoverBorderWidth.to_json());
    }
    proof {
        want = if c.pointHoverBorderWidth@.len() != 0 {
            want.push(("pointHoverBorderWidth"@, coerce_number_text(c.pointHoverBorderWidth@)))
        } else {
            want
        };
        assert(json_view_obj(out@) == want);
    }
    if !c.pointHoverRadius.is_empty() {
        push_member(out, "pointHoverRadius", c.pointHoverRadius.to_json());
    }
    proof {
        want = if c.pointHoverRadius@.len() != 0 {
            want.push(("pointHoverRadius"@, coerce_number_text(c.pointHoverRadius@)))
        } else {
            want
        };
        assert(json_view_obj(out@) == want);
    }
    if !c.pointRadius.is_empty() {
        push_member(out, "pointRadius", c.pointRadius.to_json());
    }
    proof {
        want = if c.pointRadius@.len() != 0 {
            want.push(("pointRadius"@, coerce_number_text(c.pointRadius@)))
        } else {
            want
        };
        assert(json_view_obj(out@) == want);
    }
    proof {
        assert(want == xy_dataset_fields_part2(*c, json_view_obj(old(out)@)));
    }
}

fn xy_dataset_append_part3(c: &XYDataset, out: &mut Vec<(String, Json)>)
    ensures
        json_view_obj(final(out)@) == xy_dataset_fields_part3(*c, json_view_obj(old(out)@)),
{
    let ghost mut want: Seq<(Seq<char>, JsonV)> = json_view_obj(out@);
    reveal(crate::json::json_view);
    if !c.pointHitRadius.is_empty() {
        push_member(out, "pointHitRadius", c.pointHitRadius.to_json());
    }
    proof {
        want = if c.pointHitRadius@.len() != 0 {
            want.push(("pointHitRadius"@, coerce_number_text(c.pointHitRadius@)))
        } else {
            want
        };
        assert(json_view_obj(out@) == want);
    }
    if !c.hitRadius.is_empty() {
        push_member(out, "hitRadius", c.hitRadius.to_json());
    }
    proof {
        want = if c.hitRadius@.len() != 0 {
            want.push(("hitRadius"@, coerce_number_text(c.hitRadius@)))
        } else {
            want
        };
        assert(json_view_obj(out@) == want);
    }
    if !c.pointStyle.as_str().is_empty() {
        push_member(out, "pointStyle", Json::Str(c.pointStyle.clone()));
    }
    proof {
        want = if c.pointStyle@.len() != 0 {
            want.push(("pointStyle"@, JsonV::Str(c.pointStyle@)))
        } else {
            want
        };
        assert(json_view_obj(out@) == want);
    }
    if !c.type_.as_str().is_empty() {
        push_member(out, "type", Json::Str(c.type_.clone()));
    }
    proof {
        want = if c.type_@.len() != 0 {
            want.push(("type"@, JsonV::Str(c.type_@)))
        } else {
            want
        };
        assert(json_view_obj(out@) == want);
    }
    match &c.stepped {
        Some(x) => push_member(out, "stepped", x.to_json()),
        None => {},
    }
    proof {
        want = if c.stepped is Some {
            want.push(("stepped"@, coerce_bool_text(c.stepped->0@)))
        } else {
            want
        };
        assert(json_view_obj(out@) == want);
    }
    if !c.tension.is_empty() {
        push_member(out, "tension", c.tension.to_json());
    }
    proof {
        want = if c.tension@.len() != 0 {
            want.push(("tension"@, coerce_number_text(c.tension@)))
        } else {
            want
        };
        assert(json_view_obj(out@) == want);
    }
    if !c.xAxisID.as_str().is_empty() {
        push_member(out, "xAxisID", Json::Str(c.xAxisID.clone()));
    }
    proof {
        want = if c.xAxisID@.len() != 0 {
            want.push(("xAxisID"@, JsonV::Str(c.xAxisID@)))
        } else {
            want
        };
        assert(json_view_obj(out@) == want);
    }
    if !c.yAxisID.as_str().is_empty() {
        push_member(out, "yAxisID", Json::Str(c.yAxisID.clone()));
    }
    proof {
        want = if c.yAxisID@.len() != 0 {
            want.push(("yAxisID"@, JsonV::Str(c.yAxisID@)))
        } else {
            want
        };
        assert(json_view_obj(out@) == want);
    }
    if !c.fill.as_str().is_empty() {
        push_member(out, "fill", Json::Str(c.fill.clone()));
    }
    proof {
        want = if c.fill@.len() != 0 {
            want.push(("fill"@, JsonV::Str(c.fill@)))
        } else {
            want
        };
        assert(json_view_obj(out@) == want);
    }
    if !c.base.is_empty() {
        push_member(out, "base", c.base.to_json());
    }
    proof {
        want = if c.base@.len() != 0 {
            want.push(("base"@, coerce_number_text(c.base@)))
        } else {
            want
        };
        assert(json_view_obj(out@) == want);
    }
    proof {
        assert(want == xy_dataset_fields_part3(*c, json_view_obj(old(out)@)));
    }
}

fn xy_dataset_append_part4(c: &XYDataset, out: &mut Vec<(String, Json)>)
    ensures
        json_view_obj(final(out)@) == xy_dataset_fields_part4(*c, json_view_obj(old(out)@)),
{
    let ghost mut want: Seq<(Seq<char>, JsonV)> = json_view_obj(out@);
    reveal(crate::json::json_view);
    if !c.barPercentage.is_empty() {
        push_member(out, "barPercentage", c.barPercentage.to_json());
    }
    proof {
        want = if c.barPercentage@.len() != 0 {
            want.push(("barPercentage"@, coerce_number_text(c.barPercentage@)))
        } else {
            want
        };
        assert(json_view_obj(out@) == want);
    }
    if !c.borderSkipped.as_str().is_empty() {
        push_member(out, "borderSkipped", Json::Str(c.borderSkipped.clone()));
    }
    proof {
        want = if c.borderSkipped@.len() != 0 {
            want.push(("borderSkipped"@, JsonV::Str(c.borderSkipped@)))
        } else {
            want
        };
        assert(json_view_obj(out@) == want);
    }
    if !c.borderRadius.is_empty() {
        push_member(out, "borderRadius", c.borderRadius.to_json());
    }
    proof {
        want = if c.borderRadius@.len() != 0 {
            want.push(("borderRadius"@, coerce_number_text(c.borderRadius@)))
        } else {
            want
        };
        assert(json_view_obj(out@) == want);
    }
    if !c.categoryPercentage.is_empty() {
        push_member(out, "categoryPercentage", c.categoryPercentage.to_json());
    }
    proof {
        want = if c.categoryPercentage@.len() != 0 {
            want.push(("categoryPercentage"@, coerce_number_text(c.categoryPercentage@)))
        } else {
            want
        };
        assert(json_view_obj(out@) == want);
    }
    if !c.clip.is_empty() {
        push_member(out, "clip", c.clip.to_json());
    }
    proof {
        want = if c.clip@.len() != 0 {
            want.push(("clip"@, coerce_number_text(c.clip@)))
        } else {
            want
        };
        assert(json_view_obj(out@) == want);
    }
    match c.grouped {
        Some(b) => push_member(out, "grouped", Json::Bool(b)),
        None => {},
    }
    proof {
        want = if c.grouped is Some {
            want.push(("grouped"@, JsonV::Bool(c.grouped->0)))
        } else {
            want
        };
        assert(json_view_obj(out@) == want);
    }
    if !c.hoverBorderColor.as_str().is_empty() {
        push_member(out, "hoverBorderColor", Json::Str(c.hoverBorderColor.clone()));
    }
    proof {
        want = if c.hoverBorderColor@.len() != 0 {
            want.push(("hoverBorderColor"@, JsonV::Str(c.hoverBorderColor@)))
        } else {
            want
        };
        assert(json_view_obj(out@) == want);
    }
    if !c.hoverBorderWidth.is_empty() {
        push_member(out, "hoverBorderWidth", c.hoverBorderWidth.to_json());
    }
    proof {
        want = if c.hoverBorderWidth@.len() != 0 {
            want.push(("hoverBorderWidth"@, coerce_number_text(c.hoverBorderWidth@)))
        } else {
            want
        };
        assert(json_view_obj(out@) == want);
    }
    if !c.hoverBorderRadius.is_empty() {
        push_member(out, "hoverBorderRadius", c.hoverBorderRadius.to_json());
    }
    proof {
        want = if c.hoverBorderRadius@.len() != 0 {
            want.push(("hoverBorderRadius"@, coerce_number_text(c.hoverBorderRadius@)))
        } else {
            want
        };
        assert(json_view_obj(out@) == want);
    }
    if !c.indexAxis.as_str().is_empty() {
        push_member(out, "indexAxis", Json::Str(c.indexAxis.clone()));
    }
    proof {
        want = if c.indexAxis@.len() != 0 {
            want.push(("indexAxis"@, JsonV::Str(c.indexAxis@)))
        } else {
            want
        };
        assert(json_view_obj(out@) == want);
    }
    proof {
        assert(want == xy_dataset_fields_part4(*c, json_view_obj(old(out)@)));
    }
}

fn xy_dataset_append_part5(c: &XYDataset, out: &mut Vec<(String, Json)>)
    ensures
        json_view_obj(final(out)@) == xy_dataset_fields_part5(*c, json_view_obj(old(out)@)),
{
    let ghost mut want: Seq<(Seq<char>, JsonV)> = json_view_obj(out@);
    reveal(crate::json::json_view);
    if !c.inflateAmount.is_empty() {
        push_member(out, "inflateAmount", c.inflateAmount.to_json());
    }
    proof {
        want = if c.inflateAmount@.len() != 0 {
            want.push(("inflateAmount"@, coerce_number_text(c.inflateAmount@)))
        } else {
            want
        };
        assert(json_view_obj(out@) == want);
    }
    if !c.maxBarThickness.is_empty() {
        push_member(out, "maxBarThickness", c.maxBarThickness.to_json());
    }
    proof {
        want = if c.maxBarThickness@.len() != 0 {
            want.push(("maxBarThickness"@, coerce_number_text(c.maxBarThickness@)))
        } else {
            want
        };
        assert(json_view_obj(out@) == want);
    }
    if !c.minBarLength.is_empty() {
        push_member(out, "minBarLength", c.minBarLength.to_json());
    }
    proof {
        want = if c.minBarLength@.len() != 0 {
            want.push(("minBarLength"@, coerce_number_text(c.minBarLength@)))
        } else {
            want
        };
        assert(json_view_obj(out@) == want);
    }
    match c.skipNull {
        Some(b) => push_member(out, "skipNull", Json::Bool(b)),
        None => {},
    }
    proof {
        want = if c.skipNull is Some {
            want.push(("skipNull"@, JsonV::Bool(c.skipNull->0)))
        } else {
            want
        };
        assert(json_view_obj(out@) == want);
    }
    if !c.stack.as_str().is_empty() {
        push_member(out, "stack", Json::Str(c.stack.clone()));
    }
    proof {
        want = if c.stack@.len() != 0 {
            want.push(("stack"@, JsonV::Str(c.stack@)))
        } else {
            want
        };
        assert(json_view_obj(out@) == want);
    }
    if !c.z.is_empty() {
        push_member(out, "z", c.z.to_json());
    }
    proof {
        want = if c.z@.len() != 0 {
            want.push(("z"@, coerce_number_text(c.z@)))
        } else {
            want
        };
        assert(json_view_obj(out@) == want);
    }
    match &c.segment {
        Some(x) => push_member(out, "segment", x.to_json()),
        None => {},
    }
    proof {
        want = if c.segment is Some {
            want.push(("segment"@, segment_json(c.segment->0)))
        } else {
            want
        };
        assert(json_view_obj(out@) == want);
    }
    match c.spanGaps {
        Some(b) => push_member(out, "spanGaps", Json::Bool(b)),
        None => {},
    }
    proof {
        want = if c.spanGaps is Some {
            want.push(("spanGaps"@, JsonV::Bool(c.spanGaps->0)))
        } else {
            want
        };
        assert(json_view_obj(out@) == want);
    }
    proof {
        assert(want == xy_dataset_fields_part5(*c, json_view_obj(old(out)@)));
    }
}

impl XYDataset {
    /// Serialize; absent and empty fields are omitted.
    #[verifier::rlimit(100)]
    pub fn to_json(&self) -> (r: Json)
        requires
            self.data@ is Array,
        ensures
            r@ == xy_dataset_json(*self),
    {
        let mut out: Vec<(String, Json)> = Vec::new();
        proof {
            crate::json::lemma_json_view_obj_empty();
        }
        xy_dataset_append_part1(self, &mut out);
        xy_dataset_append_part2(self, &mut out);
        xy_dataset_append_part3(self, &mut out);
        xy_dataset_append_part4(self, &mut out);
        xy_dataset_append_part5(self, &mut out);
        reveal(crate::json::json_view);
        proof {
            assert(json_view_obj(out@) == xy_dataset_fields(*self));
        }
        Json::Object(out)
    }
}

// ===== the dataset envelope =====

/// The dataset envelope: a payload of capability `D` plus an optional
/// ordered sequence of axis labels.
#[derive(Debug, Clone, Default)]
pub struct Dataset<D: DatasetTrait> {
    pub datasets: D,
    pub labels: Option<Vec<NumberOrDateString>>,
}

/// The object members a `Dataset` serializes to: the payload always, the
/// labels only where present.
pub open spec fn dataset_fields<D: DatasetTrait>(c: Dataset<D>) -> Seq<(Seq<char>, JsonV)> {
    let s = Seq::<(Seq<char>, JsonV)>::empty();
    let s = s.push(("datasets"@, c.datasets.shape()));
    let s = if c.labels is Some {
        s.push(("labels"@, JsonV::Array(nod_views(c.labels->0@))))
    } else {
        s
    };
    s
}

pub open spec fn dataset_json<D: DatasetTrait>(c: Dataset<D>) -> JsonV {
    JsonV::Object(dataset_fields(c))
}

impl<D: DatasetTrait> Dataset<D> {
    /// Serialize; the labels are omitted where absent.
    #[verifier::rlimit(100)]
    pub fn to_json(&self) -> (r: Json)
        requires
            self.datasets.wf(),
        ensures
            r@ == dataset_json(*self),
    {
        let mut out: Vec<(String, Json)> = Vec::new();
        let ghost mut want: Seq<(Seq<char>, JsonV)> = Seq::empty();
        reveal(crate::json::json_view);
        proof {
            lemma_json_view_obj_empty();
            assert(json_view_obj(out@) == want);
        }
        push_member(&mut out, "datasets", self.datasets.to_json());
        proof {
            want = want.push(("datasets"@, self.datasets.shape()));
            assert(json_view_obj(out@) == want);
        }
        match &self.labels {
            Some(ls) => push_member(&mut out, "labels", nods_to_json(ls)),
            None => {},
        }
        proof {
            want = if self.labels is Some {
                want.push(("labels"@, JsonV::Array(nod_views(self.labels->0@))))
            } else {
                want
            };
            assert(json_view_obj(out@) == want);
            assert(want == dataset_fields(*self));
        }
        Json::Object(out)
    }
}

// ===== dataset collections as payloads =====

/// The JSON shapes of a sequence of single-point datasets.
pub open spec fn single_point_dataset_views(s: Seq<SinglePointDataset>) -> Seq<JsonV> {
    Seq::new(s.len(), |i: int| single_point_dataset_json(s[i]))
}

impl DatasetTrait for Vec<SinglePointDataset> {
    open spec fn wf(&self) -> bool {
        true
    }

    open spec fn shape(&self) -> JsonV {
        JsonV::Array(single_point_dataset_views(self@))
    }

    fn to_json(&self) -> (r: Json) {
        let mut out: Vec<Json> = Vec::new();
        let mut k: usize = 0;
        let n = self.len();
        while k < n
            invariant
                0 <= k <= n,
                n == self@.len(),
                out@.len() == k,
                forall|i: int|
                    0 <= i < k ==> json_view(#[trigger] out@[i]) == single_point_dataset_json(
                        self@[i],
                    ),
            decreases n - k,
        {
            let j = self[k].to_json();
            out.push(j);
            k = k + 1;
        }
        proof {
            lemma_json_view_list(out@);
            assert forall|i: int|
                0 <= i < out@.len() implies json_view_list(out@)[i]
                == single_point_dataset_views(self@)[i] by {
                assert(json_view_list(out@)[i] == json_view(out@[i]));
            }
            assert(json_view_list(out@) =~= single_point_dataset_views(self@));
        }
        reveal(crate::json::json_view);
        Json::Array(out)
    }
}

/// The JSON shapes of a sequence of x/y datasets.
pub open spec fn xy_dataset_views(s: Seq<XYDataset>) -> Seq<JsonV> {
    Seq::new(s.len(), |i: int| xy_dataset_json(s[i]))
}

impl DatasetTrait for Vec<XYDataset> {
    /// Every member's point data must wrap an array.
    open spec fn wf(&self) -> bool {
        forall|i: int| 0 <= i < self@.len() ==> (#[trigger] self@[i]).data@ is Array
    }

    open spec fn shape(&self) -> JsonV {
        JsonV::Array(xy_dataset_views(self@))
    }

    fn to_json(&self) -> (r: Json) {
        let mut out: Vec<Json> = Vec::new();
        let mut k: usize = 0;
        let n = self.len();
        while k < n
            invariant
                0 <= k <= n,
                n == self@.len(),
                out@.len() == k,
                self.wf(),
                forall|i: int|
                    0 <= i < k ==> json_view(#[trigger] out@[i]) == xy_dataset_json(self@[i]),
            decreases n - k,
        {
            let j = self[k].to_json();
            out.push(j);
            k = k + 1;
        }
        proof {
            lemma_json_view_list(out@);
            assert forall|i: int|
                0 <= i < out@.len() implies json_view_list(out@)[i] == xy_dataset_views(
                self@,
            )[i] by {
                assert(json_view_list(out@)[i] == json_view(out@[i]));
            }
            assert(json_view_list(out@) =~= xy_dataset_views(self@));
        }
        reveal(crate::json::json_view);
        Json::Array(out)
    }
}

} // verus!

//! Chart options: plugins, legends, tooltips, elements, fonts and
//! the styling records they are built from.

use vstd::prelude::*;
use crate::json::{
    Json, JsonV, json_view, json_view_obj, push_member, lemma_json_view_obj,
    lemma_json_view_obj_empty,
};
use crate::scalar::{BoolString, NumberString, coerce_bool_text, coerce_number_text};
use crate::data::Annotation;
use crate::scales::{ChartScale, chart_scale_json};

verus! {

/// A function-expression placeholder for styling fields. Only its
/// emptiness matters to the envelope: empty values are omitted. It
/// serializes as its source text.
#[derive(Debug, Clone, Default)]
pub struct FnWithArgs {
    pub body: String,
}

impl View for FnWithArgs {
    type V = Seq<char>;

    open spec fn view(&self) -> Seq<char> {
        self.body@
    }
}

impl FnWithArgs {
    /// Whether the expression is empty; empty values are omitted.
    pub fn is_empty(&self) -> (r: bool)
        ensures
            r <==> self@.len() == 0,
    {
        self.body.as_str().is_empty()
    }

    /// Serialize as the source text.
    pub fn to_json(&self) -> (r: Json)
        ensures
            r@ == JsonV::Str(self@),
    {
        reveal(crate::json::json_view);
        Json::Str(self.body.clone())
    }
}

/// Per-segment styling of a line, as function expressions.
#[derive(Debug, Clone, Default)]
pub struct Segment {
    pub borderDash: FnWithArgs,
    pub borderColor: FnWithArgs,
}

/// The object members a `Segment` serializes to, in declaration
/// order; absent and empty fields are omitted.
pub open spec fn segment_fields(c: Segment) -> Seq<(Seq<char>, JsonV)> {
    let s = Seq::<(Seq<char>, JsonV)>::empty();
    let s = if c.borderDash@.len() != 0 {
        s.push(("borderDash"@, JsonV::Str(c.borderDash@)))
    } else {
        s
    };
    let s = if c.borderColor@.len() != 0 {
        s.push(("borderColor"@, JsonV::Str(c.borderColor@)))
    } else {
        s
    };
    s
}

pub open spec fn segment_json(c: Segment) -> JsonV {
    JsonV::Object(segment_fields(c))
}

impl Segment {
    /// Serialize; absent and empty fields are omitted.
    #[verifier::rlimit(100)]
    pub fn to_json(&self) -> (r: Json)
        ensures
            r@ == segment_json(*self),
    {
        let mut out: Vec<(String, Json)> = Vec::new();
        let ghost mut want: Seq<(Seq<char>, JsonV)> = Seq::empty();
        reveal(crate::json::json_view);
        proof {
            lemma_json_view_obj_empty();
            assert(json_view_obj(out@) == want);
        }
        if !self.borderDash.is_empty() {
            push_member(&mut out, "borderDash", self.borderDash.to_json());
        }
        proof {
            want = if self.borderDash@.len() != 0 {
                want.push(("borderDash"@, JsonV::Str(self.borderDash@)))
            } else {
                want
            };
            assert(json_view_obj(out@) == want);
        }
        if !self.borderColor.is_empty() {
            push_member(&mut out, "borderColor", self.borderColor.to_json());
        }
        proof {
            want = if self.borderColor@.len() != 0 {
                want.push(("borderColor"@, JsonV::Str(self.borderColor@)))
            } else {
                want
            };
            assert(json_view_obj(out@) == want);
        }
        proof {
            assert(want == segment_fields(*self));
        }
        Json::Object(out)
    }
}

/// Padding on the four sides.
#[derive(Debug, Clone, Default)]
pub struct Padding {
    pub top: NumberString,
    pub bottom: NumberString,
    pub left: NumberString,
    pub right: NumberString,
}

/// The object members a `Padding` serializes to, in declaration
/// order; absent and empty fields are omitted.
pub open spec fn padding_fields(c: Padding) -> Seq<(Seq<char>, JsonV)> {
    let s = Seq::<(Seq<char>, JsonV)>::empty();
    let s = if c.top@.len() != 0 {
        s.push(("top"@, coerce_number_text(c.top@)))
    } else {
        s
    };
    let s = if c.bottom@.len() != 0 {
        s.push(("bottom"@, coerce_number_text(c.bottom@)))
    } else {
        s
    };
    let s = if c.left@.len() != 0 {
        s.push(("left"@, coerce_number_text(c.left@)))
    } else {
        s
    };
    let s = if c.right@.len() != 0 {
        s.push(("right"@, coerce_number_text(c.right@)))
    } else {
        s
    };
    s
}

pub open spec fn padding_json(c: Padding) -> JsonV {
    JsonV::Object(padding_fields(c))
}

impl Padding {
    /// Serialize; absent and empty fields are omitted.
    #[verifier::rlimit(100)]
    pub fn to_json(&self) -> (r: Json)
        ensures
            r@ == padding_json(*self),
    {
        let mut out: Vec<(String, Json)> = Vec::new();
        let ghost mut want: Seq<(Seq<char>, JsonV)> = Seq::empty();
        reveal(crate::json::json_view);
        proof {
            lemma_json_view_obj_empty();
            assert(json_view_obj(out@) == want);
        }
        if !self.top.is_empty() {
            push_member(&mut out, "top", self.top.to_json());
        }
        proof {
            want = if self.top@.len() != 0 {
                want.push(("top"@, coerce_number_text(self.top@)))
            } else {
                want
            };
            assert(json_view_obj(out@) == want);
        }
        if !self.bottom.is_empty() {
            push_member(&mut out, "bottom", self.bottom.to_json());
        }
        proof {
            want = if self.bottom@.len() != 0 {
                want.push(("bottom"@, coerce_number_text(self.bottom@)))
            } else {
                want
            };
            assert(json_view_obj(out@) == want);
        }
        if !self.left.is_empty() {
            push_member(&mut out, "left", self.left.to_json());
        }
        proof {
            want = if self.left@.len() != 0 {
                want.push(("left"@, coerce_number_text(self.left@)))
            } else {
                want
            };
            assert(json_view_obj(out@) == want);
        }
        if !self.right.is_empty() {
            push_member(&mut out, "right", self.right.to_json());
        }
        proof {
            want = if self.right@.len() != 0 {
                want.push(("right"@, coerce_number_text(self.right@)))
            } else {
                want
            };
            assert(json_view_obj(out@) == want);
        }
        proof {
            assert(want == padding_fields(*self));
        }
        Json::Object(out)
    }
}

/// Font settings.
#[derive(Debug, Clone, Default)]
pub struct Font {
    pub size: NumberString,
    pub style: NumberString,
    pub weight: NumberString,
    pub lineHeight: NumberString,
}

/// The object members a `Font` serializes to, in declaration
/// order; absent and empty fields are omitted.
pub open spec fn font_fields(c: Font) -> Seq<(Seq<char>, JsonV)> {
    let s = Seq::<(Seq<char>, JsonV)>::empty();
    let s = if c.size@.len() != 0 {
        s.push(("size"@, coerce_number_text(c.size@)))
    } else {
        s
    };
    let s = if c.style@.len() != 0 {
        s.push(("style"@, coerce_number_text(c.style@)))
    } else {
        s
    };
    let s = if c.weight@.len() != 0 {
        s.push(("weight"@, coerce_number_text(c.weight@)))
    } else {
        s
    };
    let s = if c.lineHeight@.len() != 0 {
        s.push(("lineHeight"@, coerce_number_text(c.lineHeight@)))
    } else {
        s
    };
    s
}

pub open spec fn font_json(c: Font) -> JsonV {
    JsonV::Object(font_fields(c))
}

impl Font {
    /// Serialize; absent and empty fields are omitted.
    #[verifier::rlimit(100)]
    pub fn to_json(&self) -> (r: Json)
        ensures
            r@ == font_json(*self),
    {
        let mut out: Vec<(String, Json)> = Vec::new();
        let ghost mut want: Seq<(Seq<char>, JsonV)> = Seq::empty();
        reveal(crate::json::json_view);
        proof {
            lemma_json_view_obj_empty();
            assert(json_view_obj(out@) == want);
        }
        if !self.size.is_empty() {
            push_member(&mut out, "size", self.size.to_json());
        }
        proof {
            want = if self.size@.len() != 0 {
                want.push(("size"@, coerce_number_text(self.size@)))
            } else {
                want
            };
            assert(json_view_obj(out@) == want);
        }
        if !self.style.is_empty() {
            push_member(&mut out, "style", self.style.to_json());
        }
        proof {
            want = if self.style@.len() != 0 {
                want.push(("style"@, coerce_number_text(self.style@)))
            } else {
                want
            };
            assert(json_view_obj(out@) == want);
        }
        if !self.weight.is_empty() {
            push_member(&mut out, "weight", self.weight.to_json());
        }
        proof {
            want = if self.weight@.len() != 0 {
                want.push(("weight"@, coerce_number_text(self.weight@)))
            } else {
                want
            };
            assert(json_view_obj(out@) == want);
        }
        if !self.lineHeight.is_empty() {
            push_member(&mut out, "lineHeight", self.lineHeight.to_json());
        }
        proof {
            want = if self.lineHeight@.len() != 0 {
                want.push(("lineHeight"@, coerce_number_text(self.lineHeight@)))
            } else {
                want
            };
            assert(json_view_obj(out@) == want);
        }
        proof {
            assert(want == font_fields(*self));
        }
        Json::Object(out)
    }
}

/// A title with optional font.
#[derive(Debug, Clone, Default)]
pub struct Title {
    pub text: String,
    pub display: Option<bool>,
    pub font: Option<Font>,
}

/// The object members a `Title` serializes to, in declaration
/// order; absent and empty fields are omitted.
pub open spec fn title_fields(c: Title) -> Seq<(Seq<char>, JsonV)> {
    let s = Seq::<(Seq<char>, JsonV)>::empty();
    let s = if c.text@.len() != 0 {
        s.push(("text"@, JsonV::Str(c.text@)))
    } else {
        s
    };
    let s = if c.display is Some {
        s.push(("display"@, JsonV::Bool(c.display->0)))
    } else {
        s
    };
    let s = if c.font is Some {
        s.push(("font"@, font_json(c.font->0)))
    } else {
        s
    };
    s
}

pub open spec fn title_json(c: Title) -> JsonV {
    JsonV::Object(title_fields(c))
}

impl Title {
    /// Serialize; absent and empty fields are omitted.
    #[verifier::rlimit(100)]
    pub fn to_json(&self) -> (r: Json)
        ensures
            r@ == title_json(*self),
    {
        let mut out: Vec<(String, Json)> = Vec::new();
        let ghost mut want: Seq<(Seq<char>, JsonV)> = Seq::empty();
        reveal(crate::json::json_view);
        proof {
            lemma_json_view_obj_empty();
            assert(json_view_obj(out@) == want);
        }
        if !self.text.as_str().is_empty() {
            push_member(&mut out, "text", Json::Str(self.text.clone()));
        }
        proof {
            want = if self.text@.len() != 0 {
                want.push(("text"@, JsonV::Str(self.text@)))
            } else {
                want
            };
            assert(json_view_obj(out@) == want);
        }
        match self.display {
            Some(b) => push_member(&mut out, "display", Json::Bool(b)),
            None => {},
        }
        proof {
            want = if self.display is Some {
                want.push(("display"@, JsonV::Bool(self.display->0)))
            } else {
                want
            };
            assert(json_view_obj(out@) == want);
        }
        match &self.font {
            Some(x) => push_member(&mut out, "font", x.to_json()),
            None => {},
        }
        proof {
            want = if self.font is Some {
                want.push(("font"@, font_json(self.font->0)))
            } else {
                want
            };
            assert(json_view_obj(out@) == want);
        }
        proof {
            assert(want == title_fields(*self));
        }
        Json::Object(out)
    }
}

/// Data-label styling for a dataset.
#[derive(Debug, Clone, Default)]
pub struct DataLabels {
    pub align: String,
    pub anchor: String,
    pub backgroundColor: String,
    pub borderRadius: NumberString,
    pub drawTime: NumberString,
    pub color: String,
    pub clip: Option<bool>,
    pub display: Option<BoolString>,
    pub offset: NumberString,
    pub padding: Option<Padding>,
    pub font: Option<Font>,
    pub z: NumberString,
}

/// The object members a `DataLabels` serializes to, in declaration
/// order; absent and empty fields are omitted.
pub open spec fn data_labels_fields(c: DataLabels) -> Seq<(Seq<char>, JsonV)> {
    let s = Seq::<(Seq<char>, JsonV)>::empty();
    let s = if c.align@.len() != 0 {
        s.push(("align"@, JsonV::Str(c.align@)))
    } else {
        s
    };
    let s = if c.anchor@.len() != 0 {
        s.push(("anchor"@, JsonV::Str(c.anchor@)))
    } else {
        s
    };
    let s = if c.backgroundColor@.len() != 0 {
        s.push(("backgroundColor"@, JsonV::Str(c.backgroundColor@)))
    } else {
        s
    };
    let s = if c.borderRadius@.len() != 0 {
        s.push(("borderRadius"@, coerce_number_text(c.borderRadius@)))
    } else {
        s
    };
    let s = if c.drawTime@.len() != 0 {
        s.push(("drawTime"@, coerce_number_text(c.drawTime@)))
    } else {
        s
    };
    let s = if c.color@.len() != 0 {
        s.push(("color"@, JsonV::Str(c.color@)))
    } else {
        s
    };
    let s = if c.clip is Some {
        s.push(("clip"@, JsonV::Bool(c.clip->0)))
    } else {
        s
    };
    let s = if c.display is Some {
        s.push(("display"@, coerce_bool_text(c.display->0@)))
    } else {
        s
    };
    let s = if c.offset@.len() != 0 {
        s.push(("offset"@, coerce_number_text(c.offset@)))
    } else {
        s
    };
    let s = if c.padding is Some {
        s.push(("padding"@, padding_json(c.padding->0)))
    } else {
        s
    };
    let s = if c.font is Some {
        s.push(("font"@, font_json(c.font->0)))
    } else {
        s
    };
    let s = if c.z@.len() != 0 {
        s.push(("z"@, coerce_number_text(c.z@)))
    } else {
        s
    };
    s
}

pub open spec fn data_labels_json(c: DataLabels) -> JsonV {
    JsonV::Object(data_labels_fields(c))
}

impl DataLabels {
    /// Serialize; absent and empty fields are omitted.
    #[verifier::rlimit(100)]
    pub fn to_json(&self) -> (r: Json)
        ensures
            r@ == data_labels_json(*self),
    {
        let mut out: Vec<(String, Json)> = Vec::new();
        let ghost mut want: Seq<(Seq<char>, JsonV)> = Seq::empty();
        reveal(crate::json::json_view);
        proof {
            lemma_json_view_obj_empty();
            assert(json_view_obj(out@) == want);
        }
        if !self.align.as_str().is_empty() {
            push_member(&mut out, "align", Json::Str(self.align.clone()));
        }
        proof {
            want = if self.align@.len() != 0 {
                want.push(("align"@, JsonV::Str(self.align@)))
            } else {
                want
            };
            assert(json_view_obj(out@) == want);
        }
        if !self.anchor.as_str().is_empty() {
            push_member(&mut out, "anchor", Json::Str(self.anchor.clone()));
        }
        proof {
            want = if self.anchor@.len() != 0 {
                want.push(("anchor"@, JsonV::Str(self.anchor@)))
            } else {
                want
            };
            assert(json_view_obj(out@) == want);
        }
        if !self.backgroundColor.as_str().is_empty() {
            push_member(&mut out, "backgroundColor", Json::Str(self.backgroundColor.clone()));
        }
        proof {
            want = if self.backgroundColor@.len() != 0 {
                want.push(("backgroundColor"@, JsonV::Str(self.backgroundColor@)))
            } else {
                want
            };
            assert(json_view_obj(out@) == want);
        }
        if !self.borderRadius.is_empty() {
            push_member(&mut out, "borderRadius", self.borderRadius.to_json());
        }
        proof {
            want = if self.borderRadius@.len() != 0 {
                want.push(("borderRadius"@, coerce_number_text(self.borderRadius@)))
            } else {
                want
            };
            assert(json_view_obj(out@) == want);
        }
        if !self.drawTime.is_empty() {
            push_member(&mut out, "drawTime", self.drawTime.to_json());
        }
        proof {
            want = if self.drawTime@.len() != 0 {
                want.push(("drawTime"@, coerce_number_text(self.drawTime@)))
            } else {
                want
            };
            assert(json_view_obj(out@) == want);
        }
        if !self.color.as_str().is_empty() {
            push_member(&mut out, "color", Json::Str(self.color.clone()));
        }
        proof {
            want = if self.color@.len() != 0 {
                want.push(("color"@, JsonV::Str(self.color@)))
            } else {
                want
            };
            assert(json_view_obj(out@) == want);
        }
        match self.clip {
            Some(b) => push_member(&mut out, "clip", Json::Bool(b)),
            None => {},
        }
        proof {
            want = if self.clip is Some {
                want.push(("clip"@, JsonV::Bool(self.clip->0)))
            } else {
                want
            };
            assert(json_view_obj(out@) == want);
        }
        match &self.display {
            Some(x) => push_member(&mut out, "display", x.to_json()),
            None => {},
        }
        proof {
            want = if self.display is Some {
                want.push(("display"@, coerce_bool_text(self.display->0@)))
            } else {
                want
            };
            assert(json_view_obj(out@) == want);
        }
        if !self.offset.is_empty() {
            push_member(&mut out, "offset", self.offset.to_json());
        }
        proof {
            want = if self.offset@.len() != 0 {
                want.push(("offset"@, coerce_number_text(self.offset@)))
            } else {
                want
            };
            assert(json_view_obj(out@) == want);
        }
        match &self.padding {
            Some(x) => push_member(&mut out, "padding", x.to_json()),
            None => {},
        }
        proof {
            want = if self.padding is Some {
                want.push(("padding"@, padding_json(self.padding->0)))
            } else {
                want
            };
            assert(json_view_obj(out@) == want);
        }
        match &self.font {
            Some(x) => push_member(&mut out, "font", x.to_json()),
            None => {},
        }
        proof {
            want = if self.font is Some {
                want.push(("font"@, font_json(self.font->0)))
            } else {
                want
            };
            assert(json_view_obj(out@) == want);
        }
        if !self.z.is_empty() {
            push_member(&mut out, "z", self.z.to_json());
        }
        proof {
            want = if self.z@.len() != 0 {
                want.push(("z"@, coerce_number_text(self.z@)))
            } else {
                want
            };
            assert(json_view_obj(out@) == want);
        }
        proof {
            assert(want == data_labels_fields(*self));
        }
        Json::Object(out)
    }
}

/// Label styling within a legend.
#[derive(Debug, Clone, Default)]
pub struct LegendLabel {
    pub usePointStyle: Option<bool>,
    pub useBorderRadius: Option<bool>,
    pub boxHeight: Option<usize>,
    pub boxWidth: Option<usize>,
    pub pointStyle: String,
    pub pointStyleWidth: NumberString,
}

/// The object members a `LegendLabel` serializes to, in declaration
/// order; absent and empty fields are omitted.
pub open spec fn legend_label_fields(c: LegendLabel) -> Seq<(Seq<char>, JsonV)> {
    let s = Seq::<(Seq<char>, JsonV)>::empty();
    let s = if c.usePointStyle is Some {
        s.push(("usePointStyle"@, JsonV::Bool(c.usePointStyle->0)))
    } else {
        s
    };
    let s = if c.useBorderRadius is Some {
        s.push(("useBorderRadius"@, JsonV::Bool(c.useBorderRadius->0)))
    } else {
        s
    };
    let s = if c.boxHeight is Some {
        s.push(("boxHeight"@, JsonV::UInt(c.boxHeight->0 as u64)))
    } else {
        s
    };
    let s = if c.boxWidth is Some {
        s.push(("boxWidth"@, JsonV::UInt(c.boxWidth->0 as u64)))
    } else {
        s
    };
    let s = if c.pointStyle@.len() != 0 {
        s.push(("pointStyle"@, JsonV::Str(c.pointStyle@)))
    } else {
        s
    };
    let s = if c.pointStyleWidth@.len() != 0 {
        s.push(("pointStyleWidth"@, coerce_number_text(c.pointStyleWidth@)))
    } else {
        s
    };
    s
}

pub open spec fn legend_label_json(c: LegendLabel) -> JsonV {
    JsonV::Object(legend_label_fields(c))
}

impl LegendLabel {
    /// Serialize; absent and empty fields are omitted.
    #[verifier::rlimit(100)]
    pub fn to_json(&self) -> (r: Json)
        ensures
            r@ == legend_label_json(*self),
    {
        let mut out: Vec<(String, Json)> = Vec::new();
        let ghost mut want: Seq<(Seq<char>, JsonV)> = Seq::empty();
        reveal(crate::json::json_view);
        proof {
            lemma_json_view_obj_empty();
            assert(json_view_obj(out@) == want);
        }
        match self.usePointStyle {
            Some(b) => push_member(&mut out, "usePointStyle", Json::Bool(b)),
            None => {},
        }
        proof {
            want = if self.usePointStyle is Some {
                want.push(("usePointStyle"@, JsonV::Bool(self.usePointStyle->0)))
            } else {
                want
            };
            assert(json_view_obj(out@) == want);
        }
        match self.useBorderRadius {
            Some(b) => push_member(&mut out, "useBorderRadius", Json::Bool(b)),
            None => {},
        }
        proof {
            want = if self.useBorderRadius is Some {
                want.push(("useBorderRadius"@, JsonV::Bool(self.useBorderRadius->0)))
            } else {
                want
            };
            assert(json_view_obj(out@) == want);
        }
        match self.boxHeight {
            Some(u) => push_member(&mut out, "boxHeight", Json::UInt(u as u64)),
            None => {},
        }
        proof {
            want = if self.boxHeight is Some {
                want.push(("boxHeight"@, JsonV::UInt(self.boxHeight->0 as u64)))
            } else {
                want
            };
            assert(json_view_obj(out@) == want);
        }
        match self.boxWidth {
            Some(u) => push_member(&mut out, "boxWidth", Json::UInt(u as u64)),
            None => {},
        }
        proof {
            want = if self.boxWidth is Some {
                want.push(("boxWidth"@, JsonV::UInt(self.boxWidth->0 as u64)))
            } else {
                want
            };
            assert(json_view_obj(out@) == want);
        }
        if !self.pointStyle.as_str().is_empty() {
            push_member(&mut out, "pointStyle", Json::Str(self.pointStyle.clone()));
        }
        proof {
            want = if self.pointStyle@.len() != 0 {
                want.push(("pointStyle"@, JsonV::Str(self.pointStyle@)))
            } else {
                want
            };
            assert(json_view_obj(out@) == want);
        }
        if !self.pointStyleWidth.is_empty() {
            push_member(&mut out, "pointStyleWidth", self.pointStyleWidth.to_json());
        }
        proof {
            want = if self.pointStyleWidth@.len() != 0 {
                want.push(("pointStyleWidth"@, coerce_number_text(self.pointStyleWidth@)))
            } else {
                want
            };
            assert(json_view_obj(out@) == want);
        }
        proof {
            assert(want == legend_label_fields(*self));
        }
        Json::Object(out)
    }
}

/// The chart legend.
#[derive(Debug, Clone, Default)]
pub struct ChartLegend {
    pub display: Option<bool>,
    pub position: String,
    pub labels: Option<LegendLabel>,
}

/// The object members a `ChartLegend` serializes to, in declaration
/// order; absent and empty fields are omitted.
pub open spec fn chart_legend_fields(c: ChartLegend) -> Seq<(Seq<char>, JsonV)> {
    let s = Seq::<(Seq<char>, JsonV)>::empty();
    let s = if c.display is Some {
        s.push(("display"@, JsonV::Bool(c.display->0)))
    } else {
        s
    };
    let s = if c.position@.len() != 0 {
        s.push(("position"@, JsonV::Str(c.position@)))
    } else {
        s
    };
    let s = if c.labels is Some {
        s.push(("labels"@, legend_label_json(c.labels->0)))
    } else {
        s
    };
    s
}

pub open spec fn chart_legend_json(c: ChartLegend) -> JsonV {
    JsonV::Object(chart_legend_fields(c))
}

impl ChartLegend {
    /// Serialize; absent and empty fields are omitted.
    #[verifier::rlimit(100)]
    pub fn to_json(&self) -> (r: Json)
        ensures
            r@ == chart_legend_json(*self),
    {
        let mut out: Vec<(String, Json)> = Vec::new();
        let ghost mut want: Seq<(Seq<char>, JsonV)> = Seq::empty();
        reveal(crate::json::json_view);
        proof {
            lemma_json_view_obj_empty();
            assert(json_view_obj(out@) == want);
        }
        match self.display {
            Some(b) => push_member(&mut out, "display", Json::Bool(b)),
            None => {},
        }
        proof {
            want = if self.display is Some {
                want.push(("display"@, JsonV::Bool(self.display->0)))
            } else {
                want
            };
            assert(json_view_obj(out@) == want);
        }
        if !self.position.as_str().is_empty() {
            push_member(&mut out, "position", Json::Str(self.position.clone()));
        }
        proof {
            want = if self.position@.len() != 0 {
                want.push(("position"@, JsonV::Str(self.position@)))
            } else {
                want
            };
            assert(json_view_obj(out@) == want);
        }
        match &self.labels {
            Some(x) => push_member(&mut out, "labels", x.to_json()),
            None => {},
        }
        proof {
            want = if self.labels is Some {
                want.push(("labels"@, legend_label_json(self.labels->0)))
            } else {
                want
            };
            assert(json_view_obj(out@) == want);
        }
        proof {
            assert(want == chart_legend_fields(*self));
        }
        Json::Object(out)
    }
}

/// Tooltip positioning.
#[derive(Debug, Clone, Default)]
pub struct ChartTooltips {
    pub position: String,
}

/// The object members a `ChartTooltips` serializes to, in declaration
/// order; absent and empty fields are omitted.
pub open spec fn chart_tooltips_fields(c: ChartTooltips) -> Seq<(Seq<char>, JsonV)> {
    let s = Seq::<(Seq<char>, JsonV)>::empty();
    let s = if c.position@.len() != 0 {
        s.push(("position"@, JsonV::Str(c.position@)))
    } else {
        s
    };
    s
}

pub open spec fn chart_tooltips_json(c: ChartTooltips) -> JsonV {
    JsonV::Object(chart_tooltips_fields(c))
}

impl ChartTooltips {
    /// Serialize; absent and empty fields are omitted.
    #[verifier::rlimit(100)]
    pub fn to_json(&self) -> (r: Json)
        ensures
            r@ == chart_tooltips_json(*self),
    {
        let mut out: Vec<(String, Json)> = Vec::new();
        let ghost mut want: Seq<(Seq<char>, JsonV)> = Seq::empty();
        reveal(crate::json::json_view);
        proof {
            lemma_json_view_obj_empty();
            assert(json_view_obj(out@) == want);
        }
        if !self.position.as_str().is_empty() {
            push_member(&mut out, "position", Json::Str(self.position.clone()));
        }
        proof {
            want = if self.position@.len() != 0 {
                want.push(("position"@, JsonV::Str(self.position@)))
            } else {
                want
            };
            assert(json_view_obj(out@) == want);
        }
        proof {
            assert(want == chart_tooltips_fields(*self));
        }
        Json::Object(out)
    }
}

/// How the chart reacts to pointer interaction.
#[derive(Debug, Clone, Default)]
pub struct ChartInteraction {
    pub intersect: Option<bool>,
    pub mode: String,
    pub axis: String,
}

/// The object members a `ChartInteraction` serializes to, in declaration
/// order; absent and empty fields are omitted.
pub open spec fn chart_interaction_fields(c: ChartInteraction) -> Seq<(Seq<char>, JsonV)> {
    let s = Seq::<(Seq<char>, JsonV)>::empty();
    let s = if c.intersect is Some {
        s.push(("intersect"@, JsonV::Bool(c.intersect->0)))
    } else {
        s
    };
    let s = if c.mode@.len() != 0 {
        s.push(("mode"@, JsonV::Str(c.mode@)))
    } else {
        s
    };
    let s = if c.axis@.len() != 0 {
        s.push(("axis"@, JsonV::Str(c.axis@)))
    } else {
        s
    };
    s
}

pub open spec fn chart_interaction_json(c: ChartInteraction) -> JsonV {
    JsonV::Object(chart_interaction_fields(c))
}

impl ChartInteraction {
    /// Serialize; absent and empty fields are omitted.
    #[verifier::rlimit(100)]
    pub fn to_json(&self) -> (r: Json)
        ensures
            r@ == chart_interaction_json(*self),
    {
        let mut out: Vec<(String, Json)> = Vec::new();
        let ghost mut want: Seq<(Seq<char>, JsonV)> = Seq::empty();
        reveal(crate::json::json_view);
        proof {
            lemma_json_view_obj_empty();
            assert(json_view_obj(out@) == want);
        }
        match self.intersect {
            Some(b) => push_member(&mut out, "intersect", Json::Bool(b)),
            None => {},
        }
        proof {
            want = if self.intersect is Some {
                want.push(("intersect"@, JsonV::Bool(self.intersect->0)))
            } else {
                want
            };
            assert(json_view_obj(out@) == want);
        }
        if !self.mode.as_str().is_empty() {
            push_member(&mut out, "mode", Json::Str(self.mode.clone()));
        }
        proof {
            want = if self.mode@.len() != 0 {
                want.push(("mode"@, JsonV::Str(self.mode@)))
            } else {
                want
            };
            assert(json_view_obj(out@) == want);
        }
        if !self.axis.as_str().is_empty() {
            push_member(&mut out, "axis", Json::Str(self.axis.clone()));
        }
        proof {
            want = if self.axis@.len() != 0 {
                want.push(("axis"@, JsonV::Str(self.axis@)))
            } else {
                want
            };
            assert(json_view_obj(out@) == want);
        }
        proof {
            assert(want == chart_interaction_fields(*self));
        }
        Json::Object(out)
    }
}

/// Default styling of bar elements.
#[derive(Debug, Clone, Default)]
pub struct BarElementConfiguration {
    pub fill: Option<bool>,
    pub borderRadius: NumberString,
    pub borderWidth: NumberString,
    pub hoverBorderWidth: NumberString,
}

/// The object members a `BarElementConfiguration` serializes to, in declaration
/// order; absent and empty fields are omitted.
pub open spec fn bar_element_configuration_fields(c: BarElementConfiguration) -> Seq<(Seq<char>, JsonV)> {
    let s = Seq::<(Seq<char>, JsonV)>::empty();
    let s = if c.fill is Some {
        s.push(("fill"@, JsonV::Bool(c.fill->0)))
    } else {
        s
    };
    let s = if c.borderRadius@.len() != 0 {
        s.push(("borderRadius"@, coerce_number_text(c.borderRadius@)))
    } else {
        s
    };
    let s = if c.borderWidth@.len() != 0 {
        s.push(("borderWidth"@, coerce_number_text(c.borderWidth@)))
    } else {
        s
    };
    let s = if c.hoverBorderWidth@.len() != 0 {
        s.push(("hoverBorderWidth"@, coerce_number_text(c.hoverBorderWidth@)))
    } else {
        s
    };
    s
}

pub open spec fn bar_element_configuration_json(c: BarElementConfiguration) -> JsonV {
    JsonV::Object(bar_element_configuration_fields(c))
}

impl BarElementConfiguration {
    /// Serialize; absent and empty fields are omitted.
    #[verifier::rlimit(100)]
    pub fn to_json(&self) -> (r: Json)
        ensures
            r@ == bar_element_configuration_json(*self),
    {
        let mut out: Vec<(String, Json)> = Vec::new();
        let ghost mut want: Seq<(Seq<char>, JsonV)> = Seq::empty();
        reveal(crate::json::json_view);
        proof {
            lemma_json_view_obj_empty();
            assert(json_view_obj(out@) == want);
        }
        match self.fill {
            Some(b) => push_member(&mut out, "fill", Json::Bool(b)),
            None => {},
        }
        proof {
            want = if self.fill is Some {
                want.push(("fill"@, JsonV::Bool(self.fill->0)))
            } else {
                want
            };
            assert(json_view_obj(out@) == want);
        }
        if !self.borderRadius.is_empty() {
            push_member(&mut out, "borderRadius", self.borderRadius.to_json());
        }
        proof {
            want = if self.borderRadius@.len() != 0 {
                want.push(("borderRadius"@, coerce_number_text(self.borderRadius@)))
            } else {
                want
            };
            assert(json_view_obj(out@) == want);
        }
        if !self.borderWidth.is_empty() {
            push_member(&mut out, "borderWidth", self.borderWidth.to_json());
        }
        proof {
            want = if self.borderWidth@.len() != 0 {
                want.push(("borderWidth"@, coerce_number_text(self.borderWidth@)))
            } else {
                want
            };
            assert(json_view_obj(out@) == want);
        }
        if !self.hoverBorderWidth.is_empty() {
            push_member(&mut out, "hoverBorderWidth", self.hoverBorderWidth.to_json());
        }
        proof {
            want = if self.hoverBorderWidth@.len() != 0 {
                want.push(("hoverBorderWidth"@, coerce_number_text(self.hoverBorderWidth@)))
            } else {
                want
            };
            assert(json_view_obj(out@) == want);
        }
        proof {
            assert(want == bar_element_configuration_fields(*self));
        }
        Json::Object(out)
    }
}

/// Default styling of line elements.
#[derive(Debug, Clone, Default)]
pub struct LineElementConfiguration {
    pub fill: Option<bool>,
    pub borderWidth: NumberString,
    pub cubicInterpolationMode: String,
}

/// The object members a `LineElementConfiguration` serializes to, in declaration
/// order; absent and empty fields are omitted.
pub open spec fn line_element_configuration_fields(c: LineElementConfiguration) -> Seq<(Seq<char>, JsonV)> {
    let s = Seq::<(Seq<char>, JsonV)>::empty();
    let s = if c.fill is Some {
        s.push(("fill"@, JsonV::Bool(c.fill->0)))
    } else {
        s
    };
    let s = if c.borderWidth@.len() != 0 {
        s.push(("borderWidth"@, coerce_number_text(c.borderWidth@)))
    } else {
        s
    };
    let s = if c.cubicInterpolationMode@.len() != 0 {
        s.push(("cubicInterpolationMode"@, JsonV::Str(c.cubicInterpolationMode@)))
    } else {
        s
    };
    s
}

pub open spec fn line_element_configuration_json(c: LineElementConfiguration) -> JsonV {
    JsonV::Object(line_element_configuration_fields(c))
}

impl LineElementConfiguration {
    /// Serialize; absent and empty fields are omitted.
    #[verifier::rlimit(100)]
    pub fn to_json(&self) -> (r: Json)
        ensures
            r@ == line_element_configuration_json(*self),
    {
        let mut out: Vec<(String, Json)> = Vec::new();
        let ghost mut want: Seq<(Seq<char>, JsonV)> = Seq::empty();
        reveal(crate::json::json_view);
        proof {
            lemma_json_view_obj_empty();
            assert(json_view_obj(out@) == want);
        }
        match self.fill {
            Some(b) => push_member(&mut out, "fill", Json::Bool(b)),
            None => {},
        }
        proof {
            want = if self.fill is Some {
                want.push(("fill"@, JsonV::Bool(self.fill->0)))
            } else {
                want
            };
            assert(json_view_obj(out@) == want);
        }
        if !self.borderWidth.is_empty() {
            push_member(&mut out, "borderWidth", self.borderWidth.to_json());
        }
        proof {
            want = if self.borderWidth@.len() != 0 {
                want.push(("borderWidth"@, coerce_number_text(self.borderWidth@)))
            } else {
                want
            };
            assert(json_view_obj(out@) == want);
        }
        if !self.cubicInterpolationMode.as_str().is_empty() {
            push_member(&mut out, "cubicInterpolationMode", Json::Str(self.cubicInterpolationMode.clone()));
        }
        proof {
            want = if self.cubicInterpolationMode@.len() != 0 {
                want.push(("cubicInterpolationMode"@, JsonV::Str(self.cubicInterpolationMode@)))
            } else {
                want
            };
            assert(json_view_obj(out@) == want);
        }
        proof {
            assert(want == line_element_configuration_fields(*self));
        }
        Json::Object(out)
    }
}

/// Default styling of point elements.
#[derive(Debug, Clone, Default)]
pub struct PointElementConfiguration {
    pub radius: NumberString,
    pub hitRadius: NumberString,
    pub hoverRadius: NumberString,
    pub borderWidth: NumberString,
    pub hoverBorderWidth: NumberString,
}

/// The object members a `PointElementConfiguration` serializes to, in declaration
/// order; absent and empty fields are omitted.
pub open spec fn point_element_configuration_fields(c: PointElementConfiguration) -> Seq<(Seq<char>, JsonV)> {
    let s = Seq::<(Seq<char>, JsonV)>::empty();
    let s = if c.radius@.len() != 0 {
        s.push(("radius"@, coerce_number_text(c.radius@)))
    } else {
        s
    };
    let s = if c.hitRadius@.len() != 0 {
        s.push(("hitRadius"@, coerce_number_text(c.hitRadius@)))
    } else {
        s
    };
    let s = if c.hoverRadius@.len() != 0 {
        s.push(("hoverRadius"@, coerce_number_text(c.hoverRadius@)))
    } else {
        s
    };
    let s = if c.borderWidth@.len() != 0 {
        s.push(("borderWidth"@, coerce_number_text(c.borderWidth@)))
    } else {
        s
    };
    let s = if c.hoverBorderWidth@.len() != 0 {
        s.push(("hoverBorderWidth"@, coerce_number_text(c.hoverBorderWidth@)))
    } else {
        s
    };
    s
}

pub open spec fn point_element_configuration_json(c: PointElementConfiguration) -> JsonV {
    JsonV::Object(point_element_configuration_fields(c))
}

impl PointElementConfiguration {
    /// Serialize; absent and empty fields are omitted.
    #[verifier::rlimit(100)]
    pub fn to_json(&self) -> (r: Json)
        ensures
            r@ == point_element_configuration_json(*self),
    {
        let mut out: Vec<(String, Json)> = Vec::new();
        let ghost mut want: Seq<(Seq<char>, JsonV)> = Seq::empty();
        reveal(crate::json::json_view);
        proof {
            lemma_json_view_obj_empty();
            assert(json_view_obj(out@) == want);
        }
        if !self.radius.is_empty() {
            push_member(&mut out, "radius", self.radius.to_json());
        }
        proof {
            want = if self.radius@.len() != 0 {
                want.push(("radius"@, coerce_number_text(self.radius@)))
            } else {
                want
            };
            assert(json_view_obj(out@) == want);
        }
        if !self.hitRadius.is_empty() {
            push_member(&mut out, "hitRadius", self.hitRadius.to_json());
        }
        proof {
            want = if self.hitRadius@.len() != 0 {
                want.push(("hitRadius"@, coerce_number_text(self.hitRadius@)))
            } else {
                want
            };
            assert(json_view_obj(out@) == want);
        }
        if !self.hoverRadius.is_empty() {
            push_member(&mut out, "hoverRadius", self.hoverRadius.to_json());
        }
        proof {
            want = if self.hoverRadius@.len() != 0 {
                want.push(("hoverRadius"@, coerce_number_text(self.hoverRadius@)))
            } else {
                want
            };
            assert(json_view_obj(out@) == want);
        }
        if !self.borderWidth.is_empty() {
            push_member(&mut out, "borderWidth", self.borderWidth.to_json());
        }
        proof {
            want = if self.borderWidth@.len() != 0 {
                want.push(("borderWidth"@, coerce_number_text(self.borderWidth@)))
            } else {
                want
            };
            assert(json_view_obj(out@) == want);
        }
        if !self.hoverBorderWidth.is_empty() {
            push_member(&mut out, "hoverBorderWidth", self.hoverBorderWidth.to_json());
        }
        proof {
            want = if self.hoverBorderWidth@.len() != 0 {
                want.push(("hoverBorderWidth"@, coerce_number_text(self.hoverBorderWidth@)))
            } else {
                want
            };
            assert(json_view_obj(out@) == want);
        }
        proof {
            assert(want == point_element_configuration_fields(*self));
        }
        Json::Object(out)
    }
}

/// Default styling of chart elements.
#[derive(Debug, Clone, Default)]
pub struct ChartElements {
    pub bar: Option<BarElementConfiguration>,
    pub line: Option<LineElementConfiguration>,
    pub point: Option<PointElementConfiguration>,
}

/// The object members a `ChartElements` serializes to, in declaration
/// order; absent and empty fields are omitted.
pub open spec fn chart_elements_fields(c: ChartElements) -> Seq<(Seq<char>, JsonV)> {
    let s = Seq::<(Seq<char>, JsonV)>::empty();
    let s = if c.bar is Some {
        s.push(("bar"@, bar_element_configuration_json(c.bar->0)))
    } else {
        s
    };
    let s = if c.line is Some {
        s.push(("line"@, line_element_configuration_json(c.line->0)))
    } else {
        s
    };
    let s = if c.point is Some {
        s.push(("point"@, point_element_configuration_json(c.point->0)))
    } else {
        s
    };
    s
}

pub open spec fn chart_elements_json(c: ChartElements) -> JsonV {
    JsonV::Object(chart_elements_fields(c))
}

impl ChartElements {
    /// Serialize; absent and empty fields are omitted.
    #[verifier::rlimit(100)]
    pub fn to_json(&self) -> (r: Json)
        ensures
            r@ == chart_elements_json(*self),
    {
        let mut out: Vec<(String, Json)> = Vec::new();
        let ghost mut want: Seq<(Seq<char>, JsonV)> = Seq::empty();
        reveal(crate::json::json_view);
        proof {
            lemma_json_view_obj_empty();
            assert(json_view_obj(out@) == want);
        }
        match &self.bar {
            Some(x) => push_member(&mut out, "bar", x.to_json()),
            None => {},
        }
        proof {
            want = if self.bar is Some {
                want.push(("bar"@, bar_element_configuration_json(self.bar->0)))
            } else {
                want
            };
            assert(json_view_obj(out@) == want);
        }
        match &self.line {
            Some(x) => push_member(&mut out, "line", x.to_json()),
            None => {},
        }
        proof {
            want = if self.line is Some {
                want.push(("line"@, line_element_configuration_json(self.line->0)))
            } else {
                want
            };
            assert(json_view_obj(out@) == want);
        }
        match &self.point {
            Some(x) => push_member(&mut out, "point", x.to_json()),
            None => {},
        }
        proof {
            want = if self.point is Some {
                want.push(("point"@, point_element_configuration_json(self.point->0)))
            } else {
                want
            };
            assert(json_view_obj(out@) == want);
        }
        proof {
            assert(want == chart_elements_fields(*self));
        }
        Json::Object(out)
    }
}

/// Tooltip plugin settings.
#[derive(Debug, Clone, Default)]
pub struct TooltipPlugins {
    pub enabled: Option<bool>,
    pub bodyColor: String,
    pub bodyAlign: String,
    pub displayColors: Option<bool>,
    pub backgroundColor: String,
    pub titleColor: String,
    pub titleAlign: String,
    pub titleMarginBottom: NumberString,
}

/// The object members a `TooltipPlugins` serializes to, in declaration
/// order; absent and empty fields are omitted.
pub open spec fn tooltip_plugins_fields(c: TooltipPlugins) -> Seq<(Seq<char>, JsonV)> {
    let s = Seq::<(Seq<char>, JsonV)>::empty();
    let s = if c.enabled is Some {
        s.push(("enabled"@, JsonV::Bool(c.enabled->0)))
    } else {
        s
    };
    let s = if c.bodyColor@.len() != 0 {
        s.push(("bodyColor"@, JsonV::Str(c.bodyColor@)))
    } else {
        s
    };
    let s = if c.bodyAlign@.len() != 0 {
        s.push(("bodyAlign"@, JsonV::Str(c.bodyAlign@)))
    } else {
        s
    };
    let s = if c.displayColors is Some {
        s.push(("displayColors"@, JsonV::Bool(c.displayColors->0)))
    } else {
        s
    };
    let s = if c.backgroundColor@.len() != 0 {
        s.push(("backgroundColor"@, JsonV::Str(c.backgroundColor@)))
    } else {
        s
    };
    let s = if c.titleColor@.len() != 0 {
        s.push(("titleColor"@, JsonV::Str(c.titleColor@)))
    } else {
        s
    };
    let s = if c.titleAlign@.len() != 0 {
        s.push(("titleAlign"@, JsonV::Str(c.titleAlign@)))
    } else {
        s
    };
    let s = if c.titleMarginBottom@.len() != 0 {
        s.push(("titleMarginBottom"@, coerce_number_text(c.titleMarginBottom@)))
    } else {
        s
    };
    s
}

pub open spec fn tooltip_plugins_json(c: TooltipPlugins) -> JsonV {
    JsonV::Object(tooltip_plugins_fields(c))
}

impl TooltipPlugins {
    /// Serialize; absent and empty fields are omitted.
    #[verifier::rlimit(100)]
    pub fn to_json(&self) -> (r: Json)
        ensures
            r@ == tooltip_plugins_json(*self),
    {
        let mut out: Vec<(String, Json)> = Vec::new();
        let ghost mut want: Seq<(Seq<char>, JsonV)> = Seq::empty();
        reveal(crate::json::json_view);
        proof {
            lemma_json_view_obj_empty();
            assert(json_view_obj(out@) == want);
        }
        match self.enabled {
            Some(b) => push_member(&mut out, "enabled", Json::Bool(b)),
            None => {},
        }
        proof {
            want = if self.enabled is Some {
                want.push(("enabled"@, JsonV::Bool(self.enabled->0)))
            } else {
                want
            };
            assert(json_view_obj(out@) == want);
        }
        if !self.bodyColor.as_str().is_empty() {
            push_member(&mut out, "bodyColor", Json::Str(self.bodyColor.clone()));
        }
        proof {
            want = if self.bodyColor@.len() != 0 {
                want.push(("bodyColor"@, JsonV::Str(self.bodyColor@)))
            } else {
                want
            };
            assert(json_view_obj(out@) == want);
        }
        if !self.bodyAlign.as_str().is_empty() {
            push_member(&mut out, "bodyAlign", Json::Str(self.bodyAlign.clone()));
        }
        proof {
            want = if self.bodyAlign@.len() != 0 {
                want.push(("bodyAlign"@, JsonV::Str(self.bodyAlign@)))
            } else {
                want
            };
            assert(json_view_obj(out@) == want);
        }
        match self.displayColors {
            Some(b) => push_member(&mut out, "displayColors", Json::Bool(b)),
            None => {},
        }
        proof {
            want = if self.displayColors is Some {
                want.push(("displayColors"@, JsonV::Bool(self.displayColors->0)))
            } else {
                want
            };
            assert(json_view_obj(out@) == want);
        }
        if !self.backgroundColor.as_str().is_empty() {
            push_member(&mut out, "backgroundColor", Json::Str(self.backgroundColor.clone()));
        }
        proof {
            want = if self.backgroundColor@.len() != 0 {
                want.push(("backgroundColor"@, JsonV::Str(self.backgroundColor@)))
            } else {
                want
            };
            assert(json_view_obj(out@) == want);
        }
        if !self.titleColor.as_str().is_empty() {
            push_member(&mut out, "titleColor", Json::Str(self.titleColor.clone()));
        }
        proof {
            want = if self.titleColor@.len() != 0 {
                want.push(("titleColor"@, JsonV::Str(self.titleColor@)))
            } else {
                want
            };
            assert(json_view_obj(out@) == want);
        }
        if !self.titleAlign.as_str().is_empty() {
            push_member(&mut out, "titleAlign", Json::Str(self.titleAlign.clone()));
        }
        proof {
            want = if self.titleAlign@.len() != 0 {
                want.push(("titleAlign"@, JsonV::Str(self.titleAlign@)))
            } else {
                want
            };
            assert(json_view_obj(out@) == want);
        }
        if !self.titleMarginBottom.is_empty() {
            push_member(&mut out, "titleMarginBottom", self.titleMarginBottom.to_json());
        }
        proof {
            want = if self.titleMarginBottom@.len() != 0 {
                want.push(("titleMarginBottom"@, coerce_number_text(self.titleMarginBottom@)))
            } else {
                want
            };
            assert(json_view_obj(out@) == want);
        }
        proof {
            assert(want == tooltip_plugins_fields(*self));
        }
        Json::Object(out)
    }
}

/// Legend settings within the plugin tree.
#[derive(Debug, Clone, Default)]
pub struct PluginLegend {
    pub display: Option<bool>,
    pub labels: Option<LegendLabel>,
    pub reverse: Option<bool>,
}

/// The object members a `PluginLegend` serializes to, in declaration
/// order; absent and empty fields are omitted.
pub open spec fn plugin_legend_fields(c: PluginLegend) -> Seq<(Seq<char>, JsonV)> {
    let s = Seq::<(Seq<char>, JsonV)>::empty();
    let s = if c.display is Some {
        s.push(("display"@, JsonV::Bool(c.display->0)))
    } else {
        s
    };
    let s = if c.labels is Some {
        s.push(("labels"@, legend_label_json(c.labels->0)))
    } else {
        s
    };
    let s = if c.reverse is Some {
        s.push(("reverse"@, JsonV::Bool(c.reverse->0)))
    } else {
        s
    };
    s
}

pub open spec fn plugin_legend_json(c: PluginLegend) -> JsonV {
    JsonV::Object(plugin_legend_fields(c))
}

impl PluginLegend {
    /// Serialize; absent and empty fields are omitted.
    #[verifier::rlimit(100)]
    pub fn to_json(&self) -> (r: Json)
        ensures
            r@ == plugin_legend_json(*self),
    {
        let mut out: Vec<(String, Json)> = Vec::new();
        let ghost mut want: Seq<(Seq<char>, JsonV)> = Seq::empty();
        reveal(crate::json::json_view);
        proof {
            lemma_json_view_obj_empty();
            assert(json_view_obj(out@) == want);
        }
        match self.display {
            Some(b) => push_member(&mut out, "display", Json::Bool(b)),
            None => {},
        }
        proof {
            want = if self.display is Some {
                want.push(("display"@, JsonV::Bool(self.display->0)))
            } else {
                want
            };
            assert(json_view_obj(out@) == want);
        }
        match &self.labels {
            Some(x) => push_member(&mut out, "labels", x.to_json()),
            None => {},
        }
        proof {
            want = if self.labels is Some {
                want.push(("labels"@, legend_label_json(self.labels->0)))
            } else {
                want
            };
            assert(json_view_obj(out@) == want);
        }
        match self.reverse {
            Some(b) => push_member(&mut out, "reverse", Json::Bool(b)),
            None => {},
        }
        proof {
            want = if self.reverse is Some {
                want.push(("reverse"@, JsonV::Bool(self.reverse->0)))
            } else {
                want
            };
            assert(json_view_obj(out@) == want);
        }
        proof {
            assert(want == plugin_legend_fields(*self));
        }
        Json::Object(out)
    }
}

/// Animation settings.
#[derive(Debug, Clone, Default)]
pub struct Animation {
    pub duration: NumberString,
}

/// The object members a `Animation` serializes to, in declaration
/// order; absent and empty fields are omitted.
pub open spec fn animation_fields(c: Animation) -> Seq<(Seq<char>, JsonV)> {
    let s = Seq::<(Seq<char>, JsonV)>::empty();
    let s = if c.duration@.len() != 0 {
        s.push(("duration"@, coerce_number_text(c.duration@)))
    } else {
        s
    };
    s
}

pub open spec fn animation_json(c: Animation) -> JsonV {
    JsonV::Object(animation_fields(c))
}

impl Animation {
    /// Serialize; absent and empty fields are omitted.
    #[verifier::rlimit(100)]
    pub fn to_json(&self) -> (r: Json)
        ensures
            r@ == animation_json(*self),
    {
        let mut out: Vec<(String, Json)> = Vec::new();
        let ghost mut want: Seq<(Seq<char>, JsonV)> = Seq::empty();
        reveal(crate::json::json_view);
        proof {
            lemma_json_view_obj_empty();
            assert(json_view_obj(out@) == want);
        }
        if !self.duration.is_empty() {
            push_member(&mut out, "duration", self.duration.to_json());
        }
        proof {
            want = if self.duration@.len() != 0 {
                want.push(("duration"@, coerce_number_text(self.duration@)))
            } else {
                want
            };
            assert(json_view_obj(out@) == want);
        }
        proof {
            assert(want == animation_fields(*self));
        }
        Json::Object(out)
    }
}

// ===== the generic options envelope =====

/// The annotation map: string keys to annotation payloads, in encounter
/// order, which rendering preserves.
#[derive(Debug, Clone, Default)]
pub struct Annotations<A: Annotation> {
    pub annotations: Option<Vec<(String, A)>>,
}

/// The object members of the annotation map.
pub open spec fn annotation_entries<A: Annotation>(s: Seq<(String, A)>) -> Seq<
    (Seq<char>, JsonV),
> {
    Seq::new(s.len(), |i: int| (s[i].0@, s[i].1.shape()))
}

pub open spec fn annotations_fields<A: Annotation>(c: Annotations<A>) -> Seq<
    (Seq<char>, JsonV),
> {
    let s = Seq::<(Seq<char>, JsonV)>::empty();
    let s = if c.annotations is Some {
        s.push(("annotations"@, JsonV::Object(annotation_entries(c.annotations->0@))))
    } else {
        s
    };
    s
}

pub open spec fn annotations_json<A: Annotation>(c: Annotations<A>) -> JsonV {
    JsonV::Object(annotations_fields(c))
}

fn annotation_map_to_json<A: Annotation>(v: &Vec<(String, A)>) -> (r: Json)
    ensures
        r@ == JsonV::Object(annotation_entries(v@)),
{
    let mut out: Vec<(String, Json)> = Vec::new();
    let mut k: usize = 0;
    let n = v.len();
    reveal(crate::json::json_view);
    while k < n
        invariant
            0 <= k <= n,
            n == v@.len(),
            out@.len() == k,
            forall|i: int|
                0 <= i < k ==> (#[trigger] out@[i]).0@ == v@[i].0@ && json_view(out@[i].1)
                    == v@[i].1.shape(),
        decreases n - k,
    {
        let key = v[k].0.clone();
        let val = v[k].1.to_json();
        out.push((key, val));
        k = k + 1;
    }
    proof {
        lemma_json_view_obj(out@);
        assert forall|i: int|
            0 <= i < out@.len() implies json_view_obj(out@)[i] == annotation_entries(
            v@,
        )[i] by {
            assert(json_view_obj(out@)[i] == (out@[i].0@, json_view(out@[i].1)));
        }
        assert(json_view_obj(out@) =~= annotation_entries(v@));
    }
    Json::Object(out)
}

impl<A: Annotation> Annotations<A> {
    /// Serialize; the map is omitted where absent.
    #[verifier::rlimit(100)]
    pub fn to_json(&self) -> (r: Json)
        ensures
            r@ == annotations_json(*self),
    {
        let mut out: Vec<(String, Json)> = Vec::new();
        let ghost mut want: Seq<(Seq<char>, JsonV)> = Seq::empty();
        reveal(crate::json::json_view);
        proof {
            lemma_json_view_obj_empty();
            assert(json_view_obj(out@) == want);
        }
        match &self.annotations {
            Some(m) => push_member(&mut out, "annotations", annotation_map_to_json(m)),
            None => {},
        }
        proof {
            want = if self.annotations is Some {
                want.push(("annotations"@, JsonV::Object(annotation_entries(self.annotations->0@))))
            } else {
                want
            };
            assert(json_view_obj(out@) == want);
            assert(want == annotations_fields(*self));
        }
        Json::Object(out)
    }
}

/// The plugin tree of the chart options, parameterized by the annotation
/// shape it hosts.
#[derive(Debug, Clone, Default)]
pub struct ChartPlugins<A: Annotation> {
    pub autocolors: Option<bool>,
    pub tooltip: Option<TooltipPlugins>,
    pub annotation: Option<Annotations<A>>,
    pub title: Option<Title>,
    pub legend: Option<PluginLegend>,
}

/// The object members a `ChartPlugins` serializes to, in declaration
/// order; absent fields are omitted.
pub open spec fn chart_plugins_fields<A: Annotation>(c: ChartPlugins<A>) -> Seq<
    (Seq<char>, JsonV),
> {
    let s = Seq::<(Seq<char>, JsonV)>::empty();
    let s = if c.autocolors is Some {
        s.push(("autocolors"@, JsonV::Bool(c.autocolors->0)))
    } else {
        s
    };
    let s = if c.tooltip is Some {
        s.push(("tooltip"@, tooltip_plugins_json(c.tooltip->0)))
    } else {
        s
    };
    let s = if c.annotation is Some {
        s.push(("annotation"@, annotations_json(c.annotation->0)))
    } else {
        s
    };
    let s = if c.title is Some {
        s.push(("title"@, title_json(c.title->0)))
    } else {
        s
    };
    let s = if c.legend is Some {
        s.push(("legend"@, plugin_legend_json(c.legend->0)))
    } else {
        s
    };
    s
}

pub open spec fn chart_plugins_json<A: Annotation>(c: ChartPlugins<A>) -> JsonV {
    JsonV::Object(chart_plugins_fields(c))
}

impl<A: Annotation> ChartPlugins<A> {
    /// Serialize; absent fields are omitted.
    #[verifier::rlimit(100)]
    pub fn to_json(&self) -> (r: Json)
        ensures
            r@ == chart_plugins_json(*self),
    {
        let mut out: Vec<(String, Json)> = Vec::new();
        let ghost mut want: Seq<(Seq<char>, JsonV)> = Seq::empty();
        reveal(crate::json::json_view);
        proof {
            lemma_json_view_obj_empty();
            assert(json_view_obj(out@) == want);
        }
        match self.autocolors {
            Some(b) => push_member(&mut out, "autocolors", Json::Bool(b)),
            None => {},
        }
        proof {
            want = if self.autocolors is Some {
                want.push(("autocolors"@, JsonV::Bool(self.autocolors->0)))
            } else {
                want
            };
            assert(json_view_obj(out@) == want);
        }
        match &self.tooltip {
            Some(x) => push_member(&mut out, "tooltip", x.to_json()),
            None => {},
        }
        proof {
            want = if self.tooltip is Some {
                want.push(("tooltip"@, tooltip_plugins_json(self.tooltip->0)))
            } else {
                want
            };
            assert(json_view_obj(out@) == want);
        }
        match &self.annotation {
            Some(x) => push_member(&mut out, "annotation", x.to_json()),
            None => {},
        }
        proof {
            want = if self.annotation is Some {
                want.push(("annotation"@, annotations_json(self.annotation->0)))
            } else {
                want
            };
            assert(json_view_obj(out@) == want);
        }
        match &self.title {
            Some(x) => push_member(&mut out, "title", x.to_json()),
            None => {},
        }
        proof {
            want = if self.title is Some {
                want.push(("title"@, title_json(self.title->0)))
            } else {
                want
            };
            assert(json_view_obj(out@) == want);
        }
        match &self.legend {
            Some(x) => push_member(&mut out, "legend", x.to_json()),
            None => {},
        }
        proof {
            want = if self.legend is Some {
                want.push(("legend"@, plugin_legend_json(self.legend->0)))
            } else {
                want
            };
            assert(json_view_obj(out@) == want);
            assert(want == chart_plugins_fields(*self));
        }
        Json::Object(out)
    }
}

/// The scale map: axis identifiers to scale configurations, in encounter
/// order, which rendering preserves.
pub open spec fn scale_entries(s: Seq<(String, ChartScale)>) -> Seq<(Seq<char>, JsonV)> {
    Seq::new(s.len(), |i: int| (s[i].0@, chart_scale_json(s[i].1)))
}

fn scale_map_to_json(v: &Vec<(String, ChartScale)>) -> (r: Json)
    ensures
        r@ == JsonV::Object(scale_entries(v@)),
{
    let mut out: Vec<(String, Json)> = Vec::new();
    let mut k: usize = 0;
    let n = v.len();
    reveal(crate::json::json_view);
    while k < n
        invariant
            0 <= k <= n,
            n == v@.len(),
            out@.len() == k,
            forall|i: int|
                0 <= i < k ==> (#[trigger] out@[i]).0@ == v@[i].0@ && json_view(out@[i].1)
                    == chart_scale_json(v@[i].1),
        decreases n - k,
    {
        let key = v[k].0.clone();
        let val = v[k].1.to_json();
        out.push((key, val));
        k = k + 1;
    }
    proof {
        lemma_json_view_obj(out@);
        assert forall|i: int|
            0 <= i < out@.len() implies json_view_obj(out@)[i] == scale_entries(v@)[i] by {
            assert(json_view_obj(out@)[i] == (out@[i].0@, json_view(out@[i].1)));
        }
        assert(json_view_obj(out@) =~= scale_entries(v@));
    }
    Json::Object(out)
}

/// The chart options tree, parameterized by the annotation shape its
/// plugin tree hosts.
#[derive(Debug, Clone, Default)]
pub struct ChartOptions<A: Annotation> {
    pub plugins: Option<ChartPlugins<A>>,
    pub scales: Option<Vec<(String, ChartScale)>>,
    pub interaction: Option<ChartInteraction>,
    pub tooltips: Option<ChartTooltips>,
    pub maintainAspectRatio: Option<bool>,
    pub legend: Option<ChartLegend>,
    pub animation: Option<Animation>,
    pub spanGaps: Option<bool>,
    pub elements: Option<ChartElements>,
    pub responsive: Option<bool>,
}

/// The object members a `ChartOptions` serializes to, in declaration
/// order; absent fields are omitted.
pub open spec fn chart_options_fields<A: Annotation>(c: ChartOptions<A>) -> Seq<
    (Seq<char>, JsonV),
> {
    let s = Seq::<(Seq<char>, JsonV)>::empty();
    let s = if c.plugins is Some {
        s.push(("plugins"@, chart_plugins_json(c.plugins->0)))
    } else {
        s
    };
    let s = if c.scales is Some {
        s.push(("scales"@, JsonV::Object(scale_entries(c.scales->0@))))
    } else {
        s
    };
    let s = if c.interaction is Some {
        s.push(("interaction"@, chart_interaction_json(c.interaction->0)))
    } else {
        s
    };
    let s = if c.tooltips is Some {
        s.push(("tooltips"@, chart_tooltips_json(c.tooltips->0)))
    } else {
        s
    };
    let s = if c.maintainAspectRatio is Some {
        s.push(("maintainAspectRatio"@, JsonV::Bool(c.maintainAspectRatio->0)))
    } else {
        s
    };
    let s = if c.legend is Some {
        s.push(("legend"@, chart_legend_json(c.legend->0)))
    } else {
        s
    };
    let s = if c.animation is Some {
        s.push(("animation"@, animation_json(c.animation->0)))
    } else {
        s
    };
    let s = if c.spanGaps is Some {
        s.push(("spanGaps"@, JsonV::Bool(c.spanGaps->0)))
    } else {
        s
    };
    let s = if c.elements is Some {
        s.push(("elements"@, chart_elements_json(c.elements->0)))
    } else {
        s
    };
    let s = if c.responsive is Some {
        s.push(("responsive"@, JsonV::Bool(c.responsive->0)))
    } else {
        s
    };
    s
}

pub open spec fn chart_options_json<A: Annotation>(c: ChartOptions<A>) -> JsonV {
    JsonV::Object(chart_options_fields(c))
}

impl<A: Annotation> ChartOptions<A> {
    /// Serialize; absent fields are omitted.
    #[verifier::rlimit(100)]
    pub fn to_json(&self) -> (r: Json)
        ensures
            r@ == chart_options_json(*self),
    {
        let mut out: Vec<(String, Json)> = Vec::new();
        let ghost mut want: Seq<(Seq<char>, JsonV)> = Seq::empty();
        reveal(crate::json::json_view);
        proof {
            lemma_json_view_obj_empty();
            assert(json_view_obj(out@) == want);
        }
        match &self.plugins {
            Some(x) => push_member(&mut out, "plugins", x.to_json()),
            None => {},
        }
        proof {
            want = if self.plugins is Some {
                want.push(("plugins"@, chart_plugins_json(self.plugins->0)))
            } else {
                want
            };
            assert(json_view_obj(out@) == want);
        }
        match &self.scales {
            Some(m) => push_member(&mut out, "scales", scale_map_to_json(m)),
            None => {},
        }
        proof {
            want = if self.scales is Some {
                want.push(("scales"@, JsonV::Object(scale_entries(self.scales->0@))))
            } else {
                want
            };
            assert(json_view_obj(out@) == want);
        }
        match &self.interaction {
            Some(x) => push_member(&mut out, "interaction", x.to_json()),
            None => {},
        }
        proof {
            want = if self.interaction is Some {
                want.push(("interaction"@, chart_interaction_json(self.interaction->0)))
            } else {
                want
            };
            assert(json_view_obj(out@) == want);
        }
        match &self.tooltips {
            Some(x) => push_member(&mut out, "tooltips", x.to_json()),
            None => {},
        }
        proof {
            want = if self.tooltips is Some {
                want.push(("tooltips"@, chart_tooltips_json(self.tooltips->0)))
            } else {
                want
            };
            assert(json_view_obj(out@) == want);
        }
        match self.maintainAspectRatio {
            Some(b) => push_member(&mut out, "maintainAspectRatio", Json::Bool(b)),
            None => {},
        }
        proof {
            want = if self.maintainAspectRatio is Some {
                want.push(("maintainAspectRatio"@, JsonV::Bool(self.maintainAspectRatio->0)))
            } else {
                want
            };
            assert(json_view_obj(out@) == want);
        }
        match &self.legend {
            Some(x) => push_member(&mut out, "legend", x.to_json()),
            None => {},
        }
        proof {
            want = if self.legend is Some {
                want.push(("legend"@, chart_legend_json(self.legend->0)))
            } else {
                want
            };
            assert(json_view_obj(out@) == want);
        }
        match &self.animation {
            Some(x) => push_member(&mut out, "animation", x.to_json()),
            None => {},
        }
        proof {
            want = if self.animation is Some {
                want.push(("animation"@, animation_json(self.animation->0)))
            } else {
                want
            };
            assert(json_view_obj(out@) == want);
        }
        match self.spanGaps {
            Some(b) => push_member(&mut out, "spanGaps", Json::Bool(b)),
            None => {},
        }
        proof {
            want = if self.spanGaps is Some {
                want.push(("spanGaps"@, JsonV::Bool(self.spanGaps->0)))
            } else {
                want
            };
            assert(json_view_obj(out@) == want);
        }
        match &self.elements {
            Some(x) => push_member(&mut out, "elements", x.to_json()),
            None => {},
        }
        proof {
            want = if self.elements is Some {
                want.push(("elements"@, chart_elements_json(self.elements->0)))
            } else {
                want
            };
            assert(json_view_obj(out@) == want);
        }
        match self.responsive {
            Some(b) => push_member(&mut out, "responsive", Json::Bool(b)),
            None => {},
        }
        proof {
            want = if self.responsive is Some {
                want.push(("responsive"@, JsonV::Bool(self.responsive->0)))
            } else {
                want
            };
            assert(json_view_obj(out@) == want);
            assert(want == chart_options_fields(*self));
        }
        Json::Object(out)
    }
}

} // verus!

//! Scale configuration records: axes, their borders, grids, ticks
//! and time settings.

use vstd::prelude::*;
use crate::json::{Json, JsonV, json_view_obj, push_member, lemma_json_view_obj_empty};
use crate::scalar::{NumberOrDateString, NumberString, coerce_number_text};
use crate::options::{Title, title_json};

verus! {

/// The border of a scale.
#[derive(Debug, Clone, Default)]
pub struct ScaleBorder {
    pub display: Option<bool>,
    pub color: String,
    pub width: NumberString,
    pub dash: NumberString,
    pub dashOffset: NumberString,
    pub z: NumberString,
}

/// The object members a `ScaleBorder` serializes to, in declaration
/// order; absent and empty fields are omitted.
pub open spec fn scale_border_fields(c: ScaleBorder) -> Seq<(Seq<char>, JsonV)> {
    let s = Seq::<(Seq<char>, JsonV)>::empty();
    let s = if c.display is Some {
        s.push(("display"@, JsonV::Bool(c.display->0)))
    } else {
        s
    };
    let s = if c.color@.len() != 0 {
        s.push(("color"@, JsonV::Str(c.color@)))
    } else {
        s
    };
    let s = if c.width@.len() != 0 {
        s.push(("width"@, coerce_number_text(c.width@)))
    } else {
        s
    };
    let s = if c.dash@.len() != 0 {
        s.push(("dash"@, coerce_number_text(c.dash@)))
    } else {
        s
    };
    let s = if c.dashOffset@.len() != 0 {
        s.push(("dashOffset"@, coerce_number_text(c.dashOffset@)))
    } else {
        s
    };
    let s = if c.z@.len() != 0 {
        s.push(("z"@, coerce_number_text(c.z@)))
    } else {
        s
    };
    s
}

pub open spec fn scale_border_json(c: ScaleBorder) -> JsonV {
    JsonV::Object(scale_border_fields(c))
}

impl ScaleBorder {
    /// Serialize; absent and empty fields are omitted.
    #[verifier::rlimit(100)]
    pub fn to_json(&self) -> (r: Json)
        ensures
            r@ == scale_border_json(*self),
    {
        let mut out: Vec<(String, Json)> = Vec::new();
        let ghost mut want: Seq<(Seq<char>, JsonV)> = Seq::empty();
        reveal(crate::json::json_view);
        proof {
            lemma_json_view_obj_empty();
            assert(json_view_obj(out@) == want);
        }
        match self.display {
            Some(b) => push_member(&mut out, "display", Json::Bool(b)),
            None => {},
        }
        proof {
            want = if self.display is Some {
                want.push(("display"@, JsonV::Bool(self.display->0)))
            } else {
                want
            };
            assert(json_view_obj(out@) == want);
        }
        if !self.color.as_str().is_empty() {
            push_member(&mut out, "color", Json::Str(self.color.clone()));
        }
        proof {
            want = if self.color@.len() != 0 {
                want.push(("color"@, JsonV::Str(self.color@)))
            } else {
                want
            };
            assert(json_view_obj(out@) == want);
        }
        if !self.width.is_empty() {
            push_member(&mut out, "width", self.width.to_json());
        }
        proof {
            want = if self.width@.len() != 0 {
                want.push(("width"@, coerce_number_text(self.width@)))
            } else {
                want
            };
            assert(json_view_obj(out@) == want);
        }
        if !self.dash.is_empty() {
            push_member(&mut out, "dash", self.dash.to_json());
        }
        proof {
            want = if self.dash@.len() != 0 {
                want.push(("dash"@, coerce_number_text(self.dash@)))
            } else {
                want
            };
            assert(json_view_obj(out@) == want);
        }
        if !self.dashOffset.is_empty() {
            push_member(&mut out, "dashOffset", self.dashOffset.to_json());
        }
        proof {
            want = if self.dashOffset@.len() != 0 {
                want.push(("dashOffset"@, coerce_number_text(self.dashOffset@)))
            } else {
                want
            };
            assert(json_view_obj(out@) == want);
        }
        if !self.z.is_empty() {
            push_member(&mut out, "z", self.z.to_json());
        }
        proof {
            want = if self.z@.len() != 0 {
                want.push(("z"@, coerce_number_text(self.z@)))
            } else {
                want
            };
            assert(json_view_obj(out@) == want);
        }
        proof {
            assert(want == scale_border_fields(*self));
        }
        Json::Object(out)
    }
}

/// Grid-line settings of a scale.
#[derive(Debug, Clone, Default)]
pub struct Grid {
    pub display: Option<bool>,
    pub drawOnChartArea: Option<bool>,
}

/// The object members a `Grid` serializes to, in declaration
/// order; absent and empty fields are omitted.
pub open spec fn grid_fields(c: Grid) -> Seq<(Seq<char>, JsonV)> {
    let s = Seq::<(Seq<char>, JsonV)>::empty();
    let s = if c.display is Some {
        s.push(("display"@, JsonV::Bool(c.display->0)))
    } else {
        s
    };
    let s = if c.drawOnChartArea is Some {
        s.push(("drawOnChartArea"@, JsonV::Bool(c.drawOnChartArea->0)))
    } else {
        s
    };
    s
}

pub open spec fn grid_json(c: Grid) -> JsonV {
    JsonV::Object(grid_fields(c))
}

impl Grid {
    /// Serialize; absent and empty fields are omitted.
    #[verifier::rlimit(100)]
    pub fn to_json(&self) -> (r: Json)
        ensures
            r@ == grid_json(*self),
    {
        let mut out: Vec<(String, Json)> = Vec::new();
        let ghost mut want: Seq<(Seq<char>, JsonV)> = Seq::empty();
        reveal(crate::json::json_view);
        proof {
            lemma_json_view_obj_empty();
            assert(json_view_obj(out@) == want);
        }
        match self.display {
            Some(b) => push_member(&mut out, "display", Json::Bool(b)),
            None => {},
        }
        proof {
            want = if self.display is Some {
                want.push(("display"@, JsonV::Bool(self.display->0)))
            } else {
                want
            };
            assert(json_view_obj(out@) == want);
        }
        match self.drawOnChartArea {
            Some(b) => push_member(&mut out, "drawOnChartArea", Json::Bool(b)),
            None => {},
        }
        proof {
            want = if self.drawOnChartArea is Some {
                want.push(("drawOnChartArea"@, JsonV::Bool(self.drawOnChartArea->0)))
            } else {
                want
            };
            assert(json_view_obj(out@) == want);
        }
        proof {
            assert(want == grid_fields(*self));
        }
        Json::Object(out)
    }
}

/// Display formats of a time scale, one per unit.
#[derive(Debug, Clone, Default)]
pub struct DisplayFormats {
    pub year: String,
    pub quarter: String,
    pub month: String,
    pub week: String,
    pub day: String,
    pub hour: String,
    pub minute: String,
}

/// The object members a `DisplayFormats` serializes to, in declaration
/// order; absent and empty fields are omitted.
pub open spec fn display_formats_fields(c: DisplayFormats) -> Seq<(Seq<char>, JsonV)> {
    let s = Seq::<(Seq<char>, JsonV)>::empty();
    let s = if c.year@.len() != 0 {
        s.push(("year"@, JsonV::Str(c.year@)))
    } else {
        s
    };
    let s = if c.quarter@.len() != 0 {
        s.push(("quarter"@, JsonV::Str(c.quarter@)))
    } else {
        s
    };
    let s = if c.month@.len() != 0 {
        s.push(("month"@, JsonV::Str(c.month@)))
    } else {
        s
    };
    let s = if c.week@.len() != 0 {
        s.push(("week"@, JsonV::Str(c.week@)))
    } else {
        s
    };
    let s = if c.day@.len() != 0 {
        s.push(("day"@, JsonV::Str(c.day@)))
    } else {
        s
    };
    let s = if c.hour@.len() != 0 {
        s.push(("hour"@, JsonV::Str(c.hour@)))
    } else {
        s
    };
    let s = if c.minute@.len() != 0 {
        s.push(("minute"@, JsonV::Str(c.minute@)))
    } else {
        s
    };
    s
}

pub open spec fn display_formats_json(c: DisplayFormats) -> JsonV {
    JsonV::Object(display_formats_fields(c))
}

impl DisplayFormats {
    /// Serialize; absent and empty fields are omitted.
    #[verifier::rlimit(100)]
    pub fn to_json(&self) -> (r: Json)
        ensures
            r@ == display_formats_json(*self),
    {
        let mut out: Vec<(String, Json)> = Vec::new();
        let ghost mut want: Seq<(Seq<char>, JsonV)> = Seq::empty();
        reveal(crate::json::json_view);
        proof {
            lemma_json_view_obj_empty();
            assert(json_view_obj(out@) == want);
        }
        if !self.year.as_str().is_empty() {
            push_member(&mut out, "year", Json::Str(self.year.clone()));
        }
        proof {
            want = if self.year@.len() != 0 {
                want.push(("year"@, JsonV::Str(self.year@)))
            } else {
                want
            };
            assert(json_view_obj(out@) == want);
        }
        if !self.quarter.as_str().is_empty() {
            push_member(&mut out, "quarter", Json::Str(self.quarter.clone()));
        }
        proof {
            want = if self.quarter@.len() != 0 {
                want.push(("quarter"@, JsonV::Str(self.quarter@)))
            } else {
                want
            };
            assert(json_view_obj(out@) == want);
        }
        if !self.month.as_str().is_empty() {
            push_member(&mut out, "month", Json::Str(self.month.clone()));
        }
        proof {
            want = if self.month@.len() != 0 {
                want.push(("month"@, JsonV::Str(self.month@)))
            } else {
                want
            };
            assert(json_view_obj(out@) == want);
        }
        if !self.week.as_str().is_empty() {
            push_member(&mut out, "week", Json::Str(self.week.clone()));
        }
        proof {
            want = if self.week@.len() != 0 {
                want.push(("week"@, JsonV::Str(self.week@)))
            } else {
                want
            };
            assert(json_view_obj(out@) == want);
        }
        if !self.day.as_str().is_empty() {
            push_member(&mut out, "day", Json::Str(self.day.clone()));
        }
        proof {
            want = if self.day@.len() != 0 {
                want.push(("day"@, JsonV::Str(self.day@)))
            } else {
                want
            };
            assert(json_view_obj(out@) == want);
        }
        if !self.hour.as_str().is_empty() {
            push_member(&mut out, "hour", Json::Str(self.hour.clone()));
        }
        proof {
            want = if self.hour@.len() != 0 {
                want.push(("hour"@, JsonV::Str(self.hour@)))
            } else {
                want
            };
            assert(json_view_obj(out@) == want);
        }
        if !self.minute.as_str().is_empty() {
            push_member(&mut out, "minute", Json::Str(self.minute.clone()));
        }
        proof {
            want = if self.minute@.len() != 0 {
                want.push(("minute"@, JsonV::Str(self.minute@)))
            } else {
                want
            };
            assert(json_view_obj(out@) == want);
        }
        proof {
            assert(want == display_formats_fields(*self));
        }
        Json::Object(out)
    }
}

/// Time settings of a scale.
#[derive(Debug, Clone, Default)]
pub struct ScaleTime {
    pub displayFormats: Option<DisplayFormats>,
    pub unit: String,
}

/// The object members a `ScaleTime` serializes to, in declaration
/// order; absent and empty fields are omitted.
pub open spec fn scale_time_fields(c: ScaleTime) -> Seq<(Seq<char>, JsonV)> {
    let s = Seq::<(Seq<char>, JsonV)>::empty();
    let s = if c.displayFormats is Some {
        s.push(("displayFormats"@, display_formats_json(c.displayFormats->0)))
    } else {
        s
    };
    let s = if c.unit@.len() != 0 {
        s.push(("unit"@, JsonV::Str(c.unit@)))
    } else {
        s
    };
    s
}

pub open spec fn scale_time_json(c: ScaleTime) -> JsonV {
    JsonV::Object(scale_time_fields(c))
}

impl ScaleTime {
    /// Serialize; absent and empty fields are omitted.
    #[verifier::rlimit(100)]
    pub fn to_json(&self) -> (r: Json)
        ensures
            r@ == scale_time_json(*self),
    {
        let mut out: Vec<(String, Json)> = Vec::new();
        let ghost mut want: Seq<(Seq<char>, JsonV)> = Seq::empty();
        reveal(crate::json::json_view);
        proof {
            lemma_json_view_obj_empty();
            assert(json_view_obj(out@) == want);
        }
        match &self.displayFormats {
            Some(x) => push_member(&mut out, "displayFormats", x.to_json()),
            None => {},
        }
        proof {
            want = if self.displayFormats is Some {
                want.push(("displayFormats"@, display_formats_json(self.displayFormats->0)))
            } else {
                want
            };
            assert(json_view_obj(out@) == want);
        }
        if !self.unit.as_str().is_empty() {
            push_member(&mut out, "unit", Json::Str(self.unit.clone()));
        }
        proof {
            want = if self.unit@.len() != 0 {
                want.push(("unit"@, JsonV::Str(self.unit@)))
            } else {
                want
            };
            assert(json_view_obj(out@) == want);
        }
        proof {
            assert(want == scale_time_fields(*self));
        }
        Json::Object(out)
    }
}

/// Tick settings of a scale.
#[derive(Debug, Clone, Default)]
pub struct ScaleTicks {
    pub align: String,
    pub maxTicksLimit: NumberString,
    pub stepSize: NumberString,
    pub count: NumberString,
    pub precision: NumberString,
}

/// The object members a `ScaleTicks` serializes to, in declaration
/// order; absent and empty fields are omitted.
pub open spec fn scale_ticks_fields(c: ScaleTicks) -> Seq<(Seq<char>, JsonV)> {
    let s = Seq::<(Seq<char>, JsonV)>::empty();
    let s = if c.align@.len() != 0 {
        s.push(("align"@, JsonV::Str(c.align@)))
    } else {
        s
    };
    let s = if c.maxTicksLimit@.len() != 0 {
        s.push(("maxTicksLimit"@, coerce_number_text(c.maxTicksLimit@)))
    } else {
        s
    };
    let s = if c.stepSize@.len() != 0 {
        s.push(("stepSize"@, coerce_number_text(c.stepSize@)))
    } else {
        s
    };
    let s = if c.count@.len() != 0 {
        s.push(("count"@, coerce_number_text(c.count@)))
    } else {
        s
    };
    let s = if c.precision@.len() != 0 {
        s.push(("precision"@, coerce_number_text(c.precision@)))
    } else {
        s
    };
    s
}

pub open spec fn scale_ticks_json(c: ScaleTicks) -> JsonV {
    JsonV::Object(scale_ticks_fields(c))
}

impl ScaleTicks {
    /// Serialize; absent and empty fields are omitted.
    #[verifier::rlimit(100)]
    pub fn to_json(&self) -> (r: Json)
        ensures
            r@ == scale_ticks_json(*self),
    {
        let mut out: Vec<(String, Json)> = Vec::new();
        let ghost mut want: Seq<(Seq<char>, JsonV)> = Seq::empty();
        reveal(crate::json::json_view);
        proof {
            lemma_json_view_obj_empty();
            assert(json_view_obj(out@) == want);
        }
        if !self.align.as_str().is_empty() {
            push_member(&mut out, "align", Json::Str(self.align.clone()));
        }
        proof {
            want = if self.align@.len() != 0 {
                want.push(("align"@, JsonV::Str(self.align@)))
            } else {
                want
            };
            assert(json_view_obj(out@) == want);
        }
        if !self.maxTicksLimit.is_empty() {
            push_member(&mut out, "maxTicksLimit", self.maxTicksLimit.to_json());
        }
        proof {
            want = if self.maxTicksLimit@.len() != 0 {
                want.push(("maxTicksLimit"@, coerce_number_text(self.maxTicksLimit@)))
            } else {
                want
            };
            assert(json_view_obj(out@) == want);
        }
        if !self.stepSize.is_empty() {
            push_member(&mut out, "stepSize", self.stepSize.to_json());
        }
        proof {
            want = if self.stepSize@.len() != 0 {
                want.push(("stepSize"@, coerce_number_text(self.stepSize@)))
            } else {
                want
            };
            assert(json_view_obj(out@) == want);
        }
        if !self.count.is_empty() {
            push_member(&mut out, "count", self.count.to_json());
        }
        proof {
            want = if self.count@.len() != 0 {
                want.push(("count"@, coerce_number_text(self.count@)))
            } else {
                want
            };
            assert(json_view_obj(out@) == want);
        }
        if !self.precision.is_empty() {
            push_member(&mut out, "precision", self.precision.to_json());
        }
        proof {
            want = if self.precision@.len() != 0 {
                want.push(("precision"@, coerce_number_text(self.precision@)))
            } else {
                want
            };
            assert(json_view_obj(out@) == want);
        }
        proof {
            assert(want == scale_ticks_fields(*self));
        }
        Json::Object(out)
    }
}

/// One axis of the chart; the `type` key carries the scale kind.
#[derive(Debug, Clone, Default)]
pub struct ChartScale {
    pub type_: String,
    pub alignToPixels: Option<bool>,
    pub backgroundColour: String,
    pub beginAtZero: Option<bool>,
    pub border: Option<ScaleBorder>,
    pub bounds: String,
    pub display: Option<bool>,
    pub reverse: Option<bool>,
    pub barPercentage: NumberString,
    pub categoryPercentage: NumberString,
    pub grace: NumberOrDateString,
    pub grid: Option<Grid>,
    pub grouped: Option<bool>,
    pub offset: Option<bool>,
    pub max: NumberOrDateString,
    pub min: NumberOrDateString,
    pub position: String,
    pub stacked: Option<bool>,
    pub suggestedMax: NumberOrDateString,
    pub suggestedMin: NumberOrDateString,
    pub ticks: Option<ScaleTicks>,
    pub time: Option<ScaleTime>,
    pub title: Option<Title>,
    pub weight: NumberString,
}

pub open spec fn chart_scale_fields_part1(c: ChartScale, acc: Seq<(Seq<char>, JsonV)>) -> Seq<
    (Seq<char>, JsonV),
> {
    let s = acc;
    let s = if c.type_@.len() != 0 {
        s.push(("type"@, JsonV::Str(c.type_@)))
    } else {
        s
    };
    let s = if c.alignToPixels is Some {
        s.push(("alignToPixels"@, JsonV::Bool(c.alignToPixels->0)))
    } else {
        s
    };
    let s = if c.backgroundColour@.len() != 0 {
        s.push(("backgroundColour"@, JsonV::Str(c.backgroundColour@)))
    } else {
        s
    };
    let s = if c.beginAtZero is Some {
        s.push(("beginAtZero"@, JsonV::Bool(c.beginAtZero->0)))
    } else {
        s
    };
    let s = if c.border is Some {
        s.push(("border"@, scale_border_json(c.border->0)))
    } else {
        s
    };
    let s = if c.bounds@.len() != 0 {
        s.push(("bounds"@, JsonV::Str(c.bounds@)))
    } else {
        s
    };
    let s = if c.display is Some {
        s.push(("display"@, JsonV::Bool(c.display->0)))
    } else {
        s
    };
    let s = if c.reverse is Some {
        s.push(("reverse"@, JsonV::Bool(c.reverse->0)))
    } else {
        s
    };
    let s = if c.barPercentage@.len() != 0 {
        s.push(("barPercentage"@, coerce_number_text(c.barPercentage@)))
    } else {
        s
    };
    let s = if c.categoryPercentage@.len() != 0 {
        s.push(("categoryPercentage"@, coerce_number_text(c.categoryPercentage@)))
    } else {
        s
    };
    s
}

pub open spec fn chart_scale_fields_part2(c: ChartScale, acc: Seq<(Seq<char>, JsonV)>) -> Seq<
    (Seq<char>, JsonV),
> {
    let s = acc;
    let s = if c.grace@.len() != 0 {
        s.push(("grace"@, coerce_number_text(c.grace@)))
    } else {
        s
    };
    let s = if c.grid is Some {
        s.push(("grid"@, grid_json(c.grid->0)))
    } else {
        s
    };
    let s = if c.grouped is Some {
        s.push(("grouped"@, JsonV::Bool(c.grouped->0)))
    } else {
        s
    };
    let s = if c.offset is Some {
        s.push(("offset"@, JsonV::Bool(c.offset->0)))
    } else {
        s
    };
    let s = if c.max@.len() != 0 {
        s.push(("max"@, coerce_number_text(c.max@)))
    } else {
        s
    };
    let s = if c.min@.len() != 0 {
        s.push(("min"@, coerce_number_text(c.min@)))
    } else {
        s
    };
    let s = if c.position@.len() != 0 {
        s.push(("position"@, JsonV::Str(c.position@)))
    } else {
        s
    };
    let s = if c.stacked is Some {
        s.push(("stacked"@, JsonV::Bool(c.stacked->0)))
    } else {
        s
    };
    let s = if c.suggestedMax@.len() != 0 {
        s.push(("suggestedMax"@, coerce_number_text(c.suggestedMax@)))
    } else {
        s
    };
    let s = if c.suggestedMin@.len() != 0 {
        s.push(("suggestedMin"@, coerce_number_text(c.suggestedMin@)))
    } else {
        s
    };
    s
}

pub open spec fn chart_scale_fields_part3(c: ChartScale, acc: Seq<(Seq<char>, JsonV)>) -> Seq<
    (Seq<char>, JsonV),
> {
    let s = acc;
    let s = if c.ticks is Some {
        s.push(("ticks"@, scale_ticks_json(c.ticks->0)))
    } else {
        s
    };
    let s = if c.time is Some {
        s.push(("time"@, scale_time_json(c.time->0)))
    } else {
        s
    };
    let s = if c.title is Some {
        s.push(("title"@, title_json(c.title->0)))
    } else {
        s
    };
    let s = if c.weight@.len() != 0 {
        s.push(("weight"@, coerce_number_text(c.weight@)))
    } else {
        s
    };
    s
}

/// The object members a `ChartScale` serializes to, in declaration
/// order; absent and empty fields are omitted.
pub open spec fn chart_scale_fields(c: ChartScale) -> Seq<(Seq<char>, JsonV)> {
    chart_scale_fields_part3(c, chart_scale_fields_part2(c, chart_scale_fields_part1(c, Seq::empty())))
}

pub open spec fn chart_scale_json(c: ChartScale) -> JsonV {
    JsonV::Object(chart_scale_fields(c))
}

fn chart_scale_append_part1(c: &ChartScale, out: &mut Vec<(String, Json)>)
    ensures
        json_view_obj(final(out)@) == chart_scale_fields_part1(*c, json_view_obj(old(out)@)),
{
    let ghost mut want: Seq<(Seq<char>, JsonV)> = json_view_obj(out@);
    reveal(crate::json::json_view);
    if !c.type_.as_str().is_empty() {
        push_member(out, "type", Json::Str(c.type_.clone()));
    }
    proof {
        want = if c.type_@.len() != 0 {
            want.push(("type"@, JsonV::Str(c.type_@)))
        } else {
            want
        };
        assert(json_view_obj(out@) == want);
    }
    match c.alignToPixels {
        Some(b) => push_member(out, "alignToPixels", Json::Bool(b)),
        None => {},
    }
    proof {
        want = if c.alignToPixels is Some {
            want.push(("alignToPixels"@, JsonV::Bool(c.alignToPixels->0)))
        } else {
            want
        };
        assert(json_view_obj(out@) == want);
    }
    if !c.backgroundColour.as_str().is_empty() {
        push_member(out, "backgroundColour", Json::Str(c.backgroundColour.clone()));
    }
    proof {
        want = if c.backgroundColour@.len() != 0 {
            want.push(("backgroundColour"@, JsonV::Str(c.backgroundColour@)))
        } else {
            want
        };
        assert(json_view_obj(out@) == want);
    }
    match c.beginAtZero {
        Some(b) => push_member(out, "beginAtZero", Json::Bool(b)),
        None => {},
    }
    proof {
        want = if c.beginAtZero is Some {
            want.push(("beginAtZero"@, JsonV::Bool(c.beginAtZero->0)))
        } else {
            want
        };
        assert(json_view_obj(out@) == want);
    }
    match &c.border {
        Some(x) => push_member(out, "border", x.to_json()),
        None => {},
    }
    proof {
        want = if c.border is Some {
            want.push(("border"@, scale_border_json(c.border->0)))
        } else {
            want
        };
        assert(json_view_obj(out@) == want);
    }
    if !c.bounds.as_str().is_empty() {
        push_member(out, "bounds", Json::Str(c.bounds.clone()));
    }
    proof {
        want = if c.bounds@.len() != 0 {
            want.push(("bounds"@, JsonV::Str(c.bounds@)))
        } else {
            want
        };
        assert(json_view_obj(out@) == want);
    }
    match c.display {
        Some(b) => push_member(out, "display", Json::Bool(b)),
        None => {},
    }
    proof {
        want = if c.display is Some {
            want.push(("display"@, JsonV::Bool(c.display->0)))
        } else {
            want
        };
        assert(json_view_obj(out@) == want);
    }
    match c.reverse {
        Some(b) => push_member(out, "reverse", Json::Bool(b)),
        None => {},
    }
    proof {
        want = if c.reverse is Some {
            want.push(("reverse"@, JsonV::Bool(c.reverse->0)))
        } else {
            want
        };
        assert(json_view_obj(out@) == want);
    }
    if !c.barPercentage.is_empty() {
        push_member(out, "barPercentage", c.barPercentage.to_json());
    }
    proof {
        want = if c.barPercentage@.len() != 0 {
            want.push(("barPercentage"@, coerce_number_text(c.barPercentage@)))
        } else {
            want
        };
        assert(json_view_obj(out@) == want);
    }
    if !c.categoryPercentage.is_empty() {
        push_member(out, "categoryPercentage", c.categoryPercentage.to_json());
    }
    proof {
        want = if c.categoryPercentage@.len() != 0 {
            want.push(("categoryPercentage"@, coerce_number_text(c.categoryPercentage@)))
        } else {
            want
        };
        assert(json_view_obj(out@) == want);
    }
    proof {
        assert(want == chart_scale_fields_part1(*c, json_view_obj(old(out)@)));
    }
}

fn chart_scale_append_part2(c: &ChartScale, out: &mut Vec<(String, Json)>)
    ensures
        json_view_obj(final(out)@) == chart_scale_fields_part2(*c, json_view_obj(old(out)@)),
{
    let ghost mut want: Seq<(Seq<char>, JsonV)> = json_view_obj(out@);
    reveal(crate::json::json_view);
    if !c.grace.is_empty() {
        push_member(out, "grace", c.grace.to_json());
    }
    proof {
        want = if c.grace@.len() != 0 {
            want.push(("grace"@, coerce_number_text(c.grace@)))
        } else {
            want
        };
        assert(json_view_obj(out@) == want);
    }
    match &c.grid {
        Some(x) => push_member(out, "grid", x.to_json()),
        None => {},
    }
    proof {
        want = if c.grid is Some {
            want.push(("grid"@, grid_json(c.grid->0)))
        } else {
            want
        };
        assert(json_view_obj(out@) == want);
    }
    match c.grouped {
        Some(b) => push_member(out, "grouped", Json::Bool(b)),
        None => {},
    }
    proof {
        want = if c.grouped is Some {
            want.push(("grouped"@, JsonV::Bool(c.grouped->0)))
        } else {
            want
        };
        assert(json_view_obj(out@) == want);
    }
    match c.offset {
        Some(b) => push_member(out, "offset", Json::Bool(b)),
        None => {},
    }
    proof {
        want = if c.offset is Some {
            want.push(("offset"@, JsonV::Bool(c.offset->0)))
        } else {
            want
        };
        assert(json_view_obj(out@) == want);
    }
    if !c.max.is_empty() {
        push_member(out, "max", c.max.to_json());
    }
    proof {
        want = if c.max@.len() != 0 {
            want.push(("max"@, coerce_number_text(c.max@)))
        } else {
            want
        };
        assert(json_view_obj(out@) == want);
    }
    if !c.min.is_empty() {
        push_member(out, "min", c.min.to_json());
    }
    proof {
        want = if c.min@.len() != 0 {
            want.push(("min"@, coerce_number_text(c.min@)))
        } else {
            want
        };
        assert(json_view_obj(out@) == want);
    }
    if !c.position.as_str().is_empty() {
        push_member(out, "position", Json::Str(c.position.clone()));
    }
    proof {
        want = if c.position@.len() != 0 {
            want.push(("position"@, JsonV::Str(c.position@)))
        } else {
            want
        };
        assert(json_view_obj(out@) == want);
    }
    match c.stacked {
        Some(b) => push_member(out, "stacked", Json::Bool(b)),
        None => {},
    }
    proof {
        want = if c.stacked is Some {
            want.push(("stacked"@, JsonV::Bool(c.stacked->0)))
        } else {
            want
        };
        assert(json_view_obj(out@) == want);
    }
    if !c.suggestedMax.is_empty() {
        push_member(out, "suggestedMax", c.suggestedMax.to_json());
    }
    proof {
        want = if c.suggestedMax@.len() != 0 {
            want.push(("suggestedMax"@, coerce_number_text(c.suggestedMax@)))
        } else {
            want
        };
        assert(json_view_obj(out@) == want);
    }
    if !c.suggestedMin.is_empty() {
        push_member(out, "suggestedMin", c.suggestedMin.to_json());
    }
    proof {
        want = if c.suggestedMin@.len() != 0 {
            want.push(("suggestedMin"@, coerce_number_text(c.suggestedMin@)))
        } else {
            want
        };
        assert(json_view_obj(out@) == want);
    }
    proof {
        assert(want == chart_scale_fields_part2(*c, json_view_obj(old(out)@)));
    }
}

fn chart_scale_append_part3(c: &ChartScale, out: &mut Vec<(String, Json)>)
    ensures
        json_view_obj(final(out)@) == chart_scale_fields_part3(*c, json_view_obj(old(out)@)),
{
    let ghost mut want: Seq<(Seq<char>, JsonV)> = json_view_obj(out@);
    reveal(crate::json::json_view);
    match &c.ticks {
        Some(x) => push_member(out, "ticks", x.to_json()),
        None => {},
    }
    proof {
        want = if c.ticks is Some {
            want.push(("ticks"@, scale_ticks_json(c.ticks->0)))
        } else {
            want
        };
        assert(json_view_obj(out@) == want);
    }
    match &c.time {
        Some(x) => push_member(out, "time", x.to_json()),
        None => {},
    }
    proof {
        want = if c.time is Some {
            want.push(("time"@, scale_time_json(c.time->0)))
        } else {
            want
        };
        assert(json_view_obj(out@) == want);
    }
    match &c.title {
        Some(x) => push_member(out, "title", x.to_json()),
        None => {},
    }
    proof {
        want = if c.title is Some {
            want.push(("title"@, title_json(c.title->0)))
        } else {
            want
        };
        assert(json_view_obj(out@) == want);
    }
    if !c.weight.is_empty() {
        push_member(out, "weight", c.weight.to_json());
    }
    proof {
        want = if c.weight@.len() != 0 {
            want.push(("weight"@, coerce_number_text(c.weight@)))
        } else {
            want
        };
        assert(json_view_obj(out@) == want);
    }
    proof {
        assert(want == chart_scale_fields_part3(*c, json_view_obj(old(out)@)));
    }
}

impl ChartScale {
    /// Serialize; absent and empty fields are omitted.
    #[verifier::rlimit(100)]
    pub fn to_json(&self) -> (r: Json)
        ensures
            r@ == chart_scale_json(*self),
    {
        let mut out: Vec<(String, Json)> = Vec::new();
        proof {
            crate::json::lemma_json_view_obj_empty();
        }
        chart_scale_append_part1(self, &mut out);
        chart_scale_append_part2(self, &mut out);
        chart_scale_append_part3(self, &mut out);
        reveal(crate::json::json_view);
        proof {
            assert(json_view_obj(out@) == chart_scale_fields(*self));
        }
        Json::Object(out)
    }
}

/// A scale with every optional field unset serializes to the empty
/// object.
pub proof fn lemma_empty_scale_serializes_empty(c: ChartScale)
    requires
        c.type_@.len() == 0,
        c.alignToPixels is None,
        c.backgroundColour@.len() == 0,
        c.beginAtZero is None,
        c.border is None,
        c.bounds@.len() == 0,
        c.display is None,
        c.reverse is None,
        c.barPercentage@.len() == 0,
        c.categoryPercentage@.len() == 0,
        c.grace@.len() == 0,
        c.grid is None,
        c.grouped is None,
        c.offset is None,
        c.max@.len() == 0,
        c.min@.len() == 0,
        c.position@.len() == 0,
        c.stacked is None,
        c.suggestedMax@.len() == 0,
        c.suggestedMin@.len() == 0,
        c.ticks is None,
        c.time is None,
        c.title is None,
        c.weight@.len() == 0,
    ensures
        chart_scale_json(c) == JsonV::Object(Seq::empty()),
{
    assert(chart_scale_fields(c) =~= Seq::empty());
}

} // verus!

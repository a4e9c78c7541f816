use chart_model::annotations::LineAnnotation;
use chart_model::data::{Annotation, DatasetDataExt, DatasetTrait, NoAnnotations, NoDatasets};
use chart_model::datasets::{Dataset, SinglePointDataset, XYDataset};
use chart_model::json::render_json;
use chart_model::options::{Annotations, ChartOptions, ChartPlugins, Title};
use chart_model::points::{MinMaxPoint, XYPoint};
use chart_model::scalar::{NumberOrDateString, NumberString};
use chart_model::scales::ChartScale;

fn point(x: i64, y: i64) -> XYPoint {
    XYPoint::new(NumberOrDateString::from_int(x), NumberString::from_int(y))
}

#[test]
fn xy_points_keep_only_non_empty_fields() {
    let p = point(1, 2);
    assert_eq!(render_json(&p.to_json()), "{\"x\":1,\"y\":2}");
    let mut p = point(3, 4);
    p.description = String::from("peak");
    assert_eq!(render_json(&p.to_json()), "{\"x\":3,\"y\":4,\"description\":\"peak\"}");
    let p = XYPoint::default();
    assert_eq!(render_json(&p.to_json()), "{}");
}

#[test]
fn nan_sentinel_serializes_as_nan_strings() {
    let p = XYPoint::NaN();
    assert_eq!(render_json(&p.to_json()), "{\"x\":\"NaN\",\"y\":\"NaN\"}");
}

#[test]
fn dataset_with_only_data_serializes_to_a_single_key() {
    let data = vec![point(1, 2), point(3, 4)].to_dataset_data();
    let ds = XYDataset { data, ..Default::default() };
    assert_eq!(
        render_json(&ds.to_json()),
        "{\"data\":[{\"x\":1,\"y\":2},{\"x\":3,\"y\":4}]}"
    );
}

#[test]
fn min_max_points_embed_as_pairs() {
    let pair: MinMaxPoint = [
        NumberOrDateString::from_int(1),
        NumberOrDateString::from_int(5),
    ];
    let data = vec![pair].to_dataset_data();
    assert_eq!(render_json(&data.to_json()), "[[1,5]]");
}

#[test]
fn empty_scale_serializes_to_an_empty_object() {
    let scale = ChartScale::default();
    assert_eq!(render_json(&scale.to_json()), "{}");
}

#[test]
fn scale_fields_are_omitted_only_when_empty() {
    let scale = ChartScale {
        type_: String::from("linear"),
        beginAtZero: Some(true),
        max: NumberOrDateString::from_int(10),
        ..Default::default()
    };
    assert_eq!(
        render_json(&scale.to_json()),
        "{\"type\":\"linear\",\"beginAtZero\":true,\"max\":10}"
    );
}

#[test]
fn dataset_envelope_holds_payload_and_labels() {
    let spd = SinglePointDataset {
        label: String::from("a"),
        data: vec![NumberString::from_int(1), NumberString::from_text("2.5")],
        ..Default::default()
    };
    let env = Dataset {
        datasets: vec![spd],
        labels: Some(vec![
            NumberOrDateString::from_text("jan"),
            NumberOrDateString::from_int(2),
        ]),
    };
    assert_eq!(
        render_json(&env.to_json()),
        "{\"datasets\":[{\"data\":[1,2.5],\"label\":\"a\"}],\"labels\":[\"jan\",2]}"
    );
}

#[test]
fn empty_payloads_serialize_to_empty_objects() {
    assert_eq!(render_json(&NoDatasets {}.to_json()), "{}");
    assert_eq!(render_json(&NoAnnotations {}.to_json()), "{}");
    let env = Dataset { datasets: NoDatasets {}, labels: None };
    assert_eq!(render_json(&env.to_json()), "{\"datasets\":{}}");
}

#[test]
fn options_tree_serializes_with_annotations_in_order() {
    let line = LineAnnotation {
        type_: String::from("line"),
        yMin: NumberOrDateString::from_int(3),
        yMax: NumberOrDateString::from_int(3),
        ..Default::default()
    };
    let opts = ChartOptions {
        plugins: Some(ChartPlugins {
            title: Some(Title {
                text: String::from("t"),
                display: Some(true),
                ..Default::default()
            }),
            annotation: Some(Annotations {
                annotations: Some(vec![(String::from("goal"), line)]),
            }),
            ..Default::default()
        }),
        responsive: Some(false),
        ..Default::default()
    };
    let want = "{\"plugins\":{\"annotation\":{\"annotations\":{\"goal\":{\"type\":\"line\",\"yMin\":3,\"yMax\":3}}},\"title\":{\"text\":\"t\",\"display\":true}},\"responsive\":false}";
    assert_eq!(render_json(&opts.to_json()), want);
}

#[test]
fn scales_map_keeps_encounter_order() {
    let opts: ChartOptions<NoAnnotations> = ChartOptions {
        scales: Some(vec![
            (String::from("y"), ChartScale::default()),
            (String::from("x"), ChartScale {
                type_: String::from("time"),
                ..Default::default()
            }),
        ]),
        ..Default::default()
    };
    assert_eq!(
        render_json(&opts.to_json()),
        "{\"scales\":{\"y\":{},\"x\":{\"type\":\"time\"}}}"
    );
}

#[test]
fn annotation_trait_serializes_each_shape() {
    let line = LineAnnotation {
        borderDash: vec![NumberString::from_int(5), NumberString::from_int(2)],
        borderWidth: NumberString::from_text("1.5"),
        ..Default::default()
    };
    assert_eq!(
        render_json(&Annotation::to_json(&line)),
        "{\"borderDash\":[5,2],\"borderWidth\":1.5}"
    );
}

#[test]
fn default_dataset_data_is_omitted() {
    let ds = XYDataset { label: String::from("empty"), ..Default::default() };
    assert_eq!(render_json(&ds.to_json()), "{\"label\":\"empty\"}");
}

use rust_pilot::flow::{Step, TapOn};
use rust_pilot::loader::{
    decode_header, decode_step, decode_steps, parse_test_file, DocValue, LoadError,
};

fn s(text: &str) -> DocValue {
    DocValue::Str(text.to_string())
}

fn mapping(entries: Vec<(&str, DocValue)>) -> DocValue {
    DocValue::Mapping(entries.into_iter().map(|(k, v)| (k.to_string(), v)).collect())
}

#[test]
fn test_decode_header_full() {
    let v = mapping(vec![
        ("appId", s("com.example.app")),
        ("tags", DocValue::List(vec![s("smoke"), s("login")])),
    ]);
    let h = decode_header(&v).unwrap();
    assert_eq!(h.appId, Some("com.example.app".to_string()));
    assert_eq!(h.tags, Some(vec!["smoke".to_string(), "login".to_string()]));
}

#[test]
fn test_decode_header_fields_optional() {
    let h = decode_header(&mapping(vec![])).unwrap();
    assert_eq!(h.appId, None);
    assert_eq!(h.tags, None);
}

#[test]
fn test_decode_header_rejects_wrong_types() {
    let v = mapping(vec![("appId", DocValue::Int(7))]);
    assert_eq!(decode_header(&v).unwrap_err(), LoadError::SchemaError);
    let v = mapping(vec![("tags", DocValue::List(vec![DocValue::Int(1)]))]);
    assert_eq!(decode_header(&v).unwrap_err(), LoadError::SchemaError);
    assert_eq!(decode_header(&s("not a map")).unwrap_err(), LoadError::SchemaError);
}

#[test]
fn test_decode_step_shapes() {
    let step = decode_step(&mapping(vec![("runFlow", s("sub.yaml"))])).unwrap();
    assert_eq!(step, Step::RunFlow { runFlow: "sub.yaml".to_string() });

    let step = decode_step(&mapping(vec![("tapOn", s("Submit"))])).unwrap();
    assert_eq!(step, Step::TapOn { tapOn: TapOn::TapOnTextOrDescription("Submit".to_string()) });

    let step = decode_step(&mapping(vec![("runScript", s("x.js"))])).unwrap();
    assert_eq!(step, Step::RunScript { runScript: "x.js".to_string() });

    let step = decode_step(&mapping(vec![("inputText", s("hi"))])).unwrap();
    assert_eq!(step, Step::InputText { inputText: "hi".to_string() });

    let step = decode_step(&mapping(vec![("assertVisible", s("Welcome"))])).unwrap();
    assert_eq!(step, Step::AssertVisible { assertVisible: "Welcome".to_string() });

    let step = decode_step(&mapping(vec![("assertNotVisible", s("Spinner"))])).unwrap();
    assert_eq!(step, Step::AssertNotVisible { assertNotVisible: "Spinner".to_string() });
}

#[test]
fn test_decode_step_launch_app_and_swipe() {
    let step = decode_step(&mapping(vec![(
        "launchApp",
        mapping(vec![("clearState", DocValue::Bool(true))]),
    )]))
    .unwrap();
    match step {
        Step::LaunchApp { launchApp } => assert!(launchApp.clearState),
        other => panic!("wrong step: {:?}", other),
    }

    let step = decode_step(&mapping(vec![(
        "swipe",
        mapping(vec![("start", s("50, 80")), ("end", s("50, 20"))]),
    )]))
    .unwrap();
    match step {
        Step::Swipe { swipe } => {
            assert_eq!(swipe.start.0, "50, 80");
            assert_eq!(swipe.end.0, "50, 20");
        },
        other => panic!("wrong step: {:?}", other),
    }
}

#[test]
fn test_decode_step_structured_tap() {
    let step = decode_step(&mapping(vec![(
        "tapOn",
        mapping(vec![("id", s("app:id/go")), ("index", DocValue::Int(2))]),
    )]))
    .unwrap();
    match step {
        Step::TapOn { tapOn: TapOn::TapOnOption(o) } => {
            assert_eq!(o.id, Some("app:id/go".to_string()));
            assert_eq!(o.index, Some(2));
            assert_eq!(o.text, None);
        },
        other => panic!("wrong step: {:?}", other),
    }
}

#[test]
fn test_decode_step_unknown_shape_is_schema_error() {
    assert_eq!(
        decode_step(&mapping(vec![("hover", s("x"))])).unwrap_err(),
        LoadError::SchemaError
    );
    assert_eq!(decode_step(&DocValue::Int(1)).unwrap_err(), LoadError::SchemaError);
    // A runFlow key whose value is not a string matches no shape.
    assert_eq!(
        decode_step(&mapping(vec![("runFlow", DocValue::Int(1))])).unwrap_err(),
        LoadError::SchemaError
    );
}

#[test]
fn test_decode_step_shape_order_runflow_first() {
    // When several shape keys are present the fixed order decides.
    let step = decode_step(&mapping(vec![
        ("tapOn", s("Submit")),
        ("runFlow", s("sub.yaml")),
    ]))
    .unwrap();
    assert_eq!(step, Step::RunFlow { runFlow: "sub.yaml".to_string() });
}

#[test]
fn test_decode_steps_rejects_one_bad_step() {
    let v = DocValue::List(vec![
        mapping(vec![("tapOn", s("A"))]),
        mapping(vec![("bogus", s("B"))]),
    ]);
    assert_eq!(decode_steps(&v).unwrap_err(), LoadError::SchemaError);
}

#[test]
fn test_parse_test_file_two_documents() {
    let docs = vec![
        mapping(vec![("appId", s("com.example.app"))]),
        DocValue::List(vec![mapping(vec![("tapOn", s("Login"))])]),
    ];
    let (header, steps) = parse_test_file(&docs).unwrap();
    assert_eq!(header.appId, Some("com.example.app".to_string()));
    assert_eq!(steps.len(), 1);
}

#[test]
fn test_parse_test_file_missing_document() {
    let docs = vec![mapping(vec![("appId", s("x"))])];
    assert_eq!(parse_test_file(&docs).unwrap_err(), LoadError::SchemaError);
}

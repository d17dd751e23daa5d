use rbridger::formula::{is_formula, Formula};
use rbridger::number::Real;
use rbridger::requests::{is_authentication, is_creation, RequestData};
use rbridger::transform::{is_default_parameter, parameter_request, prepare, CalcFn, Number};
use rbridger::vtspc::VtsPc;

fn number(x: f64) -> Number {
    Number { value: Real { bits: x.to_bits() }, text: x.to_string() }
}

fn entry(name: &str, func: &str) -> CalcFn {
    CalcFn {
        name: name.to_string(),
        func: func.to_string(),
        min: number(-40.0),
        max: number(40.0),
        default_value: number(0.0),
    }
}

#[test]
fn known_parameters() {
    for name in ["FacePositionX", "FaceAngleY", "Brows", "MouthX", "VoiceFrequencyPlusMouthSmile"] {
        assert!(is_default_parameter(name));
        assert!(parameter_request(&entry(name, "0")).is_none());
    }
    assert!(!is_default_parameter("faceangley"));
    assert!(!is_default_parameter(""));
}

#[test]
fn custom_parameter_is_asked_for() {
    let request = parameter_request(&entry("MyParam", "JawOpen")).unwrap();
    assert_eq!(request.api_name, "VTubeStudioPublicAPI");
    assert_eq!(request.api_version, "1.0");
    assert_eq!(request.request_id, "iiii");
    assert_eq!(request.message_type, "ParameterCreationRequest");
    match request.data {
        Some(RequestData::ParameterCreation(creation)) => {
            assert_eq!(creation.parameter_name, "MyParam");
            assert_eq!(creation.explanation, "Custom rusty-bridge param");
            assert_eq!(f64::from_bits(creation.min.bits), -40.0);
            assert_eq!(f64::from_bits(creation.max.bits), 40.0);
            assert_eq!(f64::from_bits(creation.default_value.bits), 0.0);
        }
        _ => panic!("no creation"),
    }
}

#[test]
fn config_is_built_in_order() {
    let entries = vec![
        entry("FaceAngleY", "-HeadRotY * 1"),
        entry("Second", "(EyeBlinkLeft + EyeBlinkRight) / 2"),
        entry("Third", "math::abs(MouthSmileLeft - MouthSmileRight)"),
    ];
    let (formulas, requests) = VtsPc::precalc_cfg(Some(entries)).unwrap();
    let names: Vec<&str> = formulas.iter().map(|f| f.name.as_str()).collect();
    assert_eq!(names, ["FaceAngleY", "Second", "Third"]);
    assert_eq!(formulas[0].variables, ["HeadRotY"]);
    assert_eq!(formulas[1].variables, ["EyeBlinkLeft", "EyeBlinkRight"]);
    assert_eq!(formulas[2].variables, ["MouthSmileLeft", "MouthSmileRight"]);
    let created: Vec<String> = requests
        .iter()
        .map(|r| match &r.data {
            Some(RequestData::ParameterCreation(c)) => c.parameter_name.clone(),
            _ => panic!("no creation"),
        })
        .collect();
    assert_eq!(created, ["Second", "Third"]);
}

#[test]
fn one_bad_formula_spoils_the_config() {
    assert!(VtsPc::precalc_cfg(Some(vec![entry("A", "1"), entry("B", "(1")])).is_none());
    assert!(VtsPc::precalc_cfg(None).is_none());
    assert!(VtsPc::precalc_cfg(Some(vec![])).is_some());
}

#[test]
fn formulas_are_told_from_other_text() {
    assert!(is_formula("-HeadRotY * 1.5"));
    assert!(is_formula("math::clamp(JawOpen * 2, 0, 1)"));
    assert!(!is_formula(")"));
    assert!(!is_formula("\"open"));
}

#[test]
fn trees_belong_to_their_entries() {
    let entries = vec![entry("A", "x + y"), entry("Brows", "2 * z")];
    let trees = vec![
        evalexpr::build_operator_tree("x + y").unwrap(),
        evalexpr::build_operator_tree("2 * z").unwrap(),
    ];
    let (formulas, requests) = prepare(&entries, trees.clone());
    assert_eq!(formulas[0].tree, trees[0]);
    assert_eq!(formulas[1].tree, trees[1]);
    assert_eq!(formulas[1].name, "Brows");
    assert_eq!(requests.len(), 1);
}

#[test]
fn written_variables_are_not_read() {
    let tree = evalexpr::build_operator_tree("d = a + f(b + c)").unwrap();
    let formula = Formula::new("P".to_string(), tree);
    assert_eq!(formula.variables, ["a", "b", "c"]);
}

#[test]
fn requests_are_told_apart() {
    assert!(is_authentication(&VtsPc::auth(&None)));
    assert!(is_authentication(&VtsPc::auth(&Some("t".to_string()))));
    assert!(!is_creation(&VtsPc::auth(&None)));
    assert!(!is_authentication(&VtsPc::req_status_msg()));
    assert!(!is_creation(&VtsPc::req_status_msg()));
    for name in ["MyParam", "AuthenticationRequest!"] {
        let request = parameter_request(&entry(name, "0")).unwrap();
        assert!(is_creation(&request));
        assert!(!is_authentication(&request));
    }
}

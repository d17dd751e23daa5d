use rbridger::formula::Formula;
use rbridger::number::Real;
use rbridger::tracking::{
    evaluation_bindings, frame_bindings, settle, Binding, BlendShape, Outcome, TrackingResponce,
    Vector,
};
use rbridger::vtspc::VtsPc;
use std::collections::HashMap;

fn bits_of(x: f64) -> Real {
    Real { bits: x.to_bits() }
}

fn value(r: Real) -> f64 {
    f64::from_bits(r.bits)
}

fn frame(shapes: &[(&str, f64)]) -> TrackingResponce {
    TrackingResponce {
        face_found: true,
        blend_shapes: shapes
            .iter()
            .map(|(k, v)| BlendShape { k: k.to_string(), v: bits_of(*v) })
            .collect(),
        rotation: Vector { x: bits_of(1.0), y: bits_of(2.0), z: bits_of(3.0) },
        position: Vector { x: bits_of(4.0), y: bits_of(5.0), z: bits_of(6.0) },
    }
}

fn context(bindings: Vec<Binding>) -> HashMap<String, f64> {
    bindings.into_iter().map(|b| (b.name, value(b.value))).collect()
}

fn formula(name: &str, func: &str) -> Formula {
    Formula::new(name.to_string(), evalexpr::build_operator_tree(func).unwrap())
}

#[test]
fn shapes_have_two_names() {
    let c = context(frame_bindings(&frame(&[("eyeBlink_L", 0.25), ("jawOpen", 0.5)]), false));
    assert_eq!(c["EyeBlinkLeft"], 0.25);
    assert_eq!(c["eyeBlink_L"], 0.25);
    assert_eq!(c["JawOpen"], 0.5);
    assert_eq!(c["jawOpen"], 0.5);
    assert_eq!(c.len(), 10);
}

#[test]
fn head_is_given_as_it_is() {
    let c = context(frame_bindings(&frame(&[]), false));
    assert_eq!(c["HeadRotX"], 1.0);
    assert_eq!(c["HeadRotY"], 2.0);
    assert_eq!(c["HeadRotZ"], 3.0);
    assert_eq!(c["HeadPosX"], 4.0);
    assert_eq!(c["HeadPosY"], 5.0);
    assert_eq!(c["HeadPosZ"], 6.0);
}

#[test]
fn mirror_turns_the_head() {
    let c = context(frame_bindings(&frame(&[]), true));
    assert_eq!(c["HeadRotX"], 1.0);
    assert_eq!(c["HeadRotY"], -2.0);
    assert_eq!(c["HeadRotZ"], -3.0);
    assert_eq!(c["HeadPosX"], -4.0);
    assert_eq!(c["HeadPosY"], 5.0);
    assert_eq!(c["HeadPosZ"], 6.0);
}

#[test]
fn mirror_exchanges_the_sides() {
    let f = frame(&[("eyeBlink_L", 0.25), ("eyeBlink_R", 0.75), ("jawOpen", 0.5)]);
    let plain = context(frame_bindings(&f, false));
    let mirrored = context(frame_bindings(&f, true));
    assert_eq!(mirrored["EyeBlinkLeft"], plain["EyeBlinkRight"]);
    assert_eq!(mirrored["EyeBlinkRight"], plain["EyeBlinkLeft"]);
    assert_eq!(mirrored["JawOpen"], plain["JawOpen"]);
    assert_eq!(mirrored["eyeBlink_L"], 0.25);
}

#[test]
fn mirror_exchanges_the_sides_of_pascal_case_keys() {
    let f = frame(&[("EyeBlinkLeft", 0.25), ("EyeBlinkRight", 0.75), ("JawOpen", 0.5)]);
    let mirrored = context(frame_bindings(&f, true));
    assert_eq!(mirrored["EyeBlinkLeft"], 0.75);
    assert_eq!(mirrored["EyeBlinkRight"], 0.25);
    assert_eq!(mirrored["JawOpen"], 0.5);
    let plain = context(frame_bindings(&f, false));
    assert_eq!(plain["EyeBlinkLeft"], 0.25);
    assert_eq!(plain["EyeBlinkRight"], 0.75);
}

#[test]
fn keys_are_not_mirrored() {
    let f = frame(&[("eyeBlink_L", 0.1), ("eyeBlink_R", 0.75), ("eyeBlink_L", 0.25)]);
    for mirror in [false, true] {
        let c = context(frame_bindings(&f, mirror));
        assert_eq!(c["eyeBlink_L"], 0.25);
        assert_eq!(c["eyeBlink_R"], 0.75);
    }
}

#[test]
fn head_variables_win_over_shapes() {
    let c = context(frame_bindings(&frame(&[("headRotY", 9.0)]), true));
    assert_eq!(c["HeadRotY"], -2.0);
    assert_eq!(c["headRotY"], 9.0);
}

#[test]
fn the_last_value_of_a_key_counts() {
    let c = context(frame_bindings(&frame(&[("jawOpen", 0.1), ("jawOpen", 0.9)]), false));
    assert_eq!(c["JawOpen"], 0.9);
}

#[test]
fn missing_variables_are_zero() {
    let formulas = vec![formula("A", "JawOpen + EyeLookInLeft"), formula("B", "HeadRotX * Nowhere")];
    let c = context(evaluation_bindings(&frame(&[("jawOpen", 0.5)]), false, &formulas));
    assert_eq!(c["EyeLookInLeft"], 0.0);
    assert_eq!(c["Nowhere"], 0.0);
    assert_eq!(c["JawOpen"], 0.5);
    assert_eq!(c["HeadRotX"], 1.0);
    assert!(!c.contains_key("EyeLookInRight"));
}

#[test]
fn outcomes_settle() {
    assert_eq!(value(settle(Outcome::Float(bits_of(0.75)))), 0.75);
    assert_eq!(value(settle(Outcome::Float(bits_of(2e6)))), 1e6);
    assert_eq!(value(settle(Outcome::Float(bits_of(f64::NEG_INFINITY)))), -1e6);
    assert_eq!(value(settle(Outcome::Integer(-7))), -7.0);
    assert_eq!(value(settle(Outcome::Integer(i64::MAX))), 1e6);
    assert_eq!(value(settle(Outcome::Integer(i64::MIN))), -1e6);
    assert_eq!(value(settle(Outcome::Failed)), 0.0);
}

#[test]
fn parameters_are_injected_in_order() {
    let formulas = vec![formula("A", "1"), formula("B", "2"), formula("C", "3")];
    let outcomes = vec![Outcome::Float(bits_of(0.5)), Outcome::Integer(2)];
    let request = VtsPc::tracking_msg(true, &formulas, &outcomes);
    assert_eq!(request.message_type, "InjectParameterDataRequest");
    let params = request.data.unwrap();
    assert!(params.face_found);
    assert_eq!(params.mode, "set");
    let got: Vec<(&str, f64, f64)> = params
        .parameter_values
        .iter()
        .map(|p| (p.id.as_str(), value(p.value), value(p.weight.unwrap())))
        .collect();
    assert_eq!(got, [("A", 0.5, 1.0), ("B", 2.0, 1.0), ("C", 0.0, 1.0)]);
}

#[test]
fn a_lost_face_has_no_parameters() {
    let formulas = vec![formula("A", "1")];
    let request = VtsPc::tracking_msg(false, &formulas, &vec![Outcome::Integer(2)]);
    let params = request.data.unwrap();
    assert!(!params.face_found);
    assert!(params.parameter_values.is_empty());
}

#[test]
fn formulas_see_the_frame_and_zero_for_the_rest() {
    let formulas = vec![
        formula("Jaw", "JawOpen + EyeLookInLeft"),
        formula("Blink", "(EyeBlinkLeft + EyeBlinkRight) / 2"),
        formula("Yaw", "-HeadRotY * 1.5"),
        formula("Smile", "math::abs(MouthSmileLeft - MouthSmileRight)"),
        formula("Count", "3"),
        formula("Wrong", "\"text\""),
    ];
    let f = frame(&[("jawOpen", 0.5), ("eyeBlink_L", 0.25), ("eyeBlink_R", 0.75), ("mouthSmile_R", 0.5)]);
    let mut context = evalexpr::HashMapContext::new();
    for binding in evaluation_bindings(&f, false, &formulas) {
        let number = evalexpr::Value::Float(value(binding.value));
        evalexpr::ContextWithMutableVariables::set_value(&mut context, binding.name, number).unwrap();
    }
    let outcomes: Vec<Outcome> = formulas
        .iter()
        .map(|f| match f.tree.eval_with_context(&context) {
            Ok(evalexpr::Value::Float(x)) => Outcome::Float(bits_of(x)),
            Ok(evalexpr::Value::Int(n)) => Outcome::Integer(n),
            _ => Outcome::Failed,
        })
        .collect();
    let params = VtsPc::tracking_msg(true, &formulas, &outcomes).data.unwrap().parameter_values;
    let got: Vec<(&str, f64)> = params.iter().map(|p| (p.id.as_str(), value(p.value))).collect();
    assert_eq!(
        got,
        [("Jaw", 0.5), ("Blink", 0.5), ("Yaw", -3.0), ("Smile", 0.5), ("Count", 3.0), ("Wrong", 0.0)]
    );
}

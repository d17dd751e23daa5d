use rbridger::names::{arkit_to_pascal, mirror_lr};

#[test]
fn keys_become_pascal_case() {
    assert_eq!(arkit_to_pascal("eyeBlink_L"), "EyeBlinkLeft");
    assert_eq!(arkit_to_pascal("mouthSmile_R"), "MouthSmileRight");
    assert_eq!(arkit_to_pascal("jawOpen"), "JawOpen");
    assert_eq!(arkit_to_pascal("JawOpen"), "JawOpen");
    assert_eq!(arkit_to_pascal("a"), "A");
    assert_eq!(arkit_to_pascal("1x"), "1x");
}

#[test]
fn keys_without_a_base_have_no_name() {
    assert_eq!(arkit_to_pascal(""), "");
    assert_eq!(arkit_to_pascal("_L"), "");
    assert_eq!(arkit_to_pascal("_R"), "");
}

#[test]
fn only_the_last_side_is_expanded() {
    assert_eq!(arkit_to_pascal("x_L_L"), "X_LLeft");
    assert_eq!(arkit_to_pascal("_L_R"), "_LRight");
    assert_eq!(arkit_to_pascal("brow_l"), "Brow_l");
}

#[test]
fn first_letters_outside_ascii() {
    assert_eq!(arkit_to_pascal("éclair_R"), "ÉclairRight");
    assert_eq!(arkit_to_pascal("ßa"), "SSa");
    assert_eq!(arkit_to_pascal("日本_L"), "日本Left");
}

#[test]
fn mirroring_swaps_the_side() {
    assert_eq!(mirror_lr("EyeBlinkLeft"), "EyeBlinkRight");
    assert_eq!(mirror_lr("EyeBlinkRight"), "EyeBlinkLeft");
    assert_eq!(mirror_lr("JawOpen"), "JawOpen");
    assert_eq!(mirror_lr("Left"), "Right");
    assert_eq!(mirror_lr("LeftEye"), "LeftEye");
    assert_eq!(mirror_lr(""), "");
}

#[test]
fn mirroring_twice_changes_nothing() {
    for name in ["EyeBlinkLeft", "MouthRight", "RightLeft", "LeftRight", "Brow", "éLeft"] {
        assert_eq!(mirror_lr(&mirror_lr(name)), name);
    }
}

#[test]
fn mirrored_left_key_is_the_right_key() {
    assert_eq!(mirror_lr(&arkit_to_pascal("_L")), arkit_to_pascal("_R"));
    assert_eq!(mirror_lr(&arkit_to_pascal("noseSneer_L")), arkit_to_pascal("noseSneer_R"));
    assert_eq!(mirror_lr(&arkit_to_pascal("noseSneer_R")), arkit_to_pascal("noseSneer_L"));
}

#[test]
fn pascal_case_stays() {
    for key in ["eyeBlink_L", "jawOpen", "x_L_L", "_L"] {
        let name = arkit_to_pascal(key);
        assert_eq!(arkit_to_pascal(&name), name);
        assert!(!name.ends_with("_L") && !name.ends_with("_R"));
    }
}

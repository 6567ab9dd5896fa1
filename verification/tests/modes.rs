use qua_format::{GameMode, TimeSignature};

#[test]
fn key_count_four_is_keys4() {
    assert_eq!(GameMode::from_key_count(4), Some(GameMode::Keys4));
}

#[test]
fn key_count_seven_is_keys7() {
    assert_eq!(GameMode::from_key_count(7), Some(GameMode::Keys7));
}

#[test]
fn other_key_counts_have_no_mode() {
    assert_eq!(GameMode::from_key_count(5), None);
    assert_eq!(GameMode::from_key_count(0), None);
    assert_eq!(GameMode::from_key_count(-4), None);
    assert_eq!(GameMode::from_key_count(8), None);
    assert_eq!(GameMode::from_key_count(i32::MAX), None);
    assert_eq!(GameMode::from_key_count(i32::MIN), None);
}

#[test]
fn key_counts_of_the_modes() {
    assert_eq!(GameMode::Keys4.get_key_count(), 4);
    assert_eq!(GameMode::Keys7.get_key_count(), 7);
}

#[test]
fn mode_is_found_again_from_its_key_count() {
    for mode in [GameMode::Keys4, GameMode::Keys7] {
        assert_eq!(GameMode::from_key_count(mode.get_key_count()), Some(mode));
    }
}

#[test]
fn codes_of_the_modes() {
    assert_eq!(GameMode::Keys4.to_code(), 1);
    assert_eq!(GameMode::Keys7.to_code(), 2);
    assert_eq!(GameMode::from_code(1), Some(GameMode::Keys4));
    assert_eq!(GameMode::from_code(2), Some(GameMode::Keys7));
    assert_eq!(GameMode::from_code(0), None);
    assert_eq!(GameMode::from_code(3), None);
    assert_eq!(GameMode::from_code(4), None);
    assert_eq!(GameMode::from_code(-1), None);
}

#[test]
fn codes_of_the_signatures() {
    assert_eq!(TimeSignature::Quadruple.to_code(), 4);
    assert_eq!(TimeSignature::Triple.to_code(), 3);
    assert_eq!(TimeSignature::from_code(4), Some(TimeSignature::Quadruple));
    assert_eq!(TimeSignature::from_code(3), Some(TimeSignature::Triple));
    assert_eq!(TimeSignature::from_code(0), None);
    assert_eq!(TimeSignature::from_code(1), None);
    assert_eq!(TimeSignature::from_code(2), None);
    assert_eq!(TimeSignature::from_code(5), None);
}

#[test]
fn enumeration_is_found_again_from_its_code() {
    for mode in [GameMode::Keys4, GameMode::Keys7] {
        assert_eq!(GameMode::from_code(mode.to_code()), Some(mode));
    }
    for signature in [TimeSignature::Quadruple, TimeSignature::Triple] {
        assert_eq!(TimeSignature::from_code(signature.to_code()), Some(signature));
    }
}

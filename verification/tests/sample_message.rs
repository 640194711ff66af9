use samples::{get_proto, META_VALUE_BITS, SUB_VALUE_BITS};

#[test]
fn constructor_is_deterministic() {
    let first = get_proto();
    let second = get_proto();
    assert_eq!(first, second);
}

#[test]
fn name_is_rust() {
    let m = get_proto();
    assert_eq!(m.name, "Rust");
}

#[test]
fn tags_are_rust_then_proto() {
    let m = get_proto();
    assert_eq!(m.tags, vec!["rust".to_string(), "proto".to_string()]);
}

#[test]
fn time_and_duration_are_absent() {
    let m = get_proto();
    assert!(m.time.is_none());
    assert!(m.duration.is_none());
}

#[test]
fn subs_holds_one_flagged_entry_with_value_3_4() {
    let m = get_proto();
    assert_eq!(m.subs.len(), 1);
    assert!(m.subs[0].flag);
    assert_eq!(f32::from_bits(m.subs[0].value_bits), 3.4f32);
}

#[test]
fn meta_is_present_with_clear_flag_and_value_0() {
    let m = get_proto();
    let meta = m.meta.expect("meta sub-record is present");
    assert!(!meta.flag);
    assert_eq!(f32::from_bits(meta.value_bits), 0.0f32);
}

#[test]
fn value_bit_patterns_match_the_floats() {
    assert_eq!(SUB_VALUE_BITS, 3.4f32.to_bits());
    assert_eq!(META_VALUE_BITS, 0.0f32.to_bits());
}

use funge_core::{GridCell, StackCell};

#[test]
fn default_cell_is_space() {
    assert_eq!(GridCell::default(), GridCell(b' '));
}

#[test]
fn byte_becomes_cell_unchanged() {
    assert_eq!(GridCell::from(0u8), GridCell(0));
    assert_eq!(GridCell::from(b'"'), GridCell(34));
    assert_eq!(GridCell::from(255u8), GridCell(255));
}

#[test]
fn widening_keeps_value() {
    assert_eq!(StackCell::from(GridCell(0)), StackCell(0));
    assert_eq!(StackCell::from(GridCell(200)), StackCell(200));
    assert_eq!(StackCell::from(GridCell(255)), StackCell(255));
}

#[test]
fn widen_then_truncate_round_trip() {
    for b in 0..=255u8 {
        assert_eq!(GridCell::from(StackCell::from(GridCell::from(b))), GridCell(b));
    }
}

#[test]
fn truncation_keeps_low_byte() {
    assert_eq!(GridCell::from(StackCell(256)), GridCell(0));
    assert_eq!(GridCell::from(StackCell(300)), GridCell(44));
    assert_eq!(GridCell::from(StackCell(-1)), GridCell(255));
    assert_eq!(GridCell::from(StackCell(-256)), GridCell(0));
    assert_eq!(GridCell::from(StackCell(-257)), GridCell(255));
    assert_eq!(GridCell::from(StackCell(i32::MAX)), GridCell(255));
    assert_eq!(GridCell::from(StackCell(i32::MIN)), GridCell(0));
}

#[test]
fn truncation_law_on_samples() {
    let samples = [0, 1, 65, 255, 256, 1000, -1, -65, -255, -1000, 123456, -123456, i32::MAX, i32::MIN];
    for v in samples {
        let expected = ((v % 256) + 256) % 256;
        assert_eq!(GridCell::from(StackCell(v)).0 as i32, expected);
    }
}

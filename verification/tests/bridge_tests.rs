use gain_bridge::bridge::ParamCell;

#[test]
fn new_cell_holds_initial_value() {
    let cell = ParamCell::new(1.0f32.to_bits());
    assert_eq!(cell.get(), 1.0f32.to_bits());
}

#[test]
fn set_then_get_returns_value() {
    let mut cell = ParamCell::new(0);
    cell.set(0.25f32.to_bits());
    assert_eq!(f32::from_bits(cell.get()), 0.25);
}

#[test]
fn last_write_wins() {
    let mut cell = ParamCell::new(0);
    cell.set(0.1f32.to_bits());
    cell.set(0.7f32.to_bits());
    cell.set(1.3f32.to_bits());
    assert_eq!(cell.get(), 1.3f32.to_bits());
}

#[test]
fn value_crosses_whole() {
    // Every bit of the stored word comes back unchanged, including patterns
    // a float round trip would not keep apart from others.
    let patterns: Vec<u32> = vec![0, u32::MAX, 0x8000_0000, 0x7FC0_0001, 0x0000_0001];
    let mut cell = ParamCell::new(0);
    for p in patterns {
        cell.set(p);
        assert_eq!(cell.get(), p);
    }
}

use frame_overlay::render_state::{
    blend_mode_name, RenderState, SharedScalar, Snapshot, BLEND_MODE_COUNT, INITIAL_BLEND_INDEX,
    INITIAL_SPEED_BITS,
};

#[test]
fn fresh_state_holds_the_initial_values() {
    let state = RenderState::new();
    assert_eq!(state.blend_index(), 0);
    assert_eq!(state.blend_index(), INITIAL_BLEND_INDEX);
    assert_eq!(state.speed_bits(), INITIAL_SPEED_BITS);
    assert_eq!(f64::from_bits(state.speed_bits()), 0.25);
}

#[test]
fn scalar_read_returns_the_latest_write() {
    let mut cell = SharedScalar::new(7u8);
    assert_eq!(cell.read(), 7);
    cell.write(3);
    assert_eq!(cell.read(), 3);
    cell.write(200);
    cell.write(1);
    assert_eq!(cell.read(), 1);
    assert_eq!(cell.read(), 1);
}

#[test]
fn write_accepts_every_value() {
    let mut state = RenderState::new();
    state.set_blend_index(255);
    assert_eq!(state.blend_index(), 255);
    state.set_speed_bits(u64::MAX);
    assert_eq!(state.speed_bits(), u64::MAX);
}

#[test]
fn writes_to_one_value_leave_the_other() {
    let mut state = RenderState::new();
    state.set_blend_index(5);
    assert_eq!(state.speed_bits(), INITIAL_SPEED_BITS);
    state.set_speed_bits(1.5f64.to_bits());
    assert_eq!(state.blend_index(), 5);
    assert_eq!(f64::from_bits(state.speed_bits()), 1.5);
}

#[test]
fn snapshot_copies_every_value() {
    let mut state = RenderState::new();
    state.set_blend_index(8);
    state.set_speed_bits(2.0f64.to_bits());
    let snapshot = state.snapshot();
    assert_eq!(snapshot, Snapshot { blend_index: 8, speed_bits: 2.0f64.to_bits() });
    state.set_blend_index(1);
    assert_eq!(snapshot.blend_index, 8);
}

#[test]
fn blend_modes_have_names_up_to_the_count() {
    assert_eq!(BLEND_MODE_COUNT, 9);
    let expected = [
        "Screen",
        "Dodge",
        "Burn",
        "Overlay",
        "Multiply",
        "Add",
        "Divide",
        "Grain Extract",
        "Grain Merge",
    ];
    for index in 0..9u8 {
        assert_eq!(blend_mode_name(index), Some(expected[index as usize]));
    }
    assert_eq!(blend_mode_name(9), None);
    assert_eq!(blend_mode_name(255), None);
}

use lysogeny_broth::cs8_into_u8;
use lysogeny_broth::CellState;

#[test]
fn cellstate_into_bool() {
    let mut cs = CellState::Dead;
    assert_eq!(cs.into_bool(), false);
    cs = CellState::Alive;
    assert_eq!(cs.into_bool(), true);
}

#[test]
fn util_cs8_into_u8() {
    let mut group = [CellState::Dead; 8];
    let mut result = cs8_into_u8(group);
    assert_eq!(result, 0b00000000);

    group[7] = CellState::Alive;
    result = cs8_into_u8(group);
    assert_eq!(result, 0b00000001);

    group[0] = CellState::Alive;
    result = cs8_into_u8(group);
    assert_eq!(result, 0b10000001);

    group[0] = CellState::Alive;
    group[3] = CellState::Alive;
    group[7] = CellState::Dead;
    result = cs8_into_u8(group);
    assert_eq!(result, 0b10010000);
}

#[test]
fn util_cs8_into_u8_all_alive() {
    let group = [CellState::Alive; 8];
    assert_eq!(cs8_into_u8(group), 0b11111111);
}

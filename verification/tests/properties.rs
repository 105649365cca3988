use lysogeny_broth::CellState;
use lysogeny_broth::Grid;
use lysogeny_broth::Universe;

fn identity(h: u8, v: u8, g: &Grid) -> CellState {
    g.get_cellstate(h, v).unwrap()
}

fn rule30(h: u8, v: u8, g: &Grid) -> CellState {
    let left = g.get_west_coordinate(h, v).unwrap();
    let right = g.get_east_coordinate(h, v).unwrap();
    let state = (
        g.get_cellstate_hv(left).unwrap(),
        g.get_cellstate(h, v).unwrap(),
        g.get_cellstate_hv(right).unwrap(),
    );
    match state {
        (CellState::Alive, CellState::Alive, CellState::Alive) => CellState::Dead,
        (CellState::Alive, CellState::Alive, CellState::Dead) => CellState::Dead,
        (CellState::Alive, CellState::Dead, CellState::Alive) => CellState::Dead,
        (CellState::Alive, CellState::Dead, CellState::Dead) => CellState::Alive,
        (CellState::Dead, CellState::Alive, CellState::Alive) => CellState::Alive,
        (CellState::Dead, CellState::Alive, CellState::Dead) => CellState::Alive,
        (CellState::Dead, CellState::Dead, CellState::Alive) => CellState::Alive,
        (CellState::Dead, CellState::Dead, CellState::Dead) => CellState::Dead,
    }
}

#[test]
fn wrap_is_its_own_inverse() {
    let g = Grid::new(3, 4).unwrap();
    for h in 0..3u8 {
        for v in 0..4u8 {
            let east = g.get_east_coordinate(h, v).unwrap();
            assert_eq!(g.get_west_coordinate_hv(east).unwrap(), (h, v));
            let west = g.get_west_coordinate(h, v).unwrap();
            assert_eq!(g.get_east_coordinate_hv(west).unwrap(), (h, v));
            let south = g.get_south_coordinate(h, v).unwrap();
            assert_eq!(g.get_north_coordinate_hv(south).unwrap(), (h, v));
            let north = g.get_north_coordinate(h, v).unwrap();
            assert_eq!(g.get_south_coordinate_hv(north).unwrap(), (h, v));
        }
    }
}

#[test]
fn step_increments_or_wraps_never_both() {
    let g = Grid::new(3, 4).unwrap();
    for h in 0..3u8 {
        for v in 0..4u8 {
            let east = g.get_east_coordinate(h, v).unwrap();
            // exactly one of: wrap to column 0, or move one column east
            assert!((east.0 == 0) != (east.0 == h + 1));
            assert_eq!(east.0 == 0, h == 2);
            let south = g.get_south_coordinate(h, v).unwrap();
            assert!((south.1 == 0) != (south.1 == v + 1));
            assert_eq!(south.1 == 0, v == 3);
        }
    }
    for v in 0..4u8 {
        assert_eq!(g.get_west_coordinate(0, v).unwrap(), (2, v));
    }
    for h in 0..3u8 {
        assert_eq!(g.get_north_coordinate(h, 0).unwrap(), (h, 3));
    }
}

#[test]
fn diagonals_compose_cardinal_steps() {
    let g = Grid::new(3, 4).unwrap();
    for h in 0..3u8 {
        for v in 0..4u8 {
            let east = g.get_east_coordinate(h, v).unwrap();
            let west = g.get_west_coordinate(h, v).unwrap();
            assert_eq!(
                g.get_northeast_coordinate(h, v).unwrap(),
                g.get_north_coordinate_hv(east).unwrap()
            );
            assert_eq!(
                g.get_southeast_coordinate(h, v).unwrap(),
                g.get_south_coordinate_hv(east).unwrap()
            );
            assert_eq!(
                g.get_southwest_coordinate(h, v).unwrap(),
                g.get_south_coordinate_hv(west).unwrap()
            );
            assert_eq!(
                g.get_northwest_coordinate(h, v).unwrap(),
                g.get_north_coordinate_hv(west).unwrap()
            );
        }
    }
}

#[test]
fn identity_rule_fixes_any_pattern() {
    let mut u = Universe::new(4, 3, identity).unwrap();
    u.grid.set_cellstate(0, 0, CellState::Alive).unwrap();
    u.grid.set_cellstate(2, 1, CellState::Alive).unwrap();
    u.grid.set_cellstate(3, 2, CellState::Alive).unwrap();
    let before: Vec<CellState> = (0..4u8)
        .flat_map(|h| (0..3u8).map(move |v| (h, v)))
        .map(|(h, v)| u.grid.get_cellstate(h, v).unwrap())
        .collect();
    for _ in 0..5 {
        u.update();
        let after: Vec<CellState> = (0..4u8)
            .flat_map(|h| (0..3u8).map(move |v| (h, v)))
            .map(|(h, v)| u.grid.get_cellstate(h, v).unwrap())
            .collect();
        assert_eq!(before, after);
    }
}

#[test]
fn dead_universe_stays_dead() {
    // rule 30 maps an all-dead neighbourhood to dead, so an all-dead
    // universe is a fixed point
    let mut u = Universe::new(5, 2, rule30).unwrap();
    for _ in 0..4 {
        u.update();
        for h in 0..5u8 {
            for v in 0..2u8 {
                assert_eq!(u.grid.get_cellstate(h, v).unwrap(), CellState::Dead);
            }
        }
    }
}

#[test]
fn rule30_strip_returns_to_dead_and_stays() {
    let mut u = Universe::new(3, 1, rule30).unwrap();
    u.grid.set_cellstate(1, 0, CellState::Alive).unwrap();
    u.update();
    u.update();
    // after two generations the strip is dead again and remains dead on
    // all subsequent updates
    for _ in 0..3 {
        for h in 0..3u8 {
            assert_eq!(u.grid.get_cellstate(h, 0).unwrap(), CellState::Dead);
        }
        u.update();
    }
}

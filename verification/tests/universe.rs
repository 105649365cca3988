use lysogeny_broth::CellState;
use lysogeny_broth::Grid;
use lysogeny_broth::GridError;
use lysogeny_broth::Universe;

fn identity(h: u8, v: u8, g: &Grid) -> CellState {
    g.get_cellstate(h, v).unwrap()
}

fn inversion(h: u8, v: u8, g: &Grid) -> CellState {
    match g.get_cellstate(h, v).unwrap() {
        CellState::Alive => CellState::Dead,
        CellState::Dead => CellState::Alive,
    }
}

fn rule30(h: u8, v: u8, g: &Grid) -> CellState {
    let left = g.get_west_coordinate(h, v).unwrap();
    let right = g.get_east_coordinate(h, v).unwrap();
    let state = (
        g.get_cellstate_hv(left).unwrap(),
        g.get_cellstate(h, v).unwrap(),
        g.get_cellstate_hv(right).unwrap(),
    );
    match state {
        (CellState::Alive, CellState::Alive, CellState::Alive) => CellState::Dead,
        (CellState::Alive, CellState::Alive, CellState::Dead) => CellState::Dead,
        (CellState::Alive, CellState::Dead, CellState::Alive) => CellState::Dead,
        (CellState::Alive, CellState::Dead, CellState::Dead) => CellState::Alive,
        (CellState::Dead, CellState::Alive, CellState::Alive) => CellState::Alive,
        (CellState::Dead, CellState::Alive, CellState::Dead) => CellState::Alive,
        (CellState::Dead, CellState::Dead, CellState::Alive) => CellState::Alive,
        (CellState::Dead, CellState::Dead, CellState::Dead) => CellState::Dead,
    }
}

#[test]
fn universe_update_on_grid() {
    let mut u1 = Universe::new(4, 6, identity).unwrap();
    u1.update();
    for h in 0..4u8 {
        for v in 0..6u8 {
            let cs = u1.grid.get_cellstate(h, v).unwrap();
            assert_eq!(cs, CellState::Dead);
        }
    }

    let mut u2 = Universe::new(4, 6, inversion).unwrap();
    u2.update();
    for h in 0..4u8 {
        for v in 0..6u8 {
            let cs = u2.grid.get_cellstate(h, v).unwrap();
            assert_eq!(cs, CellState::Alive);
        }
    }
}

#[test]
fn universe_automaton() {
    let u = Universe::new(1, 1, inversion).unwrap();
    assert_eq!(u.grid.get_cellstate(0, 0).unwrap(), CellState::Dead);

    let state = (u.automaton)(0, 0, &u.grid);
    assert_eq!(state, CellState::Alive);
}

#[test]
fn universe_update_one_cell_inversion() {
    let mut u = Universe::new(1, 1, inversion).unwrap();
    assert_eq!(u.grid.get_cellstate(0, 0).unwrap(), CellState::Dead);

    // do it manually
    u.grid.set_cellstate(0, 0, CellState::Alive).unwrap();
    assert_eq!(u.grid.get_cellstate(0, 0).unwrap(), CellState::Alive);

    // reset via inversion rule
    u.update();
    assert_eq!(u.grid.get_cellstate(0, 0).unwrap(), CellState::Dead);
}

// test based on Wolfram rule 30
#[test]
fn universe_update_rule30() {
    // test on dead universe -> should stay dead
    let mut u1 = Universe::new(3, 1, rule30).unwrap();
    u1.update();
    for h in 0..2u8 {
        let cs = u1.grid.get_cellstate(h, 0).unwrap();
        assert_eq!(cs, CellState::Dead)
    }

    // test with center cell alive
    let mut u2 = Universe::new(3, 1, rule30).unwrap();
    u2.grid.set_cellstate(1, 0, CellState::Alive).unwrap();
    // check for correct initial state
    assert_eq!(u2.grid.get_cellstate(0, 0).unwrap(), CellState::Dead);
    assert_eq!(u2.grid.get_cellstate(1, 0).unwrap(), CellState::Alive);
    assert_eq!(u2.grid.get_cellstate(2, 0).unwrap(), CellState::Dead);

    // more in depth sanity checks
    assert_eq!((1, 0), u2.grid.get_east_coordinate(0, 0).unwrap());
    assert_eq!((2, 0), u2.grid.get_east_coordinate(1, 0).unwrap());
    assert_eq!((0, 0), u2.grid.get_east_coordinate(2, 0).unwrap());
    assert_eq!((2, 0), u2.grid.get_west_coordinate(0, 0).unwrap());
    assert_eq!((0, 0), u2.grid.get_west_coordinate(1, 0).unwrap());
    assert_eq!((1, 0), u2.grid.get_west_coordinate(2, 0).unwrap());

    // test the rule itself
    assert_eq!(CellState::Alive, rule30(0, 0, &u2.grid));
    assert_eq!(CellState::Alive, rule30(1, 0, &u2.grid));
    assert_eq!(CellState::Alive, rule30(2, 0, &u2.grid));

    // all cells become alive in first iteration (apply the rule)
    u2.update();

    // test public state
    assert_eq!(u2.grid.get_cellstate(0, 0).unwrap(), CellState::Alive);
    assert_eq!(u2.grid.get_cellstate(1, 0).unwrap(), CellState::Alive);
    assert_eq!(u2.grid.get_cellstate(2, 0).unwrap(), CellState::Alive);

    // this universe should die on second iteration
    u2.update();
    assert_eq!(u2.grid.get_cellstate(0, 0).unwrap(), CellState::Dead);
    assert_eq!(u2.grid.get_cellstate(1, 0).unwrap(), CellState::Dead);
    assert_eq!(u2.grid.get_cellstate(2, 0).unwrap(), CellState::Dead);
}

#[test]
fn universe_new_invalid_dimension() {
    match Universe::new(0, 5, identity) {
        Err(e) => assert_eq!(e, GridError::InvalidDimension),
        Ok(_) => panic!("a zero-width universe must be rejected"),
    }
    match Universe::new(5, 0, identity) {
        Err(e) => assert_eq!(e, GridError::InvalidDimension),
        Ok(_) => panic!("a zero-height universe must be rejected"),
    }
}

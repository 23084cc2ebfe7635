use game_of_life::grid::GameOfLife;
use game_of_life::patterns::{place, seed, GLIDER, LIGHTWEIGHT_SPACESHIP};

fn live(game: &GameOfLife) -> Vec<(usize, usize)> {
    let mut cells = Vec::new();
    for x in 0..game.width() {
        for y in 0..game.height() {
            if game.get(x, y) == Some(true) {
                cells.push((x, y));
            }
        }
    }
    cells
}

#[test]
fn seed_places_the_spaceship_and_the_glider() {
    let mut game = GameOfLife::new(20, 12);
    seed(&mut game);
    assert_eq!(
        live(&game),
        vec![
            (0, 3), (0, 5), (0, 9),
            (1, 2), (1, 7), (1, 9),
            (2, 2), (2, 8), (2, 9),
            (3, 2), (3, 5),
            (4, 2), (4, 3), (4, 4),
        ]
    );
}

#[test]
fn seed_drops_what_does_not_fit() {
    let mut game = GameOfLife::new(3, 4);
    seed(&mut game);
    assert_eq!(live(&game), vec![(0, 3), (1, 2), (2, 2)]);
    let mut game = GameOfLife::new(1, 1);
    seed(&mut game);
    assert_eq!(live(&game), vec![]);
    let mut game = GameOfLife::new(0, 0);
    seed(&mut game);
    assert_eq!(live(&game), vec![]);
}

#[test]
fn seed_keeps_what_is_alive() {
    let mut game = GameOfLife::new(6, 6);
    game.set_on(5, 5);
    game.set_on(1, 2);
    seed(&mut game);
    assert_eq!(
        live(&game),
        vec![(0, 3), (0, 5), (1, 2), (2, 2), (3, 2), (3, 5), (4, 2), (4, 3), (4, 4), (5, 5)]
    );
}

#[test]
fn place_sets_the_listed_cells() {
    let mut game = GameOfLife::new(4, 4);
    place(&mut game, &[(3, 0), (0, 3), (3, 0), (4, 0), (0, 4), (1, 1)]);
    assert_eq!(live(&game), vec![(0, 3), (1, 1), (3, 0)]);
    place(&mut game, &[]);
    assert_eq!(live(&game), vec![(0, 3), (1, 1), (3, 0)]);
}

#[test]
fn the_patterns_are_as_listed() {
    assert_eq!(
        LIGHTWEIGHT_SPACESHIP.to_vec(),
        vec![(1, 2), (2, 2), (3, 2), (4, 2), (4, 3), (4, 4), (0, 3), (0, 5), (3, 5)]
    );
    assert_eq!(GLIDER.to_vec(), vec![(0, 9), (1, 9), (2, 9), (2, 8), (1, 7)]);
}

#[test]
fn seeded_glider_travels() {
    let mut game = GameOfLife::new(30, 30);
    place(&mut game, &GLIDER);
    for _ in 0..4 {
        game.step();
    }
    assert_eq!(live(&game), vec![(1, 10), (2, 8), (2, 10), (3, 9), (3, 10)]);
}

use sudoku::Game;
use sudoku::GameError;

fn test_game() -> Vec<Option<usize>> {
    vec![
        Some(8),
        None,
        None,
        None,
        None,
        None,
        None,
        None,
        None,
        None,
        None,
        Some(3),
        Some(6),
        None,
        None,
        None,
        None,
        None,
        None,
        Some(7),
        None,
        None,
        Some(9),
        None,
        Some(2),
        None,
        None,
        None,
        Some(5),
        None,
        None,
        None,
        Some(7),
        None,
        None,
        None,
        None,
        None,
        None,
        None,
        Some(4),
        Some(5),
        Some(7),
        None,
        None,
        None,
        None,
        None,
        Some(1),
        None,
        None,
        None,
        Some(3),
        None,
        None,
        None,
        Some(1),
        None,
        None,
        None,
        None,
        Some(6),
        Some(8),
        None,
        None,
        Some(8),
        Some(5),
        None,
        None,
        None,
        Some(1),
        None,
        None,
        Some(9),
        None,
        None,
        None,
        None,
        Some(4),
        None,
        None,
    ]
}

fn cells_of(g: &Game) -> Vec<Option<usize>> {
    let mut out = Vec::new();
    for row in 0..9 {
        for col in 0..9 {
            out.push(g.get(row, col).unwrap());
        }
    }
    out
}

#[test]
fn test_new_game_valid() {
    let game = test_game();
    assert!(Game::new(game).is_ok());
}

#[test]
fn test_new_game_empty() {
    let game = vec![];
    assert!(Game::new(game).is_err());
}

#[test]
fn test_new_game_too_few() {
    let mut game = test_game();
    game.pop();
    assert!(Game::new(game).is_err());
}

#[test]
fn test_new_game_too_many() {
    let mut game = test_game();
    game.push(Some(3));
    assert!(Game::new(game).is_err());
}

#[test]
fn test_new_round_trips_every_cell() {
    let mut input: Vec<Option<usize>> = Vec::new();
    for i in 0..81 {
        if i % 4 == 0 {
            input.push(None);
        } else {
            input.push(Some(i % 9 + 1));
        }
    }
    let game = Game::new(input.clone()).unwrap();
    for row in 0..9 {
        for col in 0..9 {
            assert_eq!(game.get(row, col), Ok(input[row * 9 + col]));
        }
    }
}

#[test]
fn test_new_wrong_length_shape_error() {
    for len in [0usize, 80, 82] {
        let input: Vec<Option<usize>> = vec![None; len];
        match Game::new(input) {
            Err(e) => assert_eq!(
                e,
                GameError::ShapeError {
                    observed_length: len
                }
            ),
            Ok(_) => panic!("length {} must be rejected", len),
        }
    }
}

#[test]
fn test_new_eighty_cells_shape_error() {
    let input: Vec<Option<usize>> = vec![Some(1); 80];
    let result = Game::new(input);
    assert!(matches!(
        result,
        Err(GameError::ShapeError {
            observed_length: 80
        })
    ));
}

#[test]
fn test_get_out_of_range() {
    let game = Game::new(test_game()).unwrap();
    assert_eq!(game.get(9, 0), Err(GameError::OutOfRange));
    assert_eq!(game.get(0, 9), Err(GameError::OutOfRange));
    assert_eq!(game.get(100, 100), Err(GameError::OutOfRange));
}

#[test]
fn test_set_out_of_range() {
    let mut game = Game::new(test_game()).unwrap();
    let before = cells_of(&game);
    assert_eq!(game.set(9, 0, Some(1)), Err(GameError::OutOfRange));
    assert_eq!(game.set(0, 9, None), Err(GameError::OutOfRange));
    assert_eq!(game.set(42, 7, Some(3)), Err(GameError::OutOfRange));
    assert_eq!(cells_of(&game), before);
}

#[test]
fn test_set_value_out_of_range() {
    let mut game = Game::new(test_game()).unwrap();
    let before = cells_of(&game);
    assert_eq!(game.set(0, 0, Some(0)), Err(GameError::ValueRange));
    assert_eq!(game.set(3, 5, Some(10)), Err(GameError::ValueRange));
    assert_eq!(game.set(8, 8, Some(usize::MAX)), Err(GameError::ValueRange));
    assert_eq!(cells_of(&game), before);
}

#[test]
fn test_set_changes_only_addressed_cell() {
    let mut game = Game::new(test_game()).unwrap();
    let before = cells_of(&game);
    assert_eq!(game.set(4, 4, Some(5)), Ok(()));
    for row in 0..9 {
        for col in 0..9 {
            let expected = if row == 4 && col == 4 {
                Some(5)
            } else {
                before[row * 9 + col]
            };
            assert_eq!(game.get(row, col), Ok(expected));
        }
    }
}

#[test]
fn test_set_can_empty_a_cell() {
    let mut game = Game::new(test_game()).unwrap();
    assert_eq!(game.get(0, 0), Ok(Some(8)));
    assert_eq!(game.set(0, 0, None), Ok(()));
    assert_eq!(game.get(0, 0), Ok(None));
}

#[test]
fn test_error_messages() {
    let shape = GameError::ShapeError { observed_length: 3 };
    assert_eq!(shape.message(), "input length is not 81");
    assert_eq!(GameError::OutOfRange.message(), "row or column out of range");
    assert_eq!(GameError::ValueRange.message(), "cell value out of range");
}

use snake_core::cell::Cell;
use snake_core::collision::Outcome;
use snake_core::direction::SegmentDirection;
use snake_core::game::{Game, Phase, SessionEvent, FOOD_REWARD};
use snake_core::grid::GridWorld;
use snake_core::snake::{Segment, SegmentOp, SegmentType};

fn grid(width: i32, height: i32) -> GridWorld {
    GridWorld::new(width, height).unwrap()
}

fn cells(points: &[(i32, i32)]) -> Vec<Cell> {
    points.iter().map(|&(x, y)| Cell::new(x, y)).collect()
}

fn layout(
    width: i32,
    height: i32,
    points: &[(i32, i32)],
    direction: SegmentDirection,
    food: Option<(i32, i32)>,
) -> Game {
    let food = food.map(|(x, y)| Cell::new(x, y));
    Game::with_layout(grid(width, height), &cells(points), direction, food, 11).unwrap()
}

fn snake_cells(game: &Game) -> Vec<(i32, i32)> {
    game.snake().cells().iter().map(|c| (c.x, c.y)).collect()
}

#[test]
fn reversal_is_ignored_and_the_snake_moves_on() {
    let mut game = layout(10, 10, &[(5, 5), (4, 5), (3, 5)], SegmentDirection::Right, Some((0, 0)));
    game.submit(SegmentDirection::Left);
    let report = game.tick();
    assert_eq!(game.snake().direction(), SegmentDirection::Right);
    assert_eq!(game.snake().head().cell, Cell::new(6, 5));
    assert_eq!(snake_cells(&game), vec![(6, 5), (5, 5), (4, 5)]);
    assert_eq!(report.outcome, Some(Outcome::Open));
    assert_eq!(report.event, None);
    assert_eq!(report.score, 0);
    assert_eq!(game.snake().pending_direction(), None);
}

#[test]
fn eating_grows_scores_and_moves_the_food() {
    let mut game = layout(10, 10, &[(5, 5), (4, 5), (3, 5)], SegmentDirection::Right, Some((6, 5)));
    let report = game.tick();
    assert_eq!(report.outcome, Some(Outcome::Food));
    assert_eq!(game.snake().len(), 4);
    assert_eq!(game.score(), 1);
    assert_eq!(report.score, 1);
    assert_eq!(report.event, None);
    assert_eq!(snake_cells(&game), vec![(6, 5), (5, 5), (4, 5), (3, 5)]);
    let food = game.food().unwrap();
    assert!(game.grid().contains(food));
    for taken in [(6, 5), (5, 5), (4, 5), (3, 5)] {
        assert_ne!((food.x, food.y), taken);
    }
    assert_eq!(report.ops, vec![SegmentOp::Create { cell: Cell::new(6, 5), id: 3 }]);
}

#[test]
fn running_into_the_wall_ends_the_session() {
    let mut game = layout(10, 10, &[(9, 5), (8, 5), (7, 5)], SegmentDirection::Right, Some((0, 0)));
    let report = game.tick();
    assert_eq!(report.outcome, Some(Outcome::Wall));
    assert!(!game.snake().is_alive());
    assert_eq!(report.event, Some(SessionEvent::GameOver { final_score: 0 }));
    assert_eq!(report.score, 0);
    assert_eq!(game.score(), 0);
    assert_eq!(game.phase(), Phase::GameOver);
    assert!(report.ops.is_empty());
    assert_eq!(snake_cells(&game), vec![(9, 5), (8, 5), (7, 5)]);
}

#[test]
fn running_into_the_body_ends_the_session() {
    let body = [(5, 5), (5, 6), (4, 6), (4, 5), (4, 4)];
    let mut game = layout(10, 10, &body, SegmentDirection::Down, Some((0, 0)));
    game.submit(SegmentDirection::Left);
    let report = game.tick();
    assert_eq!(report.outcome, Some(Outcome::SelfHit));
    assert_eq!(report.event, Some(SessionEvent::GameOver { final_score: 0 }));
    assert!(!game.snake().is_alive());
    assert_eq!(game.phase(), Phase::GameOver);
    assert_eq!(snake_cells(&game), body.to_vec());
}

#[test]
fn wall_is_hit_on_every_side() {
    let cases = [
        ((0, 3), SegmentDirection::Left),
        ((4, 3), SegmentDirection::Right),
        ((2, 4), SegmentDirection::Up),
        ((2, 0), SegmentDirection::Down),
    ];
    for (start, direction) in cases {
        let mut game = layout(5, 5, &[start], direction, Some((1, 1)));
        let report = game.tick();
        assert_eq!(report.outcome, Some(Outcome::Wall));
        assert_eq!(game.phase(), Phase::GameOver);
    }
}

#[test]
fn open_step_is_a_pure_shift() {
    let mut game =
        layout(10, 10, &[(5, 5), (4, 5), (4, 4), (3, 4)], SegmentDirection::Right, Some((0, 0)));
    game.submit(SegmentDirection::Up);
    let before: Vec<Segment> = game.snake().segments().clone();
    let report = game.tick();
    let after: Vec<Segment> = game.snake().segments().clone();
    assert_eq!(report.outcome, Some(Outcome::Open));
    assert_eq!(after.len(), before.len());
    assert_eq!(after[0].cell, Cell::new(5, 6));
    for i in 1..after.len() {
        assert_eq!(after[i].cell, before[i - 1].cell);
    }
    assert_eq!(after[3].cell, before[2].cell);
    for i in 0..after.len() {
        assert_eq!(after[i].id, before[i].id);
        assert_eq!(after[i].t, before[i].t);
    }
    assert_eq!(
        report.ops,
        vec![
            SegmentOp::Move { id: 3, cell: Cell::new(5, 6) },
            SegmentOp::Move { id: 2, cell: Cell::new(5, 5) },
            SegmentOp::Move { id: 1, cell: Cell::new(4, 5) },
            SegmentOp::Move { id: 0, cell: Cell::new(4, 4) },
        ]
    );
    assert_eq!(game.snake().direction(), SegmentDirection::Up);
    assert_eq!(game.food(), Some(Cell::new(0, 0)));
    assert_eq!(game.score(), 0);
}

#[test]
fn head_may_follow_the_tail() {
    let mut game =
        layout(4, 4, &[(1, 1), (1, 2), (2, 2), (2, 1)], SegmentDirection::Down, Some((0, 0)));
    game.submit(SegmentDirection::Right);
    let report = game.tick();
    assert_eq!(report.outcome, Some(Outcome::Open));
    assert_eq!(snake_cells(&game), vec![(2, 1), (1, 1), (1, 2), (2, 2)]);
    assert_eq!(game.phase(), Phase::Running);
}

#[test]
fn ticks_after_the_end_change_nothing() {
    let mut game = layout(10, 10, &[(9, 5), (8, 5)], SegmentDirection::Right, Some((0, 0)));
    game.tick();
    assert_eq!(game.phase(), Phase::GameOver);
    let segments = game.snake().segments().clone();
    let food = game.food();
    for _ in 0..5 {
        game.submit(SegmentDirection::Up);
        let report = game.tick();
        assert_eq!(report.outcome, None);
        assert_eq!(report.event, None);
        assert!(report.ops.is_empty());
        assert_eq!(report.score, 0);
        assert_eq!(game.snake().segments(), &segments);
        assert_eq!(game.food(), food);
        assert_eq!(game.snake().pending_direction(), None);
        assert_eq!(game.snake().direction(), SegmentDirection::Right);
        assert_eq!(game.phase(), Phase::GameOver);
    }
}

#[test]
fn new_session_rests_in_the_middle() {
    let mut game = Game::new(grid(10, 10), 3);
    assert_eq!(game.phase(), Phase::Idle);
    assert_eq!(snake_cells(&game), vec![(5, 5)]);
    assert_eq!(game.snake().segments()[0], Segment { cell: Cell::new(5, 5), t: SegmentType::Head, id: 0 });
    assert_eq!(game.snake().direction(), SegmentDirection::Idle);
    assert_eq!(game.score(), 0);
    let food = game.food().unwrap();
    assert!(game.grid().contains(food));
    assert_ne!(food, Cell::new(5, 5));
    let report = game.tick();
    assert_eq!(report.outcome, None);
    assert_eq!(game.phase(), Phase::Idle);
    assert_eq!(snake_cells(&game), vec![(5, 5)]);
    game.submit(SegmentDirection::Idle);
    assert_eq!(game.tick().outcome, None);
    assert_eq!(game.phase(), Phase::Idle);
}

#[test]
fn first_input_starts_the_session() {
    let mut game =
        Game::with_layout(grid(10, 10), &cells(&[(5, 5)]), SegmentDirection::Idle, Some(Cell::new(0, 0)), 1)
            .unwrap();
    game.submit(SegmentDirection::Down);
    let report = game.tick();
    assert_eq!(report.outcome, Some(Outcome::Open));
    assert_eq!(game.phase(), Phase::Running);
    assert_eq!(snake_cells(&game), vec![(5, 4)]);
    assert_eq!(report.ops, vec![SegmentOp::Move { id: 0, cell: Cell::new(5, 4) }]);
    let report = game.tick();
    assert_eq!(report.outcome, Some(Outcome::Open));
    assert_eq!(snake_cells(&game), vec![(5, 3)]);
}

#[test]
fn last_input_before_a_tick_wins() {
    let mut game = layout(10, 10, &[(5, 5), (4, 5)], SegmentDirection::Right, Some((0, 0)));
    game.submit(SegmentDirection::Up);
    game.submit(SegmentDirection::Down);
    game.tick();
    assert_eq!(game.snake().direction(), SegmentDirection::Down);
    assert_eq!(game.snake().head().cell, Cell::new(5, 4));
    game.submit(SegmentDirection::Up);
    game.tick();
    assert_eq!(game.snake().direction(), SegmentDirection::Down);
    assert_eq!(game.snake().head().cell, Cell::new(5, 3));
}

#[test]
fn filling_the_board_wins() {
    let mut game = layout(2, 2, &[(0, 0), (0, 1), (1, 1)], SegmentDirection::Down, Some((1, 0)));
    game.submit(SegmentDirection::Right);
    let report = game.tick();
    assert_eq!(report.outcome, Some(Outcome::Food));
    assert_eq!(report.event, Some(SessionEvent::Win { final_score: FOOD_REWARD }));
    assert_eq!(report.score, 1);
    assert_eq!(game.food(), None);
    assert_eq!(game.phase(), Phase::Won);
    assert_eq!(game.snake().len(), 4);
    assert!(game.snake().is_alive());
    let report = game.tick();
    assert_eq!(report.outcome, None);
    assert_eq!(report.event, None);
    assert_eq!(game.snake().len(), 4);
    assert_eq!(game.phase(), Phase::Won);
}

#[test]
fn single_cell_board_is_won_at_once() {
    let mut game = Game::new(grid(1, 1), 5);
    assert_eq!(game.food(), None);
    assert_eq!(game.phase(), Phase::Won);
    game.submit(SegmentDirection::Left);
    assert_eq!(game.snake().pending_direction(), None);
    let report = game.tick();
    assert_eq!(report.outcome, None);
    assert!(game.snake().is_alive());
}

#[test]
fn score_counts_the_food_eaten() {
    let mut game = layout(8, 1, &[(0, 0)], SegmentDirection::Right, Some((1, 0)));
    let mut eaten: u64 = 0;
    for _ in 0..40 {
        let head = game.snake().head().cell;
        let food = match game.food() {
            Some(food) => food,
            None => break,
        };
        game.submit(if food.x > head.x { SegmentDirection::Right } else { SegmentDirection::Left });
        let length = game.snake().len();
        let score = game.score();
        let report = game.tick();
        match report.outcome {
            Some(Outcome::Food) => {
                eaten += 1;
                assert_eq!(game.snake().len(), length + 1);
                assert_eq!(game.score(), score + FOOD_REWARD);
            },
            Some(Outcome::Open) => {
                assert_eq!(game.snake().len(), length);
                assert_eq!(game.score(), score);
            },
            _ => break,
        }
        assert_eq!(game.score(), eaten * FOOD_REWARD);
        if let Some(food) = game.food() {
            assert!(!game.snake().cells().contains(&food));
        }
    }
    assert!(eaten >= 1);
}

#[test]
fn same_seed_places_the_same_food() {
    let mut placements = Vec::new();
    for _ in 0..2 {
        let mut game = Game::with_layout(
            grid(6, 6),
            &cells(&[(0, 0)]),
            SegmentDirection::Right,
            Some(Cell::new(1, 0)),
            2024,
        )
        .unwrap();
        let mut seen = Vec::new();
        for _ in 0..4 {
            let head = game.snake().head().cell;
            let food = game.food().unwrap();
            let direction = if food.x > head.x {
                SegmentDirection::Right
            } else if food.x < head.x {
                SegmentDirection::Left
            } else if food.y > head.y {
                SegmentDirection::Up
            } else {
                SegmentDirection::Down
            };
            game.submit(direction);
            let report = game.tick();
            seen.push((report.outcome, game.food()));
        }
        placements.push(seen);
    }
    assert_eq!(placements[0], placements[1]);
    assert_eq!(placements[0][0].0, Some(Outcome::Food));
}

#[test]
fn layout_that_does_not_fit_is_refused() {
    let at = |x, y| Some(Cell::new(x, y));
    let right = SegmentDirection::Right;
    assert!(Game::with_layout(grid(4, 4), &cells(&[]), right, None, 0).is_none());
    assert!(Game::with_layout(grid(4, 4), &cells(&[(1, 1), (1, 1)]), right, None, 0).is_none());
    assert!(Game::with_layout(grid(4, 4), &cells(&[(4, 1)]), right, None, 0).is_none());
    assert!(Game::with_layout(grid(4, 4), &cells(&[(1, -1)]), right, None, 0).is_none());
    assert!(Game::with_layout(grid(4, 4), &cells(&[(1, 1)]), right, at(1, 1), 0).is_none());
    assert!(Game::with_layout(grid(4, 4), &cells(&[(1, 1)]), right, at(4, 4), 0).is_none());
    let game = Game::with_layout(grid(4, 4), &cells(&[(1, 1), (0, 1)]), right, None, 0).unwrap();
    let food = game.food().unwrap();
    assert!(game.grid().contains(food));
    assert!(food != Cell::new(1, 1) && food != Cell::new(0, 1));
    assert_eq!(game.snake().segments()[0].id, 1);
    assert_eq!(game.snake().segments()[1], Segment::body(Cell::new(0, 1), 0));
}

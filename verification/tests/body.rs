use snake_core::cell::Cell;
use snake_core::direction::{DirectionBuffer, SegmentDirection};
use snake_core::grid::GridWorld;
use snake_core::snake::{initialise_snake, Segment, SegmentOp, SegmentType, Snake};

const ALL: [SegmentDirection; 5] = [
    SegmentDirection::Left,
    SegmentDirection::Right,
    SegmentDirection::Up,
    SegmentDirection::Down,
    SegmentDirection::Idle,
];

fn cells(points: &[(i32, i32)]) -> Vec<Cell> {
    points.iter().map(|&(x, y)| Cell::new(x, y)).collect()
}

fn lying_on(points: &[(i32, i32)], direction: SegmentDirection) -> Snake {
    Snake::from_cells(&cells(points), direction).unwrap()
}

#[test]
fn opposites_pair_up() {
    assert_eq!(SegmentDirection::Left.opposite(), SegmentDirection::Right);
    assert_eq!(SegmentDirection::Right.opposite(), SegmentDirection::Left);
    assert_eq!(SegmentDirection::Up.opposite(), SegmentDirection::Down);
    assert_eq!(SegmentDirection::Down.opposite(), SegmentDirection::Up);
    assert_eq!(SegmentDirection::Idle.opposite(), SegmentDirection::Idle);
    for a in ALL {
        for b in ALL {
            let expected = a != SegmentDirection::Idle && b == a.opposite();
            assert_eq!(a.is_opposite(b), expected);
        }
    }
    assert!(!SegmentDirection::Idle.is_opposite(SegmentDirection::Idle));
}

#[test]
fn vectors_are_unit_steps() {
    assert_eq!(SegmentDirection::Left.vector(), (-1, 0));
    assert_eq!(SegmentDirection::Right.vector(), (1, 0));
    assert_eq!(SegmentDirection::Up.vector(), (0, 1));
    assert_eq!(SegmentDirection::Down.vector(), (0, -1));
    assert_eq!(SegmentDirection::Idle.vector(), (0, 0));
}

#[test]
fn commit_never_reverses() {
    for current in ALL {
        for candidate in ALL {
            let mut buffer = DirectionBuffer::new();
            buffer.submit(candidate);
            assert_eq!(buffer.pending(), Some(candidate));
            let committed = buffer.commit(current);
            assert!(!committed.is_opposite(current));
            assert!(!current.is_opposite(committed));
            assert!(committed == candidate || committed == current);
            if candidate != SegmentDirection::Idle && !candidate.is_opposite(current) {
                assert_eq!(committed, candidate);
            } else {
                assert_eq!(committed, current);
            }
            assert_eq!(buffer.pending(), None);
        }
        let mut empty = DirectionBuffer::new();
        assert_eq!(empty.pending(), None);
        assert_eq!(empty.commit(current), current);
    }
}

#[test]
fn commit_takes_the_last_submission() {
    let mut buffer = DirectionBuffer::new();
    buffer.submit(SegmentDirection::Up);
    buffer.submit(SegmentDirection::Left);
    buffer.submit(SegmentDirection::Down);
    assert_eq!(buffer.commit(SegmentDirection::Right), SegmentDirection::Down);
    assert_eq!(buffer.commit(SegmentDirection::Down), SegmentDirection::Down);
    buffer.submit(SegmentDirection::Left);
    assert_eq!(buffer.commit(SegmentDirection::Right), SegmentDirection::Right);
    buffer.submit(SegmentDirection::Idle);
    assert_eq!(buffer.commit(SegmentDirection::Up), SegmentDirection::Up);
    buffer.submit(SegmentDirection::Up);
    assert_eq!(buffer.commit(SegmentDirection::Idle), SegmentDirection::Up);
}

#[test]
fn new_snake_is_a_single_head() {
    let snake = Snake::new(Cell::new(3, 4), SegmentDirection::Up);
    assert_eq!(snake.len(), 1);
    assert_eq!(snake.head(), Segment { cell: Cell::new(3, 4), t: SegmentType::Head, id: 0 });
    assert_eq!(snake.direction(), SegmentDirection::Up);
    assert_eq!(snake.pending_direction(), None);
    assert!(snake.is_alive());
    assert_eq!(snake.score(), 0);
    assert_eq!(snake.cells(), cells(&[(3, 4)]));
    assert!(snake.cells_ahead_of_tail().is_empty());
}

#[test]
fn segment_constructors() {
    assert_eq!(
        Segment::body(Cell::new(2, 9), 17),
        Segment { cell: Cell::new(2, 9), t: SegmentType::Body, id: 17 }
    );
    assert_eq!(Segment::default(), Segment { cell: Cell::new(0, 0), t: SegmentType::Head, id: 0 });
}

#[test]
fn session_snake_starts_in_the_middle() {
    let snake = initialise_snake(&GridWorld::new(10, 10).unwrap());
    assert_eq!(snake.segments(), &vec![Segment { cell: Cell::new(5, 5), t: SegmentType::Head, id: 0 }]);
    assert_eq!(snake.direction(), SegmentDirection::Idle);
    assert!(snake.is_alive());
    assert_eq!(snake.score(), 0);
    let snake = initialise_snake(&GridWorld::new(1, 1).unwrap());
    assert_eq!(snake.head().cell, Cell::new(0, 0));
    let snake = initialise_snake(&GridWorld::from_viewport(40, 24, 8).unwrap());
    assert_eq!(snake.head().cell, Cell::new(2, 1));
}

#[test]
fn from_cells_numbers_from_the_tail() {
    let snake = lying_on(&[(5, 5), (4, 5), (3, 5)], SegmentDirection::Right);
    assert_eq!(
        snake.segments(),
        &vec![
            Segment { cell: Cell::new(5, 5), t: SegmentType::Head, id: 2 },
            Segment { cell: Cell::new(4, 5), t: SegmentType::Body, id: 1 },
            Segment { cell: Cell::new(3, 5), t: SegmentType::Body, id: 0 },
        ]
    );
    assert_eq!(snake.cells_ahead_of_tail(), cells(&[(5, 5), (4, 5)]));
    assert!(Snake::from_cells(&cells(&[]), SegmentDirection::Right).is_none());
    assert!(Snake::from_cells(&cells(&[(1, 1), (2, 1), (1, 1)]), SegmentDirection::Right).is_none());
}

#[test]
fn advance_without_growth_shifts() {
    let mut snake = lying_on(&[(5, 5), (4, 5), (3, 5)], SegmentDirection::Right);
    let ops = snake.advance(Cell::new(5, 6), false);
    assert_eq!(snake.cells(), cells(&[(5, 6), (5, 5), (4, 5)]));
    assert_eq!(snake.direction(), SegmentDirection::Up);
    assert_eq!(snake.len(), 3);
    let ids: Vec<u64> = snake.segments().iter().map(|s| s.id).collect();
    assert_eq!(ids, vec![2, 1, 0]);
    assert_eq!(
        ops,
        vec![
            SegmentOp::Move { id: 2, cell: Cell::new(5, 6) },
            SegmentOp::Move { id: 1, cell: Cell::new(5, 5) },
            SegmentOp::Move { id: 0, cell: Cell::new(4, 5) },
        ]
    );
}

#[test]
fn advance_with_growth_adds_a_head() {
    let mut snake = lying_on(&[(5, 5), (4, 5)], SegmentDirection::Right);
    let ops = snake.advance(Cell::new(6, 5), true);
    assert_eq!(
        snake.segments(),
        &vec![
            Segment { cell: Cell::new(6, 5), t: SegmentType::Head, id: 2 },
            Segment { cell: Cell::new(5, 5), t: SegmentType::Body, id: 1 },
            Segment { cell: Cell::new(4, 5), t: SegmentType::Body, id: 0 },
        ]
    );
    assert_eq!(ops, vec![SegmentOp::Create { cell: Cell::new(6, 5), id: 2 }]);
    assert_eq!(snake.score(), 0);
    let ops = snake.advance(Cell::new(6, 4), true);
    assert_eq!(ops, vec![SegmentOp::Create { cell: Cell::new(6, 4), id: 3 }]);
    assert_eq!(snake.len(), 4);
    assert_eq!(snake.direction(), SegmentDirection::Down);
}

#[test]
fn advance_refuses_steps_that_break_the_body() {
    let mut snake = lying_on(&[(5, 5), (4, 5), (3, 5)], SegmentDirection::Right);
    let before = snake.segments().clone();
    assert!(snake.advance(Cell::new(4, 5), false).is_empty());
    assert!(snake.advance(Cell::new(5, 5), false).is_empty());
    assert!(snake.advance(Cell::new(7, 5), false).is_empty());
    assert!(snake.advance(Cell::new(6, 6), true).is_empty());
    assert_eq!(snake.segments(), &before);
    assert_eq!(snake.direction(), SegmentDirection::Right);
    let mut ring = lying_on(&[(1, 1), (1, 2), (2, 2), (2, 1)], SegmentDirection::Down);
    assert!(ring.advance(Cell::new(2, 1), true).is_empty());
    assert_eq!(ring.len(), 4);
    assert_eq!(ring.advance(Cell::new(2, 1), false).len(), 4);
    assert_eq!(ring.cells(), cells(&[(2, 1), (1, 1), (1, 2), (2, 2)]));
}

#[test]
fn dead_snake_does_not_advance() {
    let mut snake = lying_on(&[(5, 5), (4, 5)], SegmentDirection::Right);
    snake.submit(SegmentDirection::Up);
    snake.die();
    assert!(!snake.is_alive());
    let before = snake.segments().clone();
    for _ in 0..3 {
        assert!(snake.advance(Cell::new(6, 5), false).is_empty());
        assert!(snake.advance(Cell::new(6, 5), true).is_empty());
        snake.submit(SegmentDirection::Down);
        assert_eq!(snake.segments(), &before);
        assert_eq!(snake.direction(), SegmentDirection::Right);
        assert_eq!(snake.pending_direction(), Some(SegmentDirection::Up));
        assert_eq!(snake.score(), 0);
    }
}

#[test]
fn input_waits_until_it_is_committed() {
    let mut snake = Snake::new(Cell::new(0, 0), SegmentDirection::Right);
    snake.submit(SegmentDirection::Left);
    assert_eq!(snake.pending_direction(), Some(SegmentDirection::Left));
    assert_eq!(snake.commit_direction(), SegmentDirection::Right);
    assert_eq!(snake.pending_direction(), None);
    snake.submit(SegmentDirection::Up);
    assert_eq!(snake.commit_direction(), SegmentDirection::Up);
    assert_eq!(snake.direction(), SegmentDirection::Right);
}

#[test]
fn award_adds_to_the_score() {
    let mut snake = Snake::new(Cell::new(0, 0), SegmentDirection::Idle);
    snake.award(1);
    snake.award(41);
    assert_eq!(snake.score(), 42);
}

#[test]
fn teardown_removes_every_segment() {
    let snake = lying_on(&[(5, 5), (4, 5), (3, 5)], SegmentDirection::Right);
    assert_eq!(
        snake.teardown(),
        vec![SegmentOp::Destroy { id: 2 }, SegmentOp::Destroy { id: 1 }, SegmentOp::Destroy { id: 0 }]
    );
    assert_eq!(snake.len(), 3);
}

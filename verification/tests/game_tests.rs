use breakout::entities::fill_color;
use breakout::Ball;
use breakout::Brick;
use breakout::Bricks;
use breakout::Config;
use breakout::Game;
use breakout::Paddle;
use breakout::Shape;
use breakout::Status;
use breakout::UserInput;

fn fresh() -> Game {
    Game::new(480, 320).unwrap()
}

fn no_input() -> UserInput {
    UserInput { keyboard_left: false, keyboard_right: false, pointer_x: 0, pointer_y: 0 }
}

fn custom(ball: Ball, paddle_x: i32, lives: u16) -> Game {
    Game {
        config: Config::default(),
        canvas_width: 480,
        canvas_height: 320,
        canvas_left_offset: 0,
        ball,
        paddle: Paddle { x: paddle_x, width: 75, height: 10 },
        bricks: Bricks::new(),
        user_input: no_input(),
        score: 0,
        lives,
    }
}

#[test]
fn initial_session_state() {
    let g = fresh();
    assert_eq!(g.ball(), Ball { x: 240, y: 290, radius: 10, dx: 2, dy: -2 });
    assert_eq!(g.paddle(), Paddle { x: 202, width: 75, height: 10 });
    assert_eq!(g.score(), 0);
    assert_eq!(g.lives(), 3);
    assert_eq!(g.total_count(), 15);
    assert_eq!(g.alive_count(), 15);
}

#[test]
fn plain_tick_moves_the_ball() {
    // Canvas 480x320, ball at (240, 290) with velocity (2, -2), paddle at
    // 202: nothing is hit, the ball just moves.
    let mut g = fresh();
    let status = g.advance();
    assert_eq!(status, Status::Continue);
    assert_eq!(g.ball(), Ball { x: 242, y: 288, radius: 10, dx: 2, dy: -2 });
    assert_eq!(g.paddle().x, 202);
    assert_eq!(g.score(), 0);
    assert_eq!(g.lives(), 3);
}

#[test]
fn last_brick_wins_and_stops_the_tick() {
    // A 1x1 grid on a 100x70 canvas puts the single brick at (30, 30) and
    // the ball at (50, 40), strictly inside it.
    let mut c = Config::default();
    c.rows = 1;
    c.columns = 1;
    let mut g = Game::new_with_config(c, 100, 70).unwrap();
    assert_eq!(g.ball(), Ball { x: 50, y: 40, radius: 10, dx: 2, dy: -2 });
    let status = g.advance();
    assert_eq!(status, Status::Won);
    assert_eq!(g.score(), 1);
    assert_eq!(g.alive_count(), 0);
    // The win stops the tick: the ball is not moved, only its vertical
    // direction was flipped by the brick collision.
    assert_eq!(g.ball(), Ball { x: 50, y: 40, radius: 10, dx: 2, dy: 2 });
}

#[test]
fn last_life_lost_without_repositioning() {
    // One life, ball about to cross the bottom outside the paddle span.
    let mut g = custom(Ball { x: 100, y: 310, radius: 10, dx: 2, dy: 2 }, 300, 1);
    let status = g.advance();
    assert_eq!(status, Status::Lost);
    assert_eq!(g.lives(), 0);
    // The lose stops the tick: no repositioning, no paddle movement.
    assert_eq!(g.ball(), Ball { x: 100, y: 310, radius: 10, dx: 2, dy: 2 });
    assert_eq!(g.paddle().x, 300);
}

#[test]
fn missed_ball_resets_the_round() {
    // Two lives, same miss: one life is lost, ball and paddle are reset,
    // and the tick then moves the reset ball by its fresh velocity.
    let mut g = custom(Ball { x: 100, y: 310, radius: 10, dx: 2, dy: 2 }, 300, 2);
    let status = g.advance();
    assert_eq!(status, Status::RoundReset);
    assert_eq!(g.lives(), 1);
    assert_eq!(g.ball(), Ball { x: 242, y: 288, radius: 10, dx: 2, dy: -2 });
    assert_eq!(g.paddle().x, 202);
}

#[test]
fn pointer_overrides_keyboard() {
    // Right key held and the pointer inside the canvas: the final paddle
    // position is the pointer-derived one, not 202 + 7.
    let mut g = fresh();
    g.set_right_held(true);
    g.set_pointer(300, 10);
    let status = g.advance();
    assert_eq!(status, Status::Continue);
    assert_eq!(g.paddle().x, 300 - 75 / 2);
}

#[test]
fn keyboard_moves_the_paddle() {
    let mut g = fresh();
    g.set_right_held(true);
    g.advance();
    assert_eq!(g.paddle().x, 209);

    let mut g = fresh();
    g.set_left_held(true);
    g.advance();
    assert_eq!(g.paddle().x, 195);

    // Right takes priority when both keys are held.
    let mut g = fresh();
    g.set_left_held(true);
    g.set_right_held(true);
    g.advance();
    assert_eq!(g.paddle().x, 209);
}

#[test]
fn keyboard_movement_is_clamped() {
    let mut g = custom(Ball { x: 240, y: 290, radius: 10, dx: 2, dy: -2 }, 400, 3);
    g.set_right_held(true);
    g.advance();
    assert_eq!(g.paddle().x, 405);

    let mut g = custom(Ball { x: 240, y: 290, radius: 10, dx: 2, dy: -2 }, 3, 3);
    g.set_left_held(true);
    g.advance();
    assert_eq!(g.paddle().x, 0);
}

#[test]
fn pointer_follow_is_clamped_to_the_canvas() {
    let mut g = fresh();
    g.set_pointer(1, 0);
    g.advance();
    assert_eq!(g.paddle().x, 0);

    let mut g = fresh();
    g.set_pointer(479, 0);
    g.advance();
    assert_eq!(g.paddle().x, 405);
}

#[test]
fn pointer_outside_the_canvas_is_ignored() {
    let mut g = fresh();
    g.set_pointer(0, 0);
    g.advance();
    assert_eq!(g.paddle().x, 202);

    let mut g = fresh();
    g.set_pointer(480, 0);
    g.advance();
    assert_eq!(g.paddle().x, 202);

    // A far-negative pointer saturates instead of wrapping around.
    let mut g = fresh();
    g.set_canvas_left_offset(50);
    g.set_pointer(i32::MIN, 0);
    g.advance();
    assert_eq!(g.paddle().x, 202);
}

#[test]
fn first_matching_brick_wins_the_tie_break() {
    // Two identical overlapping bricks both contain the ball centre; only
    // the first dies, the score rises by one, and the vertical direction
    // flips exactly once.
    let brick = Brick { x: 20, y: 20, width: 100, height: 100, alive: true };
    let mut g = custom(Ball { x: 50, y: 50, radius: 10, dx: 2, dy: -2 }, 202, 3);
    g.bricks = Bricks { inner: vec![brick, brick] };
    let status = g.advance();
    assert_eq!(status, Status::Continue);
    assert_eq!(g.score(), 1);
    assert!(!g.bricks.inner[0].alive);
    assert!(g.bricks.inner[1].alive);
    assert_eq!(g.ball(), Ball { x: 52, y: 52, radius: 10, dx: 2, dy: 2 });
}

#[test]
fn top_wall_bounce() {
    let mut g = custom(Ball { x: 100, y: 10, radius: 10, dx: 2, dy: -2 }, 202, 3);
    g.advance();
    assert_eq!(g.ball(), Ball { x: 102, y: 12, radius: 10, dx: 2, dy: 2 });
}

#[test]
fn side_wall_bounces() {
    // The bounce is decided on the projected position, one tick before
    // the wall would be touched.
    let mut g = custom(Ball { x: 469, y: 100, radius: 10, dx: 2, dy: -2 }, 202, 3);
    g.advance();
    assert_eq!(g.ball(), Ball { x: 467, y: 98, radius: 10, dx: -2, dy: -2 });

    let mut g = custom(Ball { x: 11, y: 100, radius: 10, dx: -2, dy: -2 }, 202, 3);
    g.advance();
    assert_eq!(g.ball(), Ball { x: 13, y: 98, radius: 10, dx: 2, dy: -2 });
}

#[test]
fn paddle_catches_the_ball() {
    let mut g = custom(Ball { x: 120, y: 310, radius: 10, dx: 2, dy: 2 }, 100, 3);
    let status = g.advance();
    assert_eq!(status, Status::Continue);
    assert_eq!(g.lives(), 3);
    assert_eq!(g.ball(), Ball { x: 122, y: 308, radius: 10, dx: 2, dy: -2 });
}

#[test]
fn paddle_edge_does_not_catch() {
    // The paddle span is an open interval: a ball exactly above the left
    // edge is a miss.
    let mut g = custom(Ball { x: 100, y: 310, radius: 10, dx: 2, dy: 2 }, 100, 2);
    let status = g.advance();
    assert_eq!(status, Status::RoundReset);
    assert_eq!(g.lives(), 1);
}

#[test]
fn counts_partition_across_ticks() {
    // Over a long run the alive and dead counts always sum to the total,
    // the alive count never grows, and the score tracks the dead count.
    let mut g = fresh();
    let mut alive_before = g.alive_count();
    for _ in 0..300 {
        let status = g.advance();
        let alive = g.alive_count();
        let dead = g.dead_count();
        assert_eq!(alive + dead, g.total_count());
        assert!(alive <= alive_before);
        assert_eq!(g.score() as usize, dead);
        assert!(g.score() as usize <= g.total_count());
        alive_before = alive;
        if status == Status::Won || status == Status::Lost {
            break;
        }
    }
}

#[test]
fn paddle_stays_on_the_canvas_across_ticks() {
    let mut g = fresh();
    for i in 0..300 {
        g.set_pointer(i * 37 % 700 - 100, 0);
        g.set_right_held(i % 3 == 0);
        g.set_left_held(i % 4 == 0);
        let status = g.advance();
        let p = g.paddle();
        assert!(0 <= p.x);
        assert!(p.x + p.width <= 480);
        if status == Status::Won || status == Status::Lost {
            break;
        }
    }
}

#[test]
fn identical_inputs_replay_identically() {
    // Deterministic replay: two sessions fed the same input snapshots run
    // through bit-identical ball, paddle, score and lives sequences.
    let mut a = fresh();
    let mut b = fresh();
    for i in 0..200 {
        let pointer = (i * 13) % 600 - 50;
        a.set_pointer(pointer, i);
        b.set_pointer(pointer, i);
        a.set_right_held(i % 3 == 0);
        b.set_right_held(i % 3 == 0);
        a.set_left_held(i % 5 == 0);
        b.set_left_held(i % 5 == 0);
        let sa = a.advance();
        let sb = b.advance();
        assert_eq!(sa, sb);
        assert_eq!(a.ball(), b.ball());
        assert_eq!(a.paddle(), b.paddle());
        assert_eq!(a.score(), b.score());
        assert_eq!(a.lives(), b.lives());
        if sa == Status::Won || sa == Status::Lost {
            break;
        }
    }
}

#[test]
fn draw_intents_describe_the_entities() {
    let g = fresh();
    assert_eq!(g.ball().draw_intent(), Shape::Circle { x: 240, y: 290, radius: 10 });
    assert_eq!(
        g.paddle().draw_intent(320),
        Shape::Rect { x: 202, y: 310, width: 75, height: 10 }
    );
    let alive = Brick { x: 30, y: 30, width: 75, height: 20, alive: true };
    assert_eq!(
        alive.draw_intent(),
        Some(Shape::Rect { x: 30, y: 30, width: 75, height: 20 })
    );
    let dead = Brick { alive: false, ..alive };
    assert_eq!(dead.draw_intent(), None);
    let color = fill_color();
    assert_eq!((color.red, color.green, color.blue), (0x00, 0x95, 0xdd));
}

#[test]
fn alive_bricks_shrink_as_bricks_die() {
    let mut g = custom(Ball { x: 50, y: 50, radius: 10, dx: 2, dy: -2 }, 202, 3);
    let brick = Brick { x: 20, y: 20, width: 100, height: 100, alive: true };
    let far = Brick { x: 300, y: 20, width: 100, height: 100, alive: true };
    g.bricks = Bricks { inner: vec![brick, far] };
    assert_eq!(g.alive_bricks().len(), 2);
    g.advance();
    let alive = g.alive_bricks();
    assert_eq!(alive.len(), 1);
    assert_eq!(alive[0], far);
}

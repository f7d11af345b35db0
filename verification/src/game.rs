use vstd::prelude::*;

use crate::bricks::alive_count;
use crate::bricks::alive_seq;
use crate::bricks::dead_count;
use crate::bricks::grid_seq;
use crate::bricks::lemma_alive_dead_partition;
use crate::bricks::lemma_counts_after_kill;
use crate::bricks::Bricks;
use crate::config::Config;
use crate::config::ConfigError;
use crate::entities::Ball;
use crate::entities::Brick;
use crate::entities::Paddle;
use crate::entities::UserInput;

verus! {

/// What one tick reports back to the host. `Won` and `Lost` are terminal:
/// the session must not be advanced after either. `RoundReset` is the
/// non-terminal recovery after a missed ball when lives remain.
#[derive(Clone, Copy, PartialEq, Eq, Structural, Debug)]
pub enum Status {
    Continue,
    RoundReset,
    Won,
    Lost,
}

/// The mathematical snapshot of a session: everything one tick reads and
/// writes, as plain values.
#[verifier::ext_equal]
pub ghost struct GameV {
    pub canvas_width: i32,
    pub canvas_height: i32,
    pub canvas_left_offset: i32,
    pub ball: Ball,
    pub paddle: Paddle,
    pub bricks: Seq<Brick>,
    pub input: UserInput,
    pub score: u16,
    pub lives: u16,
    pub ball_speed: i32,
    pub paddle_key_speed: i32,
}

/// The ball centre lies strictly inside the brick's rectangle and the brick
/// is still alive.
pub open spec fn brick_hit(b: Brick, x: int, y: int) -> bool {
    &&& b.alive
    &&& b.x < x < b.x + b.width
    &&& b.y < y < b.y + b.height
}

/// The index of the first alive brick at or after `i` whose rectangle
/// contains the ball centre, or -1 when there is none.
pub open spec fn first_hit_from(bricks: Seq<Brick>, x: int, y: int, i: int) -> int
    decreases bricks.len() - i,
{
    if i < 0 || i >= bricks.len() {
        -1
    } else if brick_hit(bricks[i], x, y) {
        i
    } else {
        first_hit_from(bricks, x, y, i + 1)
    }
}

/// The earliest hit brick in grid order, or -1: the tie-break when the ball
/// geometrically overlaps several bricks at once.
pub open spec fn first_hit(bricks: Seq<Brick>, x: int, y: int) -> int {
    first_hit_from(bricks, x, y, 0)
}

/// A result of `first_hit_from` is -1 or a real index of an alive, hit
/// brick.
pub proof fn lemma_first_hit_props(bricks: Seq<Brick>, x: int, y: int, i: int)
    ensures
        first_hit_from(bricks, x, y, i) == -1 || (i <= first_hit_from(bricks, x, y, i)
            < bricks.len() && brick_hit(bricks[first_hit_from(bricks, x, y, i)], x, y)),
    decreases bricks.len() - i,
{
    if 0 <= i < bricks.len() && !brick_hit(bricks[i], x, y) {
        lemma_first_hit_props(bricks, x, y, i + 1);
    }
}

/// Step 1 of a tick: the first alive brick containing the ball centre, if
/// any, dies; the ball's vertical direction flips; the score rises by one.
/// At most one brick dies per tick.
pub open spec fn after_bricks(g: GameV) -> GameV {
    let k = first_hit(g.bricks, g.ball.x as int, g.ball.y as int);
    if k < 0 {
        g
    } else {
        GameV {
            ball: Ball { dy: (-g.ball.dy) as i32, ..g.ball },
            bricks: g.bricks.update(k, Brick { alive: false, ..g.bricks[k] }),
            score: (g.score + 1) as u16,
            ..g
        }
    }
}

/// The ball position projected one velocity step ahead, before any bounce
/// of this tick is applied to it.
pub open spec fn next_x(g: GameV) -> int {
    g.ball.x + g.ball.dx
}

pub open spec fn next_y(g: GameV) -> int {
    g.ball.y + g.ball.dy
}

/// Step 4: the bounce off a side wall is decided on the projected position.
pub open spec fn hits_side_wall(g: GameV) -> bool {
    next_x(g) > g.canvas_width - g.ball.radius || next_x(g) < g.ball.radius
}

/// Step 5: likewise for the top wall.
pub open spec fn hits_top_wall(g: GameV) -> bool {
    next_y(g) < g.ball.radius
}

/// Step 6: the bottom boundary, mutually exclusive with the top wall.
pub open spec fn hits_bottom(g: GameV) -> bool {
    !hits_top_wall(g) && next_y(g) > g.canvas_height - g.ball.radius
}

/// The paddle catches the ball when the ball centre lies strictly between
/// the paddle's edges; only horizontal overlap counts.
pub open spec fn paddle_catches(g: GameV) -> bool {
    g.paddle.x < g.ball.x < g.paddle.x + g.paddle.width
}

/// A missed-ball bottom-boundary event.
pub open spec fn ball_missed(g: GameV) -> bool {
    hits_bottom(g) && !paddle_catches(g)
}

pub open spec fn bounce_dx(g: GameV) -> i32 {
    if hits_side_wall(g) {
        (-g.ball.dx) as i32
    } else {
        g.ball.dx
    }
}

/// The ball as replaced after a missed ball with lives remaining: back to
/// the start position with the start velocity.
pub open spec fn reset_ball(g: GameV) -> Ball {
    Ball {
        x: (g.canvas_width / 2) as i32,
        y: (g.canvas_height - 30) as i32,
        radius: g.ball.radius,
        dx: g.ball_speed,
        dy: (-g.ball_speed) as i32,
    }
}

/// The centred paddle position.
pub open spec fn paddle_center(g: GameV) -> int {
    (g.canvas_width - g.paddle.width) / 2
}

/// Steps 4-6 on the state after brick resolution: wall bounces, the paddle
/// bounce, and the missed-ball outcomes (a life lost and either the
/// terminal stop or the round reset).
pub open spec fn after_ball_walls(g1: GameV) -> GameV {
    let dx2 = bounce_dx(g1);
    if hits_top_wall(g1) || (hits_bottom(g1) && paddle_catches(g1)) {
        GameV { ball: Ball { dx: dx2, dy: (-g1.ball.dy) as i32, ..g1.ball }, ..g1 }
    } else if ball_missed(g1) {
        if g1.lives <= 1 {
            GameV { ball: Ball { dx: dx2, ..g1.ball }, lives: 0, ..g1 }
        } else {
            GameV {
                ball: reset_ball(g1),
                paddle: Paddle { x: paddle_center(g1) as i32, ..g1.paddle },
                lives: (g1.lives - 1) as u16,
                ..g1
            }
        }
    } else {
        GameV { ball: Ball { dx: dx2, ..g1.ball }, ..g1 }
    }
}

pub open spec fn clamp(v: int, lo: int, hi: int) -> int {
    if v < lo {
        lo
    } else if v > hi {
        hi
    } else {
        v
    }
}

/// An integer clipped to the machine range, as the saturating operations
/// leave it.
pub open spec fn sat_i32(v: int) -> int {
    clamp(v, i32::MIN as int, i32::MAX as int)
}

/// Step 7: discrete key intent, right arrow taking priority, the result
/// clipped to the canvas.
pub open spec fn paddle_after_keys(g: GameV) -> int {
    if g.input.keyboard_right {
        if g.paddle.x + g.paddle_key_speed > g.canvas_width - g.paddle.width {
            g.canvas_width - g.paddle.width
        } else {
            g.paddle.x + g.paddle_key_speed
        }
    } else if g.input.keyboard_left {
        if g.paddle.x - g.paddle_key_speed < 0 {
            0
        } else {
            g.paddle.x - g.paddle_key_speed
        }
    } else {
        g.paddle.x as int
    }
}

/// The pointer position relative to the canvas's left edge.
pub open spec fn pointer_relative_x(g: GameV) -> int {
    sat_i32(g.input.pointer_x - g.canvas_left_offset)
}

/// Step 8 applies only while the pointer is strictly inside the canvas.
pub open spec fn pointer_active(g: GameV) -> bool {
    0 < pointer_relative_x(g) < g.canvas_width
}

/// Step 8: pointer follow overrides the key result whenever the pointer is
/// inside the canvas; the paddle is centred on the pointer and kept on the
/// canvas.
pub open spec fn paddle_after_pointer(g: GameV, key_x: int) -> int {
    if pointer_active(g) {
        clamp(
            pointer_relative_x(g) - g.paddle.width / 2,
            0,
            g.canvas_width - g.paddle.width,
        )
    } else {
        key_x
    }
}

/// Steps 7 and 8 together.
pub open spec fn after_paddle_intent(g: GameV) -> GameV {
    GameV {
        paddle: Paddle {
            x: paddle_after_pointer(g, paddle_after_keys(g)) as i32,
            ..g.paddle
        },
        ..g
    }
}

/// Step 9: the ball moves by its (possibly flipped, possibly reset)
/// velocity.
pub open spec fn integrate_ball(g: GameV) -> GameV {
    GameV {
        ball: Ball {
            x: (g.ball.x + g.ball.dx) as i32,
            y: (g.ball.y + g.ball.dy) as i32,
            ..g.ball
        },
        ..g
    }
}

/// One full tick on a snapshot. The win and the lose outcome stop the tick
/// early: no paddle movement and no ball integration follow them.
pub open spec fn advance_spec(g: GameV) -> GameV {
    let g1 = after_bricks(g);
    if g1.score == g1.bricks.len() {
        g1
    } else if ball_missed(g1) && g1.lives <= 1 {
        after_ball_walls(g1)
    } else {
        integrate_ball(after_paddle_intent(after_ball_walls(g1)))
    }
}

/// The status a tick on snapshot `g` reports.
pub open spec fn advance_status(g: GameV) -> Status {
    let g1 = after_bricks(g);
    if g1.score == g1.bricks.len() {
        Status::Won
    } else if ball_missed(g1) {
        if g1.lives <= 1 {
            Status::Lost
        } else {
            Status::RoundReset
        }
    } else {
        Status::Continue
    }
}

/// A well-formed session snapshot: the configuration bounds that
/// `Config::valid_for` established at creation, the constant speed
/// magnitude, the ball near the canvas, the paddle on the canvas, and the
/// score equal to the number of destroyed bricks.
pub open spec fn wf(g: GameV) -> bool {
    &&& 1 <= g.ball.radius <= 30
    &&& 1 <= g.ball_speed <= 1000
    &&& 2 * g.ball.radius + 2 * g.ball_speed <= g.canvas_width <= 1000000
    &&& 2 * g.ball.radius + 2 * g.ball_speed <= g.canvas_height <= 1000000
    &&& g.ball.radius + 30 <= g.canvas_height
    &&& 1 <= g.paddle.width <= g.canvas_width
    &&& 1 <= g.paddle.height <= 100000
    &&& 1 <= g.paddle_key_speed <= 100000
    &&& g.ball.dx == g.ball_speed || g.ball.dx == -g.ball_speed
    &&& g.ball.dy == g.ball_speed || g.ball.dy == -g.ball_speed
    &&& g.ball.radius - g.ball_speed <= g.ball.x <= g.canvas_width - g.ball.radius + g.ball_speed
    &&& g.ball.radius - g.ball_speed <= g.ball.y <= g.canvas_height - g.ball.radius
        + g.ball_speed
    &&& 0 <= g.paddle.x <= g.canvas_width - g.paddle.width
    &&& g.score == dead_count(g.bricks)
    &&& g.bricks.len() <= 65535
}

/// A session that has reported `Won` or `Lost` and must not be advanced.
pub open spec fn terminal(g: GameV) -> bool {
    g.lives == 0 || g.score == g.bricks.len()
}

/// Brick resolution keeps the snapshot well formed and touches nothing but
/// one brick's `alive` flag, the score, and the ball's vertical direction.
pub proof fn lemma_after_bricks_wf(g: GameV)
    requires
        wf(g),
    ensures
        wf(after_bricks(g)),
        after_bricks(g).score >= g.score,
        after_bricks(g).bricks.len() == g.bricks.len(),
{
    let k = first_hit(g.bricks, g.ball.x as int, g.ball.y as int);
    lemma_first_hit_props(g.bricks, g.ball.x as int, g.ball.y as int, 0);
    if k >= 0 {
        lemma_alive_dead_partition(g.bricks);
        lemma_counts_after_kill(
            g.bricks,
            k,
            Brick { alive: false, ..g.bricks[k] },
        );
        crate::bricks::lemma_alive_at_index(g.bricks, k);
    }
}

/// A full tick keeps the snapshot well formed.
pub proof fn lemma_advance_preserves_wf(g: GameV)
    requires
        wf(g),
        !terminal(g),
    ensures
        wf(advance_spec(g)),
{
    let g1 = after_bricks(g);
    lemma_after_bricks_wf(g);
    if g1.score == g1.bricks.len() {
    } else {
        let g2 = after_ball_walls(g1);
        assert(wf(g2));
        if ball_missed(g1) && g1.lives <= 1 {
        } else {
            let g3 = after_paddle_intent(g2);
            assert(wf(g3));
            let g4 = integrate_ball(g3);
            assert(wf(g4));
        }
    }
}

/// The game session: the single state machine of the library. It owns the
/// ball, the paddle, the brick field, the latest input intent, the score
/// and the lives, and advances by exactly one tick per `advance` call.
///
/// Every mutation goes through an exclusive `&mut` borrow, so a host that
/// shares the session between a frame callback and input callbacks must
/// serialize them behind a single-owner cell or lock; no callback can
/// observe a tick in progress.
pub struct Game {
    pub config: Config,
    pub canvas_width: i32,
    pub canvas_height: i32,
    pub canvas_left_offset: i32,
    pub ball: Ball,
    pub paddle: Paddle,
    pub bricks: Bricks,
    pub user_input: UserInput,
    pub score: u16,
    pub lives: u16,
}

impl View for Game {
    type V = GameV;

    open spec fn view(&self) -> GameV {
        GameV {
            canvas_width: self.canvas_width,
            canvas_height: self.canvas_height,
            canvas_left_offset: self.canvas_left_offset,
            ball: self.ball,
            paddle: self.paddle,
            bricks: self.bricks@,
            input: self.user_input,
            score: self.score,
            lives: self.lives,
            ball_speed: self.config.ball_speed,
            paddle_key_speed: self.config.paddle_key_speed,
        }
    }
}

/// The snapshot a fresh session starts from: ball above the centre bottom
/// moving up and to the right, paddle centred, full grid, no score, the
/// configured lives, no input yet.
pub open spec fn initial_view(c: Config, canvas_width: int, canvas_height: int) -> GameV {
    GameV {
        canvas_width: canvas_width as i32,
        canvas_height: canvas_height as i32,
        canvas_left_offset: 0,
        ball: Ball {
            x: (canvas_width / 2) as i32,
            y: (canvas_height - 30) as i32,
            radius: c.ball_radius,
            dx: c.ball_speed,
            dy: (-c.ball_speed) as i32,
        },
        paddle: Paddle {
            x: ((canvas_width - c.paddle_width) / 2) as i32,
            width: c.paddle_width,
            height: c.paddle_height,
        },
        bricks: grid_seq(
            c.rows as int,
            c.columns as int,
            c.brick_width,
            c.brick_height,
            c.brick_padding,
            c.brick_offset_top,
            c.brick_offset_left,
        ),
        input: UserInput {
            keyboard_left: false,
            keyboard_right: false,
            pointer_x: 0,
            pointer_y: 0,
        },
        score: 0,
        lives: c.initial_lives,
        ball_speed: c.ball_speed,
        paddle_key_speed: c.paddle_key_speed,
    }
}

/// `a + b` with the sum clipped to the machine range.
fn sat_add_i32(a: i32, b: i32) -> (r: i32)
    ensures
        r as int == sat_i32(a + b),
{
    match a.checked_add(b) {
        Some(v) => v,
        None => if b > 0 {
            i32::MAX
        } else {
            i32::MIN
        },
    }
}

/// `a - b` with the difference clipped to the machine range.
fn sat_sub_i32(a: i32, b: i32) -> (r: i32)
    ensures
        r as int == sat_i32(a - b),
{
    match a.checked_sub(b) {
        Some(v) => v,
        None => if b < 0 {
            i32::MAX
        } else {
            i32::MIN
        },
    }
}

impl Game {
    /// Creates a session over the given canvas with the default
    /// configuration. The canvas must give the ball room to bounce; a
    /// malformed size is rejected with the configuration error that
    /// `Config::first_error` names.
    pub fn new(canvas_width: i32, canvas_height: i32) -> (r: Result<Game, ConfigError>)
        ensures
            r is Ok <==> Config::default_spec().valid_for(
                canvas_width as int,
                canvas_height as int,
            ),
            r matches Err(e) ==> Some(e) == Config::default_spec().first_error(
                canvas_width as int,
                canvas_height as int,
            ),
            r matches Ok(g) ==> g@ == initial_view(
                Config::default_spec(),
                canvas_width as int,
                canvas_height as int,
            ) && wf(g@) && !terminal(g@) && g.config == Config::default_spec(),
    {
        Game::new_with_config(Config::default(), canvas_width, canvas_height)
    }

    /// Creates a session from an explicit configuration, validating it
    /// first: the result is `Ok` exactly when the configuration is valid
    /// for the canvas, and carries the snapshot `initial_view` describes.
    pub fn new_with_config(config: Config, canvas_width: i32, canvas_height: i32) -> (r: Result<
        Game,
        ConfigError,
    >)
        ensures
            r is Ok <==> config.valid_for(canvas_width as int, canvas_height as int),
            r matches Err(e) ==> Some(e) == config.first_error(
                canvas_width as int,
                canvas_height as int,
            ),
            r matches Ok(g) ==> g@ == initial_view(config, canvas_width as int, canvas_height as int)
                && wf(g@) && !terminal(g@) && g.config == config,
    {
        match config.validate(canvas_width, canvas_height) {
            Err(e) => Err(e),
            Ok(()) => {
                let bricks = Bricks::create(
                    config.rows,
                    config.columns,
                    config.brick_width,
                    config.brick_height,
                    config.brick_padding,
                    config.brick_offset_top,
                    config.brick_offset_left,
                );
                let game = Game {
                    config,
                    canvas_width,
                    canvas_height,
                    canvas_left_offset: 0,
                    ball: Ball {
                        x: canvas_width / 2,
                        y: canvas_height - 30,
                        radius: config.ball_radius,
                        dx: config.ball_speed,
                        dy: -config.ball_speed,
                    },
                    paddle: Paddle {
                        x: (canvas_width - config.paddle_width) / 2,
                        width: config.paddle_width,
                        height: config.paddle_height,
                    },
                    bricks,
                    user_input: UserInput {
                        keyboard_left: false,
                        keyboard_right: false,
                        pointer_x: 0,
                        pointer_y: 0,
                    },
                    score: 0,
                    lives: config.initial_lives,
                };
                proof {
                    crate::bricks::lemma_dead_count_all_alive(game@.bricks);
                    vstd::arithmetic::mul::lemma_mul_upper_bound(
                        config.rows as int,
                        100,
                        config.columns as int,
                        100,
                    );
                    vstd::arithmetic::mul::lemma_mul_nonnegative(
                        config.rows as int,
                        config.columns as int,
                    );
                    vstd::arithmetic::mul::lemma_mul_inequality(
                        1,
                        config.rows as int,
                        config.columns as int,
                    );
                    assert(game@ =~= initial_view(
                        config,
                        canvas_width as int,
                        canvas_height as int,
                    ));
                }
                Ok(game)
            },
        }
    }

    /// Step 1 of a tick: scans the bricks in grid order and resolves the
    /// first hit, if any. The scan stops at the first match, so at most one
    /// brick dies per call.
    fn collision_detection(&mut self)
        requires
            wf(old(self)@),
        ensures
            final(self)@ == after_bricks(old(self)@),
            final(self).config == old(self).config,
    {
        let ghost g0 = self@;
        let bx: i64 = self.ball.x as i64;
        let by: i64 = self.ball.y as i64;
        let n = self.bricks.inner.len();
        let mut i: usize = 0;
        while i < n
            invariant
                *self == *old(self),
                wf(g0),
                g0 == old(self)@,
                n == self.bricks.inner.len(),
                bx as int == g0.ball.x as int,
                by as int == g0.ball.y as int,
                i <= n,
                first_hit(g0.bricks, g0.ball.x as int, g0.ball.y as int) == first_hit_from(
                    g0.bricks,
                    g0.ball.x as int,
                    g0.ball.y as int,
                    i as int,
                ),
            decreases n - i,
        {
            let b = self.bricks.inner[i];
            if b.alive && bx > b.x as i64 && bx < b.x as i64 + b.width as i64 && by > b.y as i64
                && by < b.y as i64 + b.height as i64 {
                proof {
                    crate::bricks::lemma_alive_at_index(g0.bricks, i as int);
                    lemma_alive_dead_partition(g0.bricks);
                    assert(first_hit(g0.bricks, g0.ball.x as int, g0.ball.y as int) == i);
                }
                self.ball.dy = -self.ball.dy;
                self.bricks.kill(i);
                self.score = self.score + 1;
                proof {
                    assert(self@ =~= after_bricks(g0));
                }
                return ;
            }
            i = i + 1;
        }
        proof {
            assert(first_hit(g0.bricks, g0.ball.x as int, g0.ball.y as int) == -1);
        }
    }

    /// One full simulation tick, in the fixed order: brick collision, win
    /// check, wall and paddle bounces on the projected position, the
    /// missed-ball outcome, key and pointer paddle movement, ball
    /// integration. The returned status says whether play continues, the
    /// round was reset, or a terminal state was reached; after `Won` or
    /// `Lost` the session must not be advanced again, which the
    /// precondition on `terminal` captures.
    #[verifier::rlimit(60)]
    pub fn advance(&mut self) -> (status: Status)
        requires
            wf(old(self)@),
            !terminal(old(self)@),
        ensures
            final(self)@ == advance_spec(old(self)@),
            status == advance_status(old(self)@),
            wf(final(self)@),
            (status == Status::Won || status == Status::Lost) <==> terminal(final(self)@),
            final(self).config == old(self).config,
    {
        let ghost g0 = self@;
        proof {
            lemma_after_bricks_wf(g0);
            lemma_advance_preserves_wf(g0);
        }
        self.collision_detection();
        let ghost g1 = self@;

        if self.score as usize == self.bricks.inner.len() {
            return Status::Won;
        }
        let moved_x = sat_add_i32(self.ball.x, self.ball.dx);
        let moved_y = sat_add_i32(self.ball.y, self.ball.dy);
        proof {
            assert(moved_x as int == next_x(g1));
            assert(moved_y as int == next_y(g1));
        }

        if moved_x > self.canvas_width - self.ball.radius || moved_x < self.ball.radius {
            self.ball.dx = -self.ball.dx;
        }
        let mut reset = false;
        if moved_y < self.ball.radius {
            self.ball.dy = -self.ball.dy;
        } else if moved_y > self.canvas_height - self.ball.radius {
            if self.ball.x > self.paddle.x && self.ball.x < self.paddle.x + self.paddle.width {
                self.ball.dy = -self.ball.dy;
            } else {
                self.lives = self.lives.saturating_sub(1);
                if self.lives == 0 {
                    proof {
                        assert(self@ =~= advance_spec(g0));
                    }
                    return Status::Lost;
                }
                self.ball.x = self.canvas_width / 2;
                self.ball.y = self.canvas_height - 30;
                self.ball.dx = self.config.ball_speed;
                self.ball.dy = -self.config.ball_speed;
                self.paddle.x = (self.canvas_width - self.paddle.width) / 2;
                reset = true;
            }
        }
        let ghost g2 = self@;
        proof {
            assert(g2 =~= after_ball_walls(g1));
        }

        if self.user_input.keyboard_right {
            let target = sat_add_i32(self.paddle.x, self.config.paddle_key_speed);
            let limit = self.canvas_width - self.paddle.width;
            self.paddle.x = if target > limit {
                limit
            } else {
                target
            };
        } else if self.user_input.keyboard_left {
            let target = sat_sub_i32(self.paddle.x, self.config.paddle_key_speed);
            self.paddle.x = if target < 0 {
                0
            } else {
                target
            };
        }
        let rel = sat_sub_i32(self.user_input.pointer_x, self.canvas_left_offset);
        if 0 < rel && rel < self.canvas_width {
            let target = rel - self.paddle.width / 2;
            let limit = self.canvas_width - self.paddle.width;
            self.paddle.x = if target < 0 {
                0
            } else if target > limit {
                limit
            } else {
                target
            };
        }
        let ghost g3 = self@;
        proof {
            assert(g3 =~= after_paddle_intent(g2));
        }

        self.ball.x = self.ball.x + self.ball.dx;
        self.ball.y = self.ball.y + self.ball.dy;
        proof {
            assert(self@ =~= integrate_ball(g3));
            assert(self@ =~= advance_spec(g0));
        }
        if reset {
            Status::RoundReset
        } else {
            Status::Continue
        }
    }

    /// The current score, for the host's score display.
    pub fn score(&self) -> (r: u16)
        ensures
            r == self@.score,
    {
        self.score
    }

    /// The remaining lives, for the host's lives display.
    pub fn lives(&self) -> (r: u16)
        ensures
            r == self@.lives,
    {
        self.lives
    }

    /// The current ball, as a plain snapshot.
    pub fn ball(&self) -> (r: Ball)
        ensures
            r == self@.ball,
    {
        self.ball
    }

    /// The current paddle, as a plain snapshot.
    pub fn paddle(&self) -> (r: Paddle)
        ensures
            r == self@.paddle,
    {
        self.paddle
    }

    /// The alive bricks in grid order, for rendering.
    pub fn alive_bricks(&self) -> (r: Vec<Brick>)
        ensures
            r@ == alive_seq(self@.bricks),
    {
        self.bricks.alive_bricks()
    }

    /// How many bricks are still standing.
    pub fn alive_count(&self) -> (n: usize)
        ensures
            n == alive_count(self@.bricks),
    {
        self.bricks.alive_count()
    }

    /// How many bricks have been destroyed.
    pub fn dead_count(&self) -> (n: usize)
        ensures
            n == dead_count(self@.bricks),
    {
        self.bricks.dead_count()
    }

    /// The fixed size of the brick field.
    pub fn total_count(&self) -> (n: usize)
        ensures
            n == self@.bricks.len(),
    {
        self.bricks.total_count()
    }

    /// Records whether the left arrow key is held.
    pub fn set_left_held(&mut self, held: bool)
        ensures
            final(self)@ == (GameV {
                input: UserInput { keyboard_left: held, ..old(self)@.input },
                ..old(self)@
            }),
            final(self).config == old(self).config,
            wf(final(self)@) == wf(old(self)@),
    {
        self.user_input.keyboard_left = held;
    }

    /// Records whether the right arrow key is held.
    pub fn set_right_held(&mut self, held: bool)
        ensures
            final(self)@ == (GameV {
                input: UserInput { keyboard_right: held, ..old(self)@.input },
                ..old(self)@
            }),
            final(self).config == old(self).config,
            wf(final(self)@) == wf(old(self)@),
    {
        self.user_input.keyboard_right = held;
    }

    /// Records the latest pointer position, in host coordinates.
    pub fn set_pointer(&mut self, x: i32, y: i32)
        ensures
            final(self)@ == (GameV {
                input: UserInput { pointer_x: x, pointer_y: y, ..old(self)@.input },
                ..old(self)@
            }),
            final(self).config == old(self).config,
            wf(final(self)@) == wf(old(self)@),
    {
        self.user_input.pointer_x = x;
        self.user_input.pointer_y = y;
    }

    /// Records the canvas's horizontal offset in host coordinates, which
    /// pointer follow subtracts from pointer positions.
    pub fn set_canvas_left_offset(&mut self, offset: i32)
        ensures
            final(self)@ == (GameV { canvas_left_offset: offset, ..old(self)@ }),
            final(self).config == old(self).config,
            wf(final(self)@) == wf(old(self)@),
    {
        self.canvas_left_offset = offset;
    }
}

} // verus!

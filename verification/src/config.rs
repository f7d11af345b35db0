use vstd::prelude::*;

verus! {

/// Fixed parameters of a session: the brick grid layout, the entity
/// geometry, the speeds, and the number of lives the player starts with.
///
/// The documented defaults are 3 rows x 5 columns of 75x20 bricks with
/// padding 10 and offsets (30, 30), a ball of radius 10 moving 2 units per
/// tick, a 75x10 paddle moved 7 units per key press tick, and 3 lives.
#[derive(Clone, Copy, PartialEq, Eq, Structural, Debug)]
pub struct Config {
    pub rows: usize,
    pub columns: usize,
    pub brick_width: i32,
    pub brick_height: i32,
    pub brick_padding: i32,
    pub brick_offset_top: i32,
    pub brick_offset_left: i32,
    pub ball_radius: i32,
    pub ball_speed: i32,
    pub paddle_width: i32,
    pub paddle_height: i32,
    pub paddle_key_speed: i32,
    pub initial_lives: u16,
}

/// Why a session could not be created from a configuration and canvas size.
#[derive(Clone, Copy, PartialEq, Eq, Structural, Debug)]
pub enum ConfigError {
    /// The brick grid is empty or has more than 100 rows or columns.
    BadGrid,
    /// A brick dimension is out of range: width and height must lie in
    /// [1, 100000], padding and offsets in [0, 100000].
    BadBrick,
    /// The ball radius must lie in [1, 30] and its speed in [1, 1000].
    BadBall,
    /// The paddle width must be positive, its height and key speed in
    /// [1, 100000].
    BadPaddle,
    /// The player must start with at least one life.
    BadLives,
    /// The canvas must hold the ball with room to bounce and the paddle,
    /// each side at most 1000000 units, the height at least radius + 30.
    BadCanvas,
}

impl Config {
    /// The default configuration described above.
    pub open spec fn default_spec() -> Config {
        Config {
            rows: 3,
            columns: 5,
            brick_width: 75,
            brick_height: 20,
            brick_padding: 10,
            brick_offset_top: 30,
            brick_offset_left: 30,
            ball_radius: 10,
            ball_speed: 2,
            paddle_width: 75,
            paddle_height: 10,
            paddle_key_speed: 7,
            initial_lives: 3,
        }
    }

    pub open spec fn grid_ok(self) -> bool {
        &&& 1 <= self.rows <= 100
        &&& 1 <= self.columns <= 100
    }

    pub open spec fn brick_ok(self) -> bool {
        &&& 1 <= self.brick_width <= 100000
        &&& 1 <= self.brick_height <= 100000
        &&& 0 <= self.brick_padding <= 100000
        &&& 0 <= self.brick_offset_top <= 100000
        &&& 0 <= self.brick_offset_left <= 100000
    }

    pub open spec fn ball_ok(self) -> bool {
        &&& 1 <= self.ball_radius <= 30
        &&& 1 <= self.ball_speed <= 1000
    }

    pub open spec fn paddle_ok(self) -> bool {
        &&& 1 <= self.paddle_width
        &&& 1 <= self.paddle_height <= 100000
        &&& 1 <= self.paddle_key_speed <= 100000
    }

    pub open spec fn lives_ok(self) -> bool {
        1 <= self.initial_lives
    }

    /// The canvas is large enough for the ball to bounce between the walls
    /// without leaving the modelled coordinate range, for the reset position
    /// (canvas_height - 30) to lie above the bottom wall, and for the paddle
    /// to fit.
    pub open spec fn canvas_ok(self, canvas_width: int, canvas_height: int) -> bool {
        &&& 2 * self.ball_radius + 2 * self.ball_speed <= canvas_width <= 1000000
        &&& 2 * self.ball_radius + 2 * self.ball_speed <= canvas_height <= 1000000
        &&& self.ball_radius + 30 <= canvas_height
        &&& self.paddle_width <= canvas_width
    }

    /// A configuration and canvas size from which a session can be created.
    pub open spec fn valid_for(self, canvas_width: int, canvas_height: int) -> bool {
        &&& self.grid_ok()
        &&& self.brick_ok()
        &&& self.ball_ok()
        &&& self.paddle_ok()
        &&& self.lives_ok()
        &&& self.canvas_ok(canvas_width, canvas_height)
    }

    /// The first reason, in a fixed check order, why a configuration is
    /// rejected for a canvas; `None` when it is accepted.
    pub open spec fn first_error(self, canvas_width: int, canvas_height: int) -> Option<
        ConfigError,
    > {
        if !self.grid_ok() {
            Some(ConfigError::BadGrid)
        } else if !self.brick_ok() {
            Some(ConfigError::BadBrick)
        } else if !self.ball_ok() {
            Some(ConfigError::BadBall)
        } else if !self.paddle_ok() {
            Some(ConfigError::BadPaddle)
        } else if !self.lives_ok() {
            Some(ConfigError::BadLives)
        } else if !self.canvas_ok(canvas_width, canvas_height) {
            Some(ConfigError::BadCanvas)
        } else {
            None
        }
    }

    /// The number of bricks in the grid.
    pub open spec fn total_bricks(self) -> int {
        self.rows * self.columns
    }

    /// Checks the configuration against a canvas size, in the order of
    /// `first_error`.
    pub fn validate(&self, canvas_width: i32, canvas_height: i32) -> (r: Result<(), ConfigError>)
        ensures
            r == match self.first_error(canvas_width as int, canvas_height as int) {
                Some(e) => Result::<(), ConfigError>::Err(e),
                None => Result::<(), ConfigError>::Ok(()),
            },
            r is Ok <==> self.valid_for(canvas_width as int, canvas_height as int),
    {
        if !(1 <= self.rows && self.rows <= 100 && 1 <= self.columns && self.columns <= 100) {
            Err(ConfigError::BadGrid)
        } else if !(1 <= self.brick_width && self.brick_width <= 100000 && 1 <= self.brick_height
            && self.brick_height <= 100000 && 0 <= self.brick_padding && self.brick_padding
            <= 100000 && 0 <= self.brick_offset_top && self.brick_offset_top <= 100000 && 0
            <= self.brick_offset_left && self.brick_offset_left <= 100000) {
            Err(ConfigError::BadBrick)
        } else if !(1 <= self.ball_radius && self.ball_radius <= 30 && 1 <= self.ball_speed
            && self.ball_speed <= 1000) {
            Err(ConfigError::BadBall)
        } else if !(1 <= self.paddle_width && 1 <= self.paddle_height && self.paddle_height
            <= 100000 && 1 <= self.paddle_key_speed && self.paddle_key_speed <= 100000) {
            Err(ConfigError::BadPaddle)
        } else if !(1 <= self.initial_lives) {
            Err(ConfigError::BadLives)
        } else if !(2 * self.ball_radius + 2 * self.ball_speed <= canvas_width && canvas_width
            <= 1000000 && 2 * self.ball_radius + 2 * self.ball_speed <= canvas_height
            && canvas_height <= 1000000 && self.ball_radius + 30 <= canvas_height
            && self.paddle_width <= canvas_width) {
            Err(ConfigError::BadCanvas)
        } else {
            Ok(())
        }
    }
}

impl Default for Config {
    /// Returns the documented default configuration.
    fn default() -> (r: Config)
        ensures
            r == Config::default_spec(),
    {
        Config {
            rows: 3,
            columns: 5,
            brick_width: 75,
            brick_height: 20,
            brick_padding: 10,
            brick_offset_top: 30,
            brick_offset_left: 30,
            ball_radius: 10,
            ball_speed: 2,
            paddle_width: 75,
            paddle_height: 10,
            paddle_key_speed: 7,
            initial_lives: 3,
        }
    }
}

} // verus!

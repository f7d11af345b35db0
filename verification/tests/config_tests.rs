use breakout::Config;
use breakout::ConfigError;
use breakout::Game;

fn default_config() -> Config {
    Config::default()
}

#[test]
fn default_values() {
    let c = default_config();
    assert_eq!(c.rows, 3);
    assert_eq!(c.columns, 5);
    assert_eq!(c.brick_width, 75);
    assert_eq!(c.brick_height, 20);
    assert_eq!(c.brick_padding, 10);
    assert_eq!(c.brick_offset_top, 30);
    assert_eq!(c.brick_offset_left, 30);
    assert_eq!(c.ball_radius, 10);
    assert_eq!(c.ball_speed, 2);
    assert_eq!(c.paddle_width, 75);
    assert_eq!(c.paddle_height, 10);
    assert_eq!(c.paddle_key_speed, 7);
    assert_eq!(c.initial_lives, 3);
}

#[test]
fn default_config_accepted() {
    assert_eq!(default_config().validate(480, 320), Ok(()));
}

#[test]
fn empty_grid_rejected() {
    let mut c = default_config();
    c.rows = 0;
    assert_eq!(c.validate(480, 320), Err(ConfigError::BadGrid));
}

#[test]
fn zero_brick_width_rejected() {
    let mut c = default_config();
    c.brick_width = 0;
    assert_eq!(c.validate(480, 320), Err(ConfigError::BadBrick));
}

#[test]
fn oversized_ball_rejected() {
    let mut c = default_config();
    c.ball_radius = 31;
    assert_eq!(c.validate(480, 320), Err(ConfigError::BadBall));
}

#[test]
fn zero_key_speed_rejected() {
    let mut c = default_config();
    c.paddle_key_speed = 0;
    assert_eq!(c.validate(480, 320), Err(ConfigError::BadPaddle));
}

#[test]
fn zero_lives_rejected() {
    let mut c = default_config();
    c.initial_lives = 0;
    assert_eq!(c.validate(480, 320), Err(ConfigError::BadLives));
}

#[test]
fn tiny_canvas_rejected() {
    assert_eq!(default_config().validate(10, 320), Err(ConfigError::BadCanvas));
    assert_eq!(default_config().validate(480, -1), Err(ConfigError::BadCanvas));
}

#[test]
fn first_failing_check_names_the_error() {
    let mut c = default_config();
    c.rows = 0;
    c.brick_width = 0;
    assert_eq!(c.validate(480, 320), Err(ConfigError::BadGrid));
}

#[test]
fn session_creation_reports_config_error() {
    assert_eq!(Game::new(10, 320).err(), Some(ConfigError::BadCanvas));
    let mut c = default_config();
    c.columns = 0;
    assert_eq!(Game::new_with_config(c, 480, 320).err(), Some(ConfigError::BadGrid));
}

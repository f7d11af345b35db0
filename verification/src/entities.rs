use vstd::prelude::*;

verus! {

/// The ball: centre position, radius, and per-tick velocity. The radius and
/// the speed magnitude are constant for the life of a session; bounces only
/// flip the signs of `dx` and `dy`.
#[derive(Clone, Copy, PartialEq, Eq, Structural, Debug)]
pub struct Ball {
    pub x: i32,
    pub y: i32,
    pub radius: i32,
    pub dx: i32,
    pub dy: i32,
}

/// The paddle: its left edge and constant size. It only moves horizontally,
/// so it carries no vertical position; the host draws it at the bottom of
/// the canvas.
#[derive(Clone, Copy, PartialEq, Eq, Structural, Debug)]
pub struct Paddle {
    pub x: i32,
    pub width: i32,
    pub height: i32,
}

/// One destructible brick. The geometry is fixed at creation; `alive` flips
/// from true to false exactly once, on the first ball collision, and never
/// reverses.
#[derive(Clone, Copy, PartialEq, Eq, Structural, Debug)]
pub struct Brick {
    pub x: i32,
    pub y: i32,
    pub width: i32,
    pub height: i32,
    pub alive: bool,
}

/// The latest resolved player intent: which arrow keys are held and where
/// the pointer last was. Written by the host's input callbacks between
/// ticks, read once per tick by the simulation.
#[derive(Clone, Copy, PartialEq, Eq, Structural, Debug)]
pub struct UserInput {
    pub keyboard_left: bool,
    pub keyboard_right: bool,
    pub pointer_x: i32,
    pub pointer_y: i32,
}

/// A shape for the host to draw, in canvas coordinates.
#[derive(Clone, Copy, PartialEq, Eq, Structural, Debug)]
pub enum Shape {
    Circle { x: i32, y: i32, radius: i32 },
    Rect { x: i32, y: i32, width: i32, height: i32 },
}

/// A fill colour, as plain channel values.
#[derive(Clone, Copy, PartialEq, Eq, Structural, Debug)]
pub struct Rgb {
    pub red: u8,
    pub green: u8,
    pub blue: u8,
}

/// The single fill colour every entity is drawn with.
pub fn fill_color() -> (r: Rgb)
    ensures
        r == (Rgb { red: 0x00, green: 0x95, blue: 0xdd }),
{
    Rgb { red: 0x00, green: 0x95, blue: 0xdd }
}

impl Ball {
    /// What to draw for the ball: a filled circle at its centre.
    pub fn draw_intent(&self) -> (r: Shape)
        ensures
            r == (Shape::Circle { x: self.x, y: self.y, radius: self.radius }),
    {
        Shape::Circle { x: self.x, y: self.y, radius: self.radius }
    }
}

impl Paddle {
    /// What to draw for the paddle: a filled rectangle resting on the
    /// bottom edge of a canvas of the given height.
    pub fn draw_intent(&self, canvas_height: i32) -> (r: Shape)
        requires
            0 <= self.height <= canvas_height,
        ensures
            r == (Shape::Rect {
                x: self.x,
                y: (canvas_height - self.height) as i32,
                width: self.width,
                height: self.height,
            }),
    {
        Shape::Rect {
            x: self.x,
            y: canvas_height - self.height,
            width: self.width,
            height: self.height,
        }
    }
}

impl Brick {
    /// What to draw for the brick: its rectangle while it is alive, nothing
    /// once it has been destroyed.
    pub fn draw_intent(&self) -> (r: Option<Shape>)
        ensures
            r == if self.alive {
                Some(Shape::Rect { x: self.x, y: self.y, width: self.width, height: self.height })
            } else {
                None::<Shape>
            },
    {
        if self.alive {
            Some(Shape::Rect { x: self.x, y: self.y, width: self.width, height: self.height })
        } else {
            None
        }
    }
}

} // verus!

use vstd::prelude::*;

use crate::entities::Brick;

verus! {

/// The brick at grid position (`row`, `col`): bricks sit in a row-major
/// grid, each cell `width + padding` wide and `height + padding` tall,
/// shifted by the two offsets, and start alive.
pub open spec fn grid_brick(
    row: int,
    col: int,
    width: i32,
    height: i32,
    padding: i32,
    offset_top: i32,
    offset_left: i32,
) -> Brick {
    Brick {
        x: (offset_left + col * (width + padding)) as i32,
        y: (offset_top + row * (height + padding)) as i32,
        width: width,
        height: height,
        alive: true,
    }
}

/// The whole grid in row-major order: index `i` holds the brick of row
/// `i / columns` and column `i % columns`.
pub open spec fn grid_seq(
    rows: int,
    columns: int,
    width: i32,
    height: i32,
    padding: i32,
    offset_top: i32,
    offset_left: i32,
) -> Seq<Brick> {
    Seq::new(
        (rows * columns) as nat,
        |i: int| grid_brick(i / columns, i % columns, width, height, padding, offset_top, offset_left),
    )
}

/// The alive bricks of `s`, in grid order.
pub open spec fn alive_seq(s: Seq<Brick>) -> Seq<Brick>
    decreases s.len(),
{
    if s.len() == 0 {
        Seq::empty()
    } else if s.last().alive {
        alive_seq(s.drop_last()).push(s.last())
    } else {
        alive_seq(s.drop_last())
    }
}

/// How many bricks of `s` are still alive.
pub open spec fn alive_count(s: Seq<Brick>) -> nat
    decreases s.len(),
{
    if s.len() == 0 {
        0
    } else {
        alive_count(s.drop_last()) + if s.last().alive {
            1nat
        } else {
            0nat
        }
    }
}

/// How many bricks of `s` have been destroyed.
pub open spec fn dead_count(s: Seq<Brick>) -> nat
    decreases s.len(),
{
    if s.len() == 0 {
        0
    } else {
        dead_count(s.drop_last()) + if s.last().alive {
            0nat
        } else {
            1nat
        }
    }
}

/// Alive and destroyed bricks partition the field: their counts always sum
/// to the total count.
pub proof fn lemma_alive_dead_partition(s: Seq<Brick>)
    ensures
        alive_count(s) + dead_count(s) == s.len(),
    decreases s.len(),
{
    if s.len() > 0 {
        lemma_alive_dead_partition(s.drop_last());
    }
}

/// Destroying one alive brick moves exactly one brick from the alive count
/// to the dead count, whatever else the replacement changes.
pub proof fn lemma_counts_after_kill(s: Seq<Brick>, k: int, b: Brick)
    requires
        0 <= k < s.len(),
        s[k].alive,
        !b.alive,
    ensures
        alive_count(s.update(k, b)) == alive_count(s) - 1,
        dead_count(s.update(k, b)) == dead_count(s) + 1,
    decreases s.len(),
{
    let t = s.update(k, b);
    if k == s.len() - 1 {
        assert(t.drop_last() =~= s.drop_last());
    } else {
        assert(t.drop_last() =~= s.drop_last().update(k, b));
        lemma_counts_after_kill(s.drop_last(), k, b);
    }
}

/// A field with an alive brick has at least one alive brick.
pub proof fn lemma_alive_at_index(s: Seq<Brick>, k: int)
    requires
        0 <= k < s.len(),
        s[k].alive,
    ensures
        alive_count(s) >= 1,
    decreases s.len(),
{
    if k < s.len() - 1 {
        lemma_alive_at_index(s.drop_last(), k);
    }
}

/// A field whose bricks are all alive has no destroyed bricks.
pub proof fn lemma_dead_count_all_alive(s: Seq<Brick>)
    requires
        forall|i: int| 0 <= i < s.len() ==> s[i].alive,
    ensures
        dead_count(s) == 0,
    decreases s.len(),
{
    if s.len() > 0 {
        lemma_dead_count_all_alive(s.drop_last());
    }
}

/// The destructible grid. It owns the fixed row-major collection of bricks;
/// collision resolution flips single bricks to dead, and the session asks
/// it how much of the field is cleared.
pub struct Bricks {
    pub inner: Vec<Brick>,
}

impl View for Bricks {
    type V = Seq<Brick>;

    open spec fn view(&self) -> Seq<Brick> {
        self.inner@
    }
}

impl Bricks {
    /// Builds the deterministic row-major grid described by `grid_seq`.
    /// The bounds keep every coordinate far inside the machine range.
    pub fn create(
        rows: usize,
        columns: usize,
        width: i32,
        height: i32,
        padding: i32,
        offset_top: i32,
        offset_left: i32,
    ) -> (r: Bricks)
        requires
            1 <= rows <= 100,
            1 <= columns <= 100,
            1 <= width <= 100000,
            1 <= height <= 100000,
            0 <= padding <= 100000,
            0 <= offset_top <= 100000,
            0 <= offset_left <= 100000,
        ensures
            r@ == grid_seq(rows as int, columns as int, width, height, padding, offset_top, offset_left),
    {
        let ghost target = grid_seq(
            rows as int,
            columns as int,
            width,
            height,
            padding,
            offset_top,
            offset_left,
        );
        let mut bricks: Vec<Brick> = Vec::new();
        let mut r: usize = 0;
        while r < rows
            invariant
                r <= rows,
                1 <= rows <= 100,
                1 <= columns <= 100,
                1 <= width <= 100000,
                1 <= height <= 100000,
                0 <= padding <= 100000,
                0 <= offset_top <= 100000,
                0 <= offset_left <= 100000,
                bricks@.len() == r * columns,
                target == grid_seq(rows as int, columns as int, width, height, padding, offset_top, offset_left),
                target.len() == rows * columns,
                forall|j: int| 0 <= j < bricks@.len() ==> bricks@[j] == target[j],
            decreases rows - r,
        {
            let mut c: usize = 0;
            while c < columns
                invariant
                    r < rows,
                    c <= columns,
                    1 <= rows <= 100,
                    1 <= columns <= 100,
                    1 <= width <= 100000,
                    1 <= height <= 100000,
                    0 <= padding <= 100000,
                    0 <= offset_top <= 100000,
                    0 <= offset_left <= 100000,
                    bricks@.len() == r * columns + c,
                    target == grid_seq(rows as int, columns as int, width, height, padding, offset_top, offset_left),
                    target.len() == rows * columns,
                    forall|j: int| 0 <= j < bricks@.len() ==> bricks@[j] == target[j],
                decreases columns - c,
            {
                proof {
                    vstd::arithmetic::mul::lemma_mul_upper_bound(
                        c as int,
                        99,
                        width + padding,
                        200000,
                    );
                    vstd::arithmetic::mul::lemma_mul_upper_bound(
                        r as int,
                        99,
                        height + padding,
                        200000,
                    );
                    vstd::arithmetic::mul::lemma_mul_inequality(c as int, 99, width + padding);
                    vstd::arithmetic::mul::lemma_mul_nonnegative(c as int, width + padding);
                    vstd::arithmetic::mul::lemma_mul_nonnegative(r as int, height + padding);
                    vstd::arithmetic::div_mod::lemma_fundamental_div_mod_converse(
                        r * columns + c,
                        columns as int,
                        r as int,
                        c as int,
                    );
                    vstd::arithmetic::mul::lemma_mul_upper_bound(
                        r as int,
                        99,
                        columns as int,
                        100,
                    );
                    vstd::arithmetic::mul::lemma_mul_inequality(
                        r + 1,
                        rows as int,
                        columns as int,
                    );
                    vstd::arithmetic::mul::lemma_mul_is_distributive_add_other_way(
                        columns as int,
                        r as int,
                        1,
                    );
                }
                let brick = Brick {
                    x: offset_left + (c as i32) * (width + padding),
                    y: offset_top + (r as i32) * (height + padding),
                    width,
                    height,
                    alive: true,
                };
                proof {
                    let j: int = r * columns + c;
                    let cols: int = columns as int;
                    assert(0 <= j < target.len());
                    assert(j / cols == r as int);
                    assert(j % cols == c as int);
                    assert(target[j] == grid_brick(
                        j / cols,
                        j % cols,
                        width,
                        height,
                        padding,
                        offset_top,
                        offset_left,
                    ));
                    assert(brick == target[j]);
                }
                bricks.push(brick);
                c = c + 1;
            }
            proof {
                vstd::arithmetic::mul::lemma_mul_is_distributive_add_other_way(
                    columns as int,
                    r as int,
                    1,
                );
            }
            r = r + 1;
        }
        proof {
            vstd::arithmetic::mul::lemma_mul_upper_bound(rows as int, 100, columns as int, 100);
            assert(bricks@ =~= target);
        }
        Bricks { inner: bricks }
    }

    /// Builds the default grid: 3 rows by 5 columns of 75x20 bricks with
    /// padding 10 and offsets (30, 30).
    pub fn new() -> (r: Bricks)
        ensures
            r@ == grid_seq(3, 5, 75, 20, 10, 30, 30),
    {
        Bricks::create(3, 5, 75, 20, 10, 30, 30)
    }

    /// The fixed size of the field.
    pub fn total_count(&self) -> (n: usize)
        ensures
            n == self@.len(),
    {
        self.inner.len()
    }

    /// How many bricks are still standing.
    pub fn alive_count(&self) -> (n: usize)
        ensures
            n == alive_count(self@),
    {
        let mut n: usize = 0;
        let mut i: usize = 0;
        while i < self.inner.len()
            invariant
                i <= self@.len(),
                n == alive_count(self@.take(i as int)),
                n <= i,
            decreases self@.len() - i,
        {
            proof {
                assert(self@.take(i + 1).drop_last() =~= self@.take(i as int));
            }
            if self.inner[i].alive {
                n = n + 1;
            }
            i = i + 1;
        }
        proof {
            assert(self@.take(self@.len() as int) =~= self@);
        }
        n
    }

    /// How many bricks have been destroyed so far.
    pub fn dead_count(&self) -> (n: usize)
        ensures
            n == dead_count(self@),
    {
        proof {
            lemma_alive_dead_partition(self@);
        }
        self.inner.len() - self.alive_count()
    }

    /// Destroys the brick at `index`. Only the `alive` flag changes, so the
    /// call is idempotent: killing an already dead brick leaves the field
    /// as it was.
    pub fn kill(&mut self, index: usize)
        requires
            index < old(self)@.len(),
        ensures
            final(self)@ == old(self)@.update(
                index as int,
                Brick { alive: false, ..old(self)@[index as int] },
            ),
    {
        let b = self.inner[index];
        self.inner[index] = Brick { alive: false, ..b };
    }

    /// The alive bricks in grid order, for rendering and collision checks.
    pub fn alive_bricks(&self) -> (r: Vec<Brick>)
        ensures
            r@ == alive_seq(self@),
    {
        let mut out: Vec<Brick> = Vec::new();
        let mut i: usize = 0;
        while i < self.inner.len()
            invariant
                i <= self@.len(),
                out@ == alive_seq(self@.take(i as int)),
            decreases self@.len() - i,
        {
            proof {
                let t1 = self@.take(i + 1);
                assert(t1.drop_last() =~= self@.take(i as int));
                assert(t1.last() == self@[i as int]);
                assert(alive_seq(t1) == if t1.last().alive {
                    alive_seq(t1.drop_last()).push(t1.last())
                } else {
                    alive_seq(t1.drop_last())
                });
            }
            if self.inner[i].alive {
                out.push(self.inner[i]);
            }
            i = i + 1;
        }
        proof {
            assert(self@.take(self@.len() as int) =~= self@);
        }
        out
    }
}

} // verus!

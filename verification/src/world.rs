//! The world: a rectangular grid of creatures, the battle pass that runs
//! over it once per eligible tick, and the clock that gates the pass.

use vstd::prelude::*;
use rand::Rng;

verus! {

use crate::pokemon::Pokemon;
use crate::pokemon::attacked;
use crate::pokemon::INITIAL_SPAWN_HEALTH;
use crate::pokemon_type::PokemonType;
use crate::pokemon_type::TYPE_COUNT;
use crate::pokemon_type::color_of;
use crate::pokemon_type::nth_type;
use vstd::arithmetic::div_mod::lemma_basic_div;
use vstd::arithmetic::div_mod::lemma_mod_bound;
use vstd::arithmetic::div_mod::lemma_multiply_divide_lt;

/// The only constructive error: a grid was requested with a zero extent.
#[derive(Clone, Copy, Debug, PartialEq, Eq, Structural)]
pub struct InvalidDimensions;

/// Every creature of the grid is alive: positive health.
pub open spec fn healthy_grid(g: Seq<Pokemon>) -> bool {
    forall|i: int| 0 <= i < g.len() ==> (#[trigger] g[i]).health > 0
}

/// One attack by a creature of type `t` on the cell `(nx, ny)` of a
/// `w`-by-`h` grid stored in row-major order, skipped entirely when that
/// cell lies outside the grid.
pub open spec fn diag_attack(
    g: Seq<Pokemon>,
    t: PokemonType,
    w: int,
    h: int,
    nx: int,
    ny: int,
) -> Seq<Pokemon> {
    if 0 <= nx && nx < w && 0 <= ny && ny < h {
        g.update(ny * w + nx, attacked(g[ny * w + nx], t))
    } else {
        g
    }
}

/// The attack step of the cell `(x, y)`: the creature there attacks its
/// four diagonal neighbours in a fixed order, each only if it lies within
/// the grid.  The attacker's own cell is never among its targets, so its
/// type is the one read before the step.
pub open spec fn cell_step(g: Seq<Pokemon>, w: int, h: int, x: int, y: int) -> Seq<Pokemon> {
    let t = g[y * w + x].pokemon_type;
    let g1 = diag_attack(g, t, w, h, x - 1, y - 1);
    let g2 = diag_attack(g1, t, w, h, x - 1, y + 1);
    let g3 = diag_attack(g2, t, w, h, x + 1, y - 1);
    diag_attack(g3, t, w, h, x + 1, y + 1)
}

/// The first `n` attack steps of one battle pass, in row-major scan order:
/// step `m` is the attack step of the cell `(m % w, m / w)`.  Later steps
/// see the conversions already made by earlier steps of the same pass.
pub open spec fn scan_cells(g: Seq<Pokemon>, w: int, h: int, n: nat) -> Seq<Pokemon>
    decreases n,
{
    if n == 0 {
        g
    } else {
        let m = (n - 1) as int;
        cell_step(scan_cells(g, w, h, (n - 1) as nat), w, h, m % w, m / w)
    }
}

/// One whole battle pass over a `w`-by-`h` grid: every cell acts as
/// attacker once, in row-major scan order.
pub open spec fn battle_pass(g: Seq<Pokemon>, w: int, h: int) -> Seq<Pokemon> {
    scan_cells(g, w, h, (w * h) as nat)
}

/// Row-major position of an in-bounds cell is an in-bounds index.
proof fn lemma_grid_index(x: int, y: int, w: int, h: int)
    requires
        0 <= x < w,
        0 <= y < h,
    ensures
        0 <= y * w + x < w * h,
{
    assert(y * w + x < w * h) by (nonlinear_arith)
        requires
            0 <= x < w,
            0 <= y < h,
    ;
    assert(y * w >= 0) by (nonlinear_arith)
        requires
            y >= 0,
            w >= 0,
    ;
}

/// Relies on rand: `Rng::gen_range` on `thread_rng` returns a value of the
/// given range, drawn from the thread-local generator; it panics only on an
/// empty range, which the precondition rules out.  Nothing more is assumed
/// of the draw.
#[verifier::external_body]
fn random_below(n: usize) -> (r: usize)
    requires
        n > 0,
    ensures
        r < n,
{
    rand::thread_rng().gen_range(0..n)
}

/// A rectangular grid of creatures together with the tick-gating clock.
/// The grid shape is fixed for the world's lifetime; only the type and
/// health of each cell change.
pub struct PokemonWorld {
    world: Vec<Pokemon>,
    world_width: usize,
    world_height: usize,
    tick_interval: u64,
    last_tick: u64,
}

impl PokemonWorld {
    /// The grid as a sequence: cell `(x, y)` sits at position
    /// `y * width + x`.
    pub closed spec fn grid(self) -> Seq<Pokemon> {
        self.world@
    }

    /// The grid width.
    pub closed spec fn width_spec(self) -> int {
        self.world_width as int
    }

    /// The grid height.
    pub closed spec fn height_spec(self) -> int {
        self.world_height as int
    }

    /// The duration, in clock units, that must elapse between battle
    /// passes; zero means every call of `update` is eligible.
    pub closed spec fn tick_interval_spec(self) -> int {
        self.tick_interval as int
    }

    /// The timestamp of the last battle pass.
    pub closed spec fn last_tick_spec(self) -> int {
        self.last_tick as int
    }

    /// The creature at `(x, y)`.
    pub open spec fn cell(self, x: int, y: int) -> Pokemon {
        self.grid()[y * self.width_spec() + x]
    }

    /// Well-formed: the grid holds exactly width-times-height creatures,
    /// and every one of them is alive.
    pub open spec fn wf(self) -> bool {
        self.grid().len() == self.width_spec() * self.height_spec() && healthy_grid(self.grid())
    }

    /// Build a world of the given extents.  Zero extents are rejected;
    /// otherwise every cell receives an independently drawn random type and
    /// `INITIAL_SPAWN_HEALTH`, the tick interval starts at zero (every call
    /// of `update` eligible) and the clock at zero.
    pub fn new(world_width: u32, world_height: u32) -> (r: Result<
        PokemonWorld,
        InvalidDimensions,
    >)
        requires
            world_width as int * world_height as int <= usize::MAX as int,
        ensures
            match r {
                Ok(pw) => world_width > 0 && world_height > 0 && pw.wf() && pw.width_spec()
                    == world_width as int && pw.height_spec() == world_height as int
                    && pw.tick_interval_spec() == 0 && pw.last_tick_spec() == 0 && forall|i: int|
                    0 <= i < pw.grid().len() ==> (#[trigger] pw.grid()[i]).health
                        == INITIAL_SPAWN_HEALTH,
                Err(_) => world_width == 0 || world_height == 0,
            },
    {
        if world_width == 0 || world_height == 0 {
            return Err(InvalidDimensions);
        }
        let w = world_width as usize;
        let h = world_height as usize;
        let area = w * h;
        let mut world: Vec<Pokemon> = Vec::new();
        for k in 0..area
            invariant
                world@.len() == k,
                forall|i: int|
                    0 <= i < k ==> (#[trigger] world@[i]).health == INITIAL_SPAWN_HEALTH,
        {
            let t = nth_type(random_below(TYPE_COUNT));
            world.push(Pokemon::new(t, INITIAL_SPAWN_HEALTH));
        }
        Ok(
            PokemonWorld {
                world,
                world_width: w,
                world_height: h,
                tick_interval: 0,
                last_tick: 0,
            },
        )
    }

    /// The grid width as an executable value.
    pub fn width(&self) -> (w: usize)
        ensures
            w as int == self.width_spec(),
    {
        self.world_width
    }

    /// The grid height as an executable value.
    pub fn height(&self) -> (h: usize)
        ensures
            h as int == self.height_spec(),
    {
        self.world_height
    }

    /// Choose how far apart, in clock units, two battle passes must at
    /// least lie; zero makes every call of `update` eligible.
    pub fn set_tick_interval(&mut self, interval: u64)
        ensures
            final(self).grid() == old(self).grid(),
            final(self).width_spec() == old(self).width_spec(),
            final(self).height_spec() == old(self).height_spec(),
            final(self).last_tick_spec() == old(self).last_tick_spec(),
            final(self).tick_interval_spec() == interval as int,
    {
        self.tick_interval = interval;
    }

    /// One attack on the in-bounds cell `(nx, ny)` by a creature of type
    /// `t`.
    fn attack_cell(&mut self, nx: usize, ny: usize, t: PokemonType)
        requires
            old(self).wf(),
            (nx as int) < old(self).width_spec(),
            (ny as int) < old(self).height_spec(),
        ensures
            final(self).wf(),
            final(self).grid() == diag_attack(old(self).grid(), t, old(self).width_spec(), old(self).height_spec(), nx as int, ny as int),
            final(self).width_spec() == old(self).width_spec(),
            final(self).height_spec() == old(self).height_spec(),
            final(self).tick_interval_spec() == old(self).tick_interval_spec(),
            final(self).last_tick_spec() == old(self).last_tick_spec(),
    {
        let len = self.world.len();
        proof {
            lemma_grid_index(nx as int, ny as int, self.world_width as int, self.world_height as int);
            assert(ny * self.world_width + nx < len);
        }
        let i = ny * self.world_width + nx;
        let p = &mut self.world[i];
        p.take_damage(t);
    }

    /// The attack step of the cell `(x, y)`: attack each of its up to four
    /// diagonal neighbours, clipped to the grid.
    fn step_cell(&mut self, x: usize, y: usize)
        requires
            old(self).wf(),
            (x as int) < old(self).width_spec(),
            (y as int) < old(self).height_spec(),
        ensures
            final(self).wf(),
            final(self).grid() == cell_step(old(self).grid(), old(self).width_spec(), old(self).height_spec(), x as int, y as int),
            final(self).width_spec() == old(self).width_spec(),
            final(self).height_spec() == old(self).height_spec(),
            final(self).tick_interval_spec() == old(self).tick_interval_spec(),
            final(self).last_tick_spec() == old(self).last_tick_spec(),
    {
        let w = self.world_width;
        let h = self.world_height;
        let len = self.world.len();
        proof {
            lemma_grid_index(x as int, y as int, w as int, h as int);
            assert(y * w + x < len);
        }
        let t = self.world[y * w + x].pokemon_type;
        if x > 0 && y > 0 {
            self.attack_cell(x - 1, y - 1, t);
        }
        if x > 0 && y + 1 < h {
            self.attack_cell(x - 1, y + 1, t);
        }
        if x + 1 < w && y > 0 {
            self.attack_cell(x + 1, y - 1, t);
        }
        if x + 1 < w && y + 1 < h {
            self.attack_cell(x + 1, y + 1, t);
        }
    }

    /// One whole battle pass, every cell acting as attacker once in
    /// row-major scan order.
    fn battle(&mut self)
        requires
            old(self).wf(),
        ensures
            final(self).wf(),
            final(self).grid() == battle_pass(old(self).grid(), old(self).width_spec(), old(self).height_spec()),
            final(self).width_spec() == old(self).width_spec(),
            final(self).height_spec() == old(self).height_spec(),
            final(self).tick_interval_spec() == old(self).tick_interval_spec(),
            final(self).last_tick_spec() == old(self).last_tick_spec(),
    {
        let w = self.world_width;
        let h = self.world_height;
        let len = self.world.len();
        proof {
            assert(w * h == len);
        }
        let area = w * h;
        let ghost g0 = self.world@;
        let ghost ti0 = self.tick_interval;
        let ghost lt0 = self.last_tick;
        let mut n: usize = 0;
        while n < area
            invariant
                self.wf(),
                self.world_width == w,
                self.world_height == h,
                self.tick_interval == ti0,
                self.last_tick == lt0,
                n <= area,
                area == w * h,
                self.world@ == scan_cells(g0, w as int, h as int, n as nat),
            decreases area - n,
        {
            proof {
                assert(w > 0 && h > 0) by {
                    if w == 0 || h == 0 {
                        assert(area == 0);
                    }
                }
                lemma_mod_bound(n as int, w as int);
                lemma_multiply_divide_lt(n as int, w as int, h as int);
            }
            let x = n % w;
            let y = n / w;
            self.step_cell(x, y);
            n = n + 1;
        }
    }

    /// Advance the simulation to timestamp `now`.  When less than the tick
    /// interval has elapsed since the last battle pass this is a no-op:
    /// nothing changes, not even the clock.  Otherwise exactly one battle
    /// pass runs and the clock is set to `now`.
    pub fn update(&mut self, now: u64)
        requires
            old(self).wf(),
        ensures
            final(self).wf(),
            final(self).width_spec() == old(self).width_spec(),
            final(self).height_spec() == old(self).height_spec(),
            final(self).tick_interval_spec() == old(self).tick_interval_spec(),
            (now as int) >= old(self).last_tick_spec() + old(self).tick_interval_spec()
                ==> final(self).grid() == battle_pass(old(self).grid(), old(self).width_spec(), old(self).height_spec())
                && final(self).last_tick_spec() == now as int,
            (now as int) < old(self).last_tick_spec() + old(self).tick_interval_spec()
                ==> *final(self) == *old(self),
    {
        if now >= self.last_tick && now - self.last_tick >= self.tick_interval {
            self.battle();
            self.last_tick = now;
        }
    }

    /// The creature at `(x, y)`, or nothing when the coordinates lie
    /// outside the grid: never a fatal error.
    pub fn get_pokemon(&self, x: usize, y: usize) -> (r: Option<&Pokemon>)
        requires
            self.wf(),
        ensures
            match r {
                Some(p) => (x as int) < self.width_spec() && (y as int) < self.height_spec()
                    && *p == self.cell(x as int, y as int),
                None => (x as int) >= self.width_spec() || (y as int) >= self.height_spec(),
            },
    {
        if x < self.world_width && y < self.world_height {
            let len = self.world.len();
            proof {
                lemma_grid_index(x as int, y as int, self.world_width as int, self.world_height as int);
                assert(y * self.world_width + x < len);
            }
            Some(&self.world[y * self.world_width + x])
        } else {
            None
        }
    }

    /// Mutable access to the creature at `(x, y)`, or nothing when the
    /// coordinates lie outside the grid.
    pub fn get_pokemon_mut(&mut self, x: usize, y: usize) -> (r: Option<&mut Pokemon>)
        requires
            old(self).wf(),
        ensures
            match r {
                Some(p) => (x as int) < old(self).width_spec() && (y as int) < old(self).height_spec()
                    && *p == old(self).cell(x as int, y as int)
                    && final(self).grid() == old(self).grid().update((y as int) * old(self).width_spec() + (x as int), *final(p))
                    && final(self).width_spec() == old(self).width_spec()
                    && final(self).height_spec() == old(self).height_spec()
                    && final(self).tick_interval_spec() == old(self).tick_interval_spec()
                    && final(self).last_tick_spec() == old(self).last_tick_spec(),
                None => ((x as int) >= old(self).width_spec() || (y as int) >= old(self).height_spec())
                    && *final(self) == *old(self),
            },
    {
        if x < self.world_width && y < self.world_height {
            let len = self.world.len();
            proof {
                lemma_grid_index(x as int, y as int, self.world_width as int, self.world_height as int);
                assert(y * self.world_width + x < len);
            }
            let i = y * self.world_width + x;
            Some(&mut self.world[i])
        } else {
            None
        }
    }

    /// The fixed display colour of the creature at `(x, y)`, or nothing
    /// when the coordinates lie outside the grid.  The colour depends on
    /// the creature's type alone, never on its health.
    pub fn color_at(&self, x: usize, y: usize) -> (c: Option<(u8, u8, u8)>)
        requires
            self.wf(),
        ensures
            (x as int) < self.width_spec() && (y as int) < self.height_spec()
                ==> c == Some(color_of(self.cell(x as int, y as int).pokemon_type)),
            (x as int) >= self.width_spec() || (y as int) >= self.height_spec()
                ==> c is None,
    {
        match self.get_pokemon(x, y) {
            Some(p) => Some(p.pokemon_type.get_color()),
            None => None,
        }
    }
}

/// In a grid one cell wide or one cell tall no cell has a diagonal
/// neighbour, so the attack step of any of its cells changes nothing.
proof fn lemma_cell_step_thin(g: Seq<Pokemon>, w: int, h: int, x: int, y: int)
    requires
        w == 1 || h == 1,
        w == 1 ==> x == 0,
        h == 1 ==> y == 0,
    ensures
        cell_step(g, w, h, x, y) == g,
{
}

/// Any prefix of a battle pass over a grid one cell wide or one cell tall
/// leaves the grid as it was.
proof fn lemma_scan_thin(g: Seq<Pokemon>, w: int, h: int, n: nat)
    requires
        w >= 1,
        h >= 1,
        w == 1 || h == 1,
        n <= w * h,
    ensures
        scan_cells(g, w, h, n) == g,
    decreases n,
{
    if n > 0 {
        lemma_scan_thin(g, w, h, (n - 1) as nat);
        let m = (n - 1) as int;
        lemma_mod_bound(m, w);
        if w == 1 {
            assert(m % w == 0);
        }
        if h == 1 {
            lemma_basic_div(m, w);
            assert(m / w == 0);
        }
        lemma_cell_step_thin(g, w, h, m % w, m / w);
    }
}

/// Boundary safety: a battle pass over a grid one cell wide or one cell
/// tall — a single cell included — is a no-op, since no cell has an
/// in-bounds diagonal neighbour.
pub proof fn lemma_thin_grid_unchanged(g: Seq<Pokemon>, w: int, h: int)
    requires
        w >= 0,
        h >= 0,
        w <= 1 || h <= 1,
    ensures
        battle_pass(g, w, h) == g,
{
    if w == 0 || h == 0 {
        assert(w * h == 0) by (nonlinear_arith)
            requires
                w == 0 || h == 0,
        ;
    } else {
        lemma_scan_thin(g, w, h, (w * h) as nat);
    }
}

} // verus!

use vstd::prelude::*;
use crate::apple::gen_apple_location;
use crate::direction::{SnakeDirection, INITIAL_SNAKE_DIRECTION};
use crate::grid::{is_free, lemma_contained_is_near, Grid, GridPos};
use crate::input::{next_heading, PlayerInput};
use crate::timer::{GameTimer, REFRESH_RATE};

verus! {

/// Why a game ends when the head leaves the grid.
pub const WALL_MESSAGE: &'static str = "You hit a wall!";

/// Why a game ends when the head runs into the body.
pub const TAIL_MESSAGE: &'static str = "You hit your tail!";

/// The snake's head: where it is and where it is going.
#[derive(Clone, Copy, Debug, PartialEq, Eq, Structural)]
pub struct Head {
    pub position: GridPos,
    pub direction: SnakeDirection,
}

/// One segment of the snake's body.
#[derive(Clone, Copy, Debug, PartialEq, Eq, Structural)]
pub struct Tail {
    pub position: GridPos,
    pub direction: SnakeDirection,
}

/// The apple the snake is after.
#[derive(Clone, Copy, Debug, PartialEq, Eq, Structural)]
pub struct Apple {
    pub position: GridPos,
}

/// Apples eaten in the current game.
#[derive(Clone, Copy, Debug, PartialEq, Eq, Structural)]
pub struct Scoreboard {
    pub value: usize,
}

/// How a game ended.
#[derive(Debug)]
pub enum GameEvent {
    GameOver(String),
    GameWon,
}

/// What the head ran into on a tick.
#[derive(Clone, Copy, Debug, PartialEq, Eq, Structural)]
pub enum Collider {
    Wall,
    Tail,
    Apple,
}

/// The body segments, nearest the head first.
#[derive(Debug)]
pub struct SnakeBody {
    pub body: Vec<Tail>,
}

/// The tiles of the body segments, in order.
pub open spec fn positions(body: Seq<Tail>) -> Seq<GridPos> {
    body.map_values(|t: Tail| t.position)
}

/// The tiles of the whole snake: the head's, then the body's.
pub open spec fn occupied_cells(head: GridPos, body: Seq<Tail>) -> Seq<GridPos> {
    seq![head] + positions(body)
}

/// The body after one move: each segment takes the tile that the segment
/// before it held, the first one the head's; each keeps its own heading.
pub open spec fn moved_body(head: GridPos, body: Seq<Tail>) -> Seq<Tail> {
    Seq::new(
        body.len(),
        |i: int|
            Tail {
                position: if i == 0 {
                    head
                } else {
                    body[i - 1].position
                },
                direction: body[i].direction,
            },
    )
}

/// The body after eating: one segment more, on the last segment's tile (on
/// `vacated`, the tile the head has just left, when there is no body),
/// heading the way a new snake does.
pub open spec fn grown_body(vacated: GridPos, body: Seq<Tail>) -> Seq<Tail> {
    body.push(
        Tail {
            position: if body.len() == 0 {
                vacated
            } else {
                body.last().position
            },
            direction: INITIAL_SNAKE_DIRECTION,
        },
    )
}

/// What a head on `head` runs into: a wall when it left the grid, else its
/// body when that has more than one segment and covers the tile, else the
/// apple when it lies there.
pub open spec fn collision_at(grid: Grid, head: GridPos, body: Seq<Tail>, apple: Option<Apple>) -> Option<
    Collider,
> {
    if !grid.contains(head) {
        Some(Collider::Wall)
    } else if body.len() > 1 && positions(body).contains(head) {
        Some(Collider::Tail)
    } else if apple.is_some() && apple.unwrap().position == head {
        Some(Collider::Apple)
    } else {
        None
    }
}

/// Whether `event` ends the game as lost, for the reason `why`.
pub open spec fn is_game_over(event: Option<GameEvent>, why: Seq<char>) -> bool {
    match event {
        Some(GameEvent::GameOver(m)) => m@ == why,
        _ => false,
    }
}

/// Whether there is an apple and it lies on a free tile of `grid` for a
/// snake on `cells`.
pub open spec fn apple_placed(grid: Grid, cells: Seq<GridPos>, apple: Option<Apple>) -> bool {
    match apple {
        Some(a) => is_free(grid, cells, a.position),
        None => false,
    }
}

/// The body covers the tile `p`.
fn body_covers(body: &Vec<Tail>, p: GridPos) -> (r: bool)
    ensures
        r == positions(body@).contains(p),
{
    let mut i: usize = 0;
    while i < body.len()
        invariant
            i <= body.len(),
            forall|j: int| 0 <= j < i ==> body@[j].position != p,
        decreases body.len() - i,
    {
        if body[i].position == p {
            proof {
                assert(positions(body@)[i as int] == p);
            }
            return true;
        }
        i += 1;
    }
    proof {
        if positions(body@).contains(p) {
            let k = positions(body@).index_of(p);
            assert(body@[k].position == p);
        }
    }
    false
}

/// What one tick does to a running game `pre`, leaving `post` after running
/// into `c`; the timer is left to the caller.
pub open spec fn ticked(pre: Game, post: Game, c: Option<Collider>) -> bool {
    let d = next_heading(pre.input.0@, pre.head.direction);
    let h = pre.head.position.stepped(d);
    let b = moved_body(pre.head.position, pre.body());
    let ate = c == Some(Collider::Apple);
    &&& c == collision_at(pre.grid, h, b, pre.apple)
    &&& post.grid == pre.grid
    &&& post.head == (Head { position: h, direction: d })
    &&& post.body() == if ate {
        grown_body(pre.head.position, b)
    } else {
        b
    }
    &&& post.scoreboard.value == pre.scoreboard.value + if ate {
        1int
    } else {
        0int
    }
    &&& post.input.0@.len() == 0
    &&& !ate ==> post.apple == pre.apple
    &&& c.is_none() ==> post.is_running()
    &&& c == Some(Collider::Wall) ==> is_game_over(post.event, WALL_MESSAGE@)
    &&& c == Some(Collider::Tail) ==> is_game_over(post.event, TAIL_MESSAGE@)
    &&& ate ==> apple_placed(post.grid, post.cells(), post.apple)
    &&& ate ==> if post.body().len() == pre.grid.cell_count() - 1 {
        post.event == Some(GameEvent::GameWon)
    } else {
        post.is_running()
    }
}

/// What handing `delta` nanoseconds to `pre` does, leaving `post` and
/// reporting `r`: an ended game stays as it is; a running one advances its
/// timer and ticks once when a period was crossed.
pub open spec fn framed(pre: Game, post: Game, delta: u64, r: FrameOutcome) -> bool {
    if !pre.is_running() {
        r == FrameOutcome::Idle && post == pre
    } else {
        &&& post.timer.period == pre.timer.period
        &&& post.timer.elapsed == (pre.timer.elapsed + delta) % (pre.timer.period as int)
        &&& if pre.timer.elapsed + delta >= pre.timer.period {
            exists|c: Option<Collider>| r == FrameOutcome::Ticked(c) && #[trigger] ticked(pre, post, c)
        } else {
            &&& r == FrameOutcome::Idle
            &&& post.grid == pre.grid
            &&& post.head == pre.head
            &&& post.body() == pre.body()
            &&& post.apple == pre.apple
            &&& post.scoreboard == pre.scoreboard
            &&& post.input == pre.input
            &&& post.event == pre.event
        }
    }
}

/// Whether `g` is a game just begun on `grid`: the head on the centre tile
/// heading up, no body, no score, nothing queued, the timer at zero, and an
/// apple on a tile other than the centre.
pub open spec fn fresh_game(g: Game, grid: Grid) -> bool {
    &&& g.wf()
    &&& g.is_running()
    &&& g.grid == grid
    &&& g.head == (Head { position: GridPos { x: 0, y: 0 }, direction: INITIAL_SNAKE_DIRECTION })
    &&& g.body().len() == 0
    &&& g.scoreboard.value == 0
    &&& g.input.0@.len() == 0
    &&& g.timer.elapsed == 0
    &&& apple_placed(grid, seq![GridPos { x: 0, y: 0 }], g.apple)
}

/// What a frame did: nothing, or one tick that ran into what it holds.
#[derive(Clone, Copy, Debug, PartialEq, Eq, Structural)]
pub enum FrameOutcome {
    Idle,
    Ticked(Option<Collider>),
}

/// Everything one game is made of, from entering the game screen until its
/// end is shown.
#[derive(Debug)]
pub struct Game {
    pub grid: Grid,
    pub head: Head,
    pub snake: SnakeBody,
    pub apple: Option<Apple>,
    pub scoreboard: Scoreboard,
    pub input: PlayerInput,
    pub timer: GameTimer,
    pub event: Option<GameEvent>,
}

impl Game {
    pub open spec fn body(self) -> Seq<Tail> {
        self.snake.body@
    }

    pub open spec fn is_running(self) -> bool {
        self.event.is_none()
    }

    /// The tiles the whole snake covers.
    pub open spec fn cells(self) -> Seq<GridPos> {
        occupied_cells(self.head.position, self.body())
    }

    /// What holds at every step of a game, during a tick too.
    pub open spec fn inv(self) -> bool {
        &&& self.grid.wf()
        &&& self.timer.wf()
        &&& self.scoreboard.value == self.body().len()
        &&& self.head.position.is_near()
        &&& forall|i: int|
            0 <= i < self.body().len() ==> self.grid.contains(#[trigger] self.body()[i].position)
        &&& self.body().len() < self.grid.cell_count()
        &&& self.is_running() ==> self.body().len() + 1 < self.grid.cell_count()
        &&& self.apple.is_some() ==> self.grid.contains(self.apple.unwrap().position)
    }

    /// What holds between ticks: while the game runs, the head is inside the
    /// walls and there is an apple, on a tile the snake does not cover.
    pub open spec fn wf(self) -> bool {
        &&& self.inv()
        &&& self.is_running() ==> {
            &&& self.grid.contains(self.head.position)
            &&& apple_placed(self.grid, self.cells(), self.apple)
        }
    }

    /// The state right after a move, before collisions are resolved: there is
    /// an apple and it lies off the body, wherever the head went.
    pub open spec fn moved_wf(self) -> bool {
        &&& self.inv()
        &&& self.is_running()
        &&& self.apple.is_some()
        &&& !positions(self.body()).contains(self.apple.unwrap().position)
    }

    /// A new game whose first apple lies on `apple`.
    pub fn with_apple(grid: Grid, apple: GridPos) -> (g: Game)
        requires
            grid.wf(),
            grid.cell_count() > 1,
            is_free(grid, seq![GridPos { x: 0, y: 0 }], apple),
        ensures
            g.wf(),
            g.is_running(),
            g.grid == grid,
            g.head == (Head { position: GridPos { x: 0, y: 0 }, direction: INITIAL_SNAKE_DIRECTION }),
            g.body().len() == 0,
            g.apple == Some(Apple { position: apple }),
            g.scoreboard.value == 0,
            g.input.0@.len() == 0,
            g.timer.elapsed == 0,
    {
        Game::start(grid, Some(Apple { position: apple }))
    }

    /// A new game: the head on the centre tile heading up, no body, no score,
    /// and the first apple on a random tile other than the centre.
    pub fn new(grid: Grid) -> (g: Game)
        requires
            grid.wf(),
            grid.cell_count() > 1,
        ensures
            fresh_game(g, grid),
    {
        let center = grid.center();
        let occupied = vec![center];
        assert(occupied@ =~= seq![GridPos { x: 0, y: 0 }]);
        let p = gen_apple_location(&grid, &occupied).unwrap();
        Game::start(grid, Some(Apple { position: p }))
    }

    fn start(grid: Grid, apple: Option<Apple>) -> (g: Game)
        requires
            grid.wf(),
            grid.cell_count() > 1,
            apple_placed(grid, seq![GridPos { x: 0, y: 0 }], apple),
        ensures
            g.wf(),
            g.is_running(),
            g.grid == grid,
            g.head == (Head { position: GridPos { x: 0, y: 0 }, direction: INITIAL_SNAKE_DIRECTION }),
            g.body().len() == 0,
            g.apple == apple,
            g.scoreboard.value == 0,
            g.input.0@.len() == 0,
            g.timer.elapsed == 0,
    {
        let g = Game {
            grid,
            head: Head { position: grid.center(), direction: INITIAL_SNAKE_DIRECTION },
            snake: SnakeBody { body: Vec::new() },
            apple,
            scoreboard: Scoreboard { value: 0 },
            input: PlayerInput::new(),
            timer: GameTimer::from_rate(REFRESH_RATE),
            event: None,
        };
        proof {
            assert(g.cells() =~= seq![GridPos { x: 0, y: 0 }]);
        }
        g
    }

    /// One move: take the newest queued heading that does not reverse the
    /// snake (emptying the queue), shift every body segment onto the tile of
    /// the one before it, tail first, and step the head one tile.
    pub fn move_snake(&mut self)
        requires
            old(self).wf(),
            old(self).is_running(),
        ensures
            ({
                let d = next_heading(old(self).input.0@, old(self).head.direction);
                final(self).head == Head {
                    position: old(self).head.position.stepped(d),
                    direction: d,
                }
            }),
            final(self).body() == moved_body(old(self).head.position, old(self).body()),
            final(self).input.0@.len() == 0,
            final(self).grid == old(self).grid,
            final(self).apple == old(self).apple,
            final(self).scoreboard == old(self).scoreboard,
            final(self).timer == old(self).timer,
            final(self).event == old(self).event,
            final(self).moved_wf(),
    {
        if let Some(d) = self.input.resolve(self.head.direction) {
            self.head.direction = d;
        }
        let ghost body0 = self.body();
        let ghost head0 = self.head.position;
        let len = self.snake.body.len();
        let mut i: usize = len;
        while i > 0
            invariant
                i <= len,
                len == body0.len(),
                self.snake.body@.len() == len,
                self.head.position == head0,
                self.head.direction == next_heading(old(self).input.0@, old(self).head.direction),
                head0 == old(self).head.position,
                body0 == old(self).body(),
                self.input.0@.len() == 0,
                self.grid == old(self).grid,
                self.apple == old(self).apple,
                self.scoreboard == old(self).scoreboard,
                self.timer == old(self).timer,
                self.event == old(self).event,
                forall|j: int| 0 <= j < i ==> #[trigger] self.snake.body@[j] == body0[j],
                forall|j: int|
                    i <= j < len ==> #[trigger] self.snake.body@[j] == moved_body(head0, body0)[j],
            decreases i,
        {
            i -= 1;
            let position = if i == 0 {
                self.head.position
            } else {
                self.snake.body[i - 1].position
            };
            let direction = self.snake.body[i].direction;
            self.snake.body[i] = Tail { position, direction };
        }
        assert(self.snake.body@ =~= moved_body(head0, body0));
        proof {
            lemma_contained_is_near(self.grid, head0);
        }
        self.head.position = self.head.position.step(self.head.direction);
        proof {
            let b = self.body();
            assert forall|k: int| 0 <= k < b.len() implies self.grid.contains(#[trigger] b[k].position) by {
                if k > 0 {
                    assert(body0[k - 1].position == b[k].position);
                }
            }
            if self.apple.is_some() {
                let a = self.apple.unwrap().position;
                if positions(b).contains(a) {
                    let k = positions(b).index_of(a);
                    assert(b[k].position == a);
                    if k == 0 {
                        assert(old(self).cells()[0] == a);
                    } else {
                        assert(old(self).cells()[k] == a);
                    }
                }
            }
        }
    }

    /// The tiles of the head and then of each body segment.
    pub fn snake_cells(&self) -> (r: Vec<GridPos>)
        ensures
            r@ == self.cells(),
    {
        let mut r: Vec<GridPos> = Vec::new();
        r.push(self.head.position);
        let mut i: usize = 0;
        while i < self.snake.body.len()
            invariant
                i <= self.body().len(),
                r@.len() == i + 1,
                r@[0] == self.head.position,
                forall|j: int| 0 <= j < i ==> #[trigger] r@[j + 1] == self.body()[j].position,
            decreases self.body().len() - i,
        {
            r.push(self.snake.body[i].position);
            i += 1;
        }
        proof {
            let c = self.cells();
            assert forall|j: int| 0 <= j < c.len() implies #[trigger] r@[j] == c[j] by {
                if j > 0 {
                    assert(r@[(j - 1) + 1] == self.body()[j - 1].position);
                }
            }
        }
        assert(r@ =~= self.cells());
        r
    }

    /// Eat the apple: score one, put a new apple on a tile that neither the
    /// snake nor its new segment covers, add that segment on the last
    /// segment's tile (on `vacated`, the tile the head has just left, when
    /// there is no body), and end the game as won when the body now has one
    /// segment less than the grid has tiles.
    fn grow(&mut self, vacated: GridPos)
        requires
            old(self).moved_wf(),
            old(self).grid.contains(old(self).head.position),
            old(self).grid.contains(vacated),
        ensures
            final(self).grid == old(self).grid,
            final(self).head == old(self).head,
            final(self).input == old(self).input,
            final(self).timer == old(self).timer,
            final(self).scoreboard.value == old(self).scoreboard.value + 1,
            final(self).body() == grown_body(vacated, old(self).body()),
            apple_placed(final(self).grid, final(self).cells(), final(self).apple),
            if final(self).body().len() == old(self).grid.cell_count() - 1 {
                final(self).event == Some(GameEvent::GameWon)
            } else {
                final(self).is_running()
            },
            final(self).wf(),
    {
        let ghost b0 = self.body();
        let ghost cells0 = self.cells();
        let w = self.grid.width;
        let h = self.grid.height;
        assert(w * h <= 1001 * 1001) by (nonlinear_arith)
            requires
                w <= 1001,
                h <= 1001,
        ;
        self.scoreboard.value = self.scoreboard.value + 1;
        let len = self.snake.body.len();
        let mut occupied = self.snake_cells();
        let position = if len == 0 {
            assert(w * h >= 3) by (nonlinear_arith)
                requires
                    w % 2 == 1,
                    h % 2 == 1,
                    w * h > 1,
            {
                if w == 1 {
                    assert(h >= 3);
                } else {
                    assert(w >= 3);
                    assert(h >= 1);
                }
            }
            occupied.push(vacated);
            vacated
        } else {
            self.snake.body[len - 1].position
        };
        let p = gen_apple_location(&self.grid, &occupied).unwrap();
        self.snake.body.push(Tail { position, direction: INITIAL_SNAKE_DIRECTION });
        self.apple = Some(Apple { position: p });
        assert(self.body() =~= grown_body(vacated, b0));
        proof {
            let b = self.body();
            assert forall|k: int| 0 <= k < b.len() implies self.grid.contains(#[trigger] b[k].position) by {
                if k < b0.len() {
                    assert(b0[k] == b[k]);
                }
            }
            let c = self.cells();
            assert forall|k: int| 0 <= k < c.len() implies occupied@.contains(#[trigger] c[k]) by {
                if k < cells0.len() {
                    assert(c[k] == cells0[k]);
                    assert(occupied@[k] == c[k]);
                } else if len == 0 {
                    assert(occupied@[1] == c[k]);
                } else {
                    assert(c[k] == cells0[len as int]);
                    assert(occupied@[len as int] == c[k]);
                }
            }
            if c.contains(p) {
                let k = c.index_of(p);
                assert(occupied@.contains(c[k]));
            }
        }
        if self.snake.body.len() == w * h - 1 {
            self.event = Some(GameEvent::GameWon);
        }
    }

    /// Resolve what the head ran into after a move from `vacated`: a wall or
    /// (with more than one segment) the body ends the game as lost; the apple
    /// is eaten.
    pub fn check_for_collisions(&mut self, vacated: GridPos) -> (c: Option<Collider>)
        requires
            old(self).moved_wf(),
            old(self).grid.contains(vacated),
        ensures
            c == collision_at(old(self).grid, old(self).head.position, old(self).body(), old(self).apple),
            final(self).grid == old(self).grid,
            final(self).head == old(self).head,
            final(self).input == old(self).input,
            final(self).timer == old(self).timer,
            c != Some(Collider::Apple) ==> {
                &&& final(self).body() == old(self).body()
                &&& final(self).scoreboard == old(self).scoreboard
                &&& final(self).apple == old(self).apple
            },
            c.is_none() ==> final(self).is_running(),
            c == Some(Collider::Wall) ==> is_game_over(final(self).event, WALL_MESSAGE@),
            c == Some(Collider::Tail) ==> is_game_over(final(self).event, TAIL_MESSAGE@),
            c == Some(Collider::Apple) ==> {
                &&& final(self).scoreboard.value == old(self).scoreboard.value + 1
                &&& final(self).body() == grown_body(vacated, old(self).body())
                &&& apple_placed(final(self).grid, final(self).cells(), final(self).apple)
                &&& if final(self).body().len() == old(self).grid.cell_count() - 1 {
                    final(self).event == Some(GameEvent::GameWon)
                } else {
                    final(self).is_running()
                }
            },
            final(self).wf(),
    {
        let head = self.head.position;
        if !self.grid.in_bounds(head) {
            self.event = Some(GameEvent::GameOver(WALL_MESSAGE.to_owned()));
            return Some(Collider::Wall);
        }
        if self.snake.body.len() > 1 && body_covers(&self.snake.body, head) {
            self.event = Some(GameEvent::GameOver(TAIL_MESSAGE.to_owned()));
            return Some(Collider::Tail);
        }
        match self.apple {
            Some(a) => {
                if a.position == head {
                    self.grow(vacated);
                    return Some(Collider::Apple);
                }
            },
            None => {},
        }
        proof {
            if self.apple.is_some() {
                let a = self.apple.unwrap().position;
                if self.cells().contains(a) {
                    let k = self.cells().index_of(a);
                    if k > 0 {
                        assert(positions(self.body())[k - 1] == a);
                    }
                }
            }
        }
        None
    }

    /// One tick of the simulation: a move, then its collisions.
    pub fn tick(&mut self) -> (c: Option<Collider>)
        requires
            old(self).wf(),
            old(self).is_running(),
        ensures
            ticked(*old(self), *final(self), c),
            final(self).timer == old(self).timer,
            final(self).wf(),
    {
        let vacated = self.head.position;
        self.move_snake();
        self.check_for_collisions(vacated)
    }

    /// Hand `delta` nanoseconds of real time to the game: when the timer
    /// crosses a period one tick runs; an ended game stays as it is.
    pub fn frame(&mut self, delta: u64) -> (r: FrameOutcome)
        requires
            old(self).wf(),
        ensures
            final(self).wf(),
            framed(*old(self), *final(self), delta, r),
    {
        if self.event.is_some() {
            return FrameOutcome::Idle;
        }
        let ghost pre = *self;
        if self.timer.tick(delta) {
            let c = self.tick();
            assert(ticked(pre, *self, c));
            FrameOutcome::Ticked(c)
        } else {
            FrameOutcome::Idle
        }
    }
}

} // verus!

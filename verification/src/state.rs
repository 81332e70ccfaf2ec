//! The game session: the four-screen state machine, the frame-time
//! accumulator that turns variable frame durations into fixed physics ticks,
//! the obstacle stream with its spawn and retirement rules, and the score.

use vstd::prelude::*;

use bracket_lib::random::RandomNumberGenerator;

use crate::obstacle::Obstacle;
use crate::obstacle::ObstacleView;
use crate::player::Player;
use crate::player::PlayerView;
use crate::rng::range_i32;
use crate::FRAME_DURATION_MS;
use crate::GAP_Y_MAX;
use crate::GAP_Y_MIN;
use crate::GATE_SIZE;
use crate::MAX_FALL_VELOCITY;
use crate::PLAYER_START_X;
use crate::PLAYER_START_Y;
use crate::SCALE;
use crate::SCREEN_HEIGHT;
use crate::SCREEN_WIDTH;
use crate::SPAWN_DIVISOR;
use crate::SPAWN_DRAW_MAX;
use crate::SPAWN_DRAW_MIN;
use crate::SPAWN_PERIOD_MS;

verus! {

/// The screen the session is on. Exactly one handler runs per frame,
/// selected by this mode.
#[derive(Clone, Copy, PartialEq, Eq, Structural, Debug)]
pub enum GameMode {
    Menu,
    Playing,
    Paused,
    Dead,
}

/// The one logical key event a frame may carry. `Escape` pauses while
/// playing and resumes while paused; `Idle` is a frame with no recognized
/// key, on which no transition is taken.
#[derive(Clone, Copy, PartialEq, Eq, Structural, Debug)]
pub enum Input {
    Flap,
    Escape,
    Play,
    Quit,
    Idle,
}

/// Mathematical model of a whole session.
pub ghost struct StateView {
    pub player: PlayerView,
    pub frame_time: int,
    pub obstacles: Seq<ObstacleView>,
    pub mode: GameMode,
    pub score: int,
    pub quitting: bool,
}

/// Every gate in the stream is a valid gate.
pub open spec fn gates_wf(obs: Seq<ObstacleView>) -> bool {
    forall|i: int| 0 <= i < obs.len() ==> (#[trigger] obs[i]).wf()
}

/// The stream holds no two gates out of strictly increasing column order:
/// first spawned, first reached, first retired.
pub open spec fn gates_strictly_sorted(obs: Seq<ObstacleView>) -> bool {
    forall|i: int, j: int|
        0 <= i < j < obs.len() ==> (#[trigger] obs[i]).x < (#[trigger] obs[j]).x
}

/// No gate lies further ahead than one screen width past column `px`.
pub open spec fn gates_within(obs: Seq<ObstacleView>, px: int) -> bool {
    forall|i: int| 0 <= i < obs.len() ==> (#[trigger] obs[i]).x <= px + SCREEN_WIDTH as int
}

/// Some gate in the stream registers a collision with the player.
pub open spec fn any_gate_hit(obs: Seq<ObstacleView>, p: PlayerView) -> bool {
    exists|i: int| 0 <= i < obs.len() && (#[trigger] obs[i]).hit(p)
}

/// How many gates of the stream the player at column `px` has passed.
pub open spec fn passed_count(obs: Seq<ObstacleView>, px: int) -> int
    decreases obs.len(),
{
    if obs.len() == 0 {
        0
    } else {
        passed_count(obs.drop_last(), px) + if px > obs.last().x {
            1int
        } else {
            0int
        }
    }
}

impl StateView {
    /// Validity: the player is valid, the accumulator sits between ticks,
    /// the score is a count, every gate is valid, the stream is in strictly
    /// increasing column order, and no gate lies further ahead than one
    /// screen width past the player.
    pub open spec fn wf(self) -> bool {
        &&& self.player.wf()
        &&& 0 <= self.frame_time <= FRAME_DURATION_MS as int
        &&& self.score >= 0
        &&& gates_wf(self.obstacles)
        &&& gates_strictly_sorted(self.obstacles)
        &&& gates_within(self.obstacles, self.player.x)
    }

    /// The stream holds no two gates out of strictly increasing column
    /// order.
    pub open spec fn fifo_strict(self) -> bool {
        gates_strictly_sorted(self.obstacles)
    }

    /// The bounds a playing frame needs so that no arithmetic leaves `i32`:
    /// the accumulator sum, the player's advance, the spawn column and the
    /// score sum must all fit.
    pub open spec fn playing_fits(self, elapsed: int) -> bool {
        &&& 0 <= elapsed <= i32::MAX - FRAME_DURATION_MS
        &&& self.player.x <= i32::MAX - SCREEN_WIDTH - 1
        &&& self.player.y <= i32::MAX - MAX_FALL_VELOCITY
        &&& self.score + self.obstacles.len() < i32::MAX
    }
}

/// The frame-time accumulator rule: the elapsed wall-clock milliseconds are
/// added to the accumulator; once it exceeds the tick threshold it resets to
/// zero and exactly one physics tick fires.
pub open spec fn ticked(s: StateView, elapsed: int) -> StateView {
    let ft = s.frame_time + elapsed;
    if ft > FRAME_DURATION_MS as int {
        StateView { frame_time: 0, player: s.player.advanced(), ..s }
    } else {
        StateView { frame_time: ft, ..s }
    }
}

/// The playing screen's input rule: a flap sets the upward impulse, escape
/// switches to the paused screen, anything else changes nothing.
pub open spec fn input_applied(s: StateView, input: Input) -> StateView {
    match input {
        Input::Flap => StateView { player: s.player.flapped(), ..s },
        Input::Escape => StateView { mode: GameMode::Paused, ..s },
        _ => s,
    }
}

/// Whether this frame's accumulator update fires a physics tick.
pub open spec fn tick_fires(s: StateView, elapsed: int) -> bool {
    s.frame_time + elapsed > FRAME_DURATION_MS as int
}

/// The spawn condition, over the state after the accumulator update: a gate
/// may spawn only on a frame whose tick fired (so the player advanced and
/// the just-reset accumulator sits on a multiple of the spawn period), and
/// only when the per-frame draw satisfies the one-in-`SPAWN_DIVISOR` rule.
/// Tying the spawn to the tick keeps the cadence independent of the display
/// frame rate, and keeps the stream in strictly increasing column order.
pub open spec fn spawn_due(s: StateView, fired: bool, spawn_draw: int) -> bool {
    &&& fired
    &&& s.frame_time % (SPAWN_PERIOD_MS as int) == 0
    &&& spawn_draw % (SPAWN_DIVISOR as int) == 0
}

/// The spawn rule: when due, one new gate is appended at the tail, one
/// screen width ahead of the player, its gap centered on `gap_draw`.
pub open spec fn spawned(s: StateView, fired: bool, gap_draw: int, spawn_draw: int) -> StateView {
    if spawn_due(s, fired, spawn_draw) {
        StateView {
            obstacles: s.obstacles.push(
                ObstacleView {
                    x: s.player.x + SCREEN_WIDTH as int,
                    gap_y: gap_draw,
                    size: GATE_SIZE as int,
                },
            ),
            ..s
        }
    } else {
        s
    }
}

/// One whole frame of the playing screen: the accumulator fires at most one
/// physics tick, the input rule applies, a gate may spawn, the score grows
/// by the number of gates passed, the session dies if the player fell past
/// the bottom boundary or collided with a gate, and at most the head gate is
/// retired.
pub open spec fn playing_step(
    s: StateView,
    input: Input,
    elapsed: int,
    gap_draw: int,
    spawn_draw: int,
) -> StateView {
    let moved = input_applied(ticked(s, elapsed), input);
    let sp = spawned(moved, tick_fires(s, elapsed), gap_draw, spawn_draw);
    let n = passed_count(sp.obstacles, sp.player.x);
    let sc = StateView { score: sp.score + n, ..sp };
    let checked = if sc.player.cell_y() > SCREEN_HEIGHT as int || any_gate_hit(
        sc.obstacles,
        sc.player,
    ) {
        StateView { mode: GameMode::Dead, ..sc }
    } else {
        sc
    };
    if n > 0 {
        StateView { obstacles: checked.obstacles.remove(0), ..checked }
    } else {
        checked
    }
}

/// The player a session starts with: at the start column, mid-screen, at
/// rest.
pub open spec fn start_player() -> PlayerView {
    PlayerView {
        x: PLAYER_START_X as int,
        y: PLAYER_START_Y as int * SCALE as int,
        velocity: 0,
        frame: 0,
    }
}

/// The session a restart produces: a fresh player, an empty accumulator, a
/// zero score, and a single gate one screen width into the world, with its
/// gap centered on `gap`.
pub open spec fn session_start(gap: int, mode: GameMode, quitting: bool) -> StateView {
    StateView {
        player: start_player(),
        frame_time: 0,
        obstacles: seq![
            ObstacleView { x: SCREEN_WIDTH as int, gap_y: gap, size: GATE_SIZE as int },
        ],
        mode,
        score: 0,
        quitting,
    }
}

/// Law: the number of gates passed is a count: never negative, never more
/// than the stream holds.
pub proof fn lemma_passed_count_bounds(obs: Seq<ObstacleView>, px: int)
    ensures
        0 <= passed_count(obs, px) <= obs.len(),
    decreases obs.len(),
{
    if obs.len() > 0 {
        lemma_passed_count_bounds(obs.drop_last(), px);
    }
}

/// How many gates the player has passed, counted as the view states it.
fn count_passed(obstacles: &Vec<Obstacle>, px: i32) -> (n: usize)
    ensures
        n as int == passed_count(obstacles@.map_values(|ob: Obstacle| ob@), px as int),
        n <= obstacles.len(),
{
    let ghost obs = obstacles@.map_values(|ob: Obstacle| ob@);
    let mut n: usize = 0;
    let mut i: usize = 0;
    while i < obstacles.len()
        invariant
            i <= obstacles.len(),
            obs == obstacles@.map_values(|ob: Obstacle| ob@),
            n as int == passed_count(obs.take(i as int), px as int),
            n <= i,
        decreases obstacles.len() - i,
    {
        proof {
            assert(obs.take(i as int + 1).drop_last() =~= obs.take(i as int));
            assert(obs.take(i as int + 1).last() == obs[i as int]);
        }
        if px > obstacles[i].x {
            n = n + 1;
        }
        i = i + 1;
    }
    proof {
        assert(obs.take(obstacles.len() as int) =~= obs);
    }
    n
}

/// Whether any gate of the stream collides with the player, as the view
/// states it.
fn any_collision(obstacles: &Vec<Obstacle>, player: &Player) -> (r: bool)
    requires
        player@.y >= 0,
        gates_wf(obstacles@.map_values(|ob: Obstacle| ob@)),
    ensures
        r == any_gate_hit(obstacles@.map_values(|ob: Obstacle| ob@), player@),
{
    let ghost obs = obstacles@.map_values(|ob: Obstacle| ob@);
    let mut found = false;
    let mut i: usize = 0;
    while i < obstacles.len()
        invariant
            i <= obstacles.len(),
            obs == obstacles@.map_values(|ob: Obstacle| ob@),
            player@.y >= 0,
            gates_wf(obs),
            found == exists|k: int| 0 <= k < i && (#[trigger] obs[k]).hit(player@),
        decreases obstacles.len() - i,
    {
        proof {
            assert(obs[i as int] == obstacles@[i as int]@);
            assert(obs[i as int].wf());
        }
        if obstacles[i].hit_obstacle(player) {
            proof {
                assert(obs[i as int].hit(player@));
            }
            found = true;
        }
        i = i + 1;
    }
    found
}

/// A whole game session: the player, the frame-time accumulator (in
/// milliseconds), the obstacle stream ordered by column, the current screen,
/// the score, and the quit flag the host observes after each frame.
pub struct State {
    pub player: Player,
    pub frame_time: i32,
    pub obstacles: Vec<Obstacle>,
    pub mode: GameMode,
    pub score: i32,
    pub quitting: bool,
}

impl View for State {
    type V = StateView;

    open spec fn view(&self) -> StateView {
        StateView {
            player: self.player@,
            frame_time: self.frame_time as int,
            obstacles: self.obstacles@.map_values(|ob: Obstacle| ob@),
            mode: self.mode,
            score: self.score as int,
            quitting: self.quitting,
        }
    }
}

impl State {
    /// A fresh session on the menu screen, with the first gate's gap drawn
    /// at random.
    pub fn new(rng: &mut RandomNumberGenerator) -> (s: State)
        ensures
            exists|g: int|
                GAP_Y_MIN as int <= g < GAP_Y_MAX as int && s@ == session_start(
                    g,
                    GameMode::Menu,
                    false,
                ),
            s@.wf(),
    {
        let gap_y = range_i32(rng, GAP_Y_MIN, GAP_Y_MAX);
        Self::new_with_gap(gap_y)
    }

    /// A fresh session on the menu screen, with the first gate's gap
    /// centered on the given row.
    pub fn new_with_gap(gap_y: i32) -> (s: State)
        requires
            GAP_Y_MIN <= gap_y < GAP_Y_MAX,
        ensures
            s@ == session_start(gap_y as int, GameMode::Menu, false),
            s@.wf(),
    {
        let s = State {
            player: Player::new(PLAYER_START_X, PLAYER_START_Y),
            frame_time: 0,
            obstacles: vec![Obstacle::with_gap(SCREEN_WIDTH, gap_y)],
            mode: GameMode::Menu,
            score: 0,
            quitting: false,
        };
        proof {
            assert(s@.obstacles =~= session_start(gap_y as int, GameMode::Menu, false).obstacles);
        }
        s
    }

    /// Begin play from any screen: reset the player, the accumulator, the
    /// stream (to a single fresh gate) and the score, and switch to the
    /// playing screen. Only the quit flag survives.
    pub fn restart(&mut self, rng: &mut RandomNumberGenerator)
        ensures
            exists|g: int|
                GAP_Y_MIN as int <= g < GAP_Y_MAX as int && final(self)@ == session_start(
                    g,
                    GameMode::Playing,
                    old(self).quitting,
                ),
            final(self)@.wf(),
    {
        let gap_y = range_i32(rng, GAP_Y_MIN, GAP_Y_MAX);
        self.restart_with_gap(gap_y);
    }

    /// The restart rule with the fresh gate's gap row given by the caller.
    pub fn restart_with_gap(&mut self, gap_y: i32)
        requires
            GAP_Y_MIN <= gap_y < GAP_Y_MAX,
        ensures
            final(self)@ == session_start(gap_y as int, GameMode::Playing, old(self).quitting),
            final(self)@.wf(),
    {
        self.player = Player::new(PLAYER_START_X, PLAYER_START_Y);
        self.frame_time = 0;
        self.obstacles = vec![Obstacle::with_gap(SCREEN_WIDTH, gap_y)];
        self.mode = GameMode::Playing;
        self.score = 0;
        proof {
            assert(self@.obstacles =~= session_start(
                gap_y as int,
                GameMode::Playing,
                old(self).quitting,
            ).obstacles);
        }
    }

    /// Leave the paused screen and pick up play where it stopped; everything
    /// else is untouched.
    pub fn continue_game(&mut self)
        ensures
            final(self)@ == (StateView { mode: GameMode::Playing, ..old(self)@ }),
    {
        self.mode = GameMode::Playing;
    }

    /// The menu screen: `Play` starts a session, `Quit` raises the quit
    /// flag, anything else changes nothing.
    pub fn main_menu(&mut self, rng: &mut RandomNumberGenerator, input: Input)
        requires
            old(self)@.wf(),
        ensures
            input is Play ==> exists|g: int|
                GAP_Y_MIN as int <= g < GAP_Y_MAX as int && final(self)@ == session_start(
                    g,
                    GameMode::Playing,
                    old(self).quitting,
                ),
            input is Quit ==> final(self)@ == (StateView { quitting: true, ..old(self)@ }),
            !(input is Play) && !(input is Quit) ==> final(self)@ == old(self)@,
            final(self)@.wf(),
    {
        match input {
            Input::Play => self.restart(rng),
            Input::Quit => self.quitting = true,
            _ => {},
        }
    }

    /// The paused screen: `Escape` resumes play, `Quit` raises the quit
    /// flag, anything else changes nothing.
    pub fn pause_menu(&mut self, input: Input)
        ensures
            input is Escape ==> final(self)@ == (StateView {
                mode: GameMode::Playing,
                ..old(self)@
            }),
            input is Quit ==> final(self)@ == (StateView { quitting: true, ..old(self)@ }),
            !(input is Escape) && !(input is Quit) ==> final(self)@ == old(self)@,
    {
        match input {
            Input::Escape => self.continue_game(),
            Input::Quit => self.quitting = true,
            _ => {},
        }
    }

    /// One frame of the playing screen, exactly as `playing_step` states it,
    /// with the two random draws given by the caller: the row the gap of a
    /// spawned gate would be centered on, and the spawn-cadence draw.
    #[verifier::rlimit(60)]
    pub fn play_with_draws(&mut self, input: Input, elapsed_ms: i32, gap_draw: i32, spawn_draw: i32)
        requires
            old(self)@.wf(),
            old(self)@.playing_fits(elapsed_ms as int),
            GAP_Y_MIN <= gap_draw < GAP_Y_MAX,
        ensures
            final(self)@ == playing_step(
                old(self)@,
                input,
                elapsed_ms as int,
                gap_draw as int,
                spawn_draw as int,
            ),
            final(self)@.wf(),
    {
        let mut tick_fired = false;
        self.frame_time = self.frame_time + elapsed_ms;
        if self.frame_time > FRAME_DURATION_MS {
            self.frame_time = 0;
            self.player.gravity_and_mode();
            tick_fired = true;
        }
        match input {
            Input::Flap => self.player.flap(),
            Input::Escape => self.mode = GameMode::Paused,
            _ => {},
        }
        let ghost moved = input_applied(ticked(old(self)@, elapsed_ms as int), input);
        proof {
            assert(self@ == moved);
            assert(tick_fired == tick_fires(old(self)@, elapsed_ms as int));
        }
        if tick_fired && self.frame_time % SPAWN_PERIOD_MS == 0 && spawn_draw % SPAWN_DIVISOR == 0 {
            let spawn_x = self.player.x + SCREEN_WIDTH;
            let gate = Obstacle::with_gap(spawn_x, gap_draw);
            self.obstacles.push(gate);
        }
        let ghost sp = spawned(
            moved,
            tick_fires(old(self)@, elapsed_ms as int),
            gap_draw as int,
            spawn_draw as int,
        );
        proof {
            assert(self@.obstacles =~= sp.obstacles);
            assert(self@ == sp);
        }
        let n = count_passed(&self.obstacles, self.player.x);
        proof {
            lemma_passed_count_bounds(sp.obstacles, sp.player.x);
        }
        self.score = self.score + (n as i32);
        let fell = self.player.y / SCALE > SCREEN_HEIGHT;
        let hit = any_collision(&self.obstacles, &self.player);
        if fell || hit {
            self.mode = GameMode::Dead;
        }
        if n > 0 {
            self.obstacles.remove(0);
            proof {
                assert(self@.obstacles =~= playing_step(
                    old(self)@,
                    input,
                    elapsed_ms as int,
                    gap_draw as int,
                    spawn_draw as int,
                ).obstacles);
            }
        }
        proof {
            lemma_playing_step_wf(
                old(self)@,
                input,
                elapsed_ms as int,
                gap_draw as int,
                spawn_draw as int,
            );
        }
    }

    /// One frame of the playing screen, with the two draws taken from the
    /// session's random source. Whatever comes back, the frame is one
    /// `playing_step` on draws from the valid bands.
    pub fn play(&mut self, rng: &mut RandomNumberGenerator, input: Input, elapsed_ms: i32)
        requires
            old(self)@.wf(),
            old(self)@.playing_fits(elapsed_ms as int),
        ensures
            exists|g: int, sp: int|
                GAP_Y_MIN as int <= g < GAP_Y_MAX as int && SPAWN_DRAW_MIN as int <= sp
                    < SPAWN_DRAW_MAX as int && final(self)@ == playing_step(
                    old(self)@,
                    input,
                    elapsed_ms as int,
                    g,
                    sp,
                ),
            final(self)@.wf(),
    {
        let gap_draw = range_i32(rng, GAP_Y_MIN, GAP_Y_MAX);
        let spawn_draw = range_i32(rng, SPAWN_DRAW_MIN, SPAWN_DRAW_MAX);
        self.play_with_draws(input, elapsed_ms, gap_draw, spawn_draw);
    }

    /// One frame of the whole session: exactly one screen handler runs,
    /// selected by the current mode, fed the frame's one logical key event
    /// and its wall-clock duration.
    pub fn tick(&mut self, rng: &mut RandomNumberGenerator, input: Input, elapsed_ms: i32)
        requires
            old(self)@.wf(),
            old(self).mode is Playing ==> old(self)@.playing_fits(elapsed_ms as int),
        ensures
            final(self)@.wf(),
            old(self).mode is Menu || old(self).mode is Dead ==> {
                &&& input is Play ==> exists|g: int|
                    GAP_Y_MIN as int <= g < GAP_Y_MAX as int && final(self)@ == session_start(
                        g,
                        GameMode::Playing,
                        old(self).quitting,
                    )
                &&& input is Quit ==> final(self)@ == (StateView {
                    quitting: true,
                    ..old(self)@
                })
                &&& !(input is Play) && !(input is Quit) ==> final(self)@ == old(self)@
            },
            old(self).mode is Paused ==> {
                &&& input is Escape ==> final(self)@ == (StateView {
                    mode: GameMode::Playing,
                    ..old(self)@
                })
                &&& input is Quit ==> final(self)@ == (StateView {
                    quitting: true,
                    ..old(self)@
                })
                &&& !(input is Escape) && !(input is Quit) ==> final(self)@ == old(self)@
            },
            old(self).mode is Playing ==> exists|g: int, sp: int|
                GAP_Y_MIN as int <= g < GAP_Y_MAX as int && SPAWN_DRAW_MIN as int <= sp
                    < SPAWN_DRAW_MAX as int && final(self)@ == playing_step(
                    old(self)@,
                    input,
                    elapsed_ms as int,
                    g,
                    sp,
                ),
    {
        match self.mode {
            GameMode::Menu => self.main_menu(rng, input),
            GameMode::Dead => self.dead(rng, input),
            GameMode::Playing => self.play(rng, input, elapsed_ms),
            GameMode::Paused => self.pause_menu(input),
        }
    }

    /// The death screen: `Play` starts a fresh session, `Quit` raises the
    /// quit flag, anything else changes nothing.
    pub fn dead(&mut self, rng: &mut RandomNumberGenerator, input: Input)
        requires
            old(self)@.wf(),
        ensures
            input is Play ==> exists|g: int|
                GAP_Y_MIN as int <= g < GAP_Y_MAX as int && final(self)@ == session_start(
                    g,
                    GameMode::Playing,
                    old(self).quitting,
                ),
            input is Quit ==> final(self)@ == (StateView { quitting: true, ..old(self)@ }),
            !(input is Play) && !(input is Quit) ==> final(self)@ == old(self)@,
            final(self)@.wf(),
    {
        match input {
            Input::Play => self.restart(rng),
            Input::Quit => self.quitting = true,
            _ => {},
        }
    }
}

/// A playing frame keeps the session valid: a gate spawns only on a frame
/// whose tick fired, so the player has just advanced and the new gate lies
/// strictly past every gate already in the stream.
proof fn lemma_playing_step_wf(
    s: StateView,
    input: Input,
    elapsed: int,
    gap_draw: int,
    spawn_draw: int,
)
    requires
        s.wf(),
        0 <= elapsed,
        GAP_Y_MIN as int <= gap_draw < GAP_Y_MAX as int,
    ensures
        playing_step(s, input, elapsed, gap_draw, spawn_draw).wf(),
{
    let fired = tick_fires(s, elapsed);
    let moved = input_applied(ticked(s, elapsed), input);
    assert(gates_within(moved.obstacles, moved.player.x));
    let sp = spawned(moved, fired, gap_draw, spawn_draw);
    if spawn_due(moved, fired, spawn_draw) {
        assert(moved.player.x == s.player.x + 1);
    }
    assert(gates_wf(sp.obstacles));
    assert(gates_strictly_sorted(sp.obstacles));
    assert(gates_within(sp.obstacles, sp.player.x));
    let n = passed_count(sp.obstacles, sp.player.x);
    lemma_passed_count_bounds(sp.obstacles, sp.player.x);
    let out = playing_step(s, input, elapsed, gap_draw, spawn_draw);
    if n > 0 {
        let popped = sp.obstacles.remove(0);
        assert(forall|k: int| 0 <= k < popped.len() ==> #[trigger] popped[k] == sp.obstacles[k + 1]);
        assert(gates_wf(out.obstacles));
        assert(gates_strictly_sorted(out.obstacles));
        assert(gates_within(out.obstacles, out.player.x));
    }
}

/// Law: every playing frame keeps the obstacle stream in strictly
/// increasing column order, whatever its duration and draws and however
/// many gates it spawns or retires: a gate spawns only on a frame whose
/// tick fired, and then it lies strictly past every gate already in the
/// stream; retirement only takes the head.
pub proof fn lemma_playing_step_preserves_fifo(
    s: StateView,
    input: Input,
    elapsed: int,
    gap_draw: int,
    spawn_draw: int,
)
    requires
        s.wf(),
        0 <= elapsed,
        GAP_Y_MIN as int <= gap_draw < GAP_Y_MAX as int,
    ensures
        playing_step(s, input, elapsed, gap_draw, spawn_draw).fifo_strict(),
{
    lemma_playing_step_wf(s, input, elapsed, gap_draw, spawn_draw);
}

/// The count of passed gates is exactly one when the head has been passed
/// and no later gate has.
proof fn lemma_passed_count_only_head(obs: Seq<ObstacleView>, px: int)
    requires
        obs.len() > 0,
        px > obs[0].x,
        forall|k: int| 1 <= k < obs.len() ==> px <= (#[trigger] obs[k]).x,
    ensures
        passed_count(obs, px) == 1,
    decreases obs.len(),
{
    if obs.len() == 1 {
        assert(passed_count(obs.drop_last(), px) == 0);
    } else {
        assert(obs.drop_last()[0] == obs[0]);
        lemma_passed_count_only_head(obs.drop_last(), px);
    }
}

/// Law: on the frame the player first moves past the head gate, the score
/// grows by exactly one and that gate alone is retired from the head of the
/// stream; every other gate survives, shifted one place toward the head.
pub proof fn lemma_first_pass_scores_one(
    s: StateView,
    input: Input,
    elapsed: int,
    gap_draw: int,
    spawn_draw: int,
)
    requires
        s.wf(),
        0 <= elapsed,
        GAP_Y_MIN as int <= gap_draw < GAP_Y_MAX as int,
        s.obstacles.len() > 0,
        s.player.x <= s.obstacles[0].x,
        ticked(s, elapsed).player.x > s.obstacles[0].x,
    ensures
        playing_step(s, input, elapsed, gap_draw, spawn_draw).score == s.score + 1,
        forall|k: int|
            0 <= k < s.obstacles.len() - 1 ==> playing_step(
                s,
                input,
                elapsed,
                gap_draw,
                spawn_draw,
            ).obstacles[k] == s.obstacles[k + 1],
{
    let fired = tick_fires(s, elapsed);
    let moved = input_applied(ticked(s, elapsed), input);
    let sp = spawned(moved, fired, gap_draw, spawn_draw);
    let px = moved.player.x;
    // The pass can first become true only on a frame whose tick fired, so
    // the player sits exactly one column past the head.
    assert(fired);
    assert(px == s.obstacles[0].x + 1);
    // Strict column order puts every later gate at or past the player, and
    // a gate spawned this frame lies a full screen width ahead.
    assert(forall|k: int| 1 <= k < sp.obstacles.len() ==> px <= (#[trigger] sp.obstacles[k]).x);
    lemma_passed_count_only_head(sp.obstacles, px);
    let out = playing_step(s, input, elapsed, gap_draw, spawn_draw);
    let popped = sp.obstacles.remove(0);
    assert(forall|k: int| 0 <= k < popped.len() ==> #[trigger] popped[k] == sp.obstacles[k + 1]);
    assert(forall|k: int| 0 <= k < s.obstacles.len() - 1 ==> #[trigger] out.obstacles[k] == s.obstacles[k + 1]);
}

/// Law: a restart resets the score to zero, the stream to a single fresh
/// gate one screen width out, and the player to the start position at rest,
/// whatever screen it is taken from.
pub proof fn lemma_restart_resets(gap: int, mode: GameMode, quitting: bool)
    ensures
        session_start(gap, mode, quitting).score == 0,
        session_start(gap, mode, quitting).obstacles.len() == 1,
        session_start(gap, mode, quitting).obstacles[0].x == SCREEN_WIDTH as int,
        session_start(gap, mode, quitting).player == start_player(),
        session_start(gap, mode, quitting).frame_time == 0,
{
}

} // verus!

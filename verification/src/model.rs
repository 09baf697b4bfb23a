//! The session controller as a state machine over plain values.
//!
//! A session is driven by three kinds of calls, one after the other: an
//! input event, an update, a draw. A call that needs its surroundings issues
//! one [`Command`] at a time; `resume` takes the [`Reply`] to the command
//! issued last and either issues the next one or ends the call.

use crate::command::{resolution, systems, Command, Reply, Track};
use crate::config::SceneConfigView;
use crate::input::{InputEvent, Movement};
use crate::resources::GameStateFlag;
use vstd::arithmetic::div_mod::{
    lemma_fundamental_div_mod,
    lemma_fundamental_div_mod_converse,
    lemma_mod_bound,
};
use vstd::arithmetic::mul::{lemma_mul_inequality, lemma_mul_is_distributive_add_other_way};
use vstd::prelude::*;

verus! {

/// The state of a session.
#[derive(Clone, Copy, Debug, PartialEq, Eq, Structural)]
pub enum GameState {
    /// Waiting for the confirm input. The state of a new session.
    WaitingInput,
    /// Confirmed; waiting for the atlas and the font.
    Initializing,
    Running,
    Paused,
    /// The session is decided. Nothing leads out of this state.
    GameOver,
}

/// What follows when the commands of the call in progress have all been
/// issued and the last of them is answered.
#[derive(Clone, Copy, Debug, PartialEq, Eq, Structural)]
pub enum Stage {
    /// Nothing: the call is over.
    End,
    /// The normal track of a fresh cycle was asked for: now the scheduler
    /// ticks and the frame's pipeline runs.
    CycleMusic,
    /// The outcome flag was asked for: now it is resolved.
    Outcome,
    /// The atlas handle was polled.
    Atlas,
    /// The font handle was polled.
    Font,
    /// The hero and the frame rate were asked for: now the labels are
    /// drawn.
    Hero,
}

/// A session as plain values.
pub struct SceneView {
    pub state: GameState,
    /// Frames that the scheduler has counted.
    pub cycle_timer: nat,
    /// Spawns that the scheduler has asked for.
    pub cycle_counter: nat,
    pub config: SceneConfigView,
    /// The commands of the call in progress that are not issued yet.
    pub pending: Seq<Command>,
    /// What follows them.
    pub stage: Stage,
}

/// What routing one input event gives.
pub struct Routed {
    pub scene: SceneView,
    /// The bits of the pressed keys.
    pub keys: Set<u32>,
    /// The outcome flag.
    pub flag: Option<GameStateFlag>,
    pub command: Option<Command>,
}

/// What an update asks for when the session is not running: the audio
/// player advances and the store commits what is left to commit.
pub open spec fn upkeep() -> Seq<Command> {
    seq![Command::UpdateMusic, Command::Maintain]
}

/// What a draw call asks for once the assets are loaded, in `state`, and
/// what follows it.
pub open spec fn painting(state: GameState) -> (Seq<Command>, Stage) {
    match state {
        GameState::WaitingInput => (seq![Command::DrawPrompt], Stage::End),
        GameState::Running | GameState::Initializing => (
            seq![Command::Render, Command::ReadHero],
            Stage::Hero,
        ),
        GameState::Paused => (
            seq![Command::Render, Command::RenderLabels, Command::Maintain],
            Stage::End,
        ),
        GameState::GameOver => (seq![Command::Render, Command::Maintain], Stage::End),
    }
}

impl SceneView {
    /// The frame of the last spawn, the boss.
    pub open spec fn last_spawn(self) -> int {
        self.config.boss_cycle * self.config.new_body_cycle
    }

    /// The full intervals among the frames that the scheduler has counted.
    pub open spec fn full_intervals(self) -> nat {
        if self.config.new_body_cycle == 0 {
            0
        } else {
            self.cycle_timer / (self.config.new_body_cycle as nat)
        }
    }

    /// Whether the scheduler keeps its rhythm: it has not counted past the
    /// last spawn, and it has asked for one spawn per full interval.
    pub open spec fn regular(self) -> bool {
        &&& self.cycle_timer <= self.last_spawn()
        &&& self.cycle_counter == self.full_intervals()
    }

    /// What holds of every session: the scheduler has asked for no more
    /// spawns than the session has, on a valid configuration it keeps its
    /// rhythm, and the hero is only asked for while the session runs.
    pub open spec fn wf(self) -> bool {
        &&& self.cycle_counter <= self.config.boss_cycle
        &&& self.config.valid() ==> self.regular()
        &&& self.stage == Stage::Hero ==> self.state == GameState::Running
    }

    /// Whether the scheduler can count one more frame: while spawns are
    /// left, they are at least a frame apart and the count of frames has
    /// not reached the limit of 64 bits.
    pub open spec fn steady(self) -> bool {
        self.scheduling() ==> self.config.new_body_cycle > 0 && self.cycle_timer < u64::MAX
    }

    /// Whether an update call can start: if the scheduler ticks at its
    /// start, it can count the frame. It ticks at the start of a running
    /// frame unless the normal track is asked for first.
    pub open spec fn update_defined(self) -> bool {
        self.state == GameState::Running && !(self.scheduling() && self.cycle_timer == 0)
            ==> self.steady()
    }

    /// Whether the call in progress can go on: if the scheduler ticks next,
    /// it can count the frame. It ticks when the normal track has been
    /// asked for.
    pub open spec fn resume_defined(self) -> bool {
        self.pending.len() == 0 && self.stage == Stage::CycleMusic ==> self.steady()
    }

    /// A new session.
    pub open spec fn fresh(config: SceneConfigView) -> SceneView {
        SceneView {
            state: GameState::WaitingInput,
            cycle_timer: 0,
            cycle_counter: 0,
            config,
            pending: Seq::empty(),
            stage: Stage::End,
        }
    }

    /// The session with no call in progress.
    pub open spec fn idle(self) -> SceneView {
        SceneView { pending: Seq::empty(), stage: Stage::End, ..self }
    }

    /// Whether a draw call has to ask the asset handles: until the session
    /// runs, nothing is taken as loaded.
    pub open spec fn gated(self) -> bool {
        self.state == GameState::WaitingInput || self.state == GameState::Initializing
    }

    /// Whether the scheduler still has spawns to ask for.
    pub open spec fn scheduling(self) -> bool {
        self.cycle_counter < self.config.boss_cycle
    }

    /// Issues the next pending command, or ends the call if there is none.
    pub open spec fn advance(self) -> (SceneView, Option<Command>) {
        if self.pending.len() > 0 {
            (SceneView { pending: self.pending.drop_first(), ..self }, Some(self.pending[0]))
        } else {
            (self.idle(), None)
        }
    }

    /// Takes up `script`, with `stage` to follow it, and issues its first
    /// command.
    pub open spec fn begin(self, script: Seq<Command>, stage: Stage) -> (
        SceneView,
        Option<Command>,
    ) {
        SceneView { pending: script, stage, ..self }.advance()
    }

    /// One tick of the spawn scheduler, and the spawn it asks for.
    ///
    /// Once the boss has been asked for, the scheduler rests. Until then
    /// every tick counts a frame. Each time the frames reach a multiple of
    /// the interval a spawn is due: the boss with its track if it is the
    /// last one, a routine enemy from the factory otherwise.
    pub open spec fn tick(self) -> (SceneView, Seq<Command>) {
        if !self.scheduling() {
            (self, Seq::empty())
        } else {
            let timer = self.cycle_timer + 1;
            if timer % (self.config.new_body_cycle as nat) == 0 {
                let counter = self.cycle_counter + 1;
                (
                    SceneView { cycle_timer: timer, cycle_counter: counter, ..self },
                    if counter == self.config.boss_cycle {
                        seq![Command::PlayMusic(Track::Boss), Command::CreateBoss]
                    } else {
                        seq![Command::CreateEntity]
                    },
                )
            } else {
                (SceneView { cycle_timer: timer, ..self }, Seq::empty())
            }
        }
    }

    /// The pipeline of a running frame: the scheduler ticks, its spawn is
    /// asked for, the simulation systems run in their order, and the
    /// outcome flag is read.
    pub open spec fn pipeline(self) -> (SceneView, Option<Command>) {
        let (ticked, spawn) = self.tick();
        ticked.begin(spawn + systems() + seq![Command::ReadFlag], Stage::Outcome)
    }

    /// Starts an update call.
    ///
    /// A session that waits for input is left alone. A running one runs the
    /// pipeline, after the normal track has been asked for if this is the
    /// first frame that the scheduler counts. In every other state only the
    /// upkeep is done.
    pub open spec fn update(self) -> (SceneView, Option<Command>) {
        match self.state {
            GameState::WaitingInput => (self.idle(), None),
            GameState::Running => if self.scheduling() && self.cycle_timer == 0 {
                self.begin(seq![Command::PlayMusic(Track::Normal)], Stage::CycleMusic)
            } else {
                self.pipeline()
            },
            _ => self.begin(upkeep(), Stage::End),
        }
    }

    /// Resolves the outcome flag that was read after the systems ran. A
    /// decided session is over: the store is wiped, the background of the
    /// outcome put up and its track played, and nothing else is done in
    /// this call. An undecided one goes on with the upkeep.
    pub open spec fn resolve(self, flag: Option<GameStateFlag>) -> (SceneView, Option<Command>) {
        match flag {
            Some(f) => SceneView { state: GameState::GameOver, ..self }.begin(
                resolution(f),
                Stage::End,
            ),
            None => self.begin(upkeep(), Stage::End),
        }
    }

    /// Starts a draw call: the window is cleared; then the atlas handle is
    /// polled if the assets are not taken as loaded yet, and the frame is
    /// painted if they are.
    pub open spec fn draw(self) -> (SceneView, Option<Command>) {
        if self.gated() {
            self.begin(seq![Command::Clear, Command::PollAtlas], Stage::Atlas)
        } else {
            let (script, stage) = painting(self.state);
            self.begin(seq![Command::Clear] + script, stage)
        }
    }

    /// Goes on with a draw call once it is known whether both assets are
    /// loaded. While one is not, nothing is drawn and the state stays. Once
    /// both are, a session that waits for input shows its prompt and keeps
    /// waiting, and one that initializes starts to run with this frame.
    pub open spec fn gate(self, loaded: bool) -> (SceneView, Option<Command>) {
        if !loaded {
            (self.idle(), None)
        } else {
            let state = if self.state == GameState::Initializing {
                GameState::Running
            } else {
                self.state
            };
            let (script, stage) = painting(state);
            SceneView { state, ..self }.begin(script, stage)
        }
    }

    /// Goes on with the call in progress, given the reply to the command
    /// issued last. A reply of another kind than the one asked for counts
    /// as the least answer: not ready, no flag.
    pub open spec fn resume(self, reply: Reply) -> (SceneView, Option<Command>) {
        if self.pending.len() > 0 {
            self.advance()
        } else {
            match self.stage {
                Stage::End => (self.idle(), None),
                Stage::CycleMusic => self.pipeline(),
                Stage::Outcome => self.resolve(
                    match reply {
                        Reply::Flag(flag) => flag,
                        _ => None,
                    },
                ),
                Stage::Atlas => if reply == Reply::Ready(true) {
                    self.begin(seq![Command::PollFont], Stage::Font)
                } else {
                    self.gate(false)
                },
                Stage::Font => self.gate(reply == Reply::Ready(true)),
                Stage::Hero => self.begin(
                    seq![Command::RenderLabels, Command::Maintain],
                    Stage::End,
                ),
            }
        }
    }

    /// Whether the call in progress waits for the hero and the frame rate.
    pub open spec fn awaits_hero(self) -> bool {
        self.pending.len() == 0 && self.stage == Stage::Hero
    }

    /// Routes one input event. Whatever call was in progress is over.
    ///
    /// A waiting session starts to initialize on the confirm input. A
    /// running or paused one sets and clears the bit of a direction as any
    /// of the direction's aliases goes down and up, switches between
    /// running and paused on the pause input, and takes the quit input as
    /// a defeat. A finished one asks for the window to be closed on an
    /// input that leaves. Every other event changes nothing.
    pub open spec fn event(
        self,
        keys: Set<u32>,
        flag: Option<GameStateFlag>,
        event: InputEvent,
    ) -> Routed {
        let scene = self.idle();
        match self.state {
            GameState::WaitingInput => Routed {
                scene: if event.is_confirm() {
                    SceneView { state: GameState::Initializing, ..scene }
                } else {
                    scene
                },
                keys,
                flag,
                command: None,
            },
            GameState::Initializing => Routed { scene, keys, flag, command: None },
            GameState::Running | GameState::Paused => Routed {
                scene: if event.is_pause() {
                    SceneView {
                        state: if self.state == GameState::Running {
                            GameState::Paused
                        } else {
                            GameState::Running
                        },
                        ..scene
                    }
                } else {
                    scene
                },
                keys: match event.movement() {
                    Some(Movement::Press(key)) => keys.insert(key.index()),
                    Some(Movement::Release(key)) => keys.remove(key.index()),
                    None => keys,
                },
                flag: if event.is_quit() {
                    Some(GameStateFlag::Defeat)
                } else {
                    flag
                },
                command: None,
            },
            GameState::GameOver => Routed {
                scene,
                keys,
                flag,
                command: if event.is_leave() {
                    Some(Command::CloseWindow)
                } else {
                    None
                },
            },
        }
    }

    /// The course of a call from the command `issued` on, when `answer`
    /// gives the reply to each command: the commands that are issued, in
    /// their order, and the session at the end. At most `n` replies are
    /// given.
    pub open spec fn run(
        self,
        issued: Option<Command>,
        answer: spec_fn(Command) -> Reply,
        n: nat,
    ) -> (SceneView, Seq<Command>)
        decreases n,
    {
        match issued {
            None => (self, Seq::empty()),
            Some(command) => if n == 0 {
                (self, seq![command])
            } else {
                let (next, following) = self.resume(answer(command));
                let (end, rest) = next.run(following, answer, (n - 1) as nat);
                (end, seq![command] + rest)
            },
        }
    }

    /// The session after `n` ticks of the scheduler.
    pub open spec fn ticked(self, n: nat) -> SceneView
        decreases n,
    {
        if n == 0 {
            self
        } else {
            self.ticked((n - 1) as nat).tick().0
        }
    }
}

/// Counting one more frame: while spawns are left the frame of the last
/// spawn is not passed, and the count of full intervals goes up by one
/// exactly when the frames reach a multiple of the interval.
pub proof fn lemma_next_frame(timer: int, interval: int, spawns: int)
    requires
        interval > 0,
        timer >= 0,
        timer / interval < spawns,
    ensures
        timer + 1 <= spawns * interval,
        (timer + 1) % interval == 0 ==> (timer + 1) / interval == timer / interval + 1,
        (timer + 1) % interval != 0 ==> (timer + 1) / interval == timer / interval,
{
    let q = timer / interval;
    let r = timer % interval;
    lemma_fundamental_div_mod(timer, interval);
    lemma_mod_bound(timer, interval);
    assert(timer == interval * q + r);
    assert(interval * q == q * interval) by (nonlinear_arith);
    lemma_mul_inequality(q + 1, spawns, interval);
    lemma_mul_is_distributive_add_other_way(interval, q, 1);
    assert((q + 1) * interval == q * interval + interval);
    if r + 1 < interval {
        lemma_fundamental_div_mod_converse(timer + 1, interval, q, r + 1);
    } else {
        lemma_fundamental_div_mod_converse(timer + 1, interval, q + 1, 0);
    }
}

/// A tick keeps a session well-formed and never takes a spawn back.
pub proof fn lemma_tick(scene: SceneView)
    requires
        scene.wf(),
    ensures
        scene.tick().0.wf(),
        scene.tick().0.cycle_counter >= scene.cycle_counter,
        scene.tick().0.cycle_counter <= scene.config.boss_cycle,
        scene.tick().0.cycle_timer >= scene.cycle_timer,
        scene.tick().0.state == scene.state,
        scene.tick().0.config == scene.config,
        scene.tick().0.pending == scene.pending,
        scene.tick().0.stage == scene.stage,
{
    if scene.scheduling() && scene.config.valid() {
        lemma_next_frame(
            scene.cycle_timer as int,
            scene.config.new_body_cycle as int,
            scene.config.boss_cycle as int,
        );
    }
}

/// On a valid configuration the scheduler can count every frame.
pub proof fn lemma_steady(scene: SceneView)
    requires
        scene.wf(),
        scene.config.valid(),
    ensures
        scene.steady(),
        scene.update_defined(),
        scene.resume_defined(),
{
    if scene.scheduling() {
        lemma_next_frame(
            scene.cycle_timer as int,
            scene.config.new_body_cycle as int,
            scene.config.boss_cycle as int,
        );
    }
}

} // verus!

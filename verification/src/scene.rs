//! The session controller.

use crate::command::{cast, create_label, Backdrop, Command, Reply, System, Track};
use crate::config::SceneConfig;
use crate::input::{InputEvent, Movement};
use crate::keys::PressedKeys;
use crate::model::{lemma_steady, lemma_tick, GameState, SceneView, Stage};
use crate::resources::{
    refreshed_labels,
    GameStateFlag,
    GameStateFlagRes,
    HeroStatus,
    LabelVariable,
    VariableDictionary,
};
use vstd::prelude::*;

verus! {

/// One game session: its state, its spawn scheduler, and the call that is
/// in progress.
pub struct Scene {
    state: GameState,
    cycle_timer: u64,
    cycle_counter: u32,
    config: SceneConfig,
    /// The commands of the call in progress.
    script: Vec<Command>,
    /// How many of them have been issued.
    cursor: usize,
    stage: Stage,
}

impl View for Scene {
    type V = SceneView;

    closed spec fn view(&self) -> SceneView {
        SceneView {
            state: self.state,
            cycle_timer: self.cycle_timer as nat,
            cycle_counter: self.cycle_counter as nat,
            config: self.config@,
            pending: self.script@.skip(self.cursor as int),
            stage: self.stage,
        }
    }
}

/// The shared values of a new session, for the store to hold: no outcome,
/// the first label texts, no key pressed.
pub fn initial_resources() -> (resources: (GameStateFlagRes, VariableDictionary, PressedKeys))
    ensures
        resources.0.flag.is_none(),
        resources.1@ == crate::resources::initial_labels(),
        resources.2@ == Set::<u32>::empty(),
{
    (GameStateFlagRes::new(), VariableDictionary::new(), PressedKeys::new())
}

impl Scene {
    /// What every session keeps: see [`SceneView::wf`].
    pub closed spec fn wf(&self) -> bool {
        &&& self.cursor <= self.script.len()
        &&& self@.wf()
    }

    /// A well-formed session is well-formed as plain values, and on a valid
    /// configuration every call of it can start and go on.
    pub proof fn lemma_wf(&self)
        requires
            self.wf(),
        ensures
            self@.wf(),
            self@.config.valid() ==> self@.update_defined() && self@.resume_defined(),
    {
        if self@.config.valid() {
            lemma_steady(self@);
        }
    }

    /// A new session on `config`, and the entities that its store starts
    /// with: the main background, the four labels and the hero. The session
    /// waits for the confirm input, and its scheduler has counted nothing.
    /// Any configuration is taken; whether the scheduler can keep counting
    /// on it shows when it ticks.
    pub fn new(config: SceneConfig) -> (made: (Scene, Vec<Command>))
        ensures
            made.0.wf(),
            made.0@ == SceneView::fresh(config@),
            made.1@ == cast(),
    {
        let scene = Scene {
            state: GameState::WaitingInput,
            cycle_timer: 0,
            cycle_counter: 0,
            config,
            script: Vec::new(),
            cursor: 0,
            stage: Stage::End,
        };
        let entities = vec![
            Command::CreateBackground(Backdrop::Main),
            Command::CreateLabel(create_label(LabelVariable::FramesPerSecond)),
            Command::CreateLabel(create_label(LabelVariable::HeroLives)),
            Command::CreateLabel(create_label(LabelVariable::Score)),
            Command::CreateLabel(create_label(LabelVariable::EngineVersion)),
            Command::CreateHero,
        ];
        proof {
            assert(scene@.pending =~= Seq::<Command>::empty());
            let interval = scene.config.new_body_cycle;
            let spawns = scene.config.boss_cycle;
            if interval > 0 {
                assert(0nat / (interval as nat) == 0) by (nonlinear_arith)
                    requires
                        interval > 0,
                ;
            }
            assert(spawns * interval >= 0) by (nonlinear_arith);
            assert(entities@ =~= cast());
        }
        (scene, entities)
    }

    /// The state of the session.
    pub fn state(&self) -> (state: GameState)
        ensures
            state == self@.state,
    {
        self.state
    }

    /// The frames that the scheduler has counted.
    pub fn cycle_timer(&self) -> (timer: u64)
        ensures
            timer == self@.cycle_timer,
    {
        self.cycle_timer
    }

    /// The spawns that the scheduler has asked for.
    pub fn cycle_counter(&self) -> (counter: u32)
        ensures
            counter == self@.cycle_counter,
    {
        self.cycle_counter
    }

    /// The configuration of the session.
    pub fn config(&self) -> (config: &SceneConfig)
        ensures
            config@ == self@.config,
    {
        &self.config
    }

    /// Whether a call is in progress: a command has been issued and
    /// `resume` has not ended the call yet.
    pub fn in_progress(&self) -> (busy: bool)
        requires
            self.wf(),
        ensures
            busy == (self@.pending.len() > 0 || self@.stage != Stage::End),
    {
        self.cursor < self.script.len() || self.stage != Stage::End
    }

    /// Whether the scheduler can count one more frame.
    fn is_steady(&self) -> (ok: bool)
        ensures
            ok == self@.steady(),
    {
        self.cycle_counter >= self.config.boss_cycle || (self.config.new_body_cycle > 0
            && self.cycle_timer < u64::MAX)
    }

    /// Whether an update call can start. It always can on a valid
    /// configuration. On another, the scheduler may be unable to count the
    /// frame: its interval is zero, or its count of frames is at the limit.
    pub fn can_update(&self) -> (ok: bool)
        ensures
            ok == self@.update_defined(),
    {
        let ticks = self.state == GameState::Running && !(self.cycle_counter
            < self.config.boss_cycle && self.cycle_timer == 0);
        !ticks || self.is_steady()
    }

    /// Whether the call in progress can go on. It always can on a valid
    /// configuration; see [`Scene::can_update`].
    pub fn can_resume(&self) -> (ok: bool)
        requires
            self.wf(),
        ensures
            ok == self@.resume_defined(),
    {
        let ticks = self.cursor >= self.script.len() && self.stage == Stage::CycleMusic;
        !ticks || self.is_steady()
    }

    fn upkeep() -> (script: Vec<Command>)
        ensures
            script@ == crate::model::upkeep(),
    {
        let script = vec![Command::UpdateMusic, Command::Maintain];
        assert(script@ =~= crate::model::upkeep());
        script
    }

    fn single(command: Command) -> (script: Vec<Command>)
        ensures
            script@ == seq![command],
    {
        let script = vec![command];
        assert(script@ =~= seq![command]);
        script
    }

    fn halt(&mut self)
        requires
            old(self).wf(),
        ensures
            final(self).wf(),
            final(self)@ == old(self)@.idle(),
    {
        self.script = Vec::new();
        self.cursor = 0;
        self.stage = Stage::End;
        assert(self@.pending =~= Seq::<Command>::empty());
    }

    fn advance(&mut self) -> (command: Option<Command>)
        requires
            old(self).cursor <= old(self).script.len(),
        ensures
            final(self).cursor <= final(self).script.len(),
            (final(self)@, command) == old(self)@.advance(),
    {
        if self.cursor < self.script.len() {
            let command = self.script[self.cursor];
            self.cursor = self.cursor + 1;
            assert(self@.pending =~= old(self)@.pending.drop_first());
            Some(command)
        } else {
            self.script = Vec::new();
            self.cursor = 0;
            self.stage = Stage::End;
            assert(self@.pending =~= Seq::<Command>::empty());
            None
        }
    }

    fn begin(&mut self, script: Vec<Command>, stage: Stage) -> (command: Option<Command>)
        ensures
            final(self).cursor <= final(self).script.len(),
            (final(self)@, command) == old(self)@.begin(script@, stage),
    {
        self.script = script;
        self.cursor = 0;
        self.stage = stage;
        assert(self@.pending =~= script@);
        self.advance()
    }

    /// One tick of the spawn scheduler: counts the frame and says which
    /// spawn is due with it, if any.
    fn entity_factory(&mut self) -> (spawn: Vec<Command>)
        requires
            old(self).wf(),
            old(self)@.steady(),
        ensures
            final(self).wf(),
            (final(self)@, spawn@) == old(self)@.tick(),
    {
        proof {
            lemma_tick(self@);
        }
        let mut spawn: Vec<Command> = Vec::new();
        if self.cycle_counter < self.config.boss_cycle {
            self.cycle_timer = self.cycle_timer + 1;
            if self.cycle_timer % self.config.new_body_cycle == 0 {
                self.cycle_counter = self.cycle_counter + 1;
                if self.cycle_counter == self.config.boss_cycle {
                    spawn.push(Command::PlayMusic(Track::Boss));
                    spawn.push(Command::CreateBoss);
                } else {
                    spawn.push(Command::CreateEntity);
                }
            }
        }
        assert(spawn@ =~= old(self)@.tick().1);
        spawn
    }

    /// Adds the simulation systems of a frame to `script`, in their order.
    fn run_update_systems(script: &mut Vec<Command>)
        ensures
            final(script)@ == old(script)@ + crate::command::systems(),
    {
        script.push(Command::RunSystem(System::HeroControl));
        script.push(Command::RunSystem(System::Walk));
        script.push(Command::RunSystem(System::Fireball));
        script.push(Command::RunSystem(System::Collision));
        script.push(Command::RunSystem(System::OutOfBounds));
        script.push(Command::RunSystem(System::HeroBlinking));
        assert(script@ =~= old(script)@ + crate::command::systems());
    }

    fn pipeline(&mut self) -> (command: Option<Command>)
        requires
            old(self).wf(),
            old(self)@.stage != Stage::Hero,
            old(self)@.steady(),
        ensures
            final(self).wf(),
            (final(self)@, command) == old(self)@.pipeline(),
    {
        let mut script = self.entity_factory();
        Self::run_update_systems(&mut script);
        script.push(Command::ReadFlag);
        assert(script@ =~= old(self)@.tick().1 + crate::command::systems() + seq![
            Command::ReadFlag,
        ]);
        self.begin(script, Stage::Outcome)
    }

    /// Starts an update call and issues its first command, if it has one.
    /// The call goes on with [`Scene::resume`]. See [`SceneView::update`].
    ///
    /// The scheduler must be able to count the frame if it ticks at once:
    /// see [`Scene::can_update`].
    pub fn update(&mut self) -> (command: Option<Command>)
        requires
            old(self).wf(),
            old(self)@.update_defined(),
        ensures
            final(self).wf(),
            (final(self)@, command) == old(self)@.update(),
            final(self)@.cycle_counter >= old(self)@.cycle_counter,
    {
        proof {
            lemma_tick(self@);
        }
        self.halt();
        match self.state {
            GameState::WaitingInput => None,
            GameState::Running => {
                if self.cycle_counter < self.config.boss_cycle && self.cycle_timer == 0 {
                    self.begin(Self::single(Command::PlayMusic(Track::Normal)), Stage::CycleMusic)
                } else {
                    assert(old(self)@.idle().pipeline() == old(self)@.pipeline());
                    self.pipeline()
                }
            },
            _ => self.begin(Self::upkeep(), Stage::End),
        }
    }

    /// Ends the game: the session is over and its store is to be wiped.
    fn end_game(&mut self) -> (script: Vec<Command>)
        ensures
            *final(self) == (Scene { state: GameState::GameOver, ..*old(self) }),
            script@ == seq![Command::DeleteAll],
    {
        self.state = GameState::GameOver;
        vec![Command::DeleteAll]
    }

    /// The session is lost.
    fn defeat(&mut self) -> (command: Option<Command>)
        requires
            old(self).wf(),
        ensures
            final(self).wf(),
            (final(self)@, command) == old(self)@.resolve(Some(GameStateFlag::Defeat)),
    {
        let mut script = self.end_game();
        script.push(Command::CreateBackground(Backdrop::Defeat));
        script.push(Command::PlayMusic(Track::GameOver));
        assert(script@ =~= crate::command::resolution(GameStateFlag::Defeat));
        self.begin(script, Stage::End)
    }

    /// The session is won.
    fn victory(&mut self) -> (command: Option<Command>)
        requires
            old(self).wf(),
        ensures
            final(self).wf(),
            (final(self)@, command) == old(self)@.resolve(Some(GameStateFlag::Victory)),
    {
        let mut script = self.end_game();
        script.push(Command::CreateBackground(Backdrop::Victory));
        script.push(Command::PlayMusic(Track::Victory));
        assert(script@ =~= crate::command::resolution(GameStateFlag::Victory));
        self.begin(script, Stage::End)
    }

    /// Whether the atlas counts as loaded, given the reply to its poll.
    fn has_loaded_atlas(reply: Reply) -> (loaded: bool)
        ensures
            loaded == (reply == Reply::Ready(true)),
    {
        match reply {
            Reply::Ready(ready) => ready,
            _ => false,
        }
    }

    /// Whether the font counts as loaded, given the reply to its poll.
    fn has_loaded_font(reply: Reply) -> (loaded: bool)
        ensures
            loaded == (reply == Reply::Ready(true)),
    {
        match reply {
            Reply::Ready(ready) => ready,
            _ => false,
        }
    }

    fn painting(state: GameState) -> (plan: (Vec<Command>, Stage))
        ensures
            (plan.0@, plan.1) == crate::model::painting(state),
    {
        match state {
            GameState::WaitingInput => (vec![Command::DrawPrompt], Stage::End),
            GameState::Running | GameState::Initializing => (
                vec![Command::Render, Command::ReadHero],
                Stage::Hero,
            ),
            GameState::Paused => (
                vec![Command::Render, Command::RenderLabels, Command::Maintain],
                Stage::End,
            ),
            GameState::GameOver => (vec![Command::Render, Command::Maintain], Stage::End),
        }
    }

    fn gate(&mut self, loaded: bool) -> (command: Option<Command>)
        requires
            old(self).wf(),
        ensures
            final(self).wf(),
            (final(self)@, command) == old(self)@.gate(loaded),
    {
        if !loaded {
            self.halt();
            None
        } else {
            if self.state == GameState::Initializing {
                self.state = GameState::Running;
            }
            let (script, stage) = Self::painting(self.state);
            self.begin(script, stage)
        }
    }

    /// Starts a draw call and issues its first command. The call goes on
    /// with [`Scene::resume`]. See [`SceneView::draw`].
    pub fn draw(&mut self) -> (command: Option<Command>)
        requires
            old(self).wf(),
        ensures
            final(self).wf(),
            (final(self)@, command) == old(self)@.draw(),
            command == Some(Command::Clear),
    {
        if self.state == GameState::WaitingInput || self.state == GameState::Initializing {
            self.begin(vec![Command::Clear, Command::PollAtlas], Stage::Atlas)
        } else {
            let (script, stage) = Self::painting(self.state);
            let mut whole = vec![Command::Clear];
            let mut i: usize = 0;
            while i < script.len()
                invariant
                    i <= script.len(),
                    whole@ == seq![Command::Clear] + script@.take(i as int),
                decreases script.len() - i,
            {
                whole.push(script[i]);
                i = i + 1;
                assert(whole@ =~= seq![Command::Clear] + script@.take(i as int));
            }
            assert(script@.take(i as int) =~= script@);
            self.begin(whole, stage)
        }
    }

    /// Goes on with the call in progress: takes the reply to the command
    /// issued last and issues the next one, or ends the call with `None`.
    /// See [`SceneView::resume`].
    ///
    /// The spawns that the scheduler has asked for never become fewer. The
    /// scheduler must be able to count the frame if it ticks next: see
    /// [`Scene::can_resume`].
    pub fn resume(&mut self, reply: Reply) -> (command: Option<Command>)
        requires
            old(self).wf(),
            old(self)@.resume_defined(),
        ensures
            final(self).wf(),
            (final(self)@, command) == old(self)@.resume(reply),
            final(self)@.cycle_counter >= old(self)@.cycle_counter,
    {
        proof {
            lemma_tick(self@);
        }
        if self.cursor < self.script.len() {
            return self.advance();
        }
        assert(self@.pending.len() == 0);
        match self.stage {
            Stage::End => {
                self.halt();
                None
            },
            Stage::CycleMusic => self.pipeline(),
            Stage::Outcome => match reply {
                Reply::Flag(Some(GameStateFlag::Victory)) => self.victory(),
                Reply::Flag(Some(GameStateFlag::Defeat)) => self.defeat(),
                _ => self.begin(Self::upkeep(), Stage::End),
            },
            Stage::Atlas => {
                if Self::has_loaded_atlas(reply) {
                    self.begin(Self::single(Command::PollFont), Stage::Font)
                } else {
                    self.gate(false)
                }
            },
            Stage::Font => {
                let loaded = Self::has_loaded_font(reply);
                self.gate(loaded)
            },
            Stage::Hero => self.begin(
                vec![Command::RenderLabels, Command::Maintain],
                Stage::End,
            ),
        }
    }

    /// Answers [`Command::ReadHero`]: refreshes the label texts and goes on
    /// with the draw call as [`Scene::resume`] does.
    ///
    /// The texts are written anew, all four, if the call waits for this
    /// answer and the hero was found in the store. Otherwise they stay as
    /// they are. A call waits for this answer only while the session runs.
    pub fn update_labels(
        &mut self,
        labels: &mut VariableDictionary,
        fps: String,
        hero: Option<HeroStatus>,
    ) -> (command: Option<Command>)
        requires
            old(self).wf(),
            old(self)@.resume_defined(),
        ensures
            final(self).wf(),
            (final(self)@, command) == old(self)@.resume(Reply::Done),
            final(self)@.state == old(self)@.state,
            old(self)@.awaits_hero() ==> old(self)@.state == GameState::Running,
            final(labels)@ == (match hero {
                Some(status) if old(self)@.awaits_hero() => refreshed_labels(fps@, status),
                _ => old(labels)@,
            }),
    {
        proof {
            lemma_tick(self@);
        }
        if self.cursor >= self.script.len() && self.stage == Stage::Hero {
            assert(self@.pending.len() == 0);
            if let Some(status) = hero {
                *labels = VariableDictionary::refreshed(fps, status);
            }
        }
        self.resume(Reply::Done)
    }

    /// Routes one input event into the state of the session, the pressed
    /// keys and the outcome flag. See [`SceneView::event`].
    pub fn event(
        &mut self,
        event: &InputEvent,
        keys: &mut PressedKeys,
        flag: &mut GameStateFlagRes,
    ) -> (command: Option<Command>)
        requires
            old(self).wf(),
        ensures
            final(self).wf(),
            ({
                let routed = old(self)@.event(old(keys)@, old(flag).flag, *event);
                &&& final(self)@ == routed.scene
                &&& final(keys)@ == routed.keys
                &&& final(flag).flag == routed.flag
                &&& command == routed.command
            }),
    {
        self.halt();
        match self.state {
            GameState::WaitingInput => {
                if event.confirms() {
                    self.state = GameState::Initializing;
                }
                None
            },
            GameState::Running | GameState::Paused => {
                match event.get_movement() {
                    Some(Movement::Press(key)) => keys.press(key),
                    Some(Movement::Release(key)) => keys.release(key),
                    None => {},
                }
                if event.pauses() {
                    if self.state == GameState::Running {
                        self.state = GameState::Paused;
                    } else {
                        self.state = GameState::Running;
                    }
                }
                if event.quits() {
                    *flag = GameStateFlagRes { flag: Some(GameStateFlag::Defeat) };
                }
                None
            },
            GameState::GameOver => {
                if event.leaves() {
                    Some(Command::CloseWindow)
                } else {
                    None
                }
            },
            GameState::Initializing => None,
        }
    }
}

} // verus!

//! What the controller asks of its surroundings, and what they answer.
//!
//! The controller owns neither the entity store nor the audio player, the
//! asset handles or the window. It names one action at a time as a
//! [`Command`]; whoever drives it carries the action out and hands back a
//! [`Reply`].

use crate::resources::{GameStateFlag, LabelVariable};
use vstd::prelude::*;
use vstd::string::StringExecFns;

verus! {

/// A music track of the session.
#[derive(Clone, Copy, Debug, PartialEq, Eq, Structural)]
pub enum Track {
    Normal,
    Boss,
    GameOver,
    Victory,
}

/// A full-screen background image of the session.
#[derive(Clone, Copy, Debug, PartialEq, Eq, Structural)]
pub enum Backdrop {
    Main,
    Defeat,
    Victory,
}

/// One of the simulation systems of a frame.
#[derive(Clone, Copy, Debug, PartialEq, Eq, Structural)]
pub enum System {
    /// Turns the pressed keys into the hero's intent.
    HeroControl,
    /// Moves what has a velocity.
    Walk,
    /// Lets shooters fire.
    Fireball,
    /// Resolves collisions.
    Collision,
    /// Removes what has left the playing field.
    OutOfBounds,
    /// Runs the hero's blinking while it cannot be hit.
    HeroBlinking,
}

/// A label entity: the variable it shows, the size of its font in points
/// and where it stands on the screen.
#[derive(Clone, Copy, Debug, PartialEq, Eq, Structural)]
pub struct Label {
    pub bind_variable: LabelVariable,
    pub font_size: u32,
    pub x: i32,
    pub y: i32,
}

/// One action for the surroundings of the controller to carry out.
#[derive(Clone, Copy, Debug, PartialEq, Eq, Structural)]
pub enum Command {
    /// Start or switch to a track. May fail.
    PlayMusic(Track),
    /// Advance the audio player. May fail.
    UpdateMusic,
    /// Ask the entity factory for one routine enemy. May fail.
    CreateEntity,
    /// Create the boss.
    CreateBoss,
    /// Create the hero.
    CreateHero,
    /// Create a background entity.
    CreateBackground(Backdrop),
    /// Create a label entity.
    CreateLabel(Label),
    /// Delete every entity of the store.
    DeleteAll,
    /// Run one simulation system over the store.
    RunSystem(System),
    /// Commit what the systems asked the store to create and delete.
    Maintain,
    /// Read the outcome flag. Answered by [`Reply::Flag`].
    ReadFlag,
    /// Look the hero up in the store and read the frame rate. Answered by a
    /// call of `update_labels`.
    ReadHero,
    /// Clear the window. May fail.
    Clear,
    /// Ask the atlas handle whether it is ready, without waiting. May fail.
    /// Answered by [`Reply::Ready`].
    PollAtlas,
    /// Ask the font handle whether it is ready, without waiting. May fail.
    /// Answered by [`Reply::Ready`].
    PollFont,
    /// Draw the prompt of the waiting screen. May fail.
    DrawPrompt,
    /// Draw the entities. May fail.
    Render,
    /// Draw the labels. May fail.
    RenderLabels,
    /// Close the window, which ends the application.
    CloseWindow,
}

/// The answer to a command that was carried out. A command that failed is
/// not answered: the call that issued it is over, and its error goes to the
/// caller of the driver.
#[derive(Clone, Copy, Debug, PartialEq, Eq, Structural)]
pub enum Reply {
    /// The command was carried out and has nothing to tell.
    Done,
    /// The asset handle that was polled is ready, or is not.
    Ready(bool),
    /// The outcome flag as it stands in the store.
    Flag(Option<GameStateFlag>),
}

/// The simulation systems in the order in which a frame runs them. Intent
/// comes before movement; collisions are resolved before the cleanup
/// removes what they might remove too; blinking comes last and so sees the
/// hits of this frame.
pub open spec fn systems() -> Seq<Command> {
    seq![
        Command::RunSystem(System::HeroControl),
        Command::RunSystem(System::Walk),
        Command::RunSystem(System::Fireball),
        Command::RunSystem(System::Collision),
        Command::RunSystem(System::OutOfBounds),
        Command::RunSystem(System::HeroBlinking),
    ]
}

/// The background that shows an outcome.
pub open spec fn outcome_backdrop(flag: GameStateFlag) -> Backdrop {
    match flag {
        GameStateFlag::Victory => Backdrop::Victory,
        GameStateFlag::Defeat => Backdrop::Defeat,
    }
}

/// The track that plays on an outcome.
pub open spec fn outcome_track(flag: GameStateFlag) -> Track {
    match flag {
        GameStateFlag::Victory => Track::Victory,
        GameStateFlag::Defeat => Track::GameOver,
    }
}

/// What resolving an outcome asks for: wipe the store, put up the
/// background of the outcome, switch to its track.
pub open spec fn resolution(flag: GameStateFlag) -> Seq<Command> {
    seq![
        Command::DeleteAll,
        Command::CreateBackground(outcome_backdrop(flag)),
        Command::PlayMusic(outcome_track(flag)),
    ]
}

/// The label of `variable` as a new session places it.
pub open spec fn label_of(variable: LabelVariable) -> Label {
    match variable {
        LabelVariable::FramesPerSecond => Label {
            bind_variable: variable,
            font_size: 48,
            x: 20,
            y: 587,
        },
        LabelVariable::HeroLives => Label { bind_variable: variable, font_size: 48, x: 10, y: 20 },
        LabelVariable::Score => Label { bind_variable: variable, font_size: 48, x: 730, y: 20 },
        LabelVariable::EngineVersion => Label {
            bind_variable: variable,
            font_size: 48,
            x: 730,
            y: 587,
        },
    }
}

/// The entities of a new session: the main background, the four labels and
/// the hero.
pub open spec fn cast() -> Seq<Command> {
    seq![
        Command::CreateBackground(Backdrop::Main),
        Command::CreateLabel(label_of(LabelVariable::FramesPerSecond)),
        Command::CreateLabel(label_of(LabelVariable::HeroLives)),
        Command::CreateLabel(label_of(LabelVariable::Score)),
        Command::CreateLabel(label_of(LabelVariable::EngineVersion)),
        Command::CreateHero,
    ]
}

/// An entity of the store, as far as the controller has a hand in it.
#[derive(Clone, Copy, Debug, PartialEq, Eq, Structural)]
pub enum Actor {
    Background(Backdrop),
    Label(Label),
    Hero,
    Boss,
}

impl Command {
    /// Whether the command's effect on the entities of the store is fixed
    /// by the command itself. It is not for a simulation system, for the
    /// entity factory, and for committing what the systems asked for.
    pub open spec fn settled(self) -> bool {
        match self {
            Command::RunSystem(_) | Command::CreateEntity | Command::Maintain => false,
            _ => true,
        }
    }

    /// The entities of the store after a settled command.
    pub open spec fn act(self, store: Seq<Actor>) -> Seq<Actor>
        recommends
            self.settled(),
    {
        match self {
            Command::DeleteAll => Seq::empty(),
            Command::CreateBackground(b) => store.push(Actor::Background(b)),
            Command::CreateLabel(l) => store.push(Actor::Label(l)),
            Command::CreateHero => store.push(Actor::Hero),
            Command::CreateBoss => store.push(Actor::Boss),
            _ => store,
        }
    }
}

/// Whether every command of the script is settled.
pub open spec fn all_settled(script: Seq<Command>) -> bool {
    forall|i: int| 0 <= i < script.len() ==> (#[trigger] script[i]).settled()
}

/// The entities of the store after the commands of a settled script, in
/// their order.
pub open spec fn enact(script: Seq<Command>, store: Seq<Actor>) -> Seq<Actor>
    recommends
        all_settled(script),
    decreases script.len(),
{
    if script.len() == 0 {
        store
    } else {
        script.last().act(enact(script.drop_last(), store))
    }
}

/// A background entity: its sprite and where its centre stands on the
/// screen. It has no bounding box.
#[derive(Debug)]
pub struct Background {
    pub sprite: String,
    pub x: i32,
    pub y: i32,
}

/// The prompt of the waiting screen: its text, the size of its font in
/// points and where its centre stands on the screen.
#[derive(Debug)]
pub struct Prompt {
    pub text: String,
    pub font_size: u32,
    pub x: i32,
    pub y: i32,
}

/// The background entity with the given sprite: it fills the screen, so
/// its centre is the centre of the screen.
pub fn create_background(sprite: String) -> (background: Background)
    ensures
        background.sprite@ == sprite@,
        background.x == 400,
        background.y == 300,
{
    Background { sprite, x: 400, y: 300 }
}

/// The prompt that a draw call shows while the session waits for the
/// confirm input.
pub fn prompt() -> (prompt: Prompt)
    ensures
        prompt.text@ == "Press ENTER to start..."@,
        prompt.font_size == 72,
        prompt.x == 400,
        prompt.y == 300,
{
    Prompt { text: String::from_str("Press ENTER to start..."), font_size: 72, x: 400, y: 300 }
}

/// Computes [`label_of`].
pub fn create_label(variable: LabelVariable) -> (label: Label)
    ensures
        label == label_of(variable),
{
    match variable {
        LabelVariable::FramesPerSecond => Label {
            bind_variable: variable,
            font_size: 48,
            x: 20,
            y: 587,
        },
        LabelVariable::HeroLives => Label { bind_variable: variable, font_size: 48, x: 10, y: 20 },
        LabelVariable::Score => Label { bind_variable: variable, font_size: 48, x: 730, y: 20 },
        LabelVariable::EngineVersion => Label {
            bind_variable: variable,
            font_size: 48,
            x: 730,
            y: 587,
        },
    }
}

} // verus!

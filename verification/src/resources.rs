//! The shared values that the controller and the simulation systems pass to
//! one another through the entity store: the outcome flag and the label
//! texts. (The third, the pressed keys, has a module of its own.)

use crate::text::{decimal, decimal_string};
use std::collections::HashMap;
use vstd::prelude::*;
use vstd::std_specs::hash::group_hash_axioms;
use vstd::string::StringExecFns;

verus! {

/// How a session ended.
#[derive(Clone, Copy, Debug, PartialEq, Eq, Structural)]
pub enum GameStateFlag {
    Victory,
    Defeat,
}

/// The outcome of the session, once it is decided. `None` while the session
/// is undecided.
#[derive(Clone, Copy, Debug, PartialEq, Eq, Structural)]
pub struct GameStateFlagRes {
    pub flag: Option<GameStateFlag>,
}

/// The values that a label can show.
#[derive(Clone, Copy, Debug, PartialEq, Eq, Structural)]
pub enum LabelVariable {
    FramesPerSecond,
    HeroLives,
    Score,
    EngineVersion,
}

impl LabelVariable {
    /// The key under which the dictionary holds the variable's text.
    pub open spec fn index(self) -> u32 {
        match self {
            LabelVariable::FramesPerSecond => 0,
            LabelVariable::HeroLives => 1,
            LabelVariable::Score => 2,
            LabelVariable::EngineVersion => 3,
        }
    }

    /// Computes [`LabelVariable::index`].
    pub fn key(self) -> (key: u32)
        ensures
            key == self.index(),
    {
        match self {
            LabelVariable::FramesPerSecond => 0,
            LabelVariable::HeroLives => 1,
            LabelVariable::Score => 2,
            LabelVariable::EngineVersion => 3,
        }
    }
}

/// What the label texts are computed from when the hero is found in the
/// store.
#[derive(Clone, Copy, Debug, PartialEq, Eq, Structural)]
pub struct HeroStatus {
    pub lives: u64,
    pub score: u64,
}

/// The text of the build version label.
pub open spec fn version_text() -> Seq<char> {
    "v0.1.0"@
}

/// The label texts of a session that has not drawn a frame yet.
pub open spec fn initial_labels() -> Map<LabelVariable, Seq<char>> {
    labels("60"@, "5"@, "0"@, version_text())
}

/// The dictionary with the four given texts.
pub open spec fn labels(
    frames_per_second: Seq<char>,
    hero_lives: Seq<char>,
    score: Seq<char>,
    engine_version: Seq<char>,
) -> Map<LabelVariable, Seq<char>> {
    Map::new(
        |v: LabelVariable| true,
        |v: LabelVariable|
            match v {
                LabelVariable::FramesPerSecond => frames_per_second,
                LabelVariable::HeroLives => hero_lives,
                LabelVariable::Score => score,
                LabelVariable::EngineVersion => engine_version,
            },
    )
}

/// The dictionary that a refresh writes: the frame rate as it was handed
/// in, lives and score as decimal numerals, and the build version.
pub open spec fn refreshed_labels(fps: Seq<char>, hero: HeroStatus) -> Map<
    LabelVariable,
    Seq<char>,
> {
    labels(fps, decimal(hero.lives as nat), decimal(hero.score as nat), version_text())
}

/// The current text of every label variable. It always has all four.
pub struct VariableDictionary {
    dictionary: HashMap<u32, String>,
}

impl View for VariableDictionary {
    type V = Map<LabelVariable, Seq<char>>;

    closed spec fn view(&self) -> Map<LabelVariable, Seq<char>> {
        Map::new(|v: LabelVariable| true, |v: LabelVariable| self.dictionary@[v.index()]@)
    }
}

/// The build version label: `v` and the version of this crate.
pub fn engine_version() -> (s: String)
    ensures
        s@ == version_text(),
{
    String::from_str("v0.1.0")
}

impl VariableDictionary {
    /// Every variable has a text.
    #[verifier::type_invariant]
    spec fn complete(self) -> bool {
        forall|v: LabelVariable| self.dictionary@.contains_key(#[trigger] v.index())
    }

    /// The dictionary with the four given texts.
    fn with(
        frames_per_second: String,
        hero_lives: String,
        score: String,
        engine_version: String,
    ) -> (d: VariableDictionary)
        ensures
            d@ == labels(frames_per_second@, hero_lives@, score@, engine_version@),
    {
        broadcast use group_hash_axioms;

        let mut dictionary: HashMap<u32, String> = HashMap::new();
        dictionary.insert(LabelVariable::FramesPerSecond.key(), frames_per_second);
        dictionary.insert(LabelVariable::HeroLives.key(), hero_lives);
        dictionary.insert(LabelVariable::Score.key(), score);
        dictionary.insert(LabelVariable::EngineVersion.key(), engine_version);
        let d = VariableDictionary { dictionary };
        assert(d@ =~= labels(frames_per_second@, hero_lives@, score@, engine_version@));
        d
    }

    /// The dictionary of a fresh session.
    pub fn new() -> (d: VariableDictionary)
        ensures
            d@ == initial_labels(),
    {
        Self::with(
            String::from_str("60"),
            String::from_str("5"),
            String::from_str("0"),
            engine_version(),
        )
    }

    /// The dictionary that a refresh writes for the given frame rate text
    /// and hero.
    pub fn refreshed(fps: String, hero: HeroStatus) -> (d: VariableDictionary)
        ensures
            d@ == refreshed_labels(fps@, hero),
    {
        Self::with(fps, decimal_string(hero.lives), decimal_string(hero.score), engine_version())
    }

    /// Every variable has a text.
    pub proof fn lemma_total(&self)
        ensures
            forall|v: LabelVariable| self@.dom().contains(v),
    {
    }

    /// The text of `variable`.
    pub fn get(&self, variable: LabelVariable) -> (text: &String)
        ensures
            text@ == self@[variable],
    {
        broadcast use group_hash_axioms;

        proof {
            use_type_invariant(self);
        }
        let found = self.dictionary.get(&variable.key());
        assert(self.dictionary@.contains_key(variable.index()));
        found.unwrap()
    }
}

impl GameStateFlagRes {
    /// The flag of a fresh session: undecided.
    pub fn new() -> (res: GameStateFlagRes)
        ensures
            res.flag.is_none(),
    {
        GameStateFlagRes { flag: None }
    }
}

} // verus!

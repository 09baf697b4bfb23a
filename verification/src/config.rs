//! The configuration of a session.

use crate::command::{Backdrop, Track};
use vstd::prelude::*;
use vstd::string::StringExecFns;

verus! {

/// What a session is set up with: the names of its assets, backgrounds and
/// tracks, and the rhythm of its spawns.
#[derive(Clone, Debug)]
pub struct SceneConfig {
    pub atlas: String,
    pub font: String,
    pub main_background: String,
    pub defeat_background: String,
    pub victory_background: String,
    /// The number of spawns of a session; the last of them is the boss.
    pub boss_cycle: u32,
    /// The number of frames from one spawn to the next.
    pub new_body_cycle: u64,
    pub normal_music: String,
    pub boss_music: String,
    pub game_over_music: String,
    pub victory_music: String,
}

/// A [`SceneConfig`] as plain values.
pub struct SceneConfigView {
    pub atlas: Seq<char>,
    pub font: Seq<char>,
    pub main_background: Seq<char>,
    pub defeat_background: Seq<char>,
    pub victory_background: Seq<char>,
    pub boss_cycle: u32,
    pub new_body_cycle: u64,
    pub normal_music: Seq<char>,
    pub boss_music: Seq<char>,
    pub game_over_music: Seq<char>,
    pub victory_music: Seq<char>,
}

impl View for SceneConfig {
    type V = SceneConfigView;

    open spec fn view(&self) -> SceneConfigView {
        SceneConfigView {
            atlas: self.atlas@,
            font: self.font@,
            main_background: self.main_background@,
            defeat_background: self.defeat_background@,
            victory_background: self.victory_background@,
            boss_cycle: self.boss_cycle,
            new_body_cycle: self.new_body_cycle,
            normal_music: self.normal_music@,
            boss_music: self.boss_music@,
            game_over_music: self.game_over_music@,
            victory_music: self.victory_music@,
        }
    }
}

impl SceneConfigView {
    /// The configuration that `SceneConfig::default` gives.
    pub open spec fn standard() -> SceneConfigView {
        SceneConfigView {
            atlas: "evil_alligator.atlas"@,
            font: "cmunrm.ttf"@,
            main_background: "cenario"@,
            defeat_background: "inferno"@,
            victory_background: "ceu"@,
            boss_cycle: 11,
            new_body_cycle: 210,
            normal_music: "music/normal.ogg"@,
            boss_music: "music/boss.ogg"@,
            game_over_music: "music/gameover.ogg"@,
            victory_music: "music/victory.ogg"@,
        }
    }

    /// Whether the scheduler can count every frame of a session on the
    /// configuration: if there are spawns at all they are at least a frame
    /// apart, and the frame of the last spawn can be counted in 64 bits.
    pub open spec fn valid(self) -> bool {
        &&& self.boss_cycle == 0 || self.new_body_cycle > 0
        &&& self.boss_cycle * self.new_body_cycle <= u64::MAX
    }

    /// The file of a track.
    pub open spec fn music(self, track: Track) -> Seq<char> {
        match track {
            Track::Normal => self.normal_music,
            Track::Boss => self.boss_music,
            Track::GameOver => self.game_over_music,
            Track::Victory => self.victory_music,
        }
    }

    /// The sprite of a background.
    pub open spec fn background(self, backdrop: Backdrop) -> Seq<char> {
        match backdrop {
            Backdrop::Main => self.main_background,
            Backdrop::Defeat => self.defeat_background,
            Backdrop::Victory => self.victory_background,
        }
    }
}

impl Default for SceneConfig {
    fn default() -> (config: SceneConfig)
        ensures
            config@ == SceneConfigView::standard(),
            config@.valid(),
    {
        SceneConfig {
            atlas: String::from_str("evil_alligator.atlas"),
            font: String::from_str("cmunrm.ttf"),
            main_background: String::from_str("cenario"),
            defeat_background: String::from_str("inferno"),
            victory_background: String::from_str("ceu"),
            boss_cycle: 11,
            new_body_cycle: 210,
            normal_music: String::from_str("music/normal.ogg"),
            boss_music: String::from_str("music/boss.ogg"),
            game_over_music: String::from_str("music/gameover.ogg"),
            victory_music: String::from_str("music/victory.ogg"),
        }
    }
}

impl SceneConfig {
    /// Computes [`SceneConfigView::valid`].
    pub fn is_valid(&self) -> (ok: bool)
        ensures
            ok == self@.valid(),
    {
        if self.boss_cycle > 0 && self.new_body_cycle == 0 {
            return false;
        }
        assert(self.boss_cycle * self.new_body_cycle <= u32::MAX * u64::MAX) by (nonlinear_arith);
        let last: u128 = (self.boss_cycle as u128) * (self.new_body_cycle as u128);
        last <= u64::MAX as u128
    }

    /// The file of a track.
    pub fn music(&self, track: Track) -> (file: &String)
        ensures
            file@ == self@.music(track),
    {
        match track {
            Track::Normal => &self.normal_music,
            Track::Boss => &self.boss_music,
            Track::GameOver => &self.game_over_music,
            Track::Victory => &self.victory_music,
        }
    }

    /// The sprite of a background.
    pub fn background(&self, backdrop: Backdrop) -> (sprite: &String)
        ensures
            sprite@ == self@.background(backdrop),
    {
        match backdrop {
            Backdrop::Main => &self.main_background,
            Backdrop::Defeat => &self.defeat_background,
            Backdrop::Victory => &self.victory_background,
        }
    }
}

} // verus!

//! What holds of every session, proved from the state machine.

use crate::command::{
    all_settled,
    cast,
    enact,
    label_of,
    outcome_backdrop,
    resolution,
    Actor,
    Backdrop,
    Command,
    Reply,
};
use crate::input::{ButtonState, InputEvent, Movement};
use crate::keys::KeyboardKeys;
use crate::model::{lemma_tick, upkeep, GameState, SceneView, Stage};
use crate::resources::{GameStateFlag, LabelVariable};
use vstd::prelude::*;

verus! {

/// Input routing changes the state of a session along three edges only:
/// from waiting to initializing on the confirm input, and between running
/// and paused on the pause input. It changes the pressed keys only for a
/// movement key going down or up while the session runs or is paused, the
/// outcome flag only to a defeat on the quit input in those states, and
/// asks for nothing but the window to be closed, on an input that leaves a
/// finished session. The scheduler and the configuration are never
/// touched.
pub proof fn lemma_event_routing(
    scene: SceneView,
    keys: Set<u32>,
    flag: Option<GameStateFlag>,
    event: InputEvent,
)
    ensures
        ({
            let routed = scene.event(keys, flag, event);
            let playing = scene.state == GameState::Running || scene.state == GameState::Paused;
            &&& routed.scene.state != scene.state ==> {
                ||| scene.state == GameState::WaitingInput && event.is_confirm()
                    && routed.scene.state == GameState::Initializing
                ||| scene.state == GameState::Running && event.is_pause() && routed.scene.state
                    == GameState::Paused
                ||| scene.state == GameState::Paused && event.is_pause() && routed.scene.state
                    == GameState::Running
            }
            &&& routed.keys != keys ==> playing && event.movement().is_some()
            &&& routed.flag != flag ==> playing && event.is_quit() && routed.flag == Some(
                GameStateFlag::Defeat,
            )
            &&& routed.command.is_some() ==> scene.state == GameState::GameOver
                && event.is_leave() && routed.command == Some(Command::CloseWindow)
            &&& routed.scene.cycle_timer == scene.cycle_timer
            &&& routed.scene.cycle_counter == scene.cycle_counter
            &&& routed.scene.config == scene.config
            &&& scene.wf() ==> routed.scene.wf()
        }),
{
}

/// An event that is neither the confirm, pause or quit input, nor a
/// movement key going down or up, nor an input that leaves, changes
/// nothing in any state.
pub proof fn lemma_event_ignored(
    scene: SceneView,
    keys: Set<u32>,
    flag: Option<GameStateFlag>,
    event: InputEvent,
)
    requires
        !event.is_confirm(),
        !event.is_pause(),
        !event.is_quit(),
        !event.is_leave(),
        event.movement().is_none(),
    ensures
        scene.event(keys, flag, event).scene == scene.idle(),
        scene.event(keys, flag, event).keys == keys,
        scene.event(keys, flag, event).flag == flag,
        scene.event(keys, flag, event).command.is_none(),
{
}

/// The aliases of a direction are one key to the pressed keys: after any
/// of them went down the direction's bit is set, whichever other keys are
/// held, and it stays set until any of them goes up, not needing the one
/// that went down. The bits of the other directions are not touched.
pub proof fn lemma_aliases(
    scene: SceneView,
    keys: Set<u32>,
    flag: Option<GameStateFlag>,
    down: InputEvent,
    up: InputEvent,
    key: KeyboardKeys,
)
    requires
        scene.state == GameState::Running || scene.state == GameState::Paused,
        down.movement() == Some(Movement::Press(key)),
        up.movement() == Some(Movement::Release(key)),
    ensures
        ({
            let pressed = scene.event(keys, flag, down);
            let released = pressed.scene.event(pressed.keys, pressed.flag, up);
            &&& pressed.keys == keys.insert(key.index())
            &&& pressed.keys.contains(key.index())
            &&& released.keys == keys.remove(key.index())
            &&& !released.keys.contains(key.index())
            &&& forall|other: KeyboardKeys|
                other != key ==> (released.keys.contains(#[trigger] other.index())
                    <==> keys.contains(other.index()))
            &&& pressed.scene.state == scene.state
            &&& released.scene.state == scene.state
        }),
{
    let pressed = scene.event(keys, flag, down);
    let released = pressed.scene.event(pressed.keys, pressed.flag, up);
    assert(released.keys =~= keys.remove(key.index()));
}

/// Each of the four directions has three aliases: an arrow key, a letter
/// key and a button of the d-pad.
pub proof fn lemma_alias_table(state: ButtonState)
    ensures
        InputEvent::Key(crate::input::Key::Up, state).direction() == Some(KeyboardKeys::KeyUp),
        InputEvent::Key(crate::input::Key::W, state).direction() == Some(KeyboardKeys::KeyUp),
        InputEvent::GamepadButton(crate::input::GamepadButton::DpadUp, state).direction()
            == Some(KeyboardKeys::KeyUp),
        InputEvent::Key(crate::input::Key::Left, state).direction() == Some(
            KeyboardKeys::KeyLeft,
        ),
        InputEvent::Key(crate::input::Key::A, state).direction() == Some(KeyboardKeys::KeyLeft),
        InputEvent::GamepadButton(crate::input::GamepadButton::DpadLeft, state).direction()
            == Some(KeyboardKeys::KeyLeft),
        InputEvent::Key(crate::input::Key::Right, state).direction() == Some(
            KeyboardKeys::KeyRight,
        ),
        InputEvent::Key(crate::input::Key::D, state).direction() == Some(KeyboardKeys::KeyRight),
        InputEvent::GamepadButton(crate::input::GamepadButton::DpadRight, state).direction()
            == Some(KeyboardKeys::KeyRight),
        InputEvent::Key(crate::input::Key::Down, state).direction() == Some(
            KeyboardKeys::KeyDown,
        ),
        InputEvent::Key(crate::input::Key::S, state).direction() == Some(KeyboardKeys::KeyDown),
        InputEvent::GamepadButton(crate::input::GamepadButton::DpadDown, state).direction()
            == Some(KeyboardKeys::KeyDown),
{
}

/// No call ever breaks a session: an event, the start of an update or of a
/// draw, and every resumption keep it well-formed and leave its
/// configuration alone. So on a valid configuration every call can start
/// and go on, whatever came before.
pub proof fn lemma_steps_keep_wf(
    scene: SceneView,
    keys: Set<u32>,
    flag: Option<GameStateFlag>,
    event: InputEvent,
    reply: Reply,
)
    requires
        scene.wf(),
    ensures
        scene.event(keys, flag, event).scene.wf(),
        scene.update().0.wf(),
        scene.draw().0.wf(),
        scene.resume(reply).0.wf(),
        scene.event(keys, flag, event).scene.config == scene.config,
        scene.update().0.config == scene.config,
        scene.draw().0.config == scene.config,
        scene.resume(reply).0.config == scene.config,
        scene.config.valid() ==> scene.update_defined() && scene.resume_defined(),
{
    lemma_tick(scene);
    if scene.config.valid() {
        crate::model::lemma_steady(scene);
    }
}

/// The count of spawns never exceeds the spawns of the session, and no
/// call ever lowers it.
pub proof fn lemma_counter_monotone(
    scene: SceneView,
    keys: Set<u32>,
    flag: Option<GameStateFlag>,
    event: InputEvent,
    reply: Reply,
)
    requires
        scene.wf(),
    ensures
        scene.cycle_counter <= scene.config.boss_cycle,
        scene.event(keys, flag, event).scene.cycle_counter == scene.cycle_counter,
        scene.draw().0.cycle_counter == scene.cycle_counter,
        scene.cycle_counter <= scene.update().0.cycle_counter <= scene.config.boss_cycle,
        scene.cycle_counter <= scene.resume(reply).0.cycle_counter <= scene.config.boss_cycle,
        scene.update().0.cycle_timer >= scene.cycle_timer,
        scene.resume(reply).0.cycle_timer >= scene.cycle_timer,
{
    lemma_tick(scene);
}

/// The scheduler in closed form, on a valid configuration. After `n` ticks
/// it has counted `n` frames more, but none past the last spawn, where it
/// rests; and it has asked for one spawn per full interval of its frames.
pub proof fn lemma_ticked(scene: SceneView, n: nat)
    requires
        scene.wf(),
        scene.config.valid(),
    ensures
        scene.ticked(n).wf(),
        scene.ticked(n).cycle_timer == if scene.cycle_timer + n <= scene.last_spawn() {
            (scene.cycle_timer + n) as int
        } else {
            scene.last_spawn()
        },
        scene.ticked(n).cycle_counter == scene.ticked(n).full_intervals(),
        scene.ticked(n).state == scene.state,
        scene.ticked(n).config == scene.config,
    decreases n,
{
    if n > 0 {
        let before = scene.ticked((n - 1) as nat);
        lemma_ticked(scene, (n - 1) as nat);
        lemma_tick(before);
        lemma_resting(before);
    }
}

/// On a valid configuration the scheduler has spawns left exactly until it
/// has counted the frame of the last spawn.
pub proof fn lemma_resting(scene: SceneView)
    requires
        scene.wf(),
        scene.config.valid(),
    ensures
        scene.scheduling() <==> scene.cycle_timer < scene.last_spawn(),
{
    let interval = scene.config.new_body_cycle as int;
    let spawns = scene.config.boss_cycle as int;
    let timer = scene.cycle_timer as int;
    if interval == 0 {
        assert(spawns * interval == 0) by (nonlinear_arith)
            requires
                interval == 0,
        ;
        return ;
    }
    vstd::arithmetic::div_mod::lemma_fundamental_div_mod(timer, interval);
    vstd::arithmetic::div_mod::lemma_mod_bound(timer, interval);
    if timer == spawns * interval {
        vstd::arithmetic::div_mod::lemma_div_multiples_vanish(spawns, interval);
        assert(spawns * interval == interval * spawns) by (nonlinear_arith);
    } else if timer / interval >= spawns {
        assert(interval * (timer / interval) >= spawns * interval) by (nonlinear_arith)
            requires
                timer / interval >= spawns,
                interval > 0,
        ;
    }
}

/// On a valid configuration a tick asks for a spawn exactly when the frames
/// it has then counted are a multiple of the interval: for the boss, with
/// its track, on the frame of the last spawn, and for a routine enemy on
/// every one before.
pub proof fn lemma_spawn_rhythm(scene: SceneView)
    requires
        scene.wf(),
        scene.config.valid(),
        scene.scheduling(),
    ensures
        ({
            let (after, spawn) = scene.tick();
            let due = after.cycle_timer % (scene.config.new_body_cycle as nat) == 0;
            &&& after.cycle_timer == scene.cycle_timer + 1
            &&& !due ==> spawn == Seq::<Command>::empty()
            &&& due && after.cycle_timer < scene.last_spawn() ==> spawn == seq![
                Command::CreateEntity,
            ]
            &&& due && after.cycle_timer == scene.last_spawn() ==> spawn == seq![
                Command::PlayMusic(crate::command::Track::Boss),
                Command::CreateBoss,
            ]
        }),
{
    lemma_tick(scene);
    lemma_resting(scene.tick().0);
}

/// Resolving an outcome leaves the store with exactly one entity, the
/// background of the outcome, whatever the store held.
pub proof fn lemma_resolution_store(flag: GameStateFlag, store: Seq<Actor>)
    ensures
        all_settled(resolution(flag)),
        enact(resolution(flag), store) == seq![Actor::Background(outcome_backdrop(flag))],
{
    let script = resolution(flag);
    let two = seq![Command::DeleteAll, Command::CreateBackground(outcome_backdrop(flag))];
    let one = seq![Command::DeleteAll];
    assert(script.drop_last() =~= two);
    assert(two.drop_last() =~= one);
    assert(one.drop_last() =~= Seq::<Command>::empty());
    reveal_with_fuel(enact, 4);
    assert(enact(one, store) =~= Seq::<Actor>::empty());
    assert(enact(two, store) =~= seq![Actor::Background(outcome_backdrop(flag))]);
    assert(enact(script, store) =~= seq![Actor::Background(outcome_backdrop(flag))]);
}

/// Resolving an outcome a second time adds nothing: the store again holds
/// one entity, the background of the outcome resolved last.
pub proof fn lemma_resolution_twice(first: GameStateFlag, second: GameStateFlag, store: Seq<Actor>)
    ensures
        enact(resolution(second), enact(resolution(first), store)) == seq![
            Actor::Background(outcome_backdrop(second)),
        ],
        first == second ==> enact(resolution(second), enact(resolution(first), store)) == enact(
            resolution(first),
            store,
        ),
{
    lemma_resolution_store(first, store);
    lemma_resolution_store(second, enact(resolution(first), store));
}

/// A decided outcome ends the session. When the flag read after the
/// systems is set, the state becomes `GameOver` at once, and the call
/// issues the wipe, the background and the track of the outcome, and then
/// ends: no upkeep is done in it.
pub proof fn lemma_outcome_run(
    scene: SceneView,
    flag: GameStateFlag,
    first: Reply,
    second: Reply,
    third: Reply,
)
    requires
        scene.pending.len() == 0,
        scene.stage == Stage::Outcome,
    ensures
        ({
            let a = scene.resume(Reply::Flag(Some(flag)));
            let b = a.0.resume(first);
            let c = b.0.resume(second);
            let d = c.0.resume(third);
            &&& a.0.state == GameState::GameOver
            &&& seq![a.1.unwrap(), b.1.unwrap(), c.1.unwrap()] == resolution(flag)
            &&& a.1.is_some() && b.1.is_some() && c.1.is_some()
            &&& d.1.is_none()
            &&& d.0 == (SceneView { state: GameState::GameOver, ..scene.idle() })
        }),
{
    let a = scene.resume(Reply::Flag(Some(flag)));
    let script = resolution(flag);
    assert(a.0.pending =~= seq![script[1], script[2]]);
    let b = a.0.resume(first);
    assert(b.0.pending =~= seq![script[2]]);
    let c = b.0.resume(second);
    assert(c.0.pending =~= Seq::<Command>::empty());
    let d = c.0.resume(third);
    assert(seq![a.1.unwrap(), b.1.unwrap(), c.1.unwrap()] =~= script);
}

/// `GameOver` is final: no event and no step of any call leads out of it.
/// An update of a finished session does the upkeep and nothing else,
/// whatever the outcome flag holds, so an outcome is resolved once.
pub proof fn lemma_game_over_is_final(
    scene: SceneView,
    keys: Set<u32>,
    flag: Option<GameStateFlag>,
    event: InputEvent,
    first: Reply,
    second: Reply,
)
    requires
        scene.state == GameState::GameOver,
    ensures
        scene.event(keys, flag, event).scene.state == GameState::GameOver,
        scene.draw().0.state == GameState::GameOver,
        scene.resume(first).0.state == GameState::GameOver,
        ({
            let a = scene.update();
            let b = a.0.resume(first);
            let c = b.0.resume(second);
            &&& a.1 == Some(Command::UpdateMusic)
            &&& b.1 == Some(Command::Maintain)
            &&& c.1.is_none()
            &&& c.0 == scene.idle()
        }),
{
    let a = scene.update();
    assert(a.0.pending =~= seq![Command::Maintain]);
    let b = a.0.resume(first);
    assert(b.0.pending =~= Seq::<Command>::empty());
}

/// The asset gate of a draw call. A session that initializes clears the
/// window and polls the atlas; it polls the font only if the atlas is
/// ready; and it starts to run in this call exactly if both are ready.
/// While one of them is not, the call ends there, nothing is drawn, and the
/// state stays.
pub proof fn lemma_asset_gate(scene: SceneView, atlas: bool, font: bool)
    requires
        scene.state == GameState::Initializing,
    ensures
        ({
            let a = scene.draw();
            let b = a.0.resume(Reply::Done);
            let c = b.0.resume(Reply::Ready(atlas));
            let d = c.0.resume(Reply::Ready(font));
            &&& a.1 == Some(Command::Clear)
            &&& b.1 == Some(Command::PollAtlas)
            &&& a.0.state == GameState::Initializing
            &&& b.0.state == GameState::Initializing
            &&& c.0.state == GameState::Initializing
            &&& !atlas ==> c.1.is_none() && c.0 == scene.idle()
            &&& atlas ==> c.1 == Some(Command::PollFont)
            &&& atlas && !font ==> d.1.is_none() && d.0 == scene.idle()
            &&& atlas && font ==> d.1 == Some(Command::Render) && d.0.state
                == GameState::Running
        }),
{
    let a = scene.draw();
    assert(a.0.pending =~= seq![Command::PollAtlas]);
    let b = a.0.resume(Reply::Done);
    assert(b.0.pending =~= Seq::<Command>::empty());
    let c = b.0.resume(Reply::Ready(atlas));
    if atlas {
        assert(c.0.pending =~= Seq::<Command>::empty());
    }
}

/// A session that waits for input is never started by drawing: with both
/// assets ready the draw call shows the prompt and ends, and the session
/// still waits.
pub proof fn lemma_prompt(scene: SceneView, last: Reply)
    requires
        scene.state == GameState::WaitingInput,
    ensures
        ({
            let a = scene.draw();
            let b = a.0.resume(Reply::Done);
            let c = b.0.resume(Reply::Ready(true));
            let d = c.0.resume(Reply::Ready(true));
            let e = d.0.resume(last);
            &&& d.1 == Some(Command::DrawPrompt)
            &&& e.1.is_none()
            &&& e.0 == scene.idle()
        }),
{
    let a = scene.draw();
    assert(a.0.pending =~= seq![Command::PollAtlas]);
    let b = a.0.resume(Reply::Done);
    assert(b.0.pending =~= Seq::<Command>::empty());
    let c = b.0.resume(Reply::Ready(true));
    assert(c.0.pending =~= Seq::<Command>::empty());
    let d = c.0.resume(Reply::Ready(true));
    assert(d.0.pending =~= Seq::<Command>::empty());
}

/// The state of a session changes in the course of a call at two places
/// only: a draw call starts an initializing session once the font, polled
/// after the atlas, is ready; and an update call ends the session when the
/// flag it reads is set. A call waits for the hero only while the session
/// runs.
pub proof fn lemma_state_changes(scene: SceneView, reply: Reply)
    requires
        scene.wf(),
    ensures
        scene.update().0.state == scene.state,
        scene.draw().0.state == scene.state,
        scene.resume(reply).0.state != scene.state ==> {
            ||| scene.pending.len() == 0 && scene.stage == Stage::Font && reply == Reply::Ready(
                true,
            ) && scene.state == GameState::Initializing && scene.resume(reply).0.state
                == GameState::Running
            ||| scene.pending.len() == 0 && scene.stage == Stage::Outcome
                && (reply matches Reply::Flag(Some(_))) && scene.resume(reply).0.state
                == GameState::GameOver
        },
        scene.awaits_hero() ==> scene.state == GameState::Running,
{
    lemma_tick(scene);
}

/// A new session's store holds one background, the four labels, and
/// exactly one hero.
pub proof fn lemma_cast_store()
    ensures
        all_settled(cast()),
        enact(cast(), Seq::empty()) == seq![
            Actor::Background(Backdrop::Main),
            Actor::Label(label_of(LabelVariable::FramesPerSecond)),
            Actor::Label(label_of(LabelVariable::HeroLives)),
            Actor::Label(label_of(LabelVariable::Score)),
            Actor::Label(label_of(LabelVariable::EngineVersion)),
            Actor::Hero,
        ],
{
    let s6 = cast();
    let s5 = s6.drop_last();
    let s4 = s5.drop_last();
    let s3 = s4.drop_last();
    let s2 = s3.drop_last();
    let s1 = s2.drop_last();
    let none = Seq::<Actor>::empty();
    assert(s1.drop_last() =~= Seq::<Command>::empty());
    reveal_with_fuel(enact, 2);
    assert(enact(s1, none) =~= seq![Actor::Background(Backdrop::Main)]);
    assert(enact(s2, none) =~= enact(s1, none).push(
        Actor::Label(label_of(LabelVariable::FramesPerSecond)),
    ));
    assert(enact(s3, none) =~= enact(s2, none).push(
        Actor::Label(label_of(LabelVariable::HeroLives)),
    ));
    assert(enact(s4, none) =~= enact(s3, none).push(Actor::Label(label_of(LabelVariable::Score))));
    assert(enact(s5, none) =~= enact(s4, none).push(
        Actor::Label(label_of(LabelVariable::EngineVersion)),
    ));
    assert(enact(s6, none) =~= enact(s5, none).push(Actor::Hero));
}

/// The commands of a script are issued one after the other, whatever the
/// replies: a call with commands pending issues them all, and goes on from
/// the last of them as a call with nothing pending.
pub proof fn lemma_drain(
    scene: SceneView,
    issued: Command,
    answer: spec_fn(Command) -> Reply,
    n: nat,
)
    requires
        scene.pending.len() > 0,
        n >= scene.pending.len(),
    ensures
        ({
            let emptied = SceneView { pending: Seq::empty(), ..scene };
            let (end, rest) = emptied.run(
                Some(scene.pending.last()),
                answer,
                (n - scene.pending.len()) as nat,
            );
            scene.run(Some(issued), answer, n) == (
                end,
                seq![issued] + scene.pending.drop_last() + rest,
            )
        }),
    decreases scene.pending.len(),
{
    let pending = scene.pending;
    let emptied = SceneView { pending: Seq::empty(), ..scene };
    let next = SceneView { pending: pending.drop_first(), ..scene };
    let (end, rest) = emptied.run(Some(pending.last()), answer, (n - pending.len()) as nat);
    assert(scene.resume(answer(issued)) == (next, Some(pending[0])));
    if pending.len() == 1 {
        assert(next == emptied) by {
            assert(pending.drop_first() =~= Seq::<Command>::empty());
        }
        assert(seq![issued] + pending.drop_last() + rest =~= seq![issued] + rest);
    } else {
        lemma_drain(next, pending[0], answer, (n - 1) as nat);
        assert(SceneView { pending: Seq::empty(), ..next } == emptied);
        assert(next.pending.last() == pending.last());
        assert(seq![issued] + (seq![pending[0]] + next.pending.drop_last() + rest) =~= seq![issued]
            + pending.drop_last() + rest);
    }
}

/// A call that has issued its last command, with nothing to follow, ends
/// on the reply.
pub proof fn lemma_last(
    scene: SceneView,
    issued: Command,
    answer: spec_fn(Command) -> Reply,
    n: nat,
)
    requires
        scene.pending.len() == 0,
        scene.stage == Stage::End,
        n >= 1,
    ensures
        scene.run(Some(issued), answer, n) == (scene.idle(), seq![issued]),
{
    reveal_with_fuel(SceneView::run, 2);
    assert(seq![issued] + Seq::<Command>::empty() =~= seq![issued]);
}

/// A script that is taken up with nothing to follow it is issued
/// whole, and then the call is over.
pub proof fn lemma_script(
    scene: SceneView,
    script: Seq<Command>,
    answer: spec_fn(Command) -> Reply,
    n: nat,
)
    requires
        script.len() > 0,
        n >= script.len(),
    ensures
        ({
            let (start, first) = scene.begin(script, Stage::End);
            start.run(first, answer, n) == (scene.idle(), script)
        }),
{
    let (start, first) = scene.begin(script, Stage::End);
    let emptied = SceneView { pending: Seq::empty(), ..start };
    assert(emptied == SceneView { stage: Stage::End, ..scene.idle() });
    if script.len() == 1 {
        assert(start.pending =~= Seq::<Command>::empty());
        lemma_last(start, script[0], answer, n);
        assert(seq![script[0]] =~= script);
    } else {
        lemma_drain(start, script[0], answer, n);
        lemma_last(emptied, script.last(), answer, (n - start.pending.len()) as nat);
        assert(seq![script[0]] + start.pending.drop_last() + seq![script.last()] =~= script);
    }
}

/// The whole of a running frame's update, when every command succeeds.
///
/// If this is the first frame that the scheduler counts, the normal track
/// is asked for before anything else. Then the scheduler ticks and its
/// spawn is asked for, the six systems run in their order, and the outcome
/// flag is read. An undecided session goes on with the upkeep and keeps
/// running. A decided one is over: the store is wiped, the background of
/// the outcome put up, its track played, and nothing more is done.
pub proof fn lemma_running_update(scene: SceneView, answer: spec_fn(Command) -> Reply)
    requires
        scene.wf(),
        scene.state == GameState::Running,
    ensures
        ({
            let (start, first) = scene.update();
            let (end, issued) = start.run(first, answer, 16);
            let music = if scene.scheduling() && scene.cycle_timer == 0 {
                seq![Command::PlayMusic(crate::command::Track::Normal)]
            } else {
                Seq::empty()
            };
            let (ticked, spawn) = scene.tick();
            let flag = match answer(Command::ReadFlag) {
                Reply::Flag(flag) => flag,
                _ => None,
            };
            &&& issued == music + spawn + crate::command::systems() + seq![Command::ReadFlag] + (
            match flag {
                Some(f) => resolution(f),
                None => upkeep(),
            })
            &&& end == (SceneView {
                state: if flag.is_some() {
                    GameState::GameOver
                } else {
                    GameState::Running
                },
                ..ticked.idle()
            })
        }),
{
    let (start, first) = scene.update();
    let fresh = scene.scheduling() && scene.cycle_timer == 0;
    let (ticked, spawn) = scene.tick();
    let script = spawn + crate::command::systems() + seq![Command::ReadFlag];
    let flag = match answer(Command::ReadFlag) {
        Reply::Flag(flag) => flag,
        _ => None,
    };
    let closing = match flag {
        Some(f) => resolution(f),
        None => upkeep(),
    };
    lemma_tick(scene);
    // The pipeline, from its first command on.
    let piped = if fresh {
        start.resume(answer(first.unwrap()))
    } else {
        (start, first)
    };
    let n: nat = if fresh {
        15
    } else {
        16
    };
    assert(piped.1 == Some(script[0]));
    assert(piped.0 == SceneView { pending: script.drop_first(), stage: Stage::Outcome, ..ticked });
    assert(script.len() == spawn.len() + 7);
    assert(script.last() == Command::ReadFlag);
    lemma_drain(piped.0, script[0], answer, n);
    let reading = SceneView { pending: Seq::empty(), ..piped.0 };
    let m: nat = (n - piped.0.pending.len()) as nat;
    // The reply to the read decides how the call ends.
    let decided = SceneView {
        state: if flag.is_some() {
            GameState::GameOver
        } else {
            GameState::Running
        },
        ..reading
    };
    assert(reading.resume(answer(Command::ReadFlag)) == decided.begin(closing, Stage::End));
    lemma_script(decided, closing, answer, (m - 1) as nat);
    let rest = decided.begin(closing, Stage::End).0.run(
        decided.begin(closing, Stage::End).1,
        answer,
        (m - 1) as nat,
    );
    assert(rest == (decided.idle(), closing));
    assert(reading.run(Some(Command::ReadFlag), answer, m) == (
        decided.idle(),
        seq![Command::ReadFlag] + closing,
    ));
    let piped_run = piped.0.run(piped.1, answer, n);
    assert(piped_run.1 =~= script + closing) by {
        assert(seq![script[0]] + script.drop_first().drop_last() + (seq![Command::ReadFlag]
            + closing) =~= script + closing);
    }
    assert(piped_run.0 == decided.idle());
    if fresh {
        assert(start.run(first, answer, 16) == (piped_run.0, seq![first.unwrap()] + piped_run.1));
        assert(seq![first.unwrap()] + (script + closing) =~= seq![first.unwrap()] + spawn
            + crate::command::systems() + seq![Command::ReadFlag] + closing);
    } else {
        assert(Seq::<Command>::empty() + spawn + crate::command::systems() + seq![
            Command::ReadFlag,
        ] + closing =~= script + closing);
    }
}

/// What a draw call paints in `state` once the assets are loaded.
pub open spec fn painted(state: GameState) -> Seq<Command> {
    match state {
        GameState::WaitingInput => seq![Command::DrawPrompt],
        GameState::Initializing | GameState::Running => seq![
            Command::Render,
            Command::ReadHero,
            Command::RenderLabels,
            Command::Maintain,
        ],
        GameState::Paused => seq![Command::Render, Command::RenderLabels, Command::Maintain],
        GameState::GameOver => seq![Command::Render, Command::Maintain],
    }
}

/// The whole of a draw call, when every command succeeds.
///
/// The window is cleared. Until the session runs, the atlas is polled, and
/// the font if the atlas is ready; once it has run, both count as loaded
/// unasked. While an asset is missing the call ends there and the state
/// stays. With both loaded, a waiting session shows its prompt and keeps
/// waiting; an initializing one starts to run and is painted as a running
/// one; and the others are painted as they are.
pub proof fn lemma_draw(scene: SceneView, answer: spec_fn(Command) -> Reply)
    requires
        scene.wf(),
    ensures
        ({
            let (start, first) = scene.draw();
            let (end, issued) = start.run(first, answer, 8);
            let atlas = !scene.gated() || answer(Command::PollAtlas) == Reply::Ready(true);
            let loaded = atlas && (!scene.gated() || answer(Command::PollFont) == Reply::Ready(
                true,
            ));
            let polls = if !scene.gated() {
                Seq::empty()
            } else if atlas {
                seq![Command::PollAtlas, Command::PollFont]
            } else {
                seq![Command::PollAtlas]
            };
            let state = if loaded && scene.state == GameState::Initializing {
                GameState::Running
            } else {
                scene.state
            };
            &&& issued == seq![Command::Clear] + polls + (if loaded {
                painted(state)
            } else {
                Seq::empty()
            })
            &&& end == (SceneView { state, ..scene.idle() })
        }),
{
    let (start, first) = scene.draw();
    let atlas = !scene.gated() || answer(Command::PollAtlas) == Reply::Ready(true);
    let loaded = atlas && (!scene.gated() || answer(Command::PollFont) == Reply::Ready(true));
    let state = if loaded && scene.state == GameState::Initializing {
        GameState::Running
    } else {
        scene.state
    };
    let decided = SceneView { state, ..scene };
    let (script, stage) = crate::model::painting(state);
    let tail = seq![Command::RenderLabels, Command::Maintain];
    // The frame itself, from the first of its commands on.
    let frame = decided.begin(script, stage);
    let frame_run = frame.0.run(frame.1, answer, 5);
    assert(frame_run == (decided.idle(), painted(state))) by {
        if stage == Stage::End {
            lemma_script(decided, script, answer, 5);
            assert(script =~= painted(state));
        } else {
            lemma_drain(frame.0, Command::Render, answer, 5);
            let asked = SceneView { pending: Seq::empty(), ..frame.0 };
            assert(frame.0.pending =~= seq![Command::ReadHero]);
            assert(asked.resume(answer(Command::ReadHero)) == asked.begin(tail, Stage::End));
            lemma_script(asked, tail, answer, 3);
            assert(asked.run(Some(Command::ReadHero), answer, 4) == (
                asked.idle(),
                seq![Command::ReadHero] + tail,
            ));
            assert(seq![Command::Render] + frame.0.pending.drop_last() + (seq![
                Command::ReadHero,
            ] + tail) =~= painted(state));
        }
    }
    if !scene.gated() {
        assert(seq![Command::Clear] + script =~= seq![Command::Clear] + Seq::<Command>::empty()
            + script);
        let whole = seq![Command::Clear] + script;
        if stage == Stage::End {
            lemma_script(scene, whole, answer, 8);
            assert(whole =~= seq![Command::Clear] + Seq::<Command>::empty() + painted(state));
        } else {
            lemma_drain(start, Command::Clear, answer, 8);
            let asked = SceneView { pending: Seq::empty(), ..start };
            assert(start.pending =~= script);
            assert(asked.resume(answer(Command::ReadHero)) == asked.begin(tail, Stage::End));
            lemma_script(asked, tail, answer, 5);
            assert(asked.run(Some(Command::ReadHero), answer, 6) == (
                asked.idle(),
                seq![Command::ReadHero] + tail,
            ));
            assert(seq![Command::Clear] + start.pending.drop_last() + (seq![Command::ReadHero]
                + tail) =~= seq![Command::Clear] + Seq::<Command>::empty() + painted(state));
        }
    } else {
        assert(start.pending =~= seq![Command::PollAtlas]);
        lemma_drain(start, Command::Clear, answer, 8);
        let polled = SceneView { pending: Seq::empty(), ..start };
        assert(seq![Command::Clear] + start.pending.drop_last() =~= seq![Command::Clear]);
        if !atlas {
            assert(polled.run(Some(Command::PollAtlas), answer, 7) == (
                scene.idle(),
                seq![Command::PollAtlas],
            )) by {
                reveal_with_fuel(SceneView::run, 2);
                assert(seq![Command::PollAtlas] + Seq::<Command>::empty() =~= seq![
                    Command::PollAtlas,
                ]);
            }
            assert(seq![Command::Clear] + seq![Command::PollAtlas] =~= seq![Command::Clear] + seq![
                Command::PollAtlas,
            ] + Seq::<Command>::empty());
        } else {
            let asked = polled.resume(answer(Command::PollAtlas));
            assert(asked.1 == Some(Command::PollFont));
            assert(asked.0.pending =~= Seq::<Command>::empty());
            let gate = asked.0.resume(answer(Command::PollFont));
            if loaded {
                assert(gate == frame);
                assert(asked.0.run(asked.1, answer, 6) == (
                    decided.idle(),
                    seq![Command::PollFont] + painted(state),
                )) by {
                    reveal_with_fuel(SceneView::run, 2);
                }
            } else {
                assert(gate == (scene.idle(), None::<Command>));
                assert(asked.0.run(asked.1, answer, 6) == (scene.idle(), seq![Command::PollFont]))
                    by {
                    reveal_with_fuel(SceneView::run, 2);
                    assert(seq![Command::PollFont] + Seq::<Command>::empty() =~= seq![
                        Command::PollFont,
                    ]);
                }
            }
            let rest = asked.0.run(asked.1, answer, 6).1;
            assert(polled.run(Some(Command::PollAtlas), answer, 7) == (
                asked.0.run(asked.1, answer, 6).0,
                seq![Command::PollAtlas] + rest,
            ));
            assert(seq![Command::Clear] + (seq![Command::PollAtlas] + rest) =~= seq![
                Command::Clear,
            ] + seq![Command::PollAtlas, Command::PollFont] + (if loaded {
                painted(state)
            } else {
                Seq::<Command>::empty()
            }));
        }
    }
}

} // verus!

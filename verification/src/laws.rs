//! What holds of every build, every dispatch and every direct playback,
//! whatever the backend answers.

use crate::backend::Call;
use crate::error::OxAgAudioToolError;
use crate::event::{spec_classify, AmbienceKey, Category, ClassifiedEvent, Event};
use crate::loader::{build, filled, first_issue, load_next};
use crate::model::{Script, ToolModel};
use crate::sound_config::OxAgSoundConfig;
use crate::sounds::{SoundKey, SoundsModel};
use vstd::prelude::*;

verus! {

/// A dispatch never changes the registry, and makes three backend calls at
/// most.
pub proof fn law_dispatch_keeps_registry<A, H, E>(
    tool: ToolModel<A, H>,
    event: Event,
    script: Script<A, H, E>,
)
    ensures
        tool.dispatch(event, script).tool.sounds == tool.sounds,
        tool.dispatch(event, script).calls.len() <= 3,
{
    reveal_with_fuel(ToolModel::run, 4);
}

/// A dispatch changes at most the category that its event reports.
pub proof fn law_other_category_is_kept<A, H, E>(
    tool: ToolModel<A, H>,
    event: Event,
    key: AmbienceKey,
    script: Script<A, H, E>,
)
    requires
        spec_classify(event) == ClassifiedEvent::Ambience(key),
    ensures
        key is Tile ==> tool.dispatch(event, script).tool.weather == tool.weather,
        key is Weather ==> tool.dispatch(event, script).tool.tile == tool.tile,
{
    reveal_with_fuel(ToolModel::run, 4);
}

/// No dispatch lets go of a playback without stopping it: a handle that a
/// category held before is held by it afterwards, under the same key, unless
/// the dispatch asked to stop it. A dispatch asks for one stop at most.
pub proof fn law_handles_are_stopped_not_dropped<A, H, E>(
    tool: ToolModel<A, H>,
    event: Event,
    category: Category,
    script: Script<A, H, E>,
)
    ensures
        ({
            let run = tool.dispatch(event, script);
            &&& tool.active_handle(category) matches Some(handle) ==> {
                ||| run.calls.contains(Call::Stop(handle))
                ||| (run.tool.active_handle(category) == Some(handle) && run.tool.active_key(
                    category,
                ) == tool.active_key(category))
            }
            &&& forall|i: int, j: int|
                0 <= i < run.calls.len() && 0 <= j < run.calls.len() && run.calls[i] is Stop
                    && run.calls[j] is Stop ==> i == j
        }),
{
    reveal_with_fuel(ToolModel::run, 4);
    let run = tool.dispatch(event, script);
    if let Some(handle) = tool.active_handle(category) {
        if !(run.tool.active_handle(category) == Some(handle) && run.tool.active_key(category)
            == tool.active_key(category)) {
            let stop = Call::<A, H>::Stop(handle);
            assert(run.calls.len() > 0);
            assert(run.calls[0] == stop || (run.calls.len() > 1 && run.calls[1] == stop));
        }
    }
}

/// An event that is not classified as ambience leaves both categories as
/// they were, whether or not its own sound could be played.
pub proof fn law_one_shot_keeps_ambience<A, H, E>(
    tool: ToolModel<A, H>,
    event: Event,
    script: Script<A, H, E>,
)
    requires
        spec_classify(event) is OneShot,
    ensures
        tool.dispatch(event, script).tool == tool,
{
    reveal_with_fuel(ToolModel::run, 4);
}

/// Of two dispatches in a row that report the same ambience key, the second
/// changes nothing and asks nothing of the backend for the ambience: it makes
/// no call at all, unless the kind of its event has a sound of its own, which
/// is then played and is the only call. This holds where the first dispatch
/// came to a good end.
pub proof fn law_repeated_key_is_silent<A, H, E>(
    tool: ToolModel<A, H>,
    first: Event,
    second: Event,
    key: AmbienceKey,
    first_script: Script<A, H, E>,
    second_script: Script<A, H, E>,
)
    requires
        spec_classify(first) == ClassifiedEvent::Ambience(key),
        spec_classify(second) == ClassifiedEvent::Ambience(key),
        tool.dispatch(first, first_script).result == Some(Ok::<(), OxAgAudioToolError<E>>(())),
    ensures
        ({
            let before = tool.dispatch(first, first_script).tool;
            let again = before.dispatch(second, second_script);
            &&& again.tool == before
            &&& again.calls == match tool.event_sound(second) {
                Some(asset) => seq![Call::<A, H>::Play(asset)],
                None => Seq::<Call<A, H>>::empty(),
            }
            &&& tool.event_sound(second) is None ==> again.result == Some(
                Ok::<(), OxAgAudioToolError<E>>(()),
            )
        }),
{
    reveal_with_fuel(ToolModel::run, 4);
    let before = tool.dispatch(first, first_script).tool;
    let again = before.dispatch(second, second_script);
    assert(before.sounds == tool.sounds);
    assert(again.calls =~= match tool.event_sound(second) {
        Some(asset) => seq![Call::<A, H>::Play(asset)],
        None => Seq::<Call<A, H>>::empty(),
    });
}

/// Of two dispatches in a row that report different keys of one category,
/// both with a sound, the second makes exactly two backend calls: it stops
/// the playback that the first started, then plays the sound of the new key.
/// If that playback starts, the category plays under the new key with the
/// new handle; if it does not, the category is empty and the backend's error
/// is the result. This holds where the first dispatch came to a good end and
/// the kind of the second event has no sound of its own.
pub proof fn law_change_stops_then_plays<A, H, E>(
    tool: ToolModel<A, H>,
    first: Event,
    second: Event,
    old_key: AmbienceKey,
    new_key: AmbienceKey,
    first_script: Script<A, H, E>,
    second_script: Script<A, H, E>,
)
    requires
        spec_classify(first) == ClassifiedEvent::Ambience(old_key),
        spec_classify(second) == ClassifiedEvent::Ambience(new_key),
        old_key.spec_category() == new_key.spec_category(),
        old_key != new_key,
        tool.ambience_sound(old_key) is Some,
        tool.ambience_sound(new_key) is Some,
        tool.dispatch(first, first_script).result == Some(Ok::<(), OxAgAudioToolError<E>>(())),
        tool.event_sound(second) is None,
        second_script.plays.len() > 0,
    ensures
        ({
            let category = new_key.spec_category();
            let before = tool.dispatch(first, first_script).tool;
            let after = before.dispatch(second, second_script);
            &&& before.active_key(category) == Some(old_key)
            &&& before.active_handle(category) is Some
            &&& after.calls == seq![
                Call::Stop(before.active_handle(category)->0),
                Call::Play(tool.ambience_sound(new_key)->0),
            ]
            &&& match second_script.plays[0] {
                Ok(handle) => {
                    &&& after.tool == before.playing(new_key, handle)
                    &&& after.tool.active_key(category) == Some(new_key)
                    &&& after.result == Some(Ok::<(), OxAgAudioToolError<E>>(()))
                },
                Err(error) => {
                    &&& after.tool == before.cleared(category)
                    &&& after.result == Some(
                        Err::<(), OxAgAudioToolError<E>>(OxAgAudioToolError::PlaySoundError(error)),
                    )
                },
            }
        }),
{
    reveal_with_fuel(ToolModel::run, 4);
    let category = new_key.spec_category();
    let before = tool.dispatch(first, first_script).tool;
    let after = before.dispatch(second, second_script);
    assert(before.sounds == tool.sounds);
    assert(after.calls =~= seq![
        Call::Stop(before.active_handle(category)->0),
        Call::Play(tool.ambience_sound(new_key)->0),
    ]);
}

/// A dispatch that reports a key without a sound, in a category that does
/// not play under that key, empties the category without any playback
/// request: it stops what played there, if anything did, and makes no other
/// call. This holds where the kind of the event has no sound of its own.
pub proof fn law_silent_key_empties_category<A, H, E>(
    tool: ToolModel<A, H>,
    event: Event,
    key: AmbienceKey,
    script: Script<A, H, E>,
)
    requires
        spec_classify(event) == ClassifiedEvent::Ambience(key),
        tool.ambience_sound(key) is None,
        tool.active_key(key.spec_category()) != Some(key),
        tool.event_sound(event) is None,
    ensures
        ({
            let category = key.spec_category();
            let run = tool.dispatch(event, script);
            &&& run.tool == tool.cleared(category)
            &&& run.tool.active_key(category) is None
            &&& run.calls == match tool.active_handle(category) {
                Some(handle) => seq![Call::<A, H>::Stop(handle)],
                None => Seq::<Call<A, H>>::empty(),
            }
            &&& run.result == Some(Ok::<(), OxAgAudioToolError<E>>(()))
        }),
{
    reveal_with_fuel(ToolModel::run, 4);
    let category = key.spec_category();
    let run = tool.dispatch(event, script);
    assert(run.calls =~= match tool.active_handle(category) {
        Some(handle) => seq![Call::<A, H>::Stop(handle)],
        None => Seq::<Call<A, H>>::empty(),
    });
}

/// Playing a descriptor directly never changes the tool, whatever comes of
/// it, and an error of the backend is the result as it came: that of the
/// load where the load fails, that of the playback where the playback fails.
pub proof fn law_direct_play_keeps_tool<A, H, E>(
    tool: ToolModel<A, H>,
    config: OxAgSoundConfig,
    script: Script<A, H, E>,
)
    ensures
        tool.play_direct(config, script).tool == tool,
        config@.issue() is Some ==> {
            &&& tool.play_direct(config, script).calls == Seq::<Call<A, H>>::empty()
            &&& tool.play_direct(config, script).result == Some(
                Err::<(), OxAgAudioToolError<E>>(
                    OxAgAudioToolError::ConfigError(None, config@.issue()->0),
                ),
            )
        },
        config@.issue() is None && script.loads.len() > 0 ==> match script.loads[0] {
            Err(error) => {
                &&& tool.play_direct(config, script).calls == seq![Call::<A, H>::Load(config)]
                &&& tool.play_direct(config, script).result == Some(
                    Err::<(), OxAgAudioToolError<E>>(OxAgAudioToolError::FileError(None, error)),
                )
            },
            Ok(asset) => script.plays.len() > 0 ==> {
                &&& tool.play_direct(config, script).calls == seq![
                    Call::<A, H>::Load(config),
                    Call::Play(asset),
                ]
                &&& tool.play_direct(config, script).result == Some(
                    match script.plays[0] {
                        Ok(_) => Ok::<(), OxAgAudioToolError<E>>(()),
                        Err(error) => Err(OxAgAudioToolError::PlaySoundError(error)),
                    },
                )
            },
        },
{
    reveal_with_fuel(ToolModel::run, 4);
    let run = tool.play_direct(config, script);
    if config@.issue() is None && script.loads.len() > 0 {
        match script.loads[0] {
            Err(error) => {
                assert(run.calls =~= seq![Call::<A, H>::Load(config)]);
            },
            Ok(asset) => {
                if script.plays.len() > 0 {
                    assert(run.calls =~= seq![Call::<A, H>::Load(config), Call::Play(asset)]);
                }
            },
        }
    }
}

/// The entry that `first_issue` reports is the first one whose descriptor
/// cannot be loaded: the result is how many entries before it are in order,
/// which is all of them where nothing is reported.
pub proof fn law_first_issue_is_first(queue: Seq<(SoundKey, OxAgSoundConfig)>) -> (n: int)
    ensures
        0 <= n <= queue.len(),
        forall|j: int| 0 <= j < n ==> (#[trigger] queue[j]).1@.issue() is None,
        n == queue.len() ==> first_issue(queue) is None,
        n < queue.len() ==> queue[n].1@.issue() is Some && first_issue(queue) == Some(
            (queue[n].0, queue[n].1@.issue()->0),
        ),
    decreases queue.len(),
{
    if queue.len() == 0 {
        0
    } else if queue[0].1@.issue() is Some {
        0
    } else {
        let m = law_first_issue_is_first(queue.skip(1));
        assert forall|j: int| 0 <= j < m + 1 implies (#[trigger] queue[j]).1@.issue() is None by {
            if j > 0 {
                assert(queue[j] == queue.skip(1)[j - 1]);
            }
        }
        m + 1
    }
}

/// A build over a queue with a descriptor that cannot be loaded fails as a
/// whole, with the first such entry and its issue, before any load is asked
/// for: no asset of the other entries exists afterwards.
pub proof fn law_faulty_descriptor_fails_build<A, H, E>(
    queue: Seq<(SoundKey, OxAgSoundConfig)>,
    answers: Seq<Result<A, E>>,
    i: int,
)
    requires
        0 <= i < queue.len(),
        queue[i].1@.issue() is Some,
    ensures
        build::<A, H, E>(queue, answers).loads == Seq::<OxAgSoundConfig>::empty(),
        first_issue(queue) matches Some(found) && build::<A, H, E>(queue, answers).result == Some(
            Err::<ToolModel<A, H>, OxAgAudioToolError<E>>(
                OxAgAudioToolError::ConfigError(Some(found.0), found.1),
            ),
        ),
{
    let n = law_first_issue_is_first(queue);
    if n == queue.len() {
        assert(queue[i].1@.issue() is None);
    }
}

/// A build in which a load fails is over with that load: it fails as a
/// whole, with the key of the entry and the backend's error as it came, and
/// the assets loaded before are given up. The loads asked for are those of
/// the entries up to the failing one, in order.
pub proof fn law_failed_load_fails_build<A, H, E>(
    queue: Seq<(SoundKey, OxAgSoundConfig)>,
    answers: Seq<Result<A, E>>,
    i: int,
)
    requires
        first_issue(queue) is None,
        0 <= i < queue.len(),
        i < answers.len(),
        answers[i] is Err,
        forall|j: int| 0 <= j < i ==> (#[trigger] answers[j]) is Ok,
    ensures
        build::<A, H, E>(queue, answers).loads == Seq::new((i + 1) as nat, |n: int| queue[n].1),
        build::<A, H, E>(queue, answers).result == Some(
            Err::<ToolModel<A, H>, OxAgAudioToolError<E>>(
                OxAgAudioToolError::FileError(Some(queue[i].0), answers[i]->Err_0),
            ),
        ),
{
    lemma_load_fails::<A, H, E>(SoundsModel::empty(), queue, answers, i);
}

/// A build in which every descriptor is in order and every load succeeds
/// asks for the load of each entry, in order, and ends with a tool in which
/// nothing plays and whose registry holds the loaded assets.
pub proof fn law_build_succeeds<A, H, E>(
    queue: Seq<(SoundKey, OxAgSoundConfig)>,
    answers: Seq<Result<A, E>>,
)
    requires
        first_issue(queue) is None,
        queue.len() <= answers.len(),
        forall|j: int| 0 <= j < queue.len() ==> (#[trigger] answers[j]) is Ok,
    ensures
        build::<A, H, E>(queue, answers).loads == Seq::new(queue.len(), |n: int| queue[n].1),
        build::<A, H, E>(queue, answers).result == Some(
            Ok::<ToolModel<A, H>, OxAgAudioToolError<E>>(
                ToolModel::silent(filled(SoundsModel::empty(), queue, answers)),
            ),
        ),
{
    lemma_load_all::<A, H, E>(SoundsModel::empty(), queue, answers);
}

/// In a finished registry a key has the asset of the last entry that names
/// it.
pub proof fn law_last_entry_counts<A, E>(
    sounds: SoundsModel<A>,
    queue: Seq<(SoundKey, OxAgSoundConfig)>,
    answers: Seq<Result<A, E>>,
    i: int,
)
    requires
        queue.len() <= answers.len(),
        forall|j: int| 0 <= j < queue.len() ==> (#[trigger] answers[j]) is Ok,
        0 <= i < queue.len(),
        forall|j: int| i < j < queue.len() ==> (#[trigger] queue[j]).0 != queue[i].0,
    ensures
        filled(sounds, queue, answers).get(queue[i].0) == Some(answers[i]->Ok_0),
    decreases queue.len(),
{
    let after = sounds.insert(queue[0].0, answers[0]->Ok_0);
    if i == 0 {
        assert forall|j: int| 0 <= j < queue.skip(1).len() implies (#[trigger] queue.skip(1)[j]).0
            != queue[0].0 by {
            assert(queue.skip(1)[j] == queue[j + 1]);
        }
        law_unnamed_key_is_kept(after, queue.skip(1), answers.skip(1), queue[0].0);
    } else {
        assert forall|j: int| i - 1 < j < queue.skip(1).len() implies (#[trigger] queue.skip(
            1,
        )[j]).0 != queue.skip(1)[i - 1].0 by {
            assert(queue.skip(1)[j] == queue[j + 1]);
        }
        assert forall|j: int| 0 <= j < queue.skip(1).len() implies (#[trigger] answers.skip(
            1,
        )[j]) is Ok by {
            assert(answers.skip(1)[j] == answers[j + 1]);
        }
        law_last_entry_counts(after, queue.skip(1), answers.skip(1), i - 1);
    }
}

/// Loading a queue leaves a key that no entry names as it was.
pub proof fn law_unnamed_key_is_kept<A, E>(
    sounds: SoundsModel<A>,
    queue: Seq<(SoundKey, OxAgSoundConfig)>,
    answers: Seq<Result<A, E>>,
    key: SoundKey,
)
    requires
        forall|j: int| 0 <= j < queue.len() ==> (#[trigger] queue[j]).0 != key,
    ensures
        filled(sounds, queue, answers).get(key) == sounds.get(key),
    decreases queue.len(),
{
    if queue.len() > 0 && answers.len() > 0 {
        match answers[0] {
            Ok(asset) => {
                assert(queue[0].0 != key);
                assert forall|j: int| 0 <= j < queue.skip(1).len() implies (#[trigger] queue.skip(
                    1,
                )[j]).0 != key by {
                    assert(queue.skip(1)[j] == queue[j + 1]);
                }
                law_unnamed_key_is_kept(
                    sounds.insert(queue[0].0, asset),
                    queue.skip(1),
                    answers.skip(1),
                    key,
                );
            },
            Err(_) => {},
        }
    }
}

proof fn lemma_load_fails<A, H, E>(
    sounds: SoundsModel<A>,
    rest: Seq<(SoundKey, OxAgSoundConfig)>,
    answers: Seq<Result<A, E>>,
    i: int,
)
    requires
        0 <= i < rest.len(),
        i < answers.len(),
        answers[i] is Err,
        forall|j: int| 0 <= j < i ==> (#[trigger] answers[j]) is Ok,
    ensures
        load_next::<A, H, E>(sounds, rest).run(answers).loads == Seq::new(
            (i + 1) as nat,
            |n: int| rest[n].1,
        ),
        load_next::<A, H, E>(sounds, rest).run(answers).result == Some(
            Err::<ToolModel<A, H>, OxAgAudioToolError<E>>(
                OxAgAudioToolError::FileError(Some(rest[i].0), answers[i]->Err_0),
            ),
        ),
    decreases i,
{
    reveal_with_fuel(crate::loader::BuildModel::run, 3);
    let run = load_next::<A, H, E>(sounds, rest).run(answers);
    if i == 0 {
        assert(run.loads =~= Seq::new(1, |n: int| rest[n].1));
    } else {
        let after = sounds.insert(rest[0].0, answers[0]->Ok_0);
        assert(answers[0] is Ok);
        assert forall|j: int| 0 <= j < i - 1 implies (#[trigger] answers.skip(1)[j]) is Ok by {
            assert(answers.skip(1)[j] == answers[j + 1]);
        }
        lemma_load_fails::<A, H, E>(after, rest.skip(1), answers.skip(1), i - 1);
        let tail = load_next::<A, H, E>(after, rest.skip(1)).run(answers.skip(1));
        assert(run.loads == seq![rest[0].1] + tail.loads);
        assert(run.loads =~= Seq::new((i + 1) as nat, |n: int| rest[n].1));
    }
}

proof fn lemma_load_all<A, H, E>(
    sounds: SoundsModel<A>,
    rest: Seq<(SoundKey, OxAgSoundConfig)>,
    answers: Seq<Result<A, E>>,
)
    requires
        rest.len() <= answers.len(),
        forall|j: int| 0 <= j < rest.len() ==> (#[trigger] answers[j]) is Ok,
    ensures
        load_next::<A, H, E>(sounds, rest).run(answers).loads == Seq::new(
            rest.len(),
            |n: int| rest[n].1,
        ),
        load_next::<A, H, E>(sounds, rest).run(answers).result == Some(
            Ok::<ToolModel<A, H>, OxAgAudioToolError<E>>(
                ToolModel::silent(filled(sounds, rest, answers)),
            ),
        ),
    decreases rest.len(),
{
    reveal_with_fuel(crate::loader::BuildModel::run, 3);
    let run = load_next::<A, H, E>(sounds, rest).run(answers);
    if rest.len() == 0 {
        assert(run.loads =~= Seq::new(rest.len(), |n: int| rest[n].1));
    } else {
        let after = sounds.insert(rest[0].0, answers[0]->Ok_0);
        assert(answers[0] is Ok);
        assert forall|j: int| 0 <= j < rest.skip(1).len() implies (#[trigger] answers.skip(
            1,
        )[j]) is Ok by {
            assert(answers.skip(1)[j] == answers[j + 1]);
        }
        lemma_load_all::<A, H, E>(after, rest.skip(1), answers.skip(1));
        let tail = load_next::<A, H, E>(after, rest.skip(1)).run(answers.skip(1));
        assert(run.loads == seq![rest[0].1] + tail.loads);
        assert(run.loads =~= Seq::new(rest.len(), |n: int| rest[n].1));
    }
}

} // verus!

//! The two reactions to the marker and the per-frame sweep.

use crate::duration::Duration;
use crate::entry::{DecayEntry, EntryState};
use crate::events::{DecayCompleted, DecayPaused, DecayStarted};
use crate::timer::DecayTimer;
use bevy::ecs::entity::Entity;
use vstd::prelude::*;

verus! {

/// The entity of `entry` if it decays in a sweep over `delta` nanoseconds.
pub open spec fn completed_entity(entry: DecayEntry, delta: nat) -> Option<Entity> {
    if entry@.completes(delta) {
        Some(entry.entity)
    } else {
        None
    }
}

/// The entities among `entries` that decay in a sweep over `delta`
/// nanoseconds, in the order of `entries`.
pub open spec fn completed_batch(entries: Seq<DecayEntry>, delta: nat) -> Seq<Entity> {
    entries.filter_map(|entry: DecayEntry| completed_entity(entry, delta))
}

/// Reacts to the marker having been attached to the entity of `entry`.
///
/// With the zero range the entity has decayed at once: marker and countdown
/// are taken off and nothing is announced. Else the countdown of the entity
/// runs again and the time it has left is announced; an entity without a
/// countdown gets one of a length that its range resolves to, and that
/// length is announced.
pub fn handle_decay_start(entry: &mut DecayEntry) -> (started: Option<DecayStarted>)
    ensures
        started is None <==> old(entry)@.range.is_zero(),
        match started {
            Some(event) => {
                &&& event.entity == old(entry).entity
                &&& old(entry)@.start_announces(event.duration@) == Some(event.duration@)
                &&& old(entry)@.timer is None ==> old(entry)@.range.may_resolve_to(event.duration@)
                &&& final(entry)@ == old(entry)@.started(event.duration@)
            },
            None => final(entry)@ == old(entry)@.stripped(),
        },
{
    if entry.duration.is_zero() {
        entry.decay = None;
        entry.timer = None;
        None
    } else {
        match entry.timer {
            Some(existing) => {
                let mut timer: DecayTimer = existing;
                timer.unpause();
                entry.timer = Some(timer);
                Some(DecayStarted { entity: entry.entity, duration: timer.remaining() })
            },
            None => {
                let duration: Duration = entry.duration.resolve();
                entry.timer = Some(DecayTimer::new(duration));
                Some(DecayStarted { entity: entry.entity, duration })
            },
        }
    }
}

/// Reacts to the marker being about to leave the entity of `entry`: a
/// countdown that is there stands still from now on, and the time it has left
/// is announced. Without a countdown nothing happens.
pub fn handle_decay_pause(entry: &mut DecayEntry) -> (paused: Option<DecayPaused>)
    ensures
        final(entry)@ == old(entry)@.paused(),
        paused is Some <==> old(entry)@.timer is Some,
        paused matches Some(event) ==> {
            &&& event.entity == old(entry).entity
            &&& old(entry)@.pause_announces() == Some(event.remaining_duration@)
        },
{
    match entry.timer {
        Some(existing) => {
            let mut timer: DecayTimer = existing;
            timer.pause();
            entry.timer = Some(timer);
            Some(DecayPaused { entity: entry.entity, remaining_duration: timer.remaining() })
        },
        None => None,
    }
}

/// Sweeps over `entries` once, `delta` after the sweep before.
///
/// The countdown of every entity that carries both marker and countdown
/// moves on by `delta`. Where it is over then, the entity has decayed: marker
/// and countdown are taken off. All entities that decayed in this sweep are
/// announced together, in the order of `entries`; where none did, nothing is
/// announced.
pub fn decaying(delta: Duration, entries: &mut Vec<DecayEntry>) -> (completed: Option<
    DecayCompleted,
>)
    ensures
        final(entries)@.len() == old(entries)@.len(),
        forall|i: int|
            0 <= i < old(entries)@.len() ==> (#[trigger] final(entries)@[i])@ == old(
                entries,
            )@[i]@.swept(delta@),
        completed is None <==> completed_batch(old(entries)@, delta@).len() == 0,
        completed matches Some(batch) ==> batch.0@ == completed_batch(old(entries)@, delta@),
{
    let ghost before: Seq<DecayEntry> = entries@;
    let mut decayed: Vec<Entity> = Vec::new();
    let mut i: usize = 0;
    while i < entries.len()
        invariant
            i <= entries.len(),
            entries@.len() == before.len(),
            forall|j: int| 0 <= j < i ==> (#[trigger] entries@[j])@ == before[j]@.swept(delta@),
            forall|j: int| i <= j < before.len() ==> entries@[j] == before[j],
            decayed@ == completed_batch(before.take(i as int), delta@),
        decreases entries.len() - i,
    {
        let mut entry: DecayEntry = entries[i];
        proof {
            before.lemma_filter_map_take_succ(
                |entry: DecayEntry| completed_entity(entry, delta@),
                i as int,
            );
        }
        if entry.decay.is_some() {
            match entry.timer {
                Some(existing) => {
                    let mut timer: DecayTimer = existing;
                    timer.tick(delta);
                    if timer.finished() {
                        entry.decay = None;
                        entry.timer = None;
                        decayed.push(entry.entity);
                    } else {
                        entry.timer = Some(timer);
                    }
                },
                None => {},
            }
        }
        entries.set(i, entry);
        i += 1;
    }
    assert(before.take(before.len() as int) =~= before);
    if decayed.len() == 0 {
        None
    } else {
        Some(DecayCompleted(decayed))
    }
}

/// An entity that decays in a sweep is in the batch of that sweep.
pub proof fn lemma_batch_holds(entries: Seq<DecayEntry>, delta: nat, i: int)
    requires
        0 <= i < entries.len(),
        entries[i]@.completes(delta),
    ensures
        completed_batch(entries, delta).contains(entries[i].entity),
    decreases entries.len(),
{
    let pick = |entry: DecayEntry| completed_entity(entry, delta);
    let rest = entries.drop_last();
    if i == entries.len() - 1 {
        let batch = rest.filter_map(pick) + seq![entries[i].entity];
        assert(entries.filter_map(pick) == batch);
        assert(batch[batch.len() - 1] == entries[i].entity);
    } else {
        lemma_batch_holds(rest, delta, i);
        let at = choose|k: int|
            0 <= k < rest.filter_map(pick).len() && rest.filter_map(pick)[k] == entries[i].entity;
        assert(entries.filter_map(pick)[at] == entries[i].entity);
    }
}

/// Two entities that decay in the same sweep are announced together: the
/// one batch of that sweep holds them both.
pub proof fn lemma_batch_holds_both(entries: Seq<DecayEntry>, delta: nat, a: int, b: int)
    requires
        0 <= a < entries.len(),
        0 <= b < entries.len(),
        entries[a]@.completes(delta),
        entries[b]@.completes(delta),
    ensures
        completed_batch(entries, delta).contains(entries[a].entity),
        completed_batch(entries, delta).contains(entries[b].entity),
        entries[a].entity != entries[b].entity ==> completed_batch(entries, delta).len() >= 2,
{
    lemma_batch_holds(entries, delta, a);
    lemma_batch_holds(entries, delta, b);
}

/// The batch of a sweep holds no entity but such as decay in it.
pub proof fn lemma_batch_holds_no_other(entries: Seq<DecayEntry>, delta: nat, entity: Entity)
    requires
        completed_batch(entries, delta).contains(entity),
    ensures
        exists|i: int|
            0 <= i < entries.len() && (#[trigger] entries[i])@.completes(delta) && entries[i].entity
                == entity,
{
    let pick = |entry: DecayEntry| completed_entity(entry, delta);
    entries.lemma_filter_map_contains(pick, entity);
    let found = choose|entry: DecayEntry| #[trigger] entries.contains(entry) && pick(entry) == Some(entity);
    let i = choose|i: int| 0 <= i < entries.len() && entries[i] == found;
    assert(entries[i]@.completes(delta));
}

/// An entity that starts to decay, is paused at once and resumed has lost no
/// time: the pause announces the whole decay time as left, and so does the
/// resumption.
pub proof fn lemma_pause_resume_round_trip(entry: EntryState, total: nat, again: nat)
    requires
        !entry.range.is_zero(),
        entry.timer is None,
    ensures
        entry.start_announces(total) == Some(total),
        entry.started(total).pause_announces() == Some(total),
        entry.started(total).paused().start_announces(again) == Some(total),
        entry.started(total).paused().started(again) == entry.started(total),
{
}

/// An entity with the zero range has decayed as soon as the marker is
/// attached: marker and countdown are gone and nothing is announced,
/// whatever the entity carried before.
pub proof fn lemma_zero_range_decays_at_once(entry: EntryState, resolved: nat)
    requires
        entry.range.is_zero(),
    ensures
        !entry.started(resolved).marked,
        entry.started(resolved).timer is None,
        entry.start_announces(resolved) is None,
{
}

/// Attaching the marker to an entity whose range is not the zero range
/// leaves the marker where it is and the entity with a running countdown.
pub proof fn lemma_start_keeps_marker(entry: EntryState, resolved: nat)
    requires
        !entry.range.is_zero(),
    ensures
        entry.started(resolved).marked == entry.marked,
        entry.started(resolved).timer matches Some(timer) && !timer.paused,
        entry.start_announces(resolved) is Some,
{
}

/// Pausing takes nothing off an entity: the marker stays as it is, and so
/// does a countdown that is there, with all the time it had left.
pub proof fn lemma_pause_takes_nothing_off(entry: EntryState)
    ensures
        entry.paused().marked == entry.marked,
        entry.paused().timer is Some <==> entry.timer is Some,
        entry.paused().pause_announces() == entry.pause_announces(),
{
}

/// A sweep gives no entity a marker or a countdown that it did not carry,
/// and takes them off no entity but such as decay in it.
pub proof fn lemma_sweep_only_strips_completed(entry: EntryState, delta: nat)
    ensures
        entry.swept(delta).marked ==> entry.marked,
        entry.swept(delta).timer is Some ==> entry.timer is Some,
        entry.completes(delta) ==> entry.swept(delta) == entry.stripped(),
        !entry.completes(delta) ==> entry.swept(delta).marked == entry.marked && (entry.swept(
            delta,
        ).timer is Some <==> entry.timer is Some),
{
}

/// A paused entity announces the same time left when it is paused again.
pub proof fn lemma_pause_twice_announces_same(entry: EntryState)
    ensures
        entry.paused().paused() == entry.paused(),
        entry.paused().pause_announces() == entry.pause_announces(),
{
}

} // verus!

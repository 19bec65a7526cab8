//! The library's laws: properties that relate several operations, stated
//! and proved once over the spec-level step relations that the executable
//! functions' contracts establish.

use vstd::prelude::*;

use crate::frame::RgbaFrame;
use crate::publisher::PumpHandle;
use crate::publisher::VideoPublisher;
use crate::publisher::teardown_step;
use crate::pump::PumpTick;
use crate::pump::tick_outcome;
use crate::state::ConnectionState;
use crate::state::state_edge;
use crate::supervisor::Supervisor;
use crate::supervisor::contains_track;
use crate::supervisor::count_named;
use crate::supervisor::names_unique;
use crate::supervisor::publish_step;

verus! {

/// A name that no registered track carries is counted zero times.
pub proof fn lemma_absent_name_counts_zero(ts: Seq<VideoPublisher>, name: Seq<char>)
    requires
        !contains_track(ts, name),
    ensures
        count_named(ts, name) == 0,
    decreases ts.len(),
{
    if ts.len() > 0 {
        assert(ts.last().track_name@ != name);
        assert(!contains_track(ts.drop_last(), name)) by {
            assert(forall|i: int|
                0 <= i < ts.drop_last().len() ==> ts.drop_last()[i] == ts[i]);
        }
        lemma_absent_name_counts_zero(ts.drop_last(), name);
    }
}

/// Under a unique-name registry, a registered name is registered exactly
/// once.
pub proof fn lemma_unique_name_counts_once(ts: Seq<VideoPublisher>, name: Seq<char>)
    requires
        names_unique(ts),
        contains_track(ts, name),
    ensures
        count_named(ts, name) == 1,
    decreases ts.len(),
{
    let i = choose|i: int| 0 <= i < ts.len() && ts[i].track_name@ == name;
    if ts.last().track_name@ == name {
        assert(!contains_track(ts.drop_last(), name)) by {
            assert(forall|k: int|
                0 <= k < ts.drop_last().len() ==> ts.drop_last()[k] == ts[k]);
        }
        lemma_absent_name_counts_zero(ts.drop_last(), name);
    } else {
        assert(i < ts.len() - 1);
        assert(contains_track(ts.drop_last(), name)) by {
            assert(ts.drop_last()[i] == ts[i]);
        }
        assert(names_unique(ts.drop_last())) by {
            assert(forall|k: int|
                0 <= k < ts.drop_last().len() ==> ts.drop_last()[k] == ts[k]);
        }
        lemma_unique_name_counts_once(ts.drop_last(), name);
    }
}

/// Law: submitting the same track name twice while the first publication
/// is still active registers exactly one track — publishing is idempotent
/// by name, and the second request changes nothing.
pub proof fn lemma_publish_twice_registers_once(
    s0: Supervisor,
    s1: Supervisor,
    s2: Supervisor,
    name: Seq<char>,
)
    requires
        s0.wf(),
        publish_step(s0, s1, name),
        publish_step(s1, s2, name),
        contains_track(s0.tracks@, name) || s0.has_session,
        names_unique(s1.tracks@),
    ensures
        s2.tracks@ == s1.tracks@,
        count_named(s1.tracks@, name) == 1,
        count_named(s2.tracks@, name) == 1,
{
    if contains_track(s0.tracks@, name) {
        assert(s1.tracks@ == s0.tracks@);
        assert(contains_track(s1.tracks@, name));
    } else {
        assert(s1.tracks@.last().track_name@ == name);
        assert(contains_track(s1.tracks@, name));
    }
    lemma_unique_name_counts_once(s1.tracks@, name);
}

/// Law: along any run whose every move is an allowed connection-state
/// edge, Connecting is never skipped — Connected is only ever entered from
/// Connecting, and the only move away from NotConnected is to Connecting.
pub proof fn lemma_no_state_skipped(chain: Seq<ConnectionState>)
    requires
        forall|i: int|
            0 <= i < chain.len() - 1 ==> state_edge(#[trigger] chain[i], chain[i + 1]),
    ensures
        forall|i: int|
            0 <= i < chain.len() - 1 ==> ((chain[i + 1] is Connected && #[trigger] chain[i]
                != chain[i + 1]) ==> chain[i] is Connecting),
        forall|i: int|
            0 <= i < chain.len() - 1 ==> ((#[trigger] chain[i]) is NotConnected && chain[i]
                != chain[i + 1] ==> chain[i + 1] is Connecting),
{
}

/// Law: tearing a publisher down while its frame pump is active fires the
/// pump's stop signal, and a pump cycle that begins with a fired signal
/// stops without producing a frame — so the stop is observed within one
/// cycle of the fixed cadence.
pub proof fn lemma_teardown_halts_pump_within_one_cycle(
    pre: VideoPublisher,
    post: VideoPublisher,
    retired: Option<PumpHandle>,
    img: RgbaFrame,
)
    requires
        teardown_step(pre, post, retired),
        pre.handle is Some,
    ensures
        retired matches Some(h) && h.stop.fired,
        retired matches Some(h) ==> tick_outcome(h.stop.fired, img) is Stopped,
{
}

} // verus!

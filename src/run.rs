use vstd::prelude::*;

use crate::error::QuomeError;
use crate::model::{AgentMessage, AgentState, is_deployed};
use crate::watch::{
    ShownMessage, Watch, WatchView, fresh_watch, next_watch, outcome_of, shown_between,
    shown_indices, shown_step,
};

verus! {

/// The state after the polls returned `snaps`, in order, starting from `w`.
pub open spec fn run_watch(w: WatchView, snaps: Seq<AgentState>) -> WatchView
    decreases snaps.len(),
{
    if snaps.len() == 0 {
        w
    } else {
        run_watch(next_watch(w, snaps[0]), snaps.drop_first())
    }
}

/// The indices of the messages shown over those polls, in the order shown.
pub open spec fn run_shown(w: WatchView, snaps: Seq<AgentState>) -> Seq<int>
    decreases snaps.len(),
{
    if snaps.len() == 0 {
        Seq::empty()
    } else {
        shown_step(w, snaps[0]) + run_shown(next_watch(w, snaps[0]), snaps.drop_first())
    }
}

/// The log indices one poll goes through: those past the ones gone through
/// before, up to the snapshot's log length.
pub open spec fn examined_step(w: WatchView, s: AgentState) -> Seq<int> {
    let n = s.messages@.len() as int;
    let r = w.rendered as int;
    if n > r {
        Seq::new((n - r) as nat, |k: int| r + k)
    } else {
        Seq::empty()
    }
}

/// The log indices gone through over those polls, in order.
pub open spec fn run_examined(w: WatchView, snaps: Seq<AgentState>) -> Seq<int>
    decreases snaps.len(),
{
    if snaps.len() == 0 {
        Seq::empty()
    } else {
        examined_step(w, snaps[0]) + run_examined(next_watch(w, snaps[0]), snaps.drop_first())
    }
}

/// The log never gets shorter from one poll to a later one.
pub open spec fn lengths_grow(snaps: Seq<AgentState>) -> bool {
    forall|i: int, j: int|
        0 <= i < j < snaps.len() ==> #[trigger] snaps[i].messages@.len()
            <= #[trigger] snaps[j].messages@.len()
}

/// `a` is a prefix of `b`.
pub open spec fn is_prefix(a: Seq<AgentMessage>, b: Seq<AgentMessage>) -> bool {
    a.len() <= b.len() && forall|k: int| 0 <= k < a.len() ==> #[trigger] b[k] == a[k]
}

/// Each poll's log extends every earlier one: entries are only appended.
pub open spec fn appends_only(snaps: Seq<AgentState>) -> bool {
    forall|i: int, j: int|
        0 <= i < j < snaps.len() ==> is_prefix(
            #[trigger] snaps[i].messages@,
            #[trigger] snaps[j].messages@,
        )
}

proof fn lemma_shown_split(m: Seq<AgentMessage>, lo: int, mid: int, hi: int)
    requires
        lo <= mid <= hi,
    ensures
        shown_between(m, lo, mid) + shown_between(m, mid, hi) == shown_between(m, lo, hi),
    decreases hi - mid,
{
    if hi == mid {
        assert(shown_between(m, lo, mid) + shown_between(m, mid, hi) =~= shown_between(
            m,
            lo,
            hi,
        ));
    } else {
        lemma_shown_split(m, lo, mid, hi - 1);
        assert(shown_between(m, lo, mid) + shown_between(m, mid, hi) =~= shown_between(
            m,
            lo,
            hi,
        ));
    }
}

proof fn lemma_shown_prefix(a: Seq<AgentMessage>, b: Seq<AgentMessage>, lo: int, hi: int)
    requires
        is_prefix(a, b),
        0 <= lo,
        hi <= a.len(),
    ensures
        shown_between(a, lo, hi) == shown_between(b, lo, hi),
    decreases hi - lo,
{
    if hi > lo {
        lemma_shown_prefix(a, b, lo, hi - 1);
        assert(b[hi - 1] == a[hi - 1]);
    }
}

proof fn lemma_run_shown_from(w: WatchView, snaps: Seq<AgentState>)
    requires
        snaps.len() > 0,
        appends_only(snaps),
        w.rendered <= snaps[0].messages@.len(),
    ensures
        run_shown(w, snaps) == shown_between(
            snaps.last().messages@,
            w.rendered as int,
            snaps.last().messages@.len() as int,
        ),
    decreases snaps.len(),
{
    let s0 = snaps[0];
    let last = snaps.last();
    let n0 = s0.messages@.len() as int;
    let w1 = next_watch(w, s0);
    assert(w1.rendered == n0);
    if snaps.len() == 1 {
        assert(run_shown(w1, snaps.drop_first()) =~= Seq::<int>::empty());
        assert(shown_step(w, s0) + Seq::<int>::empty() =~= shown_step(w, s0));
    } else {
        let rest = snaps.drop_first();
        assert forall|i: int, j: int| 0 <= i < j < rest.len() implies is_prefix(
            #[trigger] rest[i].messages@,
            #[trigger] rest[j].messages@,
        ) by {
            assert(rest[i] == snaps[i + 1] && rest[j] == snaps[j + 1]);
        }
        assert(rest[0] == snaps[1]);
        assert(is_prefix(snaps[0].messages@, snaps[1].messages@));
        lemma_run_shown_from(w1, rest);
        assert(rest.last() == last);
        assert(is_prefix(s0.messages@, last.messages@)) by {
            assert(snaps[snaps.len() - 1] == last);
        }
        lemma_shown_prefix(s0.messages@, last.messages@, w.rendered as int, n0);
        lemma_shown_split(
            last.messages@,
            w.rendered as int,
            n0,
            last.messages@.len() as int,
        );
    }
}

/// Shown exactly once: when each poll's log only appends to the previous
/// one's, the messages shown over the whole watch are, in order and each one
/// time, the shown messages of the last log.
pub proof fn lemma_each_message_shown_once(snaps: Seq<AgentState>)
    requires
        snaps.len() > 0,
        appends_only(snaps),
    ensures
        run_shown(fresh_watch(), snaps) == shown_between(
            snaps.last().messages@,
            0,
            snaps.last().messages@.len() as int,
        ),
{
    lemma_run_shown_from(fresh_watch(), snaps);
}

proof fn lemma_run_examined_from(w: WatchView, snaps: Seq<AgentState>)
    requires
        snaps.len() > 0,
        lengths_grow(snaps),
        w.rendered <= snaps[0].messages@.len(),
    ensures
        run_examined(w, snaps) =~= Seq::new(
            (snaps.last().messages@.len() - w.rendered) as nat,
            |k: int| w.rendered + k,
        ),
    decreases snaps.len(),
{
    let s0 = snaps[0];
    let n0 = s0.messages@.len() as int;
    let w1 = next_watch(w, s0);
    assert(w1.rendered == n0);
    if snaps.len() == 1 {
        assert(run_examined(w1, snaps.drop_first()) =~= Seq::<int>::empty());
    } else {
        let rest = snaps.drop_first();
        assert forall|i: int, j: int| 0 <= i < j < rest.len() implies #[trigger] rest[i].messages@.len()
            <= #[trigger] rest[j].messages@.len() by {
            assert(rest[i] == snaps[i + 1] && rest[j] == snaps[j + 1]);
        }
        assert(rest[0] == snaps[1]);
        assert(snaps[0].messages@.len() <= snaps[1].messages@.len());
        lemma_run_examined_from(w1, rest);
        assert(rest.last() == snaps.last());
    }
}

/// Gone through exactly once: when the log never gets shorter, the watch
/// goes through the log indices `0, 1, ...` up to the last log's length,
/// each one time and in order. A message is shown only in the poll that goes
/// through its index (see `Watch::on_snapshot`).
pub proof fn lemma_each_index_examined_once(snaps: Seq<AgentState>)
    requires
        snaps.len() > 0,
        lengths_grow(snaps),
    ensures
        run_examined(fresh_watch(), snaps) == Seq::new(
            snaps.last().messages@.len(),
            |i: int| i,
        ),
{
    lemma_run_examined_from(fresh_watch(), snaps);
    assert(run_examined(fresh_watch(), snaps) =~= Seq::new(
        snaps.last().messages@.len(),
        |i: int| i,
    ));
}

/// A final snapshot polled again reports the same outcome and shows no
/// message a second time.
pub proof fn lemma_final_snapshot_again(w: WatchView, s: AgentState)
    requires
        outcome_of(s) is Some,
    ensures
        next_watch(w, s).outcome == outcome_of(s),
        next_watch(next_watch(w, s), s).outcome == next_watch(w, s).outcome,
        shown_step(next_watch(w, s), s) == Seq::<int>::empty(),
{
    assert(shown_step(next_watch(w, s), s) =~= Seq::<int>::empty());
}

/// A snapshot without a percentage leaves the displayed percentage as the
/// previous snapshot set it, unless its deployment is live.
pub proof fn lemma_percentage_kept(w: WatchView, s1: AgentState, s2: AgentState, x: u64)
    requires
        s1.progress matches Some(p) && p.percentage == Some(x),
        !is_deployed(s1),
        s2.progress matches Some(p) ==> p.percentage is None,
        !is_deployed(s2),
    ensures
        next_watch(next_watch(w, s1), s2).percent == x,
{
}

proof fn lemma_run_push(w: WatchView, snaps: Seq<AgentState>, s: AgentState)
    ensures
        run_watch(w, snaps.push(s)) == next_watch(run_watch(w, snaps), s),
        run_shown(w, snaps.push(s)) == run_shown(w, snaps) + shown_step(run_watch(w, snaps), s),
    decreases snaps.len(),
{
    if snaps.len() == 0 {
        assert(snaps.push(s).drop_first() =~= Seq::<AgentState>::empty());
        assert(run_watch(next_watch(w, s), Seq::<AgentState>::empty()) == next_watch(w, s));
        assert(run_shown(next_watch(w, s), Seq::<AgentState>::empty()) =~= Seq::<int>::empty());
        assert(run_shown(w, snaps.push(s)) =~= run_shown(w, snaps) + shown_step(
            run_watch(w, snaps),
            s,
        ));
    } else {
        let w1 = next_watch(w, snaps[0]);
        lemma_run_push(w1, snaps.drop_first(), s);
        assert(snaps.push(s).drop_first() =~= snaps.drop_first().push(s));
        assert(snaps.push(s)[0] == snaps[0]);
        assert(run_shown(w, snaps.push(s)) =~= run_shown(w, snaps) + shown_step(
            run_watch(w, snaps),
            s,
        ));
    }
}

/// The snapshots of the first `k` poll results, all of them successful.
pub open spec fn ok_prefix(polls: Seq<Result<AgentState, QuomeError>>, k: int) -> Seq<AgentState> {
    Seq::new(k as nat, |i: int| polls[i]->Ok_0)
}

/// What a watch over a series of poll results came to: the final watch
/// state, the indices of the messages shown, how many results it used, and
/// whether the last one used was a fetch error, which ended the watch.
pub struct WatchRun {
    pub watch: Watch,
    pub shown: Vec<usize>,
    pub polls_used: usize,
    pub failed: bool,
}

/// The number of snapshots a run folded in.
pub open spec fn snapshots_used(r: WatchRun) -> int {
    if r.failed {
        r.polls_used - 1
    } else {
        r.polls_used as int
    }
}

pub open spec fn index_values(v: Seq<usize>) -> Seq<int> {
    v.map_values(|i: usize| i as int)
}

/// Runs the watch over poll results in order. It stops at the first
/// snapshot that ends the workflow, or at the first fetch error, folding in
/// nothing after it; otherwise it uses all results. When it stops at an
/// error, that error is the result at `polls_used - 1`.
pub fn watch_polls(polls: &Vec<Result<AgentState, QuomeError>>) -> (r: WatchRun)
    ensures
        r.polls_used <= polls@.len(),
        0 <= snapshots_used(r),
        forall|i: int| 0 <= i < snapshots_used(r) ==> #[trigger] polls@[i] is Ok,
        forall|i: int|
            0 <= i < snapshots_used(r) - 1 ==> outcome_of(#[trigger] polls@[i]->Ok_0) is None,
        r.failed ==> r.polls_used >= 1 && polls@[r.polls_used - 1] is Err && r.watch.outcome
            is None,
        !r.failed && r.polls_used < polls@.len() ==> r.polls_used >= 1 && r.watch.outcome is Some,
        r.watch@ == run_watch(fresh_watch(), ok_prefix(polls@, snapshots_used(r))),
        index_values(r.shown@) == run_shown(fresh_watch(), ok_prefix(polls@, snapshots_used(r))),
{
    let mut watch = Watch::new();
    let mut shown: Vec<usize> = Vec::new();
    let mut used: usize = 0;
    assert(ok_prefix(polls@, 0) =~= Seq::<AgentState>::empty());
    while used < polls.len()
        invariant
            used <= polls@.len(),
            forall|i: int| 0 <= i < used ==> #[trigger] polls@[i] is Ok,
            forall|i: int| 0 <= i < used ==> outcome_of(#[trigger] polls@[i]->Ok_0) is None,
            watch@ == run_watch(fresh_watch(), ok_prefix(polls@, used as int)),
            watch.outcome is None,
            index_values(shown@) == run_shown(fresh_watch(), ok_prefix(polls@, used as int)),
        decreases polls@.len() - used,
    {
        let ghost before = ok_prefix(polls@, used as int);
        match &polls[used] {
            Err(_) => {
                return WatchRun { watch, shown, polls_used: used + 1, failed: true };
            },
            Ok(s) => {
                let step: Vec<ShownMessage> = watch.on_snapshot(s);
                proof {
                    lemma_run_push(fresh_watch(), before, *s);
                    assert(ok_prefix(polls@, used + 1) =~= before.push(*s));
                }
                let mut k: usize = 0;
                let ghost base = index_values(shown@);
                while k < step.len()
                    invariant
                        k <= step@.len(),
                        index_values(shown@) == base + shown_indices(step@).subrange(0, k as int),
                    decreases step@.len() - k,
                {
                    let ghost prev = shown@;
                    shown.push(step[k].index);
                    proof {
                        assert(shown_indices(step@)[k as int] == step@[k as int].index as int);
                        assert(index_values(shown@) =~= index_values(prev).push(
                            step@[k as int].index as int,
                        ));
                        assert(index_values(shown@) =~= base + shown_indices(step@).subrange(
                            0,
                            k + 1,
                        ));
                    }
                    k = k + 1;
                }
                assert(shown_indices(step@).subrange(0, step@.len() as int) =~= shown_indices(
                    step@,
                ));
                used = used + 1;
                if watch.is_done() {
                    return WatchRun { watch, shown, polls_used: used, failed: false };
                }
            },
        }
    }
    WatchRun { watch, shown, polls_used: used, failed: false }
}

} // verus!

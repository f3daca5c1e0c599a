//! Timestamped actions emitted by the input sources, and the controller that
//! orders one tick's batch by ascending timestamp — stably, so that actions
//! sharing a timestamp keep their relative emission order — and then runs
//! each action in that order.

use vstd::prelude::*;
use crate::config::{str_eq, InitError};

verus! {

/// The inspectable content of one action: the emitting source's current
/// value and a time annotation chosen by the source.
#[derive(Clone, Copy, PartialEq, Eq, Structural, Debug)]
pub struct SenderPayload {
    pub value: i64,
    pub note_time: u64,
}

/// A timestamped unit of deferred work; the ordering key is the timestamp.
#[derive(Clone, Copy, PartialEq, Eq, Structural, Debug)]
pub struct Sender {
    pub timestamp: u64,
    pub payload: SenderPayload,
}

pub open spec fn sorted_by_timestamp(s: Seq<Sender>) -> bool {
    forall|i: int, j: int| 0 <= i < j < s.len() ==> s[i].timestamp <= s[j].timestamp
}

pub open spec fn ts_pred(t: u64) -> spec_fn(Sender) -> bool {
    |x: Sender| x.timestamp == t
}

/// The subsequence of `s` whose elements carry timestamp `t`, in order.
pub open spec fn with_timestamp(s: Seq<Sender>, t: u64) -> Seq<Sender> {
    s.filter(ts_pred(t))
}

/// `out` is the ascending stable sort of `inp` by timestamp: a permutation
/// of `inp`, sorted, in which elements sharing a timestamp keep their
/// relative input order.
pub open spec fn stable_sorted_of(out: Seq<Sender>, inp: Seq<Sender>) -> bool {
    &&& sorted_by_timestamp(out)
    &&& out.to_multiset() == inp.to_multiset()
    &&& forall|t: u64| #[trigger] with_timestamp(out, t) == with_timestamp(inp, t)
}

/// The action-ordering executor: given the full batch of one tick, it sorts
/// the batch stably by ascending timestamp and runs each action in that
/// order, recording it in its execution log.
pub trait SenderController: Sized {
    /// All actions this controller has run so far, in execution order.
    spec fn executed(self) -> Seq<Sender>;

    fn exec(&mut self, senders: &mut Vec<Sender>)
        ensures
            stable_sorted_of(final(senders)@, old(senders)@),
            final(self).executed() == old(self).executed() + final(senders)@,
    ;
}

/// Sorts a batch of actions by ascending timestamp, stably: insertion sort,
/// placing each element after every element with an equal or smaller key.
fn stable_sort_by_timestamp(v: &Vec<Sender>) -> (out: Vec<Sender>)
    ensures
        stable_sorted_of(out@, v@),
{
    let mut out: Vec<Sender> = Vec::new();
    let n = v.len();
    proof {
        assert(v@.take(0) =~= Seq::<Sender>::empty());
    }
    let mut idx: usize = 0;
    while idx < n
        invariant
            n == v@.len(),
            idx <= n,
            sorted_by_timestamp(out@),
            out@.to_multiset() == v@.take(idx as int).to_multiset(),
            forall|t: u64| #[trigger] with_timestamp(out@, t) == with_timestamp(
                v@.take(idx as int),
                t,
            ),
        decreases n - idx,
    {
        let x = v[idx];
        let mut pos: usize = out.len();
        while pos > 0 && out[pos - 1].timestamp > x.timestamp
            invariant
                pos <= out@.len(),
                forall|k: int| pos <= k < out@.len() ==> out@[k].timestamp > x.timestamp,
            decreases pos,
        {
            pos = pos - 1;
        }
        let ghost out0 = out@;
        let ghost taken = v@.take(idx as int);
        out.insert(pos, x);
        proof {
            lemma_stable_insert_step(out0, taken, x, pos as int);
            assert(v@.take(idx as int + 1) =~= taken.push(x));
        }
        idx = idx + 1;
    }
    proof {
        assert(v@.take(n as int) =~= v@);
    }
    out
}

/// One step of the insertion sort: inserting `x` at `pos` — after every
/// element with an equal or smaller timestamp and before every element with
/// a greater one — keeps the output sorted, keeps it a permutation of the
/// consumed prefix, and preserves every per-timestamp subsequence.
proof fn lemma_stable_insert_step(out0: Seq<Sender>, taken: Seq<Sender>, x: Sender, pos: int)
    requires
        0 <= pos <= out0.len(),
        sorted_by_timestamp(out0),
        forall|k: int| pos <= k < out0.len() ==> out0[k].timestamp > x.timestamp,
        pos > 0 ==> out0[pos - 1].timestamp <= x.timestamp,
        out0.to_multiset() == taken.to_multiset(),
        forall|t: u64| #[trigger] with_timestamp(out0, t) == with_timestamp(taken, t),
    ensures
        sorted_by_timestamp(out0.insert(pos, x)),
        out0.insert(pos, x).to_multiset() == taken.push(x).to_multiset(),
        forall|t: u64| #[trigger] with_timestamp(out0.insert(pos, x), t) == with_timestamp(
            taken.push(x),
            t,
        ),
{
    let new = out0.insert(pos, x);
    out0.insert_ensures(pos, x);
    // sortedness
    assert forall|i: int, j: int| 0 <= i < j < new.len() implies new[i].timestamp
        <= new[j].timestamp by {
        if i < pos && pos > 0 {
            assert(out0[i].timestamp <= out0[pos - 1].timestamp);
        }
    }
    // permutation
    vstd::seq_lib::to_multiset_insert(out0, pos, x);
    vstd::seq_lib::to_multiset_build(taken, x);
    // stability
    let front = out0.take(pos);
    let back = out0.skip(pos);
    assert(out0 =~= front + back);
    assert(new =~= front + seq![x] + back);
    assert forall|t: u64| #[trigger] with_timestamp(new, t) == with_timestamp(
        taken.push(x),
        t,
    ) by {
        let pr = ts_pred(t);
        assert(pr(x) == (x.timestamp == t));
        Seq::filter_distributes_over_add(front, back, pr);
        Seq::filter_distributes_over_add(front + seq![x], back, pr);
        Seq::filter_distributes_over_add(front, seq![x], pr);
        taken.lemma_filter_push(x, pr);
        lemma_filter_singleton(x, pr);
        assert(with_timestamp(out0, t) == with_timestamp(taken, t));
        assert(new.filter(pr) == front.filter(pr) + seq![x].filter(pr) + back.filter(pr));
        assert(out0.filter(pr) == front.filter(pr) + back.filter(pr));
        if t == x.timestamp {
            assert forall|k: int| 0 <= k < back.len() implies !(#[trigger] pr(back[k])) by {
                assert(back[k] == out0[pos + k]);
                assert(out0[pos + k].timestamp > x.timestamp);
            }
            lemma_filter_none(back, pr);
            assert(front.filter(pr) + Seq::<Sender>::empty() =~= front.filter(pr));
            assert(front.filter(pr) + seq![x] + Seq::<Sender>::empty() =~= front.filter(
                pr,
            ).push(x));
            assert(taken.filter(pr) == front.filter(pr));
            assert(new.filter(pr) == taken.filter(pr).push(x));
        } else {
            assert(front.filter(pr) + Seq::<Sender>::empty() + back.filter(pr) =~= front.filter(
                pr,
            ) + back.filter(pr));
            assert(new.filter(pr) == out0.filter(pr));
        }
    }
}

/// A sequence with no element satisfying the predicate filters to the empty
/// sequence.
proof fn lemma_filter_none(s: Seq<Sender>, pr: spec_fn(Sender) -> bool)
    requires
        forall|k: int| 0 <= k < s.len() ==> !pr(#[trigger] s[k]),
    ensures
        s.filter(pr) == Seq::<Sender>::empty(),
    decreases s.len(),
{
    reveal(Seq::filter);
    if s.len() > 0 {
        lemma_filter_none(s.drop_last(), pr);
        assert(!pr(s.last()));
    } else {
        assert(s =~= Seq::<Sender>::empty());
    }
}

proof fn lemma_filter_singleton(x: Sender, pr: spec_fn(Sender) -> bool)
    ensures
        seq![x].filter(pr) == if pr(x) {
            seq![x]
        } else {
            Seq::<Sender>::empty()
        },
{
    reveal_with_fuel(Seq::filter, 2);
    assert(seq![x].drop_last() =~= Seq::<Sender>::empty());
    if pr(x) {
        assert(seq![x].filter(pr) =~= Seq::<Sender>::empty().push(x));
        assert(Seq::<Sender>::empty().push(x) =~= seq![x]);
    }
}

/// The one built-in executor: sorts and runs the batch, appending it to its
/// execution log.
pub struct SimpleSenderController {
    log: Vec<Sender>,
}

impl SenderController for SimpleSenderController {
    closed spec fn executed(self) -> Seq<Sender> {
        self.log@
    }

    fn exec(&mut self, senders: &mut Vec<Sender>) {
        let sorted = stable_sort_by_timestamp(senders);
        *senders = sorted;
        let n = senders.len();
        let mut i: usize = 0;
        while i < n
            invariant
                n == senders@.len(),
                i <= n,
                self.log@ == old(self).log@ + senders@.take(i as int),
                stable_sorted_of(senders@, old(senders)@),
            decreases n - i,
        {
            let s = senders[i];
            self.log.push(s);
            proof {
                assert(senders@.take(i as int + 1) =~= senders@.take(i as int).push(
                    senders@[i as int],
                ));
            }
            i = i + 1;
        }
        proof {
            assert(senders@.take(n as int) =~= senders@);
        }
    }
}

/// The closed set of executor variants, selected by a `type` discriminator.
pub enum SenderControllerBox {
    Simple(SimpleSenderController),
}

impl SenderController for SenderControllerBox {
    closed spec fn executed(self) -> Seq<Sender> {
        match self {
            SenderControllerBox::Simple(c) => c.executed(),
        }
    }

    fn exec(&mut self, senders: &mut Vec<Sender>) {
        match self {
            SenderControllerBox::Simple(c) => c.exec(senders),
        }
    }
}

impl SenderControllerBox {
    /// The controller's execution log, for inspection.
    pub fn executed_log(&self) -> (h: &Vec<Sender>)
        ensures
            h@ == self.executed(),
    {
        match self {
            SenderControllerBox::Simple(c) => &c.log,
        }
    }
}

/// Builds the executor selected by the given discriminator; an unrecognized
/// discriminator is a typed construction error, never a crash.
pub fn create_sender_controller(sender_type: &str) -> (r: Result<
    SenderControllerBox,
    InitError,
>)
    ensures
        r is Ok <==> sender_type@ == "simple"@,
        r is Ok ==> r->Ok_0.executed() == Seq::<Sender>::empty(),
        r is Err ==> r->Err_0 == InitError::UnknownPluginType,
{
    if str_eq(sender_type, "simple") {
        Ok(SenderControllerBox::Simple(SimpleSenderController { log: Vec::new() }))
    } else {
        Err(InitError::UnknownPluginType)
    }
}

} // verus!

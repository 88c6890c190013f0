//! Runs of an endpoint: what it does over a sequence of events, and the
//! recovery guarantees that follow from its transition rules.

use crate::endpoint::{next, with_phase, wf, Action, Endpoint, ErrorClass, Event, Phase, BACKOFF_MS};
use vstd::prelude::*;

verus! {

/// The state reached and the actions returned when `e` takes `evs` in order.
pub open spec fn run(e: Endpoint, evs: Seq<Event>) -> (Endpoint, Seq<Action>)
    decreases evs.len(),
{
    if evs.len() == 0 {
        (e, Seq::empty())
    } else {
        let (e1, a) = next(e, evs[0]);
        let (e2, acts) = run(e1, evs.drop_first());
        (e2, seq![a] + acts)
    }
}

/// `n` copies of `ev`.
pub open spec fn repeated(ev: Event, n: nat) -> Seq<Event> {
    Seq::new(n, |i: int| ev)
}

/// Taking two sequences of events one after the other is taking their
/// concatenation.
pub proof fn run_concat(e: Endpoint, a: Seq<Event>, b: Seq<Event>)
    ensures
        run(e, a + b) == ({
            let (e1, xs) = run(e, a);
            let (e2, ys) = run(e1, b);
            (e2, xs + ys)
        }),
    decreases a.len(),
{
    if a.len() == 0 {
        assert(a + b =~= b);
        assert(run(e, b).1 =~= Seq::<Action>::empty() + run(e, b).1);
    } else {
        let (e1, x) = next(e, a[0]);
        assert((a + b).drop_first() =~= a.drop_first() + b);
        run_concat(e1, a.drop_first(), b);
        let (e2, xs) = run(e1, a.drop_first());
        let (e3, ys) = run(e2, b);
        assert(seq![x] + (xs + ys) =~= (seq![x] + xs) + ys);
    }
}

/// Whichever role finds no node at the path creates it, and then opens
/// its end again at once, also when another endpoint created the node
/// first.
pub proof fn lazy_creation(e: Endpoint)
    requires
        e.phase is Opening,
    ensures
        next(e, Event::OpenFailed(ErrorClass::MissingNode)).1 == Action::CreateNode,
        run(e, seq![Event::OpenFailed(ErrorClass::MissingNode), Event::NodeCreated])
            == (e, seq![Action::CreateNode, Action::Open { delay_ms: 0 }]),
        run(e, seq![Event::OpenFailed(ErrorClass::MissingNode), Event::CreateFailed(ErrorClass::NodeExists)])
            == (e, seq![Action::CreateNode, Action::Open { delay_ms: 0 }]),
{
    reveal_with_fuel(run, 3);
    let evs1 = seq![Event::OpenFailed(ErrorClass::MissingNode), Event::NodeCreated];
    let evs2 = seq![Event::OpenFailed(ErrorClass::MissingNode), Event::CreateFailed(ErrorClass::NodeExists)];
    assert(evs1.drop_first().drop_first() =~= Seq::<Event>::empty());
    assert(evs2.drop_first().drop_first() =~= Seq::<Event>::empty());
    assert(run(e, evs1).1 =~= seq![Action::CreateNode, Action::Open { delay_ms: 0 }]);
    assert(run(e, evs2).1 =~= seq![Action::CreateNode, Action::Open { delay_ms: 0 }]);
}

/// A sender that finds no reader neither fails nor completes: however
/// often that happens, it stays where it was and only waits and tries
/// again. It completes only on an open that succeeds.
pub proof fn peer_wait(e: Endpoint, n: nat)
    requires
        e.role is Sender,
        e.phase is Opening,
    ensures
        run(e, repeated(Event::OpenFailed(ErrorClass::NoReceiver), n))
            == (e, Seq::new(n, |i: int| Action::Open { delay_ms: BACKOFF_MS })),
        forall|ev: Event| #[trigger] next(e, ev).1 is Ready ==> ev is Opened,
        !e.resume ==> next(e, Event::Opened).1 is Ready,
    decreases n,
{
    let evs = repeated(Event::OpenFailed(ErrorClass::NoReceiver), n);
    if n > 0 {
        peer_wait(e, (n - 1) as nat);
        assert(evs.drop_first() =~= repeated(Event::OpenFailed(ErrorClass::NoReceiver), (n - 1) as nat));
        assert(run(e, evs).1 =~= Seq::new(n, |i: int| Action::Open { delay_ms: BACKOFF_MS }));
    } else {
        assert(run(e, evs).1 =~= Seq::new(n, |i: int| Action::Open { delay_ms: BACKOFF_MS }));
    }
}

/// A sender whose reader went away under a write reopens its end, waits
/// for a reader as long as it takes, and writes the same frame again:
/// the send completes and nothing fails.
pub proof fn reader_reconnect(e: Endpoint, waits: nat)
    requires
        wf(e),
        e.role is Sender,
        e.phase is Writing,
    ensures
        ({
            let evs = seq![Event::TransferFailed(ErrorClass::BrokenPipe)]
                + repeated(Event::OpenFailed(ErrorClass::NoReceiver), waits)
                + seq![Event::Opened, Event::Transferred];
            let (e2, acts) = run(e, evs);
            &&& e2 == with_phase(e, Phase::Idle)
            &&& acts == seq![Action::Open { delay_ms: 0 }]
                + Seq::new(waits, |i: int| Action::Open { delay_ms: BACKOFF_MS })
                + seq![Action::WriteFrame, Action::Ready]
        }),
{
    let first = seq![Event::TransferFailed(ErrorClass::BrokenPipe)];
    let mid = repeated(Event::OpenFailed(ErrorClass::NoReceiver), waits);
    let last = seq![Event::Opened, Event::Transferred];
    let e1 = Endpoint { role: e.role, phase: Phase::Opening, resume: true };
    reveal_with_fuel(run, 3);
    assert(first.drop_first() =~= Seq::<Event>::empty());
    assert(run(e, first) == (e1, seq![Action::Open { delay_ms: 0 }]));
    peer_wait(e1, waits);
    assert(last.drop_first().drop_first() =~= Seq::<Event>::empty());
    assert(run(e1, last).1 =~= seq![Action::WriteFrame, Action::Ready]);
    run_concat(e, first, mid);
    run_concat(e, first + mid, last);
}

/// A receiver whose writer went away while it waited for a header reopens
/// its end and reads the header afresh, as often as that happens; the next
/// whole frame is then delivered and nothing fails.
pub proof fn writer_reconnect(e: Endpoint, k: nat)
    requires
        wf(e),
        e.role is Receiver,
        e.phase is ReadingHeader,
    ensures
        ({
            let cycle = seq![Event::TransferFailed(ErrorClass::StreamClosed), Event::Opened];
            let evs = Seq::new(k, |i: int| cycle).flatten() + seq![Event::Transferred, Event::Transferred];
            let (e2, acts) = run(e, evs);
            &&& e2 == with_phase(e, Phase::Idle)
            &&& acts == Seq::new(k, |i: int| seq![Action::Open { delay_ms: 0 }, Action::ReadHeader]).flatten()
                + seq![Action::ReadPayload, Action::Ready]
        }),
    decreases k,
{
    let cycle = seq![Event::TransferFailed(ErrorClass::StreamClosed), Event::Opened];
    let acycle = seq![Action::Open { delay_ms: 0 }, Action::ReadHeader];
    let tail = seq![Event::Transferred, Event::Transferred];
    reveal_with_fuel(run, 3);
    if k == 0 {
        assert(Seq::new(k, |i: int| cycle).flatten() =~= Seq::<Event>::empty());
        assert(Seq::new(k, |i: int| acycle).flatten() =~= Seq::<Action>::empty());
        assert(Seq::new(k, |i: int| cycle).flatten() + tail =~= tail);
        assert(tail.drop_first().drop_first() =~= Seq::<Event>::empty());
        assert(run(e, tail).1 =~= seq![Action::ReadPayload, Action::Ready]);
        assert(Seq::<Action>::empty() + seq![Action::ReadPayload, Action::Ready]
            =~= seq![Action::ReadPayload, Action::Ready]);
    } else {
        let k1 = (k - 1) as nat;
        writer_reconnect(e, k1);
        let evs_k1 = Seq::new(k1, |i: int| cycle).flatten();
        let acts_k1 = Seq::new(k1, |i: int| acycle).flatten();
        assert(Seq::new(k, |i: int| cycle) =~= seq![cycle] + Seq::new(k1, |i: int| cycle));
        assert(Seq::new(k, |i: int| acycle) =~= seq![acycle] + Seq::new(k1, |i: int| acycle));
        vstd::seq_lib::lemma_flatten_concat(seq![cycle], Seq::new(k1, |i: int| cycle));
        vstd::seq_lib::lemma_flatten_concat(seq![acycle], Seq::new(k1, |i: int| acycle));
        assert(seq![cycle].flatten() =~= cycle) by {
            reveal_with_fuel(Seq::flatten, 2);
            assert(seq![cycle].drop_first() =~= Seq::<Seq<Event>>::empty());
        }
        assert(seq![acycle].flatten() =~= acycle) by {
            reveal_with_fuel(Seq::flatten, 2);
            assert(seq![acycle].drop_first() =~= Seq::<Seq<Action>>::empty());
        }
        assert(cycle.drop_first().drop_first() =~= Seq::<Event>::empty());
        assert(run(e, cycle) == (e, acycle));
        run_concat(e, cycle, evs_k1 + tail);
        assert(cycle + evs_k1 + tail =~= cycle + (evs_k1 + tail));
        assert(acycle + (acts_k1 + seq![Action::ReadPayload, Action::Ready])
            =~= acycle + acts_k1 + seq![Action::ReadPayload, Action::Ready]);
    }
}

} // verus!

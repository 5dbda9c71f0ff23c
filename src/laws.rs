//! Properties of whole sessions, stated over the stream of responses the
//! server sends and the actions the state machine answers with.
use vstd::prelude::*;

use crate::protocol::{Command, Response};
use crate::session::{
    entry_of, initial, subscription_of, next, Action, Expected, Operation, Phase, SessionError, SessionView,
};

verus! {

/// The state reached and the actions taken when the responses `rs` are fed
/// to the session in state `s`, one action per response.
pub open spec fn run(s: SessionView, rs: Seq<Response>) -> (SessionView, Seq<Action>)
    decreases rs.len(),
{
    if rs.len() == 0 {
        (s, seq![])
    } else {
        let (s1, a) = next(s, rs[0]);
        let (s2, acts) = run(s1, rs.drop_first());
        (s2, seq![a] + acts)
    }
}

pub open spec fn sends_mark_read(a: Action) -> bool {
    a is Send && a->Send_0 is MarkRead
}

/// Each step keeps the session well formed and its operation unchanged.
pub proof fn lemma_next_wf(s: SessionView, r: Response)
    requires
        s.wf(),
    ensures
        next(s, r).0.wf(),
        next(s, r).0.op == s.op,
{
}

/// One action is taken for each response fed.
pub proof fn lemma_run_len(s: SessionView, rs: Seq<Response>)
    ensures
        run(s, rs).1.len() == rs.len(),
    decreases rs.len(),
{
    if rs.len() > 0 {
        lemma_run_len(next(s, rs[0]).0, rs.drop_first());
    }
}

/// Feeding `a` then `b` is feeding `a + b`.
pub proof fn lemma_run_append(s: SessionView, a: Seq<Response>, b: Seq<Response>)
    ensures
        run(s, a + b).0 == run(run(s, a).0, b).0,
        run(s, a + b).1 == run(s, a).1 + run(run(s, a).0, b).1,
    decreases a.len(),
{
    if a.len() == 0 {
        assert(a + b =~= b);
        assert(run(s, a).1 + run(run(s, a).0, b).1 =~= run(s, b).1);
    } else {
        let s1 = next(s, a[0]).0;
        assert((a + b).drop_first() =~= a.drop_first() + b);
        lemma_run_append(s1, a.drop_first(), b);
        assert(run(s, a + b).1 =~= run(s, a).1 + run(run(s, a).0, b).1);
    }
}

/// A failed session stays failed and does nothing more, whatever it is fed.
pub proof fn lemma_failed_stays_idle(s: SessionView, rs: Seq<Response>)
    requires
        s.phase is Failed,
    ensures
        run(s, rs).0 == s,
        forall|j: int| 0 <= j < run(s, rs).1.len() ==> run(s, rs).1[j] == Action::Idle,
    decreases rs.len(),
{
    if rs.len() > 0 {
        lemma_failed_stays_idle(s, rs.drop_first());
    }
}

/// Once a session aborts, every later response is answered by `Idle`: no
/// further command is sent.
pub proof fn lemma_nothing_after_abort(s: SessionView, rs: Seq<Response>, i: int)
    requires
        0 <= i < rs.len(),
        run(s, rs).1[i] is Abort,
    ensures
        forall|j: int| i < j < rs.len() ==> run(s, rs).1[j] == Action::Idle,
    decreases rs.len(),
{
    let s1 = next(s, rs[0]).0;
    lemma_run_len(s1, rs.drop_first());
    if i == 0 {
        lemma_failed_stays_idle(s1, rs.drop_first());
    } else {
        lemma_nothing_after_abort(s1, rs.drop_first(), i - 1);
    }
}

/// A session whose first response is not `AckUser` aborts on it with a
/// protocol violation and sends nothing afterwards, the list command included.
pub proof fn lemma_authentication_gate(op: Operation, rs: Seq<Response>)
    requires
        rs.len() > 0,
        !(rs[0] is AckUser),
    ensures
        run(initial(op), rs).1[0] == Action::Abort(
            SessionError::ProtocolViolation { expected: Expected::AckUser, received: rs[0] },
        ),
        forall|j: int| 0 < j < rs.len() ==> run(initial(op), rs).1[j] == Action::Idle,
{
    lemma_nothing_after_abort(initial(op), rs, 0);
}

/// With mark-read off, no `MarkRead` is ever sent from a state that is not
/// already marking.
proof fn lemma_suppressed_from(s: SessionView, rs: Seq<Response>)
    requires
        s.op == (Operation::Unread { mark_read: false }),
        !(s.phase is Marking),
    ensures
        forall|i: int| 0 <= i < run(s, rs).1.len() ==> !sends_mark_read(#[trigger] run(s, rs).1[i]),
    decreases rs.len(),
{
    if rs.len() > 0 {
        let s1 = next(s, rs[0]).0;
        lemma_suppressed_from(s1, rs.drop_first());
        assert forall|i: int| 0 <= i < run(s, rs).1.len() implies !sends_mark_read(
            #[trigger] run(s, rs).1[i],
        ) by {
            if i > 0 {
                assert(run(s, rs).1[i] == run(s1, rs.drop_first()).1[i - 1]);
            }
        }
    }
}

/// With mark-read suppressed, an unread listing sends no `MarkRead`,
/// whatever the server answers and however many entries it lists.
pub proof fn lemma_suppressed_mark_read_never_sent(rs: Seq<Response>)
    ensures
        forall|i: int|
            0 <= i < rs.len() ==> !sends_mark_read(
                #[trigger] run(initial(Operation::Unread { mark_read: false }), rs).1[i],
            ),
{
    lemma_run_len(initial(Operation::Unread { mark_read: false }), rs);
    lemma_suppressed_from(initial(Operation::Unread { mark_read: false }), rs);
}

/// A `MarkRead` goes out only in answer to the list's `EndList` (the first
/// one) or to the `AckMarkRead` of the one before it.
pub proof fn lemma_mark_read_awaits_ack(s: SessionView, rs: Seq<Response>)
    ensures
        forall|i: int|
            0 <= i < rs.len() && #[trigger] sends_mark_read(run(s, rs).1[i]) ==> rs[i] is EndList
                || rs[i] is AckMarkRead,
    decreases rs.len(),
{
    lemma_run_len(s, rs);
    if rs.len() > 0 {
        let s1 = next(s, rs[0]).0;
        lemma_mark_read_awaits_ack(s1, rs.drop_first());
        assert forall|i: int|
            0 <= i < rs.len() && #[trigger] sends_mark_read(run(s, rs).1[i]) implies rs[i] is EndList
            || rs[i] is AckMarkRead by {
            if i > 0 {
                assert(run(s, rs).1[i] == run(s1, rs.drop_first()).1[i - 1]);
                assert(rs[i] == rs.drop_first()[i - 1]);
            }
        }
    }
}

pub open spec fn all_entries(es: Seq<Response>) -> bool {
    forall|i: int| 0 <= i < es.len() ==> (#[trigger] es[i]) is Entry
}

/// While listing unread entries, each `Entry` response appends its record,
/// in the order received, and is answered by `Receive`.
proof fn lemma_listing_entries(s: SessionView, es: Seq<Response>)
    requires
        s.phase is Listing,
        s.op is Unread,
        all_entries(es),
    ensures
        run(s, es).0 == (SessionView { entries: s.entries + es.map_values(|r: Response| entry_of(r)), ..s }),
        forall|j: int| 0 <= j < es.len() ==> run(s, es).1[j] == Action::Receive,
    decreases es.len(),
{
    lemma_run_len(s, es);
    if es.len() == 0 {
        assert(s.entries + es.map_values(|r: Response| entry_of(r)) =~= s.entries);
    } else {
        let s1 = next(s, es[0]).0;
        assert(all_entries(es.drop_first())) by {
            assert forall|i: int| 0 <= i < es.drop_first().len() implies (#[trigger] es.drop_first()[i]) is Entry by {
                assert(es.drop_first()[i] == es[i + 1]);
            }
        }
        lemma_listing_entries(s1, es.drop_first());
        assert(s1.entries + es.drop_first().map_values(|r: Response| entry_of(r)) =~= s.entries
            + es.map_values(|r: Response| entry_of(r)));
        assert forall|j: int| 0 <= j < es.len() implies run(s, es).1[j] == Action::Receive by {
            if j > 0 {
                assert(run(s, es).1[j] == run(s1, es.drop_first()).1[j - 1]);
            }
        }
    }
}

/// An unread listing collects exactly one record per `Entry` response
/// between `StartEntryList` and `EndList`, in the order received. Without
/// mark-read, or with no entries, the session then completes.
pub proof fn lemma_entries_in_order(mark_read: bool, user_id: i64, es: Seq<Response>)
    requires
        all_entries(es),
    ensures
        ({
            let rs = seq![Response::AckUser { id: user_id }, Response::StartEntryList] + es + seq![
                Response::EndList,
            ];
            let (s, acts) = run(initial(Operation::Unread { mark_read }), rs);
            &&& s.entries == es.map_values(|r: Response| entry_of(r))
            &&& acts[0] == Action::Send(Command::ListUnread)
            &&& (!mark_read || es.len() == 0) ==> s.phase is Done && acts[rs.len() - 1]
                == Action::Finish
        }),
{
    let s0 = initial(Operation::Unread { mark_read });
    let head = seq![Response::AckUser { id: user_id }, Response::StartEntryList];
    let tail = seq![Response::EndList];
    let rs = head + es + tail;
    let s1 = next(s0, head[0]).0;
    let s2 = next(s1, head.drop_first()[0]).0;
    assert(head.drop_first().drop_first() =~= seq![]);
    assert(head.drop_first()[0] == Response::StartEntryList);
    assert(head[0] == Response::AckUser { id: user_id });
    assert(run(s2, head.drop_first().drop_first()).0 == s2);
    assert(run(s1, head.drop_first()).0 == s2);
    assert(run(s0, head).0 == s2);
    assert(run(s0, head).1 == seq![Action::Send(Command::ListUnread), Action::Receive]);
    assert(s2 == (SessionView { phase: Phase::Listing, ..s0 }));
    lemma_listing_entries(s2, es);
    lemma_run_append(s0, head, es);
    lemma_run_append(s0, head + es, tail);
    lemma_run_len(s0, head);
    lemma_run_len(s0, head + es);
    assert(tail.drop_first() =~= seq![]);
    assert(seq![] + es.map_values(|r: Response| entry_of(r)) =~= es.map_values(
        |r: Response| entry_of(r),
    ));
    lemma_run_len(s0, rs);
    let s3 = run(s2, es).0;
    assert(tail[0] == Response::EndList);
    assert(run(next(s3, Response::EndList).0, tail.drop_first()).0 == next(s3, Response::EndList).0);
    assert(run(s3, tail).0 == next(s3, Response::EndList).0);
    assert(run(s3, tail).1 =~= seq![next(s3, Response::EndList).1]);
    assert((head + es)[0] == head[0]);
}

pub open spec fn all_subscriptions(rs: Seq<Response>) -> bool {
    forall|i: int| 0 <= i < rs.len() ==> (#[trigger] rs[i]) is Subscription
}

/// While listing subscriptions, each `Subscription` response appends its
/// record, in the order received, and is answered by `Receive`.
proof fn lemma_listing_subscriptions(s: SessionView, rs: Seq<Response>)
    requires
        s.phase is Listing,
        s.op is ListSubscriptions,
        all_subscriptions(rs),
    ensures
        run(s, rs).0 == (SessionView {
            subscriptions: s.subscriptions + rs.map_values(|r: Response| subscription_of(r)),
            ..s
        }),
    decreases rs.len(),
{
    if rs.len() == 0 {
        assert(s.subscriptions + rs.map_values(|r: Response| subscription_of(r)) =~= s.subscriptions);
    } else {
        let s1 = next(s, rs[0]).0;
        assert(all_subscriptions(rs.drop_first())) by {
            assert forall|i: int| 0 <= i < rs.drop_first().len() implies (#[trigger] rs.drop_first()[i]) is Subscription by {
                assert(rs.drop_first()[i] == rs[i + 1]);
            }
        }
        lemma_listing_subscriptions(s1, rs.drop_first());
        assert(s1.subscriptions + rs.drop_first().map_values(|r: Response| subscription_of(r))
            =~= s.subscriptions + rs.map_values(|r: Response| subscription_of(r)));
    }
}

/// A subscription listing collects exactly one record per `Subscription`
/// response between `StartSubscriptionList` and `EndList`, in the order
/// received, and then completes.
pub proof fn lemma_subscriptions_in_order(user_id: i64, subs: Seq<Response>)
    requires
        all_subscriptions(subs),
    ensures
        ({
            let rs = seq![Response::AckUser { id: user_id }, Response::StartSubscriptionList] + subs
                + seq![Response::EndList];
            let (s, acts) = run(initial(Operation::ListSubscriptions), rs);
            &&& s.subscriptions == subs.map_values(|r: Response| subscription_of(r))
            &&& s.phase is Done
            &&& acts[0] == Action::Send(Command::ListSubscriptions)
            &&& acts[rs.len() - 1] == Action::Finish
        }),
{
    let s0 = initial(Operation::ListSubscriptions);
    let head = seq![Response::AckUser { id: user_id }, Response::StartSubscriptionList];
    let tail = seq![Response::EndList];
    let rs = head + subs + tail;
    let s1 = next(s0, head[0]).0;
    let s2 = next(s1, head.drop_first()[0]).0;
    assert(head.drop_first().drop_first() =~= seq![]);
    assert(head.drop_first()[0] == Response::StartSubscriptionList);
    assert(head[0] == Response::AckUser { id: user_id });
    assert(run(s2, head.drop_first().drop_first()).0 == s2);
    assert(run(s1, head.drop_first()).0 == s2);
    assert(run(s0, head).0 == s2);
    assert(run(s0, head).1 == seq![Action::Send(Command::ListSubscriptions), Action::Receive]);
    lemma_listing_subscriptions(s2, subs);
    lemma_run_append(s0, head, subs);
    lemma_run_append(s0, head + subs, tail);
    lemma_run_len(s0, head);
    lemma_run_len(s0, head + subs);
    assert(tail.drop_first() =~= seq![]);
    assert(seq![] + subs.map_values(|r: Response| subscription_of(r)) =~= subs.map_values(
        |r: Response| subscription_of(r),
    ));
    lemma_run_len(s0, rs);
    let s3 = run(s2, subs).0;
    assert(tail[0] == Response::EndList);
    assert(run(next(s3, Response::EndList).0, tail.drop_first()).0 == next(s3, Response::EndList).0);
    assert(run(s3, tail).0 == next(s3, Response::EndList).0);
    assert(run(s3, tail).1 =~= seq![next(s3, Response::EndList).1]);
    assert((head + subs)[0] == head[0]);
}

} // verus!

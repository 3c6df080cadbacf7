use vstd::prelude::*;

use crate::keys::{is_secret_key, keys_of};
use crate::routes::{Command, KeystacheMessage, Route, RouteName};

verus! {

/// `states` are the routes that a run of `msgs` passes through, `states[0]`
/// where it starts, and `cmds` what each event asked for.
pub open spec fn is_run<S, R>(
    states: Seq<Route<S, R>>,
    msgs: Seq<KeystacheMessage<S, R>>,
    cmds: Seq<Command<R>>,
) -> bool {
    &&& states.len() == msgs.len() + 1
    &&& cmds.len() == msgs.len()
    &&& forall|i: int|
        0 <= i < msgs.len() ==> #[trigger] Route::transition(states[i], msgs[i], states[i + 1], cmds[i])
}

/// The requests carried by a sequence of events, in the order they came.
pub open spec fn arrivals<S, R>(msgs: Seq<KeystacheMessage<S, R>>) -> Seq<R>
    decreases msgs.len(),
{
    if msgs.len() == 0 {
        Seq::empty()
    } else {
        let rest = arrivals(msgs.drop_last());
        match msgs.last() {
            KeystacheMessage::IncomingNip46Request(req) => rest.push(req),
            _ => rest,
        }
    }
}

/// One step never leaves the unlock screen but on the store being opened.
pub proof fn lemma_leaves_unlock_only_when_opened<S, R>(
    old: Route<S, R>,
    msg: KeystacheMessage<S, R>,
    new: Route<S, R>,
    cmd: Command<R>,
)
    requires
        Route::transition(old, msg, new, cmd),
        old is Unlock,
        !(new is Unlock),
    ensures
        msg is DbOpened,
{
}

/// In any run that starts locked, every screen other than the unlock screen
/// is reached after an event that opened the store on the unlock screen,
/// with no return to the unlock screen in between.
pub proof fn lemma_no_screen_before_unlock<S, R>(
    states: Seq<Route<S, R>>,
    msgs: Seq<KeystacheMessage<S, R>>,
    cmds: Seq<Command<R>>,
    j: int,
)
    requires
        is_run(states, msgs, cmds),
        states[0] is Unlock,
        0 <= j < states.len(),
        !(states[j] is Unlock),
    ensures
        exists|i: int|
            #![trigger states[i]]
            0 <= i < j && states[i] is Unlock && msgs[i] is DbOpened && forall|k: int|
                i < k <= j ==> !(#[trigger] states[k] is Unlock),
    decreases j,
{
    assert(Route::transition(states[j - 1], msgs[j - 1], states[(j - 1) + 1], cmds[j - 1]));
    if states[j - 1] is Unlock {
        lemma_leaves_unlock_only_when_opened(states[j - 1], msgs[j - 1], states[j], cmds[j - 1]);
        assert forall|k: int| j - 1 < k <= j implies !(#[trigger] states[k] is Unlock) by {
            assert(k == j);
        }
    } else {
        lemma_no_screen_before_unlock(states, msgs, cmds, j - 1);
        let i = choose|i: int|
            #![trigger states[i]]
            0 <= i < j - 1 && states[i] is Unlock && msgs[i] is DbOpened && forall|k: int|
                i < k <= j - 1 ==> !(#[trigger] states[k] is Unlock);
        assert forall|k: int| i < k <= j implies !(#[trigger] states[k] is Unlock) by {
            if k < j {
            }
        }
    }
}

/// Locking again drops the session: no request of it stays reachable,
/// resolving on the fresh unlock screen answers nothing and changes nothing,
/// and the next session opened starts with no request waiting.
pub proof fn lemma_relock_drops_session<S, R>(
    old: Route<S, R>,
    new: Route<S, R>,
    cmd: Command<R>,
    msg: KeystacheMessage<S, R>,
    after: Route<S, R>,
    cmd2: Command<R>,
    db: S,
    reopened: Route<S, R>,
    cmd3: Command<R>,
)
    requires
        Route::transition(old, KeystacheMessage::Navigate(RouteName::Unlock), new, cmd),
        msg is ApproveFirstIncomingNip46Request || msg is RejectFirstIncomingNip46Request,
        Route::transition(new, msg, after, cmd2),
        Route::transition(new, KeystacheMessage::DbOpened(db), reopened, cmd3),
    ensures
        new.session() is None,
        new.queue() == Seq::<R>::empty(),
        after == new,
        cmd2 is Nothing,
        reopened.db() == Some(db),
        reopened.queue() == Seq::<R>::empty(),
{
}

/// The requests answered by a sequence of commands, in the order answered.
pub open spec fn answered<R>(cmds: Seq<Command<R>>) -> Seq<R>
    decreases cmds.len(),
{
    if cmds.len() == 0 {
        Seq::empty()
    } else {
        let rest = answered(cmds.drop_last());
        match cmds.last() {
            Command::Respond(req, _) => rest.push(req),
            _ => rest,
        }
    }
}

/// Signing requests are served first in, first out: along any run of
/// arrivals, approvals and rejections on a session, the requests answered,
/// followed by those still waiting, are those that waited at the start
/// followed by those that arrived, each in its order. While locked, arriving
/// requests are dropped and nothing is answered.
pub proof fn lemma_requests_served_in_arrival_order<S, R>(
    states: Seq<Route<S, R>>,
    msgs: Seq<KeystacheMessage<S, R>>,
    cmds: Seq<Command<R>>,
)
    requires
        is_run(states, msgs, cmds),
        forall|i: int|
            0 <= i < msgs.len() ==> {
                ||| #[trigger] msgs[i] is IncomingNip46Request
                ||| msgs[i] is ApproveFirstIncomingNip46Request
                ||| msgs[i] is RejectFirstIncomingNip46Request
            },
    ensures
        states[0].session() is Some ==> {
            &&& states.last().same_screen(states[0])
            &&& states.last().db() == states[0].db()
            &&& answered(cmds) + states.last().queue() == states[0].queue() + arrivals(msgs)
        },
        states[0].session() is None ==> states.last() == states[0] && answered(cmds) == Seq::<R>::empty(),
    decreases msgs.len(),
{
    let n = msgs.len() as int;
    if n == 0 {
        assert(arrivals(msgs) =~= Seq::<R>::empty());
        assert(answered(cmds) =~= Seq::<R>::empty());
        assert(answered(cmds) + states[0].queue() =~= states[0].queue() + arrivals(msgs));
    } else {
        let states2 = states.drop_last();
        let msgs2 = msgs.drop_last();
        let cmds2 = cmds.drop_last();
        assert forall|i: int| 0 <= i < msgs2.len() implies #[trigger] Route::transition(
            states2[i],
            msgs2[i],
            states2[i + 1],
            cmds2[i],
        ) by {
            assert(Route::transition(states[i], msgs[i], states[i + 1], cmds[i]));
        }
        assert forall|i: int| 0 <= i < msgs2.len() implies {
            ||| #[trigger] msgs2[i] is IncomingNip46Request
            ||| msgs2[i] is ApproveFirstIncomingNip46Request
            ||| msgs2[i] is RejectFirstIncomingNip46Request
        } by {
            assert(msgs[i] == msgs2[i]);
            assert(msgs[i] is IncomingNip46Request || msgs[i] is ApproveFirstIncomingNip46Request
                || msgs[i] is RejectFirstIncomingNip46Request);
        }
        lemma_requests_served_in_arrival_order(states2, msgs2, cmds2);
        assert(Route::transition(states[n - 1], msgs[n - 1], states[(n - 1) + 1], cmds[n - 1]));
        assert(msgs[n - 1] is IncomingNip46Request || msgs[n - 1] is ApproveFirstIncomingNip46Request
            || msgs[n - 1] is RejectFirstIncomingNip46Request);
        assert(states2.last() == states[n - 1]);
        assert(cmds2 == cmds.drop_last());
        let q = states[n - 1].queue();
        let a = answered(cmds2);
        if states[0].session() is Some {
            if msgs[n - 1] is IncomingNip46Request {
                assert(a + q.push(msgs[n - 1]->IncomingNip46Request_0) =~= (a + q).push(
                    msgs[n - 1]->IncomingNip46Request_0,
                ));
            } else if q.len() > 0 {
                assert(a.push(q[0]) + q.drop_first() =~= a + q);
            }
        }
    }
}

/// Resolving with no request waiting changes nothing and answers nothing.
pub proof fn lemma_resolve_on_empty_queue<S, R>(
    old: Route<S, R>,
    msg: KeystacheMessage<S, R>,
    new: Route<S, R>,
    cmd: Command<R>,
)
    requires
        msg is ApproveFirstIncomingNip46Request || msg is RejectFirstIncomingNip46Request,
        old.queue().len() == 0,
        Route::transition(old, msg, new, cmd),
    ensures
        new == old,
        cmd is Nothing,
{
}

/// On the add form, a new secret key text leaves a keypair exactly when the
/// text is a valid secret key, and giving the same text again changes nothing.
pub proof fn lemma_nsec_input_parses<S, R>(
    old: Route<S, R>,
    text: String,
    new: Route<S, R>,
    cmd: Command<R>,
    again: Route<S, R>,
    cmd2: Command<R>,
)
    requires
        old.is_on_add_form(),
        Route::transition(old, KeystacheMessage::SaveKeypairNsecInputChanged(text), new, cmd),
        Route::transition(new, KeystacheMessage::SaveKeypairNsecInputChanged(text), again, cmd2),
    ensures
        new.is_on_add_form(),
        new->NostrKeypairs_0.subroute->Add_0.keypair_or is Some <==> is_secret_key(text@),
        new->NostrKeypairs_0.subroute->Add_0.keypair_or == keys_of(text@),
        again == new,
        cmd is Nothing && cmd2 is Nothing,
{
}

} // verus!

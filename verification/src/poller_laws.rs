//! What holds of the update poller, whatever is reported to it.

use crate::poller::{
    initial, poll_actions, poll_run, poll_step, ActionModel, PollerEvent,
    PollerInput, PollerModel, PollerPhase, POLL_INTERVAL_SECS,
};
use vstd::prelude::*;

verus! {

/// The number of announcements among some actions.
pub open spec fn notifications(actions: Seq<ActionModel>) -> nat
    decreases actions.len(),
{
    if actions.len() == 0 {
        0
    } else if actions.last() is Notify {
        notifications(actions.drop_last()) + 1
    } else {
        notifications(actions.drop_last())
    }
}

/// The poller is between two updates: it waits or checks.
pub open spec fn polling(state: PollerModel) -> bool {
    state.phase is Idle || state.phase is Checking
}

/// The input reports that the poller woke.
pub open spec fn is_woke(input: PollerInput) -> bool {
    input matches PollerInput::Report(event) && event is Woke
}

/// The input reports that there is no update.
pub open spec fn is_no_update(input: PollerInput) -> bool {
    input matches PollerInput::Report(event) && event is NoUpdate
}

/// The input reports a failure.
pub open spec fn is_failed(input: PollerInput) -> bool {
    input matches PollerInput::Report(event) && event is Failed
}

/// The input asks the poller to stop.
pub open spec fn is_cancel(input: PollerInput) -> bool {
    input matches PollerInput::Report(event) && event is CancelRequested
}

/// Inputs that come one after another take the poller where the first part
/// of them and then the rest take it, and are answered accordingly.
pub proof fn lemma_poll_append(state: PollerModel, first: Seq<PollerInput>, rest: Seq<PollerInput>)
    ensures
        poll_run(state, first + rest) == poll_run(poll_run(state, first), rest),
        poll_actions(state, first + rest) == poll_actions(state, first) + poll_actions(
            poll_run(state, first),
            rest,
        ),
    decreases rest.len(),
{
    if rest.len() == 0 {
        assert(first + rest =~= first);
        assert(poll_actions(state, first) + Seq::<ActionModel>::empty() =~= poll_actions(
            state,
            first,
        ));
    } else {
        lemma_poll_append(state, first, rest.drop_last());
        assert((first + rest).drop_last() =~= first + rest.drop_last());
        assert((first + rest).last() == rest.last());
        let middle = poll_run(state, first);
        assert(poll_actions(state, first + rest) =~= poll_actions(state, first) + poll_actions(
            middle,
            rest,
        ));
    }
}

/// One event takes the poller one step and is answered by one action.
pub proof fn lemma_poll_one(state: PollerModel, event: PollerEvent)
    ensures
        poll_run(state, seq![PollerInput::Report(event)]) == poll_step(state, event).0,
        poll_actions(state, seq![PollerInput::Report(event)]) == seq![
            poll_step(state, event).1,
        ],
{
    let one = seq![PollerInput::Report(event)];
    assert(one.drop_last() =~= Seq::<PollerInput>::empty());
    assert(poll_run(state, one.drop_last()) == state);
    assert(poll_actions(state, one.drop_last()) =~= Seq::<ActionModel>::empty());
    assert(poll_actions(state, one) =~= seq![poll_step(state, event).1]);
}

/// The announcements among two runs of actions are those of the one and
/// those of the other.
pub proof fn lemma_notifications_add(first: Seq<ActionModel>, rest: Seq<ActionModel>)
    ensures
        notifications(first + rest) == notifications(first) + notifications(rest),
    decreases rest.len(),
{
    if rest.len() == 0 {
        assert(first + rest =~= first);
    } else {
        lemma_notifications_add(first, rest.drop_last());
        assert((first + rest).drop_last() =~= first + rest.drop_last());
        assert((first + rest).last() == rest.last());
    }
}

/// No action is one of a kind that none of the actions before it and not
/// the last one is.
proof fn lemma_actions_extend(
    state: PollerModel,
    inputs: Seq<PollerInput>,
    allowed: spec_fn(ActionModel) -> bool,
)
    requires
        inputs.len() > 0,
        forall|i: int|
            0 <= i < poll_actions(state, inputs.drop_last()).len() ==> allowed(
                #[trigger] poll_actions(state, inputs.drop_last())[i],
            ),
        inputs.last() matches PollerInput::Report(event) ==> allowed(
            poll_step(poll_run(state, inputs.drop_last()), event).1,
        ),
    ensures
        forall|i: int|
            0 <= i < poll_actions(state, inputs).len() ==> allowed(
                #[trigger] poll_actions(state, inputs)[i],
            ),
{
    let before = poll_actions(state, inputs.drop_last());
    assert forall|i: int| 0 <= i < poll_actions(state, inputs).len() implies allowed(
        #[trigger] poll_actions(state, inputs)[i],
    ) by {
        if i < before.len() {
            assert(poll_actions(state, inputs)[i] == before[i]);
        }
    }
}

/// No failure ends the poller: unless it is asked to stop, it never stops
/// and never tells the caller to.
pub proof fn lemma_runs_until_asked_to_stop(state: PollerModel, inputs: Seq<PollerInput>)
    requires
        !(state.phase is Stopped),
        forall|i: int| 0 <= i < inputs.len() ==> !is_cancel(inputs[i]),
    ensures
        !(poll_run(state, inputs).phase is Stopped),
        forall|i: int|
            0 <= i < poll_actions(state, inputs).len() ==> !(#[trigger] poll_actions(
                state,
                inputs,
            )[i] is Stop),
    decreases inputs.len(),
{
    if inputs.len() > 0 {
        lemma_runs_until_asked_to_stop(state, inputs.drop_last());
        assert(!is_cancel(inputs.last()));
        lemma_actions_extend(state, inputs, |action: ActionModel| !(action is Stop));
    }
}

/// A stopped poller stays stopped.
pub proof fn lemma_stopped_stays(state: PollerModel, inputs: Seq<PollerInput>)
    requires
        state.phase is Stopped,
    ensures
        poll_run(state, inputs) == state,
    decreases inputs.len(),
{
    if inputs.len() > 0 {
        lemma_stopped_stays(state, inputs.drop_last());
    }
}

/// A poller that is asked to stop is told to, in whatever phase it is, and
/// has stopped for good.
pub proof fn lemma_stop_is_honoured(state: PollerModel, inputs: Seq<PollerInput>)
    ensures
        poll_step(state, PollerEvent::CancelRequested).1 is Stop,
        poll_run(
            state,
            seq![PollerInput::Report(PollerEvent::CancelRequested)] + inputs,
        ).phase is Stopped,
{
    let asked = seq![PollerInput::Report(PollerEvent::CancelRequested)];
    lemma_poll_append(state, asked, inputs);
    lemma_poll_one(state, PollerEvent::CancelRequested);
    lemma_stopped_stays(poll_step(state, PollerEvent::CancelRequested).0, inputs);
}

/// While the update source only ever has nothing newer, the poller goes on
/// polling: it checks or waits the fixed time, and never downloads,
/// installs, announces or stops.
pub proof fn lemma_no_update_no_download(state: PollerModel, inputs: Seq<PollerInput>)
    requires
        polling(state),
        forall|i: int| 0 <= i < inputs.len() ==> is_woke(inputs[i]) || is_no_update(inputs[i]),
    ensures
        polling(poll_run(state, inputs)),
        forall|i: int|
            0 <= i < poll_actions(state, inputs).len() ==> {
                let action = #[trigger] poll_actions(state, inputs)[i];
                action is Check || action == (ActionModel::Sleep { seconds: POLL_INTERVAL_SECS })
            },
    decreases inputs.len(),
{
    if inputs.len() > 0 {
        lemma_no_update_no_download(state, inputs.drop_last());
        assert(is_woke(inputs.last()) || is_no_update(inputs.last()));
        lemma_actions_extend(
            state,
            inputs,
            |action: ActionModel|
                action is Check || action == (ActionModel::Sleep { seconds: POLL_INTERVAL_SECS }),
        );
    }
}

/// A poller that is woken and told of no update in turn checks and waits
/// the fixed time in turn, for as long as that goes on.
pub proof fn lemma_no_update_cycle(inputs: Seq<PollerInput>)
    requires
        forall|i: int| 0 <= i < inputs.len() && i % 2 == 0 ==> is_woke(inputs[i]),
        forall|i: int| 0 <= i < inputs.len() && i % 2 == 1 ==> is_no_update(inputs[i]),
    ensures
        poll_run(initial(), inputs) == (PollerModel {
            phase: if inputs.len() % 2 == 0 {
                PollerPhase::Idle
            } else {
                PollerPhase::Checking
            },
            ..initial()
        }),
        poll_actions(initial(), inputs).len() == inputs.len(),
        forall|i: int|
            0 <= i < inputs.len() && i % 2 == 0 ==> #[trigger] poll_actions(initial(), inputs)[i]
                is Check,
        forall|i: int|
            0 <= i < inputs.len() && i % 2 == 1 ==> #[trigger] poll_actions(initial(), inputs)[i]
                == (ActionModel::Sleep { seconds: POLL_INTERVAL_SECS }),
    decreases inputs.len(),
{
    if inputs.len() > 0 {
        let before = inputs.drop_last();
        lemma_no_update_cycle(before);
        let last = inputs.len() - 1;
        assert(is_woke(inputs[last]) || is_no_update(inputs[last]));
        assert forall|i: int| 0 <= i < before.len() implies poll_actions(initial(), inputs)[i]
            == poll_actions(initial(), before)[i] by {}
    }
}

/// While a download goes on, the poller stays with the version it found
/// and tells the caller nothing new.
pub proof fn lemma_download_goes_on(state: PollerModel, progress: Seq<PollerInput>)
    requires
        state.phase is Downloading,
        forall|i: int| 0 <= i < progress.len() ==> progress[i] is Progress,
    ensures
        poll_run(state, progress).phase is Downloading || poll_run(state, progress).phase
            is Installing,
        poll_run(state, progress).version == state.version,
        poll_actions(state, progress) == Seq::<ActionModel>::empty(),
    decreases progress.len(),
{
    if progress.len() > 0 {
        lemma_download_goes_on(state, progress.drop_last());
        assert(progress.last() is Progress);
    }
}

/// While every check fails, the poller goes on polling and announces
/// nothing.
pub proof fn lemma_failed_checks_announce_nothing(state: PollerModel, inputs: Seq<PollerInput>)
    requires
        polling(state),
        forall|i: int| 0 <= i < inputs.len() ==> is_woke(inputs[i]) || is_failed(inputs[i]),
    ensures
        polling(poll_run(state, inputs)),
        notifications(poll_actions(state, inputs)) == 0,
    decreases inputs.len(),
{
    if inputs.len() > 0 {
        lemma_failed_checks_announce_nothing(state, inputs.drop_last());
        assert(is_woke(inputs.last()) || is_failed(inputs.last()));
        assert(poll_actions(state, inputs).drop_last() =~= poll_actions(
            state,
            inputs.drop_last(),
        ));
    }
}

/// The inputs of one cycle in which a version is found, downloaded with
/// word of its `progress`, installed and announced.
pub open spec fn update_cycle(version: String, progress: Seq<PollerInput>) -> Seq<PollerInput> {
    seq![
        PollerInput::Report(PollerEvent::Woke),
        PollerInput::Report(PollerEvent::UpdateAvailable { version }),
    ] + progress + seq![
        PollerInput::Report(PollerEvent::Installed),
        PollerInput::Report(PollerEvent::Notified),
    ]
}

/// A poller whose first check finds an update, and whose every later check
/// fails, announces that update, once, and goes on polling.
pub proof fn lemma_update_once_then_failures(
    version: String,
    progress: Seq<PollerInput>,
    later: Seq<PollerInput>,
)
    requires
        forall|i: int| 0 <= i < progress.len() ==> progress[i] is Progress,
        forall|i: int| 0 <= i < later.len() ==> is_woke(later[i]) || is_failed(later[i]),
    ensures
        notifications(poll_actions(initial(), update_cycle(version, progress) + later)) == 1,
        poll_actions(initial(), update_cycle(version, progress) + later)[2] == (
        ActionModel::Notify { version: version@ }),
        polling(poll_run(initial(), update_cycle(version, progress) + later)),
{
    let woke = PollerEvent::Woke;
    let found = PollerEvent::UpdateAvailable { version };
    let head = seq![PollerInput::Report(woke), PollerInput::Report(found)];
    let tail = seq![
        PollerInput::Report(PollerEvent::Installed),
        PollerInput::Report(PollerEvent::Notified),
    ];
    let cycle = update_cycle(version, progress);

    // The check that finds the update.
    assert(head =~= seq![PollerInput::Report(woke)] + seq![PollerInput::Report(found)]);
    let checking = poll_step(initial(), woke).0;
    let downloading = poll_step(checking, found).0;
    lemma_poll_one(initial(), woke);
    lemma_poll_one(checking, found);
    lemma_poll_append(initial(), seq![PollerInput::Report(woke)], seq![PollerInput::Report(found)]);
    assert(poll_run(initial(), head) == downloading);
    let head_actions = poll_actions(initial(), head);
    assert(head_actions =~= seq![ActionModel::Check, ActionModel::DownloadAndInstall]);
    assert(notifications(head_actions) == 0) by {
        reveal_with_fuel(notifications, 3);
        assert(head_actions.drop_last() =~= seq![ActionModel::Check]);
        assert(head_actions.drop_last().drop_last() =~= Seq::<ActionModel>::empty());
    }

    // The download.
    lemma_download_goes_on(downloading, progress);
    let loaded = poll_run(downloading, progress);

    // The installation and the announcement.
    assert(tail =~= seq![PollerInput::Report(PollerEvent::Installed)] + seq![
        PollerInput::Report(PollerEvent::Notified),
    ]);
    let ready = poll_step(loaded, PollerEvent::Installed).0;
    let idle = poll_step(ready, PollerEvent::Notified).0;
    lemma_poll_one(loaded, PollerEvent::Installed);
    lemma_poll_one(ready, PollerEvent::Notified);
    lemma_poll_append(
        loaded,
        seq![PollerInput::Report(PollerEvent::Installed)],
        seq![PollerInput::Report(PollerEvent::Notified)],
    );
    assert(poll_run(loaded, tail) == idle);
    let tail_actions = poll_actions(loaded, tail);
    assert(tail_actions =~= seq![
        ActionModel::Notify { version: version@ },
        ActionModel::Sleep { seconds: POLL_INTERVAL_SECS },
    ]);
    assert(notifications(tail_actions) == 1) by {
        reveal_with_fuel(notifications, 3);
        assert(tail_actions.drop_last() =~= seq![ActionModel::Notify { version: version@ }]);
        assert(tail_actions.drop_last().drop_last() =~= Seq::<ActionModel>::empty());
    }

    // The whole cycle, and the failing checks after it.
    lemma_poll_append(initial(), head, progress);
    lemma_poll_append(initial(), head + progress, tail);
    lemma_poll_append(initial(), cycle, later);
    lemma_failed_checks_announce_nothing(idle, later);
    let later_actions = poll_actions(idle, later);
    assert(poll_actions(initial(), head + progress) =~= head_actions);
    lemma_notifications_add(head_actions, tail_actions);
    lemma_notifications_add(head_actions + tail_actions, later_actions);
    assert(poll_actions(initial(), cycle + later) == head_actions + tail_actions + later_actions);
}

} // verus!

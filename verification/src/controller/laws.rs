use vstd::prelude::*;

use crate::capture::mic::WatchdogSnapshot;
use crate::controller::events::ControllerEventView;
use crate::controller::machine::{
    emit_state, emit_stopped, notify, spec_watchdog_reason, ActionView, ControllerView, InputView,
    Outcome, ReplyView,
};
use crate::controller::state::ControllerStateView;

verus! {

/// The controller and the actions issued after taking `inputs` one by one.
pub open spec fn run(c: ControllerView, inputs: Seq<InputView>) -> Outcome
    decreases inputs.len(),
{
    if inputs.len() == 0 {
        (c, Seq::empty())
    } else {
        let before = run(c, inputs.drop_last());
        let last = before.0.step(inputs.last());
        (last.0, before.1 + last.1)
    }
}

/// The final output, if it occurs among the actions at all, is the last of them.
pub open spec fn stopped_only_last(actions: Seq<ActionView>) -> bool {
    forall|i: int| 0 <= i < actions.len() && #[trigger] actions[i] == emit_stopped() ==> i == actions.len() - 1
}

/// Whether the final output occurs among the actions.
pub open spec fn has_stopped(actions: Seq<ActionView>) -> bool {
    exists|i: int| 0 <= i < actions.len() && #[trigger] actions[i] == emit_stopped()
}

/// Whether an action ends the run with an error.
pub open spec fn has_failure(actions: Seq<ActionView>) -> bool {
    exists|i: int| 0 <= i < actions.len() && #[trigger] actions[i] is Fail
}

/// A controller whose run has ended issues nothing and stays ended.
pub proof fn lemma_halted_is_silent(c: ControllerView, input: InputView)
    requires
        c.halted,
    ensures
        c.step(input).1.len() == 0,
        c.step(input).0.halted,
        c.step(input).0.state == c.state,
{
}

/// One step publishes the final output at most once and as its last action, and only
/// when it ends the run.
pub proof fn lemma_step_stops_last(c: ControllerView, input: InputView)
    ensures
        stopped_only_last(c.step(input).1),
        has_stopped(c.step(input).1) ==> c.step(input).0.halted && !c.halted,
{
    let out = c.step(input).1;
    if c.halted {
    } else {
        match input {
            InputView::Event(event) => {
                if c.pending is Nothing {
                    match event {
                        ControllerEventView::Shutdown => {
                            assert(out.last() == emit_stopped());
                        },
                        _ => {},
                    }
                }
            },
            _ => {},
        }
    }
}

/// Over a whole run the final output is published at most once, nothing is issued after
/// it, and it is published only by a controller that has then ended.
pub proof fn lemma_run_stops_once_and_last(c: ControllerView, inputs: Seq<InputView>)
    ensures
        stopped_only_last(run(c, inputs).1),
        has_stopped(run(c, inputs).1) ==> run(c, inputs).0.halted,
        c.halted ==> run(c, inputs).1.len() == 0 && run(c, inputs).0.halted,
    decreases inputs.len(),
{
    if inputs.len() > 0 {
        let before = run(c, inputs.drop_last());
        let last = before.0.step(inputs.last());
        lemma_run_stops_once_and_last(c, inputs.drop_last());
        lemma_step_stops_last(before.0, inputs.last());
        if before.0.halted {
            lemma_halted_is_silent(before.0, inputs.last());
            assert(before.1 + last.1 =~= before.1);
        } else {
            assert(!has_stopped(before.1));
            let all = before.1 + last.1;
            assert forall|i: int| 0 <= i < all.len() && #[trigger] all[i] == emit_stopped() implies i
                == all.len() - 1 by {
                if i < before.1.len() {
                    assert(before.1[i] == emit_stopped());
                } else {
                    assert(last.1[i - before.1.len()] == emit_stopped());
                }
            }
            if has_stopped(all) {
                let i = choose|i: int| 0 <= i < all.len() && #[trigger] all[i] == emit_stopped();
                if i < before.1.len() {
                    assert(before.1[i] == emit_stopped());
                } else {
                    assert(last.1[i - before.1.len()] == emit_stopped());
                }
            }
        }
    }
}

/// How often the final output occurs among the actions.
pub open spec fn count_stopped(actions: Seq<ActionView>) -> nat
    decreases actions.len(),
{
    if actions.len() == 0 {
        0
    } else {
        count_stopped(actions.drop_last()) + if actions.last() == emit_stopped() {
            1nat
        } else {
            0nat
        }
    }
}

/// Actions among which the final output can only be last hold it at most once, and
/// exactly once if they hold it at all.
pub proof fn lemma_last_means_once(actions: Seq<ActionView>)
    requires
        stopped_only_last(actions),
    ensures
        count_stopped(actions) <= 1,
        has_stopped(actions) <==> count_stopped(actions) == 1,
    decreases actions.len(),
{
    if actions.len() > 0 {
        let init = actions.drop_last();
        assert forall|i: int| 0 <= i < init.len() implies #[trigger] init[i] != emit_stopped() by {
            assert(actions[i] == init[i]);
        }
        lemma_none_means_zero(init);
        if has_stopped(actions) {
            let i = choose|i: int| 0 <= i < actions.len() && #[trigger] actions[i] == emit_stopped();
            assert(i == actions.len() - 1);
        }
    }
}

proof fn lemma_none_means_zero(actions: Seq<ActionView>)
    requires
        forall|i: int| 0 <= i < actions.len() ==> #[trigger] actions[i] != emit_stopped(),
    ensures
        count_stopped(actions) == 0,
    decreases actions.len(),
{
    if actions.len() > 0 {
        let init = actions.drop_last();
        assert forall|i: int| 0 <= i < init.len() implies #[trigger] init[i] != emit_stopped() by {
            assert(actions[i] == init[i]);
        }
        lemma_none_means_zero(init);
    }
}

/// A run in which a shutdown is taken by a running controller that waits for nothing
/// publishes the final output exactly once, as the last action of the whole run, no
/// matter what was taken before and what is still taken afterwards.
pub proof fn lemma_run_with_shutdown_stops_exactly_once(
    c: ControllerView,
    before: Seq<InputView>,
    after: Seq<InputView>,
)
    requires
        !run(c, before).0.halted,
        run(c, before).0.pending is Nothing,
    ensures
        ({
            let all = run(c, before.push(InputView::Event(ControllerEventView::Shutdown)) + after).1;
            &&& count_stopped(all) == 1
            &&& all.last() == emit_stopped()
        }),
{
    let shutdown = InputView::Event(ControllerEventView::Shutdown);
    let upto = before.push(shutdown);
    assert(upto.drop_last() =~= before);
    lemma_shutdown_stops(run(c, before).0);
    let at_stop = run(c, upto);
    assert(at_stop.0.halted);
    assert(at_stop.1.last() == emit_stopped());
    lemma_run_splits(c, upto, after);
    lemma_run_stops_once_and_last(at_stop.0, after);
    let all = run(c, upto + after).1;
    assert(all =~= at_stop.1);
    lemma_run_stops_once_and_last(c, upto + after);
    lemma_last_means_once(all);
    assert(all[all.len() - 1] == emit_stopped());
}

/// Taking two series of inputs one after the other is taking their concatenation.
pub proof fn lemma_run_splits(c: ControllerView, first: Seq<InputView>, second: Seq<InputView>)
    ensures
        run(c, first + second).0 == run(run(c, first).0, second).0,
        run(c, first + second).1 == run(c, first).1 + run(run(c, first).0, second).1,
    decreases second.len(),
{
    if second.len() == 0 {
        assert(first + second =~= first);
        assert(run(c, first).1 + Seq::<ActionView>::empty() =~= run(c, first).1);
    } else {
        let all = first + second;
        assert(all.drop_last() =~= first + second.drop_last());
        assert(all.last() == second.last());
        lemma_run_splits(c, first, second.drop_last());
        let mid = run(c, first);
        let inner = run(mid.0, second.drop_last());
        let step = inner.0.step(second.last());
        assert(mid.1 + (inner.1 + step.1) =~= (mid.1 + inner.1) + step.1);
    }
}

/// A shutdown taken by a running controller that waits for nothing ends the run: the
/// worker is stopped and the final output is the last action.
pub proof fn lemma_shutdown_stops(c: ControllerView)
    requires
        !c.halted,
        c.pending is Nothing,
    ensures
        c.step(InputView::Event(ControllerEventView::Shutdown)).0.halted,
        !c.step(InputView::Event(ControllerEventView::Shutdown)).0.recording,
        c.step(InputView::Event(ControllerEventView::Shutdown)).1.last() == emit_stopped(),
        c.recording ==> c.step(InputView::Event(ControllerEventView::Shutdown)).1[0]
            == ActionView::AbortRecording,
{
}

/// Every run keeps the controller consistent; in particular its queue never holds more
/// than the one job it admits.
pub proof fn lemma_run_keeps_consistency(c: ControllerView, inputs: Seq<InputView>)
    requires
        c.consistent(),
    ensures
        run(c, inputs).0.consistent(),
        run(c, inputs).0.queue.in_flight + run(c, inputs).0.queue.pending.len() <= 1,
    decreases inputs.len(),
{
    if inputs.len() > 0 {
        lemma_run_keeps_consistency(c, inputs.drop_last());
        crate::controller::machine::lemma_step_keeps_consistency(
            run(c, inputs.drop_last()).0,
            inputs.last(),
        );
    }
}

/// A consistent controller ends its run with an error only when a channel is closed:
/// the queue never refuses or mixes up the capture that was just stopped.
pub proof fn lemma_only_faults_fail(c: ControllerView, input: InputView)
    requires
        c.consistent(),
        has_failure(c.step(input).1),
    ensures
        input is Fault,
{
    let out = c.step(input).1;
    let i = choose|i: int| 0 <= i < out.len() && #[trigger] out[i] is Fail;
    if !(input is Fault) {
        if !c.halted {
            match input {
                InputView::Reply(ReplyView::RecordingStopped(Ok(wav_path))) => {
                    if c.queue.has_room() {
                        assert(c.queue.pending.len() == 0);
                        assert(c.queue.enqueued(wav_path).pending[0] == wav_path);
                    }
                },
                _ => {},
            }
        }
        assert(false);
    }
}

/// Whenever a step moves the controller into a degraded or unavailable state, the state
/// is published and the very next action is the notification of its reason.
pub proof fn lemma_state_is_published_before_its_reason(c: ControllerView, input: InputView)
    requires
        c.step(input).0.state != c.state,
        c.step(input).0.state.reason() is Some,
    ensures
        exists|i: int|
            0 <= i && i + 1 < c.step(input).1.len() && #[trigger] c.step(input).1[i] == emit_state(
                c.step(input).0.state,
            ) && c.step(input).1[i + 1] == notify(c.step(input).0.state.reason()->0),
{
    let next = c.step(input).0;
    let out = c.step(input).1;
    let reason = next.state.reason()->0;
    // Every way into a failure state goes through `degraded`, which appends the pair.
    assert(out.len() >= 2);
    assert(out[out.len() - 2] == emit_state(next.state));
    assert(out[out.len() - 1] == notify(reason));
}

/// The watchdog's verdict takes precedence over the recording cap: a probe that finds
/// the capture unarmed or stalled aborts it and degrades the controller, however long
/// the capture has lasted.
pub proof fn lemma_watchdog_fires_before_recording_cap(
    c: ControllerView,
    snapshot: WatchdogSnapshot,
    elapsed: u128,
)
    requires
        !c.halted,
        c.pending is Probe,
        !snapshot.armed || snapshot.stalled,
    ensures
        ({
            let outcome = c.step(
                InputView::Reply(ReplyView::RecordingProbed { snapshot, elapsed }),
            );
            &&& outcome.0.state == ControllerStateView::Degraded(spec_watchdog_reason(snapshot))
            &&& !outcome.0.recording
            &&& outcome.1 == seq![
                ActionView::AbortRecording,
                emit_state(outcome.0.state),
                notify(spec_watchdog_reason(snapshot)),
            ]
        }),
{
    let outcome = c.step(InputView::Reply(ReplyView::RecordingProbed { snapshot, elapsed }));
    assert(outcome.1 =~= seq![
        ActionView::AbortRecording,
        emit_state(outcome.0.state),
        notify(spec_watchdog_reason(snapshot)),
    ]);
}

/// A healthy capture is stopped exactly when it has lasted longer than the configured
/// cap, measured in the clock's own unit: one nanosecond over the cap stops it, the cap
/// itself does not, and until then the recording stays live and nothing is issued.
pub proof fn lemma_recording_cap_is_exact(c: ControllerView, snapshot: WatchdogSnapshot, elapsed: u128)
    requires
        !c.halted,
        c.pending is Probe,
        snapshot.armed,
        !snapshot.stalled,
    ensures
        ({
            let outcome = c.step(InputView::Reply(ReplyView::RecordingProbed { snapshot, elapsed }));
            if elapsed > c.context.config.audio.max_recording_seconds * 1_000_000_000 {
                &&& outcome.1 == seq![ActionView::StopRecording]
                &&& outcome.0.pending is StopForTimeout
                &&& !outcome.0.recording
                &&& outcome.0.state == c.state
            } else {
                &&& outcome.1.len() == 0
                &&& outcome.0.pending is Nothing
                &&& outcome.0.recording == c.recording
                &&& outcome.0.state == c.state
            }
        }),
{
}

/// A failed start degrades the controller with the failure's own text after a fixed
/// prefix, published as state and then as notification.
pub proof fn lemma_start_failure_reason(c: ControllerView, error: crate::error::AppErrorView)
    requires
        !c.halted,
        c.pending is Start,
    ensures
        ({
            let outcome = c.step(InputView::Reply(ReplyView::RecordingStartFailed(error)));
            let reason = "recording start failed: "@ + error.detail();
            &&& outcome.0.state == ControllerStateView::Degraded(reason)
            &&& outcome.1 == seq![emit_state(ControllerStateView::Degraded(reason)), notify(reason)]
        }),
{
    let outcome = c.step(InputView::Reply(ReplyView::RecordingStartFailed(error)));
    let reason = "recording start failed: "@ + error.detail();
    assert(outcome.1 =~= seq![emit_state(ControllerStateView::Degraded(reason)), notify(reason)]);
}

/// A toggle while a job is being processed changes nothing and is answered with a
/// notice; a toggle while unavailable likewise.
pub proof fn lemma_toggle_is_refused_while_busy(c: ControllerView)
    requires
        !c.halted,
        c.pending is Nothing,
        c.state is Processing || c.state is Unavailable,
    ensures
        c.step(InputView::Event(ControllerEventView::Toggle)).0 == c,
        c.step(InputView::Event(ControllerEventView::Toggle)).1.len() == 1,
        c.state is Processing ==> c.step(InputView::Event(ControllerEventView::Toggle)).1[0] == notify(
            "Transcription already in progress; finishing current job."@,
        ),
        c.state matches ControllerStateView::Unavailable(reason) ==> c.step(
            InputView::Event(ControllerEventView::Toggle),
        ).1[0] == notify("recording disabled: "@ + reason),
{
}

/// A degraded controller recovers like an idle one: the next toggle asks for a capture,
/// and once it has started the degraded label is gone.
pub proof fn lemma_degraded_recovers_on_toggle(c: ControllerView)
    requires
        !c.halted,
        c.pending is Nothing,
        c.state is Degraded || c.state is Idle,
    ensures
        ({
            let asked = c.step(InputView::Event(ControllerEventView::Toggle));
            let started = asked.0.step(InputView::Reply(ReplyView::RecordingStarted));
            &&& asked.1 == seq![
                ActionView::StartRecording { output_dir: c.capture_dir(), watchdog: c.watchdog() },
            ]
            &&& asked.0.pending is Start
            &&& started.0.state == ControllerStateView::Recording
            &&& started.0.recording
            &&& started.1 == seq![emit_state(ControllerStateView::Recording), notify("Recording started"@)]
        }),
{
}

} // verus!

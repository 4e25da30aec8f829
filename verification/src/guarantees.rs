//! What holds of every test runner, whatever it is told

use vstd::prelude::*;
use crate::container::{addressed, images_of, lemma_later_alias_wins, Role};
use crate::network::Host;
use crate::report::{failures, lemma_tally_push, passes, TestResultView};
use crate::test_runner::{
    lemma_run_inv, lemma_started, lemma_step_inv, ActionView, EventView, Pending, Phase,
    RunnerView, PROBE_ATTEMPTS,
};

verus! {

/// What the runner becomes, and what it asks for one after the other, when it hears of the
/// events in their order. An event that does not answer what the runner waits for is passed
/// over.
pub open spec fn replay(runner: RunnerView, events: Seq<EventView>) -> (
    RunnerView,
    Seq<ActionView>,
)
    decreases events.len(),
{
    if events.len() == 0 {
        (runner, Seq::empty())
    } else {
        let (before, actions) = replay(runner, events.drop_last());
        match before.step(events.last()) {
            Some((next, action)) => (next, actions.push(action)),
            None => (before, actions),
        }
    }
}

/// The number of containers of tests that the actions ask to start.
pub open spec fn starts(actions: Seq<ActionView>) -> nat
    decreases actions.len(),
{
    if actions.len() == 0 {
        0
    } else {
        starts(actions.drop_last()) + if test_start(actions.last()) {
            1nat
        } else {
            0nat
        }
    }
}

/// The number of containers of tests that the actions ask to stop.
pub open spec fn stops(actions: Seq<ActionView>) -> nat
    decreases actions.len(),
{
    if actions.len() == 0 {
        0
    } else {
        stops(actions.drop_last()) + if test_stop(actions.last()) {
            1nat
        } else {
            0nat
        }
    }
}

/// The action asks to start a container of a test.
pub open spec fn test_start(action: ActionView) -> bool {
    action matches ActionView::Start { role, .. } && role != Role::Driver
}

/// The action asks to stop a container of a test.
pub open spec fn test_stop(action: ActionView) -> bool {
    action matches ActionView::Stop { role } && role != Role::Driver
}

/// The number of containers of the test that runs whose stop has not been asked for yet.
pub open spec fn unstopped(runner: RunnerView) -> int {
    match runner.environment {
        Some(environment) => environment.live.len() - if runner.pending matches Pending::Stop(_) {
            1int
        } else {
            0int
        },
        None => 0,
    }
}

/// Two runners differ at most in what they have done before: they have the same
/// configuration, reach the browser at the same place, are in the same phase, wait for the same
/// thing, and hold the same environment.
pub open spec fn same_but_history(a: RunnerView, b: RunnerView) -> bool {
    &&& a.base.doco == b.base.doco
    &&& a.base.driver == b.base.driver
    &&& a.phase == b.phase
    &&& a.pending == b.pending
    &&& a.fatal == b.fatal
    &&& a.environment == b.environment
}

/// Between two tests nothing exists that was made for a test: a runner that is idle holds no
/// environment, and with it no container, no address, no session and no variable of the test
/// before.
pub proof fn lemma_idle_holds_nothing(runner: RunnerView)
    requires
        runner.inv(),
        runner.idle(),
    ensures
        runner.environment is None,
{
}

/// When a test is over, its environment is gone, every container that was started for it has
/// been stopped, and its result is the last one of the report. The configuration and the place
/// where the browser is reached are as they were.
pub proof fn lemma_done_leaves_nothing(runner: RunnerView, event: EventView)
    requires
        runner.inv(),
        runner.step(event) is Some,
        (runner.step(event)->0).1 is Done,
    ensures
        ({
            let (next, action) = runner.step(event)->0;
            &&& next.idle()
            &&& next.environment is None
            &&& runner.environment is Some
            &&& runner.environment->0.live.len() <= 1
            &&& !runner.environment->0.session || event is Disconnected
            &&& next.base.report == runner.base.report.push(action->Done_0)
            &&& next.base.doco == runner.base.doco
            &&& next.base.driver == runner.base.driver
        }),
{
}

/// A test begins in the same way whatever ran before it: two idle runners with the same
/// configuration that reach the browser at the same place ask for the same thing when a test
/// begins, and hold the same environment then, which is the one of a test for which nothing
/// has been started yet but its first container.
pub proof fn lemma_run_forgets_history(a: RunnerView, b: RunnerView, name: Seq<char>)
    requires
        a.inv(),
        b.inv(),
        a.idle(),
        b.idle(),
        a.base.doco == b.base.doco,
        a.base.driver == b.base.driver,
    ensures
        a.run(name) is Some,
        b.run(name) is Some,
        (a.run(name)->0).1 == (b.run(name)->0).1,
        same_but_history((a.run(name)->0).0, (b.run(name)->0).0),
        (a.run(name)->0).0.base.report == a.base.report,
{
}

/// A test goes on in the same way whatever ran before it: two runners that differ at most in
/// what they have done before ask for the same thing when they hear of the same event, and
/// differ at most in what they have done before afterwards.
pub proof fn lemma_step_forgets_history(a: RunnerView, b: RunnerView, event: EventView)
    requires
        same_but_history(a, b),
    ensures
        a.step(event) is Some <==> b.step(event) is Some,
        a.step(event) is Some ==> (a.step(event)->0).1 == (b.step(event)->0).1
            && same_but_history((a.step(event)->0).0, (b.step(event)->0).0),
{
}

/// Whatever a test is told, it asks for the same things as it would if no test had run before
/// it.
pub proof fn lemma_isolation(a: RunnerView, b: RunnerView, events: Seq<EventView>)
    requires
        same_but_history(a, b),
    ensures
        replay(a, events).1 == replay(b, events).1,
        same_but_history(replay(a, events).0, replay(b, events).0),
    decreases events.len(),
{
    if events.len() > 0 {
        lemma_isolation(a, b, events.drop_last());
        lemma_step_forgets_history(
            replay(a, events.drop_last()).0,
            replay(b, events.drop_last()).0,
            events.last(),
        );
    }
}

/// A runner that has heard of events is as every runner is.
pub proof fn lemma_replay_inv(runner: RunnerView, events: Seq<EventView>)
    requires
        runner.inv(),
    ensures
        replay(runner, events).0.inv(),
    decreases events.len(),
{
    if events.len() > 0 {
        lemma_replay_inv(runner, events.drop_last());
        let before = replay(runner, events.drop_last()).0;
        if before.step(events.last()) is Some {
            lemma_step_inv(before, events.last());
        }
    }
}

/// One step of a test: the containers whose stop has not been asked for are one more after a
/// start, one less after a stop, and as many as before otherwise.
pub proof fn lemma_step_balance(runner: RunnerView, event: EventView)
    requires
        runner.inv(),
        runner.step(event) is Some,
    ensures
        ({
            let (next, action) = runner.step(event)->0;
            unstopped(next) == unstopped(runner) + if test_start(action) {
                1int
            } else {
                0int
            } - if test_stop(action) {
                1int
            } else {
                0int
            }
        }),
{
    let services = runner.base.doco.services.len();
    if runner.environment is Some {
        let env = runner.environment->0;
        lemma_started(services, env.addresses.len());
        lemma_started(services, env.addresses.len() + 1);
        if env.live.len() > 0 {
            lemma_started(services, (env.live.len() - 1) as nat);
        }
    }
}

/// While a runner hears of events, the containers that it has asked to start and not asked to
/// stop are those that it holds.
pub proof fn lemma_replay_balance(runner: RunnerView, events: Seq<EventView>)
    requires
        runner.inv(),
    ensures
        unstopped(replay(runner, events).0) + stops(replay(runner, events).1) == unstopped(runner)
            + starts(replay(runner, events).1),
    decreases events.len(),
{
    if events.len() > 0 {
        let rest = events.drop_last();
        lemma_replay_balance(runner, rest);
        lemma_replay_inv(runner, rest);
        let (before, actions) = replay(runner, rest);
        match before.step(events.last()) {
            Some((next, action)) => {
                lemma_step_balance(before, events.last());
                assert(actions.push(action).drop_last() =~= actions);
            },
            None => {},
        }
    }
}

/// When a test is over, however it ended, a stop has been asked for as often as a start: every
/// container that was started for the test has been stopped before the runner is idle again.
pub proof fn lemma_every_start_is_stopped(
    runner: RunnerView,
    name: Seq<char>,
    events: Seq<EventView>,
)
    requires
        runner.inv(),
        runner.run(name) is Some,
        replay((runner.run(name)->0).0, events).0.idle(),
    ensures
        ({
            let (begun, first) = runner.run(name)->0;
            let rest = replay(begun, events).1;
            &&& test_start(first)
            &&& stops(rest) == 1 + starts(rest)
            &&& stops(seq![first] + rest) == starts(seq![first] + rest)
        }),
{
    let (begun, first) = runner.run(name)->0;
    let (end, rest) = replay(begun, events);
    lemma_run_inv(runner, name);
    lemma_replay_inv(begun, events);
    lemma_replay_balance(begun, events);
    assert(begun.environment->0.live.len() == 1);
    lemma_count_prepend(first, rest);
}

/// An action in front of others counts as it does behind them.
pub proof fn lemma_count_prepend(first: ActionView, rest: Seq<ActionView>)
    ensures
        starts(seq![first] + rest) == starts(rest) + if test_start(first) {
            1nat
        } else {
            0nat
        },
        stops(seq![first] + rest) == stops(rest) + if test_stop(first) {
            1nat
        } else {
            0nat
        },
    decreases rest.len(),
{
    let all = seq![first] + rest;
    if rest.len() == 0 {
        assert(all.drop_last() =~= Seq::<ActionView>::empty());
        assert(all.last() == first);
        assert(starts(all.drop_last()) == 0);
        assert(stops(all.drop_last()) == 0);
    } else {
        lemma_count_prepend(first, rest.drop_last());
        assert(all.drop_last() =~= seq![first] + rest.drop_last());
        assert(all.last() == rest.last());
    }
}

/// A test that fails does not keep the next one from running: whatever the result of a test
/// is, the runner is idle when the test is over, the numbers of passes and failures have grown
/// by this one result, and the next test begins.
pub proof fn lemma_failure_does_not_block(runner: RunnerView, event: EventView, name: Seq<char>)
    requires
        runner.inv(),
        runner.step(event) is Some,
        (runner.step(event)->0).1 is Done,
    ensures
        ({
            let (next, action) = runner.step(event)->0;
            let result: TestResultView = action->Done_0;
            &&& next.run(name) is Some
            &&& passes(next.base.report) == passes(runner.base.report) + if result.passed() {
                1nat
            } else {
                0nat
            }
            &&& failures(next.base.report) == failures(runner.base.report) + if result.passed() {
                0nat
            } else {
                1nat
            }
        }),
{
    let (next, action) = runner.step(event)->0;
    lemma_tally_push(runner.base.report, action->Done_0);
}

/// The server finds each service under the image name of the service, at the address that was
/// reported for the container of the service, unless a later service has the same image name:
/// then the name leads to the later one.
pub proof fn lemma_server_reaches_services(runner: RunnerView, event: EventView, position: int)
    requires
        runner.inv(),
        runner.step(event) is Some,
        (runner.step(event)->0).1 is Start,
        (runner.step(event)->0).1->Start_role == Role::Server,
        0 <= position < runner.base.doco.services.len(),
        forall|later: int|
            position < later < runner.base.doco.services.len()
                ==> runner.base.doco.services[later].image
                != runner.base.doco.services[position].image,
    ensures
        ({
            let (next, action) = runner.step(event)->0;
            let addresses = next.environment->0.addresses;
            &&& addresses.len() == runner.base.doco.services.len()
            &&& event is InternalAddress ==> addresses.last() == event->InternalAddress_0
            &&& action->request.hosts.contains_pair(
                runner.base.doco.services[position].image,
                Host::Addr(addresses[position]),
            )
        }),
{
    let (next, action) = runner.step(event)->0;
    let services = runner.base.doco.services;
    let addresses = next.environment->0.addresses;
    lemma_step_inv(runner, event);
    assert(addressed(images_of(services), addresses) == services.len());
    lemma_later_alias_wins(images_of(services), addresses, position);
}

/// An upper bound of the number of events that the test that runs still waits for: two for
/// each container that is to be started, one for each time that the server may still be asked
/// whether it answers, one each for the session and for the body of the test, and one for
/// everything that is to be taken down. It is 0 exactly where no test runs.
pub open spec fn remaining(runner: RunnerView) -> nat {
    match runner.environment {
        None => 0,
        Some(env) => {
            let services = runner.base.doco.services.len();
            let down = env.live.len() + if env.session {
                1nat
            } else {
                0nat
            };
            match runner.phase {
                Phase::Provisioning => {
                    let ahead = if env.addresses.len() < services {
                        2 * (services - env.addresses.len()) + 16
                    } else {
                        16
                    };
                    (services + ahead - if runner.pending is Start {
                        0int
                    } else {
                        1int
                    }) as nat
                },
                Phase::Ready => if runner.pending == Pending::Probe {
                    (services + 5 + PROBE_ATTEMPTS - env.probes) as nat
                } else {
                    services + 4
                },
                Phase::Executing => down + 1,
                _ => down,
            }
        },
    }
}

/// A test always comes to an end: with every event that the runner takes while a test runs,
/// fewer events remain, and when none remains the test is over. The server is asked whether it
/// answers ten times at most.
pub proof fn lemma_step_progress(runner: RunnerView, event: EventView)
    requires
        runner.inv(),
        runner.environment is Some,
        runner.step(event) is Some,
    ensures
        ({
            let (next, action) = runner.step(event)->0;
            &&& remaining(next) < remaining(runner)
            &&& remaining(next) == 0 <==> action is Done
            &&& action is Probe ==> next.environment->0.probes <= PROBE_ATTEMPTS
        }),
{
    let services = runner.base.doco.services.len();
    let env = runner.environment->0;
    lemma_step_inv(runner, event);
    lemma_started(services, env.addresses.len());
    lemma_started(services, env.addresses.len() + 1);
    if env.live.len() > 0 {
        lemma_started(services, (env.live.len() - 1) as nat);
    }
}

/// A test that begins waits for a number of events that depends on the number of services
/// alone.
pub proof fn lemma_run_is_bounded(runner: RunnerView, name: Seq<char>)
    requires
        runner.inv(),
        runner.run(name) is Some,
    ensures
        remaining((runner.run(name)->0).0) <= 3 * runner.base.doco.services.len() + 16,
{
}

} // verus!

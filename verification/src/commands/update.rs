//! The update command: once, or again and again on a schedule.
//!
//! On a schedule the command never ends. It is run as a machine that is told what came of
//! the last thing it asked for and answers with the next thing to do: resolve the public
//! address, send an update, or sleep.

use vstd::prelude::*;

use crate::check_ip_opts::CheckIpOpts;
use crate::duck_dns::options::UpdateOptions;
use crate::net::{IpAddr, Ipv4Addr, Ipv6Addr};
use crate::opts::Account;
use crate::parse_duration::Duration;

verus! {

/// The addresses given are both IPv6 ones.
#[derive(Clone, Copy, Debug, PartialEq, Eq, Structural)]
pub struct IpOptError();

impl IpOptError {
    /// The error in words.
    pub open spec fn text(self) -> Seq<char> {
        "ip cannot be a v6 ip when ipv6 is also present"@
    }

    /// The error in words.
    pub fn to_string(&self) -> (s: String)
        ensures
            s@ == self.text(),
    {
        "ip cannot be a v6 ip when ipv6 is also present".to_owned()
    }
}

/// What a single update does first.
#[derive(Clone, Copy, Debug, PartialEq, Eq, Structural)]
pub enum Plan {
    /// Send this update.
    Send(UpdateOptions),
    /// Resolve the public address, then send it.
    Resolve,
}

/// What a single update does, given the addresses named on the command line, whether the
/// public address is to be resolved first, and whether the answer should be verbose.
///
/// Addresses that are named are sent as they are; `ip` may hold one of either family, and
/// two IPv6 addresses are an error. Without any, the public address is resolved where that
/// was asked for, and else none is sent, so that the service takes the one that the request
/// comes from.
pub open spec fn plan_of(
    ip: Option<IpAddr>,
    ipv6: Option<Ipv6Addr>,
    preflight: bool,
    verbose: bool,
) -> Result<Plan, IpOptError> {
    match (ip, ipv6) {
        (Some(IpAddr::V4(v4)), None) => Ok(
            Plan::Send(UpdateOptions { ipv4: Some(v4), ipv6: None, verbose }),
        ),
        (Some(IpAddr::V6(v6)), None) => Ok(
            Plan::Send(UpdateOptions { ipv4: None, ipv6: Some(v6), verbose }),
        ),
        (None, Some(v6)) => Ok(Plan::Send(UpdateOptions { ipv4: None, ipv6: Some(v6), verbose })),
        (Some(IpAddr::V4(v4)), Some(v6)) => Ok(
            Plan::Send(UpdateOptions { ipv4: Some(v4), ipv6: Some(v6), verbose }),
        ),
        (Some(IpAddr::V6(_)), Some(_)) => Err(IpOptError()),
        (None, None) => if preflight {
            Ok(Plan::Resolve)
        } else {
            Ok(Plan::Send(UpdateOptions { ipv4: None, ipv6: None, verbose }))
        },
    }
}

/// Decides what a single update does.
pub fn plan_now(ip: Option<IpAddr>, ipv6: Option<Ipv6Addr>, preflight: bool, verbose: bool) -> (r:
    Result<Plan, IpOptError>)
    ensures
        r == plan_of(ip, ipv6, preflight, verbose),
{
    match (ip, ipv6) {
        (Some(IpAddr::V4(v4)), None) => Ok(Plan::Send(UpdateOptions::ipv4(v4, verbose))),
        (Some(IpAddr::V6(v6)), None) => Ok(Plan::Send(UpdateOptions::ipv6(v6, verbose))),
        (None, Some(v6)) => Ok(Plan::Send(UpdateOptions::ipv6(v6, verbose))),
        (Some(IpAddr::V4(v4)), Some(v6)) => Ok(Plan::Send(UpdateOptions::new(v4, v6, verbose))),
        (Some(IpAddr::V6(_)), Some(_)) => Err(IpOptError()),
        (None, None) => if preflight {
            Ok(Plan::Resolve)
        } else if verbose {
            Ok(Plan::Send(UpdateOptions::verbose()))
        } else {
            Ok(Plan::Send(UpdateOptions::default()))
        },
    }
}

/// The update that sends a public address that was resolved.
pub fn resolved_update(ip: Ipv4Addr, verbose: bool) -> (o: UpdateOptions)
    ensures
        o == (UpdateOptions { ipv4: Some(ip), ipv6: None, verbose }),
{
    UpdateOptions::ipv4(ip, verbose)
}

/// Where the scheduler stands within a tick.
#[derive(Clone, Copy, Debug, PartialEq, Eq, Structural)]
pub enum Phase {
    /// The public address is being resolved.
    Resolving,
    /// An update is on its way: of the address held, which was resolved and differs from
    /// the last known one, or of no address in particular.
    Updating(Option<Ipv4Addr>),
    /// The tick is over, and the next one is waited for.
    Sleeping,
}

/// What the scheduler asks for.
#[derive(Clone, Copy, Debug, PartialEq, Eq, Structural)]
pub enum Action {
    /// Resolve the public address.
    Resolve,
    /// Send this update.
    Update(UpdateOptions),
    /// Sleep for this long.
    Sleep(Duration),
}

/// What came of the action that the scheduler asked for last.
#[derive(Clone, Copy, Debug, PartialEq, Eq, Structural)]
pub enum Event {
    /// The public address was resolved, to this.
    Resolved(Ipv4Addr),
    /// The public address could not be resolved.
    ResolveFailed,
    /// The update service answered, whatever its answer says of the update.
    Updated,
    /// The update failed: no answer came, or none that could be read.
    UpdateFailed,
    /// The sleep is over.
    Woke,
}

/// What the scheduler does on each tick.
#[derive(Clone, Copy, Debug, PartialEq, Eq, Structural)]
pub enum Mode {
    /// It sends this update, whatever the public address is.
    Unconditional(UpdateOptions),
    /// It resolves the public address, and sends it where it has changed; `verbose` is
    /// whether the update asks for a verbose answer.
    Preflight { verbose: bool },
}

/// All that the scheduler knows.
#[derive(Clone, Copy, Debug, PartialEq, Eq, Structural)]
pub struct SchedulerState {
    /// The address that was sent last, and `0.0.0.0` as long as none was.
    pub last_known: Ipv4Addr,
    /// The time from one tick to the next.
    pub tick_interval: Duration,
    /// What is done on each tick.
    pub mode: Mode,
    /// Where the scheduler stands within the tick.
    pub phase: Phase,
}

/// The longest time to wait after a failure before the next tick.
pub const BACKOFF_SECS: u64 = 60;

impl Mode {
    /// Whether the updates of the mode ask for a verbose answer.
    pub open spec fn verbose(self) -> bool {
        match self {
            Mode::Unconditional(options) => options.verbose,
            Mode::Preflight { verbose } => verbose,
        }
    }

    /// The mode that resolves the public address where `preflight` holds, and else sends
    /// the update that names no address.
    pub fn new(preflight: bool, verbose: bool) -> (mode: Mode)
        ensures
            mode == mode_of(preflight, verbose),
    {
        if preflight {
            Mode::Preflight { verbose }
        } else if verbose {
            Mode::Unconditional(UpdateOptions::verbose())
        } else {
            Mode::Unconditional(UpdateOptions::default())
        }
    }
}

/// How long the scheduler sleeps after a failure: the time from one tick to the next, but
/// a minute at most.
pub open spec fn backoff(tick_interval: Duration) -> Duration {
    if tick_interval.secs <= BACKOFF_SECS {
        tick_interval
    } else {
        Duration { secs: BACKOFF_SECS }
    }
}

/// The update that names no address, so that the service takes the one that the request
/// comes from.
pub open spec fn unconditional_update(verbose: bool) -> UpdateOptions {
    UpdateOptions { ipv4: None, ipv6: None, verbose }
}

/// The mode of a scheduler that resolves the public address where `preflight` holds, and
/// else sends the update that names no address.
pub open spec fn mode_of(preflight: bool, verbose: bool) -> Mode {
    if preflight {
        Mode::Preflight { verbose }
    } else {
        Mode::Unconditional(unconditional_update(verbose))
    }
}

/// The state in which the scheduler starts, and the first thing that it asks for.
pub open spec fn start(tick_interval: Duration, mode: Mode) -> (SchedulerState, Action) {
    let state = SchedulerState {
        last_known: Ipv4Addr(0, 0, 0, 0),
        tick_interval,
        mode,
        phase: Phase::Sleeping,
    };
    next(state, Event::Woke)
}

/// Whether `event` can be what came of the action that was asked for last.
pub open spec fn expects(state: SchedulerState, event: Event) -> bool {
    match state.phase {
        Phase::Resolving => state.mode is Preflight && (event is Resolved
            || event is ResolveFailed),
        Phase::Updating(address) => (address is Some) == (state.mode is Preflight) && (
        event is Updated || event is UpdateFailed),
        Phase::Sleeping => event is Woke,
    }
}

/// Whether `event` tells what came of `action`.
pub open spec fn answers(action: Action, event: Event) -> bool {
    match action {
        Action::Resolve => event is Resolved || event is ResolveFailed,
        Action::Update(_) => event is Updated || event is UpdateFailed,
        Action::Sleep(_) => event is Woke,
    }
}

/// The state after `event`, and what the scheduler asks for next.
///
/// A tick starts when the sleep is over. In the mode that resolves the public address, an
/// address equal to the last known one ends the tick, and any other is sent; it becomes the
/// last known one when the service has answered. After a tick that went through, the
/// scheduler sleeps for the whole interval; after a failure to resolve, or to send what was
/// resolved, it sleeps for the backoff time and knows what it knew before. In the other
/// mode each tick sends the update of the mode, and a failure changes nothing.
pub open spec fn next(state: SchedulerState, event: Event) -> (SchedulerState, Action) {
    let asleep = SchedulerState { phase: Phase::Sleeping, ..state };
    match event {
        Event::Woke => match state.mode {
            Mode::Preflight { .. } => (
                SchedulerState { phase: Phase::Resolving, ..state },
                Action::Resolve,
            ),
            Mode::Unconditional(options) => (
                SchedulerState { phase: Phase::Updating(None), ..state },
                Action::Update(options),
            ),
        },
        Event::Resolved(ip) => if ip == state.last_known {
            (asleep, Action::Sleep(state.tick_interval))
        } else {
            (
                SchedulerState { phase: Phase::Updating(Some(ip)), ..state },
                Action::Update(
                    UpdateOptions { ipv4: Some(ip), ipv6: None, verbose: state.mode.verbose() },
                ),
            )
        },
        Event::ResolveFailed => (asleep, Action::Sleep(backoff(state.tick_interval))),
        Event::Updated => match state.phase {
            Phase::Updating(Some(ip)) => (
                SchedulerState { last_known: ip, ..asleep },
                Action::Sleep(state.tick_interval),
            ),
            _ => (asleep, Action::Sleep(state.tick_interval)),
        },
        Event::UpdateFailed => if state.mode is Preflight {
            (asleep, Action::Sleep(backoff(state.tick_interval)))
        } else {
            (asleep, Action::Sleep(state.tick_interval))
        },
    }
}

/// The state after each of `events` in turn, and what the scheduler asked for after each.
pub open spec fn run(state: SchedulerState, events: Seq<Event>) -> (SchedulerState, Seq<Action>)
    decreases events.len(),
{
    if events.len() == 0 {
        (state, Seq::empty())
    } else {
        let (after, action) = next(state, events[0]);
        let (last, actions) = run(after, events.drop_first());
        (last, seq![action] + actions)
    }
}

/// How many of `actions` are updates.
pub open spec fn updates_in(actions: Seq<Action>) -> nat
    decreases actions.len(),
{
    if actions.len() == 0 {
        0
    } else if actions[0] is Update {
        1 + updates_in(actions.drop_first())
    } else {
        updates_in(actions.drop_first())
    }
}

/// What the scheduler asks for over two ticks on which the public address is resolved, the
/// first of which sends it: the events are the first address, the answer of the service, the
/// end of the sleep and the second address.
proof fn lemma_two_ticks(tick_interval: Duration, verbose: bool, a: Ipv4Addr, b: Ipv4Addr)
    requires
        a != Ipv4Addr(0, 0, 0, 0),
    ensures
        ({
            let (state, first) = start(tick_interval, Mode::Preflight { verbose });
            let events = seq![Event::Resolved(a), Event::Updated, Event::Woke, Event::Resolved(b)];
            let (end, actions) = run(state, events);
            let send_a = Action::Update(UpdateOptions { ipv4: Some(a), ipv6: None, verbose });
            let send_b = Action::Update(UpdateOptions { ipv4: Some(b), ipv6: None, verbose });
            let sleep = Action::Sleep(tick_interval);
            &&& first == Action::Resolve
            &&& a == b ==> actions == seq![send_a, sleep, Action::Resolve, sleep]
            &&& a != b ==> actions == seq![send_a, sleep, Action::Resolve, send_b]
            &&& updates_in(actions) == if a == b {
                1nat
            } else {
                2nat
            }
        }),
{
    let (state, first) = start(tick_interval, Mode::Preflight { verbose });
    let e0 = seq![Event::Resolved(a), Event::Updated, Event::Woke, Event::Resolved(b)];
    let e1 = seq![Event::Updated, Event::Woke, Event::Resolved(b)];
    let e2 = seq![Event::Woke, Event::Resolved(b)];
    let e3 = seq![Event::Resolved(b)];
    assert(e0.drop_first() == e1);
    assert(e1.drop_first() == e2);
    assert(e2.drop_first() == e3);
    assert(e3.drop_first() == Seq::<Event>::empty());
    let (s1, a1) = next(state, e0[0]);
    let (s2, a2) = next(s1, e1[0]);
    let (s3, a3) = next(s2, e2[0]);
    let (s4, a4) = next(s3, e3[0]);
    assert(run(s4, Seq::<Event>::empty()).1 == Seq::<Action>::empty());
    assert(run(s3, e3).1 == seq![a4]);
    assert(run(s2, e2).1 == seq![a3, a4]);
    assert(run(s1, e1).1 == seq![a2, a3, a4]);
    let actions = run(state, e0).1;
    assert(actions == seq![a1, a2, a3, a4]);
    let t1 = seq![a2, a3, a4];
    let t2 = seq![a3, a4];
    let t3 = seq![a4];
    assert(actions.drop_first() == t1);
    assert(t1.drop_first() == t2);
    assert(t2.drop_first() == t3);
    assert(t3.drop_first() == Seq::<Action>::empty());
    assert(updates_in(Seq::<Action>::empty()) == 0);
    assert(updates_in(t3) == if a == b {
        0nat
    } else {
        1nat
    });
    assert(updates_in(t2) == updates_in(t3));
    assert(updates_in(t1) == updates_in(t2));
}

/// Where the public address resolves to the same address on two ticks in a row, and the
/// service answers the first update, one update is sent in all: that of the first tick.
/// The address is not `0.0.0.0`, which a scheduler that has sent nothing takes for known.
pub proof fn law_same_address_is_sent_once(tick_interval: Duration, verbose: bool, a: Ipv4Addr)
    requires
        a != Ipv4Addr(0, 0, 0, 0),
    ensures
        ({
            let (state, first) = start(tick_interval, Mode::Preflight { verbose });
            let events = seq![Event::Resolved(a), Event::Updated, Event::Woke, Event::Resolved(a)];
            let (end, actions) = run(state, events);
            &&& first == Action::Resolve
            &&& actions[0] == Action::Update(UpdateOptions { ipv4: Some(a), ipv6: None, verbose })
            &&& updates_in(actions) == 1
            &&& end.last_known == a
        }),
{
    lemma_two_ticks(tick_interval, verbose, a, a);
    lemma_last_known_after_two_ticks(tick_interval, verbose, a, a);
}

/// Where the public address resolves to one address and on the next tick to another, and
/// the service answers the first update, two updates are sent: one on each tick, each with
/// the address of its tick. The first address is not `0.0.0.0`.
pub proof fn law_changed_address_is_sent_again(
    tick_interval: Duration,
    verbose: bool,
    a: Ipv4Addr,
    b: Ipv4Addr,
)
    requires
        a != Ipv4Addr(0, 0, 0, 0),
        a != b,
    ensures
        ({
            let (state, first) = start(tick_interval, Mode::Preflight { verbose });
            let events = seq![Event::Resolved(a), Event::Updated, Event::Woke, Event::Resolved(b)];
            let (end, actions) = run(state, events);
            &&& first == Action::Resolve
            &&& actions[0] == Action::Update(UpdateOptions { ipv4: Some(a), ipv6: None, verbose })
            &&& actions[3] == Action::Update(UpdateOptions { ipv4: Some(b), ipv6: None, verbose })
            &&& updates_in(actions) == 2
        }),
{
    lemma_two_ticks(tick_interval, verbose, a, b);
}

/// The address that the scheduler knows after the two ticks of `lemma_two_ticks`: the first
/// one, since the second was not sent yet, or is the same.
proof fn lemma_last_known_after_two_ticks(
    tick_interval: Duration,
    verbose: bool,
    a: Ipv4Addr,
    b: Ipv4Addr,
)
    requires
        a != Ipv4Addr(0, 0, 0, 0),
    ensures
        ({
            let (state, first) = start(tick_interval, Mode::Preflight { verbose });
            let events = seq![Event::Resolved(a), Event::Updated, Event::Woke, Event::Resolved(b)];
            run(state, events).0.last_known == a
        }),
{
    let (state, first) = start(tick_interval, Mode::Preflight { verbose });
    let e0 = seq![Event::Resolved(a), Event::Updated, Event::Woke, Event::Resolved(b)];
    let e1 = seq![Event::Updated, Event::Woke, Event::Resolved(b)];
    let e2 = seq![Event::Woke, Event::Resolved(b)];
    let e3 = seq![Event::Resolved(b)];
    assert(e0.drop_first() == e1);
    assert(e1.drop_first() == e2);
    assert(e2.drop_first() == e3);
    assert(e3.drop_first() == Seq::<Event>::empty());
    let (s1, a1) = next(state, e0[0]);
    let (s2, a2) = next(s1, e1[0]);
    let (s3, a3) = next(s2, e2[0]);
    let (s4, a4) = next(s3, e3[0]);
    assert(run(s4, Seq::<Event>::empty()).0 == s4);
    assert(run(s3, e3).0 == s4);
    assert(run(s2, e2).0 == s4);
    assert(run(s1, e1).0 == s4);
}

/// A tick on which the public address cannot be resolved leaves the last known address as
/// it was: where the next tick resolves to that address, nothing is sent. After the
/// failure the scheduler sleeps for the backoff time, and after the second tick for the
/// whole interval.
pub proof fn law_failure_keeps_last_known(state: SchedulerState)
    requires
        state.mode is Preflight,
        state.phase == Phase::Resolving,
    ensures
        ({
            let events = seq![
                Event::ResolveFailed,
                Event::Woke,
                Event::Resolved(state.last_known),
            ];
            let (end, actions) = run(state, events);
            &&& actions == seq![
                Action::Sleep(backoff(state.tick_interval)),
                Action::Resolve,
                Action::Sleep(state.tick_interval),
            ]
            &&& updates_in(actions) == 0
            &&& end.last_known == state.last_known
        }),
{
    let e0 = seq![Event::ResolveFailed, Event::Woke, Event::Resolved(state.last_known)];
    let e1 = seq![Event::Woke, Event::Resolved(state.last_known)];
    let e2 = seq![Event::Resolved(state.last_known)];
    assert(e0.drop_first() == e1);
    assert(e1.drop_first() == e2);
    assert(e2.drop_first() == Seq::<Event>::empty());
    let (s1, a1) = next(state, e0[0]);
    let (s2, a2) = next(s1, e1[0]);
    let (s3, a3) = next(s2, e2[0]);
    assert(run(s3, Seq::<Event>::empty()) == (s3, Seq::<Action>::empty()));
    assert(run(s2, e2) == (s3, seq![a3]));
    assert(run(s1, e1) == (s3, seq![a2, a3]));
    let actions = run(state, e0).1;
    assert(actions == seq![a1, a2, a3]);
    let t1 = seq![a2, a3];
    let t2 = seq![a3];
    assert(actions.drop_first() == t1);
    assert(t1.drop_first() == t2);
    assert(t2.drop_first() == Seq::<Action>::empty());
    assert(updates_in(Seq::<Action>::empty()) == 0);
    assert(updates_in(t2) == 0);
    assert(updates_in(t1) == 0);
}

/// A scheduler that is told what came of its last action expects whatever comes of its
/// next one.
pub proof fn law_answers_are_expected(state: SchedulerState, event: Event, then: Event)
    requires
        expects(state, event),
        answers(next(state, event).1, then),
    ensures
        expects(next(state, event).0, then),
{
}

/// A scheduler that has just started expects whatever comes of its first action.
pub proof fn law_first_answer_is_expected(tick_interval: Duration, mode: Mode, event: Event)
    requires
        answers(start(tick_interval, mode).1, event),
    ensures
        expects(start(tick_interval, mode).0, event),
{
}

/// Whatever comes of an action, the scheduler keeps its interval and its mode, and the
/// last known address changes only when the service has answered an update, to the address
/// that was sent.
pub proof fn law_step_keeps_settings(state: SchedulerState, event: Event)
    ensures
        next(state, event).0.tick_interval == state.tick_interval,
        next(state, event).0.mode == state.mode,
        next(state, event).0.last_known != state.last_known ==> event is Updated && state.phase
            == Phase::Updating(Some(next(state, event).0.last_known)),
{
}

/// The update command, as the command line gives it.
pub struct Update {
    /// An address to set, of either family.
    pub ip: Option<IpAddr>,
    /// An IPv6 address to set.
    pub ipv6: Option<Ipv6Addr>,
    /// Whether to resolve the public address first, with the default service.
    pub preflight_ip: bool,
    /// The service to resolve the public address with first.
    pub preflight_opts: Option<CheckIpOpts>,
    /// The time from one update to the next, where the command is to go on forever.
    pub schedule: Option<Duration>,
    pub account: Account,
    pub verbose: bool,
}

/// How the update command runs.
pub enum Run {
    /// Once, with this plan.
    Once(Plan),
    /// Again and again: with this scheduler, which asks for this first.
    Scheduled(Scheduler, Action),
}

impl Update {
    /// Whether the public address is resolved before it is sent.
    pub open spec fn resolves(&self) -> bool {
        self.preflight_ip || self.preflight_opts is Some
    }

    /// Whether the public address is resolved before it is sent.
    pub fn preflight(&self) -> (b: bool)
        ensures
            b == self.resolves(),
    {
        self.preflight_ip || self.preflight_opts.is_some()
    }

    /// How the command runs: again and again where a schedule was given, without regard to
    /// addresses that were named, and else once, as the addresses that were named ask.
    pub fn run(&self) -> (r: Result<Run, IpOptError>)
        ensures
            match self.schedule {
                Some(tick_interval) => r matches Ok(Run::Scheduled(scheduler, first)) && (
                scheduler@, first) == start(tick_interval, mode_of(self.resolves(), self.verbose)),
                None => match r {
                    Ok(Run::Once(plan)) => plan_of(
                        self.ip,
                        self.ipv6,
                        self.resolves(),
                        self.verbose,
                    ) == Ok::<Plan, IpOptError>(plan),
                    Ok(Run::Scheduled(_, _)) => false,
                    Err(e) => plan_of(self.ip, self.ipv6, self.resolves(), self.verbose) == Err::<
                        Plan,
                        IpOptError,
                    >(e),
                },
            },
    {
        match self.schedule {
            Some(tick_interval) => {
                let (scheduler, first) = Scheduler::new(
                    tick_interval,
                    Mode::new(self.preflight(), self.verbose),
                );
                Ok(Run::Scheduled(scheduler, first))
            },
            None => match plan_now(self.ip, self.ipv6, self.preflight(), self.verbose) {
                Ok(plan) => Ok(Run::Once(plan)),
                Err(e) => Err(e),
            },
        }
    }
}

/// The scheduler of updates.
pub struct Scheduler {
    state: SchedulerState,
}

impl View for Scheduler {
    type V = SchedulerState;

    closed spec fn view(&self) -> SchedulerState {
        self.state
    }
}

impl Scheduler {
    /// A scheduler that ticks every `tick_interval`, with the first thing that it asks for.
    pub fn new(tick_interval: Duration, mode: Mode) -> (r: (Scheduler, Action))
        ensures
            (r.0@, r.1) == start(tick_interval, mode),
    {
        let mut scheduler = Scheduler {
            state: SchedulerState {
                last_known: Ipv4Addr::unspecified(),
                tick_interval,
                mode,
                phase: Phase::Sleeping,
            },
        };
        let action = scheduler.step(Event::Woke);
        (scheduler, action)
    }

    /// The address that was sent last, and `0.0.0.0` as long as none was.
    pub fn last_known(&self) -> (ip: Ipv4Addr)
        ensures
            ip == self@.last_known,
    {
        self.state.last_known
    }

    /// The time from one tick to the next.
    pub fn tick_interval(&self) -> (d: Duration)
        ensures
            d == self@.tick_interval,
    {
        self.state.tick_interval
    }

    /// What the scheduler does on each tick.
    pub fn mode(&self) -> (m: Mode)
        ensures
            m == self@.mode,
    {
        self.state.mode
    }

    /// Whether the scheduler resolves the public address on each tick.
    pub fn preflight(&self) -> (b: bool)
        ensures
            b == (self@.mode is Preflight),
    {
        match self.state.mode {
            Mode::Preflight { .. } => true,
            Mode::Unconditional(_) => false,
        }
    }

    /// Where the scheduler stands within the tick.
    pub fn phase(&self) -> (p: Phase)
        ensures
            p == self@.phase,
    {
        self.state.phase
    }

    /// Whether `event` can be what came of the action that was asked for last.
    pub fn expects(&self, event: &Event) -> (b: bool)
        ensures
            b == expects(self@, *event),
    {
        match self.state.phase {
            Phase::Resolving => self.preflight() && match event {
                Event::Resolved(_) => true,
                Event::ResolveFailed => true,
                _ => false,
            },
            Phase::Updating(address) => address.is_some() == self.preflight() && match event {
                Event::Updated => true,
                Event::UpdateFailed => true,
                _ => false,
            },
            Phase::Sleeping => match event {
                Event::Woke => true,
                _ => false,
            },
        }
    }

    /// Takes in what came of the last action, and says what to do next.
    pub fn step(&mut self, event: Event) -> (action: Action)
        requires
            expects(old(self)@, event),
        ensures
            (final(self)@, action) == next(old(self)@, event),
            final(self)@.tick_interval == old(self)@.tick_interval,
            final(self)@.mode == old(self)@.mode,
            final(self)@.last_known != old(self)@.last_known ==> event is Updated && old(
                self,
            )@.phase == Phase::Updating(Some(final(self)@.last_known)),
            action is Update <==> (event is Woke && old(self)@.mode is Unconditional) || (
            event is Resolved
                && event->Resolved_0 != old(self)@.last_known),
    {
        let interval = self.state.tick_interval;
        match event {
            Event::Woke => {
                match self.state.mode {
                    Mode::Preflight { .. } => {
                        self.state.phase = Phase::Resolving;
                        Action::Resolve
                    },
                    Mode::Unconditional(options) => {
                        self.state.phase = Phase::Updating(None);
                        Action::Update(options)
                    },
                }
            },
            Event::Resolved(ip) => {
                if ip == self.state.last_known {
                    self.state.phase = Phase::Sleeping;
                    Action::Sleep(interval)
                } else {
                    self.state.phase = Phase::Updating(Some(ip));
                    let verbose = match self.state.mode {
                        Mode::Preflight { verbose } => verbose,
                        Mode::Unconditional(options) => options.verbose,
                    };
                    Action::Update(resolved_update(ip, verbose))
                }
            },
            Event::ResolveFailed => {
                self.state.phase = Phase::Sleeping;
                Action::Sleep(interval.min(Duration::from_secs(BACKOFF_SECS)))
            },
            Event::Updated => {
                match self.state.phase {
                    Phase::Updating(Some(ip)) => {
                        self.state.last_known = ip;
                    },
                    _ => {},
                }
                self.state.phase = Phase::Sleeping;
                Action::Sleep(interval)
            },
            Event::UpdateFailed => {
                self.state.phase = Phase::Sleeping;
                if self.preflight() {
                    Action::Sleep(interval.min(Duration::from_secs(BACKOFF_SECS)))
                } else {
                    Action::Sleep(interval)
                }
            },
        }
    }
}

} // verus!

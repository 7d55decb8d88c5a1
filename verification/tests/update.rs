use duckdns::commands::update::{
    plan_now, Action, Event, IpOptError, Mode, Phase, Plan, Run, Scheduler, Update,
};
use duckdns::duck_dns::options::UpdateOptions;
use duckdns::duck_dns::Token;
use duckdns::net::{IpAddr, Ipv4Addr, Ipv6Addr};
use duckdns::opts::Account;
use duckdns::parse_duration::Duration;

fn a() -> Ipv4Addr {
    Ipv4Addr::new(192, 0, 2, 1)
}

fn b() -> Ipv4Addr {
    Ipv4Addr::new(198, 51, 100, 7)
}

fn six() -> Ipv6Addr {
    Ipv6Addr::new(0x2001, 0xdb8, 0, 0, 0, 0, 0, 1)
}

fn minutes(n: u64) -> Duration {
    Duration::from_secs(60 * n)
}

fn update_of(ip: Ipv4Addr, verbose: bool) -> Action {
    Action::Update(UpdateOptions::ipv4(ip, verbose))
}

/// Drives a scheduler through `events`, and gives what it asked for after each.
fn drive(scheduler: &mut Scheduler, events: &[Event]) -> Vec<Action> {
    events
        .iter()
        .map(|event| {
            assert!(scheduler.expects(event), "{:?}", event);
            scheduler.step(*event)
        })
        .collect()
}

fn updates_in(actions: &[Action]) -> usize {
    actions
        .iter()
        .filter(|action| matches!(action, Action::Update(_)))
        .count()
}

#[test]
fn same_address_twice_is_sent_once() {
    let (mut scheduler, first) = Scheduler::new(minutes(5), Mode::new(true, false));
    assert_eq!(first, Action::Resolve);
    let actions = drive(
        &mut scheduler,
        &[
            Event::Resolved(a()),
            Event::Updated,
            Event::Woke,
            Event::Resolved(a()),
        ],
    );
    assert_eq!(
        actions,
        vec![
            update_of(a(), false),
            Action::Sleep(minutes(5)),
            Action::Resolve,
            Action::Sleep(minutes(5)),
        ]
    );
    assert_eq!(updates_in(&actions), 1);
    assert_eq!(scheduler.last_known(), a());
}

#[test]
fn changed_address_is_sent_again() {
    let (mut scheduler, first) = Scheduler::new(minutes(5), Mode::new(true, true));
    assert_eq!(first, Action::Resolve);
    let actions = drive(
        &mut scheduler,
        &[
            Event::Resolved(a()),
            Event::Updated,
            Event::Woke,
            Event::Resolved(b()),
            Event::Updated,
        ],
    );
    assert_eq!(
        actions,
        vec![
            update_of(a(), true),
            Action::Sleep(minutes(5)),
            Action::Resolve,
            update_of(b(), true),
            Action::Sleep(minutes(5)),
        ]
    );
    assert_eq!(updates_in(&actions), 2);
    assert_eq!(scheduler.last_known(), b());
}

#[test]
fn failure_to_resolve_keeps_the_last_known_address() {
    let (mut scheduler, _) = Scheduler::new(minutes(5), Mode::new(true, false));
    drive(
        &mut scheduler,
        &[Event::Resolved(a()), Event::Updated, Event::Woke],
    );
    let actions = drive(
        &mut scheduler,
        &[Event::ResolveFailed, Event::Woke, Event::Resolved(a())],
    );
    assert_eq!(
        actions,
        vec![
            Action::Sleep(Duration::from_secs(60)),
            Action::Resolve,
            Action::Sleep(minutes(5)),
        ]
    );
    assert_eq!(updates_in(&actions), 0);
    assert_eq!(scheduler.last_known(), a());
}

#[test]
fn first_address_counts_as_changed() {
    let (mut scheduler, _) = Scheduler::new(minutes(5), Mode::new(true, false));
    assert_eq!(scheduler.last_known(), Ipv4Addr::new(0, 0, 0, 0));
    assert_eq!(scheduler.step(Event::Resolved(a())), update_of(a(), false));
    assert_eq!(scheduler.phase(), Phase::Updating(Some(a())));
    assert_eq!(scheduler.last_known(), Ipv4Addr::new(0, 0, 0, 0));
}

#[test]
fn unspecified_address_is_taken_for_known_at_first() {
    let (mut scheduler, _) = Scheduler::new(minutes(5), Mode::new(true, false));
    assert_eq!(
        scheduler.step(Event::Resolved(Ipv4Addr::unspecified())),
        Action::Sleep(minutes(5))
    );
}

#[test]
fn backoff_is_the_interval_but_a_minute_at_most() {
    for (interval, backoff) in [(0, 0), (1, 1), (59, 59), (60, 60), (61, 60), (86_400, 60)] {
        let (mut scheduler, _) =
            Scheduler::new(Duration::from_secs(interval), Mode::new(true, false));
        assert_eq!(
            scheduler.step(Event::ResolveFailed),
            Action::Sleep(Duration::from_secs(backoff)),
            "{}",
            interval
        );
        assert_eq!(scheduler.tick_interval(), Duration::from_secs(interval));
    }
    assert_eq!(
        Duration::from_secs(5).min(Duration::from_secs(60)),
        Duration::from_secs(5)
    );
    assert_eq!(
        Duration::from_secs(500).min(Duration::from_secs(60)),
        Duration::from_secs(60)
    );
    assert_eq!(Duration::from_secs(90).as_secs(), 90);
}

#[test]
fn failed_update_is_tried_again_after_the_backoff() {
    let (mut scheduler, _) = Scheduler::new(minutes(5), Mode::new(true, false));
    let actions = drive(
        &mut scheduler,
        &[
            Event::Resolved(a()),
            Event::UpdateFailed,
            Event::Woke,
            Event::Resolved(a()),
        ],
    );
    assert_eq!(
        actions,
        vec![
            update_of(a(), false),
            Action::Sleep(Duration::from_secs(60)),
            Action::Resolve,
            update_of(a(), false),
        ]
    );
    assert_eq!(scheduler.last_known(), Ipv4Addr::unspecified());
}

#[test]
fn without_preflight_every_tick_sends_the_same_update() {
    let (mut scheduler, first) = Scheduler::new(minutes(10), Mode::new(false, false));
    assert_eq!(first, Action::Update(UpdateOptions::default()));
    let actions = drive(
        &mut scheduler,
        &[
            Event::Updated,
            Event::Woke,
            Event::UpdateFailed,
            Event::Woke,
        ],
    );
    assert_eq!(
        actions,
        vec![
            Action::Sleep(minutes(10)),
            Action::Update(UpdateOptions::default()),
            Action::Sleep(minutes(10)),
            Action::Update(UpdateOptions::default()),
        ]
    );
    assert_eq!(scheduler.last_known(), Ipv4Addr::unspecified());
    let (_, first) = Scheduler::new(minutes(10), Mode::new(false, true));
    assert_eq!(first, Action::Update(UpdateOptions::verbose()));
}

#[test]
fn scheduler_expects_what_answers_its_last_action() {
    let (mut scheduler, _) = Scheduler::new(minutes(5), Mode::new(true, false));
    assert_eq!(scheduler.phase(), Phase::Resolving);
    assert!(scheduler.expects(&Event::Resolved(a())));
    assert!(scheduler.expects(&Event::ResolveFailed));
    assert!(!scheduler.expects(&Event::Updated));
    assert!(!scheduler.expects(&Event::UpdateFailed));
    assert!(!scheduler.expects(&Event::Woke));
    scheduler.step(Event::Resolved(a()));
    assert!(scheduler.expects(&Event::Updated));
    assert!(scheduler.expects(&Event::UpdateFailed));
    assert!(!scheduler.expects(&Event::Resolved(a())));
    assert!(!scheduler.expects(&Event::Woke));
    scheduler.step(Event::Updated);
    assert_eq!(scheduler.phase(), Phase::Sleeping);
    assert!(scheduler.expects(&Event::Woke));
    assert!(!scheduler.expects(&Event::Updated));
    let (scheduler, _) = Scheduler::new(minutes(5), Mode::new(false, false));
    assert_eq!(scheduler.phase(), Phase::Updating(None));
    assert!(scheduler.expects(&Event::Updated));
    assert!(!scheduler.expects(&Event::Resolved(a())));
}

#[test]
fn single_update_sends_the_addresses_that_were_named() {
    assert_eq!(
        plan_now(Some(IpAddr::V4(a())), None, false, true),
        Ok(Plan::Send(UpdateOptions::ipv4(a(), true)))
    );
    assert_eq!(
        plan_now(Some(IpAddr::V6(six())), None, false, false),
        Ok(Plan::Send(UpdateOptions::ipv6(six(), false)))
    );
    assert_eq!(
        plan_now(None, Some(six()), true, false),
        Ok(Plan::Send(UpdateOptions::ipv6(six(), false)))
    );
    assert_eq!(
        plan_now(Some(IpAddr::V4(a())), Some(six()), false, false),
        Ok(Plan::Send(UpdateOptions::new(a(), six(), false)))
    );
}

#[test]
fn single_update_with_two_ipv6_addresses_is_refused() {
    assert_eq!(
        plan_now(Some(IpAddr::V6(six())), Some(six()), false, false),
        Err(IpOptError())
    );
    assert_eq!(
        IpOptError().to_string(),
        "ip cannot be a v6 ip when ipv6 is also present"
    );
}

#[test]
fn single_update_without_addresses_resolves_or_leaves_it_to_the_service() {
    assert_eq!(plan_now(None, None, true, false), Ok(Plan::Resolve));
    assert_eq!(plan_now(None, None, true, true), Ok(Plan::Resolve));
    assert_eq!(
        plan_now(None, None, false, true),
        Ok(Plan::Send(UpdateOptions::verbose()))
    );
    assert_eq!(
        plan_now(None, None, false, false),
        Ok(Plan::Send(UpdateOptions::default()))
    );
}

fn command() -> Update {
    Update {
        ip: None,
        ipv6: None,
        preflight_ip: false,
        preflight_opts: None,
        schedule: None,
        account: Account {
            token: Token::from("secret"),
            domain: vec!["example".parse().unwrap()],
        },
        verbose: false,
    }
}

#[test]
fn command_without_a_schedule_runs_once() {
    let mut update = command();
    update.ip = Some(IpAddr::V4(a()));
    assert!(!update.preflight());
    assert!(matches!(
        update.run(),
        Ok(Run::Once(Plan::Send(options))) if options == UpdateOptions::ipv4(a(), false)
    ));
    let mut update = command();
    update.preflight_ip = true;
    assert!(update.preflight());
    assert!(matches!(update.run(), Ok(Run::Once(Plan::Resolve))));
    let mut update = command();
    update.preflight_opts = Some("http://example.com/".parse().unwrap());
    assert!(update.preflight());
    assert!(matches!(update.run(), Ok(Run::Once(Plan::Resolve))));
    let mut update = command();
    update.ip = Some(IpAddr::V6(six()));
    update.ipv6 = Some(six());
    assert!(matches!(update.run(), Err(IpOptError())));
}

#[test]
fn command_with_a_schedule_runs_again_and_again() {
    let mut update = command();
    update.schedule = Some(minutes(5));
    update.verbose = true;
    match update.run() {
        Ok(Run::Scheduled(scheduler, first)) => {
            assert_eq!(first, Action::Update(UpdateOptions::verbose()));
            assert_eq!(scheduler.tick_interval(), minutes(5));
        }
        _ => panic!("a schedule was given"),
    }
    update.preflight_ip = true;
    match update.run() {
        Ok(Run::Scheduled(scheduler, first)) => {
            assert_eq!(first, Action::Resolve);
            assert_eq!(scheduler.last_known(), Ipv4Addr::unspecified());
        }
        _ => panic!("a schedule was given"),
    }
}

#[test]
fn without_preflight_a_fixed_address_is_sent_on_every_tick() {
    let options = UpdateOptions::ipv4(a(), true);
    let (mut scheduler, first) = Scheduler::new(minutes(1), Mode::Unconditional(options));
    assert_eq!(first, Action::Update(options));
    assert!(!scheduler.preflight());
    assert_eq!(scheduler.mode(), Mode::Unconditional(options));
    let actions = drive(&mut scheduler, &[Event::UpdateFailed, Event::Woke, Event::Updated]);
    assert_eq!(
        actions,
        vec![
            Action::Sleep(minutes(1)),
            Action::Update(options),
            Action::Sleep(minutes(1)),
        ]
    );
}

#[test]
fn mode_is_made_of_what_the_command_line_says() {
    assert_eq!(Mode::new(true, true), Mode::Preflight { verbose: true });
    assert_eq!(Mode::new(true, false), Mode::Preflight { verbose: false });
    assert_eq!(
        Mode::new(false, true),
        Mode::Unconditional(UpdateOptions::verbose())
    );
    assert_eq!(
        Mode::new(false, false),
        Mode::Unconditional(UpdateOptions::default())
    );
}

use gpu_stats::driver::{Action, Driver, Event, Phase};

#[test]
fn single_shot_stops_after_one_snapshot() {
    let (d, a) = Driver::new(false, 1, 'q');
    assert_eq!(a, Action::CollectAndRender);
    assert_eq!(d.phase, Phase::Collecting);
    let (d, a) = d.step(Event::Rendered);
    assert_eq!(a, Action::Exit);
    assert_eq!(d.phase, Phase::Finished);
}

#[test]
fn refreshing_loop_cycles() {
    let (d, _) = Driver::new(true, 5, 'q');
    let (d, a) = d.step(Event::Rendered);
    assert_eq!(a, Action::PollInput);
    let (d, a) = d.step(Event::NoKey);
    assert_eq!(a, Action::Sleep(5));
    let (d, a) = d.step(Event::Slept);
    assert_eq!(a, Action::CollectAndRender);
    assert_eq!(d.phase, Phase::Collecting);
}

#[test]
fn other_key_does_not_quit() {
    let (d, _) = Driver::new(true, 2, 'q');
    let (d, _) = d.step(Event::Rendered);
    let (d, a) = d.step(Event::KeyPressed('x'));
    assert_eq!(a, Action::Sleep(2));
    assert_eq!(d.phase, Phase::Sleeping);
}

#[test]
fn quit_key_ends_loop_without_sleep_or_collect() {
    let (d, _) = Driver::new(true, 1, 'q');
    let (d, _) = d.step(Event::Rendered);
    let (mut d, a) = d.step(Event::KeyPressed('q'));
    assert_eq!(a, Action::Exit);
    for e in [Event::Slept, Event::Rendered, Event::NoKey, Event::KeyPressed('x')] {
        let (d2, a) = d.step(e);
        assert_eq!(a, Action::Exit);
        d = d2;
    }
    assert_eq!(d.phase, Phase::Finished);
}

#[test]
fn unexpected_event_repeats_the_action() {
    let (d, _) = Driver::new(true, 3, 'q');
    let (d, a) = d.step(Event::Slept);
    assert_eq!(a, Action::CollectAndRender);
    let (d, _) = d.step(Event::Rendered);
    let (d, a) = d.step(Event::Rendered);
    assert_eq!(a, Action::PollInput);
    let (d, _) = d.step(Event::NoKey);
    let (_, a) = d.step(Event::KeyPressed('q'));
    assert_eq!(a, Action::Sleep(3));
}

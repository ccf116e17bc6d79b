use tarussh::handler::{advance, next_action, HandlerAction, HandlerEvent, Phase};
use tarussh::shutdown::{drain_step, DrainAction};

#[test]
fn banner_is_read_first_even_during_shutdown() {
    assert_eq!(next_action(Phase::Init, false), HandlerAction::ReadBanner);
    assert_eq!(next_action(Phase::Init, true), HandlerAction::ReadBanner);
}

#[test]
fn drip_sends_until_shutdown() {
    let mut phase = advance(Phase::Init, HandlerEvent::ReadDone);
    assert_eq!(phase, Phase::Drip);
    for _ in 0..3 {
        assert_eq!(next_action(phase, false), HandlerAction::SendLine);
        phase = advance(phase, HandlerEvent::WriteDone);
        assert_eq!(phase, Phase::Drip);
    }
    assert_eq!(next_action(phase, true), HandlerAction::Release);
    phase = advance(phase, HandlerEvent::Released);
    assert_eq!(phase, Phase::Terminated);
    assert_eq!(next_action(phase, true), HandlerAction::Exit);
}

#[test]
fn silent_client_blocks_drain_until_its_read_resolves() {
    let mut live: u32 = 1;
    let mut phase = Phase::Init;
    // Shutdown is requested while the banner read is pending.
    assert_eq!(next_action(phase, true), HandlerAction::ReadBanner);
    assert_eq!(drain_step(live), DrainAction::Wait);
    // The client finally sends something.
    phase = advance(phase, HandlerEvent::ReadDone);
    assert_eq!(next_action(phase, true), HandlerAction::Release);
    phase = advance(phase, HandlerEvent::Released);
    live -= 1;
    assert_eq!(next_action(phase, true), HandlerAction::Exit);
    assert_eq!(drain_step(live), DrainAction::Exit);
}

fn releases_until_exit(outcomes: &[HandlerEvent]) -> u32 {
    let mut phase = Phase::Init;
    let mut released = 0;
    let mut outcomes = outcomes.iter();
    loop {
        match next_action(phase, false) {
            HandlerAction::ReadBanner | HandlerAction::SendLine => {
                phase = advance(phase, *outcomes.next().unwrap());
            }
            HandlerAction::Release => {
                released += 1;
                phase = advance(phase, HandlerEvent::Released);
            }
            HandlerAction::Exit => return released,
        }
    }
}

#[test]
fn failed_write_releases_once() {
    let n = releases_until_exit(&[
        HandlerEvent::ReadDone,
        HandlerEvent::WriteDone,
        HandlerEvent::WriteDone,
        HandlerEvent::WriteFailed,
    ]);
    assert_eq!(n, 1);
}

#[test]
fn failed_read_releases_once() {
    assert_eq!(releases_until_exit(&[HandlerEvent::ReadFailed]), 1);
}

#[test]
fn events_of_other_phases_change_nothing() {
    assert_eq!(advance(Phase::Init, HandlerEvent::WriteDone), Phase::Init);
    assert_eq!(advance(Phase::Init, HandlerEvent::Released), Phase::Init);
    assert_eq!(advance(Phase::Drip, HandlerEvent::ReadDone), Phase::Drip);
    assert_eq!(advance(Phase::Terminated, HandlerEvent::Released), Phase::Terminated);
    assert_eq!(advance(Phase::Closing, HandlerEvent::WriteDone), Phase::Closing);
}

#[test]
fn closing_handler_releases_whatever_the_flag() {
    assert_eq!(next_action(Phase::Closing, false), HandlerAction::Release);
    assert_eq!(next_action(Phase::Closing, true), HandlerAction::Release);
    assert_eq!(advance(Phase::Closing, HandlerEvent::Released), Phase::Terminated);
}

#[test]
fn drain_exits_only_at_zero() {
    assert_eq!(drain_step(0), DrainAction::Exit);
    assert_eq!(drain_step(1), DrainAction::Wait);
    assert_eq!(drain_step(u32::MAX), DrainAction::Wait);
}

use ffmtrans::control::{ControlAction, OSDReq, SessionController, ThreadChannel};
use ffmtrans::envelope::{Medium, StreamDescriptor};
use ffmtrans::session::{PipelineSession, SessionMode, SessionState};
use ffmtrans::time::{Rate, TimeBase};

#[test]
fn first_start_only_spawns() {
    let mut c = SessionController::new();
    let acts = c.start();
    assert_eq!(acts, vec![ControlAction::Spawn(0)]);
    assert_eq!(c.active, Some(0));
}

#[test]
fn hot_swap_joins_before_spawning() {
    // Starting over a live session stops and joins it strictly before the
    // replacement is spawned: the old session's termination precedes the new
    // session's first write.
    let mut c = SessionController::new();
    c.start();
    let acts = c.start();
    assert_eq!(
        acts,
        vec![ControlAction::SignalStop(0), ControlAction::Join(0), ControlAction::Spawn(1)],
    );
    assert_eq!(c.active, Some(1));
}

#[test]
fn stop_joins_and_leaves_nothing_active() {
    let mut c = SessionController::new();
    c.start();
    let acts = c.stop();
    assert_eq!(acts, vec![ControlAction::SignalStop(0), ControlAction::Join(0)]);
    assert_eq!(c.active, None);
    // Stopping with nothing active asks for nothing.
    let acts = c.stop();
    assert!(acts.is_empty());
}

#[test]
fn empty_overlay_text_selects_remux() {
    let req = OSDReq::new(String::new());
    assert_eq!(req.mode(), SessionMode::Remux);
    let req = OSDReq::new(String::from("station clock"));
    assert_eq!(req.mode(), SessionMode::Transform);
}

#[test]
fn duplicated_channel_reaches_the_same_session() {
    // A worker carries a duplicate of the channel; a stop sent on the
    // original must reach it.
    let table = vec![
        StreamDescriptor {
            index: 0,
            medium: Medium::Video,
            time_base: TimeBase::new(1, 30),
            nominal_rate: Rate::new(30, 1),
        },
    ];
    let ch = ThreadChannel::new();
    let worker_ch = ch.duplicate();
    let mut s = PipelineSession::new(table, SessionMode::Remux).unwrap();
    assert!(ch.request_stop());
    assert!(s.poll_cancellation(&worker_ch.rx));
    assert_eq!(s.state, SessionState::Draining);
}

#[test]
fn the_stop_message_asks_to_quit() {
    let m = ffmtrans::control::ThreadMsg::stop();
    assert!(m.quit);
}

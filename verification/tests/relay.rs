use f1_relay::frame::Frame;
use f1_relay::ingest::{run_stream, Ingest};
use f1_relay::medium::{Medium, Poll};
use f1_relay::session::{Session, SessionCmd, SessionState};

fn frame(id: &str, n: i64) -> Frame {
    Frame {
        driver_id: id.to_string(),
        timestamp: n,
        speed_bits: (n as f32 * 3.6).to_bits(),
        rpm_bits: (11_000.0f32).to_bits(),
        gear: 5,
        throttle_bits: (0.8f32).to_bits(),
        brake_bits: (0.0f32).to_bits(),
        drs_bits: (1.0f32).to_bits(),
        x_bits: (1.0f32).to_bits(),
        y_bits: (2.0f32).to_bits(),
        z_bits: (3.0f32).to_bits(),
    }
}

#[test]
fn clone_keeps_every_field() {
    let f = frame("HAM", 7);
    let g = f.clone();
    assert_eq!(g.driver_id, "HAM");
    assert_eq!(g.timestamp, 7);
    assert_eq!(g.speed_bits, f.speed_bits);
    assert_eq!(g.rpm_bits, f.rpm_bits);
    assert_eq!(g.gear, 5);
    assert_eq!(g.throttle_bits, f.throttle_bits);
    assert_eq!(g.brake_bits, f.brake_bits);
    assert_eq!(g.drs_bits, f.drs_bits);
    assert_eq!(g.x_bits, f.x_bits);
    assert_eq!(g.y_bits, f.y_bits);
    assert_eq!(g.z_bits, f.z_bits);
}

#[test]
fn subscriber_before_publish_sees_all_in_order() {
    let mut m = Medium::new(4);
    let mut cursor = m.subscribe();
    for n in 1..=3 {
        m.publish(frame("VER", n));
    }
    for n in 1..=3 {
        match m.poll(&mut cursor) {
            Poll::Ready(f) => assert_eq!(f.timestamp, n),
            _ => panic!("expected a ready frame"),
        }
    }
    assert!(matches!(m.poll(&mut cursor), Poll::Pending));
}

#[test]
fn late_subscriber_sees_no_history() {
    let mut m = Medium::new(8);
    m.publish(frame("VER", 1));
    m.publish(frame("VER", 2));
    let mut cursor = m.subscribe();
    assert!(matches!(m.poll(&mut cursor), Poll::Pending));
    m.publish(frame("VER", 3));
    match m.poll(&mut cursor) {
        Poll::Ready(f) => assert_eq!(f.timestamp, 3),
        _ => panic!("expected the frame published after the join"),
    }
    assert!(matches!(m.poll(&mut cursor), Poll::Pending));
}

#[test]
fn lag_reports_skipped_and_resumes_at_oldest() {
    let mut m = Medium::new(2);
    let mut cursor = m.subscribe();
    for n in 1..=5 {
        m.publish(frame("VER", n));
    }
    match m.poll(&mut cursor) {
        Poll::Lagged(skipped) => assert_eq!(skipped, 3),
        _ => panic!("expected a lag"),
    }
    match m.poll(&mut cursor) {
        Poll::Ready(f) => assert_eq!(f.timestamp, 4),
        _ => panic!("expected the oldest retained frame"),
    }
}

#[test]
fn capacity_one_keeps_only_newest() {
    let mut m = Medium::new(1);
    let mut cursor = m.subscribe();
    m.publish(frame("VER", 1));
    m.publish(frame("VER", 2));
    match m.poll(&mut cursor) {
        Poll::Lagged(skipped) => assert_eq!(skipped, 1),
        _ => panic!("expected a lag"),
    }
    match m.poll(&mut cursor) {
        Poll::Ready(f) => assert_eq!(f.timestamp, 2),
        _ => panic!("expected the newest frame"),
    }
}

#[test]
fn publish_with_no_subscribers_succeeds() {
    let mut m = Medium::new(3);
    for n in 1..=10 {
        m.publish(frame("VER", n));
    }
    let mut cursor = m.subscribe();
    assert!(matches!(m.poll(&mut cursor), Poll::Pending));
}

#[test]
fn summary_counts_every_message_without_observers() {
    let mut m = Medium::new(3);
    let mut ing = Ingest::new();
    for n in 1..=5 {
        ing.on_frame(&mut m, frame("NOR", n));
    }
    assert_eq!(ing.count(), 5);
    let summary = ing.finish();
    assert_eq!(summary.total_count, 5);
    assert_eq!(summary.status, "Stream Ended");
}

#[test]
fn empty_stream_reports_zero() {
    let mut m = Medium::new(3);
    let summary = run_stream(&mut m, Vec::new());
    assert_eq!(summary.total_count, 0);
    assert_eq!(summary.status, "Stream Ended");
}

#[test]
fn progress_marks_every_hundredth() {
    let mut m = Medium::new(3);
    let mut ing = Ingest::new();
    assert!(ing.progress_due());
    ing.on_frame(&mut m, frame("NOR", 1));
    assert!(!ing.progress_due());
    for n in 2..=100 {
        ing.on_frame(&mut m, frame("NOR", n));
    }
    assert!(ing.progress_due());
}

#[test]
fn fifty_frames_one_observer() {
    let mut m = Medium::new(100);
    let mut session = Session::accept(&m);
    assert_eq!(session.state, SessionState::Subscribed);
    session.begin_delivery();
    assert_eq!(session.state, SessionState::Delivering);

    let inbound: Vec<Frame> = (1..=50).map(|n| frame("PIA", n)).collect();
    let summary = run_stream(&mut m, inbound);
    assert_eq!(summary.total_count, 50);

    let mut received: Vec<i64> = Vec::new();
    loop {
        match session.poll_step(&m) {
            SessionCmd::Send(f) => {
                received.push(f.timestamp);
                session.on_write_result(true);
            }
            SessionCmd::Wait => break,
            SessionCmd::Stop => panic!("session should not stop here"),
        }
    }
    let expected: Vec<i64> = (1..=50).collect();
    assert_eq!(received, expected);
    assert_eq!(session.state, SessionState::Delivering);
}

fn drain(session: &mut Session, m: &Medium) -> Vec<i64> {
    let mut got = Vec::new();
    loop {
        match session.poll_step(m) {
            SessionCmd::Send(f) => {
                got.push(f.timestamp);
                session.on_write_result(true);
            }
            SessionCmd::Wait => break,
            SessionCmd::Stop => break,
        }
    }
    got
}

#[test]
fn two_observers_see_the_same_order() {
    let mut m = Medium::new(10);
    let mut early = Session::accept(&m);
    early.begin_delivery();
    m.publish(frame("SAI", 1));
    m.publish(frame("SAI", 2));
    let mut late = Session::accept(&m);
    late.begin_delivery();
    m.publish(frame("SAI", 3));
    m.publish(frame("SAI", 4));

    let early_got = drain(&mut early, &m);
    let late_got = drain(&mut late, &m);
    assert_eq!(early_got, vec![1, 2, 3, 4]);
    assert_eq!(late_got, vec![3, 4]);
}

#[test]
fn observer_dropping_after_ten_leaves_producer_unaffected() {
    let mut m = Medium::new(100);
    let mut session = Session::accept(&m);
    session.begin_delivery();

    let inbound: Vec<Frame> = (1..=50).map(|n| frame("PIA", n)).collect();
    let summary = run_stream(&mut m, inbound);

    let mut delivered = 0u32;
    loop {
        match session.poll_step(&m) {
            SessionCmd::Send(_) => {
                if delivered < 10 {
                    session.on_write_result(true);
                    delivered += 1;
                } else {
                    session.on_write_result(false);
                    break;
                }
            }
            SessionCmd::Wait => panic!("frames should still be pending"),
            SessionCmd::Stop => panic!("session should not lag here"),
        }
    }
    assert_eq!(delivered, 10);
    assert_eq!(session.state, SessionState::Disconnected);
    assert_eq!(summary.total_count, 50);
}

#[test]
fn blocked_observer_fails_lagged() {
    let mut m = Medium::new(100);
    let mut cursor = m.subscribe();
    let mut session = Session::accept(&m);
    session.begin_delivery();

    let inbound: Vec<Frame> = (1..=250).map(|n| frame("LEC", n)).collect();
    let summary = run_stream(&mut m, inbound);
    assert_eq!(summary.total_count, 250);

    match m.poll(&mut cursor) {
        Poll::Lagged(skipped) => assert!(skipped >= 150),
        _ => panic!("expected a lag"),
    }

    match session.poll_step(&m) {
        SessionCmd::Stop => {}
        _ => panic!("expected the session to stop"),
    }
    assert_eq!(session.state, SessionState::LaggedTerminated);
}

use keithley_reader::acquisition::AcquisitionBuffer;
use keithley_reader::plot::PlotBuffer;
use keithley_reader::sample::Sample;
use keithley_reader::session::{
    finish_acquisition, handle_command, Command, ErrorCode, Reply, SessionRegistry, Step,
};
use keithley_reader::time::Timestamp;

fn at(secs: i64, nanos: u32) -> Timestamp {
    Timestamp::new(secs, nanos, 0).unwrap()
}

fn expect_init_ok(step: Step<()>) {
    match step {
        Step::Send(Reply::InitOk { reseted }) => assert!(!reseted),
        _ => panic!("expected InitOk"),
    }
}

fn expect_table(reply: Reply<&str>) -> (Timestamp, Timestamp, String) {
    match reply {
        Reply::AcquirePointOk { start_time, end_time, echo, table } => {
            assert_eq!(echo, "meta");
            (start_time, end_time, table)
        }
        _ => panic!("expected AcquirePointOk"),
    }
}

#[test]
fn registry_starts_at_zero_and_each_accept_demotes_the_previous() {
    let mut r = SessionRegistry::new();
    assert_eq!(r.generation(), 0);
    let a = r.accept();
    assert_eq!(a, 1);
    assert!(r.is_current(a));
    let b = r.accept();
    assert_eq!(b, 2);
    assert!(!r.is_current(a));
    assert!(r.is_current(b));
    let c = r.accept();
    assert!(!r.is_current(a) && !r.is_current(b) && r.is_current(c));
}

#[test]
fn init_is_answered_and_leaves_buffer_alone() {
    let mut idle = AcquisitionBuffer::new();
    for _ in 0..3 {
        expect_init_ok(handle_command(Command::Init, &mut idle, at(0, 0)));
    }
    assert!(!idle.is_collecting());

    let mut busy = AcquisitionBuffer::new();
    busy.arm();
    busy.append(Sample { timestamp: at(1, 0), raw_value: "k".to_string() });
    for _ in 0..3 {
        expect_init_ok(handle_command(Command::Init, &mut busy, at(2, 0)));
    }
    assert!(busy.is_collecting());
    assert_eq!(busy.drain().len(), 1);
}

#[test]
fn unrecognized_message_gets_error_and_keeps_state() {
    let mut b = AcquisitionBuffer::new();
    b.arm();
    b.append(Sample { timestamp: at(1, 0), raw_value: "k".to_string() });
    match handle_command::<()>(Command::Unrecognized, &mut b, at(2, 0)) {
        Step::Send(Reply::Error { code, description }) => {
            assert_eq!(code, ErrorCode::UnknownMessageError);
            assert_eq!(description, "this server handles nothing but commands");
        }
        _ => panic!("expected an error reply"),
    }
    assert!(b.is_collecting());
    assert_eq!(b.drain().len(), 1);
}

#[test]
fn acquire_point_arms_and_waits() {
    let mut b = AcquisitionBuffer::new();
    let cmd = Command::AcquirePoint { wait_nanos: 2_000_000_000, echo: "meta" };
    match handle_command(cmd, &mut b, at(100, 0)) {
        Step::Wait(p) => {
            assert_eq!(p.wait_nanos, 2_000_000_000);
            assert_eq!(p.start_time, at(100, 0));
            assert_eq!(p.echo, "meta");
        }
        _ => panic!("expected to wait"),
    }
    assert!(b.is_collecting());
}

#[test]
fn finishing_an_idle_buffer_gives_header_only() {
    let mut b = AcquisitionBuffer::new();
    let cmd = Command::AcquirePoint { wait_nanos: 0, echo: "meta" };
    let pending = match handle_command(cmd, &mut b, at(0, 0)) {
        Step::Wait(p) => p,
        _ => panic!("expected to wait"),
    };
    let (_, _, table) = expect_table(finish_acquisition(pending, &mut b, at(0, 0)));
    assert_eq!(table, "timestamp\tvalue\n");
    assert!(!b.is_collecting());
}

#[test]
fn simulated_sampler_fills_two_second_window() {
    // The sampler emits one sample every 0.5 s; the window opens at 0.2 s.
    let mut b = AcquisitionBuffer::new();
    let mut pending = None;
    let mut reply = None;
    for tick in 0..=8u32 {
        let nanos = tick as i64 * 500_000_000;
        let now = at(nanos / 1_000_000_000, (nanos % 1_000_000_000) as u32);
        if tick > 0 {
            b.append(Sample { timestamp: now, raw_value: format!("{tick}") });
        }
        if tick == 0 {
            match handle_command(Command::AcquirePoint { wait_nanos: 2_000_000_000, echo: "meta" }, &mut b, at(0, 200_000_000)) {
                Step::Wait(p) => pending = Some(p),
                _ => panic!("expected to wait"),
            }
        }
        if tick == 4 {
            let p = pending.take().unwrap();
            reply = Some(finish_acquisition(p, &mut b, at(2, 200_000_000)));
        }
    }
    let (start, end, table) = expect_table(reply.unwrap());
    assert_eq!(start.nanos_until(&end), 2_000_000_000);
    let rows: Vec<&str> = table.lines().skip(1).collect();
    assert!(rows.len() >= 3 && rows.len() <= 4);
    let stamps: Vec<&str> = rows.iter().map(|r| r.split('\t').next().unwrap()).collect();
    for w in stamps.windows(2) {
        assert!(w[0] < w[1]);
    }
    assert_eq!(rows[0], "1970-01-01T00:00:00.500+00:00\t1");
    assert_eq!(rows[3], "1970-01-01T00:00:02+00:00\t4");
}

#[test]
fn preempted_session_still_finishes_its_acquisition() {
    let mut registry = SessionRegistry::new();
    let mut b = AcquisitionBuffer::new();
    let a = registry.accept();
    assert!(registry.is_current(a));
    expect_init_ok(handle_command(Command::Init, &mut b, at(0, 0)));
    let cmd = Command::AcquirePoint { wait_nanos: 1_000_000_000, echo: "meta" };
    let pending = match handle_command(cmd, &mut b, at(1, 0)) {
        Step::Wait(p) => p,
        _ => panic!("expected to wait"),
    };
    let second = registry.accept();
    assert!(registry.is_current(second));
    assert!(!registry.is_current(a));
    b.append(Sample { timestamp: at(1, 500_000_000), raw_value: "7".to_string() });
    let (start, end, table) = expect_table(finish_acquisition(pending, &mut b, at(2, 0)));
    assert_eq!(start, at(1, 0));
    assert_eq!(end, at(2, 0));
    assert_eq!(table, "timestamp\tvalue\n1970-01-01T00:00:01.500+00:00\t7\n");
    assert!(!registry.is_current(a));
}

#[test]
fn unparsable_value_reaches_log_and_table_but_not_plot() {
    let ts = at(3, 0);
    let mut plot: PlotBuffer<i64> = PlotBuffer::new(10);
    plot.offer(Some(1));
    let parsed: Option<i64> = "abc".parse().ok();
    plot.offer(parsed);
    assert_eq!(plot.len(), 1);

    let s = Sample { timestamp: ts, raw_value: "abc".to_string() };
    assert_eq!(s.record(), "1970-01-01T00:00:03+00:00\tabc\n");

    let mut b = AcquisitionBuffer::new();
    let pending = match handle_command(Command::AcquirePoint { wait_nanos: 0, echo: "meta" }, &mut b, at(2, 0)) {
        Step::Wait(p) => p,
        _ => panic!("expected to wait"),
    };
    b.append_reading(ts, &vec!["abc".to_string()]);
    let (_, _, table) = expect_table(finish_acquisition(pending, &mut b, at(4, 0)));
    assert!(table.lines().any(|l| l == "1970-01-01T00:00:03+00:00\tabc"));
}

use estunnel::elastic::Hit;
use estunnel::sink::{record_line, sink, Sink};

fn batch(records: &[&str]) -> Vec<Hit> {
    records.iter().map(|r| Hit { _source: r.to_string() }).collect()
}

fn numbered(from: u64, to: u64) -> Vec<Hit> {
    (from..to).map(|n| Hit { _source: format!("{{\"n\":{}}}", n) }).collect()
}

#[test]
fn the_sink_writes_exactly_the_limit() {
    let batches = vec![numbered(0, 3), numbered(3, 6), numbered(6, 8)];
    let mut lines = Vec::new();
    let (written, stopped) = sink(Some(5), &batches, &mut lines);
    assert_eq!(written, 5);
    assert!(stopped);
    assert_eq!(lines, vec!["{\"n\":0}\n", "{\"n\":1}\n", "{\"n\":2}\n", "{\"n\":3}\n", "{\"n\":4}\n"]);
}

#[test]
fn the_limit_holds_for_every_limit_below_the_supply() {
    let batches = vec![numbered(0, 4), Vec::new(), numbered(4, 5), numbered(5, 11)];
    for limit in 0..11u64 {
        let mut lines = Vec::new();
        let (written, stopped) = sink(Some(limit), &batches, &mut lines);
        assert_eq!(written, limit);
        assert_eq!(lines.len() as u64, limit);
        assert!(stopped);
        for (k, line) in lines.iter().enumerate() {
            assert_eq!(line, &format!("{{\"n\":{}}}\n", k));
        }
    }
}

#[test]
fn a_limit_above_the_supply_writes_everything() {
    let batches = vec![numbered(0, 3), numbered(3, 4)];
    let mut lines = Vec::new();
    let (written, stopped) = sink(Some(100), &batches, &mut lines);
    assert_eq!(written, 4);
    assert!(!stopped);
    assert_eq!(lines.len(), 4);
}

#[test]
fn a_limit_equal_to_the_supply_stops_nothing() {
    let batches = vec![numbered(0, 2)];
    let mut lines = Vec::new();
    let (written, stopped) = sink(Some(2), &batches, &mut lines);
    assert_eq!(written, 2);
    assert!(!stopped);
    assert_eq!(lines.len(), 2);
}

#[test]
fn a_limit_of_zero_writes_nothing() {
    let mut lines = Vec::new();
    assert_eq!(sink(Some(0), &vec![batch(&["1"])], &mut lines), (0, true));
    assert!(lines.is_empty());
    assert_eq!(sink(Some(0), &Vec::new(), &mut lines), (0, false));
    assert_eq!(sink(Some(0), &vec![Vec::new()], &mut lines), (0, false));
}

#[test]
fn without_a_limit_everything_is_written_in_order() {
    let batches = vec![batch(&["a", "b"]), batch(&[]), batch(&["c"])];
    let mut lines = vec!["kept\n".to_string()];
    let (written, stopped) = sink(None, &batches, &mut lines);
    assert_eq!(written, 3);
    assert!(!stopped);
    assert_eq!(lines, vec!["kept\n", "a\n", "b\n", "c\n"]);
}

#[test]
fn a_record_is_one_line() {
    assert_eq!(record_line(&Hit { _source: "{\"a\":1}".to_string() }), "{\"a\":1}\n");
    assert_eq!(record_line(&Hit { _source: String::new() }), "\n");
}

#[test]
fn the_sink_counts_record_by_record() {
    let mut s = Sink::new(Some(2));
    assert_eq!((s.written, s.stopped, s.limit), (0, false, Some(2)));
    assert!(s.accepts());
    s.record_written();
    assert!(s.accepts());
    s.record_written();
    assert_eq!(s.written, 2);
    assert!(!s.stopped);
    assert!(s.reached_limit());
    assert!(!s.accepts());
    assert!(s.stopped);
    assert_eq!(s.written, 2);
    assert!(!s.accepts());
}

#[test]
fn a_sink_without_limit_never_reaches_one() {
    let mut s = Sink::new(None);
    for _ in 0..1000 {
        assert!(s.accepts());
        s.record_written();
    }
    assert_eq!(s.written, 1000);
    assert!(!s.reached_limit());
    assert!(!s.stopped);
}

#[test]
fn a_failed_write_stops_the_sink_and_is_reported() {
    let mut s = Sink::new(Some(10));
    assert!(s.accepts());
    s.record_written();
    assert!(s.accepts());
    let report = s.write_failed(false, "No space left on device (os error 28)");
    assert_eq!(report.unwrap(), "Write error: No space left on device (os error 28)");
    assert!(s.stopped);
    assert_eq!(s.written, 1);
    assert!(!s.accepts());
    assert!(!s.reached_limit());
}

#[test]
fn a_broken_pipe_stops_the_sink_without_a_report() {
    let mut s = Sink::new(None);
    assert!(s.accepts());
    s.record_written();
    assert!(s.write_failed(true, "Broken pipe (os error 32)").is_none());
    assert!(s.stopped);
    assert_eq!(s.written, 1);
    assert!(!s.accepts());
}

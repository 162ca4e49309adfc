use realm_downloader::log::LogLine;
use realm_downloader::output::{OutputChannel, DEFAULT_OUTPUT_CAP};

fn tool(i: usize) -> LogLine {
    LogLine::Tool { text: format!("line {}", i) }
}

#[test]
fn channel_keeps_the_newest_lines_up_to_its_cap() {
    let mut ch = OutputChannel::new(DEFAULT_OUTPUT_CAP);
    for i in 0..1500 {
        ch.push(tool(i));
        assert!(ch.len() <= 1000);
    }
    assert_eq!(ch.len(), 1000);
    let lines = ch.snapshot();
    assert_eq!(lines[0], tool(500));
    assert_eq!(lines[999], tool(1499));
    for (k, line) in lines.iter().enumerate() {
        assert_eq!(*line, tool(500 + k));
    }
}

#[test]
fn push_all_matches_pushing_one_by_one() {
    let mut a = OutputChannel::new(3);
    let mut b = OutputChannel::new(3);
    let lines: Vec<LogLine> = (0..5).map(tool).collect();
    a.push_all(lines.clone());
    for l in lines {
        b.push(l);
    }
    assert_eq!(a.snapshot(), b.snapshot());
    assert_eq!(a.snapshot(), vec![tool(2), tool(3), tool(4)]);
}

#[test]
fn zero_cap_holds_nothing() {
    let mut ch = OutputChannel::new(0);
    ch.push(tool(1));
    assert_eq!(ch.len(), 0);
    assert_eq!(ch.cap(), 0);
}

#[test]
fn clear_empties_the_channel() {
    let mut ch = OutputChannel::new(5);
    ch.push(tool(1));
    ch.clear();
    assert!(ch.snapshot().is_empty());
}

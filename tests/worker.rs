use std::cell::Cell;
use std::rc::Rc;

use pingbar::address::{parse_literal_address, DnsError, IpAddress};
use pingbar::result::PingResult;
use pingbar::worker::{host_title, Worker};

type Callback = Box<dyn Fn(&[Option<PingResult>])>;

#[test]
fn fresh_worker_has_empty_history() {
    let w: Worker<Callback> = Worker::new(10);
    assert_eq!(w.current_stats(), vec![None; 10]);
    assert_eq!(w.icmp_seq(), 0);
    assert_eq!(w.hostname(), None);
    assert!(w.on_tick().is_none());
}

#[test]
fn literal_host_is_the_next_target() {
    let mut w: Worker<Callback> = Worker::new(3);
    let resolved = parse_literal_address("1.2.3.4:443");
    assert_eq!(w.set_hostname("1.2.3.4:443", resolved), Ok(()));
    assert_eq!(w.hostname(), Some("1.2.3.4:443".to_string()));
    let req = w.begin_tick().expect("a probe is due");
    assert_eq!(req.ip_addr, IpAddress::V4([1, 2, 3, 4]));
    assert_eq!(req.hostname, "1.2.3.4:443");
    assert_eq!(req.icmp_seq, 1);
    assert_eq!(req.ttl, 64);
}

#[test]
fn unresolved_host_leaves_worker_unconfigured() {
    let mut w: Worker<Callback> = Worker::new(3);
    w.set_hostname("1.2.3.4", Some(IpAddress::V4([1, 2, 3, 4]))).unwrap();
    let resolved = parse_literal_address("nonexistent.invalid:443");
    assert_eq!(resolved, None);
    assert_eq!(w.set_hostname("nonexistent.invalid:443", resolved), Err(DnsError));
    assert_eq!(w.hostname(), None);
    assert!(w.begin_tick().is_none());
    assert_eq!(w.icmp_seq(), 0);
    assert_eq!(w.current_stats(), vec![None, None, Some(PingResult::NotConfigured)]);
}

#[test]
fn failed_probe_is_recorded_as_error() {
    let mut w: Worker<Callback> = Worker::new(2);
    w.set_hostname("10.255.255.1", Some(IpAddress::V4([10, 255, 255, 1]))).unwrap();
    let req = w.begin_tick().unwrap();
    w.finish_tick(&req, Err("io error: timed out".to_string()));
    assert_eq!(w.icmp_seq(), 1);
    assert_eq!(
        w.current_stats(),
        vec![None, Some(PingResult::Error("io error: timed out".to_string()))]
    );
}

#[test]
fn answered_probes_count_up_with_ttl_64() {
    let mut w: Worker<Callback> = Worker::new(2);
    w.set_hostname("h:443", Some(IpAddress::V4([9, 9, 9, 9]))).unwrap();
    let req = w.begin_tick().unwrap();
    w.finish_tick(&req, Ok(15));
    let req = w.begin_tick().unwrap();
    w.finish_tick(&req, Ok(17));
    assert_eq!(
        w.current_stats(),
        vec![
            Some(PingResult::Done {
                hostname: "h:443".to_string(),
                icmp_seq: 1,
                ttl: 64,
                round_trip_ms: 15
            }),
            Some(PingResult::Done {
                hostname: "h:443".to_string(),
                icmp_seq: 2,
                ttl: 64,
                round_trip_ms: 17
            }),
        ]
    );
}

#[test]
fn counter_survives_reconfiguration_and_idle_ticks() {
    let mut w: Worker<Callback> = Worker::new(4);
    w.set_hostname("a", Some(IpAddress::V4([1, 1, 1, 1]))).unwrap();
    let req = w.begin_tick().unwrap();
    w.finish_tick(&req, Ok(1));
    w.set_hostname("bad", None).unwrap_err();
    assert!(w.begin_tick().is_none());
    w.set_hostname("b", Some(IpAddress::V6([0, 0, 0, 0, 0, 0, 0, 1]))).unwrap();
    let req = w.begin_tick().unwrap();
    assert_eq!(req.icmp_seq, 2);
    assert_eq!(req.hostname, "b");
    assert_eq!(req.ip_addr, IpAddress::V6([0, 0, 0, 0, 0, 0, 0, 1]));
}

#[test]
fn history_keeps_last_outcomes() {
    let mut w: Worker<Callback> = Worker::new(2);
    w.set_hostname("a", Some(IpAddress::V4([1, 1, 1, 1]))).unwrap();
    for ms in 1..=5u128 {
        let req = w.begin_tick().unwrap();
        w.finish_tick(&req, Ok(ms));
    }
    let stats = w.current_stats();
    assert_eq!(stats.len(), 2);
    assert!(matches!(&stats[0], Some(PingResult::Done { icmp_seq: 4, .. })));
    assert!(matches!(&stats[1], Some(PingResult::Done { icmp_seq: 5, .. })));
}

#[test]
fn worker_of_capacity_zero_keeps_nothing() {
    let mut w: Worker<Callback> = Worker::new(0);
    assert!(w.begin_tick().is_none());
    assert_eq!(w.current_stats(), Vec::<Option<PingResult>>::new());
}

#[test]
fn second_subscriber_replaces_first() {
    let first = Rc::new(Cell::new(0u32));
    let second = Rc::new(Cell::new(0u32));
    let mut w: Worker<Callback> = Worker::new(1);
    let f = first.clone();
    w.subscribe(Box::new(move |_| f.set(f.get() + 1)));
    let s = second.clone();
    w.subscribe(Box::new(move |_| s.set(s.get() + 1)));
    for _ in 0..3 {
        assert!(w.begin_tick().is_none());
        if let Some(cb) = w.on_tick() {
            cb(&w.current_stats());
        }
    }
    assert_eq!(first.get(), 0);
    assert_eq!(second.get(), 3);
}

#[test]
fn target_changes_are_whole() {
    let mut w: Worker<Callback> = Worker::new(1);
    let hosts = [("1.1.1.1", [1u8, 1, 1, 1]), ("2.2.2.2:80", [2, 2, 2, 2]), ("3.3.3.3", [3, 3, 3, 3])];
    for round in 0..9 {
        let (h, a) = hosts[round % 3];
        w.set_hostname(h, parse_literal_address(h)).unwrap();
        let req = w.begin_tick().unwrap();
        assert_eq!(req.hostname, h);
        assert_eq!(req.ip_addr, IpAddress::V4(a));
        w.finish_tick(&req, Ok(1));
    }
}

#[test]
fn host_titles() {
    assert_eq!(host_title("google.com:443", &Ok(())), "Host: google.com:443");
    assert_eq!(host_title("x", &Err(DnsError)), "error setting hostname: DNS lookup error");
}

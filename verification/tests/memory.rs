use femtoclaw_bench::benchmarks::portable::{rss_reading, stm_push, RssReading, STM_CAPACITY};

#[test]
fn stm_keeps_the_latest_messages() {
    let mut buf: Vec<String> = Vec::new();
    for i in 0..STM_CAPACITY + 1 {
        stm_push(&mut buf, i.to_string(), STM_CAPACITY);
        assert!(buf.len() <= STM_CAPACITY);
    }
    let expected: Vec<String> = (1..STM_CAPACITY + 1).map(|i| i.to_string()).collect();
    assert_eq!(buf, expected);
}

#[test]
fn stm_under_capacity_keeps_everything() {
    let mut buf = vec![1, 2];
    stm_push(&mut buf, 3, 5);
    assert_eq!(buf, vec![1, 2, 3]);
}

#[test]
fn stm_trims_an_overfull_buffer() {
    let mut buf = vec![1, 2, 3, 4, 5];
    stm_push(&mut buf, 6, 2);
    assert_eq!(buf, vec![5, 6]);
    let mut empty_cap = vec![1];
    stm_push(&mut empty_cap, 2, 0);
    assert!(empty_cap.is_empty());
}

#[test]
fn rss_growth_is_the_difference() {
    assert_eq!(
        rss_reading(100, Some(164)),
        RssReading { before_kib: 100, after_kib: 164, delta_kib: 64 }
    );
}

#[test]
fn rss_growth_never_goes_negative() {
    assert_eq!(
        rss_reading(100, Some(90)),
        RssReading { before_kib: 100, after_kib: 90, delta_kib: 0 }
    );
}

#[test]
fn rss_failed_second_reading_counts_as_unchanged() {
    assert_eq!(
        rss_reading(2048, None),
        RssReading { before_kib: 2048, after_kib: 2048, delta_kib: 0 }
    );
}

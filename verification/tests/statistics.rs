use arctic::stats::LoadTestStats;
use arctic::stats::Outcome;

#[test]
fn record_moves_every_counter() {
    let mut st = LoadTestStats::new();
    st.record(Outcome::Success, 30);
    assert_eq!(st.total_requests, 1);
    assert_eq!(st.success_count, 1);
    assert_eq!(st.error_count, 0);
    assert_eq!(st.total_duration, 30);
    st.record(Outcome::Failure, 12);
    assert_eq!(st.total_requests, 2);
    assert_eq!(st.success_count, 1);
    assert_eq!(st.error_count, 1);
    assert_eq!(st.total_duration, 42);
}

#[test]
fn interleavings_agree() {
    // The same bag of eight outcomes in three different orders: the final
    // counters agree, the total is the number of calls, and the success and
    // error counts add up to the total.
    let calls = vec![
        (Outcome::Success, 10u64),
        (Outcome::Failure, 20),
        (Outcome::Success, 30),
        (Outcome::Success, 5),
        (Outcome::Failure, 7),
        (Outcome::Success, 1),
        (Outcome::Failure, 2),
        (Outcome::Success, 25),
    ];
    let orders: [Vec<usize>; 3] = [
        vec![0, 1, 2, 3, 4, 5, 6, 7],
        vec![7, 6, 5, 4, 3, 2, 1, 0],
        vec![3, 0, 7, 1, 5, 2, 6, 4],
    ];
    let mut finals = Vec::new();
    for order in &orders {
        let mut st = LoadTestStats::new();
        for &i in order {
            let (o, e) = calls[i];
            st.record(o, e);
        }
        assert_eq!(st.total_requests, calls.len() as u64);
        assert_eq!(st.success_count + st.error_count, st.total_requests);
        finals.push((
            st.total_requests,
            st.success_count,
            st.error_count,
            st.total_duration,
        ));
    }
    assert_eq!(finals[0], finals[1]);
    assert_eq!(finals[0], finals[2]);
}

#[test]
fn summary_exact_figures() {
    let mut st = LoadTestStats::new();
    for _ in 0..95 {
        st.record(Outcome::Success, 50);
    }
    for _ in 0..5 {
        st.record(Outcome::Failure, 50);
    }
    assert_eq!(st.total_requests, 100);
    assert_eq!(st.total_duration, 5000);
    let r = st.summary(10_000);
    // 10.00 requests per second, 50.00 ms mean latency, in hundredths.
    assert_eq!(r.rps_centi, 1000);
    assert_eq!(r.avg_latency_centi_ms, 5000);
    assert_eq!(r.total_requests, 100);
    assert_eq!(r.success_count, 95);
    assert_eq!(r.error_count, 5);
    let text = r.render(10_000);
    assert_eq!(
        text,
        "\n==== Load Test Summary ====\n\
         total duration:      10.00s\n\
         total requests:      100\n\
         successful requests: 95\n\
         failed requests:     5\n\
         requests per second: 10.00\n\
         avg response time:   50.00ms\n"
    );
}

#[test]
fn summary_of_zero_elapsed_run_is_zero_rate() {
    let mut st = LoadTestStats::new();
    st.record(Outcome::Success, 3);
    let r = st.summary(0);
    assert_eq!(r.rps_centi, 0);
    assert_eq!(r.avg_latency_centi_ms, 300);
}

#[test]
fn summary_of_empty_run_has_zero_mean_latency() {
    let st = LoadTestStats::new();
    let r = st.summary(1_000);
    assert_eq!(r.total_requests, 0);
    assert_eq!(r.rps_centi, 0);
    assert_eq!(r.avg_latency_centi_ms, 0);
}

use kcom::bench_async_com::{
    finish_result, may_start, parse_env_u32, parse_env_usize, selected_iterations,
    selected_parallelism, selected_yield_count, ticks_to_ns, update_max, update_min, validate_config,
    BenchConfig, BenchCounters, BenchFuture, BenchPoll, BenchScenario, ITER_MEDIUM, PAR_4,
};
use kcom::STATUS_INVALID_PARAMETER;

#[test]
fn bench_settings_from_environment() {
    assert_eq!(parse_env_usize(Some("250")), Some(250));
    assert_eq!(parse_env_usize(Some("0")), None);
    assert_eq!(parse_env_usize(Some("x1")), None);
    assert_eq!(parse_env_usize(None), None);
    assert_eq!(parse_env_u32(Some("12")), Some(12));
    assert_eq!(parse_env_u32(Some("-3")), None);
    assert_eq!(selected_iterations(Some("bad")), ITER_MEDIUM);
    assert_eq!(selected_iterations(Some("5")), 5);
    assert_eq!(selected_parallelism(None), PAR_4);
    assert_eq!(selected_yield_count(None), 8);
    assert_eq!(selected_yield_count(Some("0")), 8);
    assert_eq!(selected_yield_count(Some("3")), 3);
    let cfg = BenchConfig::selected(BenchScenario::YieldMany, Some("20"), Some("2"), None);
    assert_eq!(cfg.scenario, BenchScenario::YieldMany);
    assert_eq!((cfg.iterations, cfg.parallelism, cfg.yield_count), (20, 2, 8));
}

#[test]
fn ticks_convert_to_nanoseconds() {
    assert_eq!(ticks_to_ns(10_000_000, 10_000_000), 1_000_000_000);
    assert_eq!(ticks_to_ns(3, 10_000_000), 300);
    assert_eq!(ticks_to_ns(123, 0), 0);
    assert_eq!(ticks_to_ns(u64::MAX, 1_000_000_000), u64::MAX);
}

#[test]
fn bench_operation_yields_then_records() {
    let mut counters = BenchCounters::new();
    let mut f = BenchFuture::new(100, BenchScenario::YieldOnce, 8);
    assert_eq!(f.poll_step(110, &mut counters), BenchPoll::Yield);
    assert_eq!(counters.completed, 0);
    assert_eq!(f.poll_step(150, &mut counters), BenchPoll::Ready);
    assert_eq!(f.poll_step(500, &mut counters), BenchPoll::Ready);
    assert_eq!((counters.completed, counters.sum_ticks), (1, 50));
    assert_eq!((counters.min_ticks, counters.max_ticks), (50, 50));
    let mut g = BenchFuture::new(10, BenchScenario::YieldMany, 0);
    assert_eq!(g.remaining, 1);
    let mut h = BenchFuture::new(200, BenchScenario::Immediate, 8);
    assert_eq!(h.poll_step(150, &mut counters), BenchPoll::Ready);
    assert_eq!((counters.completed, counters.min_ticks, counters.max_ticks), (2, 0, 50));
    assert_eq!(g.poll_step(11, &mut counters), BenchPoll::Yield);
}

#[test]
fn bench_result_figures() {
    let cfg = BenchConfig::selected(BenchScenario::Immediate, Some("4"), Some("1"), None);
    assert!(validate_config(&cfg).is_ok());
    let mut counters = BenchCounters::new();
    counters.record_latency(10);
    counters.record_latency(30);
    let r = finish_result(&cfg, 1_000_000_000, 1_000, 3_000, &counters);
    assert_eq!(r.elapsed_ticks, 2_000);
    assert_eq!(r.avg_latency_ticks, 10);
    assert_eq!((r.min_latency_ticks, r.max_latency_ticks), (10, 30));
    assert_eq!(r.elapsed_ns(), 2_000);
    assert_eq!(r.avg_latency_ns(), 10);
    assert_eq!(r.min_latency_ns(), 10);
    assert_eq!(r.max_latency_ns(), 30);
    assert_eq!(r.throughput_per_sec(), 2_000_000);
    let empty = finish_result(&cfg, 0, 5, 1, &BenchCounters::new());
    assert_eq!((empty.elapsed_ticks, empty.min_latency_ticks), (0, 0));
    assert_eq!(empty.throughput_per_sec(), 0);
}

#[test]
fn bench_config_validation_and_admission() {
    let mut cfg = BenchConfig::selected(BenchScenario::Immediate, None, None, None);
    cfg.parallelism = 0;
    assert_eq!(validate_config(&cfg), Err(STATUS_INVALID_PARAMETER));
    assert!(may_start(3, 1, 4));
    assert!(!may_start(5, 1, 4));
    assert!(may_start(0, 2, 1));
    let mut lo = 10u64;
    update_min(&mut lo, 3);
    update_min(&mut lo, 7);
    assert_eq!(lo, 3);
    let mut hi = 10u64;
    update_max(&mut hi, 3);
    update_max(&mut hi, 17);
    assert_eq!(hi, 17);
}

#[test]
fn bench_settings_parse_like_std() {
    for text in ["+7", "", "+", "007", "4294967295", "4294967296", "1_0", " 5", "-0", "18446744073709551615", "18446744073709551616"] {
        let expected_u32 = text.parse::<u32>().ok().filter(|v| *v > 0);
        assert_eq!(parse_env_u32(Some(text)), expected_u32, "{text}");
        let expected_usize = text.parse::<usize>().ok().filter(|v| *v > 0);
        assert_eq!(parse_env_usize(Some(text)), expected_usize, "{text}");
    }
    assert_eq!(kcom::bench_async_com::parse_unsigned("+0042", 100), Some(42));
    assert_eq!(kcom::bench_async_com::parse_unsigned("101", 100), None);
}

use protobuf_json_benchmark::benchmark::{
    count_votes, network_size_in_range, simulate_network, throughput_window_open, BenchmarkMetric,
    BenchmarkResults, EvolutionTiming, Format, Measurement, Observations, PayloadSizeMetric,
    PerformanceTester, Ratio, SchemaEvolutionMetric, ThroughputCount, ThroughputMetric, Timing,
    Verdict, CONCURRENT_WORKERS, OPERATIONS_PER_WORKER, PAUSE_MILLIS, VOTES,
};
use protobuf_json_benchmark::compress::compressed_len;
use std::io::Write;

fn whole(amount: u64) -> Measurement {
    Measurement { amount, per: 1 }
}

fn won_by(winner: Format) -> BenchmarkMetric {
    BenchmarkMetric {
        json: whole(1),
        protobuf: whole(1),
        difference: Ratio { numerator: 1, denominator: 1 },
        winner,
    }
}

fn results_with(winners: [Format; 11]) -> BenchmarkResults {
    BenchmarkResults {
        serialization: won_by(winners[0]),
        deserialization: won_by(winners[1]),
        payload_size: PayloadSizeMetric {
            uncompressed: won_by(winners[2]),
            compressed: won_by(winners[3]),
        },
        cpu_usage: won_by(winners[4]),
        memory_usage: won_by(winners[5]),
        network_transfer: won_by(winners[6]),
        latency_under_load: won_by(winners[7]),
        parser_init: won_by(winners[8]),
        throughput: ThroughputMetric {
            json: whole(1),
            protobuf: whole(1),
            difference: Ratio { numerator: 1, denominator: 1 },
            winner: winners[9],
        },
        schema_evolution: SchemaEvolutionMetric {
            json: whole(1),
            protobuf_backwards: whole(1),
            protobuf_forwards: whole(1),
            protobuf_average: whole(1),
            winner: winners[10],
        },
    }
}

fn reference_gzip_len(data: &[u8]) -> usize {
    let mut encoder =
        flate2::write::GzEncoder::new(Vec::new(), flate2::Compression::default());
    encoder.write_all(data).unwrap();
    encoder.finish().unwrap().len()
}

#[test]
fn format_names() {
    assert_eq!(Format::Json.name(), "JSON");
    assert_eq!(Format::Protobuf.name(), "Protobuf");
}

#[test]
fn measurement_order_is_exact() {
    let third = Measurement { amount: 1, per: 3 };
    let half = Measurement { amount: 1, per: 2 };
    assert!(third.is_below(&half));
    assert!(!half.is_below(&third));
    assert!(!half.is_below(&Measurement { amount: 2, per: 4 }));
    let large = Measurement { amount: u64::MAX, per: u64::MAX - 1 };
    let larger = Measurement { amount: u64::MAX, per: u64::MAX - 2 };
    assert!(large.is_below(&larger));
    assert!(!larger.is_below(&large));
    let undefined = Measurement { amount: 5, per: 0 };
    assert!(!undefined.is_below(&Measurement { amount: 9, per: 0 }));
}

#[test]
fn lower_value_wins() {
    let metric = BenchmarkMetric::lower_is_better(whole(3), whole(4));
    assert_eq!(metric.winner, Format::Json);
    assert_eq!(metric.json, whole(3));
    assert_eq!(metric.protobuf, whole(4));
    assert_eq!(metric.difference, Ratio { numerator: 3, denominator: 4 });
    let metric = BenchmarkMetric::lower_is_better(whole(4), whole(3));
    assert_eq!(metric.winner, Format::Protobuf);
    assert_eq!(metric.difference, Ratio { numerator: 4, denominator: 3 });
    let metric = BenchmarkMetric::lower_is_better(whole(4), whole(4));
    assert_eq!(metric.winner, Format::Protobuf);
}

#[test]
fn higher_throughput_wins() {
    let tester = PerformanceTester::new(20, 1000);
    let metric = tester.test_throughput(ThroughputCount {
        json_operations: 900,
        json_nanos: 1_000_000_100,
        protobuf_operations: 800,
        protobuf_nanos: 1_000_000_050,
    });
    assert_eq!(metric.winner, Format::Json);
    assert_eq!(metric.json, Measurement { amount: 900, per: 1_000_000_100 });
    assert_eq!(metric.protobuf, Measurement { amount: 800, per: 1_000_000_050 });
    assert_eq!(
        metric.difference,
        Ratio { numerator: 900 * 1_000_000_050, denominator: 800 * 1_000_000_100 }
    );
    let metric = ThroughputMetric::higher_is_better(whole(5), whole(6));
    assert_eq!(metric.winner, Format::Protobuf);
    let metric = ThroughputMetric::higher_is_better(whole(6), whole(6));
    assert_eq!(metric.winner, Format::Protobuf);
}

#[test]
fn throughput_window_is_one_second() {
    assert!(throughput_window_open(0));
    assert!(throughput_window_open(999_999_999));
    assert!(!throughput_window_open(1_000_000_000));
}

#[test]
fn latency_trial_shape() {
    assert_eq!(CONCURRENT_WORKERS, 10);
    assert_eq!(OPERATIONS_PER_WORKER, 10);
    assert_eq!(PAUSE_MILLIS, 1);
    let tester = PerformanceTester::new(20, 1000);
    let floor = (OPERATIONS_PER_WORKER as u64) * PAUSE_MILLIS * 1_000_000;
    let metric = tester.test_latency_under_load(Timing {
        json_nanos: floor + 7,
        protobuf_nanos: floor + 3,
    });
    assert_eq!(metric.winner, Format::Protobuf);
    assert_eq!(metric.json, whole(10_000_007));
}

#[test]
fn encode_speed_scenario() {
    let tester = PerformanceTester::new(20, 1000);
    assert_eq!(tester.data_size, 20);
    assert_eq!(tester.iterations, 1000);
    assert!(tester.results.is_none());
    let first = tester.test_serialization_speed(Timing { json_nanos: 41_000, protobuf_nanos: 9_500 });
    assert!(first.json.amount > 0 && first.json.per == 1000);
    assert!(first.protobuf.amount > 0 && first.protobuf.per == 1000);
    assert_eq!(first.winner, Format::Protobuf);
    let again = tester.test_serialization_speed(Timing { json_nanos: 41_000, protobuf_nanos: 9_500 });
    assert_eq!(first, again);
    let other = tester.test_deserialization_speed(Timing { json_nanos: 1, protobuf_nanos: 2 });
    assert_eq!(other.winner, Format::Json);
    assert_eq!(other.difference, Ratio { numerator: 1000, denominator: 2000 });
}

#[test]
fn no_repetitions_leave_the_binary_format_winning() {
    let tester = PerformanceTester::new(20, 0);
    let metric = tester.test_serialization_speed(Timing { json_nanos: 1, protobuf_nanos: 2 });
    assert_eq!(metric.winner, Format::Protobuf);
}

#[test]
fn network_formula() {
    assert_eq!(simulate_network(0), Measurement { amount: 50 * 32768, per: 32768 });
    assert_eq!(simulate_network(32768), Measurement { amount: 75 * 32768, per: 32768 });
    assert_eq!(simulate_network(1), Measurement { amount: 1_638_425, per: 32768 });
    let time = simulate_network(1_310_720);
    assert_eq!(time.amount / time.per, 1050);
    assert_eq!(time.amount % time.per, 0);
    assert!(network_size_in_range(0));
    assert!(network_size_in_range(1 << 40));
    let tester = PerformanceTester::new(20, 1000);
    let metric = tester.test_network_transfer(2000, 900);
    assert_eq!(metric.winner, Format::Protobuf);
    assert_eq!(metric.json.amount, 1_638_400 + 50_000);
    assert_eq!(metric.protobuf.amount, 1_638_400 + 22_500);
    let metric = tester.test_network_transfer(900, 900);
    assert_eq!(metric.winner, Format::Protobuf);
}

#[test]
fn network_range_limit() {
    if usize::BITS == 64 {
        let limit = ((u64::MAX - 1_638_400) / 25) as usize;
        assert!(network_size_in_range(limit));
        assert!(!network_size_in_range(limit + 1));
        assert_eq!(simulate_network(limit).amount, 1_638_400 + 25 * (limit as u64));
    }
}

#[test]
fn parser_initialization_is_fixed() {
    let tester = PerformanceTester::new(1, 1);
    let metric = tester.test_parser_initialization();
    assert_eq!(metric.json, Measurement { amount: 1, per: 100 });
    assert_eq!(metric.protobuf, Measurement { amount: 5, per: 1 });
    assert_eq!(metric.winner, Format::Json);
    assert_eq!(metric.difference, Ratio { numerator: 1, denominator: 500 });
}

#[test]
fn cpu_workload_is_ten_per_repetition() {
    assert_eq!(PerformanceTester::new(20, 1000).cpu_workload(), Some(10_000));
    assert_eq!(PerformanceTester::new(20, 0).cpu_workload(), Some(0));
    assert_eq!(PerformanceTester::new(20, usize::MAX).cpu_workload(), None);
    let tester = PerformanceTester::new(20, 1000);
    let metric = tester.test_cpu_usage(Timing { json_nanos: 10, protobuf_nanos: 11 });
    assert_eq!(metric.winner, Format::Json);
    let metric = tester.test_memory_usage(Timing { json_nanos: 12, protobuf_nanos: 11 });
    assert_eq!(metric.winner, Format::Protobuf);
    assert_eq!(metric.json, whole(12));
}

#[test]
fn compressed_length_is_that_of_the_gzip_stream() {
    let zeros = vec![0u8; 1000];
    assert_eq!(compressed_len(&zeros), reference_gzip_len(&zeros));
    assert!(compressed_len(&zeros) < 1000);
    let text = b"{\"name\":\"Test Person\",\"id\":12345}".to_vec();
    assert_eq!(compressed_len(&text), reference_gzip_len(&text));
    assert_eq!(compressed_len(&[]), reference_gzip_len(&[]));
    assert!(compressed_len(&[]) >= 18);
}

#[test]
fn payload_sizes_raw_and_compressed() {
    let tester = PerformanceTester::new(20, 1000);
    let json = vec![b'a'; 1000];
    let proto = vec![7u8; 600];
    let metric = tester.test_payload_size(&json, &proto);
    assert_eq!(metric.uncompressed.json, whole(1000));
    assert_eq!(metric.uncompressed.protobuf, whole(600));
    assert_eq!(metric.uncompressed.winner, Format::Protobuf);
    assert_eq!(metric.compressed.json, whole(reference_gzip_len(&json) as u64));
    assert_eq!(metric.compressed.protobuf, whole(reference_gzip_len(&proto) as u64));
    assert!(metric.compressed.json.amount < 1000);
    assert!(metric.compressed.protobuf.amount < 600);
    let again = tester.test_payload_size(&json, &proto);
    assert_eq!(metric, again);
    let metric = PayloadSizeMetric::from_sizes(10, 30, 20, 25);
    assert_eq!(metric.uncompressed.winner, Format::Json);
    assert_eq!(metric.compressed.winner, Format::Protobuf);
    assert_eq!(metric.compressed.difference, Ratio { numerator: 30, denominator: 25 });
}

#[test]
fn schema_evolution_compares_with_the_mean() {
    let tester = PerformanceTester::new(20, 10);
    let metric = tester.test_schema_evolution(EvolutionTiming {
        json_nanos: 100,
        backwards_nanos: 90,
        forwards_nanos: 111,
    });
    assert_eq!(metric.json, Measurement { amount: 100, per: 10 });
    assert_eq!(metric.protobuf_backwards, Measurement { amount: 90, per: 10 });
    assert_eq!(metric.protobuf_forwards, Measurement { amount: 111, per: 10 });
    assert_eq!(metric.protobuf_average, Measurement { amount: 201, per: 20 });
    assert_eq!(metric.winner, Format::Json);
    let metric = tester.test_schema_evolution(EvolutionTiming {
        json_nanos: 100,
        backwards_nanos: 90,
        forwards_nanos: 110,
    });
    assert_eq!(metric.winner, Format::Protobuf);
    let metric = tester.test_schema_evolution(EvolutionTiming {
        json_nanos: 101,
        backwards_nanos: 90,
        forwards_nanos: 111,
    });
    assert_eq!(metric.winner, Format::Protobuf);
}

#[test]
fn majority_of_seven_to_four() {
    let j = Format::Json;
    let p = Format::Protobuf;
    let results = results_with([j, p, j, j, p, j, p, j, j, p, j]);
    let verdict = results.overall_winner();
    assert_eq!(verdict, Verdict { winner: Format::Json, winner_count: 7, loser_count: 4 });
}

#[test]
fn majority_for_the_binary_format() {
    let j = Format::Json;
    let p = Format::Protobuf;
    let verdict = results_with([p, p, p, j, p, j, p, j, j, p, j]).overall_winner();
    assert_eq!(verdict, Verdict { winner: Format::Protobuf, winner_count: 6, loser_count: 5 });
    let verdict = results_with([p; 11]).overall_winner();
    assert_eq!(verdict, Verdict { winner: Format::Protobuf, winner_count: 11, loser_count: 0 });
    let verdict = results_with([j; 11]).overall_winner();
    assert_eq!(verdict, Verdict { winner: Format::Json, winner_count: 11, loser_count: 0 });
    assert_eq!(VOTES, 11);
}

#[test]
fn every_result_has_one_vote() {
    for k in 0..11 {
        let mut winners = [Format::Protobuf; 11];
        winners[k] = Format::Json;
        let verdict = results_with(winners).overall_winner();
        assert_eq!(verdict, Verdict { winner: Format::Protobuf, winner_count: 10, loser_count: 1 });
    }
}

#[test]
fn votes_are_counted_in_trial_order() {
    let j = Format::Json;
    let p = Format::Protobuf;
    let order = [j, p, p, j, p, p, p, j, p, p, j];
    let results = results_with(order);
    assert_eq!(results.winners(), order.to_vec());
    assert_eq!(count_votes(&results.winners()), 4);
    assert_eq!(count_votes(&Vec::new()), 0);
    assert_eq!(count_votes(&vec![j, j, p]), 2);
}

#[test]
fn tie_goes_to_the_binary_format() {
    assert_eq!(
        Verdict::decide(5, 5),
        Verdict { winner: Format::Protobuf, winner_count: 5, loser_count: 5 }
    );
    assert_eq!(
        Verdict::decide(6, 5),
        Verdict { winner: Format::Json, winner_count: 6, loser_count: 5 }
    );
}

#[test]
fn full_run_keeps_its_results() {
    let mut tester = PerformanceTester::new(20, 1000);
    assert_eq!(tester.overall_winner(), None);
    let observed = Observations {
        serialization: Timing { json_nanos: 50, protobuf_nanos: 20 },
        deserialization: Timing { json_nanos: 80, protobuf_nanos: 30 },
        json_payload: vec![b'x'; 2000],
        protobuf_payload: vec![b'y'; 900],
        cpu: Timing { json_nanos: 500, protobuf_nanos: 200 },
        memory: Timing { json_nanos: 50, protobuf_nanos: 60 },
        latency: Timing { json_nanos: 11_000_000, protobuf_nanos: 11_000_001 },
        throughput: ThroughputCount {
            json_operations: 10,
            json_nanos: 1_000_000_000,
            protobuf_operations: 30,
            protobuf_nanos: 1_000_000_000,
        },
        schema_evolution: EvolutionTiming { json_nanos: 9, backwards_nanos: 4, forwards_nanos: 6 },
    };
    assert!(tester.can_run(&observed));
    let results = tester.run_all_tests(&observed);
    assert_eq!(tester.results, Some(results));
    assert_eq!(tester.data_size, 20);
    assert_eq!(tester.iterations, 1000);
    assert_eq!(results.serialization.winner, Format::Protobuf);
    assert_eq!(results.deserialization.winner, Format::Protobuf);
    assert_eq!(results.payload_size.uncompressed.winner, Format::Protobuf);
    assert_eq!(results.payload_size.uncompressed.json, whole(2000));
    assert_eq!(results.cpu_usage.winner, Format::Protobuf);
    assert_eq!(results.memory_usage.winner, Format::Json);
    assert_eq!(results.network_transfer.winner, Format::Protobuf);
    assert_eq!(results.network_transfer.json.amount, 1_638_400 + 50_000);
    assert_eq!(results.latency_under_load.winner, Format::Json);
    assert_eq!(results.parser_init.winner, Format::Json);
    assert_eq!(results.throughput.winner, Format::Protobuf);
    assert_eq!(results.schema_evolution.winner, Format::Protobuf);
    assert_eq!(results.schema_evolution.protobuf_average, Measurement { amount: 10, per: 2000 });
    let verdict = tester.overall_winner().unwrap();
    assert_eq!(verdict.winner, Format::Protobuf);
    assert_eq!(verdict.winner_count + verdict.loser_count, 11);
    assert_eq!(verdict, results.overall_winner());
}

#[test]
fn full_run_refuses_what_cannot_be_counted() {
    let tester = PerformanceTester::new(20, 1000);
    let observed = Observations {
        serialization: Timing { json_nanos: 1, protobuf_nanos: 1 },
        deserialization: Timing { json_nanos: 1, protobuf_nanos: 1 },
        json_payload: Vec::new(),
        protobuf_payload: Vec::new(),
        cpu: Timing { json_nanos: 1, protobuf_nanos: 1 },
        memory: Timing { json_nanos: 1, protobuf_nanos: 1 },
        latency: Timing { json_nanos: 1, protobuf_nanos: 1 },
        throughput: ThroughputCount {
            json_operations: 1,
            json_nanos: 1,
            protobuf_operations: 1,
            protobuf_nanos: 1,
        },
        schema_evolution: EvolutionTiming {
            json_nanos: 1,
            backwards_nanos: u64::MAX,
            forwards_nanos: 1,
        },
    };
    assert!(!tester.can_run(&observed));
}

//! The rules that turn raw observations of the two formats into comparison
//! results, and the vote over all results.
//!
//! Every quantity is an exact ratio of two counts, so that each winner is
//! decided without rounding.

use vstd::prelude::*;
use crate::compress::{compressed_len, gzip_of};

verus! {

/// One of the two formats under comparison.
#[derive(Clone, Copy, Debug, PartialEq, Eq, Structural)]
pub enum Format {
    Json,
    Protobuf,
}

/// A measured quantity: `amount` divided by `per`, in the unit of the trial
/// that produced it. With `per` zero the quantity is undefined and is below
/// nothing.
#[derive(Clone, Copy, Debug, PartialEq, Eq, Structural)]
pub struct Measurement {
    pub amount: u64,
    pub per: u64,
}

/// The quotient of the text format's quantity by the binary format's; as a
/// percentage it is a hundred times that.
#[derive(Clone, Copy, Debug, PartialEq, Eq, Structural)]
pub struct Ratio {
    pub numerator: u128,
    pub denominator: u128,
}

/// The result of a trial in which the lower quantity wins.
#[derive(Clone, Copy, Debug, PartialEq, Eq, Structural)]
pub struct BenchmarkMetric {
    pub json: Measurement,
    pub protobuf: Measurement,
    pub difference: Ratio,
    pub winner: Format,
}

/// The result of the payload-size trial: raw and compressed sizes in bytes.
#[derive(Clone, Copy, Debug, PartialEq, Eq, Structural)]
pub struct PayloadSizeMetric {
    pub uncompressed: BenchmarkMetric,
    pub compressed: BenchmarkMetric,
}

/// The result of the throughput trial, in operations per nanosecond: the
/// higher quantity wins.
#[derive(Clone, Copy, Debug, PartialEq, Eq, Structural)]
pub struct ThroughputMetric {
    pub json: Measurement,
    pub protobuf: Measurement,
    pub difference: Ratio,
    pub winner: Format,
}

/// The result of the schema-evolution trial, in nanoseconds per operation:
/// the text format's cost against the mean of the binary format's two.
#[derive(Clone, Copy, Debug, PartialEq, Eq, Structural)]
pub struct SchemaEvolutionMetric {
    pub json: Measurement,
    pub protobuf_backwards: Measurement,
    pub protobuf_forwards: Measurement,
    pub protobuf_average: Measurement,
    pub winner: Format,
}

/// The results of all ten trials.
#[derive(Clone, Copy, Debug, PartialEq, Eq, Structural)]
pub struct BenchmarkResults {
    pub serialization: BenchmarkMetric,
    pub deserialization: BenchmarkMetric,
    pub payload_size: PayloadSizeMetric,
    pub cpu_usage: BenchmarkMetric,
    pub memory_usage: BenchmarkMetric,
    pub network_transfer: BenchmarkMetric,
    pub latency_under_load: BenchmarkMetric,
    pub parser_init: BenchmarkMetric,
    pub throughput: ThroughputMetric,
    pub schema_evolution: SchemaEvolutionMetric,
}

/// The outcome of the vote over all results.
#[derive(Clone, Copy, Debug, PartialEq, Eq, Structural)]
pub struct Verdict {
    pub winner: Format,
    pub winner_count: usize,
    pub loser_count: usize,
}

/// Elapsed times of one trial, in nanoseconds.
#[derive(Clone, Copy, Debug, PartialEq, Eq, Structural)]
pub struct Timing {
    pub json_nanos: u64,
    pub protobuf_nanos: u64,
}

/// Completed operations and elapsed nanoseconds of the throughput trial.
#[derive(Clone, Copy, Debug, PartialEq, Eq, Structural)]
pub struct ThroughputCount {
    pub json_operations: u64,
    pub json_nanos: u64,
    pub protobuf_operations: u64,
    pub protobuf_nanos: u64,
}

/// Elapsed nanoseconds of the three parts of the schema-evolution trial.
#[derive(Clone, Copy, Debug, PartialEq, Eq, Structural)]
pub struct EvolutionTiming {
    pub json_nanos: u64,
    pub backwards_nanos: u64,
    pub forwards_nanos: u64,
}

/// Everything that a full run observes, in the order of the trials.
#[derive(Debug)]
pub struct Observations {
    pub serialization: Timing,
    pub deserialization: Timing,
    pub json_payload: Vec<u8>,
    pub protobuf_payload: Vec<u8>,
    pub cpu: Timing,
    pub memory: Timing,
    pub latency: Timing,
    pub throughput: ThroughputCount,
    pub schema_evolution: EvolutionTiming,
}

/// Runs of one trial are configured by the fixture size and the number of
/// repetitions; the results of a full run are kept once it was made.
#[derive(Debug)]
pub struct PerformanceTester {
    pub results: Option<BenchmarkResults>,
    pub data_size: usize,
    pub iterations: usize,
}

/// Workers that run side by side in the latency trial, for each format.
pub const CONCURRENT_WORKERS: usize = 10;

/// Decode operations that each worker of the latency trial performs.
pub const OPERATIONS_PER_WORKER: usize = 10;

/// Pause of a worker of the latency trial after each operation, in
/// milliseconds.
pub const PAUSE_MILLIS: u64 = 1;

/// Length of the window of the throughput trial, in nanoseconds.
pub const THROUGHPUT_WINDOW_NANOS: u64 = 1_000_000_000;

/// Fixed delay of the simulated link, in milliseconds.
pub const NETWORK_LATENCY_MILLIS: u64 = 50;

/// Parts of a millisecond in which simulated transfer times are counted.
/// Sending one byte over the simulated link of ten megabits (ten times
/// 1024 times 1024 bits) per second takes 8 / 10485760 seconds, which is
/// 25 / 32768 of a millisecond.
pub const NETWORK_SCALE: u64 = 32768;

/// Parts (of `NETWORK_SCALE`) of a millisecond that one byte takes.
pub const NETWORK_PARTS_PER_BYTE: u64 = 25;

/// Votes of a full run: one for each result, two for the payload sizes.
pub const VOTES: usize = 11;

impl Measurement {
    /// Whether this quantity is strictly below `other`.
    pub open spec fn below(self, other: Measurement) -> bool {
        self.amount * other.per < other.amount * self.per
    }

    /// Decides whether this quantity is strictly below `other`.
    pub fn is_below(&self, other: &Measurement) -> (lower: bool)
        ensures
            lower == self.below(*other),
    {
        proof {
            product_fits(self.amount, other.per);
            product_fits(other.amount, self.per);
        }
        let left: u128 = (self.amount as u128) * (other.per as u128);
        let right: u128 = (other.amount as u128) * (self.per as u128);
        left < right
    }
}

/// The product of two 64-bit counts fits in 128 bits.
pub proof fn product_fits(a: u64, b: u64)
    ensures
        a * b <= u128::MAX,
{
    assert(a * b <= 0xFFFF_FFFF_FFFF_FFFF * 0xFFFF_FFFF_FFFF_FFFF) by (nonlinear_arith)
        requires
            0 <= a <= 0xFFFF_FFFF_FFFF_FFFF,
            0 <= b <= 0xFFFF_FFFF_FFFF_FFFF,
    ;
}

/// `total` spread over `iterations` operations.
pub open spec fn per_operation(total: u64, iterations: usize) -> Measurement {
    Measurement { amount: total, per: iterations as u64 }
}

/// `total` as it is.
pub open spec fn whole(total: u64) -> Measurement {
    Measurement { amount: total, per: 1 }
}

/// The quotient of `json` by `protobuf`.
pub open spec fn ratio_of(json: Measurement, protobuf: Measurement) -> Ratio {
    Ratio {
        numerator: (json.amount * protobuf.per) as u128,
        denominator: (protobuf.amount * json.per) as u128,
    }
}

/// The comparison in which the lower quantity wins; the binary format wins
/// where neither is lower.
pub open spec fn lower_wins(json: Measurement, protobuf: Measurement) -> BenchmarkMetric {
    BenchmarkMetric {
        json,
        protobuf,
        difference: ratio_of(json, protobuf),
        winner: if json.below(protobuf) {
            Format::Json
        } else {
            Format::Protobuf
        },
    }
}

/// The comparison in which the higher quantity wins; the binary format wins
/// where neither is higher.
pub open spec fn higher_wins(json: Measurement, protobuf: Measurement) -> ThroughputMetric {
    ThroughputMetric {
        json,
        protobuf,
        difference: ratio_of(json, protobuf),
        winner: if protobuf.below(json) {
            Format::Json
        } else {
            Format::Protobuf
        },
    }
}

/// The result of a trial that reports the mean time of one operation.
pub open spec fn speed_metric(iterations: usize, timing: Timing) -> BenchmarkMetric {
    lower_wins(
        per_operation(timing.json_nanos, iterations),
        per_operation(timing.protobuf_nanos, iterations),
    )
}

/// The result of a trial that reports a total.
pub open spec fn total_metric(json: u64, protobuf: u64) -> BenchmarkMetric {
    lower_wins(whole(json), whole(protobuf))
}

/// The result of the payload-size trial for the given sizes in bytes.
pub open spec fn payload_metric(
    json_size: usize,
    json_compressed: usize,
    protobuf_size: usize,
    protobuf_compressed: usize,
) -> PayloadSizeMetric {
    PayloadSizeMetric {
        uncompressed: total_metric(json_size as u64, protobuf_size as u64),
        compressed: total_metric(json_compressed as u64, protobuf_compressed as u64),
    }
}

/// Whether the simulated transfer time of `size` bytes can be counted in 64
/// bits.
pub open spec fn network_size_fits(size: usize) -> bool {
    NETWORK_LATENCY_MILLIS * NETWORK_SCALE + NETWORK_PARTS_PER_BYTE * size <= u64::MAX
}

/// The simulated transfer time of `size` bytes in milliseconds: the fixed
/// delay plus the time on the link.
pub open spec fn network_time(size: usize) -> Measurement {
    Measurement {
        amount: (NETWORK_LATENCY_MILLIS * NETWORK_SCALE + NETWORK_PARTS_PER_BYTE * size) as u64,
        per: NETWORK_SCALE,
    }
}

/// The result of the network trial for the given payload sizes.
pub open spec fn network_metric(json_size: usize, protobuf_size: usize) -> BenchmarkMetric {
    lower_wins(network_time(json_size), network_time(protobuf_size))
}

/// The result of the parser-initialization trial, in milliseconds: one
/// hundredth for the text format, five for the binary format.
pub open spec fn parser_metric() -> BenchmarkMetric {
    lower_wins(Measurement { amount: 1, per: 100 }, Measurement { amount: 5, per: 1 })
}

/// The result of the throughput trial for the given counts.
pub open spec fn throughput_metric(count: ThroughputCount) -> ThroughputMetric {
    higher_wins(
        Measurement { amount: count.json_operations, per: count.json_nanos },
        Measurement { amount: count.protobuf_operations, per: count.protobuf_nanos },
    )
}

/// Whether the mean of the two binary-format costs can be counted in 64
/// bits.
pub open spec fn evolution_fits(iterations: usize, timing: EvolutionTiming) -> bool {
    &&& timing.backwards_nanos + timing.forwards_nanos <= u64::MAX
    &&& 2 * iterations <= u64::MAX
}

/// The result of the schema-evolution trial: the mean of the backward and
/// the forward cost is their sum over twice the repetitions.
pub open spec fn evolution_metric(iterations: usize, timing: EvolutionTiming) -> SchemaEvolutionMetric {
    let json = per_operation(timing.json_nanos, iterations);
    let average = Measurement {
        amount: (timing.backwards_nanos + timing.forwards_nanos) as u64,
        per: (2 * iterations) as u64,
    };
    SchemaEvolutionMetric {
        json,
        protobuf_backwards: per_operation(timing.backwards_nanos, iterations),
        protobuf_forwards: per_operation(timing.forwards_nanos, iterations),
        protobuf_average: average,
        winner: if json.below(average) {
            Format::Json
        } else {
            Format::Protobuf
        },
    }
}

/// One if the text format is the winner, else zero.
pub open spec fn vote(winner: Format) -> nat {
    if winner == Format::Json {
        1
    } else {
        0
    }
}

/// The outcome of a vote: the text format wins with strictly more votes,
/// the binary format otherwise, a tie included.
pub open spec fn verdict_of(json_wins: usize, protobuf_wins: usize) -> Verdict {
    if json_wins > protobuf_wins {
        Verdict { winner: Format::Json, winner_count: json_wins, loser_count: protobuf_wins }
    } else {
        Verdict { winner: Format::Protobuf, winner_count: protobuf_wins, loser_count: json_wins }
    }
}

/// Whether a full run can count every quantity of `observed` in 64 bits.
pub open spec fn observations_fit(iterations: usize, observed: Observations) -> bool {
    &&& network_size_fits(observed.json_payload@.len() as usize)
    &&& network_size_fits(observed.protobuf_payload@.len() as usize)
    &&& evolution_fits(iterations, observed.schema_evolution)
}

/// The results of a full run with the given repetitions and observations.
pub open spec fn results_for(iterations: usize, observed: Observations) -> BenchmarkResults {
    let json_size = observed.json_payload@.len() as usize;
    let protobuf_size = observed.protobuf_payload@.len() as usize;
    BenchmarkResults {
        serialization: speed_metric(iterations, observed.serialization),
        deserialization: speed_metric(iterations, observed.deserialization),
        payload_size: payload_metric(
            json_size,
            gzip_of(observed.json_payload@).len() as usize,
            protobuf_size,
            gzip_of(observed.protobuf_payload@).len() as usize,
        ),
        cpu_usage: total_metric(observed.cpu.json_nanos, observed.cpu.protobuf_nanos),
        memory_usage: total_metric(observed.memory.json_nanos, observed.memory.protobuf_nanos),
        network_transfer: network_metric(json_size, protobuf_size),
        latency_under_load: total_metric(
            observed.latency.json_nanos,
            observed.latency.protobuf_nanos,
        ),
        parser_init: parser_metric(),
        throughput: throughput_metric(observed.throughput),
        schema_evolution: evolution_metric(iterations, observed.schema_evolution),
    }
}

/// Scaling both sides by the same positive count keeps their order.
pub proof fn scaled_order(a: int, b: int, n: int)
    requires
        n > 0,
    ensures
        (a * n < b * n) <==> (a < b),
{
    assert((a * n < b * n) <==> (a < b)) by (nonlinear_arith)
        requires
            n > 0,
    ;
}

/// In a trial that reports a total, the format with the lower total wins,
/// and the binary format where the totals are equal.
pub proof fn total_winner_has_lower_total(json: u64, protobuf: u64)
    ensures
        total_metric(json, protobuf).winner == (if json < protobuf {
            Format::Json
        } else {
            Format::Protobuf
        }),
{
    scaled_order(json as int, protobuf as int, 1);
}

/// In a trial that reports a mean, the format with the lower total time
/// wins if anything was repeated; with no repetition no mean is defined and
/// the binary format wins.
pub proof fn speed_winner_has_lower_total(iterations: usize, timing: Timing)
    ensures
        speed_metric(iterations, timing).winner == (if iterations > 0 && timing.json_nanos
            < timing.protobuf_nanos {
            Format::Json
        } else {
            Format::Protobuf
        }),
{
    if iterations > 0 {
        scaled_order(timing.json_nanos as int, timing.protobuf_nanos as int, iterations as int);
    } else {
        assert(timing.json_nanos * 0 == 0);
        assert(timing.protobuf_nanos * 0 == 0);
    }
}

/// In the network trial the smaller payload wins, and the binary format
/// where the payloads are equally long.
pub proof fn network_winner_has_smaller_payload(json_size: usize, protobuf_size: usize)
    requires
        network_size_fits(json_size),
        network_size_fits(protobuf_size),
    ensures
        network_metric(json_size, protobuf_size).winner == (if json_size < protobuf_size {
            Format::Json
        } else {
            Format::Protobuf
        }),
{
    scaled_order(
        network_time(json_size).amount as int,
        network_time(protobuf_size).amount as int,
        NETWORK_SCALE as int,
    );
}

/// In the schema-evolution trial the text format wins exactly when
/// something was repeated and twice its total time is below the sum of the
/// binary format's two total times.
pub proof fn evolution_winner_is_below_the_mean(iterations: usize, timing: EvolutionTiming)
    requires
        evolution_fits(iterations, timing),
    ensures
        evolution_metric(iterations, timing).winner == (if iterations > 0 && 2 * timing.json_nanos
            < timing.backwards_nanos + timing.forwards_nanos {
            Format::Json
        } else {
            Format::Protobuf
        }),
{
    let json = timing.json_nanos as int;
    let sum = timing.backwards_nanos + timing.forwards_nanos;
    let n = iterations as int;
    assert(json * (2 * n) == (2 * json) * n) by (nonlinear_arith);
    if iterations > 0 {
        scaled_order(2 * json, sum, n);
    } else {
        assert(sum * 0 == 0);
        assert(json * 0 == 0);
    }
}

/// In the throughput trial the text format wins exactly when its rate is
/// strictly higher: its operations times the other's time exceed the
/// other's operations times its own time.
pub proof fn throughput_winner_has_higher_rate(count: ThroughputCount)
    ensures
        throughput_metric(count).winner == (if count.json_operations * count.protobuf_nanos
            > count.protobuf_operations * count.json_nanos {
            Format::Json
        } else {
            Format::Protobuf
        }),
{
}

impl Format {
    /// The name under which the format is reported.
    pub fn name(&self) -> (name: &'static str)
        ensures
            name@ == (match *self {
                Format::Json => "JSON"@,
                Format::Protobuf => "Protobuf"@,
            }),
    {
        match self {
            Format::Json => "JSON",
            Format::Protobuf => "Protobuf",
        }
    }
}

impl BenchmarkMetric {
    /// Compares two quantities of which the lower is the better.
    pub fn lower_is_better(json: Measurement, protobuf: Measurement) -> (metric: BenchmarkMetric)
        ensures
            metric == lower_wins(json, protobuf),
    {
        proof {
            product_fits(json.amount, protobuf.per);
            product_fits(protobuf.amount, json.per);
        }
        let numerator: u128 = (json.amount as u128) * (protobuf.per as u128);
        let denominator: u128 = (protobuf.amount as u128) * (json.per as u128);
        let winner = if numerator < denominator {
            Format::Json
        } else {
            Format::Protobuf
        };
        BenchmarkMetric { json, protobuf, difference: Ratio { numerator, denominator }, winner }
    }
}

impl ThroughputMetric {
    /// Compares two quantities of which the higher is the better.
    pub fn higher_is_better(json: Measurement, protobuf: Measurement) -> (metric: ThroughputMetric)
        ensures
            metric == higher_wins(json, protobuf),
    {
        proof {
            product_fits(json.amount, protobuf.per);
            product_fits(protobuf.amount, json.per);
        }
        let numerator: u128 = (json.amount as u128) * (protobuf.per as u128);
        let denominator: u128 = (protobuf.amount as u128) * (json.per as u128);
        let winner = if denominator < numerator {
            Format::Json
        } else {
            Format::Protobuf
        };
        ThroughputMetric { json, protobuf, difference: Ratio { numerator, denominator }, winner }
    }
}

impl PayloadSizeMetric {
    /// The payload-size result for sizes that were already measured.
    pub fn from_sizes(
        json_size: usize,
        json_compressed: usize,
        protobuf_size: usize,
        protobuf_compressed: usize,
    ) -> (metric: PayloadSizeMetric)
        ensures
            metric == payload_metric(json_size, json_compressed, protobuf_size, protobuf_compressed),
    {
        PayloadSizeMetric {
            uncompressed: BenchmarkMetric::lower_is_better(
                Measurement { amount: json_size as u64, per: 1 },
                Measurement { amount: protobuf_size as u64, per: 1 },
            ),
            compressed: BenchmarkMetric::lower_is_better(
                Measurement { amount: json_compressed as u64, per: 1 },
                Measurement { amount: protobuf_compressed as u64, per: 1 },
            ),
        }
    }
}

impl Verdict {
    /// Decides a vote: the text format wins with strictly more votes than
    /// the binary format, which wins otherwise, also on a tie.
    pub fn decide(json_wins: usize, protobuf_wins: usize) -> (verdict: Verdict)
        ensures
            verdict == verdict_of(json_wins, protobuf_wins),
    {
        if json_wins > protobuf_wins {
            Verdict { winner: Format::Json, winner_count: json_wins, loser_count: protobuf_wins }
        } else {
            Verdict { winner: Format::Protobuf, winner_count: protobuf_wins, loser_count: json_wins }
        }
    }
}

/// The simulated time to transfer `size` bytes: fifty milliseconds of delay
/// plus the time that the bytes take on a link of ten megabits per second.
pub fn simulate_network(size: usize) -> (time: Measurement)
    requires
        network_size_fits(size),
    ensures
        time == network_time(size),
{
    let on_link: u64 = NETWORK_PARTS_PER_BYTE * (size as u64);
    Measurement { amount: NETWORK_LATENCY_MILLIS * NETWORK_SCALE + on_link, per: NETWORK_SCALE }
}

/// Tests whether `size` bytes are few enough for `simulate_network`.
pub fn network_size_in_range(size: usize) -> (fits: bool)
    ensures
        fits == network_size_fits(size),
{
    (size as u64) <= (u64::MAX - NETWORK_LATENCY_MILLIS * NETWORK_SCALE) / NETWORK_PARTS_PER_BYTE
}

/// Whether the throughput trial goes on after `elapsed_nanos`: it does while
/// less than its window has passed.
pub fn throughput_window_open(elapsed_nanos: u64) -> (open: bool)
    ensures
        open == (elapsed_nanos < THROUGHPUT_WINDOW_NANOS),
{
    elapsed_nanos < THROUGHPUT_WINDOW_NANOS
}

/// The number of votes for the text format among `winners`.
pub open spec fn votes_among(winners: Seq<Format>) -> nat
    decreases winners.len(),
{
    if winners.len() == 0 {
        0
    } else {
        votes_among(winners.drop_last()) + vote(winners.last())
    }
}

/// Counts the votes for the text format among `winners`.
pub fn count_votes(winners: &Vec<Format>) -> (count: usize)
    ensures
        count == votes_among(winners@),
        count <= winners@.len(),
{
    let mut count: usize = 0;
    let mut i: usize = 0;
    while i < winners.len()
        invariant
            i <= winners@.len(),
            count <= i,
            count == votes_among(winners@.take(i as int)),
        decreases winners@.len() - i,
    {
        proof {
            assert(winners@.take(i + 1).drop_last() =~= winners@.take(i as int));
        }
        if winners[i] == Format::Json {
            count = count + 1;
        }
        i = i + 1;
    }
    proof {
        assert(winners@.take(i as int) =~= winners@);
    }
    count
}

impl BenchmarkResults {
    /// The winners of all results in the order of the trials, the payload
    /// sizes as two.
    pub open spec fn winner_list(self) -> Seq<Format> {
        seq![
            self.serialization.winner,
            self.deserialization.winner,
            self.payload_size.uncompressed.winner,
            self.payload_size.compressed.winner,
            self.cpu_usage.winner,
            self.memory_usage.winner,
            self.network_transfer.winner,
            self.latency_under_load.winner,
            self.parser_init.winner,
            self.throughput.winner,
            self.schema_evolution.winner,
        ]
    }

    /// The number of results that the text format won, the two payload
    /// sizes counted one each.
    pub open spec fn json_votes(self) -> nat {
        votes_among(self.winner_list())
    }

    /// The winners of all results in the order of the trials, the payload
    /// sizes as two.
    pub fn winners(&self) -> (winners: Vec<Format>)
        ensures
            winners@ == self.winner_list(),
            winners@.len() == VOTES,
    {
        let mut winners: Vec<Format> = Vec::new();
        winners.push(self.serialization.winner);
        winners.push(self.deserialization.winner);
        winners.push(self.payload_size.uncompressed.winner);
        winners.push(self.payload_size.compressed.winner);
        winners.push(self.cpu_usage.winner);
        winners.push(self.memory_usage.winner);
        winners.push(self.network_transfer.winner);
        winners.push(self.latency_under_load.winner);
        winners.push(self.parser_init.winner);
        winners.push(self.throughput.winner);
        winners.push(self.schema_evolution.winner);
        proof {
            assert(winners@ =~= self.winner_list());
        }
        winners
    }

    /// The overall winner by majority: each result has one vote, the
    /// payload sizes one each, and the format with more votes wins.
    pub fn overall_winner(&self) -> (verdict: Verdict)
        ensures
            self.json_votes() <= VOTES,
            verdict == verdict_of(self.json_votes() as usize, (VOTES - self.json_votes()) as usize),
            verdict.winner_count + verdict.loser_count == VOTES,
            verdict.winner_count > verdict.loser_count,
    {
        let winners = self.winners();
        let json_wins = count_votes(&winners);
        Verdict::decide(json_wins, VOTES - json_wins)
    }
}

impl PerformanceTester {
    /// A tester for fixtures of `data_size` and `iterations` repetitions of
    /// each timed operation, with no results yet.
    pub fn new(data_size: usize, iterations: usize) -> (tester: PerformanceTester)
        ensures
            tester.results.is_none(),
            tester.data_size == data_size,
            tester.iterations == iterations,
    {
        PerformanceTester { results: None, data_size, iterations }
    }

    /// `total` nanoseconds spread over the repetitions of this tester.
    fn mean(&self, total: u64) -> (mean: Measurement)
        ensures
            mean == per_operation(total, self.iterations),
    {
        Measurement { amount: total, per: self.iterations as u64 }
    }

    /// The encode-speed result, in nanoseconds per operation, from the time
    /// that all repetitions took for each format.
    pub fn test_serialization_speed(&self, timing: Timing) -> (metric: BenchmarkMetric)
        ensures
            metric == speed_metric(self.iterations, timing),
    {
        BenchmarkMetric::lower_is_better(
            self.mean(timing.json_nanos),
            self.mean(timing.protobuf_nanos),
        )
    }

    /// The decode-speed result, in nanoseconds per operation, from the time
    /// that all repetitions took for each format.
    pub fn test_deserialization_speed(&self, timing: Timing) -> (metric: BenchmarkMetric)
        ensures
            metric == speed_metric(self.iterations, timing),
    {
        BenchmarkMetric::lower_is_better(
            self.mean(timing.json_nanos),
            self.mean(timing.protobuf_nanos),
        )
    }

    /// The payload-size result for one encoded record of each format: the
    /// lengths as they are and after compression.
    pub fn test_payload_size(&self, json_payload: &[u8], protobuf_payload: &[u8]) -> (metric:
        PayloadSizeMetric)
        ensures
            metric == payload_metric(
                json_payload@.len() as usize,
                gzip_of(json_payload@).len() as usize,
                protobuf_payload@.len() as usize,
                gzip_of(protobuf_payload@).len() as usize,
            ),
    {
        let json_compressed = compressed_len(json_payload);
        let protobuf_compressed = compressed_len(protobuf_payload);
        PayloadSizeMetric::from_sizes(
            json_payload.len(),
            json_compressed,
            protobuf_payload.len(),
            protobuf_compressed,
        )
    }

    /// The number of round trips of the processor trial: ten for each
    /// repetition, or nothing where that many cannot be counted.
    pub fn cpu_workload(&self) -> (workload: Option<usize>)
        ensures
            workload == (if self.iterations * 10 <= usize::MAX {
                Some((self.iterations * 10) as usize)
            } else {
                None
            }),
    {
        self.iterations.checked_mul(10)
    }

    /// The processor result, in nanoseconds, from the time that the whole
    /// workload took for each format.
    pub fn test_cpu_usage(&self, timing: Timing) -> (metric: BenchmarkMetric)
        ensures
            metric == total_metric(timing.json_nanos, timing.protobuf_nanos),
    {
        BenchmarkMetric::lower_is_better(
            Measurement { amount: timing.json_nanos, per: 1 },
            Measurement { amount: timing.protobuf_nanos, per: 1 },
        )
    }

    /// The memory result, in nanoseconds, from the time that building and
    /// collecting all decoded records took for each format.
    pub fn test_memory_usage(&self, timing: Timing) -> (metric: BenchmarkMetric)
        ensures
            metric == total_metric(timing.json_nanos, timing.protobuf_nanos),
    {
        BenchmarkMetric::lower_is_better(
            Measurement { amount: timing.json_nanos, per: 1 },
            Measurement { amount: timing.protobuf_nanos, per: 1 },
        )
    }

    /// The network result, in milliseconds, for one encoded record of each
    /// format of the given length.
    pub fn test_network_transfer(&self, json_size: usize, protobuf_size: usize) -> (metric:
        BenchmarkMetric)
        requires
            network_size_fits(json_size),
            network_size_fits(protobuf_size),
        ensures
            metric == network_metric(json_size, protobuf_size),
    {
        BenchmarkMetric::lower_is_better(simulate_network(json_size), simulate_network(protobuf_size))
    }

    /// The latency result, in nanoseconds, from the time until all workers
    /// of each format were done.
    pub fn test_latency_under_load(&self, timing: Timing) -> (metric: BenchmarkMetric)
        ensures
            metric == total_metric(timing.json_nanos, timing.protobuf_nanos),
    {
        BenchmarkMetric::lower_is_better(
            Measurement { amount: timing.json_nanos, per: 1 },
            Measurement { amount: timing.protobuf_nanos, per: 1 },
        )
    }

    /// The parser-initialization result: fixed illustrative costs, not
    /// measured ones.
    pub fn test_parser_initialization(&self) -> (metric: BenchmarkMetric)
        ensures
            metric == parser_metric(),
            metric.winner == Format::Json,
    {
        BenchmarkMetric::lower_is_better(
            Measurement { amount: 1, per: 100 },
            Measurement { amount: 5, per: 1 },
        )
    }

    /// The throughput result, in operations per nanosecond, from the
    /// operations that each format completed and the time it took.
    pub fn test_throughput(&self, count: ThroughputCount) -> (metric: ThroughputMetric)
        ensures
            metric == throughput_metric(count),
    {
        ThroughputMetric::higher_is_better(
            Measurement { amount: count.json_operations, per: count.json_nanos },
            Measurement { amount: count.protobuf_operations, per: count.protobuf_nanos },
        )
    }

    /// The schema-evolution result, in nanoseconds per operation, from the
    /// time that all repetitions of each part took.
    pub fn test_schema_evolution(&self, timing: EvolutionTiming) -> (metric: SchemaEvolutionMetric)
        requires
            evolution_fits(self.iterations, timing),
        ensures
            metric == evolution_metric(self.iterations, timing),
    {
        let json = self.mean(timing.json_nanos);
        let average = Measurement {
            amount: timing.backwards_nanos + timing.forwards_nanos,
            per: 2 * (self.iterations as u64),
        };
        let winner = if json.is_below(&average) {
            Format::Json
        } else {
            Format::Protobuf
        };
        SchemaEvolutionMetric {
            json,
            protobuf_backwards: self.mean(timing.backwards_nanos),
            protobuf_forwards: self.mean(timing.forwards_nanos),
            protobuf_average: average,
            winner,
        }
    }

    /// Tests whether a full run can take `observed`.
    pub fn can_run(&self, observed: &Observations) -> (fits: bool)
        ensures
            fits == observations_fit(self.iterations, *observed),
    {
        let timing = observed.schema_evolution;
        network_size_in_range(observed.json_payload.len()) && network_size_in_range(
            observed.protobuf_payload.len(),
        ) && timing.backwards_nanos <= u64::MAX - timing.forwards_nanos && (self.iterations as u64)
            <= u64::MAX / 2
    }

    /// Derives the results of all ten trials from `observed`, in the order
    /// of the trials, and keeps them.
    pub fn run_all_tests(&mut self, observed: &Observations) -> (results: BenchmarkResults)
        requires
            observations_fit(old(self).iterations, *observed),
        ensures
            results == results_for(old(self).iterations, *observed),
            final(self).results == Some(results),
            final(self).data_size == old(self).data_size,
            final(self).iterations == old(self).iterations,
    {
        let serialization = self.test_serialization_speed(observed.serialization);
        let deserialization = self.test_deserialization_speed(observed.deserialization);
        let payload_size = self.test_payload_size(
            observed.json_payload.as_slice(),
            observed.protobuf_payload.as_slice(),
        );
        let cpu_usage = self.test_cpu_usage(observed.cpu);
        let memory_usage = self.test_memory_usage(observed.memory);
        let network_transfer = self.test_network_transfer(
            observed.json_payload.len(),
            observed.protobuf_payload.len(),
        );
        let latency_under_load = self.test_latency_under_load(observed.latency);
        let parser_init = self.test_parser_initialization();
        let throughput = self.test_throughput(observed.throughput);
        let schema_evolution = self.test_schema_evolution(observed.schema_evolution);
        let results = BenchmarkResults {
            serialization,
            deserialization,
            payload_size,
            cpu_usage,
            memory_usage,
            network_transfer,
            latency_under_load,
            parser_init,
            throughput,
            schema_evolution,
        };
        self.results = Some(results);
        results
    }

    /// The overall winner of the results that are kept, if a full run was
    /// made.
    pub fn overall_winner(&self) -> (verdict: Option<Verdict>)
        ensures
            verdict == (match self.results {
                Some(results) => Some(
                    verdict_of(
                        results.json_votes() as usize,
                        (VOTES - results.json_votes()) as usize,
                    ),
                ),
                None => None,
            }),
    {
        match &self.results {
            Some(results) => Some(results.overall_winner()),
            None => None,
        }
    }
}

} // verus!

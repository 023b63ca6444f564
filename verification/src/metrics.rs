//! The metrics calculator: from a pair of raw counter snapshots to usage
//! figures. Percentages are kept as exact fractions; turning one into a
//! floating-point number is left to the caller.

use crate::sequences::{lemma_sum_by_reorder, sum_by};
use crate::text::{lowercase, same_text, to_lowercase};
use vstd::prelude::*;

verus! {

/// Traffic counters of one network interface.
#[derive(Clone, Debug, PartialEq, Eq)]
pub struct InterfaceCounters {
    pub name: String,
    pub rx_bytes: Option<u64>,
    pub tx_bytes: Option<u64>,
}

/// One block-I/O accounting entry, with the operation label as the runtime
/// reports it.
#[derive(Clone, Debug, PartialEq, Eq)]
pub struct BlockIoEntry {
    pub op: Option<String>,
    pub value: Option<u64>,
}

/// What a block-I/O entry counts.
#[derive(Clone, Copy, Debug, PartialEq, Eq, Structural)]
pub enum OperationKind {
    Read,
    Write,
    Other,
}

/// A point-in-time read of a container's cumulative resource counters.
/// Any counter may be absent.
#[derive(Clone, Debug, PartialEq, Eq)]
pub struct RawCounterSnapshot {
    pub cpu_total_usage: Option<u64>,
    pub system_cpu_usage: Option<u64>,
    pub online_cpu_count: Option<u32>,
    pub memory_usage: Option<u64>,
    pub memory_limit: Option<u64>,
    pub interfaces: Vec<InterfaceCounters>,
    pub block_io: Vec<BlockIoEntry>,
}

/// A percentage held as the exact fraction `numerator / denominator`.
#[derive(Clone, Copy, Debug, PartialEq, Eq, Structural)]
pub struct Percentage {
    pub numerator: u128,
    pub denominator: u64,
}

/// Usage figures computed from a pair of snapshots.
#[derive(Clone, Copy, Debug, PartialEq, Eq, Structural)]
pub struct ContainerStats {
    pub cpu_percentage: Percentage,
    pub memory_usage: u64,
    pub memory_limit: u64,
    pub memory_percentage: Percentage,
    pub network_rx: u64,
    pub network_tx: u64,
    pub block_read: u64,
    pub block_write: u64,
}

/// How a snapshot is asked for.
#[derive(Clone, Copy, Debug, PartialEq, Eq, Structural)]
pub struct SampleOptions {
    pub stream: bool,
    pub one_shot: bool,
}

/// An absent counter counts as zero.
pub open spec fn or_zero(counter: Option<u64>) -> nat {
    match counter {
        Some(v) => v as nat,
        None => 0,
    }
}

/// What an interface adds to the bytes received.
pub open spec fn rx_weight() -> spec_fn(InterfaceCounters) -> nat {
    |c: InterfaceCounters| or_zero(c.rx_bytes)
}

/// What an interface adds to the bytes sent.
pub open spec fn tx_weight() -> spec_fn(InterfaceCounters) -> nat {
    |c: InterfaceCounters| or_zero(c.tx_bytes)
}

/// Bytes received, summed over all interfaces.
pub open spec fn rx_total(interfaces: Seq<InterfaceCounters>) -> nat {
    sum_by(interfaces, rx_weight())
}

/// Bytes sent, summed over all interfaces.
pub open spec fn tx_total(interfaces: Seq<InterfaceCounters>) -> nat {
    sum_by(interfaces, tx_weight())
}

/// The kind that a lowercased operation label stands for.
pub open spec fn kind_of_lowered(lowered: Seq<char>) -> OperationKind {
    if lowered == "read"@ {
        OperationKind::Read
    } else if lowered == "write"@ {
        OperationKind::Write
    } else {
        OperationKind::Other
    }
}

/// The kind of an entry: its label is matched without regard to case, and an
/// entry without a label counts as `Other`.
pub open spec fn operation_kind(entry: BlockIoEntry) -> OperationKind {
    match entry.op {
        Some(label) => kind_of_lowered(lowercase(label@)),
        None => OperationKind::Other,
    }
}

/// What an entry adds to the bytes read.
pub open spec fn read_weight() -> spec_fn(BlockIoEntry) -> nat {
    |e: BlockIoEntry|
        if operation_kind(e) == OperationKind::Read {
            or_zero(e.value)
        } else {
            0
        }
}

/// What an entry adds to the bytes written.
pub open spec fn write_weight() -> spec_fn(BlockIoEntry) -> nat {
    |e: BlockIoEntry|
        if operation_kind(e) == OperationKind::Write {
            or_zero(e.value)
        } else {
            0
        }
}

/// Bytes read, summed over the entries of kind `Read`.
pub open spec fn block_read_total(entries: Seq<BlockIoEntry>) -> nat {
    sum_by(entries, read_weight())
}

/// Bytes written, summed over the entries of kind `Write`.
pub open spec fn block_write_total(entries: Seq<BlockIoEntry>) -> nat {
    sum_by(entries, write_weight())
}

impl Percentage {
    /// A fraction needs a denominator.
    pub open spec fn wf(self) -> bool {
        self.denominator > 0
    }

    /// Whether the percentage is exactly zero.
    pub open spec fn is_zero(self) -> bool {
        self.numerator == 0
    }
}

impl RawCounterSnapshot {
    /// The number of online CPUs, one when it is not reported.
    pub open spec fn online_cpus(self) -> nat {
        match self.online_cpu_count {
            Some(n) => n as nat,
            None => 1,
        }
    }

    /// The memory limit as reported, one when it is not reported.
    pub open spec fn reported_limit(self) -> nat {
        match self.memory_limit {
            Some(l) => l as nat,
            None => 1,
        }
    }

    /// The limit that memory usage is measured against: never below one.
    pub open spec fn effective_limit(self) -> nat {
        if self.reported_limit() == 0 {
            1
        } else {
            self.reported_limit()
        }
    }

    /// Whether each of the four totals fits the 64 bits it is reported in.
    pub open spec fn totals_fit(self) -> bool {
        &&& rx_total(self.interfaces@) <= u64::MAX
        &&& tx_total(self.interfaces@) <= u64::MAX
        &&& block_read_total(self.block_io@) <= u64::MAX
        &&& block_write_total(self.block_io@) <= u64::MAX
    }
}

/// Container CPU time spent between the two snapshots.
pub open spec fn cpu_delta(current: RawCounterSnapshot, previous: RawCounterSnapshot) -> int {
    or_zero(current.cpu_total_usage) - or_zero(previous.cpu_total_usage)
}

/// Host CPU time spent between the two snapshots.
pub open spec fn system_delta(current: RawCounterSnapshot, previous: RawCounterSnapshot) -> int {
    or_zero(current.system_cpu_usage) - or_zero(previous.system_cpu_usage)
}

/// Whether the pair of snapshots shows CPU usage at all: both deltas positive.
pub open spec fn cpu_active(current: RawCounterSnapshot, previous: RawCounterSnapshot) -> bool {
    system_delta(current, previous) > 0 && cpu_delta(current, previous) > 0
}

impl ContainerStats {
    /// Both percentages are fractions with a denominator.
    pub open spec fn wf(self) -> bool {
        self.cpu_percentage.wf() && self.memory_percentage.wf()
    }

    /// Whether these are the figures of the given pair of snapshots.
    ///
    /// CPU: `cpu_delta / system_delta * online_cpus * 100` when both deltas
    /// are positive, zero otherwise. Memory: `usage / limit * 100` with the
    /// limit never below one. Network and block I/O: sums over all entries.
    pub open spec fn describes(
        self,
        current: RawCounterSnapshot,
        previous: RawCounterSnapshot,
    ) -> bool {
        &&& cpu_active(current, previous) ==> {
            &&& self.cpu_percentage.numerator == cpu_delta(current, previous)
                * current.online_cpus() * 100
            &&& self.cpu_percentage.denominator == system_delta(current, previous)
        }
        &&& !cpu_active(current, previous) ==> {
            &&& self.cpu_percentage.numerator == 0
            &&& self.cpu_percentage.denominator == 1
        }
        &&& self.memory_usage == or_zero(current.memory_usage)
        &&& self.memory_limit == current.reported_limit()
        &&& self.memory_percentage.numerator == or_zero(current.memory_usage) * 100
        &&& self.memory_percentage.denominator == current.effective_limit()
        &&& self.network_rx == rx_total(current.interfaces@)
        &&& self.network_tx == tx_total(current.interfaces@)
        &&& self.block_read == block_read_total(current.block_io@)
        &&& self.block_write == block_write_total(current.block_io@)
    }
}

/// The options every snapshot is asked for with: one sample, not a stream
/// of them.
pub fn sample_options() -> (options: SampleOptions)
    ensures
        options == (SampleOptions { stream: false, one_shot: true }),
{
    SampleOptions { stream: false, one_shot: true }
}

/// The kind that a lowercased operation label stands for.
pub fn classify_lowered(lowered: &str) -> (kind: OperationKind)
    ensures
        kind == kind_of_lowered(lowered@),
{
    if same_text(lowered, "read") {
        OperationKind::Read
    } else if same_text(lowered, "write") {
        OperationKind::Write
    } else {
        OperationKind::Other
    }
}

/// The kind of a block-I/O entry.
pub fn classify(entry: &BlockIoEntry) -> (kind: OperationKind)
    ensures
        kind == operation_kind(*entry),
{
    match &entry.op {
        Some(label) => {
            let lowered = to_lowercase(label.as_str());
            classify_lowered(lowered.as_str())
        },
        None => OperationKind::Other,
    }
}

fn counter(value: Option<u64>) -> (v: u64)
    ensures
        v == or_zero(value),
{
    match value {
        Some(v) => v,
        None => 0,
    }
}

/// Bytes received and bytes sent, each summed over all interfaces.
pub fn network_totals(interfaces: &Vec<InterfaceCounters>) -> (totals: (u128, u128))
    ensures
        totals.0 == rx_total(interfaces@),
        totals.1 == tx_total(interfaces@),
{
    let mut rx: u128 = 0;
    let mut tx: u128 = 0;
    let mut i: usize = 0;
    while i < interfaces.len()
        invariant
            i <= interfaces.len(),
            rx == rx_total(interfaces@.take(i as int)),
            tx == tx_total(interfaces@.take(i as int)),
            rx <= i * 0xffff_ffff_ffff_ffff,
            tx <= i * 0xffff_ffff_ffff_ffff,
        decreases interfaces.len() - i,
    {
        proof {
            let next = interfaces@.take(i as int + 1);
            assert(next.drop_last() == interfaces@.take(i as int));
            assert(next.last() == interfaces@[i as int]);
        }
        rx = rx + counter(interfaces[i].rx_bytes) as u128;
        tx = tx + counter(interfaces[i].tx_bytes) as u128;
        i = i + 1;
    }
    proof {
        assert(interfaces@.take(i as int) == interfaces@);
    }
    (rx, tx)
}

/// Bytes read and bytes written, each summed over the entries of its kind.
pub fn block_totals(entries: &Vec<BlockIoEntry>) -> (totals: (u128, u128))
    ensures
        totals.0 == block_read_total(entries@),
        totals.1 == block_write_total(entries@),
{
    let mut read: u128 = 0;
    let mut write: u128 = 0;
    let mut i: usize = 0;
    while i < entries.len()
        invariant
            i <= entries.len(),
            read == block_read_total(entries@.take(i as int)),
            write == block_write_total(entries@.take(i as int)),
            read <= i * 0xffff_ffff_ffff_ffff,
            write <= i * 0xffff_ffff_ffff_ffff,
        decreases entries.len() - i,
    {
        proof {
            let next = entries@.take(i as int + 1);
            assert(next.drop_last() == entries@.take(i as int));
            assert(next.last() == entries@[i as int]);
        }
        match classify(&entries[i]) {
            OperationKind::Read => {
                read = read + counter(entries[i].value) as u128;
            },
            OperationKind::Write => {
                write = write + counter(entries[i].value) as u128;
            },
            OperationKind::Other => {},
        }
        i = i + 1;
    }
    proof {
        assert(entries@.take(i as int) == entries@);
    }
    (read, write)
}

/// CPU usage as a percentage of one CPU: zero unless both deltas are
/// positive.
pub fn cpu_percentage(current: &RawCounterSnapshot, previous: &RawCounterSnapshot) -> (p:
    Percentage)
    ensures
        p.wf(),
        cpu_active(*current, *previous) ==> p.numerator == cpu_delta(*current, *previous)
            * current.online_cpus() * 100 && p.denominator == system_delta(*current, *previous),
        !cpu_active(*current, *previous) ==> p.numerator == 0 && p.denominator == 1,
{
    let cpu_now = counter(current.cpu_total_usage);
    let cpu_before = counter(previous.cpu_total_usage);
    let system_now = counter(current.system_cpu_usage);
    let system_before = counter(previous.system_cpu_usage);
    if system_now > system_before && cpu_now > cpu_before {
        let cpus: u32 = match current.online_cpu_count {
            Some(n) => n,
            None => 1,
        };
        let delta: u64 = cpu_now - cpu_before;
        assert(delta * cpus * 100 <= 0xffff_ffff_ffff_ffff * 0xffff_ffff * 100) by (nonlinear_arith)
            requires
                0 <= delta <= 0xffff_ffff_ffff_ffff,
                0 <= cpus <= 0xffff_ffff,
        ;
        let scaled: u128 = delta as u128 * cpus as u128;
        Percentage { numerator: scaled * 100, denominator: system_now - system_before }
    } else {
        Percentage { numerator: 0, denominator: 1 }
    }
}

/// Memory usage as a percentage of the limit, the limit taken as one where
/// it is reported as zero or not at all.
pub fn memory_percentage(current: &RawCounterSnapshot) -> (p: Percentage)
    ensures
        p.wf(),
        p.numerator == or_zero(current.memory_usage) * 100,
        p.denominator == current.effective_limit(),
{
    let usage = counter(current.memory_usage);
    let limit: u64 = match current.memory_limit {
        Some(l) => if l == 0 {
            1
        } else {
            l
        },
        None => 1,
    };
    Percentage { numerator: usage as u128 * 100, denominator: limit }
}

/// Whether each of the four totals fits the 64 bits it is reported in.
pub fn has_fitting_totals(current: &RawCounterSnapshot) -> (fit: bool)
    ensures
        fit == current.totals_fit(),
{
    let network = network_totals(&current.interfaces);
    let block = block_totals(&current.block_io);
    let max: u128 = 0xffff_ffff_ffff_ffff;
    network.0 <= max && network.1 <= max && block.0 <= max && block.1 <= max
}

/// The usage figures of a pair of snapshots.
pub fn compute(current: &RawCounterSnapshot, previous: &RawCounterSnapshot) -> (m: ContainerStats)
    requires
        current.totals_fit(),
    ensures
        m.wf(),
        m.describes(*current, *previous),
{
    let network = network_totals(&current.interfaces);
    let block = block_totals(&current.block_io);
    ContainerStats {
        cpu_percentage: cpu_percentage(current, previous),
        memory_usage: counter(current.memory_usage),
        memory_limit: match current.memory_limit {
            Some(l) => l,
            None => 1,
        },
        memory_percentage: memory_percentage(current),
        network_rx: network.0 as u64,
        network_tx: network.1 as u64,
        block_read: block.0 as u64,
        block_write: block.1 as u64,
    }
}

/// The usage figures of a pair of snapshots, or `None` when one of the four
/// totals does not fit the 64 bits it is reported in.
pub fn compute_checked(current: &RawCounterSnapshot, previous: &RawCounterSnapshot) -> (r: Option<
    ContainerStats,
>)
    ensures
        r is Some <==> current.totals_fit(),
        r matches Some(m) ==> m.wf() && m.describes(*current, *previous),
{
    if has_fitting_totals(current) {
        Some(compute(current, previous))
    } else {
        None
    }
}

/// The network totals do not depend on the order in which the interfaces
/// are listed.
pub proof fn lemma_network_totals_reorder(a: Seq<InterfaceCounters>, b: Seq<InterfaceCounters>)
    requires
        a.to_multiset() == b.to_multiset(),
    ensures
        rx_total(a) == rx_total(b),
        tx_total(a) == tx_total(b),
{
    lemma_sum_by_reorder(a, b, rx_weight());
    lemma_sum_by_reorder(a, b, tx_weight());
}

/// The block-I/O totals do not depend on the order in which the entries are
/// listed.
pub proof fn lemma_block_totals_reorder(a: Seq<BlockIoEntry>, b: Seq<BlockIoEntry>)
    requires
        a.to_multiset() == b.to_multiset(),
    ensures
        block_read_total(a) == block_read_total(b),
        block_write_total(a) == block_write_total(b),
{
    lemma_sum_by_reorder(a, b, read_weight());
    lemma_sum_by_reorder(a, b, write_weight());
}

/// Without entries every total is zero.
pub proof fn lemma_totals_of_nothing()
    ensures
        rx_total(Seq::empty()) == 0,
        tx_total(Seq::empty()) == 0,
        block_read_total(Seq::empty()) == 0,
        block_write_total(Seq::empty()) == 0,
{
}

/// Figures that describe one snapshot describe every snapshot that differs
/// from it only in the order of its interface and block-I/O entries.
pub proof fn lemma_stats_ignore_order(
    m: ContainerStats,
    a: RawCounterSnapshot,
    b: RawCounterSnapshot,
    previous: RawCounterSnapshot,
)
    requires
        m.describes(a, previous),
        a.cpu_total_usage == b.cpu_total_usage,
        a.system_cpu_usage == b.system_cpu_usage,
        a.online_cpu_count == b.online_cpu_count,
        a.memory_usage == b.memory_usage,
        a.memory_limit == b.memory_limit,
        a.interfaces@.to_multiset() == b.interfaces@.to_multiset(),
        a.block_io@.to_multiset() == b.block_io@.to_multiset(),
    ensures
        m.describes(b, previous),
{
    lemma_network_totals_reorder(a.interfaces@, b.interfaces@);
    lemma_block_totals_reorder(a.block_io@, b.block_io@);
}

/// Where either delta is zero or negative, the CPU percentage is exactly
/// zero; where both are positive it is not negative.
pub proof fn lemma_cpu_percentage_sign(
    m: ContainerStats,
    current: RawCounterSnapshot,
    previous: RawCounterSnapshot,
)
    requires
        m.describes(current, previous),
    ensures
        system_delta(current, previous) <= 0 || cpu_delta(current, previous) <= 0
            ==> m.cpu_percentage.is_zero(),
        m.cpu_percentage.wf(),
{
}

} // verus!

//! The resource kinds that rctl accounts for, and how each one is exported.
use vstd::prelude::*;

verus! {

/// One resource type of the accounting facility.
#[derive(Clone, Copy, Debug, PartialEq, Eq, Structural)]
pub enum ResourceKind {
    CoreDumpSize,
    CpuTime,
    DataSize,
    MaxProcesses,
    MemoryLocked,
    MemoryUse,
    MsgqQueued,
    MsgqSize,
    NMsgq,
    Nsem,
    NSemop,
    NShm,
    NThreads,
    OpenFiles,
    PercentCpu,
    PseudoTerminals,
    ShmSize,
    StackSize,
    SwapUse,
    VMemoryUse,
    Wallclock,
    ReadBps,
    WriteBps,
    ReadIops,
    WriteIops,
}

/// How samples of a kind reach the series: a gauge family or a counter
/// family (each by its slot), or not at all.
#[derive(Clone, Copy, Debug, PartialEq, Eq, Structural)]
pub enum SeriesClass {
    Gauge(usize),
    Counter(usize),
    Ignored,
}

/// Number of gauge families that resource kinds map to.
pub const RESOURCE_GAUGES: usize = 19;

/// Number of counter families that resource kinds map to.
pub const RESOURCE_COUNTERS: usize = 2;

/// One (resource kind, raw value) pair read for one jail.
#[derive(Clone, Copy, Debug, PartialEq, Eq, Structural)]
pub struct Sample {
    pub kind: ResourceKind,
    pub value: u64,
}

impl ResourceKind {
    /// The classification of each kind, with the slot of its family.
    pub open spec fn class_spec(self) -> SeriesClass {
        match self {
            ResourceKind::CoreDumpSize => SeriesClass::Gauge(0),
            ResourceKind::DataSize => SeriesClass::Gauge(1),
            ResourceKind::MemoryLocked => SeriesClass::Gauge(2),
            ResourceKind::MemoryUse => SeriesClass::Gauge(3),
            ResourceKind::MsgqSize => SeriesClass::Gauge(4),
            ResourceKind::ShmSize => SeriesClass::Gauge(5),
            ResourceKind::StackSize => SeriesClass::Gauge(6),
            ResourceKind::SwapUse => SeriesClass::Gauge(7),
            ResourceKind::VMemoryUse => SeriesClass::Gauge(8),
            ResourceKind::PercentCpu => SeriesClass::Gauge(9),
            ResourceKind::MaxProcesses => SeriesClass::Gauge(10),
            ResourceKind::MsgqQueued => SeriesClass::Gauge(11),
            ResourceKind::NMsgq => SeriesClass::Gauge(12),
            ResourceKind::Nsem => SeriesClass::Gauge(13),
            ResourceKind::NSemop => SeriesClass::Gauge(14),
            ResourceKind::NShm => SeriesClass::Gauge(15),
            ResourceKind::NThreads => SeriesClass::Gauge(16),
            ResourceKind::OpenFiles => SeriesClass::Gauge(17),
            ResourceKind::PseudoTerminals => SeriesClass::Gauge(18),
            ResourceKind::CpuTime => SeriesClass::Counter(0),
            ResourceKind::Wallclock => SeriesClass::Counter(1),
            ResourceKind::ReadBps => SeriesClass::Ignored,
            ResourceKind::WriteBps => SeriesClass::Ignored,
            ResourceKind::ReadIops => SeriesClass::Ignored,
            ResourceKind::WriteIops => SeriesClass::Ignored,
        }
    }

    /// Classifies the kind: which family its samples update, if any.
    pub fn class(&self) -> (r: SeriesClass)
        ensures
            r == self.class_spec(),
    {
        match self {
            ResourceKind::CoreDumpSize => SeriesClass::Gauge(0),
            ResourceKind::DataSize => SeriesClass::Gauge(1),
            ResourceKind::MemoryLocked => SeriesClass::Gauge(2),
            ResourceKind::MemoryUse => SeriesClass::Gauge(3),
            ResourceKind::MsgqSize => SeriesClass::Gauge(4),
            ResourceKind::ShmSize => SeriesClass::Gauge(5),
            ResourceKind::StackSize => SeriesClass::Gauge(6),
            ResourceKind::SwapUse => SeriesClass::Gauge(7),
            ResourceKind::VMemoryUse => SeriesClass::Gauge(8),
            ResourceKind::PercentCpu => SeriesClass::Gauge(9),
            ResourceKind::MaxProcesses => SeriesClass::Gauge(10),
            ResourceKind::MsgqQueued => SeriesClass::Gauge(11),
            ResourceKind::NMsgq => SeriesClass::Gauge(12),
            ResourceKind::Nsem => SeriesClass::Gauge(13),
            ResourceKind::NSemop => SeriesClass::Gauge(14),
            ResourceKind::NShm => SeriesClass::Gauge(15),
            ResourceKind::NThreads => SeriesClass::Gauge(16),
            ResourceKind::OpenFiles => SeriesClass::Gauge(17),
            ResourceKind::PseudoTerminals => SeriesClass::Gauge(18),
            ResourceKind::CpuTime => SeriesClass::Counter(0),
            ResourceKind::Wallclock => SeriesClass::Counter(1),
            ResourceKind::ReadBps => SeriesClass::Ignored,
            ResourceKind::WriteBps => SeriesClass::Ignored,
            ResourceKind::ReadIops => SeriesClass::Ignored,
            ResourceKind::WriteIops => SeriesClass::Ignored,
        }
    }
}

} // verus!

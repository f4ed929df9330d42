//! The vendor-independent snapshot record and the conversions that fill it.

use vstd::prelude::*;

verus! {

/// Generic performance-state code shared by every vendor adapter: sixteen
/// numbered tiers from `P0` (highest performance) down to `P15` (lowest
/// performance), plus an `Unknown` sentinel for a driver that cannot report
/// a tier.
#[derive(Clone, Copy, Debug, PartialEq, Eq, Structural)]
pub enum PState {
    P0,
    P1,
    P2,
    P3,
    P4,
    P5,
    P6,
    P7,
    P8,
    P9,
    P10,
    P11,
    P12,
    P13,
    P14,
    P15,
    Unknown,
}

impl PState {
    /// Ordinal position of this code: `P0` through `P15` are 0 through 15,
    /// `Unknown` is 16.
    pub open spec fn ordinal(self) -> int {
        match self {
            PState::P0 => 0,
            PState::P1 => 1,
            PState::P2 => 2,
            PState::P3 => 3,
            PState::P4 => 4,
            PState::P5 => 5,
            PState::P6 => 6,
            PState::P7 => 7,
            PState::P8 => 8,
            PState::P9 => 9,
            PState::P10 => 10,
            PState::P11 => 11,
            PState::P12 => 12,
            PState::P13 => 13,
            PState::P14 => 14,
            PState::P15 => 15,
            PState::Unknown => 16,
        }
    }
}

/// The vendor driver's own performance-state report, modelled as a plain
/// enum: level `Zero` is the highest-performance tier, `Fifteen` the lowest,
/// and `Unknown` the sentinel the driver uses when no tier applies.
#[derive(Clone, Copy, Debug, PartialEq, Eq, Structural)]
pub enum PerformanceState {
    Zero,
    One,
    Two,
    Three,
    Four,
    Five,
    Six,
    Seven,
    Eight,
    Nine,
    Ten,
    Eleven,
    Twelve,
    Thirteen,
    Fourteen,
    Fifteen,
    Unknown,
}

impl PerformanceState {
    /// Ordinal position of this level: `Zero` through `Fifteen` are 0
    /// through 15, `Unknown` is 16.
    pub open spec fn ordinal(self) -> int {
        match self {
            PerformanceState::Zero => 0,
            PerformanceState::One => 1,
            PerformanceState::Two => 2,
            PerformanceState::Three => 3,
            PerformanceState::Four => 4,
            PerformanceState::Five => 5,
            PerformanceState::Six => 6,
            PerformanceState::Seven => 7,
            PerformanceState::Eight => 8,
            PerformanceState::Nine => 9,
            PerformanceState::Ten => 10,
            PerformanceState::Eleven => 11,
            PerformanceState::Twelve => 12,
            PerformanceState::Thirteen => 13,
            PerformanceState::Fourteen => 14,
            PerformanceState::Fifteen => 15,
            PerformanceState::Unknown => 16,
        }
    }

    /// The level whose numeric code the driver reports: codes 0 through 15
    /// name the sixteen tiers; every other code (the driver uses 32 for its
    /// sentinel) decodes to `Unknown`.
    pub open spec fn spec_from_code(code: u32) -> PerformanceState {
        if code == 0 {
            PerformanceState::Zero
        } else if code == 1 {
            PerformanceState::One
        } else if code == 2 {
            PerformanceState::Two
        } else if code == 3 {
            PerformanceState::Three
        } else if code == 4 {
            PerformanceState::Four
        } else if code == 5 {
            PerformanceState::Five
        } else if code == 6 {
            PerformanceState::Six
        } else if code == 7 {
            PerformanceState::Seven
        } else if code == 8 {
            PerformanceState::Eight
        } else if code == 9 {
            PerformanceState::Nine
        } else if code == 10 {
            PerformanceState::Ten
        } else if code == 11 {
            PerformanceState::Eleven
        } else if code == 12 {
            PerformanceState::Twelve
        } else if code == 13 {
            PerformanceState::Thirteen
        } else if code == 14 {
            PerformanceState::Fourteen
        } else if code == 15 {
            PerformanceState::Fifteen
        } else {
            PerformanceState::Unknown
        }
    }

    /// Decode the driver's numeric performance-state code.
    pub fn from_code(code: u32) -> (r: PerformanceState)
        ensures
            r == PerformanceState::spec_from_code(code),
    {
        match code {
            0u32 => PerformanceState::Zero,
            1u32 => PerformanceState::One,
            2u32 => PerformanceState::Two,
            3u32 => PerformanceState::Three,
            4u32 => PerformanceState::Four,
            5u32 => PerformanceState::Five,
            6u32 => PerformanceState::Six,
            7u32 => PerformanceState::Seven,
            8u32 => PerformanceState::Eight,
            9u32 => PerformanceState::Nine,
            10u32 => PerformanceState::Ten,
            11u32 => PerformanceState::Eleven,
            12u32 => PerformanceState::Twelve,
            13u32 => PerformanceState::Thirteen,
            14u32 => PerformanceState::Fourteen,
            15u32 => PerformanceState::Fifteen,
            _ => PerformanceState::Unknown,
        }
    }
}

/// The generic code a vendor performance-state level maps to: level `i`
/// maps to `P<i>`, the vendor `Unknown` sentinel to the generic `Unknown`.
pub open spec fn pstate_of(v: PerformanceState) -> PState {
    match v {
        PerformanceState::Zero => PState::P0,
        PerformanceState::One => PState::P1,
        PerformanceState::Two => PState::P2,
        PerformanceState::Three => PState::P3,
        PerformanceState::Four => PState::P4,
        PerformanceState::Five => PState::P5,
        PerformanceState::Six => PState::P6,
        PerformanceState::Seven => PState::P7,
        PerformanceState::Eight => PState::P8,
        PerformanceState::Nine => PState::P9,
        PerformanceState::Ten => PState::P10,
        PerformanceState::Eleven => PState::P11,
        PerformanceState::Twelve => PState::P12,
        PerformanceState::Thirteen => PState::P13,
        PerformanceState::Fourteen => PState::P14,
        PerformanceState::Fifteen => PState::P15,
        PerformanceState::Unknown => PState::Unknown,
    }
}

impl From<PerformanceState> for PState {
    fn from(value: PerformanceState) -> (r: PState) {
        match value {
            PerformanceState::Zero => PState::P0,
            PerformanceState::One => PState::P1,
            PerformanceState::Two => PState::P2,
            PerformanceState::Three => PState::P3,
            PerformanceState::Four => PState::P4,
            PerformanceState::Five => PState::P5,
            PerformanceState::Six => PState::P6,
            PerformanceState::Seven => PState::P7,
            PerformanceState::Eight => PState::P8,
            PerformanceState::Nine => PState::P9,
            PerformanceState::Ten => PState::P10,
            PerformanceState::Eleven => PState::P11,
            PerformanceState::Twelve => PState::P12,
            PerformanceState::Thirteen => PState::P13,
            PerformanceState::Fourteen => PState::P14,
            PerformanceState::Fifteen => PState::P15,
            PerformanceState::Unknown => PState::Unknown,
        }
    }
}

impl vstd::std_specs::convert::FromSpecImpl<PerformanceState> for PState {
    open spec fn obeys_from_spec() -> bool {
        true
    }

    open spec fn from_spec(v: PerformanceState) -> PState {
        pstate_of(v)
    }
}

/// The performance-state mapping keeps the ordinal position: vendor level
/// `i` maps to the generic code at position `i`, and the vendor sentinel to
/// the generic sentinel at position 16.
pub proof fn lemma_pstate_map_preserves_ordinal(v: PerformanceState)
    ensures
        pstate_of(v).ordinal() == v.ordinal(),
{
}

/// The performance-state mapping is injective: distinct vendor levels map
/// to distinct generic codes.
pub proof fn lemma_pstate_map_injective(a: PerformanceState, b: PerformanceState)
    requires
        pstate_of(a) == pstate_of(b),
    ensures
        a == b,
{
}

/// The performance-state mapping is surjective: every generic code is the
/// image of some vendor level, so the mapping is a bijection between the
/// two seventeen-element domains.
pub proof fn lemma_pstate_map_surjective(p: PState)
    ensures
        exists|v: PerformanceState| pstate_of(v) == p,
{
    if p == PState::Unknown {
        assert(pstate_of(PerformanceState::Unknown) == p);
    } else if p == PState::P0 {
        assert(pstate_of(PerformanceState::Zero) == p);
    } else if p == PState::P1 {
        assert(pstate_of(PerformanceState::One) == p);
    } else if p == PState::P2 {
        assert(pstate_of(PerformanceState::Two) == p);
    } else if p == PState::P3 {
        assert(pstate_of(PerformanceState::Three) == p);
    } else if p == PState::P4 {
        assert(pstate_of(PerformanceState::Four) == p);
    } else if p == PState::P5 {
        assert(pstate_of(PerformanceState::Five) == p);
    } else if p == PState::P6 {
        assert(pstate_of(PerformanceState::Six) == p);
    } else if p == PState::P7 {
        assert(pstate_of(PerformanceState::Seven) == p);
    } else if p == PState::P8 {
        assert(pstate_of(PerformanceState::Eight) == p);
    } else if p == PState::P9 {
        assert(pstate_of(PerformanceState::Nine) == p);
    } else if p == PState::P10 {
        assert(pstate_of(PerformanceState::Ten) == p);
    } else if p == PState::P11 {
        assert(pstate_of(PerformanceState::Eleven) == p);
    } else if p == PState::P12 {
        assert(pstate_of(PerformanceState::Twelve) == p);
    } else if p == PState::P13 {
        assert(pstate_of(PerformanceState::Thirteen) == p);
    } else if p == PState::P14 {
        assert(pstate_of(PerformanceState::Fourteen) == p);
    } else {
        assert(pstate_of(PerformanceState::Fifteen) == p);
    }
}

/// Only the vendor `Unknown` sentinel maps to the generic `Unknown`
/// sentinel; no numbered level does.
pub proof fn lemma_pstate_map_unknown(v: PerformanceState)
    ensures
        pstate_of(v) == PState::Unknown <==> v == PerformanceState::Unknown,
{
}

/// One reading of the device's combined utilization counters, both
/// components in percent.
#[derive(Clone, Copy, Debug, PartialEq, Eq)]
pub struct UtilizationSample {
    /// Percent of time one or more kernels was executing.
    pub gpu: u32,
    /// Percent of time device memory was being read or written.
    pub memory: u32,
}

/// One reading of the device's combined memory counters, both in bytes.
#[derive(Clone, Copy, Debug, PartialEq, Eq)]
pub struct MemorySample {
    /// Allocated device memory, in bytes.
    pub used: u64,
    /// Total installed device memory, in bytes.
    pub total: u64,
}

/// The raw results of the eleven read-only device queries that back one
/// snapshot. Each field is `None` exactly when its query failed; the two
/// combined queries each back two snapshot fields at once.
#[derive(Clone, Copy, Debug, PartialEq, Eq)]
pub struct RawSample {
    /// Combined utilization rates (backs `gpu_util` and `mem_util`).
    pub utilization: Option<UtilizationSample>,
    /// Combined memory info (backs `mem_used` and `mem_total`).
    pub memory: Option<MemorySample>,
    /// Decoder utilization, in percent.
    pub dec_util: Option<u32>,
    /// Encoder utilization, in percent.
    pub enc_util: Option<u32>,
    /// Die temperature, in degrees Celsius.
    pub temp: Option<u32>,
    /// Instantaneous power draw, in milliwatts.
    pub power: Option<u32>,
    /// Numeric performance-state code as the driver reports it.
    pub p_state: Option<u32>,
    /// Speed of fan index 0, in percent.
    pub fan_speed: Option<u32>,
    /// PCIe send throughput, in kilobytes per second.
    pub tx: Option<u32>,
    /// PCIe receive throughput, in kilobytes per second.
    pub rx: Option<u32>,
}

/// A normalized point-in-time record of one device's operating metrics.
/// Every field is independently optional: a field is absent exactly when
/// the query that backs it failed, and absence of one field says nothing
/// about any other field backed by a different query.
///
/// Fractional units are carried as integers in thousandths, so that no
/// precision the driver reports is lost: `mem_used` and `mem_total` are in
/// thousandths of a mebibyte, `power` in thousandths of a watt (that is,
/// the driver's milliwatts unchanged), and `tx` and `rx` in thousandths of
/// a mebibyte per second (the driver's kilobytes per second unchanged).
#[derive(Clone, Copy, Debug, PartialEq, Eq)]
pub struct GpuStatusData {
    /// GPU utilization, in percent, narrowed to a byte.
    pub gpu_util: Option<u8>,
    /// Used device memory, in thousandths of a mebibyte.
    pub mem_used: Option<u64>,
    /// Total device memory, in thousandths of a mebibyte.
    pub mem_total: Option<u64>,
    /// Memory utilization, in percent, narrowed to a byte.
    pub mem_util: Option<u8>,
    /// Decoder utilization, in percent, narrowed to a byte.
    pub dec_util: Option<u8>,
    /// Encoder utilization, in percent, narrowed to a byte.
    pub enc_util: Option<u8>,
    /// Die temperature, in degrees Celsius, narrowed to a byte.
    pub temp: Option<u8>,
    /// Power draw, in thousandths of a watt.
    pub power: Option<u32>,
    /// Generic performance-state code.
    pub p_state: Option<PState>,
    /// Fan speed, in percent, narrowed to a byte.
    pub fan_speed: Option<u8>,
    /// PCIe send throughput, in thousandths of a mebibyte per second.
    pub tx: Option<u32>,
    /// PCIe receive throughput, in thousandths of a mebibyte per second.
    pub rx: Option<u32>,
}

/// A percentage-like counter narrowed to a byte, as the low eight bits of
/// the driver's 32-bit value. Readings are expected within 0 to 100;
/// pathological larger values are narrowed, not clamped or rejected.
pub open spec fn spec_narrow_u8(x: u32) -> u8 {
    (x % 256) as u8
}

/// Narrow a percentage-like counter to a byte.
pub fn narrow_u8(x: u32) -> (r: u8)
    ensures
        r == spec_narrow_u8(x),
{
    (x % 256) as u8
}

/// A byte count converted to thousandths of a mebibyte, rounded toward
/// zero: `bytes * 1000 / 2^20`.
pub open spec fn spec_bytes_to_mib_milli(bytes: u64) -> u64 {
    (bytes * 1000 / 1048576) as u64
}

/// Convert a byte count to thousandths of a mebibyte.
pub fn bytes_to_mib_milli(bytes: u64) -> (r: u64)
    ensures
        r == spec_bytes_to_mib_milli(bytes),
{
    proof {
        assert(bytes * 1000 <= u64::MAX * 1000) by (nonlinear_arith)
            requires bytes <= u64::MAX;
        assert(bytes * 1000 / 1048576 <= u64::MAX * 1000 / 1048576) by (nonlinear_arith)
            requires bytes * 1000 <= u64::MAX * 1000;
    }
    ((bytes as u128) * 1000 / 1048576) as u64
}

/// The snapshot that one set of raw query results normalizes to: each
/// present reading is converted on its own, each failed query leaves its
/// field (or, for a combined query, its two fields) absent.
pub open spec fn spec_from_raw(raw: RawSample) -> GpuStatusData {
    GpuStatusData {
        gpu_util: match raw.utilization {
            Some(u) => Some(spec_narrow_u8(u.gpu)),
            None => None,
        },
        mem_used: match raw.memory {
            Some(m) => Some(spec_bytes_to_mib_milli(m.used)),
            None => None,
        },
        mem_total: match raw.memory {
            Some(m) => Some(spec_bytes_to_mib_milli(m.total)),
            None => None,
        },
        mem_util: match raw.utilization {
            Some(u) => Some(spec_narrow_u8(u.memory)),
            None => None,
        },
        dec_util: match raw.dec_util {
            Some(u) => Some(spec_narrow_u8(u)),
            None => None,
        },
        enc_util: match raw.enc_util {
            Some(u) => Some(spec_narrow_u8(u)),
            None => None,
        },
        temp: match raw.temp {
            Some(t) => Some(spec_narrow_u8(t)),
            None => None,
        },
        power: raw.power,
        p_state: match raw.p_state {
            Some(c) => Some(pstate_of(PerformanceState::spec_from_code(c))),
            None => None,
        },
        fan_speed: match raw.fan_speed {
            Some(f) => Some(spec_narrow_u8(f)),
            None => None,
        },
        tx: raw.tx,
        rx: raw.rx,
    }
}

impl GpuStatusData {
    /// The within-snapshot consistency that the two combined queries force:
    /// the two utilization fields are present together or absent together,
    /// and so are the two memory fields.
    pub open spec fn consistent(self) -> bool {
        &&& (self.gpu_util is Some <==> self.mem_util is Some)
        &&& (self.mem_used is Some <==> self.mem_total is Some)
    }

    /// Normalize one set of raw query results into a snapshot.
    pub fn from_raw(raw: &RawSample) -> (r: GpuStatusData)
        ensures
            r == spec_from_raw(*raw),
            r.consistent(),
    {
        GpuStatusData {
            gpu_util: match raw.utilization {
                Some(u) => Some(narrow_u8(u.gpu)),
                None => None,
            },
            mem_used: match raw.memory {
                Some(m) => Some(bytes_to_mib_milli(m.used)),
                None => None,
            },
            mem_total: match raw.memory {
                Some(m) => Some(bytes_to_mib_milli(m.total)),
                None => None,
            },
            mem_util: match raw.utilization {
                Some(u) => Some(narrow_u8(u.memory)),
                None => None,
            },
            dec_util: match raw.dec_util {
                Some(u) => Some(narrow_u8(u)),
                None => None,
            },
            enc_util: match raw.enc_util {
                Some(u) => Some(narrow_u8(u)),
                None => None,
            },
            temp: match raw.temp {
                Some(t) => Some(narrow_u8(t)),
                None => None,
            },
            power: raw.power,
            p_state: match raw.p_state {
                Some(c) => Some(PState::from(PerformanceState::from_code(c))),
                None => None,
            },
            fan_speed: match raw.fan_speed {
                Some(f) => Some(narrow_u8(f)),
                None => None,
            },
            tx: raw.tx,
            rx: raw.rx,
        }
    }
}

impl Default for GpuStatusData {
    /// The empty snapshot: every query failed, every field is absent.
    fn default() -> (r: GpuStatusData)
        ensures
            r.gpu_util is None,
            r.mem_used is None,
            r.mem_total is None,
            r.mem_util is None,
            r.dec_util is None,
            r.enc_util is None,
            r.temp is None,
            r.power is None,
            r.p_state is None,
            r.fan_speed is None,
            r.tx is None,
            r.rx is None,
    {
        GpuStatusData {
            gpu_util: None,
            mem_used: None,
            mem_total: None,
            mem_util: None,
            dec_util: None,
            enc_util: None,
            temp: None,
            power: None,
            p_state: None,
            fan_speed: None,
            tx: None,
            rx: None,
        }
    }
}

/// Joint dependency of the combined queries: whatever the raw results,
/// the snapshot they normalize to is internally consistent — `gpu_util`
/// and `mem_util` are present together or absent together, and so are
/// `mem_used` and `mem_total`.
pub proof fn lemma_from_raw_consistent(raw: RawSample)
    ensures
        spec_from_raw(raw).consistent(),
{
}

} // verus!

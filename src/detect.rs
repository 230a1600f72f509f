use vstd::prelude::*;

use crate::cpuid::{
    cpu_vendor_id, cpuid_read, hypervisor_vendor_id, identifier_of, CpuidRead, CpuidRegs, FEATURE_LEAF, HYPERVISOR_LEAF,
    VENDOR_LEAF,
};
use crate::detection::{
    Detection, ALL_BITS, HYPERVISOR_BIT, HYPERVISOR_CPU_VENDOR, RDTSC, UNEXPECTED_CPU_VENDOR,
};
use crate::hash::{
    expected_vendor_hashes, fnv1, fnv1_of, is_expected_vendor, is_known_hypervisor,
    known_hypervisor_hashes, lemma_expected_not_hypervisor, AMD_HASH, INTEL_HASH,
};

verus! {

/// Number of timed executions of the identification instruction.
pub const TIMING_ITERATIONS: u64 = 1000;

/// Average cost, in cycles, above which the timing flag fires.
pub const TIMING_THRESHOLD: u64 = 500;

/// Whether a total of `total` cycles over the timed executions averages,
/// truncated, above the threshold.
pub open spec fn timing_anomaly_of(total: u64) -> bool {
    total / TIMING_ITERATIONS > TIMING_THRESHOLD
}

/// Whether bit 31 of the leaf-1 feature register (ecx) is set.
pub open spec fn hypervisor_bit_set(ecx: u32) -> bool {
    (ecx >> 31u32) & 1 == 1
}

/// What a detection reports: exactly the defined flags, each set just when
/// its probe fired. The CPU vendor is classified by its hash: a known
/// hypervisor signature comes first, then anything that is no genuine vendor.
pub open spec fn reports(d: Detection, rdtsc: bool, hypervisor_present: bool, vendor_hash: u32) -> bool {
    &&& d@ & !ALL_BITS == 0
    &&& d.has_bits(RDTSC) == rdtsc
    &&& d.has_bits(HYPERVISOR_BIT) == hypervisor_present
    &&& d.has_bits(HYPERVISOR_CPU_VENDOR) == known_hypervisor_hashes().contains(vendor_hash)
    &&& d.has_bits(UNEXPECTED_CPU_VENDOR) == (!known_hypervisor_hashes().contains(vendor_hash)
        && !expected_vendor_hashes().contains(vendor_hash))
}

/// Adds the cycles between two counter readings to a running total; both the
/// difference and the sum wrap.
pub fn add_cycle_sample(total: u64, start: u64, end: u64) -> (r: u64)
    ensures
        r as int == (total as int + end as int - start as int) % 0x1_0000_0000_0000_0000,
{
    total.wrapping_add(end.wrapping_sub(start))
}

/// Whether `total` cycles over the timed executions point to a hypervisor:
/// the truncated average exceeds the threshold.
pub fn timing_anomaly(total: u64) -> (r: bool)
    ensures
        r == timing_anomaly_of(total),
{
    total / TIMING_ITERATIONS > TIMING_THRESHOLD
}

/// Whether the leaf-1 registers advertise a hypervisor.
pub fn hypervisor_present(leaf1: &CpuidRegs) -> (r: bool)
    ensures
        r == hypervisor_bit_set(leaf1.ecx),
{
    (leaf1.ecx >> 31u32) & 1 == 1
}

/// Reads leaf 1 and, only where it advertises a hypervisor, the hypervisor
/// leaf. Returns the leaf-1 read, the hypervisor-leaf read if one was made,
/// and the hypervisor's vendor identifier taken from it.
pub fn hypervisor_vendor() -> (r: (CpuidRead, Option<CpuidRead>, Option<[u8; 12]>))
    ensures
        r.0.leaf() == FEATURE_LEAF,
        r.2.is_some() == hypervisor_bit_set(r.0.view_regs().ecx),
        r.1.is_some() == r.2.is_some(),
        r.1.is_some() ==> r.1.unwrap().leaf() == HYPERVISOR_LEAF,
        r.2.is_some() ==> r.2.unwrap()@ == identifier_of(
            r.1.unwrap().view_regs().ebx,
            r.1.unwrap().view_regs().ecx,
            r.1.unwrap().view_regs().edx,
        ),
{
    let info = cpuid_read(FEATURE_LEAF);
    if !hypervisor_present(&info.regs()) {
        return (info, None, None);
    }
    let leaf = cpuid_read(HYPERVISOR_LEAF);
    let id = hypervisor_vendor_id(&leaf.regs());
    (info, Some(leaf), Some(id))
}

/// Reads leaf 0 and lays out its CPU vendor identifier (ebx, edx, ecx).
/// Returns the identifier with the read it came from.
pub fn cpu_vendor() -> (r: ([u8; 12], CpuidRead))
    ensures
        r.1.leaf() == VENDOR_LEAF,
        r.0@ == identifier_of(r.1.view_regs().ebx, r.1.view_regs().edx, r.1.view_regs().ecx),
{
    let leaf = cpuid_read(VENDOR_LEAF);
    (cpu_vendor_id(&leaf.regs()), leaf)
}

proof fn lemma_set_flag(x: u32, f: u32)
    by (bit_vector)
    requires
        x & !15u32 == 0,
        f == 1 || f == 2 || f == 4 || f == 8,
    ensures
        (x | f) & !15u32 == 0,
        ((x | f) & 1 == 1) == (f == 1 || x & 1 == 1),
        ((x | f) & 2 == 2) == (f == 2 || x & 2 == 2),
        ((x | f) & 4 == 4) == (f == 4 || x & 4 == 4),
        ((x | f) & 8 == 8) == (f == 8 || x & 8 == 8),
{
}

proof fn lemma_empty_bits()
    by (bit_vector)
    ensures
        0u32 & !15u32 == 0,
        0u32 & 1 != 1,
        0u32 & 2 != 2,
        0u32 & 4 != 4,
        0u32 & 8 != 8,
{
}

/// Combines the probes' outcomes into a detection: the timing verdict, whether
/// a hypervisor announced itself, and the CPU vendor identifier.
pub fn detect_from(rdtsc: bool, hypervisor: &Option<[u8; 12]>, vendor: &[u8; 12]) -> (r: Detection)
    ensures
        reports(r, rdtsc, hypervisor.is_some(), fnv1_of(vendor@)),
{
    let mut detection = Detection::empty();
    proof {
        lemma_empty_bits();
    }
    if rdtsc {
        proof {
            lemma_set_flag(detection@, RDTSC);
        }
        detection.insert(Detection::rdtsc());
    }
    if hypervisor.is_some() {
        proof {
            lemma_set_flag(detection@, HYPERVISOR_BIT);
        }
        detection.insert(Detection::hypervisor_bit());
    }
    let vendor_hash = fnv1(vendor);
    if is_known_hypervisor(vendor_hash) {
        proof {
            lemma_set_flag(detection@, HYPERVISOR_CPU_VENDOR);
        }
        detection.insert(Detection::hypervisor_cpu_vendor());
    } else if !is_expected_vendor(vendor_hash) {
        proof {
            lemma_set_flag(detection@, UNEXPECTED_CPU_VENDOR);
        }
        detection.insert(Detection::unexpected_cpu_vendor());
    }
    detection
}

/// Runs hypervisor detection.
///
/// `cpuid_cycles` is the total of the cycle-counter differences measured
/// around `TIMING_ITERATIONS` executions of the identification instruction
/// for leaf 0 (see `add_cycle_sample`). The timing flag is decided from it;
/// the other probes read the processor here. Whatever registers the processor
/// reports for leaf 1 and leaf 0, the result holds exactly the flags of the
/// probes on them, so the two CPU vendor flags never fire together.
pub fn vm_detect(cpuid_cycles: u64) -> (r: Detection)
    ensures
        exists|feature: CpuidRegs, vendor: CpuidRegs|
            reports(
                r,
                timing_anomaly_of(cpuid_cycles),
                hypervisor_bit_set(feature.ecx),
                fnv1_of(identifier_of(vendor.ebx, vendor.edx, vendor.ecx)),
            ),
{
    let rdtsc = timing_anomaly(cpuid_cycles);
    let (feature, _, hypervisor) = hypervisor_vendor();
    let (vendor, vendor_read) = cpu_vendor();
    let r = detect_from(rdtsc, &hypervisor, &vendor);
    assert(reports(
        r,
        timing_anomaly_of(cpuid_cycles),
        hypervisor_bit_set(feature.view_regs().ecx),
        fnv1_of(
            identifier_of(
                vendor_read.view_regs().ebx,
                vendor_read.view_regs().edx,
                vendor_read.view_regs().ecx,
            ),
        ),
    ));
    r
}

proof fn lemma_no_flag_bits(x: u32)
    by (bit_vector)
    requires
        x & !15u32 == 0,
        x & 1 != 1,
        x & 2 != 2,
        x & 4 != 4,
        x & 8 != 8,
    ensures
        x == 0,
{
}

/// The two CPU vendor flags exclude each other: no detection reports both a
/// hypervisor vendor and an unexpected vendor.
pub proof fn lemma_vendor_flags_exclusive(d: Detection, rdtsc: bool, hypervisor_present: bool, vendor_hash: u32)
    requires
        reports(d, rdtsc, hypervisor_present, vendor_hash),
    ensures
        !(d.has_bits(HYPERVISOR_CPU_VENDOR) && d.has_bits(UNEXPECTED_CPU_VENDOR)),
{
}

/// A CPU vendor identifier that hashes like `"GenuineIntel"` or
/// `"AuthenticAMD"` raises neither CPU vendor flag.
pub proof fn lemma_genuine_vendor_unflagged(d: Detection, rdtsc: bool, hypervisor_present: bool, vendor_hash: u32)
    requires
        reports(d, rdtsc, hypervisor_present, vendor_hash),
        vendor_hash == INTEL_HASH || vendor_hash == AMD_HASH,
    ensures
        !d.has_bits(HYPERVISOR_CPU_VENDOR),
        !d.has_bits(UNEXPECTED_CPU_VENDOR),
{
    if vendor_hash == INTEL_HASH {
        assert(expected_vendor_hashes()[0] == vendor_hash);
    } else {
        assert(expected_vendor_hashes()[1] == vendor_hash);
    }
    lemma_expected_not_hypervisor(vendor_hash);
}

/// A CPU vendor identifier whose hash is in neither table raises the
/// unexpected-vendor flag and not the hypervisor-vendor flag.
pub proof fn lemma_unknown_vendor_flagged(d: Detection, rdtsc: bool, hypervisor_present: bool, vendor_hash: u32)
    requires
        reports(d, rdtsc, hypervisor_present, vendor_hash),
        !known_hypervisor_hashes().contains(vendor_hash),
        !expected_vendor_hashes().contains(vendor_hash),
    ensures
        d.has_bits(UNEXPECTED_CPU_VENDOR),
        !d.has_bits(HYPERVISOR_CPU_VENDOR),
{
}

/// On bare metal (no timing anomaly, no hypervisor bit, a genuine CPU vendor)
/// the detection is empty.
pub proof fn lemma_bare_metal_empty(d: Detection, vendor_hash: u32)
    requires
        reports(d, false, false, vendor_hash),
        expected_vendor_hashes().contains(vendor_hash),
    ensures
        d@ == 0,
{
    lemma_expected_not_hypervisor(vendor_hash);
    lemma_no_flag_bits(d@);
}

} // verus!

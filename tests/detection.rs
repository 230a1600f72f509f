use vm_detect::cpuid::{cpu_vendor_id, cpuid_read, hypervisor_vendor_id, identifier, CpuidRegs};
use vm_detect::detect::{
    add_cycle_sample, cpu_vendor, detect_from, hypervisor_present, hypervisor_vendor,
    timing_anomaly, TIMING_ITERATIONS, TIMING_THRESHOLD,
};
use vm_detect::hash::{
    fnv1, is_expected_vendor, is_known_hypervisor, AMD_HASH, BHYVE_HASH, HYPERV_HASH,
    INTEL_HASH, KVM_HASH, PARALLELS_HASH, TCG_HASH, VMWARE_HASH, XEN_HASH,
};
use vm_detect::{vm_detect, Detection};

/// The `k`-th little-endian word of `id`.
fn word(id: &[u8; 12], k: usize) -> u32 {
    u32::from_le_bytes([id[4 * k], id[4 * k + 1], id[4 * k + 2], id[4 * k + 3]])
}

/// Leaf-0 registers that report `id` as the CPU vendor (ebx, edx, ecx).
fn vendor_leaf(id: &[u8; 12]) -> CpuidRegs {
    CpuidRegs { eax: 0, ebx: word(id, 0), edx: word(id, 1), ecx: word(id, 2) }
}

/// Hypervisor-leaf registers that report `id` (ebx, ecx, edx).
fn hypervisor_leaf(id: &[u8; 12]) -> CpuidRegs {
    CpuidRegs { eax: 0, ebx: word(id, 0), ecx: word(id, 1), edx: word(id, 2) }
}

#[test]
fn hash_is_deterministic() {
    let id = *b"GenuineIntel";
    assert_eq!(fnv1(&id), fnv1(&id));
    let other = *b"GenuineIntem";
    assert_eq!(fnv1(&other), fnv1(&other));
    assert_ne!(fnv1(&id), fnv1(&other));
}

#[test]
fn hash_of_zero_bytes() {
    let mut h: u32 = 0x811c9dc5;
    for _ in 0..12 {
        h = h.wrapping_mul(0x01000193);
    }
    assert_eq!(fnv1(&[0u8; 12]), h);
}

#[test]
fn signature_hashes_match_tables() {
    assert_eq!(fnv1(b"bhyve bhyve "), BHYVE_HASH);
    assert_eq!(fnv1(b"KVMKVMKVM\0\0\0"), KVM_HASH);
    assert_eq!(fnv1(b"TCGTCGTCGTCG"), TCG_HASH);
    assert_eq!(fnv1(b"Microsoft Hv"), HYPERV_HASH);
    assert_eq!(fnv1(b" lrpepyh  vr"), PARALLELS_HASH);
    assert_eq!(fnv1(b"VMwareVMware"), VMWARE_HASH);
    assert_eq!(fnv1(b"XenVMMXenVMM"), XEN_HASH);
    assert_eq!(fnv1(b"GenuineIntel"), INTEL_HASH);
    assert_eq!(fnv1(b"AuthenticAMD"), AMD_HASH);
}

#[test]
fn signature_tables_classify() {
    for h in [BHYVE_HASH, KVM_HASH, TCG_HASH, HYPERV_HASH, PARALLELS_HASH, VMWARE_HASH, XEN_HASH] {
        assert!(is_known_hypervisor(h));
        assert!(!is_expected_vendor(h));
    }
    for h in [INTEL_HASH, AMD_HASH] {
        assert!(!is_known_hypervisor(h));
        assert!(is_expected_vendor(h));
    }
    let unknown = fnv1(b"CyrixInstead");
    assert!(!is_known_hypervisor(unknown));
    assert!(!is_expected_vendor(unknown));
}

#[test]
fn identifier_is_little_endian() {
    assert_eq!(
        identifier(0x756e6547, 0x49656e69, 0x6c65746e),
        *b"GenuineIntel"
    );
    assert_eq!(
        identifier(0x04030201, 0x08070605, 0x0c0b0a09),
        [1, 2, 3, 4, 5, 6, 7, 8, 9, 10, 11, 12]
    );
}

#[test]
fn vendor_identifiers_take_register_order() {
    let leaf0 = CpuidRegs { eax: 0x16, ebx: 0x68747541, ecx: 0x444d4163, edx: 0x69746e65 };
    assert_eq!(cpu_vendor_id(&leaf0), *b"AuthenticAMD");
    let hv = CpuidRegs { eax: 0x4000_0001, ebx: 0x4b4d564b, ecx: 0x564b4d56, edx: 0x0000004d };
    assert_eq!(hypervisor_vendor_id(&hv), *b"KVMKVMKVM\0\0\0");
    assert_eq!(cpu_vendor_id(&vendor_leaf(b"XenVMMXenVMM")), *b"XenVMMXenVMM");
    assert_eq!(hypervisor_vendor_id(&hypervisor_leaf(b"Microsoft Hv")), *b"Microsoft Hv");
}

#[test]
fn hypervisor_bit_decides_presence() {
    let mut leaf1 = CpuidRegs { eax: 0, ebx: 0, ecx: 0x7fff_ffff, edx: 0xffff_ffff };
    assert!(!hypervisor_present(&leaf1));
    leaf1.ecx = 0x8000_0000;
    assert!(hypervisor_present(&leaf1));
    leaf1.ecx = 0xffff_ffff;
    assert!(hypervisor_present(&leaf1));
    leaf1.ecx = 0;
    assert!(!hypervisor_present(&leaf1));
}

#[test]
fn timing_threshold_boundary() {
    assert_eq!(TIMING_ITERATIONS, 1000);
    assert_eq!(TIMING_THRESHOLD, 500);
    assert!(!timing_anomaly(0));
    assert!(!timing_anomaly(500_000));
    assert!(!timing_anomaly(500_999));
    assert!(timing_anomaly(501_000));
    assert!(timing_anomaly(u64::MAX));
}

#[test]
fn cycle_samples_add_and_wrap() {
    assert_eq!(add_cycle_sample(0, 100, 350), 250);
    assert_eq!(add_cycle_sample(1000, 5, 5), 1000);
    assert_eq!(add_cycle_sample(0, u64::MAX, 1), 2);
    assert_eq!(add_cycle_sample(u64::MAX, 0, 2), 1);
}

#[test]
fn bare_metal_reports_nothing() {
    let d = detect_from(false, &None, b"GenuineIntel");
    assert!(d.is_empty());
    assert_eq!(d.bits(), 0);
    let d = detect_from(false, &None, b"AuthenticAMD");
    assert!(d.is_empty());
}

#[test]
fn kvm_guest_reports_hypervisor_bit() {
    let kvm = hypervisor_vendor_id(&hypervisor_leaf(b"KVMKVMKVM\0\0\0"));
    let d = detect_from(false, &Some(kvm), b"GenuineIntel");
    assert!(d.contains(Detection::hypervisor_bit()));
    assert!(!d.contains(Detection::hypervisor_cpu_vendor()));
    assert_eq!(d.bits(), 0b0010);
    let d = detect_from(false, &Some(kvm), b"KVMKVMKVM\0\0\0");
    assert!(d.contains(Detection::hypervisor_bit()));
    assert!(d.contains(Detection::hypervisor_cpu_vendor()));
    assert!(!d.contains(Detection::unexpected_cpu_vendor()));
    assert_eq!(d.bits(), 0b0110);
}

#[test]
fn unknown_vendor_is_unexpected() {
    let d = detect_from(false, &None, b"CyrixInstead");
    assert!(d.contains(Detection::unexpected_cpu_vendor()));
    assert!(!d.contains(Detection::hypervisor_cpu_vendor()));
    assert_eq!(d.bits(), 0b1000);
    let d = detect_from(false, &None, &[0u8; 12]);
    assert_eq!(d.bits(), 0b1000);
}

#[test]
fn hypervisor_vendors_are_flagged() {
    for id in [
        b"bhyve bhyve ",
        b"KVMKVMKVM\0\0\0",
        b"TCGTCGTCGTCG",
        b"Microsoft Hv",
        b" lrpepyh  vr",
        b"VMwareVMware",
        b"XenVMMXenVMM",
    ] {
        let d = detect_from(false, &None, id);
        assert!(d.contains(Detection::hypervisor_cpu_vendor()));
        assert!(!d.contains(Detection::unexpected_cpu_vendor()));
        assert_eq!(d.bits(), 0b0100);
    }
}

#[test]
fn every_probe_fires_together() {
    let d = detect_from(true, &Some(*b"VMwareVMware"), b"VMwareVMware");
    assert_eq!(d.bits(), 0b0111);
    let d = detect_from(true, &Some(*b"VMwareVMware"), b"CyrixInstead");
    assert_eq!(d.bits(), 0b1011);
    let d = detect_from(true, &None, b"GenuineIntel");
    assert_eq!(d, Detection::rdtsc());
}

#[test]
fn detection_set_operations() {
    let e = Detection::empty();
    assert!(e.is_empty());
    assert!(!e.is_all());
    let all = Detection::all();
    assert!(all.is_all());
    assert_eq!(all.bits(), 0b1111);
    let a = Detection::rdtsc().union(Detection::hypervisor_bit());
    assert_eq!(a.bits(), 0b0011);
    assert!(a.contains(Detection::rdtsc()));
    assert!(!a.contains(Detection::unexpected_cpu_vendor()));
    assert!(all.contains(a));
    assert!(!a.contains(all));
    assert!(a.intersects(Detection::hypervisor_bit()));
    assert!(!a.intersects(Detection::hypervisor_cpu_vendor()));
    assert_eq!(a.intersection(Detection::hypervisor_bit()), Detection::hypervisor_bit());
    assert_eq!(all.difference(a).bits(), 0b1100);
    let mut m = Detection::empty();
    m.insert(Detection::unexpected_cpu_vendor());
    m.insert(Detection::rdtsc());
    assert_eq!(m.bits(), 0b1001);
    m.remove(Detection::rdtsc());
    assert_eq!(m, Detection::unexpected_cpu_vendor());
}

#[test]
fn detection_from_bits() {
    assert_eq!(Detection::from_bits(0b0101).map(|d| d.bits()), Some(0b0101));
    assert_eq!(Detection::from_bits(0).map(|d| d.bits()), Some(0));
    assert!(Detection::from_bits(0b1_0000).is_none());
    assert_eq!(Detection::from_bits_truncate(0xffff_fff2).bits(), 0b0010);
}

#[test]
fn leaf_zero_reports_a_vendor() {
    let (id, read) = cpu_vendor();
    assert_eq!(id, cpu_vendor_id(&read.regs()));
    assert!(id.iter().all(|b| b.is_ascii_graphic() || *b == b' '));
    assert!(id.iter().any(|b| *b != 0));
}

#[test]
fn reads_follow_the_leaf() {
    let vendor = cpuid_read(0).regs();
    let features = cpuid_read(1).regs();
    assert_ne!(vendor, features);
    assert_eq!(cpuid_read(0).regs(), vendor);
}

#[test]
fn hypervisor_probe_on_this_machine() {
    let (info, leaf, id) = hypervisor_vendor();
    assert_eq!(id.is_some(), hypervisor_present(&info.regs()));
    assert_eq!(leaf.is_some(), id.is_some());
    if let (Some(leaf), Some(id)) = (leaf, id) {
        assert_eq!(id, hypervisor_vendor_id(&leaf.regs()));
    }
    let d = vm_detect(0);
    assert_eq!(d.contains(Detection::hypervisor_bit()), id.is_some());
}

#[test]
fn detection_on_this_machine() {
    let d = vm_detect(0);
    assert!(!d.contains(Detection::rdtsc()));
    assert_eq!(d.bits() & !0b1111, 0);
    assert!(
        !(d.contains(Detection::hypervisor_cpu_vendor())
            && d.contains(Detection::unexpected_cpu_vendor()))
    );
    let slow = vm_detect(1_000_000);
    assert!(slow.contains(Detection::rdtsc()));
    assert_eq!(slow.difference(Detection::rdtsc()), d);
}

use vstd::prelude::*;

verus! {

/// Starting value of the running hash.
pub const FNV_OFFSET: u32 = 0x811c9dc5;

/// Multiplier applied to the running hash before each byte.
pub const FNV_PRIME: u32 = 0x01000193;

/// FNV-1 over a byte sequence: for each byte in turn, multiply the running
/// hash by the prime (wrapping at 32 bits), then xor in the byte.
pub open spec fn fnv1_of(data: Seq<u8>) -> u32
    decreases data.len(),
{
    if data.len() == 0 {
        FNV_OFFSET
    } else {
        (((fnv1_of(data.drop_last()) as nat * FNV_PRIME as nat) % 0x1_0000_0000) as u32) ^ (
        data.last() as u32)
    }
}

/// Hashes a 12-byte vendor identifier.
pub fn fnv1(data: &[u8; 12]) -> (r: u32)
    ensures
        r == fnv1_of(data@),
{
    let mut res: u32 = FNV_OFFSET;
    let mut i: usize = 0;
    while i < 12
        invariant
            i <= 12,
            res == fnv1_of(data@.take(i as int)),
        decreases 12 - i,
    {
        assert(data@.take(i as int + 1).drop_last() =~= data@.take(i as int));
        res = res.wrapping_mul(FNV_PRIME) ^ (data[i] as u32);
        i += 1;
    }
    assert(data@.take(12) =~= data@);
    res
}

/// Hash of the bhyve signature `"bhyve bhyve "`.
pub const BHYVE_HASH: u32 = 0xbfeda42d;

/// Hash of the KVM signature `"KVMKVMKVM\0\0\0"`.
pub const KVM_HASH: u32 = 0xbbe374c9;

/// Hash of the QEMU TCG signature `"TCGTCGTCGTCG"`.
pub const TCG_HASH: u32 = 0xb54a72c5;

/// Hash of the Hyper-V signature `"Microsoft Hv"`.
pub const HYPERV_HASH: u32 = 0x86dd9b73;

/// Hash of the Parallels signature `" lrpepyh  vr"`.
pub const PARALLELS_HASH: u32 = 0xfb0d3433;

/// Hash of the VMware signature `"VMwareVMware"`.
pub const VMWARE_HASH: u32 = 0x3c73f805;

/// Hash of the Xen signature `"XenVMMXenVMM"`.
pub const XEN_HASH: u32 = 0x7180b669;

/// Hash of the Intel vendor string `"GenuineIntel"`.
pub const INTEL_HASH: u32 = 0x4ebde780;

/// Hash of the AMD vendor string `"AuthenticAMD"`.
pub const AMD_HASH: u32 = 0x5eb9a368;

/// Hashes of the vendor identifiers that hypervisors and emulators report.
pub open spec fn known_hypervisor_hashes() -> Seq<u32> {
    seq![BHYVE_HASH, KVM_HASH, TCG_HASH, HYPERV_HASH, PARALLELS_HASH, VMWARE_HASH, XEN_HASH]
}

/// Hashes of the vendor identifiers of genuine silicon.
pub open spec fn expected_vendor_hashes() -> Seq<u32> {
    seq![INTEL_HASH, AMD_HASH]
}

/// Whether `hash` is the hash of a known hypervisor or emulator signature.
pub fn is_known_hypervisor(hash: u32) -> (r: bool)
    ensures
        r == known_hypervisor_hashes().contains(hash),
{
    let r = hash == BHYVE_HASH || hash == KVM_HASH || hash == TCG_HASH || hash == HYPERV_HASH
        || hash == PARALLELS_HASH || hash == VMWARE_HASH || hash == XEN_HASH;
    proof {
        let t = known_hypervisor_hashes();
        if r {
            if hash == BHYVE_HASH { assert(t[0] == hash); }
            else if hash == KVM_HASH { assert(t[1] == hash); }
            else if hash == TCG_HASH { assert(t[2] == hash); }
            else if hash == HYPERV_HASH { assert(t[3] == hash); }
            else if hash == PARALLELS_HASH { assert(t[4] == hash); }
            else if hash == VMWARE_HASH { assert(t[5] == hash); }
            else { assert(t[6] == hash); }
        } else {
            assert forall|i: int| 0 <= i < t.len() implies t[i] != hash by {}
        }
    }
    r
}

/// Whether `hash` is the hash of a genuine CPU vendor identifier.
pub fn is_expected_vendor(hash: u32) -> (r: bool)
    ensures
        r == expected_vendor_hashes().contains(hash),
{
    let r = hash == INTEL_HASH || hash == AMD_HASH;
    proof {
        let t = expected_vendor_hashes();
        if r {
            if hash == INTEL_HASH { assert(t[0] == hash); }
            else { assert(t[1] == hash); }
        } else {
            assert forall|i: int| 0 <= i < t.len() implies t[i] != hash by {}
        }
    }
    r
}

/// The hash is a function of the bytes alone: hashing the same identifier
/// twice gives the same value.
pub proof fn lemma_fnv1_deterministic(a: Seq<u8>, b: Seq<u8>)
    requires
        a == b,
    ensures
        fnv1_of(a) == fnv1_of(b),
{
}

/// The genuine vendor hashes are not in the hypervisor table.
pub proof fn lemma_expected_not_hypervisor(hash: u32)
    requires
        expected_vendor_hashes().contains(hash),
    ensures
        !known_hypervisor_hashes().contains(hash),
{
    let k = known_hypervisor_hashes();
    assert(hash == INTEL_HASH || hash == AMD_HASH);
    assert forall|i: int| 0 <= i < k.len() implies k[i] != hash by {}
}

/// Extends a known hash by one byte: `m` is the wrapped product of the
/// running hash and the prime, `r` that product xor the byte.
proof fn lemma_fnv1_push(s: Seq<u8>, b: u8, h: u32, m: u32, r: u32)
    requires
        fnv1_of(s) == h,
        (h as nat * FNV_PRIME as nat) % 0x1_0000_0000 == m,
        m ^ (b as u32) == r,
    ensures
        fnv1_of(s.push(b)) == r,
{
    assert(s.push(b).drop_last() =~= s);
}


proof fn lemma_bhyve_hash()
    ensures
        fnv1_of(seq![98u8, 104, 121, 118, 101, 32, 98, 104, 121, 118, 101, 32]) == BHYVE_HASH,
{
    assert(
        (0x050c5d1fu32 ^ 98u32 == 0x050c5d7du32)
        && (0x6f772bc7u32 ^ 104u32 == 0x6f772bafu32)
        && (0x2799c47du32 ^ 121u32 == 0x2799c404u32)
        && (0x5b0f924cu32 ^ 118u32 == 0x5b0f923au32)
        && (0x9383314eu32 ^ 101u32 == 0x9383312bu32)
        && (0x628666b1u32 ^ 32u32 == 0x62866691u32)
        && (0xaa937643u32 ^ 98u32 == 0xaa937621u32)
        && (0xa722f5f3u32 ^ 104u32 == 0xa722f59bu32)
        && (0xb708a301u32 ^ 121u32 == 0xb708a378u32)
        && (0x9a9955e8u32 ^ 118u32 == 0x9a99559eu32)
        && (0xfd61c7bau32 ^ 101u32 == 0xfd61c7dfu32)
        && (0xbfeda40du32 ^ 32u32 == 0xbfeda42du32)
    ) by (bit_vector);
    let s0 = Seq::<u8>::empty();
    lemma_fnv1_push(s0, 98u8, 0x811c9dc5, 0x050c5d1f, 0x050c5d7d);
    let s1 = s0.push(98u8);
    lemma_fnv1_push(s1, 104u8, 0x050c5d7d, 0x6f772bc7, 0x6f772baf);
    let s2 = s1.push(104u8);
    lemma_fnv1_push(s2, 121u8, 0x6f772baf, 0x2799c47d, 0x2799c404);
    let s3 = s2.push(121u8);
    lemma_fnv1_push(s3, 118u8, 0x2799c404, 0x5b0f924c, 0x5b0f923a);
    let s4 = s3.push(118u8);
    lemma_fnv1_push(s4, 101u8, 0x5b0f923a, 0x9383314e, 0x9383312b);
    let s5 = s4.push(101u8);
    lemma_fnv1_push(s5, 32u8, 0x9383312b, 0x628666b1, 0x62866691);
    let s6 = s5.push(32u8);
    lemma_fnv1_push(s6, 98u8, 0x62866691, 0xaa937643, 0xaa937621);
    let s7 = s6.push(98u8);
    lemma_fnv1_push(s7, 104u8, 0xaa937621, 0xa722f5f3, 0xa722f59b);
    let s8 = s7.push(104u8);
    lemma_fnv1_push(s8, 121u8, 0xa722f59b, 0xb708a301, 0xb708a378);
    let s9 = s8.push(121u8);
    lemma_fnv1_push(s9, 118u8, 0xb708a378, 0x9a9955e8, 0x9a99559e);
    let s10 = s9.push(118u8);
    lemma_fnv1_push(s10, 101u8, 0x9a99559e, 0xfd61c7ba, 0xfd61c7df);
    let s11 = s10.push(101u8);
    lemma_fnv1_push(s11, 32u8, 0xfd61c7df, 0xbfeda40d, 0xbfeda42d);
    let s12 = s11.push(32u8);
    assert(s12 =~= seq![98u8, 104, 121, 118, 101, 32, 98, 104, 121, 118, 101, 32]);
}

proof fn lemma_kvm_hash()
    ensures
        fnv1_of(seq![75u8, 86, 77, 75, 86, 77, 75, 86, 77, 0, 0, 0]) == KVM_HASH,
{
    assert(
        (0x050c5d1fu32 ^ 75u32 == 0x050c5d54u32)
        && (0x4676eb3cu32 ^ 86u32 == 0x4676eb6au32)
        && (0x573497deu32 ^ 77u32 == 0x57349793u32)
        && (0xdaca9c69u32 ^ 75u32 == 0xdaca9c22u32)
        && (0x8ef3c986u32 ^ 86u32 == 0x8ef3c9d0u32)
        && (0xd9c6b270u32 ^ 77u32 == 0xd9c6b23du32)
        && (0x10ca9607u32 ^ 75u32 == 0x10ca964cu32)
        && (0xbaea99a4u32 ^ 86u32 == 0xbaea99f2u32)
        && (0x315057f6u32 ^ 77u32 == 0x315057bbu32)
        && (0x5c7a1b61u32 ^ 0u32 == 0x5c7a1b61u32)
        && (0xf53919b3u32 ^ 0u32 == 0xf53919b3u32)
        && (0xbbe374c9u32 ^ 0u32 == 0xbbe374c9u32)
    ) by (bit_vector);
    let s0 = Seq::<u8>::empty();
    lemma_fnv1_push(s0, 75u8, 0x811c9dc5, 0x050c5d1f, 0x050c5d54);
    let s1 = s0.push(75u8);
    lemma_fnv1_push(s1, 86u8, 0x050c5d54, 0x4676eb3c, 0x4676eb6a);
    let s2 = s1.push(86u8);
    lemma_fnv1_push(s2, 77u8, 0x4676eb6a, 0x573497de, 0x57349793);
    let s3 = s2.push(77u8);
    lemma_fnv1_push(s3, 75u8, 0x57349793, 0xdaca9c69, 0xdaca9c22);
    let s4 = s3.push(75u8);
    lemma_fnv1_push(s4, 86u8, 0xdaca9c22, 0x8ef3c986, 0x8ef3c9d0);
    let s5 = s4.push(86u8);
    lemma_fnv1_push(s5, 77u8, 0x8ef3c9d0, 0xd9c6b270, 0xd9c6b23d);
    let s6 = s5.push(77u8);
    lemma_fnv1_push(s6, 75u8, 0xd9c6b23d, 0x10ca9607, 0x10ca964c);
    let s7 = s6.push(75u8);
    lemma_fnv1_push(s7, 86u8, 0x10ca964c, 0xbaea99a4, 0xbaea99f2);
    let s8 = s7.push(86u8);
    lemma_fnv1_push(s8, 77u8, 0xbaea99f2, 0x315057f6, 0x315057bb);
    let s9 = s8.push(77u8);
    lemma_fnv1_push(s9, 0u8, 0x315057bb, 0x5c7a1b61, 0x5c7a1b61);
    let s10 = s9.push(0u8);
    lemma_fnv1_push(s10, 0u8, 0x5c7a1b61, 0xf53919b3, 0xf53919b3);
    let s11 = s10.push(0u8);
    lemma_fnv1_push(s11, 0u8, 0xf53919b3, 0xbbe374c9, 0xbbe374c9);
    let s12 = s11.push(0u8);
    assert(s12 =~= seq![75u8, 86, 77, 75, 86, 77, 75, 86, 77, 0, 0, 0]);
}

proof fn lemma_tcg_hash()
    ensures
        fnv1_of(seq![84u8, 67, 71, 84, 67, 71, 84, 67, 71, 84, 67, 71]) == TCG_HASH,
{
    assert(
        (0x050c5d1fu32 ^ 84u32 == 0x050c5d4bu32)
        && (0x3d76dd11u32 ^ 67u32 == 0x3d76dd52u32)
        && (0x141e6816u32 ^ 71u32 == 0x141e6851u32)
        && (0xfcde3783u32 ^ 84u32 == 0xfcde37d7u32)
        && (0xe8d1e775u32 ^ 67u32 == 0xe8d1e736u32)
        && (0xb86efa02u32 ^ 71u32 == 0xb86efa45u32)
        && (0x9bb3fa9fu32 ^ 84u32 == 0x9bb3facbu32)
        && (0xe753cd91u32 ^ 67u32 == 0xe753cdd2u32)
        && (0xfaed0196u32 ^ 71u32 == 0xfaed01d1u32)
        && (0xd419dc03u32 ^ 84u32 == 0xd419dc57u32)
        && (0x3bb5dcf5u32 ^ 67u32 == 0x3bb5dcb6u32)
        && (0xb54a7282u32 ^ 71u32 == 0xb54a72c5u32)
    ) by (bit_vector);
    let s0 = Seq::<u8>::empty();
    lemma_fnv1_push(s0, 84u8, 0x811c9dc5, 0x050c5d1f, 0x050c5d4b);
    let s1 = s0.push(84u8);
    lemma_fnv1_push(s1, 67u8, 0x050c5d4b, 0x3d76dd11, 0x3d76dd52);
    let s2 = s1.push(67u8);
    lemma_fnv1_push(s2, 71u8, 0x3d76dd52, 0x141e6816, 0x141e6851);
    let s3 = s2.push(71u8);
    lemma_fnv1_push(s3, 84u8, 0x141e6851, 0xfcde3783, 0xfcde37d7);
    let s4 = s3.push(84u8);
    lemma_fnv1_push(s4, 67u8, 0xfcde37d7, 0xe8d1e775, 0xe8d1e736);
    let s5 = s4.push(67u8);
    lemma_fnv1_push(s5, 71u8, 0xe8d1e736, 0xb86efa02, 0xb86efa45);
    let s6 = s5.push(71u8);
    lemma_fnv1_push(s6, 84u8, 0xb86efa45, 0x9bb3fa9f, 0x9bb3facb);
    let s7 = s6.push(84u8);
    lemma_fnv1_push(s7, 67u8, 0x9bb3facb, 0xe753cd91, 0xe753cdd2);
    let s8 = s7.push(67u8);
    lemma_fnv1_push(s8, 71u8, 0xe753cdd2, 0xfaed0196, 0xfaed01d1);
    let s9 = s8.push(71u8);
    lemma_fnv1_push(s9, 84u8, 0xfaed01d1, 0xd419dc03, 0xd419dc57);
    let s10 = s9.push(84u8);
    lemma_fnv1_push(s10, 67u8, 0xd419dc57, 0x3bb5dcf5, 0x3bb5dcb6);
    let s11 = s10.push(67u8);
    lemma_fnv1_push(s11, 71u8, 0x3bb5dcb6, 0xb54a7282, 0xb54a72c5);
    let s12 = s11.push(71u8);
    assert(s12 =~= seq![84u8, 67, 71, 84, 67, 71, 84, 67, 71, 84, 67, 71]);
}

proof fn lemma_hyperv_hash()
    ensures
        fnv1_of(seq![77u8, 105, 99, 114, 111, 115, 111, 102, 116, 32, 72, 118]) == HYPERV_HASH,
{
    assert(
        (0x050c5d1fu32 ^ 77u32 == 0x050c5d52u32)
        && (0x4476e816u32 ^ 105u32 == 0x4476e87fu32)
        && (0x462fffedu32 ^ 99u32 == 0x462fff8eu32)
        && (0x0b8f4c8au32 ^ 114u32 == 0x0b8f4cf8u32)
        && (0x2a962a68u32 ^ 111u32 == 0x2a962a07u32)
        && (0x11642905u32 ^ 115u32 == 0x11642976u32)
        && (0xd6ad44c2u32 ^ 111u32 == 0xd6ad44adu32)
        && (0x9fc31c57u32 ^ 102u32 == 0x9fc31c31u32)
        && (0xb1256123u32 ^ 116u32 == 0xb1256157u32)
        && (0x34d83bf5u32 ^ 32u32 == 0x34d83bd5u32)
        && (0x0566304fu32 ^ 72u32 == 0x05663007u32)
        && (0x86dd9b05u32 ^ 118u32 == 0x86dd9b73u32)
    ) by (bit_vector);
    let s0 = Seq::<u8>::empty();
    lemma_fnv1_push(s0, 77u8, 0x811c9dc5, 0x050c5d1f, 0x050c5d52);
    let s1 = s0.push(77u8);
    lemma_fnv1_push(s1, 105u8, 0x050c5d52, 0x4476e816, 0x4476e87f);
    let s2 = s1.push(105u8);
    lemma_fnv1_push(s2, 99u8, 0x4476e87f, 0x462fffed, 0x462fff8e);
    let s3 = s2.push(99u8);
    lemma_fnv1_push(s3, 114u8, 0x462fff8e, 0x0b8f4c8a, 0x0b8f4cf8);
    let s4 = s3.push(114u8);
    lemma_fnv1_push(s4, 111u8, 0x0b8f4cf8, 0x2a962a68, 0x2a962a07);
    let s5 = s4.push(111u8);
    lemma_fnv1_push(s5, 115u8, 0x2a962a07, 0x11642905, 0x11642976);
    let s6 = s5.push(115u8);
    lemma_fnv1_push(s6, 111u8, 0x11642976, 0xd6ad44c2, 0xd6ad44ad);
    let s7 = s6.push(111u8);
    lemma_fnv1_push(s7, 102u8, 0xd6ad44ad, 0x9fc31c57, 0x9fc31c31);
    let s8 = s7.push(102u8);
    lemma_fnv1_push(s8, 116u8, 0x9fc31c31, 0xb1256123, 0xb1256157);
    let s9 = s8.push(116u8);
    lemma_fnv1_push(s9, 32u8, 0xb1256157, 0x34d83bf5, 0x34d83bd5);
    let s10 = s9.push(32u8);
    lemma_fnv1_push(s10, 72u8, 0x34d83bd5, 0x0566304f, 0x05663007);
    let s11 = s10.push(72u8);
    lemma_fnv1_push(s11, 118u8, 0x05663007, 0x86dd9b05, 0x86dd9b73);
    let s12 = s11.push(118u8);
    assert(s12 =~= seq![77u8, 105, 99, 114, 111, 115, 111, 102, 116, 32, 72, 118]);
}

proof fn lemma_parallels_hash()
    ensures
        fnv1_of(seq![32u8, 108, 114, 112, 101, 112, 121, 104, 32, 32, 118, 114]) == PARALLELS_HASH,
{
    assert(
        (0x050c5d1fu32 ^ 32u32 == 0x050c5d3fu32)
        && (0x3176ca2du32 ^ 108u32 == 0x3176ca41u32)
        && (0x1f006453u32 ^ 114u32 == 0x1f006421u32)
        && (0xee9d9ff3u32 ^ 112u32 == 0xee9d9f83u32)
        && (0x25221b39u32 ^ 101u32 == 0x25221b5cu32)
        && (0xd0b111d4u32 ^ 112u32 == 0xd0b111a4u32)
        && (0x2abec52cu32 ^ 121u32 == 0x2abec555u32)
        && (0x9f50a4cfu32 ^ 104u32 == 0x9f50a4a7u32)
        && (0x72f332e5u32 ^ 32u32 == 0x72f332c5u32)
        && (0xb9d8ec1fu32 ^ 32u32 == 0xb9d8ec3fu32)
        && (0xcf7be72du32 ^ 118u32 == 0xcf7be75bu32)
        && (0xfb0d3441u32 ^ 114u32 == 0xfb0d3433u32)
    ) by (bit_vector);
    let s0 = Seq::<u8>::empty();
    lemma_fnv1_push(s0, 32u8, 0x811c9dc5, 0x050c5d1f, 0x050c5d3f);
    let s1 = s0.push(32u8);
    lemma_fnv1_push(s1, 108u8, 0x050c5d3f, 0x3176ca2d, 0x3176ca41);
    let s2 = s1.push(108u8);
    lemma_fnv1_push(s2, 114u8, 0x3176ca41, 0x1f006453, 0x1f006421);
    let s3 = s2.push(114u8);
    lemma_fnv1_push(s3, 112u8, 0x1f006421, 0xee9d9ff3, 0xee9d9f83);
    let s4 = s3.push(112u8);
    lemma_fnv1_push(s4, 101u8, 0xee9d9f83, 0x25221b39, 0x25221b5c);
    let s5 = s4.push(101u8);
    lemma_fnv1_push(s5, 112u8, 0x25221b5c, 0xd0b111d4, 0xd0b111a4);
    let s6 = s5.push(112u8);
    lemma_fnv1_push(s6, 121u8, 0xd0b111a4, 0x2abec52c, 0x2abec555);
    let s7 = s6.push(121u8);
    lemma_fnv1_push(s7, 104u8, 0x2abec555, 0x9f50a4cf, 0x9f50a4a7);
    let s8 = s7.push(104u8);
    lemma_fnv1_push(s8, 32u8, 0x9f50a4a7, 0x72f332e5, 0x72f332c5);
    let s9 = s8.push(32u8);
    lemma_fnv1_push(s9, 32u8, 0x72f332c5, 0xb9d8ec1f, 0xb9d8ec3f);
    let s10 = s9.push(32u8);
    lemma_fnv1_push(s10, 118u8, 0xb9d8ec3f, 0xcf7be72d, 0xcf7be75b);
    let s11 = s10.push(118u8);
    lemma_fnv1_push(s11, 114u8, 0xcf7be75b, 0xfb0d3441, 0xfb0d3433);
    let s12 = s11.push(114u8);
    assert(s12 =~= seq![32u8, 108, 114, 112, 101, 112, 121, 104, 32, 32, 118, 114]);
}

proof fn lemma_vmware_hash()
    ensures
        fnv1_of(seq![86u8, 77, 119, 97, 114, 101, 86, 77, 119, 97, 114, 101]) == VMWARE_HASH,
{
    assert(
        (0x050c5d1fu32 ^ 86u32 == 0x050c5d49u32)
        && (0x3b76d9ebu32 ^ 77u32 == 0x3b76d9a6u32)
        && (0x4218a052u32 ^ 119u32 == 0x4218a025u32)
        && (0x31c41a3fu32 ^ 97u32 == 0x31c41a5eu32)
        && (0xb5b581fau32 ^ 114u32 == 0xb5b58188u32)
        && (0x94bae918u32 ^ 101u32 == 0x94bae97du32)
        && (0x9f3d8fc7u32 ^ 86u32 == 0x9f3d8f91u32)
        && (0x3ee90143u32 ^ 77u32 == 0x3ee9010eu32)
        && (0x16cca90au32 ^ 119u32 == 0x16cca97du32)
        && (0x612ecfc7u32 ^ 97u32 == 0x612ecfa6u32)
        && (0xa2b0e252u32 ^ 114u32 == 0xa2b0e220u32)
        && (0x3c73f860u32 ^ 101u32 == 0x3c73f805u32)
    ) by (bit_vector);
    let s0 = Seq::<u8>::empty();
    lemma_fnv1_push(s0, 86u8, 0x811c9dc5, 0x050c5d1f, 0x050c5d49);
    let s1 = s0.push(86u8);
    lemma_fnv1_push(s1, 77u8, 0x050c5d49, 0x3b76d9eb, 0x3b76d9a6);
    let s2 = s1.push(77u8);
    lemma_fnv1_push(s2, 119u8, 0x3b76d9a6, 0x4218a052, 0x4218a025);
    let s3 = s2.push(119u8);
    lemma_fnv1_push(s3, 97u8, 0x4218a025, 0x31c41a3f, 0x31c41a5e);
    let s4 = s3.push(97u8);
    lemma_fnv1_push(s4, 114u8, 0x31c41a5e, 0xb5b581fa, 0xb5b58188);
    let s5 = s4.push(114u8);
    lemma_fnv1_push(s5, 101u8, 0xb5b58188, 0x94bae918, 0x94bae97d);
    let s6 = s5.push(101u8);
    lemma_fnv1_push(s6, 86u8, 0x94bae97d, 0x9f3d8fc7, 0x9f3d8f91);
    let s7 = s6.push(86u8);
    lemma_fnv1_push(s7, 77u8, 0x9f3d8f91, 0x3ee90143, 0x3ee9010e);
    let s8 = s7.push(77u8);
    lemma_fnv1_push(s8, 119u8, 0x3ee9010e, 0x16cca90a, 0x16cca97d);
    let s9 = s8.push(119u8);
    lemma_fnv1_push(s9, 97u8, 0x16cca97d, 0x612ecfc7, 0x612ecfa6);
    let s10 = s9.push(97u8);
    lemma_fnv1_push(s10, 114u8, 0x612ecfa6, 0xa2b0e252, 0xa2b0e220);
    let s11 = s10.push(114u8);
    lemma_fnv1_push(s11, 101u8, 0xa2b0e220, 0x3c73f860, 0x3c73f805);
    let s12 = s11.push(101u8);
    assert(s12 =~= seq![86u8, 77, 119, 97, 114, 101, 86, 77, 119, 97, 114, 101]);
}

proof fn lemma_xen_hash()
    ensures
        fnv1_of(seq![88u8, 101, 110, 86, 77, 77, 88, 101, 110, 86, 77, 77]) == XEN_HASH,
{
    assert(
        (0x050c5d1fu32 ^ 88u32 == 0x050c5d47u32)
        && (0x3976d6c5u32 ^ 101u32 == 0x3976d6a0u32)
        && (0x1613dde0u32 ^ 110u32 == 0x1613dd8eu32)
        && (0x4f45c68au32 ^ 86u32 == 0x4f45c6dcu32)
        && (0xa6d80c54u32 ^ 77u32 == 0xa6d80c19u32)
        && (0xbf1b0b5bu32 ^ 77u32 == 0xbf1b0b16u32)
        && (0xed9273a2u32 ^ 88u32 == 0xed9273fau32)
        && (0xf78c928eu32 ^ 101u32 == 0xf78c92ebu32)
        && (0x9d4b47f1u32 ^ 110u32 == 0x9d4b479fu32)
        && (0x3c81bf4du32 ^ 86u32 == 0x3c81bf1bu32)
        && (0x5b3fd781u32 ^ 77u32 == 0x5b3fd7ccu32)
        && (0x7180b624u32 ^ 77u32 == 0x7180b669u32)
    ) by (bit_vector);
    let s0 = Seq::<u8>::empty();
    lemma_fnv1_push(s0, 88u8, 0x811c9dc5, 0x050c5d1f, 0x050c5d47);
    let s1 = s0.push(88u8);
    lemma_fnv1_push(s1, 101u8, 0x050c5d47, 0x3976d6c5, 0x3976d6a0);
    let s2 = s1.push(101u8);
    lemma_fnv1_push(s2, 110u8, 0x3976d6a0, 0x1613dde0, 0x1613dd8e);
    let s3 = s2.push(110u8);
    lemma_fnv1_push(s3, 86u8, 0x1613dd8e, 0x4f45c68a, 0x4f45c6dc);
    let s4 = s3.push(86u8);
    lemma_fnv1_push(s4, 77u8, 0x4f45c6dc, 0xa6d80c54, 0xa6d80c19);
    let s5 = s4.push(77u8);
    lemma_fnv1_push(s5, 77u8, 0xa6d80c19, 0xbf1b0b5b, 0xbf1b0b16);
    let s6 = s5.push(77u8);
    lemma_fnv1_push(s6, 88u8, 0xbf1b0b16, 0xed9273a2, 0xed9273fa);
    let s7 = s6.push(88u8);
    lemma_fnv1_push(s7, 101u8, 0xed9273fa, 0xf78c928e, 0xf78c92eb);
    let s8 = s7.push(101u8);
    lemma_fnv1_push(s8, 110u8, 0xf78c92eb, 0x9d4b47f1, 0x9d4b479f);
    let s9 = s8.push(110u8);
    lemma_fnv1_push(s9, 86u8, 0x9d4b479f, 0x3c81bf4d, 0x3c81bf1b);
    let s10 = s9.push(86u8);
    lemma_fnv1_push(s10, 77u8, 0x3c81bf1b, 0x5b3fd781, 0x5b3fd7cc);
    let s11 = s10.push(77u8);
    lemma_fnv1_push(s11, 77u8, 0x5b3fd7cc, 0x7180b624, 0x7180b669);
    let s12 = s11.push(77u8);
    assert(s12 =~= seq![88u8, 101, 110, 86, 77, 77, 88, 101, 110, 86, 77, 77]);
}

proof fn lemma_intel_hash()
    ensures
        fnv1_of(seq![71u8, 101, 110, 117, 105, 110, 101, 73, 110, 116, 101, 108]) == INTEL_HASH,
{
    assert(
        (0x050c5d1fu32 ^ 71u32 == 0x050c5d58u32)
        && (0x4a76f188u32 ^ 101u32 == 0x4a76f1edu32)
        && (0x263ed817u32 ^ 110u32 == 0x263ed879u32)
        && (0xadeec67bu32 ^ 117u32 == 0xadeec60eu32)
        && (0xdce1c80au32 ^ 105u32 == 0xdce1c863u32)
        && (0x1a6e73d9u32 ^ 110u32 == 0x1a6e73b7u32)
        && (0x52e02915u32 ^ 101u32 == 0x52e02970u32)
        && (0xe6e13b50u32 ^ 73u32 == 0xe6e13b19u32)
        && (0x8d90085bu32 ^ 110u32 == 0x8d900835u32)
        && (0x0ebceb6fu32 ^ 116u32 == 0x0ebceb1bu32)
        && (0x4e661b81u32 ^ 101u32 == 0x4e661be4u32)
        && (0x4ebde7ecu32 ^ 108u32 == 0x4ebde780u32)
    ) by (bit_vector);
    let s0 = Seq::<u8>::empty();
    lemma_fnv1_push(s0, 71u8, 0x811c9dc5, 0x050c5d1f, 0x050c5d58);
    let s1 = s0.push(71u8);
    lemma_fnv1_push(s1, 101u8, 0x050c5d58, 0x4a76f188, 0x4a76f1ed);
    let s2 = s1.push(101u8);
    lemma_fnv1_push(s2, 110u8, 0x4a76f1ed, 0x263ed817, 0x263ed879);
    let s3 = s2.push(110u8);
    lemma_fnv1_push(s3, 117u8, 0x263ed879, 0xadeec67b, 0xadeec60e);
    let s4 = s3.push(117u8);
    lemma_fnv1_push(s4, 105u8, 0xadeec60e, 0xdce1c80a, 0xdce1c863);
    let s5 = s4.push(105u8);
    lemma_fnv1_push(s5, 110u8, 0xdce1c863, 0x1a6e73d9, 0x1a6e73b7);
    let s6 = s5.push(110u8);
    lemma_fnv1_push(s6, 101u8, 0x1a6e73b7, 0x52e02915, 0x52e02970);
    let s7 = s6.push(101u8);
    lemma_fnv1_push(s7, 73u8, 0x52e02970, 0xe6e13b50, 0xe6e13b19);
    let s8 = s7.push(73u8);
    lemma_fnv1_push(s8, 110u8, 0xe6e13b19, 0x8d90085b, 0x8d900835);
    let s9 = s8.push(110u8);
    lemma_fnv1_push(s9, 116u8, 0x8d900835, 0x0ebceb6f, 0x0ebceb1b);
    let s10 = s9.push(116u8);
    lemma_fnv1_push(s10, 101u8, 0x0ebceb1b, 0x4e661b81, 0x4e661be4);
    let s11 = s10.push(101u8);
    lemma_fnv1_push(s11, 108u8, 0x4e661be4, 0x4ebde7ec, 0x4ebde780);
    let s12 = s11.push(108u8);
    assert(s12 =~= seq![71u8, 101, 110, 117, 105, 110, 101, 73, 110, 116, 101, 108]);
}

proof fn lemma_amd_hash()
    ensures
        fnv1_of(seq![65u8, 117, 116, 104, 101, 110, 116, 105, 99, 65, 77, 68]) == AMD_HASH,
{
    assert(
        (0x050c5d1fu32 ^ 65u32 == 0x050c5d5eu32)
        && (0x5076fafau32 ^ 117u32 == 0x5076fa8fu32)
        && (0x3a4c6f1du32 ^ 116u32 == 0x3a4c6f69u32)
        && (0x2f53624bu32 ^ 104u32 == 0x2f536223u32)
        && (0xa3437d19u32 ^ 101u32 == 0xa3437d7cu32)
        && (0x7f3e8a34u32 ^ 110u32 == 0x7f3e8a5au32)
        && (0xa973cbaeu32 ^ 116u32 == 0xa973cbdau32)
        && (0x9b49e82eu32 ^ 105u32 == 0x9b49e847u32)
        && (0xbc58a7c5u32 ^ 99u32 == 0xbc58a7a6u32)
        && (0x258fea52u32 ^ 65u32 == 0x258fea13u32)
        && (0x348d7be9u32 ^ 77u32 == 0x348d7ba4u32)
        && (0x5eb9a32cu32 ^ 68u32 == 0x5eb9a368u32)
    ) by (bit_vector);
    let s0 = Seq::<u8>::empty();
    lemma_fnv1_push(s0, 65u8, 0x811c9dc5, 0x050c5d1f, 0x050c5d5e);
    let s1 = s0.push(65u8);
    lemma_fnv1_push(s1, 117u8, 0x050c5d5e, 0x5076fafa, 0x5076fa8f);
    let s2 = s1.push(117u8);
    lemma_fnv1_push(s2, 116u8, 0x5076fa8f, 0x3a4c6f1d, 0x3a4c6f69);
    let s3 = s2.push(116u8);
    lemma_fnv1_push(s3, 104u8, 0x3a4c6f69, 0x2f53624b, 0x2f536223);
    let s4 = s3.push(104u8);
    lemma_fnv1_push(s4, 101u8, 0x2f536223, 0xa3437d19, 0xa3437d7c);
    let s5 = s4.push(101u8);
    lemma_fnv1_push(s5, 110u8, 0xa3437d7c, 0x7f3e8a34, 0x7f3e8a5a);
    let s6 = s5.push(110u8);
    lemma_fnv1_push(s6, 116u8, 0x7f3e8a5a, 0xa973cbae, 0xa973cbda);
    let s7 = s6.push(116u8);
    lemma_fnv1_push(s7, 105u8, 0xa973cbda, 0x9b49e82e, 0x9b49e847);
    let s8 = s7.push(105u8);
    lemma_fnv1_push(s8, 99u8, 0x9b49e847, 0xbc58a7c5, 0xbc58a7a6);
    let s9 = s8.push(99u8);
    lemma_fnv1_push(s9, 65u8, 0xbc58a7a6, 0x258fea52, 0x258fea13);
    let s10 = s9.push(65u8);
    lemma_fnv1_push(s10, 77u8, 0x258fea13, 0x348d7be9, 0x348d7ba4);
    let s11 = s10.push(77u8);
    lemma_fnv1_push(s11, 68u8, 0x348d7ba4, 0x5eb9a32c, 0x5eb9a368);
    let s12 = s11.push(68u8);
    assert(s12 =~= seq![65u8, 117, 116, 104, 101, 110, 116, 105, 99, 65, 77, 68]);
}

/// Each constant of the signature tables is the hash of its identifier:
/// `"bhyve bhyve "`, `"KVMKVMKVM\0\0\0"`, `"TCGTCGTCGTCG"`, `"Microsoft Hv"`,
/// `" lrpepyh  vr"`, `"VMwareVMware"`, `"XenVMMXenVMM"`, `"GenuineIntel"` and
/// `"AuthenticAMD"`, each as its twelve bytes.
pub proof fn lemma_signature_hashes()
    ensures
        fnv1_of(seq![98u8, 104, 121, 118, 101, 32, 98, 104, 121, 118, 101, 32]) == BHYVE_HASH,
        fnv1_of(seq![75u8, 86, 77, 75, 86, 77, 75, 86, 77, 0, 0, 0]) == KVM_HASH,
        fnv1_of(seq![84u8, 67, 71, 84, 67, 71, 84, 67, 71, 84, 67, 71]) == TCG_HASH,
        fnv1_of(seq![77u8, 105, 99, 114, 111, 115, 111, 102, 116, 32, 72, 118]) == HYPERV_HASH,
        fnv1_of(seq![32u8, 108, 114, 112, 101, 112, 121, 104, 32, 32, 118, 114]) == PARALLELS_HASH,
        fnv1_of(seq![86u8, 77, 119, 97, 114, 101, 86, 77, 119, 97, 114, 101]) == VMWARE_HASH,
        fnv1_of(seq![88u8, 101, 110, 86, 77, 77, 88, 101, 110, 86, 77, 77]) == XEN_HASH,
        fnv1_of(seq![71u8, 101, 110, 117, 105, 110, 101, 73, 110, 116, 101, 108]) == INTEL_HASH,
        fnv1_of(seq![65u8, 117, 116, 104, 101, 110, 116, 105, 99, 65, 77, 68]) == AMD_HASH,
{
    lemma_bhyve_hash();
    lemma_kvm_hash();
    lemma_tcg_hash();
    lemma_hyperv_hash();
    lemma_parallels_hash();
    lemma_vmware_hash();
    lemma_xen_hash();
    lemma_intel_hash();
    lemma_amd_hash();
}

} // verus!

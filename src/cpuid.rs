use vstd::prelude::*;

verus! {

/// The four output registers of one execution of the identification instruction.
#[derive(Clone, Copy, Debug, PartialEq, Eq, Structural)]
pub struct CpuidRegs {
    pub eax: u32,
    pub ebx: u32,
    pub ecx: u32,
    pub edx: u32,
}

/// Leaf that reports the CPU vendor identifier.
pub const VENDOR_LEAF: u32 = 0;

/// Leaf that reports the feature flags.
pub const FEATURE_LEAF: u32 = 1;

/// Leaf that reports the hypervisor vendor identifier.
pub const HYPERVISOR_LEAF: u32 = 0x4000_0000;

/// One execution of the identification instruction: the registers it
/// returned and the leaf it was run for. Only `cpuid_read` makes one.
pub struct CpuidRead {
    regs: CpuidRegs,
    leaf: Ghost<u32>,
}

impl CpuidRead {
    /// The registers the processor returned.
    pub closed spec fn view_regs(&self) -> CpuidRegs {
        self.regs
    }

    /// The leaf the instruction was run for.
    pub closed spec fn leaf(&self) -> u32 {
        self.leaf@
    }

    /// The registers the processor returned.
    pub fn regs(&self) -> (r: CpuidRegs)
        ensures
            r == self.view_regs(),
    {
        self.regs
    }
}

/// Runs the identification instruction for `leaf`, sub-leaf 0, and records
/// the leaf with the registers.
///
/// Relies on `core::arch::x86_64::__cpuid`, which always completes; what it
/// returns depends on the processor, so nothing is stated of the registers.
#[verifier::external_body]
pub fn cpuid_read(leaf: u32) -> (r: CpuidRead)
    ensures
        r.leaf() == leaf,
{
    let out = core::arch::x86_64::__cpuid(leaf);
    let regs = CpuidRegs { eax: out.eax, ebx: out.ebx, ecx: out.ecx, edx: out.edx };
    CpuidRead { regs, leaf: Ghost(leaf) }
}

/// The four bytes of `x`, least significant first.
pub open spec fn le_bytes(x: u32) -> Seq<u8> {
    seq![
        (x % 0x100) as u8,
        (x / 0x100 % 0x100) as u8,
        (x / 0x1_0000 % 0x100) as u8,
        (x / 0x100_0000) as u8,
    ]
}

/// A 12-byte identifier made of three registers in the given order.
pub open spec fn identifier_of(a: u32, b: u32, c: u32) -> Seq<u8> {
    le_bytes(a) + le_bytes(b) + le_bytes(c)
}

/// Lays out three registers, each little-endian, as a 12-byte identifier.
pub fn identifier(a: u32, b: u32, c: u32) -> (r: [u8; 12])
    ensures
        r@ == identifier_of(a, b, c),
{
    let r = [
        (a % 0x100) as u8,
        (a / 0x100 % 0x100) as u8,
        (a / 0x1_0000 % 0x100) as u8,
        (a / 0x100_0000) as u8,
        (b % 0x100) as u8,
        (b / 0x100 % 0x100) as u8,
        (b / 0x1_0000 % 0x100) as u8,
        (b / 0x100_0000) as u8,
        (c % 0x100) as u8,
        (c / 0x100 % 0x100) as u8,
        (c / 0x1_0000 % 0x100) as u8,
        (c / 0x100_0000) as u8,
    ];
    assert(r@ =~= identifier_of(a, b, c));
    r
}

/// The CPU vendor identifier of leaf 0: ebx, edx, ecx in that order.
pub fn cpu_vendor_id(leaf0: &CpuidRegs) -> (r: [u8; 12])
    ensures
        r@ == identifier_of(leaf0.ebx, leaf0.edx, leaf0.ecx),
{
    identifier(leaf0.ebx, leaf0.edx, leaf0.ecx)
}

/// The hypervisor vendor identifier of the hypervisor leaf: ebx, ecx, edx in
/// that order.
pub fn hypervisor_vendor_id(leaf: &CpuidRegs) -> (r: [u8; 12])
    ensures
        r@ == identifier_of(leaf.ebx, leaf.ecx, leaf.edx),
{
    identifier(leaf.ebx, leaf.ecx, leaf.edx)
}

} // verus!

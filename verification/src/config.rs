//! Guest configuration: the runtime parameters the guest asks the host
//! for, the captured guest output, and the host functions to register.

use vstd::prelude::*;

use crate::mount::{kernel_cmdline, build_cmdline, Mount};
use crate::text::opt_str;

verus! {

/// GPA where the initrd is mapped.
///
/// Past the x86 LAPIC MMIO page (0xFEE0_0000) to avoid collisions with
/// KVM's in-kernel IRQCHIP reservation.
pub const INITRD_MAP_BASE: u64 = 0xFEF0_0000;

/// Default scratch memory budget in MiB.
///
/// The frame allocator gets 75% of this; the rest covers CoW faults and
/// boot overhead.  Large rootfs images need more (e.g. Node's 100 MiB
/// binary needs ~512 MiB).
pub const DEFAULT_SCRATCH_MB: usize = 256;

/// Bytes in a MiB.
pub const MIB: usize = 1024 * 1024;

/// PEB I/O stack size for host-call data transfer.
///
/// Both the input stack (host→guest results) and output stack (guest→host
/// calls) must hold a FlatBuffer-encoded message.  The guest's generic
/// hcall encoder buffer is 64 KiB, plus headroom for the stack header
/// (8 bytes) and alignment padding.
pub const IO_STACK_SIZE: usize = 65536 + 4096;

/// PEB heap size (only needed for the boot stack).
pub const HEAP_SIZE: u64 = 0x10_0000;

/// OCI tag used when saving/loading snapshots to disk.
pub const SNAPSHOT_TAG: &'static str = "latest";

/// Scratch memory in bytes for a budget in MiB.
pub fn scratch_bytes(scratch_mb: usize) -> (r: usize)
    requires
        scratch_mb * MIB <= usize::MAX,
    ensures
        r == scratch_mb * MIB,
{
    scratch_mb * MIB
}

/// The top of scratch memory in guest virtual address space.
///
/// Trusted wrapper of `hyperlight_common::layout::SCRATCH_TOP_GVA`, which is
/// `0xffff_ffff_ffff_efff` on x86-64 and `0x0000_ffff_ffff_dfff` on aarch64
/// (the only targets it is defined for).
#[verifier::external_body]
fn scratch_top_gva() -> (r: u64)
    ensures
        r == 0xffff_ffff_ffff_efffu64 || r == 0x0000_ffff_ffff_dfffu64,
{
    hyperlight_common::layout::SCRATCH_TOP_GVA as u64
}

/// The offset of the exception stack below the top of scratch memory.
///
/// Trusted wrapper of `hyperlight_common::layout::SCRATCH_TOP_EXN_STACK_OFFSET`,
/// which the crate asserts at compile time to be `0x70`.
#[verifier::external_body]
fn scratch_top_exn_stack_offset() -> (r: u64)
    ensures
        r == 0x70,
{
    hyperlight_common::layout::SCRATCH_TOP_EXN_STACK_OFFSET
}

/// The exception stack top for the target's scratch layout (x86-64 or
/// aarch64): the top of scratch, less the exception-stack offset, plus one.
pub open spec fn is_exn_stack_top(v: u64) -> bool {
    v == 0xffff_ffff_ffff_efffu64 - 0x70 + 1 || v == 0x0000_ffff_ffff_dfffu64 - 0x70 + 1
}

/// The guest's scratch-memory layout, read once from the target's layout
/// constants: it fixes where the exception stack tops out.
pub struct ScratchLayout {
    exn_stack_top: u64,
}

impl View for ScratchLayout {
    type V = u64;

    /// The exception stack top.
    closed spec fn view(&self) -> u64 {
        self.exn_stack_top
    }
}

impl ScratchLayout {
    #[verifier::type_invariant]
    closed spec fn valid(self) -> bool {
        is_exn_stack_top(self.exn_stack_top)
    }

    /// The layout of the build target: the top of scratch, less the
    /// exception-stack offset, plus one.
    pub fn current() -> (l: Self)
        ensures
            is_exn_stack_top(l@),
    {
        ScratchLayout { exn_stack_top: scratch_top_gva() - scratch_top_exn_stack_offset() + 1 }
    }

    /// Top of the exception stack in guest virtual address space.
    pub fn exn_stack_top(&self) -> (r: u64)
        ensures
            r == self@,
            is_exn_stack_top(r),
    {
        proof {
            use_type_invariant(self);
        }
        self.exn_stack_top
    }
}

/// A host function the guest calls, with the value it answers where that
/// value is fixed at registration time.
pub enum HostFunction {
    /// `HostPrint(msg)`: write guest output (uncoloured) and capture it.
    HostPrint,
    /// `GetCmdLine()`: the kernel command line.
    GetCmdLine(String),
    /// `GetPagingBudget()`: scratch bytes for the paging frame allocator.
    GetPagingBudget(u64),
    /// `GetInitrdBase()`: GPA of the mapped initrd.
    GetInitrdBase(u64),
    /// `GetInitrdSize()`: size of the mapped initrd.
    GetInitrdSize(u64),
    /// `GetExnStackTop()`: top of the exception stack.
    GetExnStackTop(u64),
    /// `GetWallClockNs()`: host wall-clock time in nanoseconds.
    GetWallClockNs,
    /// `GetHostFsChunkSize()`: the host filesystem transfer chunk size.
    GetHostFsChunkSize,
    /// The host filesystem functions serving the configured mounts.
    HostFs,
    /// The `net_*` networking functions.
    HostNet,
}

/// Guest output captured by `HostPrint`, waiting to be drained.
pub struct CapturedOutput {
    text: String,
}

impl View for CapturedOutput {
    type V = Seq<char>;

    closed spec fn view(&self) -> Seq<char> {
        self.text@
    }
}

impl CapturedOutput {
    /// An empty buffer.
    pub fn new() -> (b: Self)
        ensures
            b@ == Seq::<char>::empty(),
    {
        CapturedOutput { text: String::new() }
    }

    /// Append a piece of output.
    pub fn push(&mut self, msg: &str)
        ensures
            final(self)@ == old(self)@ + msg@,
    {
        self.text.append(msg);
    }

    /// Take everything captured so far, leaving the buffer empty.
    pub fn take(&mut self) -> (r: String)
        ensures
            r@ == old(self)@,
            final(self)@ == Seq::<char>::empty(),
    {
        let mut out = String::new();
        std::mem::swap(&mut out, &mut self.text);
        out
    }
}

/// Runtime parameters for the guest's host functions.
///
/// Built once during sandbox setup, then used to register identical host
/// functions for both the init and snapshot-restore paths.  `N` is the
/// network access policy (`None` = networking disabled) and `L` the set of
/// ports the guest may `bind()` for inbound connections.
pub struct GuestConfig<N, L> {
    pub cmdline: String,
    pub scratch_size: usize,
    pub initrd_base: u64,
    pub initrd_size: u64,
    /// Host filesystem mounts.
    pub mounts: Vec<Mount>,
    /// Network access policy (`None` = networking disabled).
    pub network: Option<N>,
    /// Ports the guest is allowed to `bind()` for inbound connections.
    pub listen_ports: Option<L>,
    /// Captured guest stdout, accumulated by `HostPrint`.
    pub output: CapturedOutput,
    /// The scratch layout the guest's fixed addresses come from.
    pub layout: ScratchLayout,
}

impl<N, L> GuestConfig<N, L> {
    /// The guest output captured since it was last drained.
    pub open spec fn captured(&self) -> Seq<char> {
        self.output@
    }

    /// A configuration with the given parameters and no captured output.
    pub fn new(
        cmdline: String,
        scratch_size: usize,
        initrd_base: u64,
        initrd_size: u64,
        mounts: Vec<Mount>,
        network: Option<N>,
        listen_ports: Option<L>,
    ) -> (c: Self)
        ensures
            c.cmdline == cmdline,
            c.scratch_size == scratch_size,
            c.initrd_base == initrd_base,
            c.initrd_size == initrd_size,
            c.mounts == mounts,
            c.network == network,
            c.listen_ports == listen_ports,
            c.captured() == Seq::<char>::empty(),
            is_exn_stack_top(c.layout@),
    {
        GuestConfig {
            cmdline,
            scratch_size,
            initrd_base,
            initrd_size,
            mounts,
            network,
            listen_ports,
            output: CapturedOutput::new(),
            layout: ScratchLayout::current(),
        }
    }

    /// The configuration a fresh sandbox boots with.
    ///
    /// Scratch memory is `scratch_mb` MiB; an initrd mapped with
    /// `initrd_size` bytes sits at [`INITRD_MAP_BASE`] (base and size are 0
    /// without one); the command line carries the mounts' fstab and the
    /// entry point (see [`kernel_cmdline`]).
    pub fn boot(
        scratch_mb: usize,
        initrd_size: Option<u64>,
        entry: &Option<String>,
        mounts: Vec<Mount>,
        network: Option<N>,
        listen_ports: Option<L>,
    ) -> (c: Self)
        requires
            scratch_mb * MIB <= usize::MAX,
        ensures
            c.cmdline@ == kernel_cmdline(mounts@, opt_str(*entry)),
            c.scratch_size == scratch_mb * MIB,
            c.initrd_base == (if initrd_size is Some {
                INITRD_MAP_BASE
            } else {
                0
            }),
            c.initrd_size == (match initrd_size {
                Some(n) => n,
                None => 0,
            }),
            c.mounts == mounts,
            c.network == network,
            c.listen_ports == listen_ports,
            c.captured() == Seq::<char>::empty(),
    {
        let scratch_size = scratch_bytes(scratch_mb);
        let (initrd_base, size) = match initrd_size {
            Some(n) => (INITRD_MAP_BASE, n),
            None => (0, 0),
        };
        let cmdline = build_cmdline(&mounts, entry);
        Self::new(cmdline, scratch_size, initrd_base, size, mounts, network, listen_ports)
    }

    /// The configuration for restoring a snapshot: the snapshot already
    /// holds the guest's command line and initrd, so those are empty, and
    /// scratch memory is the default budget.
    pub fn for_restore(mounts: Vec<Mount>, network: Option<N>, listen_ports: Option<L>) -> (c:
        Self)
        ensures
            c.cmdline@ == Seq::<char>::empty(),
            c.scratch_size == DEFAULT_SCRATCH_MB * MIB,
            c.initrd_base == 0,
            c.initrd_size == 0,
            c.mounts == mounts,
            c.network == network,
            c.listen_ports == listen_ports,
            c.captured() == Seq::<char>::empty(),
    {
        Self::new(String::new(), DEFAULT_SCRATCH_MB * MIB, 0, 0, mounts, network, listen_ports)
    }

    /// How much scratch memory to give the paging frame allocator (75%).
    pub fn paging_budget(&self) -> (r: u64)
        requires
            self.scratch_size * 3 <= u64::MAX,
        ensures
            r == self.scratch_size * 3 / 4,
    {
        (self.scratch_size as u64) * 3 / 4
    }

    /// Top of the exception stack in guest virtual address space.
    pub fn exn_stack_top(&self) -> (r: u64)
        ensures
            r == self.layout@,
            is_exn_stack_top(r),
    {
        self.layout.exn_stack_top()
    }

    /// Capture a piece of guest output; answers `HostPrint` with the
    /// message's length in bytes, converted to `i32` (truncating).
    pub fn record_output(&mut self, msg: &str) -> (r: i32)
        ensures
            final(self).captured() == old(self).captured() + msg@,
            final(self).cmdline == old(self).cmdline,
            final(self).scratch_size == old(self).scratch_size,
            final(self).initrd_base == old(self).initrd_base,
            final(self).initrd_size == old(self).initrd_size,
            final(self).mounts == old(self).mounts,
            final(self).network == old(self).network,
            final(self).listen_ports == old(self).listen_ports,
            final(self).layout == old(self).layout,
            r == msg.len() as i32,
    {
        self.output.push(msg);
        msg.len() as i32
    }

    /// Drain captured guest output, clearing the buffer.
    pub fn drain_output(&mut self) -> (r: String)
        ensures
            r@ == old(self).captured(),
            final(self).captured() == Seq::<char>::empty(),
            final(self).cmdline == old(self).cmdline,
            final(self).scratch_size == old(self).scratch_size,
            final(self).initrd_base == old(self).initrd_base,
            final(self).initrd_size == old(self).initrd_size,
            final(self).mounts == old(self).mounts,
            final(self).network == old(self).network,
            final(self).listen_ports == old(self).listen_ports,
            final(self).layout == old(self).layout,
    {
        self.output.take()
    }

    /// The host functions to register, in order: `HostPrint`, the five
    /// fixed-value getters (command line, paging budget, initrd base and
    /// size, exception stack top), `GetWallClockNs`, `GetHostFsChunkSize`,
    /// then the host filesystem functions when there are mounts and the
    /// networking functions when a network policy is set.
    pub fn registrations(&self) -> (r: Vec<HostFunction>)
        requires
            self.scratch_size * 3 <= u64::MAX,
        ensures
            r@.len() == 8 + (if self.mounts@.len() > 0 {
                1int
            } else {
                0
            }) + (if self.network is Some {
                1int
            } else {
                0
            }),
            r@[0] is HostPrint,
            r@[1] == HostFunction::GetCmdLine(self.cmdline),
            r@[2] == HostFunction::GetPagingBudget((self.scratch_size * 3 / 4) as u64),
            r@[3] == HostFunction::GetInitrdBase(self.initrd_base),
            r@[4] == HostFunction::GetInitrdSize(self.initrd_size),
            r@[5] == HostFunction::GetExnStackTop(self.layout@),
            is_exn_stack_top(self.layout@),
            r@[6] is GetWallClockNs,
            r@[7] is GetHostFsChunkSize,
            self.mounts@.len() > 0 ==> r@[8] is HostFs,
            self.network is Some ==> r@.last() is HostNet,
    {
        let mut r: Vec<HostFunction> = Vec::new();
        r.push(HostFunction::HostPrint);
        r.push(HostFunction::GetCmdLine(self.cmdline.clone()));
        r.push(HostFunction::GetPagingBudget(self.paging_budget()));
        r.push(HostFunction::GetInitrdBase(self.initrd_base));
        r.push(HostFunction::GetInitrdSize(self.initrd_size));
        r.push(HostFunction::GetExnStackTop(self.exn_stack_top()));
        r.push(HostFunction::GetWallClockNs);
        r.push(HostFunction::GetHostFsChunkSize);
        if self.mounts.len() > 0 {
            r.push(HostFunction::HostFs);
        }
        if self.network.is_some() {
            r.push(HostFunction::HostNet);
        }
        r
    }
}

} // verus!

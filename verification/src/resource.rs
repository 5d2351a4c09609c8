//! The resources that back an enclave: the handle of the privileged
//! interface, the enclave slots it hands out, and the memory regions that
//! are registered with a slot.
//!
//! The requests themselves are issued by the caller. What is decided here is
//! whether a request may be issued at all, and what the answer of the
//! interface means. An answer is an integer, and a negative one is a
//! refusal.

use crate::fatal::FatalError;
use vstd::prelude::*;
use vstd::string::*;

verus! {

/// The size of the pages that back a memory region: 2 MiB.
pub const HUGE_PAGE_SIZE: u64 = 0x20_0000;

/// Why a resource operation failed.
#[derive(Clone, Copy, Debug, PartialEq, Eq, Structural)]
pub enum ResourceError {
    /// The privileged interface could not be opened.
    DeviceUnavailable { code: i32 },
    /// The interface refused to hand out an enclave slot.
    SlotAllocationFailed { code: i32 },
    /// The enclave instance owns no slot any more.
    NotOwned,
    /// A memory region cannot start at address zero.
    NullAddress,
    /// The address is not a multiple of the page size.
    UnalignedAddress { address: u64 },
    /// The size is zero, is not a multiple of the page size, or reaches
    /// beyond the end of the address space.
    InvalidSize { size: u64 },
    /// The request names another size than the region has.
    SizeMismatch { requested: u64, expected: u64 },
    /// The request names another address than the region has.
    AddressMismatch { requested: u64, expected: u64 },
    /// The region shares memory with the one registered under this slot.
    Overlap { slot: u32 },
    /// The interface refused to register the region under this slot.
    Rejected { slot: u32, code: i32 },
    /// The interface accepted a registration under a slot that is taken.
    SlotTaken { slot: u32 },
}

impl ResourceError {
    /// The text that describes this error.
    pub open spec fn text(self) -> Seq<char> {
        match self {
            ResourceError::DeviceUnavailable { .. } => "could not open the enclave device"@,
            ResourceError::SlotAllocationFailed { .. } => "could not create an enclave slot"@,
            ResourceError::NotOwned => "the enclave instance owns no slot"@,
            ResourceError::NullAddress => "the memory region has no address"@,
            ResourceError::UnalignedAddress { .. } => "the address is not page-aligned"@,
            ResourceError::InvalidSize { .. } => "the size is not a positive number of pages"@,
            ResourceError::SizeMismatch { .. } => {
                "the requested size is not the size of the region"@
            },
            ResourceError::AddressMismatch { .. } => {
                "the requested address is not the address of the region"@
            },
            ResourceError::Overlap { .. } => "the memory region overlaps a registered one"@,
            ResourceError::Rejected { .. } => "could not add the memory region"@,
            ResourceError::SlotTaken { .. } => "the slot holds a memory region already"@,
        }
    }

    /// Describes this error in words. The numbers are in the fields.
    pub fn message(&self) -> (text: String)
        ensures
            text@ == self.text(),
    {
        match self {
            ResourceError::DeviceUnavailable { .. } => String::from_str(
                "could not open the enclave device",
            ),
            ResourceError::SlotAllocationFailed { .. } => String::from_str(
                "could not create an enclave slot",
            ),
            ResourceError::NotOwned => String::from_str("the enclave instance owns no slot"),
            ResourceError::NullAddress => String::from_str("the memory region has no address"),
            ResourceError::UnalignedAddress { .. } => String::from_str(
                "the address is not page-aligned",
            ),
            ResourceError::InvalidSize { .. } => String::from_str(
                "the size is not a positive number of pages",
            ),
            ResourceError::SizeMismatch { .. } => String::from_str(
                "the requested size is not the size of the region",
            ),
            ResourceError::AddressMismatch { .. } => String::from_str(
                "the requested address is not the address of the region",
            ),
            ResourceError::Overlap { .. } => String::from_str(
                "the memory region overlaps a registered one",
            ),
            ResourceError::Rejected { .. } => String::from_str("could not add the memory region"),
            ResourceError::SlotTaken { .. } => String::from_str(
                "the slot holds a memory region already",
            ),
        }
    }
}

/// Whether `address` is a multiple of the page size.
pub open spec fn is_aligned(address: u64) -> bool {
    address % HUGE_PAGE_SIZE == 0
}

/// What is wrong with a block of memory at `base` of `size` bytes, if
/// anything is.
pub open spec fn region_fault(base: u64, size: u64) -> Option<ResourceError> {
    if base == 0 {
        Some(ResourceError::NullAddress)
    } else if !is_aligned(base) {
        Some(ResourceError::UnalignedAddress { address: base })
    } else if size == 0 || size % HUGE_PAGE_SIZE != 0 || base + size > u64::MAX {
        Some(ResourceError::InvalidSize { size })
    } else {
        None
    }
}

/// A request to register memory with an enclave slot, as the interface
/// takes it.
#[derive(Clone, Copy, Debug, PartialEq, Eq, Structural)]
pub struct RegionRequest {
    /// The index under which the region is registered.
    pub slot: u32,
    /// Flags of the registration; none is defined.
    pub flags: u32,
    /// Where the region starts in the address space of the enclave.
    pub guest_phys_addr: u64,
    /// The number of bytes to register.
    pub memory_size: u64,
    /// Where the region starts in the address space of the caller.
    pub userspace_addr: u64,
}

/// What a [`MemoryRegion`] stands for.
pub ghost struct RegionView {
    /// The address of the first byte.
    pub base: u64,
    /// The number of bytes.
    pub size: u64,
}

impl RegionView {
    /// Whether a block of these bounds is a region. Every [`MemoryRegion`]
    /// stands for such a block.
    pub open spec fn valid(self) -> bool {
        region_fault(self.base, self.size) is None
    }

    /// The request that registers exactly this region under `slot`.
    pub open spec fn request(self, slot: u32) -> RegionRequest {
        RegionRequest {
            slot,
            flags: 0,
            guest_phys_addr: 0,
            memory_size: self.size,
            userspace_addr: self.base,
        }
    }

    /// What is wrong with `request` as a request for this region, if
    /// anything is. The address is looked at first, then the size.
    pub open spec fn request_fault(self, request: RegionRequest) -> Option<ResourceError> {
        if !is_aligned(request.userspace_addr) {
            Some(ResourceError::UnalignedAddress { address: request.userspace_addr })
        } else if request.memory_size != self.size {
            Some(
                ResourceError::SizeMismatch { requested: request.memory_size, expected: self.size },
            )
        } else if request.userspace_addr != self.base {
            Some(
                ResourceError::AddressMismatch {
                    requested: request.userspace_addr,
                    expected: self.base,
                },
            )
        } else {
            None
        }
    }
}

/// A block of pinned memory, backed by pages of [`HUGE_PAGE_SIZE`] bytes.
///
/// It starts on a page boundary, not at zero, and holds a positive number
/// of whole pages.
#[derive(Debug)]
pub struct MemoryRegion {
    base_address: u64,
    size_bytes: u64,
}

impl View for MemoryRegion {
    type V = RegionView;

    closed spec fn view(&self) -> RegionView {
        RegionView { base: self.base_address, size: self.size_bytes }
    }
}

impl MemoryRegion {
    #[verifier::type_invariant]
    closed spec fn geometry_holds(&self) -> bool {
        region_fault(self.base_address, self.size_bytes) is None
    }

    /// Describes a block of memory that the caller has mapped and pinned.
    /// Refused where the block is not a region: see [`region_fault`].
    pub fn new(base_address: u64, size_bytes: u64) -> (made: Result<Self, ResourceError>)
        ensures
            made is Ok <==> region_fault(base_address, size_bytes) is None,
            made is Ok ==> made->Ok_0@ == (RegionView { base: base_address, size: size_bytes }),
            made is Err ==> Some(made->Err_0) == region_fault(base_address, size_bytes),
    {
        if base_address == 0 {
            Err(ResourceError::NullAddress)
        } else if base_address % HUGE_PAGE_SIZE != 0 {
            Err(ResourceError::UnalignedAddress { address: base_address })
        } else if size_bytes == 0 || size_bytes % HUGE_PAGE_SIZE != 0 || size_bytes > u64::MAX
            - base_address {
            Err(ResourceError::InvalidSize { size: size_bytes })
        } else {
            Ok(MemoryRegion { base_address, size_bytes })
        }
    }

    /// Returns the address of the first byte.
    pub fn mem_addr(&self) -> (address: u64)
        ensures
            address == self@.base,
            self@.valid(),
    {
        proof {
            use_type_invariant(self);
        }
        self.base_address
    }

    /// Returns the number of bytes.
    pub fn mem_size(&self) -> (size: u64)
        ensures
            size == self@.size,
            self@.valid(),
    {
        proof {
            use_type_invariant(self);
        }
        self.size_bytes
    }

    /// Makes the request that registers exactly this region under `slot`.
    pub fn request(&self, slot: u32) -> (request: RegionRequest)
        ensures
            request == self@.request(slot),
            self@.valid(),
            self@.request_fault(request) is None,
    {
        proof {
            use_type_invariant(self);
        }
        RegionRequest {
            slot,
            flags: 0,
            guest_phys_addr: 0,
            memory_size: self.size_bytes,
            userspace_addr: self.base_address,
        }
    }

    /// Holds `request` against this region. Only a request that names the
    /// address and the size of the region may be issued.
    pub fn check_request(&self, request: &RegionRequest) -> (checked: Result<(), ResourceError>)
        ensures
            checked is Ok <==> self@.request_fault(*request) is None,
            checked is Err ==> Some(checked->Err_0) == self@.request_fault(*request),
    {
        if request.userspace_addr % HUGE_PAGE_SIZE != 0 {
            Err(ResourceError::UnalignedAddress { address: request.userspace_addr })
        } else if request.memory_size != self.size_bytes {
            Err(
                ResourceError::SizeMismatch {
                    requested: request.memory_size,
                    expected: self.size_bytes,
                },
            )
        } else if request.userspace_addr != self.base_address {
            Err(
                ResourceError::AddressMismatch {
                    requested: request.userspace_addr,
                    expected: self.base_address,
                },
            )
        } else {
            Ok(())
        }
    }
}

/// The open privileged interface.
#[derive(Debug)]
pub struct ResourceHandle {
    driver_fd: i32,
}

impl ResourceHandle {
    #[verifier::type_invariant]
    closed spec fn descriptor_is_open(&self) -> bool {
        self.driver_fd >= 0
    }

    /// The descriptor of the interface.
    pub closed spec fn fd(&self) -> i32 {
        self.driver_fd
    }

    /// Takes what opening the interface device returned: its descriptor, or
    /// a negative number where the device is absent or out of reach.
    pub fn open(opened: i32) -> (handle: Result<Self, ResourceError>)
        ensures
            handle is Ok <==> opened >= 0,
            handle is Ok ==> handle->Ok_0.fd() == opened,
            handle is Err ==> handle->Err_0 == (ResourceError::DeviceUnavailable { code: opened }),
    {
        if opened < 0 {
            Err(ResourceError::DeviceUnavailable { code: opened })
        } else {
            Ok(ResourceHandle { driver_fd: opened })
        }
    }

    /// Returns the descriptor to issue requests on. It is never negative.
    pub fn driver_fd(&self) -> (fd: i32)
        ensures
            fd == self.fd(),
            fd >= 0,
    {
        proof {
            use_type_invariant(self);
        }
        self.driver_fd
    }

    /// Takes the answer of the interface to a request for an enclave slot:
    /// the descriptor of the slot, or a negative number where none could be
    /// had. One handle may hand out many slots.
    pub fn create_enclave(&self, answer: i32) -> (created: Result<EnclaveInstance, ResourceError>)
        ensures
            created is Ok <==> answer >= 0,
            created is Ok ==> created->Ok_0@ == InstanceView::fresh(answer),
            created is Err ==> created->Err_0 == (ResourceError::SlotAllocationFailed {
                code: answer,
            }),
    {
        if answer < 0 {
            Err(ResourceError::SlotAllocationFailed { code: answer })
        } else {
            Ok(EnclaveInstance::new(answer))
        }
    }
}

/// Whether the memory of two requests has a byte in common.
pub open spec fn spans_overlap(a: RegionRequest, b: RegionRequest) -> bool {
    &&& a.memory_size > 0
    &&& b.memory_size > 0
    &&& a.userspace_addr < b.userspace_addr + b.memory_size
    &&& b.userspace_addr < a.userspace_addr + a.memory_size
}

/// What an [`EnclaveInstance`] stands for.
pub ghost struct InstanceView {
    /// The descriptor of the slot; negative where no slot is owned.
    pub fd: i32,
    /// The registrations that stand, oldest first.
    pub regions: Seq<RegionRequest>,
}

impl InstanceView {
    /// An instance on descriptor `fd` with nothing registered.
    pub open spec fn fresh(fd: i32) -> InstanceView {
        InstanceView { fd, regions: Seq::<RegionRequest>::empty() }
    }

    /// Whether the instance owns a slot.
    pub open spec fn owned(self) -> bool {
        self.fd >= 0
    }

    /// What holds of every instance: without a slot nothing is registered;
    /// every registration names a region; no two of them share a slot or a
    /// byte of memory.
    pub open spec fn wf(self) -> bool {
        &&& !self.owned() ==> self.regions.len() == 0
        &&& forall|i: int|
            0 <= i < self.regions.len() ==> region_fault(
                (#[trigger] self.regions[i]).userspace_addr,
                self.regions[i].memory_size,
            ) is None
        &&& forall|i: int, j: int|
            0 <= i < j < self.regions.len() ==> (#[trigger] self.regions[i]).slot != (
            #[trigger] self.regions[j]).slot && !spans_overlap(self.regions[i], self.regions[j])
    }

    /// Whether a region is registered under `slot`.
    pub open spec fn slot_taken(self, slot: u32) -> bool {
        exists|i: int| 0 <= i < self.regions.len() && (#[trigger] self.regions[i]).slot == slot
    }

    /// Whether the registration at index `at` shares memory with `request`.
    pub open spec fn overlaps_at(self, request: RegionRequest, at: int) -> bool {
        0 <= at < self.regions.len() && spans_overlap(self.regions[at], request)
    }

    /// Whether `at` is the oldest registration that shares memory with
    /// `request`.
    pub open spec fn first_overlap_at(self, request: RegionRequest, at: int) -> bool {
        self.overlaps_at(request, at) && forall|i: int| 0 <= i < at ==> !self.overlaps_at(request, i)
    }

    /// The slot of the oldest registration that shares memory with
    /// `request`, if there is one.
    pub open spec fn overlapped_slot(self, request: RegionRequest) -> Option<u32> {
        if exists|at: int| self.first_overlap_at(request, at) {
            Some(self.regions[choose|at: int| self.first_overlap_at(request, at)].slot)
        } else {
            None
        }
    }

    /// Why `request` must not be issued for `region`, if it must not.
    ///
    /// A request under a slot that is taken is issued all the same: it is
    /// the interface that refuses it. Under a free slot, memory that is
    /// registered already is not handed out again.
    pub open spec fn refusal(self, region: RegionView, request: RegionRequest) -> Option<
        ResourceError,
    > {
        if !self.owned() {
            Some(ResourceError::NotOwned)
        } else if region.request_fault(request) is Some {
            region.request_fault(request)
        } else if self.slot_taken(request.slot) {
            None
        } else {
            match self.overlapped_slot(request) {
                Some(slot) => Some(ResourceError::Overlap { slot }),
                None => None,
            }
        }
    }

    /// What comes of registering `region` by `request`, to which the
    /// interface gave `answer`.
    pub open spec fn add_outcome(
        self,
        region: RegionView,
        request: RegionRequest,
        answer: i32,
    ) -> Result<(), ResourceError> {
        match self.refusal(region, request) {
            Some(fault) => Err(fault),
            None => if answer < 0 {
                Err(ResourceError::Rejected { slot: request.slot, code: answer })
            } else if self.slot_taken(request.slot) {
                Err(ResourceError::SlotTaken { slot: request.slot })
            } else {
                Ok(())
            },
        }
    }

    /// The instance after that registration.
    pub open spec fn after_add(
        self,
        region: RegionView,
        request: RegionRequest,
        answer: i32,
    ) -> InstanceView {
        if self.add_outcome(region, request, answer) is Ok {
            InstanceView { regions: self.regions.push(request), ..self }
        } else {
            self
        }
    }

    /// The descriptor to close when the instance is released, if there is
    /// one.
    pub open spec fn to_close(self) -> Option<i32> {
        if self.owned() {
            Some(self.fd)
        } else {
            None
        }
    }

    /// The instance after its release.
    pub open spec fn released(self) -> InstanceView {
        if self.owned() {
            InstanceView { fd: -1i32, regions: Seq::<RegionRequest>::empty() }
        } else {
            self
        }
    }
}

/// One enclave slot and the memory registered with it.
#[derive(Debug)]
pub struct EnclaveInstance {
    enclave_fd: i32,
    regions: Vec<RegionRequest>,
}

impl View for EnclaveInstance {
    type V = InstanceView;

    closed spec fn view(&self) -> InstanceView {
        InstanceView { fd: self.enclave_fd, regions: self.regions@ }
    }
}

impl EnclaveInstance {
    #[verifier::type_invariant]
    closed spec fn registrations_hold(&self) -> bool {
        self@.wf()
    }

    /// Takes over the descriptor of a slot. A negative descriptor gives an
    /// instance that owns nothing.
    pub fn new(enc_fd: i32) -> (made: Self)
        ensures
            made@ == InstanceView::fresh(enc_fd),
            made@.wf(),
    {
        EnclaveInstance { enclave_fd: enc_fd, regions: Vec::new() }
    }

    /// Returns the descriptor of the slot; negative where none is owned.
    pub fn enclave_fd(&self) -> (fd: i32)
        ensures
            fd == self@.fd,
            self@.wf(),
    {
        proof {
            use_type_invariant(self);
        }
        self.enclave_fd
    }

    /// Returns the number of regions registered with the slot.
    pub fn region_count(&self) -> (count: usize)
        ensures
            count == self@.regions.len(),
            self@.wf(),
    {
        proof {
            use_type_invariant(self);
        }
        self.regions.len()
    }

    /// Tells whether a region is registered under `slot`.
    pub fn has_slot(&self, slot: u32) -> (taken: bool)
        ensures
            taken == self@.slot_taken(slot),
    {
        let mut i: usize = 0;
        while i < self.regions.len()
            invariant
                i <= self.regions.len(),
                forall|k: int| 0 <= k < i ==> (#[trigger] self.regions@[k]).slot != slot,
            decreases self.regions.len() - i,
        {
            if self.regions[i].slot == slot {
                assert(self@.regions[i as int].slot == slot);
                return true;
            }
            i += 1;
        }
        false
    }

    /// Finds the oldest registration that shares memory with `request`, and
    /// returns its slot.
    pub fn overlapping_slot(&self, request: &RegionRequest) -> (found: Option<u32>)
        ensures
            found == self@.overlapped_slot(*request),
    {
        proof {
            use_type_invariant(self);
        }
        let mut i: usize = 0;
        while i < self.regions.len()
            invariant
                i <= self.regions.len(),
                self@.wf(),
                forall|k: int| 0 <= k < i ==> !self@.overlaps_at(*request, k),
            decreases self.regions.len() - i,
        {
            let held = &self.regions[i];
            let starts_before_end = held.userspace_addr < request.userspace_addr
                || held.userspace_addr - request.userspace_addr < request.memory_size;
            if request.memory_size > 0 && starts_before_end && request.userspace_addr
                < held.userspace_addr + held.memory_size {
                proof {
                    assert(self@.first_overlap_at(*request, i as int));
                }
                return Some(held.slot);
            }
            i += 1;
        }
        proof {
            assert forall|at: int| !self@.first_overlap_at(*request, at) by {
                if self@.overlaps_at(*request, at) {
                    assert(0 <= at < i);
                }
            }
        }
        None
    }

    /// Tells whether `request` may be issued for `region`: the instance
    /// owns a slot, the request names the address and the size of the
    /// region, and the region shares no memory with one that is registered
    /// under another slot. Whether the slot is free is left to the
    /// interface.
    pub fn check_region(&self, region: &MemoryRegion, request: &RegionRequest) -> (checked: Result<
        (),
        ResourceError,
    >)
        ensures
            checked is Ok <==> self@.refusal(region@, *request) is None,
            checked is Err ==> Some(checked->Err_0) == self@.refusal(region@, *request),
    {
        if self.enclave_fd < 0 {
            return Err(ResourceError::NotOwned);
        }
        match region.check_request(request) {
            Err(fault) => Err(fault),
            Ok(_) => {
                if self.has_slot(request.slot) {
                    return Ok(());
                }
                match self.overlapping_slot(request) {
                    Some(slot) => Err(ResourceError::Overlap { slot }),
                    None => Ok(()),
                }
            },
        }
    }

    /// Registers `region` by `request`, to which the interface gave
    /// `answer`.
    ///
    /// A request that [`EnclaveInstance::check_region`] refuses fails with
    /// that error, whatever the answer: it is never issued. A refusal of
    /// the interface is passed on with the slot and the answer. An
    /// interface that accepts a second registration under one slot is not
    /// followed. In every other case the region counts as registered from
    /// now on, and its memory belongs to the enclave: the caller must
    /// neither reuse nor free it. On every error the instance is as it was,
    /// and the caller must not try the same slot again.
    pub fn add_memory_region(
        &mut self,
        region: &MemoryRegion,
        request: RegionRequest,
        answer: i32,
    ) -> (added: Result<(), ResourceError>)
        ensures
            added == old(self)@.add_outcome(region@, request, answer),
            final(self)@ == old(self)@.after_add(region@, request, answer),
            final(self)@.wf(),
    {
        proof {
            use_type_invariant(&*self);
            use_type_invariant(region);
        }
        match self.check_region(region, &request) {
            Err(fault) => Err(fault),
            Ok(_) => {
                if answer < 0 {
                    Err(ResourceError::Rejected { slot: request.slot, code: answer })
                } else if self.has_slot(request.slot) {
                    Err(ResourceError::SlotTaken { slot: request.slot })
                } else {
                    proof {
                        lemma_add_keeps_wf(self@, region@, request, answer);
                    }
                    let mut regions: Vec<RegionRequest> = Vec::new();
                    std::mem::swap(&mut self.regions, &mut regions);
                    regions.push(request);
                    self.regions = regions;
                    Ok(())
                }
            },
        }
    }

    /// Gives the slot up. Returns the descriptor that the caller has to
    /// close, once; an instance that owns no slot returns `None` and stays
    /// as it is.
    pub fn release(&mut self) -> (descriptor: Option<i32>)
        ensures
            descriptor == old(self)@.to_close(),
            final(self)@ == old(self)@.released(),
            final(self)@.wf(),
    {
        proof {
            use_type_invariant(&*self);
        }
        if self.enclave_fd < 0 {
            None
        } else {
            let fd: i32 = self.enclave_fd;
            self.regions = Vec::new();
            self.enclave_fd = -1;
            Some(fd)
        }
    }
}

/// A registration that is accepted shares neither its slot nor its memory
/// with those that stand.
proof fn lemma_add_keeps_wf(
    instance: InstanceView,
    region: RegionView,
    request: RegionRequest,
    answer: i32,
)
    requires
        instance.wf(),
        region.valid(),
        instance.add_outcome(region, request, answer) is Ok,
    ensures
        (InstanceView { regions: instance.regions.push(request), ..instance }).wf(),
{
    let grown = instance.regions.push(request);
    let last = instance.regions.len() as int;
    assert(instance.overlapped_slot(request) is None);
    assert forall|i: int| 0 <= i < last implies !spans_overlap(instance.regions[i], request)
        && instance.regions[i].slot != request.slot by {
        if spans_overlap(instance.regions[i], request) {
            lemma_some_overlap_is_first(instance, request, i);
        }
    }
    assert forall|i: int, j: int| 0 <= i < j < grown.len() implies (#[trigger] grown[i]).slot != (
    #[trigger] grown[j]).slot && !spans_overlap(grown[i], grown[j]) by {
        if j < last {
            assert(grown[i] == instance.regions[i] && grown[j] == instance.regions[j]);
        } else {
            assert(grown[i] == instance.regions[i] && grown[j] == request);
        }
    }
    assert forall|i: int| 0 <= i < grown.len() implies region_fault(
        (#[trigger] grown[i]).userspace_addr,
        grown[i].memory_size,
    ) is None by {
        if i < last {
            assert(grown[i] == instance.regions[i]);
        }
    }
}

/// Where some registration shares memory with a request, an oldest one
/// does.
proof fn lemma_some_overlap_is_first(instance: InstanceView, request: RegionRequest, at: int)
    requires
        instance.overlaps_at(request, at),
    ensures
        exists|first: int| instance.first_overlap_at(request, first),
    decreases at,
{
    if exists|i: int| 0 <= i < at && instance.overlaps_at(request, i) {
        let i = choose|i: int| 0 <= i < at && instance.overlaps_at(request, i);
        lemma_some_overlap_is_first(instance, request, i);
    } else {
        assert(instance.first_overlap_at(request, at));
    }
}

/// What the result of closing the descriptor of a slot means.
pub open spec fn release_verdict(answer: i32) -> Result<(), FatalError> {
    if answer == 0 {
        Ok(())
    } else {
        Err(FatalError::ReleaseFailed)
    }
}

/// Takes the result of closing the descriptor of a slot. Anything but zero
/// leaves a half-released slot behind, which is never passed over.
pub fn release_outcome(answer: i32) -> (outcome: Result<(), FatalError>)
    ensures
        outcome == release_verdict(answer),
{
    if answer == 0 {
        Ok(())
    } else {
        Err(FatalError::ReleaseFailed)
    }
}

/// A request whose size is not the size of the region, or whose address is
/// not on a page boundary, is refused before it is issued: whatever the
/// interface would answer, the result is an error and nothing is registered.
pub proof fn misfit_request_is_rejected(
    instance: InstanceView,
    region: RegionView,
    request: RegionRequest,
    answer: i32,
)
    requires
        request.memory_size != region.size || !is_aligned(request.userspace_addr),
    ensures
        instance.refusal(region, request) is Some,
        instance.add_outcome(region, request, answer) is Err,
        instance.after_add(region, request, answer) == instance,
{
}

/// A region is registered under a slot once. After the registration that
/// was accepted, the same request is still sent to the interface, and it
/// fails whatever the interface answers: a refusal of the interface is
/// passed on as it is, and an acceptance is not followed. The registration
/// that stands is left alone.
pub proof fn region_registers_once(
    instance: InstanceView,
    region: RegionView,
    slot: u32,
    first: i32,
    second: i32,
)
    requires
        instance.wf(),
        region.valid(),
        instance.add_outcome(region, region.request(slot), first) is Ok,
    ensures
        ({
            let request = region.request(slot);
            let once = instance.after_add(region, request, first);
            &&& once.wf()
            &&& once.regions == instance.regions.push(request)
            &&& once.slot_taken(slot)
            &&& once.refusal(region, request) is None
            &&& once.add_outcome(region, request, second) is Err
            &&& second < 0 ==> once.add_outcome(region, request, second) == Err::<
                (),
                ResourceError,
            >(ResourceError::Rejected { slot, code: second })
            &&& once.after_add(region, request, second) == once
        }),
{
    let request = region.request(slot);
    lemma_add_keeps_wf(instance, region, request, first);
    let once = instance.after_add(region, request, first);
    assert(once.regions[instance.regions.len() as int].slot == slot);
}

/// A region that fits its request, on an instance that owns a slot, under a
/// slot that is free and with memory that is not registered yet, is
/// registered if and only if the interface accepts it.
pub proof fn fitting_request_follows_interface(
    instance: InstanceView,
    region: RegionView,
    slot: u32,
    answer: i32,
)
    requires
        instance.owned(),
        region.valid(),
        !instance.slot_taken(slot),
        instance.overlapped_slot(region.request(slot)) is None,
    ensures
        instance.refusal(region, region.request(slot)) is None,
        instance.add_outcome(region, region.request(slot), answer) is Ok <==> answer >= 0,
        answer < 0 ==> instance.add_outcome(region, region.request(slot), answer) == Err::<
            (),
            ResourceError,
        >(ResourceError::Rejected { slot, code: answer }),
{
}

/// Whatever is asked of an instance and whatever the interface answers, its
/// registrations keep to their own slots and their own memory.
pub proof fn registrations_stay_apart(
    instance: InstanceView,
    region: RegionView,
    request: RegionRequest,
    answer: i32,
)
    requires
        instance.wf(),
        region.valid(),
    ensures
        instance.after_add(region, request, answer).wf(),
        instance.released().wf(),
{
    if instance.add_outcome(region, request, answer) is Ok {
        lemma_add_keeps_wf(instance, region, request, answer);
    }
}

/// Releasing an instance that owns no slot does nothing, and an instance
/// that was released owns no slot: its descriptor is handed out for closing
/// once and never again.
pub proof fn release_happens_once(instance: InstanceView)
    ensures
        !instance.owned() ==> instance.to_close() is None && instance.released() == instance,
        instance.owned() ==> instance.to_close() == Some(instance.fd),
        instance.released().to_close() is None,
        instance.released().released() == instance.released(),
{
}

} // verus!

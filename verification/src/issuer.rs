//! Issuing commands: the errors a caller can see, the mapping from a raw
//! channel response to the caller's result, the per-request buffer-strategy
//! decision, and the staging of data through bounce pages for the built-in
//! transfer paths.

use vstd::prelude::*;
use crate::nvme::Command;
use crate::nvme::Completion;
use crate::nvme::Status;
use crate::nvme::INVALID_PAGE_ADDR;
use crate::nvme::spec_transfers_controller_to_host;
use crate::nvme::spec_transfers_host_to_controller;
use crate::prp::Prp;
use crate::prp::ScopedPages;
use crate::prp::make_prp;
use crate::prp::prp_post;

verus! {

/// An NVMe completion status other than success.
#[derive(Debug, Clone, Copy, PartialEq, Eq)]
pub struct NvmeError {
    status: Status,
}

impl NvmeError {
    /// The status the controller returned.
    pub closed spec fn status_spec(&self) -> Status {
        self.status
    }

    /// Returns the status the controller returned.
    pub fn status(&self) -> (r: Status)
        ensures
            r == self.status_spec(),
    {
        self.status
    }
}

impl From<Status> for NvmeError {
    fn from(value: Status) -> (r: Self) {
        NvmeError { status: value }
    }
}

impl vstd::std_specs::convert::FromSpecImpl<Status> for NvmeError {
    closed spec fn obeys_from_spec() -> bool {
        true
    }

    closed spec fn from_spec(v: Status) -> Self {
        NvmeError { status: v }
    }
}

/// An error issuing an NVMe request.
#[derive(Debug, Clone, Copy, PartialEq, Eq)]
pub enum RequestError {
    /// The queue pair's handler is no longer reachable.
    Gone,
    /// The completion carried a non-zero status.
    Nvme(NvmeError),
    /// A guest-memory probe or copy failed.
    Memory,
    /// The transfer is too large to double-buffer and cannot be pinned.
    TooLarge,
    /// A pin or unpin of guest memory failed, with the hypervisor's status.
    Hv(u16),
}

/// Turns the raw outcome of one submitted command into the caller's result:
/// no response means the handler is gone; a completion with status zero is
/// success; any other completion surfaces its status as an NVMe error.
pub fn issue_raw_outcome(response: Option<Completion>) -> (r: Result<Completion, RequestError>)
    ensures
        response is None ==> r == Err::<Completion, RequestError>(RequestError::Gone),
        response matches Some(c) ==> {
            &&& (c.spec_status_value() == 0 ==> r == Ok::<Completion, RequestError>(c))
            &&& (c.spec_status_value() != 0 ==> (r matches Err(e) && e matches RequestError::Nvme(
                ne,
            ) && ne.status_spec() == Status(c.spec_status_value())))
        },
    {
    match response {
        None => Err(RequestError::Gone),
        Some(c) => {
            let code = c.status_value();
            if code == 0 {
                Ok(c)
            } else {
                Err(RequestError::Nvme(NvmeError::from(Status(code))))
            }
        },
    }
}

/// The buffer strategy an external-memory request settles on before any
/// allocation is attempted.
#[derive(Debug, Clone, Copy, PartialEq, Eq, Structural)]
pub enum IoStrategy {
    /// The device can reach the guest memory: build the PRP from the
    /// existing translations.
    Direct,
    /// Large transfer in movable memory: pin the guest ranges, then build
    /// the PRP from the translations.
    Pin,
    /// Stage the transfer through bounce pages from the pool.
    DoubleBuffer,
}

/// The per-issuer configuration that drives the buffer-strategy decision:
/// the byte threshold above which a transfer is pinned rather than copied
/// (when one is configured), and whether a partition is available to pin
/// guest memory at all.
pub struct Issuer {
    io_threshold: Option<u32>,
    has_partition: bool,
}

impl Issuer {
    /// The configured pin threshold, if any.
    pub closed spec fn io_threshold_spec(&self) -> Option<u32> {
        self.io_threshold
    }

    /// Whether a partition is available for pinning.
    pub closed spec fn has_partition_spec(&self) -> bool {
        self.has_partition
    }

    /// Builds an issuer with the given pinning configuration.
    pub fn new(io_threshold: Option<u32>, has_partition: bool) -> (r: Self)
        ensures
            r.io_threshold_spec() == io_threshold,
            r.has_partition_spec() == has_partition,
    {
        Issuer { io_threshold, has_partition }
    }

    /// Chooses the buffer strategy for one external-memory request: direct
    /// when the memory is not movable and every page already has a device
    /// translation; otherwise pinning when a threshold is configured, the
    /// memory is movable, a partition is present, and the transfer exceeds
    /// the threshold; otherwise double buffering is attempted.
    pub fn select_strategy(&self, is_va_backed: bool, all_gpns_mapped: bool, len: usize) -> (s:
        IoStrategy)
        ensures
            (s == IoStrategy::Direct) <==> (!is_va_backed && all_gpns_mapped),
            (s == IoStrategy::Pin) <==> (!(!is_va_backed && all_gpns_mapped) && (
            self.io_threshold_spec() matches Some(t) && is_va_backed && self.has_partition_spec()
                && len > t)),
            (s == IoStrategy::DoubleBuffer) <==> (!(!is_va_backed && all_gpns_mapped) && !(
            self.io_threshold_spec() matches Some(t) && is_va_backed && self.has_partition_spec()
                && len > t)),
    {
        if !is_va_backed && all_gpns_mapped {
            IoStrategy::Direct
        } else {
            let mut pin = false;
            if let Some(t) = self.io_threshold {
                if is_va_backed && self.has_partition && len > t as usize {
                    pin = true;
                }
            }
            if pin {
                IoStrategy::Pin
            } else {
                IoStrategy::DoubleBuffer
            }
        }
    }

    /// When the bounce pool cannot cover the transfer, decides what follows:
    /// movable memory with a partition present falls back to pinning;
    /// everything else is rejected as too large.
    pub fn bounce_exhausted_fallback(&self, is_va_backed: bool) -> (r: Result<(), RequestError>)
        ensures
            (r is Ok) <==> (is_va_backed && self.has_partition_spec()),
            r is Err ==> r == Err::<(), RequestError>(RequestError::TooLarge),
    {
        if is_va_backed && self.has_partition {
            Ok(())
        } else {
            Err(RequestError::TooLarge)
        }
    }

    /// Plans the pre-submission half of an external-memory request from the
    /// environment's answers: the per-page device translations, whether the
    /// memory is movable, and the transfer length. The plan is the strategy
    /// `select_strategy` settles on, carrying what each path needs: the
    /// translated IOVAs for the direct path, nothing for the pin path
    /// (translations are taken fresh once the pages are pinned), and the
    /// copy-in decision for the bounce path.
    pub fn plan_external(
        &self,
        opcode: u8,
        mem_is_empty: bool,
        mem_len: usize,
        is_va_backed: bool,
        translations: &Vec<Option<u64>>,
    ) -> (plan: ExternalPlan)
        requires
            spec_transfers_controller_to_host(opcode) || spec_transfers_host_to_controller(opcode)
                || mem_is_empty,
        ensures
            ({
                let all_mapped = forall|i: int|
                    0 <= i < translations@.len() ==> (#[trigger] translations@[i]) is Some;
                &&& (plan is Direct <==> (!is_va_backed && all_mapped))
                &&& (plan is PinFirst <==> (!(!is_va_backed && all_mapped) && (
                self.io_threshold_spec() matches Some(t) && is_va_backed
                    && self.has_partition_spec() && mem_len > t)))
                &&& (plan matches ExternalPlan::Direct(iovas) ==> iovas@.len()
                    == translations@.len() && forall|i: int|
                    0 <= i < translations@.len() ==> iovas@[i] == (
                    #[trigger] translations@[i]).unwrap())
                &&& (plan matches ExternalPlan::TryBounce(copy_in) ==> copy_in
                    == spec_transfers_host_to_controller(opcode))
            }),
    {
        let iovas = collect_iovas(translations);
        let strategy = self.select_strategy(is_va_backed, iovas.is_some(), mem_len);
        match strategy {
            IoStrategy::Direct => {
                match iovas {
                    Some(v) => ExternalPlan::Direct(v),
                    None => vstd::pervasive::unreached(),
                }
            },
            IoStrategy::Pin => ExternalPlan::PinFirst,
            IoStrategy::DoubleBuffer => ExternalPlan::TryBounce(
                crate::nvme::transfers_host_to_controller(opcode),
            ),
        }
    }
}

/// The pre-submission plan for one external-memory request.
pub enum ExternalPlan {
    /// The device reaches the guest memory as it stands: build the PRP from
    /// these translations.
    Direct(Vec<u64>),
    /// Pin the guest ranges first, then build the PRP from the translations
    /// taken after the pin.
    PinFirst,
    /// Stage through bounce pages; the flag says whether the guest bytes
    /// must be copied into them before submission.
    TryBounce(bool),
}

/// Decides the post-completion half of an external-memory request: the
/// bounce pages are copied back to the guest only when the transfer was
/// staged through them, the command succeeded, and the opcode returns data
/// to the host; pinned ranges are unpinned on every exit path.
pub fn external_finish_actions(opcode: u8, used_bounce: bool, pinned: bool, succeeded: bool) -> (r:
    (bool, bool))
    ensures
        r.0 == (used_bounce && succeeded && spec_transfers_controller_to_host(opcode)),
        r.1 == pinned,
{
    let copy_out = used_bounce && succeeded && crate::nvme::transfers_controller_to_host(opcode);
    (copy_out, pinned)
}

/// An external request must either move data in some direction or name no
/// memory at all.
pub fn external_args_ok(opcode: u8, mem_is_empty: bool) -> (r: bool)
    ensures
        r == (spec_transfers_controller_to_host(opcode) || spec_transfers_host_to_controller(
            opcode,
        ) || mem_is_empty),
{
    let c2h = crate::nvme::transfers_controller_to_host(opcode);
    let h2c = crate::nvme::transfers_host_to_controller(opcode);
    c2h || h2c || mem_is_empty
}

/// A caller-supplied range of guest memory: a byte offset into the first
/// page, a byte length, and the guest page numbers covering the range.
pub struct PagedRange {
    offset: usize,
    len: usize,
    gpns: Vec<u64>,
}

impl PagedRange {
    /// The offset into the first page.
    pub closed spec fn offset_spec(&self) -> usize {
        self.offset
    }

    /// The byte length of the range.
    pub closed spec fn len_spec(&self) -> usize {
        self.len
    }

    /// The guest page numbers covering the range.
    pub closed spec fn gpns_spec(&self) -> Seq<u64> {
        self.gpns@
    }

    /// The range is consistent: the offset stays inside the first page and
    /// the pages cover the bytes.
    pub open spec fn wf(&self) -> bool {
        &&& self.offset_spec() < 4096
        &&& self.offset_spec() + self.len_spec() <= self.gpns_spec().len() * 4096
    }

    /// Builds a range over guest pages.
    pub fn new(offset: usize, len: usize, gpns: Vec<u64>) -> (r: Self)
        requires
            offset < 4096,
            offset + len <= gpns@.len() * 4096,
        ensures
            r.wf(),
            r.offset_spec() == offset,
            r.len_spec() == len,
            r.gpns_spec() == gpns@,
    {
        PagedRange { offset, len, gpns }
    }

    /// Returns the offset into the first page.
    pub fn offset(&self) -> (r: usize)
        ensures
            r == self.offset_spec(),
    {
        self.offset
    }

    /// Returns the byte length of the range.
    pub fn len(&self) -> (r: usize)
        ensures
            r == self.len_spec(),
    {
        self.len
    }

    /// Whether the range covers no bytes.
    pub fn is_empty(&self) -> (r: bool)
        ensures
            r == (self.len_spec() == 0),
    {
        self.len == 0
    }

    /// Returns the number of guest pages.
    pub fn gpn_count(&self) -> (r: usize)
        ensures
            r == self.gpns_spec().len(),
    {
        self.gpns.len()
    }

    /// Returns guest page number `i`.
    pub fn gpn_at(&self, i: usize) -> (r: u64)
        requires
            i < self.gpns_spec().len(),
        ensures
            r == self.gpns_spec()[i as int],
    {
        self.gpns[i]
    }
}

/// The guest physical address of a guest page number.
pub fn gpn_to_gpa(gpn: u64) -> (r: u64)
    requires
        gpn * 4096 <= u64::MAX,
    ensures
        r == gpn * 4096,
{
    gpn * 4096
}

/// Gathers per-page device translations into an IOVA list: all pages must
/// be translated, else no list results and the direct path is off the table.
pub fn collect_iovas(translations: &Vec<Option<u64>>) -> (r: Option<Vec<u64>>)
    ensures
        (r is Some) <==> (forall|i: int|
            0 <= i < translations@.len() ==> (#[trigger] translations@[i]) is Some),
        r matches Some(v) ==> {
            &&& v@.len() == translations@.len()
            &&& forall|i: int|
                0 <= i < translations@.len() ==> v@[i] == (#[trigger] translations@[i]).unwrap()
        },
{
    let mut v: Vec<u64> = Vec::new();
    let mut i: usize = 0;
    while i < translations.len()
        invariant
            i <= translations@.len(),
            v@.len() == i,
            forall|j: int| 0 <= j < i ==> (#[trigger] translations@[j]) is Some,
            forall|j: int| 0 <= j < i ==> v@[j] == translations@[j].unwrap(),
        decreases translations@.len() - i,
    {
        match translations[i] {
            Some(iova) => v.push(iova),
            None => {
                return None;
            },
        }
        i = i + 1;
    }
    Some(v)
}

/// Returns `command` with its data pointer replaced.
pub fn command_with_dptr(command: Command, dptr0: u64, dptr1: u64) -> (c: Command)
    ensures
        c == (Command { dptr0, dptr1, ..command }),
{
    Command { dptr0, dptr1, ..command }
}

/// Prepares a command that transfers no data: both data-pointer entries are
/// set to the invalid sentinel, so any accidental dereference by the
/// controller faults recognizably.
pub fn issue_neither_command(command: Command) -> (c: Command)
    ensures
        c == (Command { dptr0: INVALID_PAGE_ADDR, dptr1: INVALID_PAGE_ADDR, ..command }),
{
    Command { dptr0: INVALID_PAGE_ADDR, dptr1: INVALID_PAGE_ADDR, ..command }
}

/// Number of bounce pages needed to stage `len` bytes.
pub fn pages_for_bytes(len: usize) -> (r: usize)
    requires
        len + 4095 <= usize::MAX,
    ensures
        r == (len + 4095) / 4096,
        r * 4096 >= len,
{
    (len + 4095) / 4096
}

/// Stages a host-to-controller transfer: copies the caller's bytes into the
/// bounce pages, then builds the command's data pointer over the pages'
/// physical addresses (spilling into `list_page` when three or more pages
/// are held). The bytes the device will read equal the caller's bytes.
pub fn issue_in_prepare(
    command: Command,
    data: &Vec<u8>,
    pages: &mut ScopedPages,
    list_page: Option<ScopedPages>,
) -> (r: (Command, Prp))
    requires
        old(pages).wf(),
        data@.len() <= old(pages).contents().len(),
        old(pages).page_count_spec() <= 512,
        old(pages).page_count_spec() >= 3 ==> (list_page matches Some(lp) && lp.wf()
            && lp.page_count_spec() == 1),
        old(pages).page_count_spec() < 3 ==> list_page is None,
    ensures
        final(pages).wf(),
        final(pages).addrs_spec() == old(pages).addrs_spec(),
        final(pages).contents().len() == old(pages).contents().len(),
        forall|j: int| 0 <= j < data@.len() ==> final(pages).contents()[j] == data@[j],
        forall|j: int|
            data@.len() <= j < old(pages).contents().len() ==> final(pages).contents()[j] == old(
                pages,
            ).contents()[j],
        prp_post(0, old(pages).addrs_spec(), list_page, r.1),
        r.0 == (Command { dptr0: r.1.dptr0, dptr1: r.1.dptr1, ..command }),
{
    pages.write(data);
    let addrs = pages.addr_list();
    let prp = make_prp(0, &addrs, list_page);
    let c = Command { dptr0: prp.dptr0, dptr1: prp.dptr1, ..command };
    (c, prp)
}

/// Prepares a controller-to-host transfer: builds the command's data
/// pointer over the bounce pages' physical addresses without touching their
/// bytes; the caller copies them out after the completion.
pub fn issue_out_prepare(command: Command, pages: &ScopedPages, list_page: Option<ScopedPages>)
    -> (r: (Command, Prp))
    requires
        pages.wf(),
        pages.page_count_spec() <= 512,
        pages.page_count_spec() >= 3 ==> (list_page matches Some(lp) && lp.wf()
            && lp.page_count_spec() == 1),
        pages.page_count_spec() < 3 ==> list_page is None,
    ensures
        prp_post(0, pages.addrs_spec(), list_page, r.1),
        r.0 == (Command { dptr0: r.1.dptr0, dptr1: r.1.dptr1, ..command }),
{
    let addrs = pages.addr_list();
    let prp = make_prp(0, &addrs, list_page);
    let c = Command { dptr0: prp.dptr0, dptr1: prp.dptr1, ..command };
    (c, prp)
}

/// Finishes a controller-to-host transfer after the completion arrived:
/// copies the bounce pages' bytes out into the caller's buffer, which then
/// holds exactly what the device wrote there.
pub fn issue_out_finish(pages: &ScopedPages, data: &mut Vec<u8>)
    requires
        old(data)@.len() <= pages.contents().len(),
    ensures
        final(data)@.len() == old(data)@.len(),
        forall|j: int| 0 <= j < old(data)@.len() ==> final(data)@[j] == pages.contents()[j],
{
    pages.read(data);
}

} // verus!

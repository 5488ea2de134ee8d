//! What a vCPU does on each VM exit: which exits it accepts, how a syscall
//! request on the channel page is routed, and the replies that it writes
//! for the requests it answers itself.

use vstd::prelude::*;
use crate::sallyport::{
    request_arg, request_num, with_error_reply, with_reply, Block, MSG_WORDS, PAGE_WORDS,
    REPLY_ERR_WORD,
};

verus! {

/// The I/O port on which the guest signals that its channel page holds a
/// request.
pub const SYSCALL_TRIGGER_PORT: u16 = 0xFF;
/// Requests numbered from 0 up to (not including) this one are host
/// syscalls passed through to the caller.
pub const GENERIC_SYSCALL_END: i64 = 512;
/// Asks the host for a topology record of the guest's memory.
pub const SYS_ENARX_MEM_INFO: i64 = 33_333;
/// Asks the host to grow the guest's memory by a number of pages.
pub const SYS_ENARX_BALLOON_MEMORY: i64 = 33_334;
/// The error number answered to a request that nothing implements.
pub const ENOSYS: i64 = 38;
/// Words that a `MemInfo` record takes in scratch space.
pub const MEM_INFO_WORDS: usize = 2;

/// Why the hardware vCPU stopped running the guest.
#[derive(Debug)]
pub enum Exit {
    /// The guest wrote to an I/O port.
    IoOut { port: u16 },
    /// Any other exit, described by the hypervisor.
    Other { reason: String },
}

/// An exit or a request that ends this vCPU's run.
#[derive(Debug)]
pub enum ExitError {
    /// The guest wrote to a port other than the trigger port.
    UnexpectedPort(u16),
    /// The vCPU stopped for a reason that no handler takes.
    UnhandledExit(String),
    /// The scratch space had no room for a `MemInfo` record.
    MemInfoAlloc,
}

/// What a syscall request on the channel page asks for.
#[derive(Clone, Copy, Debug, PartialEq, Eq, Structural)]
pub enum Request {
    /// A host syscall, which the caller performs.
    SysCall,
    /// Grow the guest's memory by `pages` pages.
    BalloonMemory { pages: usize },
    /// Report the guest's memory topology.
    MemInfo,
    /// A number that nothing implements.
    Unsupported { num: i64 },
}

/// What the driver of a vCPU does next.
#[derive(Clone, Copy, Debug, PartialEq, Eq, Structural)]
pub enum Command {
    /// Perform the host syscall on the channel page and write its reply
    /// before the guest runs again.
    SysCall,
    /// Run the guest again at once.
    Continue,
}

/// The memory topology record handed to the guest.
#[derive(Clone, Copy, Debug, PartialEq, Eq, Structural)]
pub struct MemInfo {
    /// Virtual start address of the first memory region.
    pub virt_offset: i64,
    /// Memory slots of the hypervisor.
    pub mem_slots: usize,
}

/// The route of a request numbered `num` whose first argument is `arg0`.
/// The generic range is tried first, then the two reserved numbers.
pub open spec fn request_of(num: i64, arg0: u64) -> Request {
    if 0 <= num < GENERIC_SYSCALL_END {
        Request::SysCall
    } else if num == SYS_ENARX_BALLOON_MEMORY {
        Request::BalloonMemory { pages: #[verifier::truncate] (arg0 as usize) }
    } else if num == SYS_ENARX_MEM_INFO {
        Request::MemInfo
    } else {
        Request::Unsupported { num }
    }
}

/// The route of the request that a channel page holds.
pub open spec fn page_request(page: Seq<u64>) -> Request {
    request_of(request_num(page), request_arg(page, 0))
}

/// The page after `info` was stored at the start of its scratch space and
/// a `[0, 0]` reply was written.
pub open spec fn with_mem_info(page: Seq<u64>, info: MemInfo) -> Seq<u64> {
    with_reply(
        page.update(MSG_WORDS as int, #[verifier::truncate] (info.virt_offset as u64)).update(
            MSG_WORDS as int + 1,
            info.mem_slots as u64,
        ),
        0,
        0,
    )
}

/// Accepts an exit only where the guest wrote to the trigger port; any
/// other port, and any other exit, is an error that names it.
pub fn check_exit(exit: &Exit) -> (r: Result<(), ExitError>)
    ensures
        match *exit {
            Exit::IoOut { port } => if port == SYSCALL_TRIGGER_PORT {
                r is Ok
            } else {
                r matches Err(ExitError::UnexpectedPort(p)) && p == port
            },
            Exit::Other { reason } => r matches Err(ExitError::UnhandledExit(s)) && s@
                == reason@,
        },
{
    match exit {
        Exit::IoOut { port } => {
            if *port == SYSCALL_TRIGGER_PORT {
                Ok(())
            } else {
                Err(ExitError::UnexpectedPort(*port))
            }
        },
        Exit::Other { reason } => Err(ExitError::UnhandledExit(reason.clone())),
    }
}

/// Routes the request on the channel page.
pub fn route(block: &Block) -> (r: Request)
    requires
        block.wf(),
    ensures
        r == page_request(block@),
{
    let num = block.num();
    if 0 <= num && num < GENERIC_SYSCALL_END {
        Request::SysCall
    } else if num == SYS_ENARX_BALLOON_MEMORY {
        Request::BalloonMemory { pages: block.arg(0) as usize }
    } else if num == SYS_ENARX_MEM_INFO {
        Request::MemInfo
    } else {
        Request::Unsupported { num }
    }
}

/// Answers a balloon request whose new region starts at `base`: the reply
/// is `[base, 0]` and the guest runs on.
pub fn complete_balloon(block: &mut Block, base: u64) -> (r: Command)
    requires
        old(block).wf(),
    ensures
        r == Command::Continue,
        final(block).wf(),
        final(block)@ == with_reply(old(block)@, base, 0),
{
    block.set_reply_ok(base, 0);
    Command::Continue
}

/// The topology record for memory whose first region starts at virtual
/// address `virt_start`, over `mem_slots` hypervisor slots.
pub fn mem_info(virt_start: u64, mem_slots: usize) -> (r: MemInfo)
    ensures
        r.virt_offset == #[verifier::truncate] (virt_start as i64),
        #[verifier::truncate] (r.virt_offset as u64) == virt_start,
        r.mem_slots == mem_slots,
{
    proof {
        lemma_signed_round_trip(virt_start);
    }
    MemInfo { virt_offset: #[verifier::truncate] (virt_start as i64), mem_slots }
}

/// Answers a topology request: stores `info` at the start of the scratch
/// space, replies `[0, 0]` and lets the guest run on.
pub fn complete_mem_info(block: &mut Block, info: MemInfo) -> (r: Result<Command, ExitError>)
    requires
        old(block).wf(),
    ensures
        r matches Ok(c) && c == Command::Continue,
        final(block).wf(),
        final(block)@ == with_mem_info(old(block)@, info),
{
    let mut c = block.cursor();
    match c.lend(MEM_INFO_WORDS) {
        Ok(at) => {
            block.set_word(at, info.virt_offset as u64);
            block.set_word(at + 1, info.mem_slots as u64);
            block.set_reply_ok(0, 0);
            Ok(Command::Continue)
        },
        Err(_) => Err(ExitError::MemInfoAlloc),
    }
}

/// Answers a request that nothing implements with `ENOSYS`, and lets the
/// guest run on.
pub fn complete_unsupported(block: &mut Block) -> (r: Command)
    requires
        old(block).wf(),
    ensures
        r == Command::Continue,
        final(block).wf(),
        final(block)@ == with_error_reply(old(block)@, ENOSYS),
{
    block.set_reply_err(ENOSYS);
    Command::Continue
}

/// A balloon request for `k` pages, answered with the base address `base`
/// of the new region, leaves the reply `[base, 0]` with a clear error slot
/// and keeps the rest of the page.
pub proof fn lemma_balloon_round_trip(page: Seq<u64>, k: u64, base: u64)
    requires
        page.len() == PAGE_WORDS,
        request_num(page) == SYS_ENARX_BALLOON_MEMORY,
        request_arg(page, 0) == k,
    ensures
        page_request(page) == (Request::BalloonMemory { pages: #[verifier::truncate] (k as usize) }),
        with_reply(page, base, 0)[0] == base,
        with_reply(page, base, 0)[1] == 0,
        with_reply(page, base, 0)[REPLY_ERR_WORD as int] == 0,
        forall|i: int|
            REPLY_ERR_WORD < i < PAGE_WORDS ==> #[trigger] with_reply(page, base, 0)[i] == page[i],
{
}

/// A topology request on a page, answered for memory whose first region
/// starts at `virt_start` over `mem_slots` slots, leaves the record
/// `{virt_start, mem_slots}` in the first two scratch words and the reply
/// `[0, 0]`.
pub proof fn lemma_mem_info_record(page: Seq<u64>, virt_start: u64, mem_slots: usize)
    requires
        page.len() == PAGE_WORDS,
        request_num(page) == SYS_ENARX_MEM_INFO,
    ensures
        page_request(page) == Request::MemInfo,
        ({
            let info = MemInfo {
                virt_offset: #[verifier::truncate] (virt_start as i64),
                mem_slots,
            };
            let after = with_mem_info(page, info);
            &&& after[MSG_WORDS as int] == virt_start
            &&& after[MSG_WORDS as int + 1] == mem_slots as u64
            &&& after[0] == 0
            &&& after[1] == 0
            &&& after[REPLY_ERR_WORD as int] == 0
        }),
{
    lemma_signed_round_trip(virt_start);
}

/// Reading an address as signed and back loses nothing.
proof fn lemma_signed_round_trip(x: u64)
    ensures
        #[verifier::truncate] ((#[verifier::truncate] (x as i64)) as u64) == x,
{
    assert(#[verifier::truncate] ((#[verifier::truncate] (x as i64)) as u64) == x) by (bit_vector);
}

} // verus!

use enarx_keep::cpu_id::Allocator;
use enarx_keep::dispatch::{
    check_exit, complete_balloon, complete_mem_info, complete_unsupported, mem_info, route,
    Command, Exit, ExitError, Request, SYSCALL_TRIGGER_PORT, SYS_ENARX_BALLOON_MEMORY,
    SYS_ENARX_MEM_INFO,
};
use enarx_keep::offset::Offset;
use enarx_keep::regs::{set_gen_regs, set_special_regs, GenRegs, Segment, SpecialRegs};
use enarx_keep::sallyport::{Block, PAGE_WORDS};

fn request_page(num: i64, arg0: u64) -> Block {
    let mut block = Block::zeroed();
    block.set_word(0, num as u64);
    block.set_word(1, arg0);
    block
}

fn blank_segment() -> Segment {
    Segment {
        base: 7,
        limit: 7,
        selector: 7,
        type_: 7,
        present: 0,
        dpl: 3,
        db: 1,
        s: 0,
        l: 0,
        g: 0,
        avl: 1,
        unusable: 1,
        padding: 1,
    }
}

#[test]
fn fresh_allocator_counts_from_zero() {
    let mut a = Allocator::new();
    let ids: Vec<usize> = (0..6).map(|_| a.next()).collect();
    assert_eq!(ids, vec![0, 1, 2, 3, 4, 5]);
}

#[test]
fn two_allocators_are_independent() {
    let mut a = Allocator::new();
    let mut b = Allocator::new();
    assert_eq!(a.next(), 0);
    assert_eq!(a.next(), 1);
    assert_eq!(b.next(), 0);
}

#[test]
fn gen_regs_point_at_entry() {
    let mut regs = GenRegs { rip: 0, rflags: 0 };
    set_gen_regs(&mut regs, 0x20_0000);
    assert_eq!(regs.rip, 0x20_0000);
    assert_eq!(regs.rflags & 0x2, 0x2);
    assert_eq!(regs.rflags & 0x200, 0x200);
    assert_eq!(regs.rflags, 0x202);
}

#[test]
fn gen_regs_keep_other_flags() {
    let mut regs = GenRegs { rip: 5, rflags: 0x40 };
    set_gen_regs(&mut regs, 0xdead_b000);
    assert_eq!(regs.rip, 0xdead_b000);
    assert_eq!(regs.rflags, 0x242);
}

#[test]
fn special_regs_select_long_mode() {
    let mut sregs = SpecialRegs { cs: blank_segment(), efer: 0, cr0: 0x10, cr3: 0, cr4: 0x80 };
    set_special_regs(&mut sregs, 0x1000);
    assert_eq!(sregs.efer, 0x500);
    assert_ne!(sregs.efer & 0x100, 0);
    assert_eq!(sregs.cr0, 0x8000_0023);
    assert_ne!(sregs.cr0 & 0x8000_0000, 0);
    assert_eq!(sregs.cr3, 0x1000);
    assert_eq!(sregs.cr4, 0x20);
    assert_eq!(
        sregs.cs,
        Segment {
            base: 0,
            limit: 0xFFFFF,
            selector: 8,
            type_: 11,
            present: 1,
            dpl: 0,
            db: 0,
            s: 1,
            l: 1,
            g: 1,
            avl: 0,
            unusable: 0,
            padding: 0,
        }
    );
}

#[test]
fn trigger_port_is_accepted() {
    assert!(check_exit(&Exit::IoOut { port: SYSCALL_TRIGGER_PORT }).is_ok());
}

#[test]
fn other_port_is_rejected() {
    let r = check_exit(&Exit::IoOut { port: 0x3F8 });
    assert!(matches!(r, Err(ExitError::UnexpectedPort(0x3F8))));
    let r = check_exit(&Exit::IoOut { port: 0xFE });
    assert!(matches!(r, Err(ExitError::UnexpectedPort(0xFE))));
}

#[test]
fn other_exit_is_rejected() {
    let r = check_exit(&Exit::Other { reason: String::from("Hlt") });
    match r {
        Err(ExitError::UnhandledExit(s)) => assert_eq!(s, "Hlt"),
        _ => panic!("expected an unhandled exit"),
    }
}

#[test]
fn generic_range_top_is_pass_through() {
    assert_eq!(route(&request_page(511, 0)), Request::SysCall);
    assert_eq!(route(&request_page(0, 0)), Request::SysCall);
}

#[test]
fn generic_range_end_is_unsupported() {
    assert_eq!(route(&request_page(512, 0)), Request::Unsupported { num: 512 });
    assert_eq!(route(&request_page(-1, 0)), Request::Unsupported { num: -1 });
}

#[test]
fn reserved_numbers_are_routed() {
    assert_eq!(
        route(&request_page(SYS_ENARX_BALLOON_MEMORY, 16)),
        Request::BalloonMemory { pages: 16 }
    );
    assert_eq!(route(&request_page(SYS_ENARX_MEM_INFO, 16)), Request::MemInfo);
}

#[test]
fn balloon_round_trip() {
    let k: u64 = 4;
    let base: u64 = 0x7f00_0000_0000;
    let mut block = request_page(SYS_ENARX_BALLOON_MEMORY, k);
    block.set_word(300, 9);
    assert_eq!(route(&block), Request::BalloonMemory { pages: 4 });
    assert_eq!(complete_balloon(&mut block, base), Command::Continue);
    assert_eq!(block.word(0), base);
    assert_eq!(block.word(1), 0);
    assert_eq!(block.word(2), 0);
    assert_eq!(block.word(300), 9);
}

#[test]
fn mem_info_record() {
    let v: u64 = 0xffff_8000_0000_0000;
    let mut block = request_page(SYS_ENARX_MEM_INFO, 0);
    block.set_word(2, 5);
    assert_eq!(route(&block), Request::MemInfo);
    let info = mem_info(v, 3);
    assert_eq!(info.virt_offset, v as i64);
    assert_eq!(info.mem_slots, 3);
    let r = complete_mem_info(&mut block, info);
    assert!(matches!(r, Ok(Command::Continue)));
    assert_eq!(block.word(8), v);
    assert_eq!(block.word(9), 3);
    assert_eq!(block.word(0), 0);
    assert_eq!(block.word(1), 0);
    assert_eq!(block.word(2), 0);
}

#[test]
fn unsupported_gets_enosys() {
    let mut block = request_page(512, 0);
    assert_eq!(complete_unsupported(&mut block), Command::Continue);
    assert_eq!(block.word(0) as i64, -38);
    assert_eq!(block.word(1), 0);
    assert_eq!(block.word(2), 0);
}

#[test]
fn page_round_trips_through_words() {
    let block = Block::zeroed();
    let words = block.into_words();
    assert_eq!(words.len(), PAGE_WORDS);
    assert!(words.iter().all(|w| *w == 0));
    let mut again = Block::from_words(words).unwrap();
    again.set_word(511, 1);
    assert_eq!(again.word(511), 1);
    assert_eq!(again.arg(0), 0);
    assert_eq!(again.num(), 0);
}

#[test]
fn wrong_length_is_no_page() {
    assert!(Block::from_words(vec![0; 511]).is_none());
    assert!(Block::from_words(vec![0; 513]).is_none());
    assert!(Block::from_words(Vec::new()).is_none());
}

#[test]
fn cursor_lends_scratch_words() {
    let block = Block::zeroed();
    let mut c = block.cursor();
    assert_eq!(c.lend(500), Ok(8));
    assert!(c.lend(5).is_err());
    assert_eq!(c.lend(4), Ok(508));
    assert!(c.lend(1).is_err());
    assert_eq!(c.lend(0), Ok(512));
}

#[test]
fn offset_is_made_from_any_value() {
    let _a: Offset<'_, u32> = Offset::new(0);
    let _b: Offset<'_, u64> = Offset::new(usize::MAX);
}

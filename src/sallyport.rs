//! The per-vCPU shared channel page.
//!
//! The page is seen as 64-bit little-endian words. Words `0..8` hold the
//! message: on the way in a request (syscall number, then seven arguments),
//! on the way back a reply (two result words, then an error word) laid over
//! the same words. The words after the message are scratch space that a
//! bump cursor lends out for payloads that do not fit in the reply.

use vstd::prelude::*;

verus! {

/// Bytes in one guest page.
pub const PAGE_SIZE: usize = 4096;
/// Words in one channel page.
pub const PAGE_WORDS: usize = 512;
/// Words taken by the message at the start of the page.
pub const MSG_WORDS: usize = 8;
/// Arguments that a request carries after its number.
pub const ARG_COUNT: usize = 7;
/// Words of scratch space after the message.
pub const SCRATCH_WORDS: usize = 504;
/// Word of the reply that carries the error slot.
pub const REPLY_ERR_WORD: usize = 2;

/// Relies on primordial's `Page::SIZE`: a page is 4096 bytes.
#[verifier::external_body]
fn page_size() -> (r: usize)
    ensures
        r == PAGE_SIZE,
{
    primordial::Page::SIZE
}

/// One channel page, as words.
pub struct Block {
    words: Vec<u64>,
}

impl View for Block {
    type V = Seq<u64>;

    closed spec fn view(&self) -> Seq<u64> {
        self.words@
    }
}

/// The syscall number that a page's request carries.
pub open spec fn request_num(page: Seq<u64>) -> i64 {
    #[verifier::truncate] (page[0] as i64)
}

/// Argument `i` of a page's request.
pub open spec fn request_arg(page: Seq<u64>, i: int) -> u64 {
    page[1 + i]
}

/// The page after a reply of result words `a`, `b` and a clear error slot
/// was written over its message.
pub open spec fn with_reply(page: Seq<u64>, a: u64, b: u64) -> Seq<u64> {
    page.update(0, a).update(1, b).update(REPLY_ERR_WORD as int, 0)
}

/// The reply that a failed syscall with error number `errno` leaves: the
/// negated number in the first result word.
pub open spec fn with_error_reply(page: Seq<u64>, errno: i64) -> Seq<u64> {
    with_reply(page, #[verifier::truncate] ((-errno) as u64), 0)
}

impl Block {
    /// A page holds exactly one page of words.
    pub open spec fn wf(&self) -> bool {
        self@.len() == PAGE_WORDS
    }

    /// A page of zero words.
    pub fn zeroed() -> (r: Block)
        ensures
            r.wf(),
            r@ == Seq::new(PAGE_WORDS as nat, |i: int| 0u64),
    {
        let words_per_page = page_size() / 8;
        let mut words: Vec<u64> = Vec::new();
        let mut i: usize = 0;
        while i < words_per_page
            invariant
                words_per_page == PAGE_WORDS,
                i <= words_per_page,
                words@ == Seq::new(i as nat, |j: int| 0u64),
            decreases words_per_page - i,
        {
            words.push(0);
            i = i + 1;
            proof {
                assert(words@ =~= Seq::new(i as nat, |j: int| 0u64));
            }
        }
        Block { words }
    }

    /// Reads a page from its words; `None` unless there is exactly one
    /// page of them.
    pub fn from_words(words: Vec<u64>) -> (r: Option<Block>)
        ensures
            words@.len() == PAGE_WORDS <==> r.is_some(),
            r matches Some(b) ==> b@ == words@,
    {
        if words.len() == PAGE_WORDS {
            Some(Block { words })
        } else {
            None
        }
    }

    /// The page's words, to be copied back into guest memory.
    pub fn into_words(self) -> (r: Vec<u64>)
        ensures
            r@ == self@,
    {
        self.words
    }

    /// Word `i` of the page.
    pub fn word(&self, i: usize) -> (r: u64)
        requires
            self.wf(),
            i < PAGE_WORDS,
        ensures
            r == self@[i as int],
    {
        self.words[i]
    }

    /// Overwrites word `i` of the page.
    pub fn set_word(&mut self, i: usize, v: u64)
        requires
            old(self).wf(),
            i < PAGE_WORDS,
        ensures
            final(self)@ == old(self)@.update(i as int, v),
            final(self).wf(),
    {
        self.words.set(i, v);
    }

    /// The syscall number of the request.
    pub fn num(&self) -> (r: i64)
        requires
            self.wf(),
        ensures
            r == request_num(self@),
    {
        self.words[0] as i64
    }

    /// Argument `i` of the request.
    pub fn arg(&self, i: usize) -> (r: u64)
        requires
            self.wf(),
            i < ARG_COUNT,
        ensures
            r == request_arg(self@, i as int),
    {
        self.words[1 + i]
    }

    /// Writes a successful reply with result words `a` and `b`.
    pub fn set_reply_ok(&mut self, a: u64, b: u64)
        requires
            old(self).wf(),
        ensures
            final(self).wf(),
            final(self)@ == with_reply(old(self)@, a, b),
    {
        self.words.set(0, a);
        self.words.set(1, b);
        self.words.set(REPLY_ERR_WORD, 0);
    }

    /// Writes a failed reply for error number `errno`.
    pub fn set_reply_err(&mut self, errno: i64)
        requires
            old(self).wf(),
            errno > i64::MIN,
        ensures
            final(self).wf(),
            final(self)@ == with_error_reply(old(self)@, errno),
    {
        let neg: i64 = -errno;
        self.set_reply_ok(neg as u64, 0);
    }

    /// A cursor over the page's whole scratch space.
    pub fn cursor(&self) -> (r: Cursor)
        ensures
            r.used() == 0,
    {
        Cursor { pos: 0 }
    }
}

/// The scratch space was too small for what was asked of it.
#[derive(Clone, Copy, Debug, PartialEq, Eq, Structural)]
pub struct AllocError;

/// A bump allocator over a page's scratch space.
pub struct Cursor {
    pos: usize,
}

impl Cursor {
    /// Scratch words lent out so far.
    pub closed spec fn used(&self) -> nat {
        self.pos as nat
    }

    /// Lends out the next `n` scratch words and returns the page word at
    /// which they start; fails, lending nothing, where fewer are left.
    pub fn lend(&mut self, n: usize) -> (r: Result<usize, AllocError>)
        requires
            old(self).used() <= SCRATCH_WORDS,
        ensures
            final(self).used() <= SCRATCH_WORDS,
            old(self).used() + n <= SCRATCH_WORDS <==> r.is_ok(),
            r matches Ok(at) ==> at == MSG_WORDS + old(self).used() && final(self).used()
                == old(self).used() + n,
            r.is_err() ==> final(self).used() == old(self).used(),
    {
        if n <= SCRATCH_WORDS - self.pos {
            let at = MSG_WORDS + self.pos;
            self.pos = self.pos + n;
            Ok(at)
        } else {
            Err(AllocError)
        }
    }
}

} // verus!

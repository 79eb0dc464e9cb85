//! Descriptors of an injection: where to intercept (a matcher) and which
//! fault to apply (an injector), each with its fixed-layout record.
//!
//! A record is the byte string the driver reads for one descriptor. Its fields
//! are packed in declaration order, each little-endian, with no padding, so
//! its length is a constant of the descriptor's kind.

use crate::protocol::wire::{
    le_bytes, lemma_le_bytes_injective, lemma_pow256_of_field_widths, put_le,
};
use vstd::prelude::*;

verus! {

/// Length in bytes of the record of an [`FsSyscall`].
pub const FS_SYSCALL_RECORD_SIZE: usize = 12;

/// Length in bytes of the record of a [`BlkIo`].
pub const BLK_IO_RECORD_SIZE: usize = 4;

/// Length in bytes of the record of a [`Delay`].
pub const DELAY_RECORD_SIZE: usize = 8;

/// Matches filesystem system calls issued by one process.
#[derive(Clone, Copy, Debug, PartialEq, Eq, Structural)]
pub struct FsSyscall {
    /// Process whose calls are matched.
    pub pid: u32,
    /// Set of matched system calls, one bit per call.
    pub syscall: u64,
}

/// Matches block I/O requests sent to one device.
#[derive(Clone, Copy, Debug, PartialEq, Eq, Structural)]
pub struct BlkIo {
    /// Device number of the matched block device.
    pub dev: u32,
}

/// Holds a matched operation back for a fixed time.
#[derive(Clone, Copy, Debug, PartialEq, Eq, Structural)]
pub struct Delay {
    /// Length of the delay in nanoseconds.
    pub delay: u64,
}

/// Where a fault applies.
#[derive(Clone, Copy, Debug, PartialEq, Eq, Structural)]
pub enum Matcher {
    FsSyscall(FsSyscall),
    BlkIo(BlkIo),
}

/// Which fault is applied.
#[derive(Clone, Copy, Debug, PartialEq, Eq, Structural)]
pub enum Injector {
    Delay(Delay),
}

/// One matcher paired with one injector, submitted as a unit.
#[derive(Clone, Copy, Debug, PartialEq, Eq, Structural)]
pub struct Injection {
    pub matcher: Matcher,
    pub injector: Injector,
}

impl FsSyscall {
    /// The record of this matcher: `pid` in bytes 0 to 3, `syscall` in bytes 4 to 11.
    pub open spec fn record(self) -> Seq<u8> {
        le_bytes(self.pid as nat, 4) + le_bytes(self.syscall as nat, 8)
    }

    /// Encodes this matcher into its record.
    pub fn encode(&self) -> (r: Vec<u8>)
        ensures
            r@ == self.record(),
            r@.len() == FS_SYSCALL_RECORD_SIZE,
    {
        let mut r: Vec<u8> = Vec::new();
        put_le(&mut r, self.pid as u64, 4);
        put_le(&mut r, self.syscall, 8);
        proof {
            assert(r@ =~= self.record());
        }
        r
    }
}

impl BlkIo {
    /// The record of this matcher: `dev` in bytes 0 to 3.
    pub open spec fn record(self) -> Seq<u8> {
        le_bytes(self.dev as nat, 4)
    }

    /// Encodes this matcher into its record.
    pub fn encode(&self) -> (r: Vec<u8>)
        ensures
            r@ == self.record(),
            r@.len() == BLK_IO_RECORD_SIZE,
    {
        let mut r: Vec<u8> = Vec::new();
        put_le(&mut r, self.dev as u64, 4);
        proof {
            assert(r@ =~= self.record());
        }
        r
    }
}

impl Delay {
    /// The record of this injector: `delay` in bytes 0 to 7.
    pub open spec fn record(self) -> Seq<u8> {
        le_bytes(self.delay as nat, 8)
    }

    /// Encodes this injector into its record.
    pub fn encode(&self) -> (r: Vec<u8>)
        ensures
            r@ == self.record(),
            r@.len() == DELAY_RECORD_SIZE,
    {
        let mut r: Vec<u8> = Vec::new();
        put_le(&mut r, self.delay, 8);
        proof {
            assert(r@ =~= self.record());
        }
        r
    }
}

impl Matcher {
    /// The record of the descriptor this matcher holds.
    pub open spec fn record(self) -> Seq<u8> {
        match self {
            Matcher::FsSyscall(fs_syscall) => fs_syscall.record(),
            Matcher::BlkIo(blk_io) => blk_io.record(),
        }
    }

    /// Length of the record of this matcher's kind.
    pub open spec fn record_size(self) -> usize {
        match self {
            Matcher::FsSyscall(_) => FS_SYSCALL_RECORD_SIZE,
            Matcher::BlkIo(_) => BLK_IO_RECORD_SIZE,
        }
    }

    /// Encodes the descriptor this matcher holds.
    pub fn encode(&self) -> (r: Vec<u8>)
        ensures
            r@ == self.record(),
            r@.len() == self.record_size(),
    {
        match self {
            Matcher::FsSyscall(fs_syscall) => fs_syscall.encode(),
            Matcher::BlkIo(blk_io) => blk_io.encode(),
        }
    }
}

impl Injector {
    /// The record of the descriptor this injector holds.
    pub open spec fn record(self) -> Seq<u8> {
        match self {
            Injector::Delay(delay) => delay.record(),
        }
    }

    /// Length of the record of this injector's kind.
    pub open spec fn record_size(self) -> usize {
        match self {
            Injector::Delay(_) => DELAY_RECORD_SIZE,
        }
    }

    /// Encodes the descriptor this injector holds.
    pub fn encode(&self) -> (r: Vec<u8>)
        ensures
            r@ == self.record(),
            r@.len() == self.record_size(),
    {
        match self {
            Injector::Delay(delay) => delay.encode(),
        }
    }
}

/// The record of a matcher has the length of its kind, whatever its fields hold.
pub proof fn lemma_matcher_record_size(matcher: Matcher)
    ensures
        matcher.record().len() == matcher.record_size(),
        matcher is FsSyscall ==> matcher.record().len() == 12,
        matcher is BlkIo ==> matcher.record().len() == 4,
{
}

/// The record of an injector has the length of its kind, whatever its fields hold.
pub proof fn lemma_injector_record_size(injector: Injector)
    ensures
        injector.record().len() == injector.record_size(),
        injector is Delay ==> injector.record().len() == 8,
{
}

/// Encoding is deterministic: the same matcher always has the same record.
pub proof fn lemma_matcher_record_deterministic(a: Matcher, b: Matcher)
    requires
        a == b,
    ensures
        a.record() == b.record(),
        a.record_size() == b.record_size(),
{
}

/// Encoding is deterministic: the same injector always has the same record.
pub proof fn lemma_injector_record_deterministic(a: Injector, b: Injector)
    requires
        a == b,
    ensures
        a.record() == b.record(),
        a.record_size() == b.record_size(),
{
}

/// Encoding loses nothing: matchers with the same record are the same matcher.
pub proof fn lemma_matcher_record_faithful(a: Matcher, b: Matcher)
    requires
        a.record() == b.record(),
    ensures
        a == b,
{
    lemma_pow256_of_field_widths();
    lemma_matcher_record_size(a);
    lemma_matcher_record_size(b);
    match (a, b) {
        (Matcher::FsSyscall(x), Matcher::FsSyscall(y)) => {
            assert(x.record().subrange(0, 4) =~= le_bytes(x.pid as nat, 4));
            assert(y.record().subrange(0, 4) =~= le_bytes(y.pid as nat, 4));
            assert(x.record().subrange(4, 12) =~= le_bytes(x.syscall as nat, 8));
            assert(y.record().subrange(4, 12) =~= le_bytes(y.syscall as nat, 8));
            lemma_le_bytes_injective(x.pid as nat, y.pid as nat, 4);
            lemma_le_bytes_injective(x.syscall as nat, y.syscall as nat, 8);
        },
        (Matcher::BlkIo(x), Matcher::BlkIo(y)) => {
            lemma_le_bytes_injective(x.dev as nat, y.dev as nat, 4);
        },
        _ => {},
    }
}

/// Encoding loses nothing: injectors with the same record are the same injector.
pub proof fn lemma_injector_record_faithful(a: Injector, b: Injector)
    requires
        a.record() == b.record(),
    ensures
        a == b,
{
    lemma_pow256_of_field_widths();
    match (a, b) {
        (Injector::Delay(x), Injector::Delay(y)) => {
            lemma_le_bytes_injective(x.delay as nat, y.delay as nat, 8);
        },
    }
}

} // verus!

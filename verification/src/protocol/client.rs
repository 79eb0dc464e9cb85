//! The command envelope and the client that plans control transactions.
//!
//! The client never touches the device. Each operation yields a
//! [`Transaction`]: the handle to address, the request to issue and its
//! argument. The caller performs it and hands the outcome to
//! [`Client::finish`], which reports what the driver answered.

use crate::protocol::injection::{
    lemma_injector_record_faithful, lemma_matcher_record_faithful, Injection, Injector, Matcher,
    BLK_IO_RECORD_SIZE, DELAY_RECORD_SIZE, FS_SYSCALL_RECORD_SIZE,
};
use crate::protocol::wire::{
    le_bytes, lemma_le_bytes_injective, lemma_pow256_of_field_widths, pow256, put_le,
};
use vstd::prelude::*;

verus! {

/// Path of the device through which the driver is reached.
pub const ENDPOINT: &'static str = "/dev/chaos";

/// Namespace shared by all request numbers of the driver.
pub const CHAOS_IOCTL_MAGIC: u8 = 0xC1;

/// Number of the request that asks for the driver's protocol version.
pub const GET_VERSION: u8 = 0;

/// Number of the request that submits an injection.
pub const CHAOS_INJECT: u8 = 1;

/// Number of the request that undoes an injection.
pub const CHAOS_RECOVER: u8 = 2;

/// Discriminant of a filesystem system call matcher.
pub const MATCHER_TYPE_FS_SYSCALL: u32 = 0;

/// Discriminant of a block I/O matcher.
pub const MATCHER_TYPE_BLK_IO: u32 = 1;

/// Discriminant of a delay injector.
pub const INJECTOR_TYPE_DELAY: u32 = 0;

/// Width in bytes of an address and of a size on this machine.
pub open spec fn word_size() -> nat {
    (usize::BITS / 8) as nat
}

/// Length in bytes of an encoded envelope: two discriminants and four words.
pub open spec fn envelope_size() -> nat {
    8 + 4 * word_size()
}

/// The discriminant the driver expects for a matcher.
pub open spec fn matcher_type_of(matcher: Matcher) -> u32 {
    match matcher {
        Matcher::FsSyscall(_) => MATCHER_TYPE_FS_SYSCALL,
        Matcher::BlkIo(_) => MATCHER_TYPE_BLK_IO,
    }
}

/// The discriminant the driver expects for an injector.
pub open spec fn injector_type_of(injector: Injector) -> u32 {
    match injector {
        Injector::Delay(_) => INJECTOR_TYPE_DELAY,
    }
}

/// What an envelope says, apart from where its records lie in memory.
pub struct Envelope {
    pub matcher_type: u32,
    pub matcher_arg: Seq<u8>,
    pub injector_type: u32,
    pub injector_arg: Seq<u8>,
}

impl Envelope {
    /// The envelope that submits `injection`.
    pub open spec fn of(injection: Injection) -> Envelope {
        Envelope {
            matcher_type: matcher_type_of(injection.matcher),
            matcher_arg: injection.matcher.record(),
            injector_type: injector_type_of(injection.injector),
            injector_arg: injection.injector.record(),
        }
    }

    /// Each discriminant is one the driver knows, and each record has the
    /// length of the kind its discriminant names.
    pub open spec fn well_formed(self) -> bool {
        &&& (self.matcher_type == MATCHER_TYPE_FS_SYSCALL && self.matcher_arg.len()
            == FS_SYSCALL_RECORD_SIZE) || (self.matcher_type == MATCHER_TYPE_BLK_IO
            && self.matcher_arg.len() == BLK_IO_RECORD_SIZE)
        &&& self.injector_type == INJECTOR_TYPE_DELAY && self.injector_arg.len()
            == DELAY_RECORD_SIZE
    }

    /// The record sent to the driver when the matcher's record lies at
    /// `matcher_addr` and the injector's at `injector_addr`: six fields with
    /// no padding between them, each little-endian.
    pub open spec fn wire(self, matcher_addr: usize, injector_addr: usize) -> Seq<u8> {
        le_bytes(self.matcher_type as nat, 4) + le_bytes(matcher_addr as nat, word_size())
            + le_bytes(self.matcher_arg.len(), word_size()) + le_bytes(
            self.injector_type as nat,
            4,
        ) + le_bytes(injector_addr as nat, word_size()) + le_bytes(
            self.injector_arg.len(),
            word_size(),
        )
    }
}

/// The envelope of every injection is well formed: its discriminants are
/// those the driver assigns to the two kinds, and its sizes are the lengths
/// of their records.
pub proof fn lemma_envelope_of_injection(injection: Injection)
    ensures
        Envelope::of(injection).well_formed(),
        injection.matcher is FsSyscall ==> Envelope::of(injection).matcher_type == 0
            && Envelope::of(injection).matcher_arg.len() == 12,
        injection.matcher is BlkIo ==> Envelope::of(injection).matcher_type == 1
            && Envelope::of(injection).matcher_arg.len() == 4,
        injection.injector is Delay ==> Envelope::of(injection).injector_type == 0
            && Envelope::of(injection).injector_arg.len() == 8,
{
}

/// Composing is deterministic and loses nothing: two injections have the
/// same envelope exactly when they are the same injection.
pub proof fn lemma_envelope_identifies_injection(a: Injection, b: Injection)
    ensures
        Envelope::of(a) == Envelope::of(b) <==> a == b,
{
    if Envelope::of(a) == Envelope::of(b) {
        lemma_matcher_record_faithful(a.matcher, b.matcher);
        lemma_injector_record_faithful(a.injector, b.injector);
    }
}

/// The layout of an encoded envelope: where each of the six fields starts,
/// how wide it is, and that nothing lies between or after them.
pub proof fn lemma_wire_layout(envelope: Envelope, matcher_addr: usize, injector_addr: usize)
    ensures
        ({
            let w = word_size() as int;
            let bytes = envelope.wire(matcher_addr, injector_addr);
            &&& bytes.len() == envelope_size()
            &&& bytes.subrange(0, 4) == le_bytes(envelope.matcher_type as nat, 4)
            &&& bytes.subrange(4, 4 + w) == le_bytes(matcher_addr as nat, word_size())
            &&& bytes.subrange(4 + w, 4 + 2 * w) == le_bytes(
                envelope.matcher_arg.len(),
                word_size(),
            )
            &&& bytes.subrange(4 + 2 * w, 8 + 2 * w) == le_bytes(envelope.injector_type as nat, 4)
            &&& bytes.subrange(8 + 2 * w, 8 + 3 * w) == le_bytes(
                injector_addr as nat,
                word_size(),
            )
            &&& bytes.subrange(8 + 3 * w, 8 + 4 * w) == le_bytes(
                envelope.injector_arg.len(),
                word_size(),
            )
        }),
{
    let w = word_size() as int;
    let bytes = envelope.wire(matcher_addr, injector_addr);
    assert(bytes.subrange(0, 4) =~= le_bytes(envelope.matcher_type as nat, 4));
    assert(bytes.subrange(4, 4 + w) =~= le_bytes(matcher_addr as nat, word_size()));
    assert(bytes.subrange(4 + w, 4 + 2 * w) =~= le_bytes(
        envelope.matcher_arg.len(),
        word_size(),
    ));
    assert(bytes.subrange(4 + 2 * w, 8 + 2 * w) =~= le_bytes(envelope.injector_type as nat, 4));
    assert(bytes.subrange(8 + 2 * w, 8 + 3 * w) =~= le_bytes(injector_addr as nat, word_size()));
    assert(bytes.subrange(8 + 3 * w, 8 + 4 * w) =~= le_bytes(
        envelope.injector_arg.len(),
        word_size(),
    ));
}

/// A word holds every address and every size of this machine.
pub proof fn lemma_word_holds_usize(x: usize)
    ensures
        word_size() == 4 || word_size() == 8,
        x < pow256(word_size()),
{
    lemma_pow256_of_field_widths();
    assert(usize::BITS == 32 || usize::BITS == 64);
}

/// An encoded envelope loses nothing: two that agree byte for byte agree in
/// both discriminants, both addresses and both sizes.
pub proof fn lemma_wire_faithful(
    a: Envelope,
    a_matcher_addr: usize,
    a_injector_addr: usize,
    b: Envelope,
    b_matcher_addr: usize,
    b_injector_addr: usize,
)
    requires
        a.well_formed(),
        b.well_formed(),
        a.wire(a_matcher_addr, a_injector_addr) == b.wire(b_matcher_addr, b_injector_addr),
    ensures
        a.matcher_type == b.matcher_type,
        a_matcher_addr == b_matcher_addr,
        a.matcher_arg.len() == b.matcher_arg.len(),
        a.injector_type == b.injector_type,
        a_injector_addr == b_injector_addr,
        a.injector_arg.len() == b.injector_arg.len(),
{
    let w = word_size();
    lemma_wire_layout(a, a_matcher_addr, a_injector_addr);
    lemma_wire_layout(b, b_matcher_addr, b_injector_addr);
    lemma_pow256_of_field_widths();
    lemma_word_holds_usize(a_matcher_addr);
    lemma_word_holds_usize(b_matcher_addr);
    lemma_word_holds_usize(a_injector_addr);
    lemma_word_holds_usize(b_injector_addr);
    lemma_le_bytes_injective(a.matcher_type as nat, b.matcher_type as nat, 4);
    lemma_le_bytes_injective(a_matcher_addr as nat, b_matcher_addr as nat, w);
    lemma_le_bytes_injective(a.matcher_arg.len(), b.matcher_arg.len(), w);
    lemma_le_bytes_injective(a.injector_type as nat, b.injector_type as nat, 4);
    lemma_le_bytes_injective(a_injector_addr as nat, b_injector_addr as nat, w);
    lemma_le_bytes_injective(a.injector_arg.len(), b.injector_arg.len(), w);
}

/// The command envelope of one injection, together with the two records it
/// refers to.
///
/// The envelope owns its records, so they live as long as it does, and it can
/// be neither copied nor built from parts: every value is the result of
/// [`ChaosInjection::compose`].
#[derive(Debug)]
pub struct ChaosInjection {
    matcher_type: u32,
    matcher_arg: Vec<u8>,
    injector_type: u32,
    injector_arg: Vec<u8>,
}

impl View for ChaosInjection {
    type V = Envelope;

    closed spec fn view(&self) -> Envelope {
        Envelope {
            matcher_type: self.matcher_type,
            matcher_arg: self.matcher_arg@,
            injector_type: self.injector_type,
            injector_arg: self.injector_arg@,
        }
    }
}

impl ChaosInjection {
    #[verifier::type_invariant]
    spec fn inv(self) -> bool {
        self@.well_formed()
    }

    /// Builds the envelope of `injection`, encoding both descriptors.
    pub fn compose(injection: Injection) -> (envelope: ChaosInjection)
        ensures
            envelope@ == Envelope::of(injection),
            envelope@.well_formed(),
            envelope@.matcher_arg.len() == injection.matcher.record_size(),
            envelope@.injector_arg.len() == injection.injector.record_size(),
    {
        match injection.matcher {
            Matcher::FsSyscall(fs_syscall) => {
                match injection.injector {
                    Injector::Delay(delay) => {
                        ChaosInjection {
                            matcher_type: MATCHER_TYPE_FS_SYSCALL,
                            matcher_arg: fs_syscall.encode(),
                            injector_type: INJECTOR_TYPE_DELAY,
                            injector_arg: delay.encode(),
                        }
                    },
                }
            },
            Matcher::BlkIo(blk_io) => {
                match injection.injector {
                    Injector::Delay(delay) => {
                        ChaosInjection {
                            matcher_type: MATCHER_TYPE_BLK_IO,
                            matcher_arg: blk_io.encode(),
                            injector_type: INJECTOR_TYPE_DELAY,
                            injector_arg: delay.encode(),
                        }
                    },
                }
            },
        }
    }

    /// Discriminant of the matcher.
    pub fn matcher_type(&self) -> (t: u32)
        ensures
            t == self@.matcher_type,
            self@.well_formed(),
    {
        proof {
            use_type_invariant(self);
        }
        self.matcher_type
    }

    /// The encoded matcher descriptor.
    pub fn matcher_arg(&self) -> (record: &Vec<u8>)
        ensures
            record@ == self@.matcher_arg,
    {
        &self.matcher_arg
    }

    /// Length in bytes of the encoded matcher descriptor.
    pub fn matcher_arg_size(&self) -> (n: usize)
        ensures
            n == self@.matcher_arg.len(),
            self@.well_formed(),
    {
        proof {
            use_type_invariant(self);
        }
        self.matcher_arg.len()
    }

    /// Discriminant of the injector.
    pub fn injector_type(&self) -> (t: u32)
        ensures
            t == self@.injector_type,
            self@.well_formed(),
    {
        proof {
            use_type_invariant(self);
        }
        self.injector_type
    }

    /// The encoded injector descriptor.
    pub fn injector_arg(&self) -> (record: &Vec<u8>)
        ensures
            record@ == self@.injector_arg,
    {
        &self.injector_arg
    }

    /// Length in bytes of the encoded injector descriptor.
    pub fn injector_arg_size(&self) -> (n: usize)
        ensures
            n == self@.injector_arg.len(),
            self@.well_formed(),
    {
        proof {
            use_type_invariant(self);
        }
        self.injector_arg.len()
    }

    /// Encodes the envelope for a driver that finds the matcher's record at
    /// `matcher_addr` and the injector's record at `injector_addr`.
    pub fn encode(&self, matcher_addr: usize, injector_addr: usize) -> (bytes: Vec<u8>)
        ensures
            bytes@ == self@.wire(matcher_addr, injector_addr),
            bytes@.len() == envelope_size(),
    {
        let word: usize = (usize::BITS / 8) as usize;
        let mut bytes: Vec<u8> = Vec::new();
        put_le(&mut bytes, self.matcher_type as u64, 4);
        put_le(&mut bytes, matcher_addr as u64, word);
        put_le(&mut bytes, self.matcher_arg.len() as u64, word);
        put_le(&mut bytes, self.injector_type as u64, 4);
        put_le(&mut bytes, injector_addr as u64, word);
        put_le(&mut bytes, self.injector_arg.len() as u64, word);
        bytes
    }
}

/// A request to the driver, with the argument that goes with it.
#[derive(Debug)]
pub enum Request {
    /// Asks for the protocol version. Carries no argument.
    GetVersion,
    /// Submits an injection. The argument is the address of the encoded envelope.
    ChaosInject(ChaosInjection),
    /// Undoes an injection. The argument is the identifier itself.
    ChaosRecover(libc::c_ulong),
}

impl Request {
    /// The number of this request within the driver's namespace.
    pub open spec fn spec_number(&self) -> u8 {
        match self {
            Request::GetVersion => GET_VERSION,
            Request::ChaosInject(_) => CHAOS_INJECT,
            Request::ChaosRecover(_) => CHAOS_RECOVER,
        }
    }

    /// The number of this request within the driver's namespace.
    #[verifier::when_used_as_spec(spec_number)]
    pub fn number(&self) -> (n: u8)
        ensures
            n == self.spec_number(),
    {
        match self {
            Request::GetVersion => GET_VERSION,
            Request::ChaosInject(_) => CHAOS_INJECT,
            Request::ChaosRecover(_) => CHAOS_RECOVER,
        }
    }
}

/// Each kind of request has a number of its own.
pub proof fn lemma_request_numbers_distinct(a: Request, b: Request)
    ensures
        a.spec_number() == b.spec_number() <==> (a is GetVersion && b is GetVersion) || (a
            is ChaosInject && b is ChaosInject) || (a is ChaosRecover && b is ChaosRecover),
{
}

/// One control transaction, planned and not yet performed.
#[derive(Debug)]
pub struct Transaction {
    /// Handle of the device the request is issued on.
    pub fd: i32,
    /// The request and its argument.
    pub request: Request,
}

/// The device could not be opened. Holds the error number of the attempt.
#[derive(Clone, Copy, Debug, PartialEq, Eq, Structural)]
pub struct ConnectionError {
    pub errno: i32,
}

/// A control transaction failed. Holds the error number it reported.
#[derive(Clone, Copy, Debug, PartialEq, Eq, Structural)]
pub struct ControlError {
    pub errno: i32,
}

/// A connection to the driver: the one open handle of its device.
///
/// A client cannot be copied, and [`Client::release`] consumes it, so the
/// handle is given up for closing at most once.
#[derive(Debug)]
pub struct Client {
    fd: i32,
}

impl Client {
    /// Handle of the device this client owns.
    pub closed spec fn spec_fd(&self) -> i32 {
        self.fd
    }

    /// Handle of the device this client owns.
    #[verifier::when_used_as_spec(spec_fd)]
    pub fn fd(&self) -> (fd: i32)
        ensures
            fd == self.spec_fd(),
    {
        self.fd
    }

    /// Makes a client from the outcome of opening [`ENDPOINT`]: the handle
    /// if the device was opened, else the error number.
    pub fn build(opened: Result<i32, i32>) -> (built: Result<Client, ConnectionError>)
        ensures
            match opened {
                Ok(fd) => built is Ok && built->Ok_0.spec_fd() == fd,
                Err(errno) => built is Err && built->Err_0.errno == errno,
            },
    {
        match opened {
            Ok(fd) => Ok(Client { fd }),
            Err(errno) => Err(ConnectionError { errno }),
        }
    }

    /// Plans the query of the driver's protocol version.
    pub fn get_version(&self) -> (transaction: Transaction)
        ensures
            transaction.fd == self.spec_fd(),
            transaction.request is GetVersion,
    {
        Transaction { fd: self.fd, request: Request::GetVersion }
    }

    /// Plans the submission of `injection`.
    pub fn inject(&self, injection: Injection) -> (transaction: Transaction)
        ensures
            transaction.fd == self.spec_fd(),
            transaction.request is ChaosInject,
            transaction.request->ChaosInject_0@ == Envelope::of(injection),
            transaction.request->ChaosInject_0@.well_formed(),
    {
        let envelope = ChaosInjection::compose(injection);
        Transaction { fd: self.fd, request: Request::ChaosInject(envelope) }
    }

    /// Plans the recovery of the injection that `id` names.
    pub fn recover(&self, id: libc::c_ulong) -> (transaction: Transaction)
        ensures
            transaction.fd == self.spec_fd(),
            transaction.request == Request::ChaosRecover(id),
    {
        Transaction { fd: self.fd, request: Request::ChaosRecover(id) }
    }

    /// Reports the outcome of a performed transaction: the integer the
    /// driver returned, or the error number with which the transaction
    /// failed. The client stays usable either way.
    pub fn finish(&self, outcome: Result<i32, i32>) -> (answer: Result<i32, ControlError>)
        ensures
            match outcome {
                Ok(value) => answer is Ok && answer->Ok_0 == value,
                Err(errno) => answer is Err && answer->Err_0.errno == errno,
            },
    {
        match outcome {
            Ok(value) => Ok(value),
            Err(errno) => Err(ControlError { errno }),
        }
    }

    /// Ends the connection and hands the handle over for closing.
    pub fn release(self) -> (fd: i32)
        ensures
            fd == self.spec_fd(),
    {
        self.fd
    }
}

} // verus!

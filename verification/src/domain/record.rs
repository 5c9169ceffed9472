//! The stored form of one result: a header with the format version, the
//! completion time, the exit code and both output lengths, then both outputs,
//! then the SHA-256 digest of everything before it.

use crate::bytes::{
    capacities, copied, le, le_len, le_of_le_value, le_value, le_value_of_le, push_all, push_le,
    read_le, same_bytes,
};
use crate::digest::{digestible, sha256, sha256_of};
use crate::time::{representable, Duration, SystemTime, NANOS_PER_SEC};
use vstd::prelude::*;

verus! {

/// A command's result.
#[derive(Debug)]
pub struct Record {
    pub completed: SystemTime,
    pub code: i32,
    pub stdout: Vec<u8>,
    pub stderr: Vec<u8>,
}

/// A command's result: when it completed (in nanoseconds since the Unix
/// epoch), its exit code and its output.
#[verifier::ext_equal]
pub struct RecordView {
    pub completed: int,
    pub code: int,
    pub stdout: Seq<u8>,
    pub stderr: Seq<u8>,
}

impl View for Record {
    type V = RecordView;

    open spec fn view(&self) -> RecordView {
        RecordView {
            completed: self.completed@,
            code: self.code as int,
            stdout: self.stdout@,
            stderr: self.stderr@,
        }
    }
}

/// Whether a result that completed at `completed` is at most `ttl` old at
/// `now`. One that completed in the future is not.
pub open spec fn is_fresh(completed: int, ttl: nat, now: int) -> bool {
    0 <= now - completed <= ttl
}

impl RecordView {
    /// Whether the output is short enough to be digested with its header.
    pub open spec fn storable(self) -> bool {
        digestible(44 + self.stdout.len() + self.stderr.len())
    }
}

impl Record {
    /// Whether the result is at most `ttl` old at `now`. One that completed in
    /// the future is not.
    pub fn fresh(&self, ttl: Duration, now: SystemTime) -> (fresh: bool)
        ensures
            fresh == is_fresh(self@.completed, ttl@, now@),
    {
        match now.duration_since(self.completed) {
            Ok(age) => age <= ttl.as_nanos(),
            Err(_) => false,
        }
    }
}

/// Why bytes are not a stored result.
#[derive(Clone, Copy, Debug, PartialEq, Eq, Structural)]
pub enum RecordError {
    /// Too short, or not in this format version.
    InvalidHeader,
    ChecksumMismatch,
    /// A number does not fit the type that it is read into.
    OutOfRange,
    InvalidTimestamp,
    InvalidExitCode,
    InvalidLengths,
    /// A completion time before the Unix epoch cannot be stored.
    BeforeEpoch,
}

impl RecordError {
    pub open spec fn says(self) -> Seq<char> {
        match self {
            RecordError::InvalidHeader => "invalid header"@,
            RecordError::ChecksumMismatch => "checksum mismatch"@,
            RecordError::OutOfRange => "out of range integral type conversion attempted"@,
            RecordError::InvalidTimestamp => "invalid completion timestamp"@,
            RecordError::InvalidExitCode => "invalid exit code"@,
            RecordError::InvalidLengths => "invalid output lengths"@,
            RecordError::BeforeEpoch => "second time provided was later than self"@,
        }
    }

    pub fn text(self) -> (text: &'static str)
        ensures
            text@ == self.says(),
    {
        match self {
            RecordError::InvalidHeader => "invalid header",
            RecordError::ChecksumMismatch => "checksum mismatch",
            RecordError::OutOfRange => "out of range integral type conversion attempted",
            RecordError::InvalidTimestamp => "invalid completion timestamp",
            RecordError::InvalidExitCode => "invalid exit code",
            RecordError::InvalidLengths => "invalid output lengths",
            RecordError::BeforeEpoch => "second time provided was later than self",
        }
    }
}

/// `CEXEC`, which every format version starts with.
pub open spec fn family() -> Seq<u8> {
    seq![67u8, 69u8, 88u8, 69u8, 67u8]
}

/// `CEXEC001`: the family, then this format's three-digit version.
pub open spec fn magic() -> Seq<u8> {
    family() + seq![48u8, 48u8, 49u8]
}

fn push_magic(bytes: &mut Vec<u8>)
    ensures
        final(bytes)@ == old(bytes)@ + magic(),
{
    let ghost before = bytes@;
    bytes.push(67);
    bytes.push(69);
    bytes.push(88);
    bytes.push(69);
    bytes.push(67);
    bytes.push(48);
    bytes.push(48);
    bytes.push(49);
    assert(bytes@ =~= before + magic());
}

pub open spec fn is_digit(byte: u8) -> bool {
    48 <= byte <= 57
}

/// Whether `bytes` start with the header of another three-digit version of
/// this format.
pub open spec fn is_other_version(bytes: Seq<u8>) -> bool {
    &&& bytes.len() >= 8
    &&& bytes.take(8) != magic()
    &&& bytes.take(5) == family()
    &&& is_digit(bytes[5])
    &&& is_digit(bytes[6])
    &&& is_digit(bytes[7])
}

/// Whether `bytes` are written in another version of this format, which this
/// one can neither reuse nor verify.
pub fn other_version(bytes: &[u8]) -> (other: bool)
    ensures
        other == is_other_version(bytes@),
{
    if bytes.len() < 8 {
        return false;
    }
    let in_family = bytes[0] == 67 && bytes[1] == 69 && bytes[2] == 88 && bytes[3] == 69 && bytes[4]
        == 67;
    let digits = 48 <= bytes[5] && bytes[5] <= 57 && 48 <= bytes[6] && bytes[6] <= 57 && 48
        <= bytes[7] && bytes[7] <= 57;
    let this_version = bytes[5] == 48 && bytes[6] == 48 && bytes[7] == 49;
    proof {
        assert(in_family ==> bytes@.take(5) =~= family());
        assert(bytes@.take(5) == family() ==> in_family) by {
            assert forall|i: int| 0 <= i < 5 && bytes@.take(5) == family() implies bytes@[i]
                == family()[i] by {
                assert(bytes@[i] == bytes@.take(5)[i]);
            }
        }
        assert(in_family && this_version ==> bytes@.take(8) =~= magic());
        assert(bytes@.take(8) == magic() ==> in_family && this_version) by {
            assert forall|i: int| 0 <= i < 8 && bytes@.take(8) == magic() implies bytes@[i]
                == magic()[i] by {
                assert(bytes@[i] == bytes@.take(8)[i]);
            }
        }
    }
    in_family && digits && !this_version
}

/// The 32-bit two's complement of an exit code.
pub open spec fn code_bits(code: int) -> nat {
    (code % 0x1_0000_0000) as nat
}

/// Everything in the stored form of `record` before its digest.
pub open spec fn body(record: RecordView) -> Seq<u8> {
    magic() + le(record.completed as nat, 16) + le(code_bits(record.code), 4) + le(
        record.stdout.len(),
        8,
    ) + le(record.stderr.len(), 8) + record.stdout + record.stderr
}

/// The stored form of `record`.
pub open spec fn encoded(record: RecordView) -> Seq<u8> {
    body(record) + sha256_of(body(record))@
}

/// What stored bytes mean.
pub open spec fn decoded(bytes: Seq<u8>) -> Result<RecordView, RecordError> {
    decoded_with(bytes, sha256_of(bytes.take(bytes.len() - 32))@)
}

/// What stored bytes mean if `digest` is the digest of all but their last 32.
pub open spec fn decoded_with(bytes: Seq<u8>, digest: Seq<u8>) -> Result<RecordView, RecordError> {
    if bytes.len() < 76 || bytes.take(8) != magic() {
        Err(RecordError::InvalidHeader)
    } else {
        let body = bytes.take(bytes.len() - 32);
        let nanos = le_value(body.subrange(8, 24));
        let code = le_value(body.subrange(24, 28));
        let out_len = le_value(body.subrange(28, 36));
        let err_len = le_value(body.subrange(36, 44));
        if digest != bytes.skip(bytes.len() - 32) {
            Err(RecordError::ChecksumMismatch)
        } else if nanos / 1_000_000_000 > u64::MAX {
            Err(RecordError::OutOfRange)
        } else if !representable(nanos as int) {
            Err(RecordError::InvalidTimestamp)
        } else if code > 255 {
            Err(RecordError::InvalidExitCode)
        } else if out_len > usize::MAX || err_len > usize::MAX {
            Err(RecordError::OutOfRange)
        } else if out_len + err_len != body.len() - 44 {
            Err(RecordError::InvalidLengths)
        } else {
            Ok(
                RecordView {
                    completed: nanos as int,
                    code: code as int,
                    stdout: body.subrange(44, 44 + out_len as int),
                    stderr: body.skip(44 + out_len as int),
                },
            )
        }
    }
}

/// `result` with the record in it replaced by its view.
pub open spec fn viewed(result: Result<Record, RecordError>) -> Result<RecordView, RecordError> {
    match result {
        Ok(record) => Ok(record@),
        Err(error) => Err(error),
    }
}

/// Reads a stored result.
pub fn decode(bytes: &[u8]) -> (result: Result<Record, RecordError>)
    requires
        digestible(bytes@.len()),
    ensures
        viewed(result) == decoded(bytes@),
        result matches Ok(record) ==> record.completed.nanos < NANOS_PER_SEC,
{
    if bytes.len() < 76 {
        return Err(RecordError::InvalidHeader);
    }
    let body = bytes.split_at(bytes.len() - 32).0;
    assert(body@ =~= bytes@.take(bytes@.len() - 32));
    let digest = sha256(body);
    decode_with(bytes, digest.as_slice())
}

/// Reads a stored result, of which `digest` is the digest of all but the last
/// 32 bytes.
pub fn decode_with(bytes: &[u8], digest: &[u8]) -> (result: Result<Record, RecordError>)
    ensures
        viewed(result) == decoded_with(bytes@, digest@),
        result matches Ok(record) ==> record.completed.nanos < NANOS_PER_SEC,
{
    let mut magic: Vec<u8> = Vec::new();
    push_magic(&mut magic);
    assert(magic@ =~= self::magic());
    if bytes.len() < 76 {
        return Err(RecordError::InvalidHeader);
    }
    let start = bytes.split_at(8).0;
    assert(start@ =~= bytes@.take(8));
    if !same_bytes(start, magic.as_slice()) {
        return Err(RecordError::InvalidHeader);
    }
    let (body, checksum) = bytes.split_at(bytes.len() - 32);
    assert(body@ =~= bytes@.take(bytes@.len() - 32));
    assert(checksum@ =~= bytes@.skip(bytes@.len() - 32));
    if !same_bytes(digest, checksum) {
        return Err(RecordError::ChecksumMismatch);
    }
    proof {
        le_of_le_value(body@.subrange(8, 24));
        le_of_le_value(body@.subrange(24, 28));
        le_of_le_value(body@.subrange(28, 36));
        le_of_le_value(body@.subrange(36, 44));
        capacities();
    }
    let nanos = read_le(body, 8, 24);
    if nanos / 1_000_000_000 > u64::MAX as u128 {
        return Err(RecordError::OutOfRange);
    }
    let completed = match SystemTime::from_nanos(nanos as i128) {
        Some(completed) => completed,
        None => {
            return Err(RecordError::InvalidTimestamp);
        },
    };
    let code = read_le(body, 24, 28);
    if code > 255 {
        return Err(RecordError::InvalidExitCode);
    }
    let out_len = read_le(body, 28, 36);
    let err_len = read_le(body, 36, 44);
    if out_len > usize::MAX as u128 || err_len > usize::MAX as u128 {
        return Err(RecordError::OutOfRange);
    }
    if out_len + err_len != (body.len() - 44) as u128 {
        return Err(RecordError::InvalidLengths);
    }
    let output = body.split_at(44).1;
    let (stdout, stderr) = output.split_at(out_len as usize);
    let record = Record { completed, code: code as i32, stdout: copied(stdout), stderr: copied(stderr) };
    proof {
        assert(record@.stdout =~= body@.subrange(44, 44 + out_len));
        assert(record@.stderr =~= body@.skip(44 + out_len as int));
    }
    Ok(record)
}

/// Everything in the stored form of `record` before its digest. A completion
/// time before the Unix epoch has no stored form.
pub fn encode_body(record: &Record) -> (result: Result<Vec<u8>, RecordError>)
    ensures
        match result {
            Ok(bytes) => record@.completed >= 0 && bytes@ == body(record@),
            Err(error) => record@.completed < 0 && error == RecordError::BeforeEpoch,
        },
{
    let nanos = record.completed.since_epoch();
    if nanos < 0 {
        return Err(RecordError::BeforeEpoch);
    }
    let mut body: Vec<u8> = Vec::new();
    push_magic(&mut body);
    push_le(&mut body, nanos as u128, 16);
    let bits: u128 = if record.code < 0 {
        (record.code as i64 + 0x1_0000_0000) as u128
    } else {
        record.code as u128
    };
    push_le(&mut body, bits, 4);
    push_le(&mut body, record.stdout.len() as u128, 8);
    push_le(&mut body, record.stderr.len() as u128, 8);
    push_all(&mut body, record.stdout.as_slice());
    push_all(&mut body, record.stderr.as_slice());
    proof {
        assert(bits == code_bits(record@.code));
        assert(body@ =~= self::body(record@));
    }
    Ok(body)
}

/// Appends the stored form of `record` to `bytes`.
pub fn encode_into(bytes: &mut Vec<u8>, record: &Record) -> (result: Result<(), RecordError>)
    requires
        record@.storable(),
    ensures
        match result {
            Ok(()) => {
                &&& record@.completed >= 0
                &&& final(bytes)@ == old(bytes)@ + encoded(record@)
            },
            Err(error) => {
                &&& record@.completed < 0
                &&& error == RecordError::BeforeEpoch
                &&& final(bytes)@ == old(bytes)@
            },
        },
{
    let body = match encode_body(record) {
        Ok(body) => body,
        Err(error) => {
            return Err(error);
        },
    };
    proof {
        body_len(record@);
    }
    let digest = sha256(body.as_slice());
    let ghost before = bytes@;
    push_all(bytes, body.as_slice());
    push_all(bytes, digest.as_slice());
    assert(bytes@ =~= before + encoded(record@));
    Ok(())
}

/// The stored form of `record`. A completion time before the Unix epoch has
/// none.
pub fn encode(record: &Record) -> (result: Result<Vec<u8>, RecordError>)
    requires
        record@.storable(),
    ensures
        match result {
            Ok(bytes) => record@.completed >= 0 && bytes@ == encoded(record@),
            Err(error) => record@.completed < 0 && error == RecordError::BeforeEpoch,
        },
{
    let mut bytes: Vec<u8> = Vec::new();
    match encode_into(&mut bytes, record) {
        Ok(()) => {
            assert(bytes@ =~= encoded(record@));
            Ok(bytes)
        },
        Err(error) => Err(error),
    }
}

/// The header takes 44 bytes.
pub proof fn body_len(record: RecordView)
    ensures
        body(record).len() == 44 + record.stdout.len() + record.stderr.len(),
{
    le_len(record.completed as nat, 16);
    le_len(code_bits(record.code), 4);
    le_len(record.stdout.len(), 8);
    le_len(record.stderr.len(), 8);
}

/// Where each part of a stored result stands.
proof fn parts(record: RecordView)
    ensures
        ({
            let body = body(record);
            let out_end = 44 + record.stdout.len() as int;
            &&& body.len() == out_end + record.stderr.len()
            &&& body.take(8) == magic()
            &&& body.subrange(8, 24) == le(record.completed as nat, 16)
            &&& body.subrange(24, 28) == le(code_bits(record.code), 4)
            &&& body.subrange(28, 36) == le(record.stdout.len(), 8)
            &&& body.subrange(36, 44) == le(record.stderr.len(), 8)
            &&& body.subrange(44, out_end) == record.stdout
            &&& body.skip(out_end) == record.stderr
        }),
{
    body_len(record);
    le_len(record.completed as nat, 16);
    le_len(code_bits(record.code), 4);
    le_len(record.stdout.len(), 8);
    le_len(record.stderr.len(), 8);
    let body = body(record);
    let out_end = 44 + record.stdout.len() as int;
    assert(body.take(8) =~= magic());
    assert(body.subrange(8, 24) =~= le(record.completed as nat, 16));
    assert(body.subrange(24, 28) =~= le(code_bits(record.code), 4));
    assert(body.subrange(28, 36) =~= le(record.stdout.len(), 8));
    assert(body.subrange(36, 44) =~= le(record.stderr.len(), 8));
    assert(body.subrange(44, out_end) =~= record.stdout);
    assert(body.skip(out_end) =~= record.stderr);
}

/// A stored result with a normal exit code is read back as it was: its
/// completion time, its exit code and every byte of its output.
pub proof fn a_stored_result_is_read_back(record: RecordView)
    requires
        0 <= record.completed && representable(record.completed),
        0 <= record.code <= 255,
        record.stdout.len() <= usize::MAX,
        record.stderr.len() <= usize::MAX,
    ensures
        decoded(encoded(record)) == Ok::<RecordView, RecordError>(record),
{
    parts(record);
    capacities();
    le_value_of_le(record.completed as nat, 16);
    le_value_of_le(code_bits(record.code), 4);
    le_value_of_le(record.stdout.len(), 8);
    le_value_of_le(record.stderr.len(), 8);
    let bytes = encoded(record);
    assert(bytes.take(8) =~= body(record).take(8));
    assert(bytes.take(bytes.len() - 32) =~= body(record));
    assert(bytes.skip(bytes.len() - 32) =~= sha256_of(body(record))@);
}

/// An exit code that no process can end with is never read back, so a result
/// with one cannot be replayed.
pub proof fn an_abnormal_code_is_not_read_back(record: RecordView)
    requires
        0 <= record.completed && representable(record.completed),
        i32::MIN <= record.code <= i32::MAX,
        !(0 <= record.code <= 255),
        record.stdout.len() <= usize::MAX,
        record.stderr.len() <= usize::MAX,
    ensures
        decoded(encoded(record)) == Err::<RecordView, RecordError>(RecordError::InvalidExitCode),
{
    parts(record);
    capacities();
    le_value_of_le(record.completed as nat, 16);
    le_value_of_le(code_bits(record.code), 4);
    let bytes = encoded(record);
    assert(bytes.take(8) =~= body(record).take(8));
    assert(bytes.take(bytes.len() - 32) =~= body(record));
    assert(bytes.skip(bytes.len() - 32) =~= sha256_of(body(record))@);
}

/// Only the stored form of a result is read as that result: bytes that decode
/// are exactly the bytes that encoding gives.
pub proof fn only_the_stored_form_is_read(bytes: Seq<u8>)
    requires
        decoded(bytes) is Ok,
    ensures
        encoded(decoded(bytes)->Ok_0) == bytes,
        0 <= decoded(bytes)->Ok_0.completed && representable(decoded(bytes)->Ok_0.completed),
        0 <= decoded(bytes)->Ok_0.code <= 255,
{
    let record = decoded(bytes)->Ok_0;
    let body = bytes.take(bytes.len() - 32);
    le_of_le_value(body.subrange(8, 24));
    le_of_le_value(body.subrange(24, 28));
    le_of_le_value(body.subrange(28, 36));
    le_of_le_value(body.subrange(36, 44));
    assert(body.take(8) =~= bytes.take(8));
    assert(self::body(record) =~= body.take(8) + body.subrange(8, 24) + body.subrange(24, 28)
        + body.subrange(28, 36) + body.subrange(36, 44) + body.subrange(
        44,
        44 + record.stdout.len() as int,
    ) + body.skip(44 + record.stdout.len() as int));
    assert(self::body(record) =~= body);
    assert(encoded(record) =~= bytes);
}

/// Different results have different stored forms.
pub proof fn stored_forms_differ(a: RecordView, b: RecordView)
    requires
        0 <= a.completed && representable(a.completed),
        0 <= b.completed && representable(b.completed),
        0 <= a.code <= 255,
        0 <= b.code <= 255,
        a.stdout.len() <= usize::MAX,
        a.stderr.len() <= usize::MAX,
        b.stdout.len() <= usize::MAX,
        b.stderr.len() <= usize::MAX,
        encoded(a) == encoded(b),
    ensures
        a == b,
{
    a_stored_result_is_read_back(a);
    a_stored_result_is_read_back(b);
}

/// Bytes in another format version are never read as a result of this one.
pub proof fn another_version_is_never_read(bytes: Seq<u8>)
    requires
        is_other_version(bytes),
    ensures
        decoded(bytes) == Err::<RecordView, RecordError>(RecordError::InvalidHeader),
{
}

/// A result stored in this format is never taken for one of another version.
pub proof fn this_version_is_not_another(record: RecordView)
    ensures
        !is_other_version(encoded(record)),
{
    parts(record);
    assert(encoded(record).take(8) =~= body(record).take(8));
}

/// A result that is fresh for some limit stays fresh for every longer one, and
/// a limit of zero leaves only the moment of completion.
pub proof fn freshness_grows_with_the_limit(completed: int, ttl: nat, longer: nat, now: int)
    requires
        ttl <= longer,
    ensures
        is_fresh(completed, ttl, now) ==> is_fresh(completed, longer, now),
        is_fresh(completed, 0, now) <==> now == completed,
{
}

/// A result is fresh exactly if it completed no later than now and no longer
/// ago than the limit.
pub proof fn fresh_is_at_most_as_old_as_the_limit(
    record: &Record,
    ttl: Duration,
    now: SystemTime,
    fresh: bool,
)
    requires
        call_ensures(Record::fresh, (record, ttl, now), fresh),
    ensures
        fresh <==> record.completed@ <= now@ && now@ - record.completed@ <= ttl.secs * 1_000_000_000
            + ttl.nanos,
{
}

/// How the stored form of a result is laid out: the format and its version, the
/// completion time in 16 bytes, the exit code in 4 and the lengths of both
/// outputs in 8 each, least significant byte first, then both outputs and the
/// digest of everything before it. Every result after the epoch has one.
pub proof fn the_stored_form_holds_every_part(
    record: &Record,
    result: Result<Vec<u8>, RecordError>,
)
    requires
        record@.storable(),
        call_ensures(encode, (record,), result),
    ensures
        result is Ok <==> record.completed@ >= 0,
        result is Err ==> result->Err_0 == RecordError::BeforeEpoch,
        result is Ok ==> {
            let bytes = result->Ok_0@;
            let out_len = record.stdout@.len() as int;
            let err_len = record.stderr@.len() as int;
            &&& bytes.len() == 76 + out_len + err_len
            &&& bytes.take(8) == seq![67u8, 69u8, 88u8, 69u8, 67u8, 48u8, 48u8, 49u8]
            &&& le_value(bytes.subrange(8, 24)) == record.completed@
            &&& 0 <= record.code <= 255 ==> le_value(bytes.subrange(24, 28)) == record.code
            &&& le_value(bytes.subrange(28, 36)) == out_len
            &&& le_value(bytes.subrange(36, 44)) == err_len
            &&& bytes.subrange(44, 44 + out_len) == record.stdout@
            &&& bytes.subrange(44 + out_len, 44 + out_len + err_len) == record.stderr@
            &&& bytes.skip(bytes.len() - 32) == sha256_of(bytes.take(bytes.len() - 32))@
        },
{
    if result is Ok {
        let bytes = result->Ok_0@;
        let whole = body(record@);
        let out_len = record.stdout@.len() as int;
        let err_len = record.stderr@.len() as int;
        parts(record@);
        capacities();
        le_value_of_le(record@.completed as nat, 16);
        le_value_of_le(code_bits(record@.code), 4);
        le_value_of_le(record@.stdout.len(), 8);
        le_value_of_le(record@.stderr.len(), 8);
        assert(bytes.take(bytes.len() - 32) =~= whole);
        assert(bytes.skip(bytes.len() - 32) =~= sha256_of(whole)@);
        assert(bytes.take(8) =~= whole.take(8));
        assert(magic() =~= seq![67u8, 69u8, 88u8, 69u8, 67u8, 48u8, 48u8, 49u8]);
        assert(bytes.subrange(8, 24) =~= whole.subrange(8, 24));
        assert(bytes.subrange(24, 28) =~= whole.subrange(24, 28));
        assert(bytes.subrange(28, 36) =~= whole.subrange(28, 36));
        assert(bytes.subrange(36, 44) =~= whole.subrange(36, 44));
        assert(bytes.subrange(44, 44 + out_len) =~= whole.subrange(44, 44 + out_len));
        assert(bytes.subrange(44 + out_len, 44 + out_len + err_len) =~= whole.skip(44 + out_len));
    }
}

/// What is appended to bytes is the stored form of the result, and what was
/// there stays; the part before the digest is that of the whole.
pub proof fn a_stored_form_is_appended_as_it_is(
    bytes: &mut Vec<u8>,
    record: &Record,
    appended: Result<(), RecordError>,
    alone: Result<Vec<u8>, RecordError>,
    body: Result<Vec<u8>, RecordError>,
)
    requires
        record@.storable(),
        call_ensures(encode_into, (bytes, record), appended),
        call_ensures(encode, (record,), alone),
        call_ensures(encode_body, (record,), body),
    ensures
        appended is Ok <==> alone is Ok,
        body is Ok <==> alone is Ok,
        alone is Ok ==> final(bytes)@ == old(bytes)@ + alone->Ok_0@,
        alone is Ok ==> body->Ok_0@ == alone->Ok_0@.take(alone->Ok_0@.len() - 32),
        alone is Err ==> final(bytes)@ == old(bytes)@,
{
    if alone is Ok {
        assert(body->Ok_0@ =~= alone->Ok_0@.take(alone->Ok_0@.len() - 32));
    }
}

/// Bytes are read as a result exactly if they are its stored form, and then the
/// result is the one that was stored: every exit code from 0 to 255, every
/// completion time and every byte of both outputs.
pub proof fn what_was_stored_is_what_is_read(
    bytes: &[u8],
    result: Result<Record, RecordError>,
    stored: RecordView,
)
    requires
        call_ensures(decode, (bytes,), result),
    ensures
        bytes@ == encoded(stored) && 0 <= stored.completed && representable(stored.completed) && 0
            <= stored.code <= 255 && stored.stdout.len() <= usize::MAX && stored.stderr.len()
            <= usize::MAX ==> {
            &&& result is Ok
            &&& result->Ok_0.completed@ == stored.completed
            &&& result->Ok_0.code == stored.code
            &&& result->Ok_0.stdout@ == stored.stdout
            &&& result->Ok_0.stderr@ == stored.stderr
        },
        result is Ok ==> bytes@ == encoded(result->Ok_0@) && 0 <= result->Ok_0.code <= 255
            && result->Ok_0.completed@ >= 0,
{
    if bytes@ == encoded(stored) && 0 <= stored.completed && representable(stored.completed) && 0
        <= stored.code <= 255 && stored.stdout.len() <= usize::MAX && stored.stderr.len()
        <= usize::MAX {
        a_stored_result_is_read_back(stored);
    }
    if result is Ok {
        only_the_stored_form_is_read(bytes@);
    }
}

/// Why bytes are not read as a result: they are too short or do not start as
/// this format does; their end is not their digest; or one of their numbers is
/// none that a result can have.
pub proof fn each_failure_to_read_has_its_reason(
    bytes: &[u8],
    digest: &[u8],
    result: Result<Record, RecordError>,
)
    requires
        call_ensures(decode_with, (bytes, digest), result),
    ensures
        (result == Err::<Record, RecordError>(RecordError::InvalidHeader)) <==> bytes@.len() < 76
            || bytes@.take(8) != seq![67u8, 69u8, 88u8, 69u8, 67u8, 48u8, 48u8, 49u8],
        (result == Err::<Record, RecordError>(RecordError::ChecksumMismatch)) <==> bytes@.len()
            >= 76 && bytes@.take(8) == seq![67u8, 69u8, 88u8, 69u8, 67u8, 48u8, 48u8, 49u8]
            && bytes@.skip(bytes@.len() - 32) != digest@,
        (result == Err::<Record, RecordError>(RecordError::InvalidExitCode)) ==> le_value(
            bytes@.subrange(24, 28),
        ) > 255,
        (result == Err::<Record, RecordError>(RecordError::InvalidTimestamp)) ==> !representable(
            le_value(bytes@.subrange(8, 24)) as int,
        ),
        (result == Err::<Record, RecordError>(RecordError::InvalidLengths)) ==> le_value(
            bytes@.subrange(28, 36),
        ) + le_value(bytes@.subrange(36, 44)) != bytes@.len() - 76,
        (result == Err::<Record, RecordError>(RecordError::OutOfRange)) ==> le_value(
            bytes@.subrange(8, 24),
        ) / 1_000_000_000 > u64::MAX || le_value(bytes@.subrange(28, 36)) > usize::MAX || le_value(
            bytes@.subrange(36, 44),
        ) > usize::MAX,
        result != Err::<Record, RecordError>(RecordError::BeforeEpoch),
        result is Ok <==> {
            let out_len = le_value(bytes@.subrange(28, 36));
            let err_len = le_value(bytes@.subrange(36, 44));
            &&& bytes@.len() >= 76
            &&& bytes@.take(8) == seq![67u8, 69u8, 88u8, 69u8, 67u8, 48u8, 48u8, 49u8]
            &&& bytes@.skip(bytes@.len() - 32) == digest@
            &&& le_value(bytes@.subrange(8, 24)) < 0x8000_0000_0000_0000 * 1_000_000_000
            &&& le_value(bytes@.subrange(24, 28)) <= 255
            &&& out_len <= usize::MAX && err_len <= usize::MAX
            &&& out_len + err_len == bytes@.len() - 76
        },
        result is Ok ==> {
            let out_len = le_value(bytes@.subrange(28, 36)) as int;
            &&& result->Ok_0.completed@ == le_value(bytes@.subrange(8, 24))
            &&& result->Ok_0.code == le_value(bytes@.subrange(24, 28))
            &&& result->Ok_0.stdout@ == bytes@.subrange(44, 44 + out_len)
            &&& result->Ok_0.stderr@ == bytes@.subrange(44 + out_len, bytes@.len() - 32)
        },
{
    assert(magic() =~= seq![67u8, 69u8, 88u8, 69u8, 67u8, 48u8, 48u8, 49u8]);
    if bytes@.len() >= 76 {
        let body = bytes@.take(bytes@.len() - 32);
        assert(body.subrange(8, 24) =~= bytes@.subrange(8, 24));
        assert(body.subrange(24, 28) =~= bytes@.subrange(24, 28));
        assert(body.subrange(28, 36) =~= bytes@.subrange(28, 36));
        assert(body.subrange(36, 44) =~= bytes@.subrange(36, 44));
        if result is Ok {
            let out_len = le_value(bytes@.subrange(28, 36)) as int;
            assert(body.subrange(44, 44 + out_len) =~= bytes@.subrange(44, 44 + out_len));
            assert(body.skip(44 + out_len) =~= bytes@.subrange(44 + out_len, bytes@.len() - 32));
        }
    }
}

/// Another version of the format is one whose first five bytes are those of
/// this format, followed by three digits that are not this version's.
pub proof fn another_version_has_another_number(bytes: &[u8], other: bool)
    requires
        call_ensures(other_version, (bytes,), other),
    ensures
        other <==> {
            &&& bytes@.len() >= 8
            &&& bytes@[0] == 67 && bytes@[1] == 69 && bytes@[2] == 88 && bytes@[3] == 69 && bytes@[4]
                == 67
            &&& 48 <= bytes@[5] <= 57 && 48 <= bytes@[6] <= 57 && 48 <= bytes@[7] <= 57
            &&& !(bytes@[5] == 48 && bytes@[6] == 48 && bytes@[7] == 49)
        },
{
    if bytes@.len() >= 8 {
        let start = bytes@.take(5);
        let whole = bytes@.take(8);
        assert(family() =~= seq![67u8, 69u8, 88u8, 69u8, 67u8]);
        assert(magic() =~= seq![67u8, 69u8, 88u8, 69u8, 67u8, 48u8, 48u8, 49u8]);
        assert(start[0] == bytes@[0] && start[1] == bytes@[1] && start[2] == bytes@[2] && start[3]
            == bytes@[3] && start[4] == bytes@[4]);
        assert(whole[5] == bytes@[5] && whole[6] == bytes@[6] && whole[7] == bytes@[7]);
        if bytes@[0] == 67 && bytes@[1] == 69 && bytes@[2] == 88 && bytes@[3] == 69 && bytes@[4]
            == 67 {
            assert(start =~= family());
            if bytes@[5] == 48 && bytes@[6] == 48 && bytes@[7] == 49 {
                assert(whole =~= magic());
            }
        }
    }
}

/// Each reason why bytes are not read as a result has its own words.
pub proof fn each_failure_to_read_has_its_own_words(error: RecordError, text: &'static str)
    requires
        call_ensures(RecordError::text, (error,), text),
    ensures
        error == RecordError::InvalidHeader ==> text@ == "invalid header"@,
        error == RecordError::ChecksumMismatch ==> text@ == "checksum mismatch"@,
        error == RecordError::OutOfRange ==> text@
            == "out of range integral type conversion attempted"@,
        error == RecordError::InvalidTimestamp ==> text@ == "invalid completion timestamp"@,
        error == RecordError::InvalidExitCode ==> text@ == "invalid exit code"@,
        error == RecordError::InvalidLengths ==> text@ == "invalid output lengths"@,
        error == RecordError::BeforeEpoch ==> text@ == "second time provided was later than self"@,
{
}

/// A result can be stored if its header and both of its outputs together are
/// shorter than 2^61 bytes.
pub proof fn every_output_that_can_be_digested_can_be_stored(record: RecordView)
    ensures
        record.storable() <==> 44 + record.stdout.len() + record.stderr.len()
            < 0x2000_0000_0000_0000int,
{
}

} // verus!

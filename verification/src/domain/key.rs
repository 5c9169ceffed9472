//! The key under which a command's result is saved and shared.

use crate::bytes::{capacities, le, le_len, le_value_of_le, push_all, push_le};
use crate::digest::{digestible, sha256, sha256_of};
use crate::text::{hex, hex_is_injective, hex_text};
use vstd::prelude::*;
use vstd::utf8::encode_utf8;

verus! {

/// A field: its length in eight bytes, then its bytes.
pub open spec fn field(bytes: Seq<u8>) -> Seq<u8> {
    le(bytes.len(), 8) + bytes
}

/// One field for each of `argv`.
pub open spec fn fields(argv: Seq<Seq<u8>>) -> Seq<u8>
    decreases argv.len(),
{
    if argv.len() == 0 {
        Seq::empty()
    } else {
        field(argv[0]) + fields(argv.drop_first())
    }
}

/// Whether there is a part of the key that the caller chose, then that part.
pub open spec fn extra_fields(extra: Option<Seq<u8>>) -> Seq<u8> {
    match extra {
        Some(extra) => field(seq![1u8]) + field(extra),
        None => field(seq![0u8]),
    }
}

/// Everything that a key depends on: the working directory, the number of
/// arguments, each argument and the part that the caller chose.
pub open spec fn preimage(argv: Seq<Seq<u8>>, cwd: Seq<u8>, extra: Option<Seq<u8>>) -> Seq<u8> {
    encode_utf8("cacheexec-key-v1"@) + (field(cwd) + (field(le(argv.len(), 8)) + (fields(argv)
        + extra_fields(extra))))
}

/// The key: the digest of everything that it depends on, in hexadecimal.
pub open spec fn key_of(argv: Seq<Seq<u8>>, cwd: Seq<u8>, extra: Option<Seq<u8>>) -> Seq<char> {
    hex(sha256_of(preimage(argv, cwd, extra))@)
}

/// The arguments as sequences of bytes.
pub open spec fn viewed(argv: Seq<Vec<u8>>) -> Seq<Seq<u8>> {
    Seq::new(argv.len(), |i: int| argv[i]@)
}

/// The optional part of the key as a sequence of bytes.
pub open spec fn viewed_extra(extra: Option<&[u8]>) -> Option<Seq<u8>> {
    match extra {
        Some(extra) => Some(extra@),
        None => None,
    }
}

fn push_field(bytes: &mut Vec<u8>, field: &[u8])
    ensures
        final(bytes)@ == old(bytes)@ + self::field(field@),
{
    let ghost before = bytes@;
    push_le(bytes, field.len() as u128, 8);
    push_all(bytes, field);
    assert(bytes@ =~= before + self::field(field@));
}

/// The key of the command `argv` in the directory `cwd`, with the part that
/// the caller chose.
pub fn key(argv: &[Vec<u8>], cwd: &[u8], extra: Option<&[u8]>) -> (key: String)
    requires
        digestible(preimage(viewed(argv@), cwd@, viewed_extra(extra)).len()),
    ensures
        key@ == key_of(viewed(argv@), cwd@, viewed_extra(extra)),
{
    let bytes = key_bytes(argv, cwd, extra);
    let digest = sha256(bytes.as_slice());
    hex_text(digest.as_slice())
}

/// Everything that a key depends on, as the bytes that are digested for it.
pub fn key_bytes(argv: &[Vec<u8>], cwd: &[u8], extra: Option<&[u8]>) -> (bytes: Vec<u8>)
    ensures
        bytes@ == preimage(viewed(argv@), cwd@, viewed_extra(extra)),
{
    let ghost all = viewed(argv@);
    let ghost end = extra_fields(viewed_extra(extra));
    let mut bytes: Vec<u8> = Vec::new();
    push_all(&mut bytes, "cacheexec-key-v1".as_bytes());
    push_field(&mut bytes, cwd);
    let mut count: Vec<u8> = Vec::new();
    push_le(&mut count, argv.len() as u128, 8);
    assert(count@ =~= le(all.len(), 8));
    push_field(&mut bytes, count.as_slice());
    assert(bytes@ + (fields(all) + end) =~= preimage(all, cwd@, viewed_extra(extra)));
    assert(all.skip(0) =~= all);
    let mut done: usize = 0;
    while done < argv.len()
        invariant
            done <= argv@.len(),
            all == viewed(argv@),
            bytes@ + (fields(all.skip(done as int)) + end) == preimage(
                all,
                cwd@,
                viewed_extra(extra),
            ),
        decreases argv@.len() - done,
    {
        let ghost before = bytes@;
        push_field(&mut bytes, argv[done].as_slice());
        proof {
            assert(all.skip(done as int)[0] == argv@[done as int]@);
            assert(all.skip(done as int).drop_first() =~= all.skip(done + 1));
            assert(bytes@ + (fields(all.skip(done + 1)) + end) =~= before + (fields(
                all.skip(done as int),
            ) + end));
        }
        done += 1;
    }
    assert(fields(all.skip(done as int)) =~= Seq::empty());
    assert(bytes@ + end =~= preimage(all, cwd@, viewed_extra(extra)));
    let ghost before = bytes@;
    let mut flag: Vec<u8> = Vec::new();
    match extra {
        Some(extra) => {
            flag.push(1);
            assert(flag@ =~= seq![1u8]);
            push_field(&mut bytes, flag.as_slice());
            push_field(&mut bytes, extra);
        },
        None => {
            flag.push(0);
            assert(flag@ =~= seq![0u8]);
            push_field(&mut bytes, flag.as_slice());
        },
    }
    assert(bytes@ =~= before + end);
    bytes
}

/// A length that eight bytes can hold.
pub open spec fn countable(len: nat) -> bool {
    len <= u64::MAX
}

/// Whether the lengths of everything that a key depends on can be written down.
pub open spec fn all_countable(
    argv: Seq<Seq<u8>>,
    cwd: Seq<u8>,
    extra: Option<Seq<u8>>,
) -> bool {
    &&& countable(argv.len())
    &&& forall|i: int| 0 <= i < argv.len() ==> countable((#[trigger] argv[i]).len())
    &&& countable(cwd.len())
    &&& extra matches Some(extra) ==> countable(extra.len())
}

/// Where a field ends can be read from its start.
proof fn a_field_ends_itself(a: Seq<u8>, b: Seq<u8>, after_a: Seq<u8>, after_b: Seq<u8>)
    requires
        countable(a.len()) && countable(b.len()),
        field(a) + after_a == field(b) + after_b,
    ensures
        a == b,
        after_a == after_b,
{
    let whole_a = field(a) + after_a;
    let whole_b = field(b) + after_b;
    le_len(a.len(), 8);
    le_len(b.len(), 8);
    capacities();
    le_value_of_le(a.len(), 8);
    le_value_of_le(b.len(), 8);
    assert(whole_a.take(8) =~= le(a.len(), 8));
    assert(whole_b.take(8) =~= le(b.len(), 8));
    assert(whole_a.subrange(8, 8 + a.len() as int) =~= a);
    assert(whole_b.subrange(8, 8 + b.len() as int) =~= b);
    assert(whole_a.skip(8 + a.len() as int) =~= after_a);
    assert(whole_b.skip(8 + b.len() as int) =~= after_b);
}

proof fn the_fields_end_themselves(
    a: Seq<Seq<u8>>,
    b: Seq<Seq<u8>>,
    after_a: Seq<u8>,
    after_b: Seq<u8>,
)
    requires
        a.len() == b.len(),
        forall|i: int| 0 <= i < a.len() ==> countable((#[trigger] a[i]).len()),
        forall|i: int| 0 <= i < b.len() ==> countable((#[trigger] b[i]).len()),
        fields(a) + after_a == fields(b) + after_b,
    ensures
        a == b,
        after_a == after_b,
    decreases a.len(),
{
    if a.len() == 0 {
        assert(fields(a) + after_a =~= after_a);
        assert(fields(b) + after_b =~= after_b);
        assert(a =~= b);
    } else {
        let rest_a = a.drop_first();
        let rest_b = b.drop_first();
        assert(fields(a) + after_a =~= field(a[0]) + (fields(rest_a) + after_a));
        assert(fields(b) + after_b =~= field(b[0]) + (fields(rest_b) + after_b));
        a_field_ends_itself(a[0], b[0], fields(rest_a) + after_a, fields(rest_b) + after_b);
        the_fields_end_themselves(rest_a, rest_b, after_a, after_b);
        assert(a =~= seq![a[0]] + rest_a);
        assert(b =~= seq![b[0]] + rest_b);
    }
}

/// Commands that differ in any argument, in how the text is divided into
/// arguments, in the working directory or in the chosen part of the key are
/// never hashed as the same bytes.
pub proof fn different_commands_are_hashed_differently(
    argv_a: Seq<Seq<u8>>,
    cwd_a: Seq<u8>,
    extra_a: Option<Seq<u8>>,
    argv_b: Seq<Seq<u8>>,
    cwd_b: Seq<u8>,
    extra_b: Option<Seq<u8>>,
)
    requires
        all_countable(argv_a, cwd_a, extra_a),
        all_countable(argv_b, cwd_b, extra_b),
        preimage(argv_a, cwd_a, extra_a) == preimage(argv_b, cwd_b, extra_b),
    ensures
        argv_a == argv_b,
        cwd_a == cwd_b,
        extra_a == extra_b,
{
    let start = encode_utf8("cacheexec-key-v1"@);
    let args_a = fields(argv_a) + extra_fields(extra_a);
    let args_b = fields(argv_b) + extra_fields(extra_b);
    let count_a = field(le(argv_a.len(), 8)) + args_a;
    let count_b = field(le(argv_b.len(), 8)) + args_b;
    assert(preimage(argv_a, cwd_a, extra_a).skip(start.len() as int) =~= field(cwd_a) + count_a);
    assert(preimage(argv_b, cwd_b, extra_b).skip(start.len() as int) =~= field(cwd_b) + count_b);
    a_field_ends_itself(cwd_a, cwd_b, count_a, count_b);
    le_len(argv_a.len(), 8);
    le_len(argv_b.len(), 8);
    a_field_ends_itself(le(argv_a.len(), 8), le(argv_b.len(), 8), args_a, args_b);
    capacities();
    le_value_of_le(argv_a.len(), 8);
    le_value_of_le(argv_b.len(), 8);
    the_fields_end_themselves(argv_a, argv_b, extra_fields(extra_a), extra_fields(extra_b));
    let flag_a = if extra_a is Some { seq![1u8] } else { seq![0u8] };
    let flag_b = if extra_b is Some { seq![1u8] } else { seq![0u8] };
    let rest_a = match extra_a {
        Some(extra) => field(extra),
        None => Seq::empty(),
    };
    let rest_b = match extra_b {
        Some(extra) => field(extra),
        None => Seq::empty(),
    };
    assert(extra_fields(extra_a) =~= field(flag_a) + rest_a);
    assert(extra_fields(extra_b) =~= field(flag_b) + rest_b);
    a_field_ends_itself(flag_a, flag_b, rest_a, rest_b);
    assert(flag_a[0] == flag_b[0]);
    if extra_a is Some {
        let a = extra_a->0;
        let b = extra_b->0;
        assert(field(a) + Seq::empty() =~= field(a));
        assert(field(b) + Seq::empty() =~= field(b));
        a_field_ends_itself(a, b, Seq::empty(), Seq::empty());
    }
}

/// Commands share a key only if they agree in everything that a key depends
/// on, unless SHA-256 collides on them.
pub proof fn a_key_stands_for_one_command(
    argv_a: Seq<Seq<u8>>,
    cwd_a: Seq<u8>,
    extra_a: Option<Seq<u8>>,
    argv_b: Seq<Seq<u8>>,
    cwd_b: Seq<u8>,
    extra_b: Option<Seq<u8>>,
)
    requires
        all_countable(argv_a, cwd_a, extra_a),
        all_countable(argv_b, cwd_b, extra_b),
        key_of(argv_a, cwd_a, extra_a) == key_of(argv_b, cwd_b, extra_b),
    ensures
        ({
            ||| argv_a == argv_b && cwd_a == cwd_b && extra_a == extra_b
            ||| {
                &&& preimage(argv_a, cwd_a, extra_a) != preimage(argv_b, cwd_b, extra_b)
                &&& sha256_of(preimage(argv_a, cwd_a, extra_a))@ == sha256_of(
                    preimage(argv_b, cwd_b, extra_b),
                )@
            }
        }),
{
    hex_is_injective(
        sha256_of(preimage(argv_a, cwd_a, extra_a))@,
        sha256_of(preimage(argv_b, cwd_b, extra_b))@,
    );
    if preimage(argv_a, cwd_a, extra_a) == preimage(argv_b, cwd_b, extra_b) {
        different_commands_are_hashed_differently(
            argv_a,
            cwd_a,
            extra_a,
            argv_b,
            cwd_b,
            extra_b,
        );
    }
}

/// The same command in the same directory with the same chosen part always has
/// the same key, and two commands that differ in any of these have different
/// bytes to digest, so their keys differ unless SHA-256 collides.
pub proof fn commands_share_a_key_exactly_if_they_are_the_same(
    argv: &[Vec<u8>],
    cwd: &[u8],
    extra: Option<&[u8]>,
    other_argv: &[Vec<u8>],
    other_cwd: &[u8],
    other_extra: Option<&[u8]>,
    text: String,
    other_text: String,
    bytes: Vec<u8>,
    other_bytes: Vec<u8>,
)
    requires
        call_ensures(key, (argv, cwd, extra), text),
        call_ensures(key, (other_argv, other_cwd, other_extra), other_text),
        call_ensures(key_bytes, (argv, cwd, extra), bytes),
        call_ensures(key_bytes, (other_argv, other_cwd, other_extra), other_bytes),
        all_countable(viewed(argv@), cwd@, viewed_extra(extra)),
        all_countable(viewed(other_argv@), other_cwd@, viewed_extra(other_extra)),
    ensures
        bytes@ == other_bytes@ <==> {
            &&& argv@.len() == other_argv@.len()
            &&& forall|i: int|
                #![trigger argv@[i]]
                #![trigger other_argv@[i]]
                0 <= i < argv@.len() ==> argv@[i]@ == other_argv@[i]@
            &&& cwd@ == other_cwd@
            &&& extra is Some <==> other_extra is Some
            &&& extra is Some ==> extra->0@ == other_extra->0@
        },
        bytes@ == other_bytes@ ==> text@ == other_text@,
        text@ == other_text@ ==> sha256_of(bytes@)@ == sha256_of(other_bytes@)@,
        text@.len() == 64,
        forall|i: int|
            0 <= i < 64 ==> '0' <= #[trigger] text@[i] <= '9' || 'a' <= text@[i] <= 'f',
{
    let (a, b) = (viewed(argv@), viewed(other_argv@));
    let (x, y) = (viewed_extra(extra), viewed_extra(other_extra));
    if bytes@ == other_bytes@ {
        different_commands_are_hashed_differently(a, cwd@, x, b, other_cwd@, y);
        assert forall|i: int|
            #![trigger argv@[i]]
            #![trigger other_argv@[i]]
            0 <= i < argv@.len() implies argv@[i]@ == other_argv@[i]@ by {
            assert(a[i] == b[i]);
        }
    }
    if argv@.len() == other_argv@.len() && (forall|i: int|
        #![trigger argv@[i]]
        #![trigger other_argv@[i]]
        0 <= i < argv@.len() ==> argv@[i]@ == other_argv@[i]@) {
        assert(a =~= b);
    }
    if text@ == other_text@ {
        hex_is_injective(sha256_of(bytes@)@, sha256_of(other_bytes@)@);
    }
    let digest = sha256_of(bytes@)@;
    assert forall|i: int| 0 <= i < 64 implies '0' <= #[trigger] text@[i] <= '9' || 'a' <= text@[i]
        <= 'f' by {
        let byte = digest[i / 2];
        assert(text@[i] == hex(digest)[i]);
        assert(0 <= byte as int / 16 < 16 && 0 <= byte as int % 16 < 16);
    }
}

/// What is digested for a key starts with the name of this kind of key, the
/// length of the working directory in eight bytes, least significant first, and
/// the working directory.
pub proof fn a_key_starts_with_its_kind_and_the_directory(
    argv: &[Vec<u8>],
    cwd: &[u8],
    extra: Option<&[u8]>,
    bytes: Vec<u8>,
)
    requires
        countable(cwd@.len()),
        call_ensures(key_bytes, (argv, cwd, extra), bytes),
    ensures
        ({
            let start = encode_utf8("cacheexec-key-v1"@);
            let at = start.len() as int;
            &&& bytes@.len() >= at + 8 + cwd@.len()
            &&& bytes@.take(at) == start
            &&& crate::bytes::le_value(bytes@.subrange(at, at + 8)) == cwd@.len()
            &&& bytes@.subrange(at + 8, at + 8 + cwd@.len()) == cwd@
        }),
{
    let start = encode_utf8("cacheexec-key-v1"@);
    let at = start.len() as int;
    le_len(cwd@.len(), 8);
    capacities();
    le_value_of_le(cwd@.len(), 8);
    assert(bytes@.take(at) =~= start);
    assert(bytes@.subrange(at, at + 8) =~= le(cwd@.len(), 8));
    assert(bytes@.subrange(at + 8, at + 8 + cwd@.len()) =~= cwd@);
}

} // verus!

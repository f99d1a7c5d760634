use vstd::prelude::*;
use vstd::string::StringSliceAdditionalSpecFns;
use vstd::utf8::{decode_utf8, valid_utf8};

verus! {

/// Size of the user data that a client hands the server when it connects.
pub const USER_DATA_BYTES: usize = 256;

/// Size of the length prefix at the head of the user data.
pub const LENGTH_PREFIX_BYTES: usize = 8;

/// Room left for the name after the length prefix.
pub const NAME_CAPACITY: usize = USER_DATA_BYTES - LENGTH_PREFIX_BYTES;

/// The number that little-endian bytes `b` write.
pub open spec fn le_value(b: Seq<u8>) -> nat
    decreases b.len(),
{
    if b.len() == 0 {
        0
    } else {
        b[0] as nat + 256 * le_value(b.skip(1))
    }
}

/// The name length that user data declares, capped at the room there is.
pub open spec fn declared_name_len(data: Seq<u8>) -> nat {
    let declared = le_value(data.take(LENGTH_PREFIX_BYTES as int));
    if declared < NAME_CAPACITY {
        declared
    } else {
        NAME_CAPACITY as nat
    }
}

/// The name bytes that user data carries.
pub open spec fn name_bytes(data: Seq<u8>) -> Seq<u8> {
    data.subrange(
        LENGTH_PREFIX_BYTES as int,
        LENGTH_PREFIX_BYTES + declared_name_len(data),
    )
}

/// User data carrying the name `bytes`: its length as eight little-endian
/// bytes, the name, then zeros.
pub open spec fn encoded_user_data(bytes: Seq<u8>) -> Seq<u8> {
    Seq::new(
        USER_DATA_BYTES as nat,
        |i: int|
            if i == 0 {
                bytes.len() as u8
            } else if LENGTH_PREFIX_BYTES <= i < LENGTH_PREFIX_BYTES + bytes.len() {
                bytes[i - LENGTH_PREFIX_BYTES]
            } else {
                0u8
            },
    )
}

/// A byte other than the first makes the value at least 256.
proof fn lemma_le_value_bounds(b: Seq<u8>)
    ensures
        le_value(b) >= if b.len() > 0 { b[0] as nat } else { 0 },
        (forall|i: int| 1 <= i < b.len() ==> b[i] == 0) ==> le_value(b) == if b.len() > 0 {
            b[0] as nat
        } else {
            0
        },
        (exists|i: int| 1 <= i < b.len() && b[i] != 0) ==> le_value(b) >= 256,
    decreases b.len(),
{
    if b.len() > 0 {
        let rest = b.skip(1);
        lemma_le_value_bounds(rest);
        if forall|i: int| 1 <= i < b.len() ==> b[i] == 0 {
            assert forall|i: int| 1 <= i < rest.len() implies rest[i] == 0 by {
                assert(rest[i] == b[i + 1]);
            }
            if rest.len() > 0 {
                assert(rest[0] == b[1]);
            }
        }
        if exists|i: int| 1 <= i < b.len() && b[i] != 0 {
            let i = choose|i: int| 1 <= i < b.len() && b[i] != 0;
            if i == 1 {
                assert(rest[0] == b[1]);
            } else {
                assert(rest[i - 1] == b[i]);
            }
        }
    }
}

/// The name bytes inside `user_data`.
pub fn name_bytes_from_user_data(user_data: &[u8]) -> (r: Vec<u8>)
    requires
        user_data@.len() == USER_DATA_BYTES,
    ensures
        r@ == name_bytes(user_data@),
{
    let mut wide = false;
    let mut i: usize = 1;
    while i < LENGTH_PREFIX_BYTES
        invariant
            1 <= i <= LENGTH_PREFIX_BYTES,
            user_data@.len() == USER_DATA_BYTES,
            wide <==> exists|j: int| 1 <= j < i && user_data@[j] != 0,
        decreases LENGTH_PREFIX_BYTES - i,
    {
        if user_data[i] != 0 {
            wide = true;
        }
        i = i + 1;
    }
    let len: usize = if wide || user_data[0] as usize >= NAME_CAPACITY {
        NAME_CAPACITY
    } else {
        user_data[0] as usize
    };
    proof {
        let prefix = user_data@.take(LENGTH_PREFIX_BYTES as int);
        lemma_le_value_bounds(prefix);
        if wide {
            let j = choose|j: int| 1 <= j < LENGTH_PREFIX_BYTES && user_data@[j] != 0;
            assert(prefix[j] != 0);
        } else {
            assert forall|j: int| 1 <= j < prefix.len() implies prefix[j] == 0 by {
                assert(prefix[j] == user_data@[j]);
            }
        }
        assert(len == declared_name_len(user_data@));
    }
    let mut r: Vec<u8> = Vec::new();
    let mut k: usize = 0;
    while k < len
        invariant
            k <= len,
            len <= NAME_CAPACITY,
            user_data@.len() == USER_DATA_BYTES,
            r@ == user_data@.subrange(LENGTH_PREFIX_BYTES as int, LENGTH_PREFIX_BYTES + k),
        decreases len - k,
    {
        r.push(user_data[LENGTH_PREFIX_BYTES + k]);
        k = k + 1;
        assert(r@ =~= user_data@.subrange(LENGTH_PREFIX_BYTES as int, LENGTH_PREFIX_BYTES + k));
    }
    r
}

/// Relies on `String::from_utf8`: it succeeds exactly on well-formed UTF-8,
/// and the string then holds the characters that the bytes encode.
#[verifier::external_body]
fn string_from_utf8(bytes: Vec<u8>) -> (r: Option<String>)
    ensures
        match r {
            Some(s) => valid_utf8(bytes@) && s@ == decode_utf8(bytes@),
            None => !valid_utf8(bytes@),
        },
{
    String::from_utf8(bytes).ok()
}

/// The player name inside `user_data`, or `None` when its bytes are not
/// UTF-8.
pub fn name_from_user_data(user_data: &[u8]) -> (r: Option<String>)
    requires
        user_data@.len() == USER_DATA_BYTES,
    ensures
        match r {
            Some(s) => valid_utf8(name_bytes(user_data@)) && s@ == decode_utf8(
                name_bytes(user_data@),
            ),
            None => !valid_utf8(name_bytes(user_data@)),
        },
{
    string_from_utf8(name_bytes_from_user_data(user_data))
}

/// User data that carries `name`, or `None` when the name does not fit.
pub fn user_data_for_name(name: &str) -> (r: Option<Vec<u8>>)
    ensures
        match r {
            Some(data) => name.spec_bytes().len() <= NAME_CAPACITY && data@ == encoded_user_data(
                name.spec_bytes(),
            ),
            None => name.spec_bytes().len() > NAME_CAPACITY,
        },
{
    let bytes = name.as_bytes();
    let len = bytes.len();
    if len > NAME_CAPACITY {
        return None;
    }
    let mut data: Vec<u8> = Vec::new();
    let mut i: usize = 0;
    while i < USER_DATA_BYTES
        invariant
            i <= USER_DATA_BYTES,
            len <= NAME_CAPACITY,
            bytes@ == name.spec_bytes(),
            len == bytes@.len(),
            data@ == encoded_user_data(bytes@).take(i as int),
        decreases USER_DATA_BYTES - i,
    {
        let b: u8 = if i == 0 {
            len as u8
        } else if LENGTH_PREFIX_BYTES <= i && i < LENGTH_PREFIX_BYTES + len {
            bytes[i - LENGTH_PREFIX_BYTES]
        } else {
            0
        };
        data.push(b);
        i = i + 1;
        assert(data@ =~= encoded_user_data(bytes@).take(i as int));
    }
    assert(data@ =~= encoded_user_data(bytes@));
    Some(data)
}

/// Reading back the user data made for a name gives that name's bytes.
pub proof fn lemma_user_data_round_trip(bytes: Seq<u8>)
    requires
        bytes.len() <= NAME_CAPACITY,
    ensures
        name_bytes(encoded_user_data(bytes)) == bytes,
{
    let data = encoded_user_data(bytes);
    let prefix = data.take(LENGTH_PREFIX_BYTES as int);
    lemma_le_value_bounds(prefix);
    assert forall|j: int| 1 <= j < prefix.len() implies prefix[j] == 0 by {
        assert(prefix[j] == data[j]);
    }
    assert(le_value(prefix) == bytes.len());
    assert(name_bytes(data) =~= bytes);
}

} // verus!

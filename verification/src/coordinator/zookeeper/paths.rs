//! Where things are kept in the consensus store.
//!
//! Locks live under `/locks` and nodes under `/nodes`. Below each root the
//! entries fan out over a level of prefixes, so that no directory grows
//! without bound: an entry called `key` is kept at `<root>/<prefix>/<key>`,
//! where the prefix is the first two hexadecimal digits of a hash of the key.
use vstd::prelude::*;
use vstd::string::*;

verus! {

/// The root under which the locks are kept.
pub const LOCKS_ROOT: &'static str = "/locks";

/// The root under which the nodes of the control plane are kept.
pub const NODES_ROOT: &'static str = "/nodes";

/// The root that is set aside for elections.
pub const ELECTIONS_ROOT: &'static str = "/elections";

/// The value the hash starts from.
pub const HASH_BASIS: u64 = 0xcbf29ce484222325;

/// The factor by which the hash grows with every byte.
pub const HASH_PRIME: u64 = 0x100000001b3;

/// The hash of a run of bytes: starting from `HASH_BASIS`, each byte in turn
/// is mixed in and the result multiplied by `HASH_PRIME`, in 64 bits.
pub open spec fn hash_of(bytes: Seq<u8>) -> u64
    decreases bytes.len(),
{
    if bytes.len() == 0 {
        HASH_BASIS
    } else {
        (hash_of(bytes.drop_last()) ^ (bytes.last() as u64)).wrapping_mul(HASH_PRIME)
    }
}

/// The hash of a key: the hash of its bytes.
pub open spec fn key_hash(key: Seq<char>) -> u64 {
    hash_of(vstd::utf8::encode_utf8(key))
}

/// The hash of the bytes of `key`.
pub fn hash_key(key: &str) -> (hash: u64)
    ensures
        hash == key_hash(key@),
{
    let bytes = key.as_bytes();
    let mut hash: u64 = HASH_BASIS;
    let mut i: usize = 0;
    assert(bytes@.take(0) =~= Seq::<u8>::empty());
    while i < bytes.len()
        invariant
            i <= bytes@.len(),
            hash == hash_of(bytes@.take(i as int)),
        decreases bytes.len() - i,
    {
        proof {
            assert(bytes@.take(i + 1).drop_last() =~= bytes@.take(i as int));
            assert(bytes@.take(i + 1).last() == bytes@[i as int]);
        }
        hash = (hash ^ (bytes[i] as u64)).wrapping_mul(HASH_PRIME);
        i += 1;
    }
    assert(bytes@.take(bytes@.len() as int) =~= bytes@);
    hash
}

/// The hexadecimal digit for the low four bits of `value`.
pub open spec fn hex_digit(value: u8) -> Seq<char> {
    let low = value % 16;
    if low == 0 {
        "0"@
    } else if low == 1 {
        "1"@
    } else if low == 2 {
        "2"@
    } else if low == 3 {
        "3"@
    } else if low == 4 {
        "4"@
    } else if low == 5 {
        "5"@
    } else if low == 6 {
        "6"@
    } else if low == 7 {
        "7"@
    } else if low == 8 {
        "8"@
    } else if low == 9 {
        "9"@
    } else if low == 10 {
        "a"@
    } else if low == 11 {
        "b"@
    } else if low == 12 {
        "c"@
    } else if low == 13 {
        "d"@
    } else if low == 14 {
        "e"@
    } else {
        "f"@
    }
}

fn hex_text(value: u8) -> (digit: &'static str)
    ensures
        digit@ == hex_digit(value),
{
    let low = value % 16;
    if low == 0 {
        "0"
    } else if low == 1 {
        "1"
    } else if low == 2 {
        "2"
    } else if low == 3 {
        "3"
    } else if low == 4 {
        "4"
    } else if low == 5 {
        "5"
    } else if low == 6 {
        "6"
    } else if low == 7 {
        "7"
    } else if low == 8 {
        "8"
    } else if low == 9 {
        "9"
    } else if low == 10 {
        "a"
    } else if low == 11 {
        "b"
    } else if low == 12 {
        "c"
    } else if low == 13 {
        "d"
    } else if low == 14 {
        "e"
    } else {
        "f"
    }
}

/// The highest byte of `hash`.
pub open spec fn top_byte(hash: u64) -> u8 {
    (hash >> 56) as u8
}

/// The prefix under which a key with the given hash is kept: the two
/// hexadecimal digits of the highest byte of the hash.
pub open spec fn prefix_of(hash: u64) -> Seq<char> {
    hex_digit(top_byte(hash) / 16) + hex_digit(top_byte(hash))
}

/// The place of the entry called `key` below `root`.
pub open spec fn key_path(root: Seq<char>, key: Seq<char>) -> Seq<char> {
    root + "/"@ + prefix_of(key_hash(key)) + "/"@ + key
}

/// The prefix under which `key` is kept. It depends on the key alone.
pub fn path_prefix(key: &str) -> (prefix: String)
    ensures
        prefix@ == prefix_of(key_hash(key@)),
{
    let hash = hash_key(key);
    assert((hash >> 56) < 256) by (bit_vector);
    let top = (hash >> 56) as u8;
    let mut prefix = hex_text(top / 16).to_owned();
    prefix.append(hex_text(top));
    prefix
}

/// The place of the entry called `key` below `root`.
pub fn path_from_key(root: &str, key: &str) -> (path: String)
    ensures
        path@ == key_path(root@, key@),
{
    let prefix = path_prefix(key);
    let mut path = root.to_owned();
    path.append("/");
    path.append(prefix.as_str());
    path.append("/");
    path.append(key);
    path
}

/// The place of the child `name` of the entry at `parent`.
pub fn child_path(parent: &str, name: &str) -> (path: String)
    ensures
        path@ == parent@ + "/"@ + name@,
{
    crate::text::concat3(parent, "/", name)
}

/// A prefix is always two characters long.
pub proof fn lemma_prefix_length(hash: u64)
    ensures
        prefix_of(hash).len() == 2,
{
    reveal_strlit("0");
    reveal_strlit("1");
    reveal_strlit("2");
    reveal_strlit("3");
    reveal_strlit("4");
    reveal_strlit("5");
    reveal_strlit("6");
    reveal_strlit("7");
    reveal_strlit("8");
    reveal_strlit("9");
    reveal_strlit("a");
    reveal_strlit("b");
    reveal_strlit("c");
    reveal_strlit("d");
    reveal_strlit("e");
    reveal_strlit("f");
    assert(hex_digit(top_byte(hash) / 16).len() == 1);
    assert(hex_digit(top_byte(hash)).len() == 1);
}

} // verus!

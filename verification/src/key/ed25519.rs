//! Ed25519 public keys of accounts: where storage holds them, how stored
//! bytes are decoded, and how the key of an account is read from the state
//! that precedes the current transaction.

use crate::address::Address;
use crate::storage::{Key, Snapshot, Storage, KEY_SEGMENT_SEPARATOR, RESERVED_ADDRESS_PREFIX};
use vstd::prelude::*;

verus! {

/// The number of bytes in the encoding of a public key.
pub const PUBLIC_KEY_LENGTH: usize = 32;

/// The name of the slot, below the segment of an account, that holds the
/// public key of the account.
pub const PK_STORAGE_KEY: &'static str = "ed25519_pk";

/// Why stored bytes are no public key.
#[derive(Clone, Copy, Debug, PartialEq, Eq, Structural)]
pub enum DecodeError {
    /// The value is not `PUBLIC_KEY_LENGTH` bytes long.
    WrongLength,
    /// The value has the right length, but its bytes are not the compressed
    /// form of a point of the curve.
    InvalidPoint,
}

/// Whether `ed25519_dalek::PublicKey::from_bytes` accepts `bytes`, that is
/// whether they have the length of a key and decompress to a point of the
/// curve.
pub uninterp spec fn decodes_to_point(bytes: Seq<u8>) -> bool;

/// Asks `ed25519_dalek::PublicKey::from_bytes` whether `bytes` encode a public
/// key. That function looks at nothing but the bytes, returns an error for a
/// slice of any other length than 32 and for 32 bytes that do not decompress,
/// and never panics; the result here is whether it returned a key.
#[verifier::external_body]
fn accepted_by_curve(bytes: &[u8]) -> (accepted: bool)
    ensures
        accepted == decodes_to_point(bytes@),
{
    ed25519_dalek::PublicKey::from_bytes(bytes).is_ok()
}

/// What is wrong with an encoding of the given length whose bytes do or do
/// not decode to a point. The length is judged first.
pub open spec fn encoding_fault(length: nat, on_curve: bool) -> Option<DecodeError> {
    if length != PUBLIC_KEY_LENGTH {
        Some(DecodeError::WrongLength)
    } else if !on_curve {
        Some(DecodeError::InvalidPoint)
    } else {
        None
    }
}

/// Whether `bytes` are the encoding of a public key.
pub open spec fn valid_public_key(bytes: Seq<u8>) -> bool {
    bytes.len() == PUBLIC_KEY_LENGTH && decodes_to_point(bytes)
}

/// The key that `bytes` encode, as its bytes, or why they encode none.
pub open spec fn decoded(bytes: Seq<u8>) -> Result<Seq<u8>, DecodeError> {
    match encoding_fault(bytes.len(), decodes_to_point(bytes)) {
        Some(fault) => Err(fault),
        None => Ok(bytes),
    }
}

/// Judges an encoding by its length and by whether its bytes decode to a
/// point of the curve.
pub fn check_encoding(length: usize, on_curve: bool) -> (fault: Option<DecodeError>)
    ensures
        fault == encoding_fault(length as nat, on_curve),
{
    if length != PUBLIC_KEY_LENGTH {
        Some(DecodeError::WrongLength)
    } else if !on_curve {
        Some(DecodeError::InvalidPoint)
    } else {
        None
    }
}

/// The ed25519 public key of an account, held as its 32-byte encoding.
#[derive(Debug, PartialEq, Eq, Hash)]
pub struct PublicKey {
    bytes: [u8; 32],
}

impl View for PublicKey {
    type V = Seq<u8>;

    closed spec fn view(&self) -> Seq<u8> {
        self.bytes@
    }
}

/// A decoded key taken by its bytes.
pub open spec fn key_bytes(key: Result<PublicKey, DecodeError>) -> Result<Seq<u8>, DecodeError> {
    match key {
        Ok(key) => Ok(key@),
        Err(fault) => Err(fault),
    }
}

/// The outcome of a lookup with the key, where one was found, taken by its
/// bytes.
pub open spec fn found_bytes(found: Result<Option<PublicKey>, DecodeError>) -> Result<
    Option<Seq<u8>>,
    DecodeError,
> {
    match found {
        Ok(Some(key)) => Ok(Some(key@)),
        Ok(None) => Ok(None),
        Err(fault) => Err(fault),
    }
}

/// What a read that gave `value` amounts to: nothing where the store held
/// nothing, else the key that the value encodes or the reason why it
/// encodes none.
pub open spec fn decoded_value(value: Option<Seq<u8>>) -> Result<Option<Seq<u8>>, DecodeError> {
    match value {
        None => Ok(None),
        Some(bytes) => match decoded(bytes) {
            Ok(key) => Ok(Some(key)),
            Err(fault) => Err(fault),
        },
    }
}

impl PublicKey {
    #[verifier::type_invariant]
    spec fn well_formed(self) -> bool {
        valid_public_key(self.bytes@)
    }

    /// Decodes a public key. Succeeds exactly on valid encodings, and the
    /// key then holds the very bytes it was read from.
    pub fn from_bytes(bytes: &[u8]) -> (key: Result<PublicKey, DecodeError>)
        ensures
            key_bytes(key) == decoded(bytes@),
    {
        let on_curve = accepted_by_curve(bytes);
        match check_encoding(bytes.len(), on_curve) {
            Some(fault) => Err(fault),
            None => {
                let mut copy = [0u8; 32];
                for i in 0..32usize
                    invariant
                        bytes@.len() == 32,
                        forall|j: int| 0 <= j < i ==> copy@[j] == bytes@[j],
                {
                    copy[i] = bytes[i];
                }
                assert(copy@ =~= bytes@);
                Ok(PublicKey { bytes: copy })
            },
        }
    }

    /// The encoding of the key.
    pub fn to_bytes(&self) -> (bytes: [u8; 32])
        ensures
            bytes@ == self@,
            valid_public_key(bytes@),
    {
        proof {
            use_type_invariant(self);
        }
        self.bytes
    }

    /// Decodes what a read of storage gave, `None` standing for a key at
    /// which the store held nothing.
    pub fn from_stored(value: Option<Vec<u8>>) -> (found: Result<Option<PublicKey>, DecodeError>)
        ensures
            found_bytes(found) == decoded_value(
                match value {
                    Some(bytes) => Some(bytes@),
                    None => None,
                },
            ),
    {
        match value {
            None => Ok(None),
            Some(bytes) => match PublicKey::from_bytes(bytes.as_slice()) {
                Ok(key) => Ok(Some(key)),
                Err(fault) => Err(fault),
            },
        }
    }
}

impl Clone for PublicKey {
    fn clone(&self) -> (copy: Self)
        ensures
            copy@ == self@,
    {
        proof {
            use_type_invariant(self);
        }
        PublicKey { bytes: self.bytes }
    }
}

/// The text of the segment that stands for the account whose encoding is
/// `address`, with the separator that ends it.
pub open spec fn address_segment(address: Seq<char>) -> Seq<char> {
    seq![RESERVED_ADDRESS_PREFIX] + address + seq![KEY_SEGMENT_SEPARATOR]
}

/// The text of the storage key for the public key of the account whose
/// encoding is `address`: the segment of the account, then the name of the
/// slot.
pub open spec fn pk_key_path(address: Seq<char>) -> Seq<char> {
    address_segment(address) + PK_STORAGE_KEY@
}

/// The storage key under which the public key of `owner` is held. Its text
/// is a function of the address alone, so that two calls on one address give
/// the same key.
pub fn pk_key(owner: &Address) -> (key: Key)
    ensures
        key@ == pk_key_path(owner@),
{
    let mut path = String::from_str("#");
    path.append(owner.encode().as_str());
    path.append("/");
    path.append(PK_STORAGE_KEY);
    proof {
        reveal_strlit("#");
        reveal_strlit("/");
        assert(path@ =~= pk_key_path(owner@));
    }
    Key::from_path(path)
}

/// What a lookup of the public key of the account `address` finds in the
/// pre-state `pre`: nothing where `pre` holds nothing at the key of the
/// account, else what the value held there decodes to.
pub open spec fn stored_public_key(pre: Snapshot, address: Seq<char>) -> Result<
    Option<Seq<u8>>,
    DecodeError,
> {
    let key = pk_key_path(address);
    decoded_value(
        if pre.contains_key(key) {
            Some(pre[key])
        } else {
            None
        },
    )
}

/// Reads the public key of `owner` from the state before the current
/// transaction: `None` where that state holds nothing for the account, the
/// key where it holds a valid encoding, and an error where it holds anything
/// else. Writes of the current transaction have no part in it.
pub fn get(storage: &Storage, owner: &Address) -> (found: Result<Option<PublicKey>, DecodeError>)
    ensures
        found_bytes(found) == stored_public_key(storage@.pre, owner@),
{
    let key = pk_key(owner);
    PublicKey::from_stored(storage.read_pre(&key))
}

/// The key is a function of the address: one account has one key, however
/// often it is derived.
pub proof fn pk_key_deterministic(first: Address, second: Address)
    requires
        first@ == second@,
    ensures
        pk_key_path(first@) == pk_key_path(second@),
{
}

/// Distinct accounts have distinct keys.
pub proof fn pk_key_injective(first: Address, second: Address)
    requires
        first@ != second@,
    ensures
        pk_key_path(first@) != pk_key_path(second@),
{
    let a = first@;
    let b = second@;
    if pk_key_path(a) == pk_key_path(b) {
        assert(pk_key_path(a).len() == a.len() + 2 + PK_STORAGE_KEY@.len());
        assert(pk_key_path(b).len() == b.len() + 2 + PK_STORAGE_KEY@.len());
        assert forall|i: int| 0 <= i < a.len() implies a[i] == b[i] by {
            assert(pk_key_path(a)[i + 1] == a[i]);
            assert(pk_key_path(b)[i + 1] == b[i]);
        }
        assert(a =~= b);
    }
}

/// The key of an account lies below the segment of that account and below
/// the segment of no other: the separator ends a segment, and no address
/// holds it.
pub proof fn pk_key_below_owner_only(owner: Address, other: Address)
    requires
        Address::valid_encoding(owner@),
        Address::valid_encoding(other@),
    ensures
        address_segment(other@).is_prefix_of(pk_key_path(owner@)) <==> other@ == owner@,
{
    let a = owner@;
    let b = other@;
    let path = pk_key_path(a);
    let segment = address_segment(b);
    if a == b {
        assert(segment =~= path.subrange(0, segment.len() as int));
    }
    if segment.is_prefix_of(path) {
        assert(segment.len() == b.len() + 2);
        assert(segment =~= path.subrange(0, segment.len() as int));
        assert forall|i: int| 0 <= i < segment.len() implies segment[i] == path[i] by {
            assert(path.subrange(0, segment.len() as int)[i] == path[i]);
        }
        let end_of_owner = a.len() as int + 1;
        let end_of_other = b.len() as int + 1;
        if end_of_other < end_of_owner {
            assert(segment[end_of_other] == KEY_SEGMENT_SEPARATOR);
            assert(path[end_of_other] == a[end_of_other - 1]);
        } else if end_of_owner < end_of_other {
            assert(path[end_of_owner] == KEY_SEGMENT_SEPARATOR);
            assert(segment[end_of_owner] == b[end_of_owner - 1]);
        } else {
            assert forall|i: int| 0 <= i < a.len() implies a[i] == b[i] by {
                assert(path[i + 1] == a[i]);
                assert(segment[i + 1] == b[i]);
            }
            assert(a =~= b);
        }
    }
}

/// Absence is no failure: where the pre-state holds nothing at the key of an
/// account, the lookup finds no key and reports no error.
pub proof fn absent_key_is_none(storage: Storage, owner: Address)
    requires
        !storage@.pre.contains_key(pk_key_path(owner@)),
    ensures
        stored_public_key(storage@.pre, owner@) == Ok::<Option<Seq<u8>>, DecodeError>(None),
{
}

/// Where the pre-state holds the encoding of a public key at the key of an
/// account, the lookup finds that key, byte for byte.
pub proof fn stored_key_is_found(storage: Storage, owner: Address, key: PublicKey)
    requires
        valid_public_key(key@),
        storage@.pre.contains_key(pk_key_path(owner@)),
        storage@.pre[pk_key_path(owner@)] == key@,
    ensures
        stored_public_key(storage@.pre, owner@) == Ok::<Option<Seq<u8>>, DecodeError>(Some(key@)),
{
}

/// Where the pre-state holds, at the key of an account, bytes that encode no
/// public key, the lookup fails, which no lookup of an absent key does: with
/// `WrongLength` where the length is not that of a key, else with
/// `InvalidPoint`.
pub proof fn malformed_value_is_rejected(storage: Storage, owner: Address)
    requires
        storage@.pre.contains_key(pk_key_path(owner@)),
        !valid_public_key(storage@.pre[pk_key_path(owner@)]),
    ensures
        stored_public_key(storage@.pre, owner@) == Err::<Option<Seq<u8>>, DecodeError>(
            if storage@.pre[pk_key_path(owner@)].len() != PUBLIC_KEY_LENGTH {
                DecodeError::WrongLength
            } else {
                DecodeError::InvalidPoint
            },
        ),
{
}

/// A write of the current transaction, at whatever key, changes no lookup:
/// a lookup reads the state that preceded the transaction.
pub proof fn lookup_ignores_writes(storage: Storage, key: Key, value: Seq<u8>, owner: Address)
    ensures
        stored_public_key(storage@.write(key@, value).pre, owner@) == stored_public_key(
            storage@.pre,
            owner@,
        ),
{
}

/// Once a transaction that wrote the encoding of a public key at the key of
/// an account has been applied, a lookup for that account finds the key.
pub proof fn committed_key_is_found(storage: Storage, owner: Address, key: PublicKey)
    requires
        valid_public_key(key@),
    ensures
        stored_public_key(storage@.write(pk_key_path(owner@), key@).commit().pre, owner@) == Ok::<
            Option<Seq<u8>>,
            DecodeError,
        >(Some(key@)),
{
}

/// A write at the key of one account, once applied, changes the lookup for
/// no other account: an account that was never written to has no key.
pub proof fn write_leaves_other_accounts(
    storage: Storage,
    owner: Address,
    value: Seq<u8>,
    other: Address,
)
    requires
        other@ != owner@,
    ensures
        stored_public_key(storage@.write(pk_key_path(owner@), value).commit().pre, other@)
            == stored_public_key(storage@.post, other@),
{
    pk_key_injective(other, owner);
}

} // verus!

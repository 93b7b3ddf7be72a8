use vstd::prelude::*;
use soroban_sdk::xdr::{AccountId, PublicKey, ScAddress, ToXdr, Uint256};
use soroban_sdk::{Address, Bytes, Env, IntoVal, Symbol, TryFromVal, Val};
use crate::principal::{Principal, PrincipalKind};

verus! {

/// Whether `c` may occur in the name of a field: a letter, a digit or an
/// underscore.
pub open spec fn is_name_char(c: char) -> bool {
    ||| 'a' <= c <= 'z'
    ||| 'A' <= c <= 'Z'
    ||| '0' <= c <= '9'
    ||| c == '_'
}

/// Whether `name` can name a field of a record: 1 to 32 characters, each a
/// letter, a digit or an underscore.
pub open spec fn is_field_name(name: Seq<char>) -> bool {
    &&& 1 <= name.len() <= 32
    &&& forall|i: int| 0 <= i < name.len() ==> is_name_char(#[trigger] name[i])
}

/// The ledger's canonical serialization of a record of two fields: the XDR
/// form of the map from the name `number_field` to `number` and from the name
/// `address_field` to the address of the account or the contract
/// (`contract`) with the 32 bytes `key`.
pub uninterp spec fn record_xdr(
    number_field: Seq<char>,
    number: u64,
    address_field: Seq<char>,
    contract: bool,
    key: Seq<u8>,
) -> Seq<u8>;

/// The SHA-256 digest of `message`.
pub uninterp spec fn sha256_digest(message: Seq<u8>) -> Seq<u8>;

/// The longest message that is handed to the ledger's hash function.
pub const MAX_MESSAGE_LEN: usize = 4096;

/// The digest of the serialized key of the delegate of `(merchant, user)`:
/// of the record with the fields `merchant` and `user`.
pub open spec fn delegate_key_digest(merchant: u64, user: Principal) -> Seq<u8> {
    sha256_digest(record_xdr("merchant"@, merchant, "user"@, user.kind is Contract, user.key@))
}

/// The salt under which the delegate of `(merchant, user)` is deployed: the
/// digest of the serialized key, as 32 bytes. The ledger derives the address
/// of the new instance from the deployer and this salt, so one key has one
/// address.
pub open spec fn deployment_salt(merchant: u64, user: Principal) -> [u8; 32] {
    choose|salt: [u8; 32]| salt@ == delegate_key_digest(merchant, user)
}

/// Serializes a record of two fields with `soroban_sdk::xdr::ToXdr::to_xdr`,
/// applied to a `soroban_sdk::Map` from the two field names, as symbols, to
/// the number and to the address of `principal`, in a ledger environment of
/// its own.
///
/// Trusted: the bytes depend on the names, the number and the principal
/// alone, and are at most 256. (The XDR form is a map header of 12 bytes,
/// then for each entry a symbol of at most 32 characters behind 8 bytes of
/// tag and length; the number takes 12 bytes and the address at most 44.)
/// A name that is no symbol makes `Symbol::new` panic, so such names are
/// left out.
#[verifier::external_body]
fn serialize_record(number_field: &str, number: u64, address_field: &str, principal: &Principal) -> (xdr:
    Vec<u8>)
    requires
        is_field_name(number_field@),
        is_field_name(address_field@),
    ensures
        xdr@ == record_xdr(
            number_field@,
            number,
            address_field@,
            principal.kind is Contract,
            principal.key@,
        ),
        xdr@.len() <= 256,
{
    let address = match principal.kind {
        PrincipalKind::Contract => ScAddress::Contract(soroban_sdk::xdr::Hash(principal.key)),
        PrincipalKind::Account => ScAddress::Account(
            AccountId(PublicKey::PublicKeyTypeEd25519(Uint256(principal.key))),
        ),
    };
    let env = Env::default();
    let address = Address::try_from_val(&env, &address).unwrap();
    let mut record: soroban_sdk::Map<Symbol, Val> = soroban_sdk::Map::new(&env);
    record.set(Symbol::new(&env, number_field), number.into_val(&env));
    record.set(Symbol::new(&env, address_field), address.into_val(&env));
    record.to_xdr(&env).iter().collect()
}

/// Hashes `message` with `soroban_sdk::crypto::Crypto::sha256`, in a ledger
/// environment of its own.
///
/// Trusted: the result is the SHA-256 digest of the message. The ledger
/// meters the work of every call; the bound on the message keeps the call
/// far inside the budget of a fresh environment.
#[verifier::external_body]
fn sha256(message: &Vec<u8>) -> (digest: [u8; 32])
    requires
        message@.len() <= MAX_MESSAGE_LEN,
    ensures
        digest@ == sha256_digest(message@),
{
    let env = Env::default();
    env.crypto().sha256(&Bytes::from_slice(&env, message.as_slice())).to_array()
}

/// The salt under which the delegate of `(merchant, user)` is deployed.
pub fn delegate_salt(merchant: u64, user: &Principal) -> (salt: [u8; 32])
    ensures
        salt@ == delegate_key_digest(merchant, *user),
        salt == deployment_salt(merchant, *user),
{
    proof {
        reveal_strlit("merchant");
        reveal_strlit("user");
    }
    let xdr = serialize_record("merchant", merchant, "user", user);
    let salt = sha256(&xdr);
    assert(salt =~= deployment_salt(merchant, *user));
    salt
}

} // verus!

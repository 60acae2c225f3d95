//! What the library takes from `std::path`, `hex`, `bcs`, `diem_types` and `move_core_types`.
//! Nothing in this module is proved: each item says what it claims of the code it names. What is
//! said of paths is said of one platform: separators and roots differ from platform to platform,
//! but not from call to call.
use diem_types::transaction::{
    ChangeSet, ScriptFunction, Transaction, TransactionPayload, WriteSetPayload,
};
use std::path::PathBuf;
use vstd::prelude::*;

verus! {

/// `std::path::PathBuf`, carried through as it is.
#[verifier::external_type_specification]
#[verifier::external_body]
pub struct ExPathBuf(std::path::PathBuf);

/// `move_core_types::account_address::AccountAddress`, carried through as it is.
#[verifier::external_type_specification]
#[verifier::external_body]
pub struct ExAccountAddress(move_core_types::account_address::AccountAddress);

/// `diem_types::waypoint::Waypoint`, carried through as it is.
#[verifier::external_type_specification]
#[verifier::external_body]
pub struct ExWaypoint(diem_types::waypoint::Waypoint);

/// `diem_types::transaction::ChangeSet`: what a rescue writes to the chain.
#[verifier::external_type_specification]
#[verifier::external_body]
pub struct ExChangeSet(diem_types::transaction::ChangeSet);

/// `diem_types::transaction::Transaction`.
#[verifier::external_type_specification]
#[verifier::external_body]
pub struct ExTransaction(diem_types::transaction::Transaction);

/// `diem_types::transaction::TransactionPayload`.
#[verifier::external_type_specification]
#[verifier::external_body]
pub struct ExTransactionPayload(diem_types::transaction::TransactionPayload);

/// `diem_types::transaction::ScriptFunction`: the call of an entry function.
#[verifier::external_type_specification]
#[verifier::external_body]
pub struct ExScriptFunction(diem_types::transaction::ScriptFunction);

/// `bcs::Error`.
#[verifier::external_type_specification]
#[verifier::external_body]
pub struct ExBcsError(bcs::Error);

/// `hex::FromHexError`.
#[verifier::external_type_specification]
#[verifier::external_body]
pub struct ExFromHexError(hex::FromHexError);

/// `<PathBuf as Clone>::clone` gives a path equal to the one it is called on.
pub assume_specification[ <std::path::PathBuf as Clone>::clone ](path: &std::path::PathBuf) -> (r:
    std::path::PathBuf)
    ensures
        r == *path,
;

/// `<Transaction as Clone>::clone` gives a transaction equal to the one it is called on.
pub assume_specification[ <diem_types::transaction::Transaction as Clone>::clone ](
    transaction: &diem_types::transaction::Transaction,
) -> (r: diem_types::transaction::Transaction)
    ensures
        r == *transaction,
;

/// The path that `PathBuf::from` makes of a text.
pub uninterp spec fn path_of(text: Seq<char>) -> PathBuf;

/// `PathBuf::from(text)`: a function of the text.
#[verifier::external_body]
pub(crate) fn path_from(text: &str) -> (r: PathBuf)
    ensures
        r == path_of(text@),
{
    PathBuf::from(text)
}

/// The path that `Path::join` makes of a base and a relative name.
pub uninterp spec fn joined(base: PathBuf, name: Seq<char>) -> PathBuf;

/// `base.join(name)`: a function of the base and the name.
#[verifier::external_body]
pub(crate) fn join(base: &PathBuf, name: &str) -> (r: PathBuf)
    ensures
        r == joined(*base, name@),
{
    base.join(name)
}

/// The path that `Path::parent` leaves, if it leaves one.
pub uninterp spec fn parent_of(path: PathBuf) -> Option<PathBuf>;

/// `path.parent()`, as an owned path: a function of the path. There is none for a path that is
/// empty or ends in a root.
#[verifier::external_body]
pub(crate) fn parent(path: &PathBuf) -> (r: Option<PathBuf>)
    ensures
        r == parent_of(*path),
{
    match path.parent() {
        Some(above) => Some(above.to_path_buf()),
        None => None,
    }
}

/// The value of a hexadecimal digit of either case.
pub open spec fn digit(c: char) -> Option<int> {
    if '0' <= c <= '9' {
        Some(c as int - '0' as int)
    } else if 'a' <= c <= 'f' {
        Some(c as int - 'a' as int + 10)
    } else if 'A' <= c <= 'F' {
        Some(c as int - 'A' as int + 10)
    } else {
        None
    }
}

/// Whether a text is a whole number of pairs of hexadecimal digits.
pub open spec fn is_hex(text: Seq<char>) -> bool {
    &&& text.len() % 2 == 0
    &&& forall|i: int| 0 <= i < text.len() ==> digit(#[trigger] text[i]) is Some
}

/// The bytes that pairs of hexadecimal digits spell, the high digit first.
pub open spec fn hex_bytes(text: Seq<char>) -> Seq<u8> {
    Seq::new(
        text.len() / 2,
        |i: int| (digit(text[2 * i])->0 * 16 + digit(text[2 * i + 1])->0) as u8,
    )
}

/// `hex::decode(text)` succeeds exactly on pairs of hexadecimal digits of either case, and then
/// gives the bytes that they spell.
#[verifier::external_body]
pub(crate) fn decode_hex(text: &str) -> (r: Result<Vec<u8>, hex::FromHexError>)
    ensures
        r is Ok <==> is_hex(text@),
        r matches Ok(bytes) ==> bytes@ == hex_bytes(text@),
{
    hex::decode(text)
}

/// The entry function that a payload calls, if the payload is such a call.
pub uninterp spec fn entry_function_in(payload: TransactionPayload) -> Option<ScriptFunction>;

/// `TransactionPayload::ScriptFunction` told apart from the other payloads, and the call taken
/// out.
#[verifier::external_body]
pub(crate) fn into_entry_function(payload: TransactionPayload) -> (r: Option<ScriptFunction>)
    ensures
        r == entry_function_in(payload),
{
    match payload {
        TransactionPayload::WriteSet(_) => None,
        TransactionPayload::Script(_) => None,
        TransactionPayload::Module(_) => None,
        TransactionPayload::ScriptFunction(call) => Some(call),
    }
}

/// The genesis transaction that writes a change set directly.
pub uninterp spec fn genesis_of(changes: ChangeSet) -> Transaction;

/// `Transaction::GenesisTransaction(WriteSetPayload::Direct(changes))`.
#[verifier::external_body]
pub(crate) fn direct_genesis(changes: ChangeSet) -> (r: Transaction)
    ensures
        r == genesis_of(changes),
{
    Transaction::GenesisTransaction(WriteSetPayload::Direct(changes))
}

/// What `bcs::to_bytes` makes of a transaction: its bytes, or the error.
pub uninterp spec fn encoding(transaction: Transaction) -> Result<Seq<u8>, bcs::Error>;

/// `bcs::to_bytes(transaction)`: the bytes, or the error, are a function of the transaction.
#[verifier::external_body]
pub(crate) fn encode(transaction: &Transaction) -> (r: Result<Vec<u8>, bcs::Error>)
    ensures
        r matches Ok(bytes) ==> (encoding(*transaction) matches Ok(named) && named == bytes@),
        r matches Err(error) ==> (encoding(*transaction) matches Err(named) && named == error),
{
    bcs::to_bytes(transaction)
}

/// What `bcs::from_bytes` reads from bytes: a transaction, or the error.
pub uninterp spec fn decoding(bytes: Seq<u8>) -> Result<Transaction, bcs::Error>;

/// Whether a reading of bytes agrees with every direct genesis that has them as its encoding.
pub open spec fn reads_back(bytes: Seq<u8>, read: Result<Transaction, bcs::Error>) -> bool {
    forall|changes: ChangeSet|
        ((#[trigger] encoding(genesis_of(changes))) matches Ok(written) && written == bytes) ==> (
        read matches Ok(transaction) && transaction == genesis_of(changes))
}

/// `bcs::from_bytes::<Transaction>(bytes)`: the transaction, or the error, is a function of the
/// bytes. The bytes that `bcs::to_bytes` makes of a direct genesis read back as that genesis.
#[verifier::external_body]
pub(crate) fn decode(bytes: &Vec<u8>) -> (r: Result<Transaction, bcs::Error>)
    ensures
        r == decoding(bytes@),
        reads_back(bytes@, r),
{
    bcs::from_bytes(bytes)
}

} // verus!

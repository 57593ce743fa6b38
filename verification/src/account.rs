//! What each account command hands to the wallet engine and what it
//! prints: the outputs of `send` and `send-native`, the faucet request of
//! `faucet`, and the exact lines of the listings.

use vstd::prelude::*;
use vstd::string::*;
use crate::numeric::{all_dec_digits, dec_str_of, dec_val, u64_to_dec_string};
use crate::token::{
    all_hex_digits, hex_bytes_of, u256_limit, AmountError, TokenId, TokenIdError, U256,
    TOKEN_ID_LENGTH,
};

verus! {

/// One address of the account, as the engine reports it: its bech32 text,
/// the index it was derived under, and whether it is a change address.
#[derive(Debug, Clone)]
pub struct AccountAddress {
    /// Bech32 text of the address.
    pub address: String,
    /// Index under which the address was derived.
    pub key_index: u32,
    /// True for an internal (change) address.
    pub internal: bool,
}

/// One base-currency output of a `send` command.
#[derive(Debug)]
pub struct AddressAndAmount {
    /// Bech32 text of the receiving address.
    pub address: String,
    /// Amount of base currency to send.
    pub amount: u64,
}

/// One native-token output of a `send-native` command. Every field of the
/// engine's output description that this plan does not name keeps the
/// engine's default.
#[derive(Debug)]
pub struct AddressNativeTokens {
    /// Bech32 text of the receiving address.
    pub address: String,
    /// The tokens to send: each an identifier with an amount.
    pub native_tokens: Vec<(TokenId, U256)>,
}

/// Why a command could not be turned into work for the wallet engine.
#[derive(Clone, Copy, Debug, PartialEq, Eq, Structural)]
pub enum CommandError {
    /// `faucet` was called while the account has no address yet.
    NoAddresses,
    /// The token identifier of `send-native` did not parse.
    InvalidTokenId(TokenIdError),
    /// The token amount of `send-native` did not parse.
    InvalidAmount(AmountError),
}

impl CommandError {
    /// The message printed for this error.
    pub fn message(&self) -> (r: String)
        ensures
            self is NoAddresses ==> r@ == "Generate an address first!"@,
            self is InvalidTokenId ==> r@ == "Invalid token id"@,
            self is InvalidAmount ==> r@ == "Invalid native token amount"@,
    {
        match self {
            CommandError::NoAddresses => String::from_str("Generate an address first!"),
            CommandError::InvalidTokenId(_) => String::from_str("Invalid token id"),
            CommandError::InvalidAmount(_) => String::from_str("Invalid native token amount"),
        }
    }
}

/// The outputs a `send` command hands to the engine: one output paying
/// `amount` to `address`.
pub fn send_outputs(address: String, amount: u64) -> (outputs: Vec<AddressAndAmount>)
    ensures
        outputs@.len() == 1,
        outputs@[0].address@ == address@,
        outputs@[0].amount == amount,
{
    let mut outputs: Vec<AddressAndAmount> = Vec::new();
    outputs.push(AddressAndAmount { address, amount });
    outputs
}

/// The token identifier error a string earns, when it earns one.
pub open spec fn spec_token_id_error(s: Seq<char>) -> TokenIdError {
    if s.len() != 2 * TOKEN_ID_LENGTH {
        TokenIdError::InvalidLength
    } else {
        TokenIdError::InvalidDigit
    }
}

/// The amount error a string earns, when it earns one.
pub open spec fn spec_amount_error(s: Seq<char>) -> AmountError {
    if s.len() == 0 {
        AmountError::Empty
    } else if !all_dec_digits(s) {
        AmountError::InvalidCharacter
    } else {
        AmountError::TooLarge
    }
}

/// True when `s` is a well-formed token identifier text.
pub open spec fn token_id_text_ok(s: Seq<char>) -> bool {
    s.len() == 2 * TOKEN_ID_LENGTH && all_hex_digits(s)
}

/// True when `s` is a well-formed token amount text.
pub open spec fn amount_text_ok(s: Seq<char>) -> bool {
    s.len() > 0 && all_dec_digits(s) && dec_val(s) < u256_limit()
}

/// The outputs a `send-native` command hands to the engine: one output
/// sending one kind of native token to `address`. The token identifier is
/// read first; only when it parses is the amount read.
pub fn send_native_outputs(address: String, token_id: &str, native_token_amount: &str) -> (r:
    Result<Vec<AddressNativeTokens>, CommandError>)
    ensures
        r is Ok <==> token_id_text_ok(token_id@) && amount_text_ok(native_token_amount@),
        r is Ok ==> r->Ok_0@.len() == 1 && r->Ok_0@[0].address@ == address@
            && r->Ok_0@[0].native_tokens@.len() == 1 && r->Ok_0@[0].native_tokens@[0].0@
            == hex_bytes_of(token_id@) && r->Ok_0@[0].native_tokens@[0].1.value() == dec_val(
            native_token_amount@,
        ),
        !token_id_text_ok(token_id@) ==> r is Err && r->Err_0 == CommandError::InvalidTokenId(
            spec_token_id_error(token_id@),
        ),
        token_id_text_ok(token_id@) && !amount_text_ok(native_token_amount@) ==> r is Err
            && r->Err_0 == CommandError::InvalidAmount(spec_amount_error(native_token_amount@)),
{
    let tid = match TokenId::from_hex_str(token_id) {
        Ok(tid) => tid,
        Err(e) => {
            return Err(CommandError::InvalidTokenId(e));
        },
    };
    let amount = match U256::from_dec_str(native_token_amount) {
        Ok(a) => a,
        Err(e) => {
            return Err(CommandError::InvalidAmount(e));
        },
    };
    let mut native_tokens: Vec<(TokenId, U256)> = Vec::new();
    native_tokens.push((tid, amount));
    let mut outputs: Vec<AddressNativeTokens> = Vec::new();
    outputs.push(AddressNativeTokens { address, native_tokens });
    Ok(outputs)
}

/// Text of the faucet endpoint used when the command names none.
pub const DEFAULT_FAUCET_URL: &'static str = "http://localhost:14265/api/plugins/faucet/v1/enqueue";

/// A planned faucet call: where to ask, and for which address.
#[derive(Debug)]
pub struct FaucetRequest {
    /// The faucet endpoint to call.
    pub url: String,
    /// Bech32 text of the address the funds go to.
    pub address: String,
}

/// Decide the faucet call of a `faucet` command: funds go to the account's
/// latest address, and the request goes to `url`, or to the default
/// endpoint when none is given. Without an address there is no call.
pub fn faucet_request(addresses: &Vec<AccountAddress>, url: &Option<String>) -> (r: Result<
    FaucetRequest,
    CommandError,
>)
    ensures
        r is Ok <==> addresses@.len() > 0,
        addresses@.len() == 0 ==> r == Err::<FaucetRequest, CommandError>(
            CommandError::NoAddresses,
        ),
        r is Ok ==> r->Ok_0.address@ == addresses@.last().address@,
        r is Ok ==> match url {
            Some(u) => r->Ok_0.url@ == u@,
            None => r->Ok_0.url@ == DEFAULT_FAUCET_URL@,
        },
{
    if addresses.len() == 0 {
        return Err(CommandError::NoAddresses);
    }
    let address = addresses[addresses.len() - 1].address.clone();
    let chosen = match url {
        Some(u) => u.clone(),
        None => String::from_str(DEFAULT_FAUCET_URL),
    };
    Ok(FaucetRequest { url: chosen, address })
}

/// The text for a bool, as the listing prints it.
pub open spec fn spec_bool_str(b: bool) -> Seq<char> {
    if b {
        "true"@
    } else {
        "false"@
    }
}

/// The one-word string for a bool.
fn bool_str(b: bool) -> (r: &'static str)
    ensures
        r@ == spec_bool_str(b),
{
    if b {
        "true"
    } else {
        "false"
    }
}

/// The line the `sync` command prints, around the engine's text for the
/// synced state.
pub fn sync_line(detail: &str) -> (r: String)
    ensures
        r@ == "Synced: "@ + detail@,
{
    let mut r = String::from_str("Synced: ");
    r.append(detail);
    r
}

/// The line `send` and `send-native` print for a created transaction,
/// around the engine's text for it.
pub fn transaction_created_line(detail: &str) -> (r: String)
    ensures
        r@ == "Transaction created: "@ + detail@,
{
    let mut r = String::from_str("Transaction created: ");
    r.append(detail);
    r
}

/// The line the transaction listing prints for one transaction, around the
/// engine's text for it.
pub fn transaction_line(detail: &str) -> (r: String)
    ensures
        r@ == "TRANSACTION "@ + detail@,
{
    let mut r = String::from_str("TRANSACTION ");
    r.append(detail);
    r
}

/// The lines the `list-transactions` command prints: a notice when there
/// are no transactions, else one line per transaction around the engine's
/// text for each.
pub fn list_transactions_lines(transactions: &Vec<String>) -> (lines: Vec<String>)
    ensures
        transactions@.len() == 0 ==> lines@.len() == 1 && lines@[0]@ == "No transactions found"@,
        transactions@.len() > 0 ==> lines@.len() == transactions@.len() && forall|i: int|
            0 <= i < lines@.len() ==> (#[trigger] lines@[i])@ == "TRANSACTION "@
                + transactions@[i]@,
{
    if transactions.len() == 0 {
        let mut lines: Vec<String> = Vec::new();
        lines.push(String::from_str("No transactions found"));
        return lines;
    }
    let mut lines: Vec<String> = Vec::new();
    let mut i: usize = 0;
    while i < transactions.len()
        invariant
            0 <= i <= transactions@.len(),
            lines@.len() == i,
            forall|j: int|
                0 <= j < i ==> (#[trigger] lines@[j])@ == "TRANSACTION "@ + transactions@[j]@,
        decreases transactions@.len() - i,
    {
        lines.push(transaction_line(transactions[i].as_str()));
        i = i + 1;
    }
    lines
}

/// The three lines printed for one address: its bech32 text in quotes, its
/// derivation index, and whether it is a change address.
pub fn address_lines(address: &AccountAddress) -> (lines: Vec<String>)
    ensures
        lines@.len() == 3,
        lines@[0]@ == "ADDRESS \""@ + address.address@ + "\""@,
        lines@[1]@ == "--- Index: "@ + dec_str_of(address.key_index as nat),
        lines@[2]@ == "--- Change address: "@ + spec_bool_str(address.internal),
{
    let mut first = String::from_str("ADDRESS \"");
    first.append(address.address.as_str());
    first.append("\"");
    let mut second = String::from_str("--- Index: ");
    let index_text = u64_to_dec_string(address.key_index as u64);
    second.append(index_text.as_str());
    let mut third = String::from_str("--- Change address: ");
    third.append(bool_str(address.internal));
    let mut lines: Vec<String> = Vec::new();
    lines.push(first);
    lines.push(second);
    lines.push(third);
    lines
}

/// True when the three lines starting at `3 * i` of `lines` are the lines
/// printed for the address at `i`.
pub open spec fn address_block_ok(lines: Seq<String>, addresses: Seq<AccountAddress>, i: int) -> bool
    recommends
        0 <= i < addresses.len(),
        3 * i + 3 <= lines.len(),
{
    lines[3 * i]@ == "ADDRESS \""@ + addresses[i].address@ + "\""@ && lines[3 * i + 1]@
        == "--- Index: "@ + dec_str_of(addresses[i].key_index as nat) && lines[3 * i + 2]@
        == "--- Change address: "@ + spec_bool_str(addresses[i].internal)
}

/// The lines the `list-addresses` command prints: a notice when there are
/// no addresses, else the three lines of each address in turn.
pub fn list_addresses_lines(addresses: &Vec<AccountAddress>) -> (lines: Vec<String>)
    ensures
        addresses@.len() == 0 ==> lines@.len() == 1 && lines@[0]@ == "No addresses found"@,
        addresses@.len() > 0 ==> lines@.len() == 3 * addresses@.len() && forall|i: int|
            0 <= i < addresses@.len() ==> #[trigger] address_block_ok(lines@, addresses@, i),
{
    if addresses.len() == 0 {
        let mut lines: Vec<String> = Vec::new();
        lines.push(String::from_str("No addresses found"));
        return lines;
    }
    let mut lines: Vec<String> = Vec::new();
    let mut i: usize = 0;
    while i < addresses.len()
        invariant
            0 <= i <= addresses@.len(),
            lines@.len() == 3 * i,
            forall|j: int| 0 <= j < i ==> #[trigger] address_block_ok(lines@, addresses@, j),
        decreases addresses@.len() - i,
    {
        let mut block = address_lines(&addresses[i]);
        let ghost lines_before = lines@;
        lines.append(&mut block);
        proof {
            assert forall|j: int| 0 <= j < i + 1 implies #[trigger] address_block_ok(
                lines@,
                addresses@,
                j,
            ) by {
                if j < i {
                    assert(address_block_ok(lines_before, addresses@, j));
                    assert(lines@[3 * j] == lines_before[3 * j]);
                    assert(lines@[3 * j + 1] == lines_before[3 * j + 1]);
                    assert(lines@[3 * j + 2] == lines_before[3 * j + 2]);
                }
            }
        }
        i = i + 1;
    }
    lines
}

} // verus!

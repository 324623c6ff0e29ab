use vstd::prelude::*;
use vstd::string::StringExecFns;

use crate::bytes32::Bytes32;
use crate::hexstr::{decode_hex, hex_bytes, hex_error_for, hex_ok, lemma_hex_bytes_len, HexDecodeError};
use crate::u256::U256;
use crate::url_port::{get_url_with_port, normalized_url_of};

verus! {

/// A validated chain identity.
#[derive(Clone, Copy, PartialEq, Eq, Structural, Debug)]
pub struct Chain {
    pub id: u64,
}

/// Which required configuration value was absent.
#[derive(Clone, Copy, PartialEq, Eq, Structural, Debug)]
pub enum Parameter {
    RpcUrl,
    PrivateKey,
    Chain,
}

/// Why resolving a chain parameter failed.
#[derive(Clone, Copy, PartialEq, Eq, Structural, Debug)]
pub enum ResolveError {
    /// A required configuration value was absent.
    MissingParameter(Parameter),
    /// The provided RPC URL string failed normalization.
    InvalidUrl,
    /// The provided private key string was not valid hex.
    InvalidKeyEncoding(HexDecodeError),
}

/// The diagnostic text of a hex decoding failure.
pub open spec fn hex_message_of(e: HexDecodeError) -> Seq<char> {
    match e {
        HexDecodeError::OddLength => "Odd number of digits"@,
        HexDecodeError::InvalidHexCharacter { .. } => "Invalid character in hex string"@,
    }
}

impl HexDecodeError {
    /// A short description of the failure.
    pub fn message(&self) -> (r: &'static str)
        ensures
            r@ == hex_message_of(*self),
    {
        match self {
            HexDecodeError::OddLength => "Odd number of digits",
            HexDecodeError::InvalidHexCharacter { .. } => "Invalid character in hex string",
        }
    }
}

/// The user-visible text of a resolution failure: it names the missing or
/// invalid input and the flag or environment variable that remedies it.
pub open spec fn message_of(e: ResolveError) -> Seq<char> {
    match e {
        ResolveError::MissingParameter(Parameter::RpcUrl) =>
            "RPC URL was not provided. Try using --rpc-url flag or environment variable 'ETH_RPC_URL= '"@,
        ResolveError::MissingParameter(Parameter::PrivateKey) =>
            "Private key was not provided. Try using --private-key flag"@,
        ResolveError::MissingParameter(Parameter::Chain) =>
            "Chain was not provided. Use --chain flag (ex. --chain 270 ) \nor environment variable 'CHAIN= ' (ex.'CHAIN=270')"@,
        ResolveError::InvalidUrl => "Invalid RPC_URL"@,
        ResolveError::InvalidKeyEncoding(he) => "Error parsing private key: "@ + hex_message_of(he),
    }
}

impl ResolveError {
    /// The user-visible message for this failure.
    pub fn message(&self) -> (r: String)
        ensures
            r@ == message_of(*self),
    {
        match self {
            ResolveError::MissingParameter(Parameter::RpcUrl) => String::from_str(
                "RPC URL was not provided. Try using --rpc-url flag or environment variable 'ETH_RPC_URL= '",
            ),
            ResolveError::MissingParameter(Parameter::PrivateKey) => String::from_str(
                "Private key was not provided. Try using --private-key flag",
            ),
            ResolveError::MissingParameter(Parameter::Chain) => String::from_str(
                "Chain was not provided. Use --chain flag (ex. --chain 270 ) \nor environment variable 'CHAIN= ' (ex.'CHAIN=270')",
            ),
            ResolveError::InvalidUrl => String::from_str("Invalid RPC_URL"),
            ResolveError::InvalidKeyEncoding(he) => {
                let m = String::from_str("Error parsing private key: ");
                m.concat(he.message())
            },
        }
    }
}

/// Gets the RPC URL for the chain, normalized to carry an explicit port.
///
/// Fails with `MissingParameter` when no URL was provided, and with
/// `InvalidUrl` when the provided string does not normalize.
pub fn get_rpc_url(rpc_url: &Option<String>) -> (r: Result<String, ResolveError>)
    ensures
        match (rpc_url, r) {
            (None, Err(e)) => e == ResolveError::MissingParameter(Parameter::RpcUrl),
            (Some(s), Ok(u)) => normalized_url_of(s@) == Some(u@),
            (Some(s), Err(e)) => normalized_url_of(s@) is None && e == ResolveError::InvalidUrl,
            _ => false,
        },
{
    match rpc_url {
        Some(url) => match get_url_with_port(url.as_str()) {
            Some(u) => Ok(u),
            None => Err(ResolveError::InvalidUrl),
        },
        None => Err(ResolveError::MissingParameter(Parameter::RpcUrl)),
    }
}

/// Gets the private key as a 32-byte value.
///
/// Fails with `MissingParameter` when no key was provided, and with
/// `InvalidKeyEncoding`, carrying the decode diagnostic, when the provided
/// string is not valid hex. A string of valid hex must spell exactly 32
/// bytes: the fixed-width conversion accepts no other length.
pub fn get_private_key(private_key: &Option<String>) -> (r: Result<Bytes32, ResolveError>)
    requires
        match private_key {
            Some(s) => hex_ok(s@) ==> s@.len() == 64,
            None => true,
        },
    ensures
        match (private_key, r) {
            (None, Err(e)) => e == ResolveError::MissingParameter(Parameter::PrivateKey),
            (Some(s), Ok(k)) => hex_ok(s@) && k.bytes@ == hex_bytes(s@) && k.wf(),
            (Some(s), Err(e)) => !hex_ok(s@) && match e {
                ResolveError::InvalidKeyEncoding(he) => hex_error_for(s@, he),
                _ => false,
            },
            _ => false,
        },
{
    match private_key {
        Some(pkey) => match decode_hex(pkey.as_str()) {
            Ok(val) => {
                proof {
                    lemma_hex_bytes_len(pkey@);
                }
                Ok(Bytes32::from_vec(val))
            },
            Err(e) => Err(ResolveError::InvalidKeyEncoding(e)),
        },
        None => Err(ResolveError::MissingParameter(Parameter::PrivateKey)),
    }
}

/// Gets the chain from the options: a passthrough that fails with
/// `MissingParameter` when no chain was provided.
pub fn get_chain(chain: Option<Chain>) -> (r: Result<Chain, ResolveError>)
    ensures
        match chain {
            Some(c) => r == Ok::<Chain, ResolveError>(c),
            None => r == Err::<Chain, ResolveError>(
                ResolveError::MissingParameter(Parameter::Chain),
            ),
        },
{
    match chain {
        Some(c) => Ok(c),
        None => Err(ResolveError::MissingParameter(Parameter::Chain)),
    }
}

/// The layer-2 execution environment rejects a gas price below its minimum
/// viable base fee.
pub const MIN_L2_GAS_PRICE: u64 = 260_000_000;

/// The layer-2 gas accounting uses a 32-bit signed-range ceiling.
pub const MAX_L2_GAS_LIMIT: u64 = 0x7fff_ffff;

/// The corrected gas price: never below the layer-2 minimum.
pub open spec fn clamped_gas_price(x: nat) -> nat {
    if x < MIN_L2_GAS_PRICE { MIN_L2_GAS_PRICE as nat } else { x }
}

/// The corrected gas limit: never above the layer-2 ceiling.
pub open spec fn clamped_gas_limit(x: nat) -> nat {
    if x > MAX_L2_GAS_LIMIT { MAX_L2_GAS_LIMIT as nat } else { x }
}

/// Fixes the gas price to be at least 0.26 gwei, which is above the block
/// base fee on the layer-2 chain, so the bootloader does not reject a
/// transaction whose gas price is below the base fee.
pub fn fix_l2_gas_price(gas_price: U256) -> (r: U256)
    ensures
        r.as_nat() == clamped_gas_price(gas_price.as_nat()),
        gas_price.as_nat() >= MIN_L2_GAS_PRICE ==> r == gas_price,
{
    let floor = U256::from_u64(MIN_L2_GAS_PRICE);
    if gas_price.lt(&floor) {
        floor
    } else {
        gas_price
    }
}

/// Fixes the gas limit to be at most 2^31 - 1, which is below the layer-2
/// virtual machine's gas limit of 2^32, so the bootloader does not run out
/// of gas bookkeeping room.
pub fn fix_l2_gas_limit(gas_limit: U256) -> (r: U256)
    ensures
        r.as_nat() == clamped_gas_limit(gas_limit.as_nat()),
        gas_limit.as_nat() <= MAX_L2_GAS_LIMIT ==> r == gas_limit,
{
    let ceiling = U256::from_u64(MAX_L2_GAS_LIMIT);
    if ceiling.lt(&gas_limit) {
        ceiling
    } else {
        gas_limit
    }
}

/// Law: the corrected gas price is a monotone, idempotent floor at the
/// layer-2 minimum, and leaves any price at or above it unchanged.
pub proof fn lemma_gas_price_floor(x: nat, y: nat)
    ensures
        clamped_gas_price(x) >= MIN_L2_GAS_PRICE,
        x >= MIN_L2_GAS_PRICE ==> clamped_gas_price(x) == x,
        clamped_gas_price(clamped_gas_price(x)) == clamped_gas_price(x),
        x <= y ==> clamped_gas_price(x) <= clamped_gas_price(y),
{
}

/// Law: the corrected gas limit is a monotone, idempotent ceiling at the
/// layer-2 maximum, and leaves any limit at or below it unchanged.
pub proof fn lemma_gas_limit_ceiling(x: nat, y: nat)
    ensures
        clamped_gas_limit(x) <= MAX_L2_GAS_LIMIT,
        x <= MAX_L2_GAS_LIMIT ==> clamped_gas_limit(x) == x,
        clamped_gas_limit(clamped_gas_limit(x)) == clamped_gas_limit(x),
        x <= y ==> clamped_gas_limit(x) <= clamped_gas_limit(y),
{
}

} // verus!

use zkbuild::bytes32::Bytes32;
use zkbuild::hexstr::HexDecodeError;
use zkbuild::params::{
    fix_l2_gas_limit, fix_l2_gas_price, get_chain, get_private_key, get_rpc_url, Chain, Parameter,
    ResolveError,
};
use zkbuild::u256::U256;
use zkbuild::url_port::get_url_with_port;

#[test]
fn explicit_port_is_kept() {
    let r = get_url_with_port("http://example.com:8545/path").unwrap();
    assert_eq!(r, "http://example.com:8545/path");
    // `ssh` is not a special scheme, so the parsed path stays empty.
    let r = get_url_with_port("ssh://example.com:22").unwrap();
    assert_eq!(r, "ssh://example.com:22");
}

#[test]
fn output_is_canonical() {
    // Scheme and host are lowercased by parsing; the scheme's own default
    // port counts as "no port given".
    let r = get_url_with_port("HTTP://EXAMPLE.com:8080/Path").unwrap();
    assert_eq!(r, "http://example.com:8080/Path");
    let r = get_url_with_port("https://example.com:443/x").unwrap();
    assert_eq!(r, "https://example.com:443/x");
    let r = get_url_with_port("http://example.com:443/x").unwrap();
    assert_eq!(r, "http://example.com:443/x");
}

#[test]
fn https_without_port_gets_443() {
    let r = get_url_with_port("https://example.com").unwrap();
    assert_eq!(r, "https://example.com:443/");
    let r = get_url_with_port("https://example.com/api").unwrap();
    assert_eq!(r, "https://example.com:443/api");
}

#[test]
fn other_schemes_without_port_get_80() {
    let r = get_url_with_port("http://example.com").unwrap();
    assert_eq!(r, "http://example.com:80/");
    let r = get_url_with_port("wss://example.com/ws").unwrap();
    assert_eq!(r, "wss://example.com:80/ws");
}

#[test]
fn invalid_url_gives_no_value() {
    assert_eq!(get_url_with_port("not a url"), None);
    assert_eq!(get_url_with_port(""), None);
}

#[test]
fn url_without_host_gives_no_value() {
    assert_eq!(get_url_with_port("mailto:someone@example.com"), None);
    assert_eq!(get_url_with_port("data:text/plain,stuff"), None);
}

#[test]
fn rpc_url_missing_and_invalid() {
    let r = get_rpc_url(&None);
    assert_eq!(
        r.unwrap_err(),
        ResolveError::MissingParameter(Parameter::RpcUrl)
    );
    let r = get_rpc_url(&Some("::not-a-url::".to_string()));
    assert_eq!(r.unwrap_err(), ResolveError::InvalidUrl);
    let r = get_rpc_url(&Some("http://localhost:8011".to_string()));
    assert_eq!(r.unwrap(), "http://localhost:8011/");
}

#[test]
fn private_key_resolution() {
    let r = get_private_key(&None);
    assert_eq!(
        r.unwrap_err(),
        ResolveError::MissingParameter(Parameter::PrivateKey)
    );

    let r = get_private_key(&Some("not-hex".to_string()));
    assert_eq!(
        r.unwrap_err(),
        ResolveError::InvalidKeyEncoding(HexDecodeError::OddLength)
    );

    let r = get_private_key(&Some("zz".to_string()));
    assert_eq!(
        r.unwrap_err(),
        ResolveError::InvalidKeyEncoding(HexDecodeError::InvalidHexCharacter { c: 'z', index: 0 })
    );

    let hexkey = "000102030405060708090a0b0c0d0e0f101112131415161718191a1b1c1d1e1f";
    let key: Bytes32 = get_private_key(&Some(hexkey.to_string())).unwrap();
    let expected: Vec<u8> = (0u8..32u8).collect();
    assert_eq!(key.bytes, expected);
}

#[test]
fn chain_resolution() {
    let r = get_chain(None);
    assert_eq!(
        r.unwrap_err(),
        ResolveError::MissingParameter(Parameter::Chain)
    );
    let c = Chain { id: 270 };
    assert_eq!(get_chain(Some(c)).unwrap(), c);
}

#[test]
fn error_messages_name_the_remedy() {
    let m = ResolveError::MissingParameter(Parameter::RpcUrl).message();
    assert_eq!(
        m,
        "RPC URL was not provided. Try using --rpc-url flag or environment variable 'ETH_RPC_URL= '"
    );
    let m = ResolveError::MissingParameter(Parameter::PrivateKey).message();
    assert_eq!(m, "Private key was not provided. Try using --private-key flag");
    let m = ResolveError::MissingParameter(Parameter::Chain).message();
    assert_eq!(
        m,
        "Chain was not provided. Use --chain flag (ex. --chain 270 ) \nor environment variable 'CHAIN= ' (ex.'CHAIN=270')"
    );
    let m = ResolveError::InvalidUrl.message();
    assert_eq!(m, "Invalid RPC_URL");
    let m = ResolveError::InvalidKeyEncoding(HexDecodeError::OddLength).message();
    assert_eq!(m, "Error parsing private key: Odd number of digits");
}

#[test]
fn gas_price_is_floored() {
    let low = U256::from_u64(100);
    assert_eq!(fix_l2_gas_price(low), U256::from_u64(260_000_000));
    let exact = U256::from_u64(260_000_000);
    assert_eq!(fix_l2_gas_price(exact), exact);
    let high = U256::from_u64(260_000_001);
    assert_eq!(fix_l2_gas_price(high), high);
    let huge = U256(0, 0, 0, 7);
    assert_eq!(fix_l2_gas_price(huge), huge);
}

#[test]
fn gas_limit_is_capped() {
    let low = U256::from_u64(21_000);
    assert_eq!(fix_l2_gas_limit(low), low);
    let cap = U256::from_u64(0x7fff_ffff);
    assert_eq!(fix_l2_gas_limit(cap), cap);
    let over = U256::from_u64(0x8000_0000);
    assert_eq!(fix_l2_gas_limit(over), cap);
    let wide = U256(0, 1, 0, 0);
    assert_eq!(fix_l2_gas_limit(wide), cap);
}

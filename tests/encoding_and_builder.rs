use aptos_relayer::address::parse_address;
use aptos_relayer::builder::{make_initialize_call, BuildError, InitializeParams, ModuleRef, RelayerConfig};
use aptos_relayer::encoding::{encode_byte_lists, encode_bytes, encode_u64, encode_u8};
use aptos_relayer::feed::make_feed_id_bytes;
use aptos_relayer::relayer::{AptosRelayer, TransactionParams};

fn config() -> RelayerConfig {
    RelayerConfig::new([7u8; 32], "main", "process_redstone_payload").unwrap()
}

#[test]
fn feed_id_of_btc_is_padded_with_zeros() {
    let id = make_feed_id_bytes("BTC");
    let mut expected = [0u8; 32];
    expected[0] = 0x42;
    expected[1] = 0x54;
    expected[2] = 0x43;
    assert_eq!(id, expected);
}

#[test]
fn feed_id_of_empty_and_full_symbols() {
    assert_eq!(make_feed_id_bytes(""), [0u8; 32]);
    let full = "ABCDEFGHIJKLMNOPQRSTUVWXYZ012345";
    assert_eq!(make_feed_id_bytes(full).to_vec(), full.as_bytes().to_vec());
}

#[test]
fn bytes_are_encoded_with_their_length_first() {
    assert_eq!(encode_bytes(&vec![1, 2, 3]), Some(vec![3, 1, 2, 3]));
    assert_eq!(encode_bytes(&vec![]), Some(vec![0]));
    let long = vec![9u8; 200];
    let enc = encode_bytes(&long).unwrap();
    assert_eq!(enc[..2].to_vec(), vec![0xC8, 0x01]);
    assert_eq!(enc.len(), 202);
}

#[test]
fn integers_and_lists_are_encoded_canonically() {
    assert_eq!(encode_u8(3), vec![3]);
    assert_eq!(encode_u64(54000), vec![0xF0, 0xD2, 0, 0, 0, 0, 0, 0]);
    assert_eq!(encode_byte_lists(&vec![vec![1, 2], vec![]]), Some(vec![2, 2, 1, 2, 0]));
}

#[test]
fn process_payload_call_targets_the_configured_entry_point() {
    let relayer = AptosRelayer::new([1u8; 32], config());
    let feed = make_feed_id_bytes("BTC").to_vec();
    let call = relayer.make_process_redstone_payload_tx(feed.clone(), vec![1, 2, 3]).unwrap();
    assert_eq!(call.module.address, [7u8; 32]);
    assert_eq!(call.module.name, "main");
    assert_eq!(call.function, "process_redstone_payload");
    let mut first = vec![32u8];
    first.extend_from_slice(&feed);
    assert_eq!(call.args, vec![first, vec![3, 1, 2, 3]]);
}

#[test]
fn building_twice_gives_identical_arguments() {
    let relayer = AptosRelayer::new([1u8; 32], config());
    let feed = make_feed_id_bytes("ETH").to_vec();
    let payload = vec![5u8, 6, 7, 8, 9];
    let a = relayer.make_process_redstone_payload_tx(feed.clone(), payload.clone()).unwrap();
    let b = relayer.make_process_redstone_payload_tx(feed, payload).unwrap();
    assert_eq!(a.args, b.args);
}

#[test]
fn initialize_call_encodes_signers_threshold_and_windows() {
    let module = ModuleRef { address: [2u8; 32], name: "main".to_string() };
    let params = InitializeParams::with_defaults(vec![vec![0xAA, 0xBB], vec![0xCC]]);
    assert_eq!(params.threshold, 3);
    assert_eq!(params.window_a, 54000);
    assert_eq!(params.window_b, 54000);
    let call = make_initialize_call(&module, &params).unwrap();
    assert_eq!(call.function, "initialize");
    assert_eq!(call.module.address, [2u8; 32]);
    assert_eq!(
        call.args,
        vec![
            vec![2, 2, 0xAA, 0xBB, 1, 0xCC],
            vec![3],
            vec![0xF0, 0xD2, 0, 0, 0, 0, 0, 0],
            vec![0xF0, 0xD2, 0, 0, 0, 0, 0, 0],
        ]
    );
}

#[test]
fn relayer_uses_default_fee_settings() {
    let relayer = AptosRelayer::new([1u8; 32], config());
    assert_eq!(
        relayer.params,
        TransactionParams { chain_id: 177, gas_unit_price: 100, max_gas_amount: 10000 }
    );
    let call = relayer.make_process_redstone_payload_tx(vec![1], vec![2]).unwrap();
    let raw = relayer.raw_transaction(call, 42);
    assert_eq!(raw.sender, [1u8; 32]);
    assert_eq!(raw.sequence_number, 42);
    assert_eq!(raw.params.chain_id, 177);
}

#[test]
fn invalid_identifiers_are_rejected() {
    assert_eq!(RelayerConfig::new([0u8; 32], "1main", "f").unwrap_err(), BuildError::InvalidIdentifier);
    assert_eq!(RelayerConfig::new([0u8; 32], "main", "").unwrap_err(), BuildError::InvalidIdentifier);
    assert_eq!(RelayerConfig::new([0u8; 32], "main", "a-b").unwrap_err(), BuildError::InvalidIdentifier);
    assert!(RelayerConfig::new([0u8; 32], "_main", "process_2").is_ok());
}

#[test]
fn addresses_are_read_as_padded_hex() {
    let mut one = [0u8; 32];
    one[31] = 1;
    assert_eq!(parse_address("0x1"), Some(one));
    assert_eq!(parse_address("1"), Some(one));
    let mut ab = [0u8; 32];
    ab[30] = 0x0A;
    ab[31] = 0xBC;
    assert_eq!(parse_address("0XaBc"), Some(ab));
    assert_eq!(parse_address(""), None);
    assert_eq!(parse_address("0x"), None);
    assert_eq!(parse_address("0xzz"), None);
    assert_eq!(parse_address(&format!("0x{}", "1".repeat(65))), None);
    assert_eq!(parse_address(&format!("0x0x{}", "1".repeat(62))), None);
    assert_eq!(parse_address(&format!("x{}", "1".repeat(62))), None);
    assert_eq!(parse_address(&"f".repeat(64)), Some([0xFF; 32]));
}

#[test]
fn config_from_text_reports_bad_address() {
    assert_eq!(RelayerConfig::from_text("0xgg", "main", "f").unwrap_err(), BuildError::InvalidAddress);
    let c = RelayerConfig::from_text("0x2", "main", "process_redstone_payload").unwrap();
    assert_eq!(c.module.address[31], 2);
    assert_eq!(c.module.name, "main");
}

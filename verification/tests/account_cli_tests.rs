use account_cli::account::{
    address_lines, faucet_request, list_addresses_lines, list_transactions_lines,
    send_native_outputs, send_outputs, sync_line, transaction_created_line, AccountAddress,
    CommandError, DEFAULT_FAUCET_URL,
};
use account_cli::command::{parse_account_command, AccountCommands, CommandParseError};
use account_cli::numeric::{parse_u64, u64_to_dec_string, ParseNumError};
use account_cli::token::{AmountError, TokenId, TokenIdError, U256};

fn words(parts: &[&str]) -> Vec<String> {
    parts.iter().map(|p| p.to_string()).collect()
}

const EXAMPLE_TOKEN_ID: &str =
    "08e3a2f76cc934bc0cc21575b4610c1d7d4eb589ae0100000000000000000000000000000000";

#[test]
fn parse_no_arg_commands() {
    assert!(matches!(
        parse_account_command(&words(&["address"])).unwrap().command,
        AccountCommands::Address
    ));
    assert!(matches!(
        parse_account_command(&words(&["balance"])).unwrap().command,
        AccountCommands::Balance
    ));
    assert!(matches!(
        parse_account_command(&words(&["list-addresses"])).unwrap().command,
        AccountCommands::ListAddresses
    ));
    assert!(matches!(
        parse_account_command(&words(&["list-transactions"])).unwrap().command,
        AccountCommands::ListTransactions
    ));
    assert!(matches!(
        parse_account_command(&words(&["sync"])).unwrap().command,
        AccountCommands::Sync
    ));
    assert!(matches!(
        parse_account_command(&words(&["exit"])).unwrap().command,
        AccountCommands::Exit
    ));
}

#[test]
fn parse_faucet_with_and_without_url() {
    match parse_account_command(&words(&["faucet"])).unwrap().command {
        AccountCommands::Faucet { url } => assert!(url.is_none()),
        _ => panic!("expected faucet"),
    }
    match parse_account_command(&words(&["faucet", "http://example.org/f"])).unwrap().command {
        AccountCommands::Faucet { url } => assert_eq!(url.as_deref(), Some("http://example.org/f")),
        _ => panic!("expected faucet"),
    }
    assert_eq!(
        parse_account_command(&words(&["faucet", "u", "v"])).unwrap_err(),
        CommandParseError::TooManyArguments
    );
}

#[test]
fn parse_send() {
    match parse_account_command(&words(&[
        "send",
        "atoi1qzt0nhsf38nh6rs4p6zs5knqp6psgha9wsv74uajqgjmwc75ugupx3y7x0r",
        "1000000",
    ]))
    .unwrap()
    .command
    {
        AccountCommands::Send { address, amount } => {
            assert_eq!(
                address,
                "atoi1qzt0nhsf38nh6rs4p6zs5knqp6psgha9wsv74uajqgjmwc75ugupx3y7x0r"
            );
            assert_eq!(amount, 1000000);
        },
        _ => panic!("expected send"),
    }
    assert_eq!(
        parse_account_command(&words(&["send", "a"])).unwrap_err(),
        CommandParseError::MissingArgument
    );
    assert_eq!(
        parse_account_command(&words(&["send", "a", "1", "2"])).unwrap_err(),
        CommandParseError::TooManyArguments
    );
    assert_eq!(
        parse_account_command(&words(&["send", "a", "12x"])).unwrap_err(),
        CommandParseError::BadAmount(ParseNumError::InvalidDigit)
    );
    assert_eq!(
        parse_account_command(&words(&["send", "a", ""])).unwrap_err(),
        CommandParseError::BadAmount(ParseNumError::Empty)
    );
    assert_eq!(
        parse_account_command(&words(&["send", "a", "18446744073709551616"])).unwrap_err(),
        CommandParseError::BadAmount(ParseNumError::Overflow)
    );
}

#[test]
fn parse_send_native() {
    match parse_account_command(&words(&["send-native", "addr", EXAMPLE_TOKEN_ID, "10"]))
        .unwrap()
        .command
    {
        AccountCommands::SendNative { address, token_id, native_token_amount } => {
            assert_eq!(address, "addr");
            assert_eq!(token_id, EXAMPLE_TOKEN_ID);
            assert_eq!(native_token_amount, "10");
        },
        _ => panic!("expected send-native"),
    }
    assert_eq!(
        parse_account_command(&words(&["send-native", "addr", EXAMPLE_TOKEN_ID])).unwrap_err(),
        CommandParseError::MissingArgument
    );
}

#[test]
fn parse_empty_and_unknown() {
    assert_eq!(
        parse_account_command(&words(&[])).unwrap_err(),
        CommandParseError::Empty
    );
    assert_eq!(
        parse_account_command(&words(&["sned"])).unwrap_err(),
        CommandParseError::Unknown
    );
    assert_eq!(
        parse_account_command(&words(&["address", "x"])).unwrap_err(),
        CommandParseError::TooManyArguments
    );
}

#[test]
fn parse_u64_values() {
    assert_eq!(parse_u64("0"), Ok(0));
    assert_eq!(parse_u64("1000000"), Ok(1000000));
    assert_eq!(parse_u64("+42"), Ok(42));
    assert_eq!(parse_u64("18446744073709551615"), Ok(u64::MAX));
    assert_eq!(parse_u64("18446744073709551616"), Err(ParseNumError::Overflow));
    assert_eq!(parse_u64(""), Err(ParseNumError::Empty));
    assert_eq!(parse_u64("+"), Err(ParseNumError::Empty));
    assert_eq!(parse_u64("12 3"), Err(ParseNumError::InvalidDigit));
    assert_eq!(parse_u64("-1"), Err(ParseNumError::InvalidDigit));
}

#[test]
fn render_u64() {
    assert_eq!(u64_to_dec_string(0), "0");
    assert_eq!(u64_to_dec_string(7), "7");
    assert_eq!(u64_to_dec_string(10), "10");
    assert_eq!(u64_to_dec_string(907), "907");
    assert_eq!(u64_to_dec_string(u64::MAX), "18446744073709551615");
}

#[test]
fn render_then_parse_round_trip() {
    for n in [0u64, 1, 9, 10, 99, 1234567890123456789, u64::MAX] {
        assert_eq!(parse_u64(&u64_to_dec_string(n)), Ok(n));
    }
}

#[test]
fn token_id_from_hex() {
    let tid = TokenId::from_hex_str(EXAMPLE_TOKEN_ID).unwrap();
    let bytes = tid.bytes();
    assert_eq!(bytes.len(), 38);
    assert_eq!(bytes[0], 0x08);
    assert_eq!(bytes[1], 0xe3);
    assert_eq!(bytes[2], 0xa2);
    assert_eq!(bytes[37], 0x00);
    let upper = EXAMPLE_TOKEN_ID.to_uppercase();
    assert_eq!(TokenId::from_hex_str(&upper).unwrap().bytes(), bytes);
    assert!(matches!(
        TokenId::from_hex_str("08e3"),
        Err(TokenIdError::InvalidLength)
    ));
    let bad = format!("{}g", &EXAMPLE_TOKEN_ID[..75]);
    assert!(matches!(
        TokenId::from_hex_str(&bad),
        Err(TokenIdError::InvalidDigit)
    ));
}

#[test]
fn u256_from_dec_str_values() {
    let zero = U256::from_dec_str("0").unwrap();
    assert_eq!((zero.w0, zero.w1, zero.w2, zero.w3), (0, 0, 0, 0));
    let ten = U256::from_dec_str("10").unwrap();
    assert_eq!((ten.w0, ten.w1, ten.w2, ten.w3), (10, 0, 0, 0));
    let word_edge = U256::from_dec_str("18446744073709551616").unwrap();
    assert_eq!((word_edge.w0, word_edge.w1, word_edge.w2, word_edge.w3), (0, 1, 0, 0));
    let two_128 = U256::from_dec_str("340282366920938463463374607431768211456").unwrap();
    assert_eq!((two_128.w0, two_128.w1, two_128.w2, two_128.w3), (0, 0, 1, 0));
    // The largest 256-bit value.
    let max = U256::from_dec_str(
        "115792089237316195423570985008687907853269984665640564039457584007913129639935",
    )
    .unwrap();
    assert_eq!((max.w0, max.w1, max.w2, max.w3), (u64::MAX, u64::MAX, u64::MAX, u64::MAX));
    // One more does not fit.
    assert!(matches!(
        U256::from_dec_str(
            "115792089237316195423570985008687907853269984665640564039457584007913129639936"
        ),
        Err(AmountError::TooLarge)
    ));
    assert!(matches!(U256::from_dec_str(""), Err(AmountError::Empty)));
    assert!(matches!(U256::from_dec_str("12a"), Err(AmountError::InvalidCharacter)));
}

#[test]
fn send_outputs_one_output() {
    let outputs = send_outputs("atoi1xyz".to_string(), 1000000);
    assert_eq!(outputs.len(), 1);
    assert_eq!(outputs[0].address, "atoi1xyz");
    assert_eq!(outputs[0].amount, 1000000);
}

#[test]
fn send_native_outputs_ok_and_errors() {
    let outputs = send_native_outputs("atoi1xyz".to_string(), EXAMPLE_TOKEN_ID, "10").unwrap();
    assert_eq!(outputs.len(), 1);
    assert_eq!(outputs[0].address, "atoi1xyz");
    assert_eq!(outputs[0].native_tokens.len(), 1);
    assert_eq!(outputs[0].native_tokens[0].0.bytes()[0], 0x08);
    assert_eq!(outputs[0].native_tokens[0].1.w0, 10);
    assert_eq!(
        send_native_outputs("a".to_string(), "nothex", "10").unwrap_err(),
        CommandError::InvalidTokenId(TokenIdError::InvalidLength)
    );
    assert_eq!(
        send_native_outputs("a".to_string(), EXAMPLE_TOKEN_ID, "ten").unwrap_err(),
        CommandError::InvalidAmount(AmountError::InvalidCharacter)
    );
}

fn sample_addresses() -> Vec<AccountAddress> {
    vec![
        AccountAddress {
            address: "atoi1first".to_string(),
            key_index: 0,
            internal: false,
        },
        AccountAddress {
            address: "atoi1second".to_string(),
            key_index: 1,
            internal: true,
        },
    ]
}

#[test]
fn faucet_request_picks_latest_address_and_default_url() {
    let addresses = sample_addresses();
    let request = faucet_request(&addresses, &None).unwrap();
    assert_eq!(request.address, "atoi1second");
    assert_eq!(request.url, DEFAULT_FAUCET_URL);
    assert_eq!(
        request.url,
        "http://localhost:14265/api/plugins/faucet/v1/enqueue"
    );
    let request = faucet_request(&addresses, &Some("http://faucet.example".to_string())).unwrap();
    assert_eq!(request.url, "http://faucet.example");
    assert_eq!(
        faucet_request(&Vec::new(), &None).unwrap_err(),
        CommandError::NoAddresses
    );
    assert_eq!(
        CommandError::NoAddresses.message(),
        "Generate an address first!"
    );
}

#[test]
fn address_lines_exact() {
    let address = AccountAddress {
        address: "atoi1qzt0nhsf38nh6rs4p6zs5knqp6psgha9wsv74uajqgjmwc75ugupx3y7x0r".to_string(),
        key_index: 12,
        internal: false,
    };
    let lines = address_lines(&address);
    assert_eq!(
        lines,
        vec![
            "ADDRESS \"atoi1qzt0nhsf38nh6rs4p6zs5knqp6psgha9wsv74uajqgjmwc75ugupx3y7x0r\"",
            "--- Index: 12",
            "--- Change address: false",
        ]
    );
}

#[test]
fn list_addresses_lines_exact() {
    assert_eq!(list_addresses_lines(&Vec::new()), vec!["No addresses found"]);
    let lines = list_addresses_lines(&sample_addresses());
    assert_eq!(
        lines,
        vec![
            "ADDRESS \"atoi1first\"",
            "--- Index: 0",
            "--- Change address: false",
            "ADDRESS \"atoi1second\"",
            "--- Index: 1",
            "--- Change address: true",
        ]
    );
}

#[test]
fn list_transactions_lines_exact() {
    assert_eq!(
        list_transactions_lines(&Vec::new()),
        vec!["No transactions found"]
    );
    let lines = list_transactions_lines(&vec!["tx one".to_string(), "tx two".to_string()]);
    assert_eq!(lines, vec!["TRANSACTION tx one", "TRANSACTION tx two"]);
}

#[test]
fn engine_text_lines_exact() {
    assert_eq!(sync_line("AccountBalance { total: 0 }"), "Synced: AccountBalance { total: 0 }");
    assert_eq!(
        transaction_created_line("TransferResult { .. }"),
        "Transaction created: TransferResult { .. }"
    );
}

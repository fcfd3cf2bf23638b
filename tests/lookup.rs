use contract_info::command::{InfoCommand, InfoError};
use contract_info::info::{ContractInfo, OutputType};
use contract_info::session::{Action, Event, Stage};
use contract_info::text::decimal_string;

fn record() -> ContractInfo {
    let mut code_hash = [0u8; 32];
    code_hash[0] = 0x12;
    code_hash[31] = 0xff;
    ContractInfo {
        trie_id: vec![0xAB, 0xCD],
        code_hash,
        storage_items: 3,
        storage_item_deposit: 1_000_000_000_000,
    }
}

fn hash_text() -> String {
    let mut s = String::from("0x12");
    for _ in 0..30 {
        s.push_str("00");
    }
    s.push_str("ff");
    s
}

fn command(json: bool) -> InfoCommand {
    InfoCommand {
        contract: String::from("5GrwvaEF5zXb26Fz9rcQpDWS57CtERHpNehXCPcNoHGKutQY"),
        url: String::from("ws://localhost:9944"),
        output_json: json,
    }
}

#[test]
fn human_readable_first_line_is_trie_id() {
    let lines = InfoCommand::basic_display_format_contract_info(record());
    assert_eq!(lines[0], "TrieId: abcd");
}

#[test]
fn human_readable_has_four_lines_in_order() {
    let lines = InfoCommand::basic_display_format_contract_info(record());
    assert_eq!(lines.len(), 4);
    assert_eq!(lines[1], format!("Code hash: {}", hash_text()));
    assert_eq!(lines[2], "Storage items: 3");
    assert_eq!(lines[3], "Storage deposit: 1000000000000");
}

#[test]
fn json_projection_of_record() {
    let text = InfoCommand::serialize_json(record()).ok().unwrap();
    let expected = format!(
        "{{\n  \"trie_id\": \"abcd\",\n  \"code_hash\": \"{}\",\n  \"storage_items\": 3\n}}",
        hash_text()
    );
    assert_eq!(text, expected);
    assert!(!text.contains("deposit"));
}

#[test]
fn json_trie_id_decodes_back() {
    let info = ContractInfo {
        trie_id: vec![0x00, 0x7f, 0x80, 0xff, 0x01],
        code_hash: [0u8; 32],
        storage_items: 0,
        storage_item_deposit: 0,
    };
    let text = InfoCommand::serialize_json(info).ok().unwrap();
    let start = text.find("\"trie_id\": \"").unwrap() + "\"trie_id\": \"".len();
    let end = start + text[start..].find('"').unwrap();
    assert_eq!(&text[start..end], "007f80ff01");
    assert_eq!(hex::decode(&text[start..end]).unwrap(), vec![0x00, 0x7f, 0x80, 0xff, 0x01]);
}

#[test]
fn json_of_empty_trie_id() {
    let info = ContractInfo {
        trie_id: Vec::new(),
        code_hash: [0u8; 32],
        storage_items: 4294967295,
        storage_item_deposit: 0,
    };
    let text = InfoCommand::serialize_json(info).ok().unwrap();
    assert!(text.starts_with("{\n  \"trie_id\": \"\",\n"));
    assert!(text.ends_with("\"storage_items\": 4294967295\n}"));
}

#[test]
fn decimal_numerals() {
    assert_eq!(decimal_string(0), "0");
    assert_eq!(decimal_string(9), "9");
    assert_eq!(decimal_string(10), "10");
    assert_eq!(decimal_string(1203), "1203");
    assert_eq!(decimal_string(u128::MAX), u128::MAX.to_string());
}

#[test]
fn output_type_follows_flag() {
    assert!(matches!(command(true).output_type(), OutputType::Json));
    assert!(matches!(command(false).output_type(), OutputType::HumanReadable));
}

#[test]
fn lookup_renders_listing() {
    let (mut s, a) = command(false).start();
    assert!(matches!(a, Action::Connect(ref u) if u == "ws://localhost:9944"));
    let a = s.step(Event::Connected);
    assert!(matches!(a, Action::Fetch(ref c) if c == "5GrwvaEF5zXb26Fz9rcQpDWS57CtERHpNehXCPcNoHGKutQY"));
    match s.step(Event::Fetched(Some(record()))) {
        Action::Emit(lines) => {
            assert_eq!(lines.len(), 4);
            assert_eq!(lines[0], "TrieId: abcd");
        }
        _ => panic!("expected output"),
    }
    assert!(s.stage == Stage::Done);
    assert!(matches!(s.step(Event::Connected), Action::Idle));
}

#[test]
fn lookup_renders_json() {
    let (mut s, _) = command(true).start();
    s.step(Event::Connected);
    match s.step(Event::Fetched(Some(record()))) {
        Action::Emit(lines) => {
            assert_eq!(lines.len(), 1);
            assert!(lines[0].contains("\"trie_id\": \"abcd\""));
            assert!(lines[0].contains("\"storage_items\": 3"));
        }
        _ => panic!("expected output"),
    }
}

#[test]
fn absent_record_names_address() {
    let (mut s, _) = command(false).start();
    s.step(Event::Connected);
    match s.step(Event::Fetched(None)) {
        Action::Fail(InfoError::Absent(m)) => {
            assert_eq!(
                m,
                "No contract information was found for account id \
                 5GrwvaEF5zXb26Fz9rcQpDWS57CtERHpNehXCPcNoHGKutQY"
            );
        }
        _ => panic!("expected absence"),
    }
    assert!(s.stage == Stage::Failed);
}

#[test]
fn refused_connection_fails_before_fetch() {
    let (mut s, _) = command(false).start();
    match s.step(Event::ConnectFailed(String::from("connection refused"))) {
        Action::Fail(InfoError::Connection(m)) => assert_eq!(m, "connection refused"),
        _ => panic!("expected connection error"),
    }
    assert!(s.stage == Stage::Failed);
    assert!(matches!(s.step(Event::Connected), Action::Idle));
    assert!(matches!(s.step(Event::Fetched(Some(record()))), Action::Idle));
}

#[test]
fn fetch_failure_is_reported() {
    let (mut s, _) = command(true).start();
    assert!(matches!(s.step(Event::FetchFailed(String::from("early"))), Action::Idle));
    s.step(Event::Connected);
    match s.step(Event::FetchFailed(String::from("decode"))) {
        Action::Fail(InfoError::Fetch(m)) => assert_eq!(m, "decode"),
        _ => panic!("expected fetch error"),
    }
}

use cep78_royalty::events::CEP78Event;
use cep78_royalty::events::TokenIdentifier;
use cep78_royalty::events::format_list;
use cep78_royalty::events::serialize_event;
use cep78_royalty::events::serialize_events;

fn pairs(record: &[(String, String)]) -> Vec<(&str, &str)> {
    record.iter().map(|p| (p.0.as_str(), p.1.as_str())).collect()
}

#[test]
fn token_key_strings_are_flat() {
    assert_eq!(TokenIdentifier::Index(42).key_string(), "42");
    assert_eq!(TokenIdentifier::Index(0).key_string(), "0");
    assert_eq!(
        TokenIdentifier::Hash(String::from("deadbeef")).key_string(),
        "deadbeef"
    );
}

#[test]
fn set_token_royalty_event_serializes_exactly() {
    let event = CEP78Event::SetTokenRoyalty {
        token_id: TokenIdentifier::Index(0),
        royalty: 500,
        recipient: String::from("account-hash-recipient"),
    };
    let record = serialize_event(&event, "0123abcd");
    assert_eq!(
        pairs(&record),
        vec![
            ("contract_package_hash", "0123abcd"),
            ("event_type", "cep78_set_token_royalty"),
            ("recipient", "account-hash-recipient"),
            ("royalty", "500"),
            ("token_id", "0"),
        ]
    );
}

#[test]
fn set_collection_royalty_event_serializes_exactly() {
    let event = CEP78Event::SetCollectionRoyalty {
        royalty: 700,
        recipient: String::from("account-hash-recipient"),
    };
    let record = serialize_event(&event, "0123abcd");
    assert_eq!(
        pairs(&record),
        vec![
            ("contract_package_hash", "0123abcd"),
            ("event_type", "cep78_set_collection_royalty"),
            ("recipient", "account-hash-recipient"),
            ("royalty", "700"),
        ]
    );
}

#[test]
fn mint_event_serializes_exactly() {
    let event = CEP78Event::Mint {
        to: String::from("account-hash-owner"),
        token_id: TokenIdentifier::Hash(String::from("cafef00d")),
        balance: 3,
    };
    let record = serialize_event(&event, "77aa77aa");
    assert_eq!(
        pairs(&record),
        vec![
            ("balance", "3"),
            ("contract_package_hash", "77aa77aa"),
            ("event_type", "cep78_mint"),
            ("to", "account-hash-owner"),
            ("token_id", "cafef00d"),
        ]
    );
}

#[test]
fn transfer_event_serializes_exactly() {
    let event = CEP78Event::Transfer {
        from: String::from("account-hash-a"),
        to: String::from("account-hash-b"),
        token_id: TokenIdentifier::Index(18446744073709551615),
        from_balance: 1,
        to_balance: 2,
    };
    let record = serialize_event(&event, "77aa77aa");
    assert_eq!(
        pairs(&record),
        vec![
            ("contract_package_hash", "77aa77aa"),
            ("event_type", "cep78_transfer"),
            ("from", "account-hash-a"),
            ("from_balance", "1"),
            ("to", "account-hash-b"),
            ("to_balance", "2"),
            ("token_id", "18446744073709551615"),
        ]
    );
}

#[test]
fn set_variables_event_serializes_whitelist() {
    let event = CEP78Event::SetVariables {
        allow_minting: true,
        contract_whitelist: vec![
            String::from("ContractHash(aa)"),
            String::from("ContractHash(bb)"),
        ],
    };
    let record = serialize_event(&event, "77aa77aa");
    assert_eq!(
        pairs(&record),
        vec![
            ("allow_minting", "true"),
            ("contract_package_hash", "77aa77aa"),
            ("contract_whitelist", "[ContractHash(aa), ContractHash(bb)]"),
            ("event_type", "cep78_set_variables"),
        ]
    );
}

#[test]
fn list_formatting_matches_wire_form() {
    assert_eq!(format_list(&Vec::new()), "[]");
    assert_eq!(format_list(&vec![String::from("a")]), "[a]");
    assert_eq!(
        format_list(&vec![String::from("a"), String::from("b"), String::from("c")]),
        "[a, b, c]"
    );
}

#[test]
fn events_publish_in_invocation_order() {
    let events = vec![
        CEP78Event::Mint {
            to: String::from("account-hash-owner"),
            token_id: TokenIdentifier::Index(1),
            balance: 1,
        },
        CEP78Event::Burn {
            from: String::from("account-hash-owner"),
            token_id: TokenIdentifier::Index(1),
            balance: 0,
        },
        CEP78Event::SetCollectionRoyalty {
            royalty: 700,
            recipient: String::from("account-hash-recipient"),
        },
    ];
    let records = serialize_events(&events, "0011aabb");
    assert_eq!(records.len(), 3);
    let types: Vec<&str> = records
        .iter()
        .map(|r| {
            r.iter()
                .find(|p| p.0 == "event_type")
                .map(|p| p.1.as_str())
                .unwrap()
        })
        .collect();
    assert_eq!(
        types,
        vec!["cep78_mint", "cep78_burn", "cep78_set_collection_royalty"]
    );
    for record in &records {
        let package = record
            .iter()
            .find(|p| p.0 == "contract_package_hash")
            .map(|p| p.1.as_str());
        assert_eq!(package, Some("0011aabb"));
    }
}

#[test]
fn init_event_serializes_all_fields_in_order() {
    let event = CEP78Event::Init {
        collection_name: String::from("gallery"),
        collection_symbol: String::from("GLY"),
        total_token_supply: 100,
        allow_minting: true,
        minting_mode: 0,
        ownership_mode: 2,
        nft_kind: 1,
        holder_mode: 2,
        whitelist_mode: 0,
        contract_whitelist: Vec::new(),
        json_schema: String::from("{}"),
        nft_metadata_kind: 0,
        identifier_mode: 0,
        metadata_mutability: 1,
        burn_mode: 0,
        reporting_mode: 1,
    };
    let record = serialize_event(&event, "9f9f9f9f");
    assert_eq!(
        pairs(&record),
        vec![
            ("allow_minting", "true"),
            ("burn_mode", "0"),
            ("collection_name", "gallery"),
            ("collection_symbol", "GLY"),
            ("contract_package_hash", "9f9f9f9f"),
            ("contract_whitelist", "[]"),
            ("event_type", "cep78_init"),
            ("holder_mode", "2"),
            ("identifier_mode", "0"),
            ("json_schema", "{}"),
            ("metadata_mutability", "1"),
            ("minting_mode", "0"),
            ("nft_kind", "1"),
            ("nft_metadata_kind", "0"),
            ("ownership_mode", "2"),
            ("reporting_mode", "1"),
            ("total_token_supply", "100"),
            ("whitelist_mode", "0"),
        ]
    );
}

#[test]
fn approve_burn_and_update_metadata_events_serialize_exactly() {
    let approve = CEP78Event::Approve {
        owner: String::from("account-hash-a"),
        spender: String::from("account-hash-b"),
        token_id: TokenIdentifier::Index(5),
    };
    assert_eq!(
        pairs(&serialize_event(&approve, "77aa77aa")),
        vec![
            ("contract_package_hash", "77aa77aa"),
            ("event_type", "cep78_approve"),
            ("owner", "account-hash-a"),
            ("spender", "account-hash-b"),
            ("token_id", "5"),
        ]
    );
    let burn = CEP78Event::Burn {
        from: String::from("account-hash-a"),
        token_id: TokenIdentifier::Index(5),
        balance: 0,
    };
    assert_eq!(
        pairs(&serialize_event(&burn, "77aa77aa")),
        vec![
            ("balance", "0"),
            ("contract_package_hash", "77aa77aa"),
            ("event_type", "cep78_burn"),
            ("from", "account-hash-a"),
            ("token_id", "5"),
        ]
    );
    let update = CEP78Event::UpdateMetadata {
        token_id: TokenIdentifier::Hash(String::from("beefcafe")),
        updated_token_metadata: String::from("{\"name\":\"x\"}"),
    };
    assert_eq!(
        pairs(&serialize_event(&update, "77aa77aa")),
        vec![
            ("contract_package_hash", "77aa77aa"),
            ("event_type", "cep78_update_metadata"),
            ("token_id", "beefcafe"),
            ("updated_token_metadata", "{\"name\":\"x\"}"),
        ]
    );
}

use taurus_api::payload::{CoinObject, Message, MesssageDetails, Objects};

fn string_value(d: &MesssageDetails) -> &str {
    match d.value.as_ref() {
        Objects::String(s) => s.string.as_str(),
        other => panic!("expected a string value, got {:?}", other),
    }
}

fn bytes_value(d: &MesssageDetails) -> &str {
    match d.value.as_ref() {
        Objects::Bytes(b) => b.bytes.as_str(),
        other => panic!("expected a bytes value, got {:?}", other),
    }
}

fn int_value(d: &MesssageDetails) -> &str {
    match d.value.as_ref() {
        Objects::Int(i) => i.int.as_str(),
        other => panic!("expected an int value, got {:?}", other),
    }
}

fn message_value(d: &MesssageDetails) -> &Vec<MesssageDetails> {
    match d.value.as_ref() {
        Objects::Message(m) => &m.message,
        other => panic!("expected a nested message, got {:?}", other),
    }
}

#[test]
fn encode_proto_string_known_value() {
    // varint length 7, then the seven bytes of "payload", base64-encoded.
    assert_eq!(Message::encode_proto_string("payload"), "B3BheWxvYWQ=");
}

#[test]
fn encode_proto_string_empty() {
    // A zero-length field still carries its varint length byte.
    assert_eq!(Message::encode_proto_string(""), "AA==");
}

#[test]
fn encode_proto_string_long_value() {
    // 131 bytes: the varint length takes two bytes (0x83 0x01).
    let text = "transfer authorization for the whole validator set, renewed every \
                epoch until revoked explicitly by the granter address in question";
    assert_eq!(
        Message::encode_proto_string(text),
        "gwF0cmFuc2ZlciBhdXRob3JpemF0aW9uIGZvciB0aGUgd2hvbGUgdmFsaWRhdG9yIHNldCwgcmVuZXdlZCBld\
         mVyeSBlcG9jaCB1bnRpbCByZXZva2VkIGV4cGxpY2l0bHkgYnkgdGhlIGdyYW50ZXIgYWRkcmVzcyBpbiBxdWVzdGlvbg=="
    );
}

#[test]
fn encode_proto_string_round_trips() {
    // Decode the base64, re-prepend the stripped field-1 tag byte, and read
    // the result back as a standard protobuf length-delimited string field.
    for text in ["", "a", "payload", "snowman \u{2603} and more", &"x".repeat(300)] {
        let encoded = Message::encode_proto_string(text);
        let payload = base64::Engine::decode(&base64::engine::general_purpose::STANDARD, &encoded)
            .expect("valid base64");
        let mut bytes = vec![0x0au8];
        bytes.extend_from_slice(&payload);
        assert_eq!(bytes[0], 0x0a);
        let mut value: u64 = 0;
        let mut shift = 0;
        let mut pos = 1;
        loop {
            let b = bytes[pos];
            value |= u64::from(b & 0x7f) << shift;
            shift += 7;
            pos += 1;
            if b < 0x80 {
                break;
            }
        }
        assert_eq!(value as usize, bytes.len() - pos);
        assert_eq!(&bytes[pos..], text.as_bytes());
    }
}

#[test]
fn authz_grant_shape() {
    let m = Message::build_authz_message(
        "g1".to_string(),
        "g2".to_string(),
        "payload".to_string(),
        "".to_string(),
    );
    assert_eq!(m.url, "/cosmos.authz.v1beta1.MsgGrant");
    assert_eq!(m.message.len(), 3);

    assert_eq!(m.message[0].name, "granter");
    assert_eq!(m.message[0].kind, "String");
    assert_eq!(m.message[0].field_id, 1);
    assert_eq!(string_value(&m.message[0]), "g1");

    assert_eq!(m.message[1].name, "grantee");
    assert_eq!(m.message[1].field_id, 2);
    assert_eq!(string_value(&m.message[1]), "g2");

    let grant = &m.message[2];
    assert_eq!(grant.name, "grant");
    assert_eq!(grant.kind, "Message");
    assert_eq!(grant.field_id, 3);
    let grant_fields = message_value(grant);
    assert_eq!(grant_fields.len(), 2);

    let authorization = &grant_fields[0];
    assert_eq!(authorization.name, "authorization");
    assert_eq!(authorization.field_id, 1);
    let auth_fields = message_value(authorization);
    assert_eq!(auth_fields[0].name, "type_url");
    assert_eq!(
        string_value(&auth_fields[0]),
        "/cosmos.authz.v1beta1.GenericAuthorization"
    );
    assert_eq!(auth_fields[1].name, "value");
    assert_eq!(auth_fields[1].kind, "Bytes");
    assert_eq!(auth_fields[1].field_id, 2);
    assert_eq!(
        bytes_value(&auth_fields[1]),
        Message::encode_proto_string("payload")
    );

    let timestamp = &grant_fields[1];
    assert_eq!(timestamp.name, "timestamp");
    assert_eq!(timestamp.field_id, 2);
    let ts_fields = message_value(timestamp);
    assert_eq!(ts_fields[0].name, "seconds");
    assert_eq!(int_value(&ts_fields[0]), "1732193243");
    assert_eq!(ts_fields[1].name, "nanos");
    assert_eq!(int_value(&ts_fields[1]), "0");
}

#[test]
fn authz_revoke_shape() {
    let m = Message::build_revoke_message(
        "g1".to_string(),
        "g2".to_string(),
        "/x.MsgY".to_string(),
    );
    assert_eq!(m.url, "/cosmos.authz.v1beta1.MsgRevoke");
    assert_eq!(m.message.len(), 3);
    let ids: Vec<u32> = m.message.iter().map(|d| d.field_id).collect();
    assert_eq!(ids, vec![1, 2, 3]);
    for d in &m.message {
        assert_eq!(d.kind, "String");
        assert!(matches!(d.value.as_ref(), Objects::String(_)));
    }
    assert_eq!(string_value(&m.message[0]), "g1");
    assert_eq!(string_value(&m.message[1]), "g2");
    assert_eq!(string_value(&m.message[2]), "/x.MsgY");
    assert_eq!(m.message[2].name, "msg_type_url");
}

#[test]
fn contract_execute_funds() {
    let funds = vec![CoinObject { denom: "uatom".to_string(), amount: "100".to_string() }];
    let m = Message::build_contract_execute(
        "s".to_string(),
        "c".to_string(),
        "msg".to_string(),
        funds,
    );
    assert_eq!(m.url, "/cosmwasm.wasm.v1.MsgExecuteContract");
    assert_eq!(m.message.len(), 4);
    assert!(m.message.iter().all(|d| d.field_id != 4));

    let funds_field = &m.message[3];
    assert_eq!(funds_field.name, "funds");
    assert_eq!(funds_field.field_id, 5);
    assert_eq!(funds_field.kind, "Array");
    match funds_field.value.as_ref() {
        Objects::Array(a) => {
            assert_eq!(a.array.elems.len(), 1);
            match &a.array.elems[0] {
                Objects::Coin(c) => {
                    assert_eq!(c.denom, "uatom");
                    assert_eq!(c.amount, "100");
                }
                other => panic!("expected a coin element, got {:?}", other),
            }
        }
        other => panic!("expected an array value, got {:?}", other),
    }

    assert_eq!(bytes_value(&m.message[2]), "msg");
    assert_eq!(m.message[2].field_id, 3);
}

#[test]
fn contract_execute_keeps_fund_order() {
    let funds = vec![
        CoinObject { denom: "uatom".to_string(), amount: "1".to_string() },
        CoinObject { denom: "uosmo".to_string(), amount: "2".to_string() },
    ];
    let m = Message::build_contract_execute(
        "s".to_string(),
        "c".to_string(),
        "msg".to_string(),
        funds,
    );
    match m.message[3].value.as_ref() {
        Objects::Array(a) => {
            let denoms: Vec<&str> = a
                .array
                .elems
                .iter()
                .map(|e| match e {
                    Objects::Coin(c) => c.denom.as_str(),
                    other => panic!("expected a coin element, got {:?}", other),
                })
                .collect();
            assert_eq!(denoms, vec!["uatom", "uosmo"]);
        }
        other => panic!("expected an array value, got {:?}", other),
    }
}

#[test]
fn contract_migrate_shape() {
    let m = Message::build_contract_migrate(
        "s".to_string(),
        "c".to_string(),
        42,
        "bXNn".to_string(),
    );
    assert_eq!(m.url, "/cosmwasm.wasm.v1.MsgMigrateContract");
    assert_eq!(m.message.len(), 4);
    let ids: Vec<u32> = m.message.iter().map(|d| d.field_id).collect();
    assert_eq!(ids, vec![1, 2, 3, 4]);
    assert_eq!(int_value(&m.message[2]), "42");
    // The migrate payload passes through untouched, with no extra encoding.
    assert_eq!(bytes_value(&m.message[3]), "bXNn");
}

#[test]
fn contract_instantiate_max_code_id() {
    let m = Message::build_contract_instantiate(
        "s".to_string(),
        "a".to_string(),
        "l".to_string(),
        u64::MAX,
        "m".to_string(),
    );
    assert_eq!(m.url, "/cosmwasm.wasm.v1.MsgInstantiateContract");
    assert_eq!(m.message.len(), 5);
    let ids: Vec<u32> = m.message.iter().map(|d| d.field_id).collect();
    assert_eq!(ids, vec![1, 2, 3, 4, 5]);
    assert_eq!(m.message[2].name, "code_id");
    assert_eq!(int_value(&m.message[2]), "18446744073709551615");
    assert_eq!(m.message[3].name, "label");
    assert_eq!(string_value(&m.message[3]), "l");
    assert_eq!(bytes_value(&m.message[4]), "m");
}

#[test]
fn builders_are_idempotent() {
    let grant = || {
        Message::build_authz_message(
            "g1".to_string(),
            "g2".to_string(),
            "payload".to_string(),
            "".to_string(),
        )
    };
    assert_eq!(grant(), grant());

    let revoke = || {
        Message::build_revoke_message("g1".to_string(), "g2".to_string(), "/x.MsgY".to_string())
    };
    assert_eq!(revoke(), revoke());

    let migrate = || {
        Message::build_contract_migrate("s".to_string(), "c".to_string(), 7, "m".to_string())
    };
    assert_eq!(migrate(), migrate());

    let execute = || {
        Message::build_contract_execute(
            "s".to_string(),
            "c".to_string(),
            "m".to_string(),
            vec![CoinObject { denom: "uatom".to_string(), amount: "100".to_string() }],
        )
    };
    assert_eq!(execute(), execute());

    let instantiate = || {
        Message::build_contract_instantiate(
            "s".to_string(),
            "a".to_string(),
            "l".to_string(),
            7,
            "m".to_string(),
        )
    };
    assert_eq!(instantiate(), instantiate());
}

#[test]
fn decimal_rendering_exact() {
    assert_eq!(taurus_api::payload::u64_to_decimal(0), "0");
    assert_eq!(taurus_api::payload::u64_to_decimal(9), "9");
    assert_eq!(taurus_api::payload::u64_to_decimal(10), "10");
    assert_eq!(taurus_api::payload::u64_to_decimal(1732193243), "1732193243");
    assert_eq!(
        taurus_api::payload::u64_to_decimal(18446744073709551615),
        "18446744073709551615"
    );
}

use tunnel_client::codec::{decode, encode, from_object, to_object, DecodeError};
use tunnel_client::message::{ClientRole, Message};
use tunnel_client::wire::{JsonValue, Member};

fn every_kind_of_message() -> Vec<Message> {
    vec![
        Message::Register {
            ssh_key: "ssh-ed25519 AAAA user@example.com".to_string(),
            uuid: "0b64c1a0-0c3e-4a5d-9d6f-1f2e3d4c5b6a".to_string(),
            auto_accept: true,
            port_whitelist: vec![80, 443],
            port_blacklist: vec![22],
            client_type: ClientRole::Sender,
        },
        Message::Register {
            ssh_key: String::new(),
            uuid: String::new(),
            auto_accept: false,
            port_whitelist: vec![],
            port_blacklist: vec![],
            client_type: ClientRole::Receiver,
        },
        Message::ConnectToHost { target: "S1".to_string(), port: 22 },
        Message::ConnectToHost { target: String::new(), port: 0 },
        Message::ConnectConfirm { source_client: "R1".to_string(), port: 8080 },
        Message::ConnectConfirm { source_client: "R\"1\\\n\u{1F600}é".to_string(), port: 65535 },
        Message::ConnectAccept,
        Message::ConnectDeny,
        Message::TunnelConnect {
            client_type: ClientRole::Receiver,
            user: "tunnel".to_string(),
            sshd_port: 2222,
            local_port: 9000,
            forwarded_port: 0,
        },
        Message::TunnelConnect {
            client_type: ClientRole::Sender,
            user: String::new(),
            sshd_port: 65535,
            local_port: 65535,
            forwarded_port: 65535,
        },
        Message::TunnelClose,
        Message::Response { success: true, error: None },
        Message::Response { success: false, error: Some("target offline".to_string()) },
        Message::Response { success: false, error: Some(String::new()) },
        Message::Response { success: false, error: None },
        Message::Response { success: true, error: Some("type".to_string()) },
    ]
}

fn member(key: &str, value: JsonValue) -> Member {
    Member { key: key.to_string(), value }
}

fn text(value: &str) -> JsonValue {
    JsonValue::Text(value.to_string())
}

#[test]
fn every_message_survives_the_wire() {
    for message in every_kind_of_message() {
        let frame = encode(&message).expect("a frame");
        assert_eq!(decode(&frame), Ok(message.clone()), "{}", frame);
    }
}

#[test]
fn every_message_is_read_back_from_its_object() {
    for message in every_kind_of_message() {
        assert_eq!(from_object(&to_object(&message)), Ok(message));
    }
}

#[test]
fn different_messages_have_different_frames() {
    let messages = every_kind_of_message();
    for (i, first) in messages.iter().enumerate() {
        for (j, second) in messages.iter().enumerate() {
            if i != j {
                assert_ne!(encode(first), encode(second));
            }
        }
    }
}

#[test]
fn register_keeps_its_port_lists() {
    let register = Message::Register {
        ssh_key: "k".to_string(),
        uuid: "u".to_string(),
        auto_accept: false,
        port_whitelist: vec![80, 443],
        port_blacklist: vec![],
        client_type: ClientRole::Sender,
    };
    let frame = encode(&register).expect("a frame");
    match decode(&frame) {
        Ok(Message::Register { port_whitelist, port_blacklist, .. }) => {
            let mut allowed = port_whitelist.clone();
            allowed.sort();
            assert_eq!(allowed, vec![80, 443]);
            assert_eq!(port_whitelist.len(), 2);
            assert!(port_blacklist.is_empty());
        },
        other => panic!("{:?}", other),
    }
}

#[test]
fn bare_messages_are_an_object_with_the_type_alone() {
    assert_eq!(encode(&Message::ConnectAccept), Some("{\"type\":\"connect_accept\"}".to_string()));
    assert_eq!(encode(&Message::ConnectDeny), Some("{\"type\":\"connect_deny\"}".to_string()));
    assert_eq!(encode(&Message::TunnelClose), Some("{\"type\":\"tunnel_close\"}".to_string()));
}

#[test]
fn frames_carry_the_names_of_the_protocol() {
    let frame = encode(&Message::Register {
        ssh_key: "k".to_string(),
        uuid: "u".to_string(),
        auto_accept: true,
        port_whitelist: vec![80, 443],
        port_blacklist: vec![],
        client_type: ClientRole::Sender,
    })
    .expect("a frame");
    let value: serde_json::Value = serde_json::from_str(&frame).expect("json");
    let object = value.as_object().expect("an object");
    assert_eq!(object.len(), 7);
    assert_eq!(value["type"], "register");
    assert_eq!(value["ssh_key"], "k");
    assert_eq!(value["uuid"], "u");
    assert_eq!(value["auto_accept"], true);
    assert_eq!(value["port_whitelist"], serde_json::Value::from(vec![80u16, 443u16]));
    assert_eq!(value["port_blacklist"], serde_json::Value::from(Vec::<u16>::new()));
    assert_eq!(value["client_type"], "sender");
}

#[test]
fn grant_frame_carries_the_names_of_the_protocol() {
    let frame = encode(&Message::TunnelConnect {
        client_type: ClientRole::Receiver,
        user: "tunnel".to_string(),
        sshd_port: 2222,
        local_port: 9000,
        forwarded_port: 8080,
    })
    .expect("a frame");
    let value: serde_json::Value = serde_json::from_str(&frame).expect("json");
    assert_eq!(value.as_object().expect("an object").len(), 6);
    assert_eq!(value["type"], "tunnel_connect");
    assert_eq!(value["client_type"], "receiver");
    assert_eq!(value["user"], "tunnel");
    assert_eq!(value["sshd_port"], 2222);
    assert_eq!(value["local_port"], 9000);
    assert_eq!(value["forwarded_port"], 8080);
}

#[test]
fn response_without_error_text_carries_null() {
    let frame = encode(&Message::Response { success: true, error: None }).expect("a frame");
    let value: serde_json::Value = serde_json::from_str(&frame).expect("json");
    assert_eq!(value["type"], "response");
    assert_eq!(value["success"], true);
    assert!(value["error"].is_null());
    assert_eq!(value.as_object().expect("an object").len(), 3);
}

#[test]
fn frames_of_the_relay_are_read() {
    assert_eq!(
        decode("{\"type\":\"connect_confirm\",\"source_client\":\"R1\",\"port\":8080}"),
        Ok(Message::ConnectConfirm { source_client: "R1".to_string(), port: 8080 })
    );
    assert_eq!(
        decode(
            "{ \"type\": \"tunnel_connect\", \"client_type\": \"sender\", \"user\": \"u\",\n \"sshd_port\": 2222, \"local_port\": 9000, \"forwarded_port\": 80 }"
        ),
        Ok(Message::TunnelConnect {
            client_type: ClientRole::Sender,
            user: "u".to_string(),
            sshd_port: 2222,
            local_port: 9000,
            forwarded_port: 80,
        })
    );
    assert_eq!(decode("{\"type\":\"tunnel_close\"}"), Ok(Message::TunnelClose));
    assert_eq!(
        decode("{\"success\":false,\"error\":\"target offline\",\"type\":\"response\"}"),
        Ok(Message::Response { success: false, error: Some("target offline".to_string()) })
    );
}

#[test]
fn missing_error_text_is_no_error_text() {
    assert_eq!(
        decode("{\"type\":\"response\",\"success\":true}"),
        Ok(Message::Response { success: true, error: None })
    );
    assert_eq!(
        decode("{\"type\":\"response\",\"success\":true,\"error\":null}"),
        Ok(Message::Response { success: true, error: None })
    );
}

#[test]
fn members_that_the_variant_lacks_are_passed_over() {
    assert_eq!(
        decode("{\"type\":\"connect_accept\",\"note\":{\"a\":[1,2.5,\"x\"]},\"port\":-1}"),
        Ok(Message::ConnectAccept)
    );
    assert_eq!(
        decode("{\"type\":\"connect_to_host\",\"target\":\"S1\",\"port\":22,\"extra\":[[1]]}"),
        Ok(Message::ConnectToHost { target: "S1".to_string(), port: 22 })
    );
}

#[test]
fn text_that_is_no_object_is_refused() {
    assert_eq!(decode(""), Err(DecodeError::NotAnObject));
    assert_eq!(decode("hello"), Err(DecodeError::NotAnObject));
    assert_eq!(decode("{\"type\":\"tunnel_close\""), Err(DecodeError::NotAnObject));
    assert_eq!(decode("{\"type\":\"tunnel_close\"} x"), Err(DecodeError::NotAnObject));
    assert_eq!(decode("[\"tunnel_close\"]"), Err(DecodeError::NotAnObject));
    assert_eq!(decode("\"tunnel_close\""), Err(DecodeError::NotAnObject));
    assert_eq!(decode("42"), Err(DecodeError::NotAnObject));
}

#[test]
fn unknown_type_is_refused() {
    assert_eq!(decode("{}"), Err(DecodeError::UnknownType));
    assert_eq!(decode("{\"type\":\"keepalive\"}"), Err(DecodeError::UnknownType));
    assert_eq!(decode("{\"type\":\"Register\"}"), Err(DecodeError::UnknownType));
    assert_eq!(decode("{\"type\":\"\"}"), Err(DecodeError::UnknownType));
    assert_eq!(decode("{\"type\":7}"), Err(DecodeError::UnknownType));
    assert_eq!(decode("{\"type\":null}"), Err(DecodeError::UnknownType));
    assert_eq!(decode("{\"Type\":\"tunnel_close\"}"), Err(DecodeError::UnknownType));
}

#[test]
fn missing_field_is_refused() {
    assert_eq!(
        decode("{\"type\":\"connect_to_host\",\"target\":\"S1\"}"),
        Err(DecodeError::InvalidField)
    );
    assert_eq!(decode("{\"type\":\"response\"}"), Err(DecodeError::InvalidField));
    assert_eq!(
        decode("{\"type\":\"register\",\"ssh_key\":\"k\",\"uuid\":\"u\",\"auto_accept\":true,\"port_whitelist\":[],\"client_type\":\"sender\"}"),
        Err(DecodeError::InvalidField)
    );
}

#[test]
fn field_of_the_wrong_form_is_refused() {
    assert_eq!(
        decode("{\"type\":\"connect_to_host\",\"target\":5,\"port\":22}"),
        Err(DecodeError::InvalidField)
    );
    assert_eq!(
        decode("{\"type\":\"connect_to_host\",\"target\":\"S1\",\"port\":\"22\"}"),
        Err(DecodeError::InvalidField)
    );
    assert_eq!(
        decode("{\"type\":\"response\",\"success\":\"true\"}"),
        Err(DecodeError::InvalidField)
    );
    assert_eq!(
        decode("{\"type\":\"response\",\"success\":true,\"error\":5}"),
        Err(DecodeError::InvalidField)
    );
    assert_eq!(
        decode("{\"type\":\"tunnel_connect\",\"client_type\":\"relay\",\"user\":\"u\",\"sshd_port\":1,\"local_port\":2,\"forwarded_port\":3}"),
        Err(DecodeError::InvalidField)
    );
}

#[test]
fn port_out_of_range_is_refused() {
    assert_eq!(
        decode("{\"type\":\"connect_to_host\",\"target\":\"S1\",\"port\":65536}"),
        Err(DecodeError::InvalidField)
    );
    assert_eq!(
        decode("{\"type\":\"connect_to_host\",\"target\":\"S1\",\"port\":-1}"),
        Err(DecodeError::InvalidField)
    );
    assert_eq!(
        decode("{\"type\":\"connect_to_host\",\"target\":\"S1\",\"port\":22.0}"),
        Err(DecodeError::InvalidField)
    );
    assert_eq!(
        decode("{\"type\":\"connect_to_host\",\"target\":\"S1\",\"port\":18446744073709551616}"),
        Err(DecodeError::InvalidField)
    );
    assert_eq!(
        decode("{\"type\":\"connect_to_host\",\"target\":\"S1\",\"port\":65535}"),
        Ok(Message::ConnectToHost { target: "S1".to_string(), port: 65535 })
    );
}

#[test]
fn port_list_with_a_bad_item_is_refused() {
    let frame = |list: &str| {
        format!(
            "{{\"type\":\"register\",\"ssh_key\":\"k\",\"uuid\":\"u\",\"auto_accept\":true,\"port_whitelist\":{},\"port_blacklist\":[],\"client_type\":\"receiver\"}}",
            list
        )
    };
    assert_eq!(decode(&frame("[80,\"443\"]")), Err(DecodeError::InvalidField));
    assert_eq!(decode(&frame("[80,70000]")), Err(DecodeError::InvalidField));
    assert_eq!(decode(&frame("[80,null]")), Err(DecodeError::InvalidField));
    assert_eq!(decode(&frame("[[80]]")), Err(DecodeError::InvalidField));
    assert_eq!(decode(&frame("80")), Err(DecodeError::InvalidField));
    assert_eq!(
        decode(&frame("[443, 80]")),
        Ok(Message::Register {
            ssh_key: "k".to_string(),
            uuid: "u".to_string(),
            auto_accept: true,
            port_whitelist: vec![443, 80],
            port_blacklist: vec![],
            client_type: ClientRole::Receiver,
        })
    );
}

#[test]
fn object_of_a_request_lists_type_then_fields() {
    assert_eq!(
        to_object(&Message::ConnectToHost { target: "S1".to_string(), port: 22 }),
        vec![
            member("type", text("connect_to_host")),
            member("target", text("S1")),
            member("port", JsonValue::Number(Some(22))),
        ]
    );
}

#[test]
fn object_of_a_response_holds_null_for_no_error_text() {
    assert_eq!(
        to_object(&Message::Response { success: false, error: None }),
        vec![
            member("type", text("response")),
            member("success", JsonValue::Bool(false)),
            member("error", JsonValue::Null),
        ]
    );
}

#[test]
fn object_of_a_register_holds_lists_of_numbers() {
    assert_eq!(
        to_object(&Message::Register {
            ssh_key: "k".to_string(),
            uuid: "u".to_string(),
            auto_accept: false,
            port_whitelist: vec![80, 443],
            port_blacklist: vec![],
            client_type: ClientRole::Receiver,
        }),
        vec![
            member("type", text("register")),
            member("ssh_key", text("k")),
            member("uuid", text("u")),
            member("auto_accept", JsonValue::Bool(false)),
            member("port_whitelist", JsonValue::List(vec![Some(80), Some(443)])),
            member("port_blacklist", JsonValue::List(vec![])),
            member("client_type", text("receiver")),
        ]
    );
}

#[test]
fn first_member_with_a_key_counts() {
    let members = vec![
        member("type", text("connect_to_host")),
        member("port", JsonValue::Number(Some(22))),
        member("target", text("S1")),
        member("port", JsonValue::Number(Some(23))),
        member("type", text("tunnel_close")),
    ];
    assert_eq!(
        from_object(&members),
        Ok(Message::ConnectToHost { target: "S1".to_string(), port: 22 })
    );
}

#[test]
fn object_with_a_number_that_is_no_whole_number_is_refused() {
    let members = vec![
        member("type", text("connect_to_host")),
        member("target", text("S1")),
        member("port", JsonValue::Number(None)),
    ];
    assert_eq!(from_object(&members), Err(DecodeError::InvalidField));
    let nested = vec![member("type", JsonValue::Object)];
    assert_eq!(from_object(&nested), Err(DecodeError::UnknownType));
    assert_eq!(from_object(&vec![]), Err(DecodeError::UnknownType));
}

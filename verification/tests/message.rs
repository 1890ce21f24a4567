use tunnel_client::message::{copy_ports, same_optional_text, same_ports, ClientRole, Message};

fn samples() -> Vec<Message> {
    vec![
        Message::Register {
            ssh_key: "k".to_string(),
            uuid: "u".to_string(),
            auto_accept: true,
            port_whitelist: vec![80, 443],
            port_blacklist: vec![],
            client_type: ClientRole::Sender,
        },
        Message::Register {
            ssh_key: "k".to_string(),
            uuid: "u".to_string(),
            auto_accept: true,
            port_whitelist: vec![443, 80],
            port_blacklist: vec![],
            client_type: ClientRole::Sender,
        },
        Message::Register {
            ssh_key: "k".to_string(),
            uuid: "u".to_string(),
            auto_accept: true,
            port_whitelist: vec![],
            port_blacklist: vec![80, 443],
            client_type: ClientRole::Sender,
        },
        Message::Register {
            ssh_key: "k".to_string(),
            uuid: "u".to_string(),
            auto_accept: false,
            port_whitelist: vec![80, 443],
            port_blacklist: vec![],
            client_type: ClientRole::Sender,
        },
        Message::Register {
            ssh_key: "k".to_string(),
            uuid: "u".to_string(),
            auto_accept: true,
            port_whitelist: vec![80, 443],
            port_blacklist: vec![],
            client_type: ClientRole::Receiver,
        },
        Message::Register {
            ssh_key: "u".to_string(),
            uuid: "k".to_string(),
            auto_accept: true,
            port_whitelist: vec![80, 443],
            port_blacklist: vec![],
            client_type: ClientRole::Sender,
        },
        Message::ConnectToHost { target: "S1".to_string(), port: 22 },
        Message::ConnectToHost { target: "S1".to_string(), port: 23 },
        Message::ConnectToHost { target: "S2".to_string(), port: 22 },
        Message::ConnectConfirm { source_client: "S1".to_string(), port: 22 },
        Message::ConnectConfirm { source_client: "S1".to_string(), port: 23 },
        Message::ConnectAccept,
        Message::ConnectDeny,
        Message::TunnelConnect {
            client_type: ClientRole::Sender,
            user: "u".to_string(),
            sshd_port: 1,
            local_port: 2,
            forwarded_port: 3,
        },
        Message::TunnelConnect {
            client_type: ClientRole::Receiver,
            user: "u".to_string(),
            sshd_port: 1,
            local_port: 2,
            forwarded_port: 3,
        },
        Message::TunnelConnect {
            client_type: ClientRole::Sender,
            user: "v".to_string(),
            sshd_port: 1,
            local_port: 2,
            forwarded_port: 3,
        },
        Message::TunnelConnect {
            client_type: ClientRole::Sender,
            user: "u".to_string(),
            sshd_port: 3,
            local_port: 2,
            forwarded_port: 1,
        },
        Message::TunnelClose,
        Message::Response { success: true, error: None },
        Message::Response { success: false, error: None },
        Message::Response { success: true, error: Some(String::new()) },
        Message::Response { success: true, error: Some("x".to_string()) },
    ]
}

#[test]
fn a_message_is_the_same_as_itself_and_no_other() {
    let messages = samples();
    for (i, first) in messages.iter().enumerate() {
        for (j, second) in messages.iter().enumerate() {
            assert_eq!(first.same_as(second), i == j, "{:?} {:?}", first, second);
            assert_eq!(first.same_as(second), first == second);
        }
    }
}

#[test]
fn a_message_is_the_same_as_its_copy() {
    for message in samples() {
        assert!(message.same_as(&message.clone()));
    }
}

#[test]
fn port_lists_are_compared_item_by_item() {
    assert!(same_ports(&vec![], &vec![]));
    assert!(same_ports(&vec![80, 443], &vec![80, 443]));
    assert!(!same_ports(&vec![80, 443], &vec![443, 80]));
    assert!(!same_ports(&vec![80], &vec![80, 80]));
    assert!(!same_ports(&vec![80, 443], &vec![80]));
    assert!(!same_ports(&vec![], &vec![0]));
}

#[test]
fn optional_texts_are_compared() {
    assert!(same_optional_text(&None, &None));
    assert!(same_optional_text(&Some("a".to_string()), &Some("a".to_string())));
    assert!(!same_optional_text(&Some("a".to_string()), &Some("b".to_string())));
    assert!(!same_optional_text(&Some(String::new()), &None));
    assert!(!same_optional_text(&None, &Some(String::new())));
}

#[test]
fn copy_of_a_port_list_holds_the_same_ports() {
    assert_eq!(copy_ports(&vec![]), Vec::<u16>::new());
    assert_eq!(copy_ports(&vec![80, 443, 80, 0, 65535]), vec![80, 443, 80, 0, 65535]);
}

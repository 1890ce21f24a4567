//! Messages on the wire: each is a JSON object whose member `type` names the
//! variant, beside one member for each field of the variant.

use vstd::prelude::*;
use crate::message::{text_view, ClientRole, Message, MessageView};
use crate::wire::{
    is_writable, json_members, json_text, member_views, read_object, write_object, JsonValue,
    JsonValueView, Member, MemberView,
};

verus! {

/// Why a frame is no message.
#[derive(Clone, Copy, Debug, PartialEq, Eq, Structural)]
pub enum DecodeError {
    /// The text is no JSON object.
    NotAnObject,
    /// The member `type` is missing, is no string, or names no variant.
    UnknownType,
    /// A field of the variant is missing or has the wrong form.
    InvalidField,
}

/// The name of a role on the wire.
pub open spec fn role_name(role: ClientRole) -> Seq<char> {
    match role {
        ClientRole::Sender => "sender"@,
        ClientRole::Receiver => "receiver"@,
    }
}

/// A string member.
pub open spec fn text_member(key: Seq<char>, text: Seq<char>) -> MemberView {
    MemberView { key, value: JsonValueView::Text(text) }
}

/// A boolean member.
pub open spec fn flag_member(key: Seq<char>, flag: bool) -> MemberView {
    MemberView { key, value: JsonValueView::Bool(flag) }
}

/// A member that holds a port.
pub open spec fn port_member(key: Seq<char>, port: u16) -> MemberView {
    MemberView { key, value: JsonValueView::Number(Some(port as u64)) }
}

/// The numbers of a list of ports.
pub open spec fn port_numbers(ports: Seq<u16>) -> Seq<Option<u64>> {
    ports.map_values(|p: u16| Some(p as u64))
}

/// A member that holds a list of ports.
pub open spec fn ports_member(key: Seq<char>, ports: Seq<u16>) -> MemberView {
    MemberView { key, value: JsonValueView::List(port_numbers(ports)) }
}

/// A member that holds a string or, for none, `null`.
pub open spec fn optional_text_member(key: Seq<char>, text: Option<Seq<char>>) -> MemberView {
    MemberView {
        key,
        value: match text {
            Some(t) => JsonValueView::Text(t),
            None => JsonValueView::Null,
        },
    }
}

/// The JSON object of a message: the member `type` first, then the fields.
pub open spec fn object_of(message: MessageView) -> Seq<MemberView> {
    match message {
        MessageView::Register {
            ssh_key,
            uuid,
            auto_accept,
            port_whitelist,
            port_blacklist,
            client_type,
        } => seq![
            text_member("type"@, "register"@),
            text_member("ssh_key"@, ssh_key),
            text_member("uuid"@, uuid),
            flag_member("auto_accept"@, auto_accept),
            ports_member("port_whitelist"@, port_whitelist),
            ports_member("port_blacklist"@, port_blacklist),
            text_member("client_type"@, role_name(client_type)),
        ],
        MessageView::ConnectToHost { target, port } => seq![
            text_member("type"@, "connect_to_host"@),
            text_member("target"@, target),
            port_member("port"@, port),
        ],
        MessageView::ConnectConfirm { source_client, port } => seq![
            text_member("type"@, "connect_confirm"@),
            text_member("source_client"@, source_client),
            port_member("port"@, port),
        ],
        MessageView::ConnectAccept => seq![text_member("type"@, "connect_accept"@)],
        MessageView::ConnectDeny => seq![text_member("type"@, "connect_deny"@)],
        MessageView::TunnelConnect { client_type, user, sshd_port, local_port, forwarded_port } => seq![
            text_member("type"@, "tunnel_connect"@),
            text_member("client_type"@, role_name(client_type)),
            text_member("user"@, user),
            port_member("sshd_port"@, sshd_port),
            port_member("local_port"@, local_port),
            port_member("forwarded_port"@, forwarded_port),
        ],
        MessageView::TunnelClose => seq![text_member("type"@, "tunnel_close"@)],
        MessageView::Response { success, error } => seq![
            text_member("type"@, "response"@),
            flag_member("success"@, success),
            optional_text_member("error"@, error),
        ],
    }
}

/// The value of the first member with this key, if there is one.
pub open spec fn lookup(members: Seq<MemberView>, key: Seq<char>) -> Option<JsonValueView>
    decreases members.len(),
{
    if members.len() == 0 {
        None
    } else if members[0].key == key {
        Some(members[0].value)
    } else {
        lookup(members.drop_first(), key)
    }
}

/// The string under `key`; none if the member is missing or no string.
pub open spec fn text_at(members: Seq<MemberView>, key: Seq<char>) -> Option<Seq<char>> {
    match lookup(members, key) {
        Some(JsonValueView::Text(t)) => Some(t),
        _ => None,
    }
}

/// The boolean under `key`; none if the member is missing or no boolean.
pub open spec fn flag_at(members: Seq<MemberView>, key: Seq<char>) -> Option<bool> {
    match lookup(members, key) {
        Some(JsonValueView::Bool(b)) => Some(b),
        _ => None,
    }
}

/// The port that a number is: a whole number from 0 to 65535.
pub open spec fn port_of_number(number: Option<u64>) -> Option<u16> {
    match number {
        Some(n) => if n <= 65535 {
            Some(n as u16)
        } else {
            None
        },
        None => None,
    }
}

/// The port under `key`; none if the member is missing or no port.
pub open spec fn port_at(members: Seq<MemberView>, key: Seq<char>) -> Option<u16> {
    match lookup(members, key) {
        Some(JsonValueView::Number(number)) => port_of_number(number),
        _ => None,
    }
}

/// The ports that the items of a list are; none if one of them is no port.
pub open spec fn ports_of_numbers(numbers: Seq<Option<u64>>) -> Option<Seq<u16>> {
    if forall|i: int| 0 <= i < numbers.len() ==> port_of_number(#[trigger] numbers[i]) is Some {
        Some(numbers.map_values(|n: Option<u64>| port_of_number(n).unwrap()))
    } else {
        None
    }
}

/// The list of ports under `key`; none if the member is missing or no list
/// of ports.
pub open spec fn ports_at(members: Seq<MemberView>, key: Seq<char>) -> Option<Seq<u16>> {
    match lookup(members, key) {
        Some(JsonValueView::List(numbers)) => ports_of_numbers(numbers),
        _ => None,
    }
}

/// The role that a name on the wire stands for.
pub open spec fn role_of_name(name: Seq<char>) -> Option<ClientRole> {
    if name == "sender"@ {
        Some(ClientRole::Sender)
    } else if name == "receiver"@ {
        Some(ClientRole::Receiver)
    } else {
        None
    }
}

/// The role under `key`; none if the member is missing or names no role.
pub open spec fn role_at(members: Seq<MemberView>, key: Seq<char>) -> Option<ClientRole> {
    match text_at(members, key) {
        Some(name) => role_of_name(name),
        None => None,
    }
}

/// The optional string under `key`: no string if the member is missing or
/// `null`. None if the member is anything else than a string or `null`.
pub open spec fn optional_text_at(members: Seq<MemberView>, key: Seq<char>) -> Option<
    Option<Seq<char>>,
> {
    match lookup(members, key) {
        None => Some(None),
        Some(JsonValueView::Null) => Some(None),
        Some(JsonValueView::Text(t)) => Some(Some(t)),
        _ => None,
    }
}

/// The `Register` message that the members make.
pub open spec fn register_of(members: Seq<MemberView>) -> Result<MessageView, DecodeError> {
    match (
        text_at(members, "ssh_key"@),
        text_at(members, "uuid"@),
        flag_at(members, "auto_accept"@),
        ports_at(members, "port_whitelist"@),
        ports_at(members, "port_blacklist"@),
        role_at(members, "client_type"@),
    ) {
        (
            Some(ssh_key),
            Some(uuid),
            Some(auto_accept),
            Some(port_whitelist),
            Some(port_blacklist),
            Some(client_type),
        ) => Ok(
            MessageView::Register {
                ssh_key,
                uuid,
                auto_accept,
                port_whitelist,
                port_blacklist,
                client_type,
            },
        ),
        _ => Err(DecodeError::InvalidField),
    }
}

/// The `ConnectToHost` message that the members make.
pub open spec fn connect_to_host_of(members: Seq<MemberView>) -> Result<MessageView, DecodeError> {
    match (text_at(members, "target"@), port_at(members, "port"@)) {
        (Some(target), Some(port)) => Ok(MessageView::ConnectToHost { target, port }),
        _ => Err(DecodeError::InvalidField),
    }
}

/// The `ConnectConfirm` message that the members make.
pub open spec fn connect_confirm_of(members: Seq<MemberView>) -> Result<MessageView, DecodeError> {
    match (text_at(members, "source_client"@), port_at(members, "port"@)) {
        (Some(source_client), Some(port)) => Ok(
            MessageView::ConnectConfirm { source_client, port },
        ),
        _ => Err(DecodeError::InvalidField),
    }
}

/// The `TunnelConnect` message that the members make.
pub open spec fn tunnel_connect_of(members: Seq<MemberView>) -> Result<MessageView, DecodeError> {
    match (
        role_at(members, "client_type"@),
        text_at(members, "user"@),
        port_at(members, "sshd_port"@),
        port_at(members, "local_port"@),
        port_at(members, "forwarded_port"@),
    ) {
        (Some(client_type), Some(user), Some(sshd_port), Some(local_port), Some(forwarded_port)) => {
            Ok(
                MessageView::TunnelConnect {
                    client_type,
                    user,
                    sshd_port,
                    local_port,
                    forwarded_port,
                },
            )
        },
        _ => Err(DecodeError::InvalidField),
    }
}

/// The `Response` message that the members make.
pub open spec fn response_of(members: Seq<MemberView>) -> Result<MessageView, DecodeError> {
    match (flag_at(members, "success"@), optional_text_at(members, "error"@)) {
        (Some(success), Some(error)) => Ok(MessageView::Response { success, error }),
        _ => Err(DecodeError::InvalidField),
    }
}

/// The message that a JSON object is. The member `type` must be a string
/// that names a variant, and each field of that variant must be there in its
/// form; a port is a whole number from 0 to 65535. Members that the variant
/// does not have are passed over.
pub open spec fn message_of(members: Seq<MemberView>) -> Result<MessageView, DecodeError> {
    match text_at(members, "type"@) {
        None => Err(DecodeError::UnknownType),
        Some(tag) => {
            if tag == "register"@ {
                register_of(members)
            } else if tag == "connect_to_host"@ {
                connect_to_host_of(members)
            } else if tag == "connect_confirm"@ {
                connect_confirm_of(members)
            } else if tag == "connect_accept"@ {
                Ok(MessageView::ConnectAccept)
            } else if tag == "connect_deny"@ {
                Ok(MessageView::ConnectDeny)
            } else if tag == "tunnel_connect"@ {
                tunnel_connect_of(members)
            } else if tag == "tunnel_close"@ {
                Ok(MessageView::TunnelClose)
            } else if tag == "response"@ {
                response_of(members)
            } else {
                Err(DecodeError::UnknownType)
            }
        },
    }
}

/// The message that a frame is: its text must be a JSON object, and the
/// object a message.
pub open spec fn decoded(text: Seq<char>) -> Result<MessageView, DecodeError> {
    match json_members(text) {
        None => Err(DecodeError::NotAnObject),
        Some(members) => message_of(members),
    }
}

/// The frame of a message: the JSON text of its object.
pub open spec fn encoded(message: MessageView) -> Option<Seq<char>> {
    json_text(object_of(message))
}

/// The view of what decoding gives.
pub open spec fn decoded_view(result: Result<Message, DecodeError>) -> Result<
    MessageView,
    DecodeError,
> {
    match result {
        Ok(message) => Ok(message@),
        Err(error) => Err(error),
    }
}

/// A member found at a place before which no member has its key is what
/// `lookup` gives for that key.
pub proof fn lemma_lookup_finds(members: Seq<MemberView>, key: Seq<char>, at: int)
    requires
        0 <= at < members.len(),
        members[at].key == key,
        forall|j: int| 0 <= j < at ==> (#[trigger] members[j]).key != key,
    ensures
        lookup(members, key) == Some(members[at].value),
    decreases at,
{
    if at > 0 {
        let rest = members.drop_first();
        assert forall|j: int| 0 <= j < at - 1 implies (#[trigger] rest[j]).key != key by {
            assert(rest[j] == members[j + 1]);
        }
        lemma_lookup_finds(rest, key, at - 1);
    }
}

/// A list of ports is read back from its numbers as it was.
pub proof fn lemma_ports_round_trip(ports: Seq<u16>)
    ensures
        ports_of_numbers(port_numbers(ports)) == Some(ports),
{
    let numbers = port_numbers(ports);
    assert forall|i: int| 0 <= i < numbers.len() implies port_of_number(#[trigger] numbers[i])
        == Some(ports[i]) by {}
}

/// A role is read back from its name as it was.
pub proof fn lemma_role_round_trip(role: ClientRole)
    ensures
        role_of_name(role_name(role)) == Some(role),
{
    reveal_strlit("sender");
    reveal_strlit("receiver");
    assert("sender"@.len() != "receiver"@.len());
}

/// The names on the wire, those of the variants and those of the fields, are
/// what they are written as, and those that share an object or serve as
/// `type` differ from one another.
proof fn lemma_names_differ()
    ensures
        "type"@.len() == 4,
        "ssh_key"@.len() == 7,
        "uuid"@.len() == 4,
        "auto_accept"@.len() == 11,
        "port_whitelist"@.len() == 14,
        "port_blacklist"@.len() == 14,
        "client_type"@.len() == 11,
        "target"@.len() == 6,
        "port"@.len() == 4,
        "source_client"@.len() == 13,
        "user"@.len() == 4,
        "sshd_port"@.len() == 9,
        "local_port"@.len() == 10,
        "forwarded_port"@.len() == 14,
        "success"@.len() == 7,
        "error"@.len() == 5,
        "register"@.len() == 8,
        "connect_to_host"@.len() == 15,
        "connect_confirm"@.len() == 15,
        "connect_accept"@.len() == 14,
        "connect_deny"@.len() == 12,
        "tunnel_connect"@.len() == 14,
        "tunnel_close"@.len() == 12,
        "response"@.len() == 8,
        "type"@ != "uuid"@,
        "type"@ != "port"@,
        "type"@ != "user"@,
        "auto_accept"@ != "client_type"@,
        "port_whitelist"@ != "port_blacklist"@,
        "register"@ != "response"@,
        "connect_to_host"@ != "connect_confirm"@,
        "connect_accept"@ != "tunnel_connect"@,
        "connect_deny"@ != "tunnel_close"@,
{
    reveal_strlit("type");
    reveal_strlit("ssh_key");
    reveal_strlit("uuid");
    reveal_strlit("auto_accept");
    reveal_strlit("port_whitelist");
    reveal_strlit("port_blacklist");
    reveal_strlit("client_type");
    reveal_strlit("target");
    reveal_strlit("port");
    reveal_strlit("source_client");
    reveal_strlit("user");
    reveal_strlit("sshd_port");
    reveal_strlit("local_port");
    reveal_strlit("forwarded_port");
    reveal_strlit("success");
    reveal_strlit("error");
    reveal_strlit("register");
    reveal_strlit("connect_to_host");
    reveal_strlit("connect_confirm");
    reveal_strlit("connect_accept");
    reveal_strlit("connect_deny");
    reveal_strlit("tunnel_connect");
    reveal_strlit("tunnel_close");
    reveal_strlit("response");
    assert("type"@[0] != "user"@[0]);
    assert("auto_accept"@[0] != "client_type"@[0]);
    assert("port_whitelist"@[5] != "port_blacklist"@[5]);
    assert("register"@[2] != "response"@[2]);
    assert("connect_to_host"@[8] != "connect_confirm"@[8]);
    assert("connect_accept"@[0] != "tunnel_connect"@[0]);
    assert("connect_deny"@[0] != "tunnel_close"@[0]);
}

proof fn lemma_register_round_trip(message: MessageView)
    requires
        message is Register,
    ensures
        message_of(object_of(message)) == Ok::<MessageView, DecodeError>(message),
{
    lemma_names_differ();
    let members = object_of(message);
    lemma_lookup_finds(members, "type"@, 0);
    lemma_lookup_finds(members, "ssh_key"@, 1);
    lemma_lookup_finds(members, "uuid"@, 2);
    lemma_lookup_finds(members, "auto_accept"@, 3);
    lemma_lookup_finds(members, "port_whitelist"@, 4);
    lemma_lookup_finds(members, "port_blacklist"@, 5);
    lemma_lookup_finds(members, "client_type"@, 6);
    lemma_ports_round_trip(message->port_whitelist);
    lemma_ports_round_trip(message->port_blacklist);
    lemma_role_round_trip(message->Register_client_type);
}

proof fn lemma_request_round_trip(message: MessageView)
    requires
        message is ConnectToHost || message is ConnectConfirm,
    ensures
        message_of(object_of(message)) == Ok::<MessageView, DecodeError>(message),
{
    lemma_names_differ();
    let members = object_of(message);
    lemma_lookup_finds(members, "type"@, 0);
    lemma_lookup_finds(members, "port"@, 2);
    if message is ConnectToHost {
        lemma_lookup_finds(members, "target"@, 1);
    } else {
        lemma_lookup_finds(members, "source_client"@, 1);
    }
}

proof fn lemma_bare_round_trip(message: MessageView)
    requires
        message is ConnectAccept || message is ConnectDeny || message is TunnelClose,
    ensures
        message_of(object_of(message)) == Ok::<MessageView, DecodeError>(message),
{
    lemma_names_differ();
    let members = object_of(message);
    lemma_lookup_finds(members, "type"@, 0);
}

proof fn lemma_grant_round_trip(message: MessageView)
    requires
        message is TunnelConnect,
    ensures
        message_of(object_of(message)) == Ok::<MessageView, DecodeError>(message),
{
    lemma_names_differ();
    let members = object_of(message);
    lemma_lookup_finds(members, "type"@, 0);
    lemma_lookup_finds(members, "client_type"@, 1);
    lemma_lookup_finds(members, "user"@, 2);
    lemma_lookup_finds(members, "sshd_port"@, 3);
    lemma_lookup_finds(members, "local_port"@, 4);
    lemma_lookup_finds(members, "forwarded_port"@, 5);
    lemma_role_round_trip(message->TunnelConnect_client_type);
}

proof fn lemma_response_round_trip(message: MessageView)
    requires
        message is Response,
    ensures
        message_of(object_of(message)) == Ok::<MessageView, DecodeError>(message),
{
    lemma_names_differ();
    let members = object_of(message);
    lemma_lookup_finds(members, "type"@, 0);
    lemma_lookup_finds(members, "success"@, 1);
    lemma_lookup_finds(members, "error"@, 2);
}

/// Every message is read back from its JSON object as it was: whatever the
/// variant and whatever its fields hold, an empty list and a missing error
/// text included.
pub proof fn lemma_object_round_trip(message: MessageView)
    ensures
        message_of(object_of(message)) == Ok::<MessageView, DecodeError>(message),
{
    match message {
        MessageView::Register { .. } => lemma_register_round_trip(message),
        MessageView::ConnectToHost { .. } => lemma_request_round_trip(message),
        MessageView::ConnectConfirm { .. } => lemma_request_round_trip(message),
        MessageView::ConnectAccept => lemma_bare_round_trip(message),
        MessageView::ConnectDeny => lemma_bare_round_trip(message),
        MessageView::TunnelConnect { .. } => lemma_grant_round_trip(message),
        MessageView::TunnelClose => lemma_bare_round_trip(message),
        MessageView::Response { .. } => lemma_response_round_trip(message),
    }
}

/// The JSON object of a message can be written without loss: its numbers are
/// whole, it holds no object, and no key occurs twice in it.
pub proof fn lemma_object_is_writable(message: MessageView)
    ensures
        is_writable(object_of(message)),
{
    lemma_names_differ();
}

/// Whether two objects hold the same value under every key.
pub open spec fn same_members(first: Seq<MemberView>, second: Seq<MemberView>) -> bool {
    forall|key: Seq<char>| #[trigger] lookup(first, key) == lookup(second, key)
}

/// What a message is read from depends on the values under the keys alone:
/// two objects that hold the same value under every key are the same message,
/// or fail to be one for the same reason.
pub proof fn lemma_message_of_same_members(first: Seq<MemberView>, second: Seq<MemberView>)
    requires
        same_members(first, second),
    ensures
        message_of(first) == message_of(second),
{
}

/// Whether `key` is a name that the protocol gives to a member.
pub open spec fn is_protocol_key(key: Seq<char>) -> bool {
    ||| key == "type"@
    ||| key == "ssh_key"@
    ||| key == "uuid"@
    ||| key == "auto_accept"@
    ||| key == "port_whitelist"@
    ||| key == "port_blacklist"@
    ||| key == "client_type"@
    ||| key == "target"@
    ||| key == "port"@
    ||| key == "source_client"@
    ||| key == "user"@
    ||| key == "sshd_port"@
    ||| key == "local_port"@
    ||| key == "forwarded_port"@
    ||| key == "success"@
    ||| key == "error"@
}

/// A member put in front of an object is found under its own key and hides
/// nothing under the other keys.
pub proof fn lemma_lookup_after_insert(members: Seq<MemberView>, extra: MemberView, key: Seq<char>)
    ensures
        lookup(seq![extra] + members, key) == if extra.key == key {
            Some(extra.value)
        } else {
            lookup(members, key)
        },
{
    let all = seq![extra] + members;
    assert(all.drop_first() =~= members);
}

/// Members that the protocol does not know are passed over: with such a
/// member added in front, an object is the same message as without it, or
/// fails to be one for the same reason.
pub proof fn lemma_unknown_member_is_passed_over(members: Seq<MemberView>, extra: MemberView)
    requires
        !is_protocol_key(extra.key),
    ensures
        message_of(seq![extra] + members) == message_of(members),
{
    lemma_lookup_after_insert(members, extra, "type"@);
    lemma_lookup_after_insert(members, extra, "ssh_key"@);
    lemma_lookup_after_insert(members, extra, "uuid"@);
    lemma_lookup_after_insert(members, extra, "auto_accept"@);
    lemma_lookup_after_insert(members, extra, "port_whitelist"@);
    lemma_lookup_after_insert(members, extra, "port_blacklist"@);
    lemma_lookup_after_insert(members, extra, "client_type"@);
    lemma_lookup_after_insert(members, extra, "target"@);
    lemma_lookup_after_insert(members, extra, "port"@);
    lemma_lookup_after_insert(members, extra, "source_client"@);
    lemma_lookup_after_insert(members, extra, "user"@);
    lemma_lookup_after_insert(members, extra, "sshd_port"@);
    lemma_lookup_after_insert(members, extra, "local_port"@);
    lemma_lookup_after_insert(members, extra, "forwarded_port"@);
    lemma_lookup_after_insert(members, extra, "success"@);
    lemma_lookup_after_insert(members, extra, "error"@);
}

/// An object whose `type` names no variant of the protocol is no message.
pub proof fn lemma_unknown_type_is_refused(members: Seq<MemberView>)
    requires
        match text_at(members, "type"@) {
            Some(tag) => {
                &&& tag != "register"@
                &&& tag != "connect_to_host"@
                &&& tag != "connect_confirm"@
                &&& tag != "connect_accept"@
                &&& tag != "connect_deny"@
                &&& tag != "tunnel_connect"@
                &&& tag != "tunnel_close"@
                &&& tag != "response"@
            },
            None => true,
        },
    ensures
        message_of(members) == Err::<MessageView, DecodeError>(DecodeError::UnknownType),
{
}

/// A frame is read back as the message it was made from wherever the JSON
/// text that was written for an object is read as an object with the same
/// value under every key.
pub proof fn lemma_frame_round_trip(message: MessageView, frame: Seq<char>, read: Seq<MemberView>)
    requires
        encoded(message) == Some(frame),
        json_members(frame) == Some(read),
        same_members(read, object_of(message)),
    ensures
        decoded(frame) == Ok::<MessageView, DecodeError>(message),
{
    lemma_message_of_same_members(read, object_of(message));
    lemma_object_round_trip(message);
}

/// No two messages have the same JSON object.
pub proof fn lemma_objects_differ(first: MessageView, second: MessageView)
    requires
        object_of(first) == object_of(second),
    ensures
        first == second,
{
    lemma_object_round_trip(first);
    lemma_object_round_trip(second);
}

/// The name of a role on the wire.
fn role_text(role: ClientRole) -> (name: String)
    ensures
        name@ == role_name(role),
{
    match role {
        ClientRole::Sender => "sender".to_string(),
        ClientRole::Receiver => "receiver".to_string(),
    }
}

fn text_entry(key: &str, text: String) -> (member: Member)
    ensures
        member@ == text_member(key@, text@),
{
    Member { key: key.to_string(), value: JsonValue::Text(text) }
}

fn flag_entry(key: &str, flag: bool) -> (member: Member)
    ensures
        member@ == flag_member(key@, flag),
{
    Member { key: key.to_string(), value: JsonValue::Bool(flag) }
}

fn port_entry(key: &str, port: u16) -> (member: Member)
    ensures
        member@ == port_member(key@, port),
{
    Member { key: key.to_string(), value: JsonValue::Number(Some(port as u64)) }
}

fn ports_entry(key: &str, ports: &Vec<u16>) -> (member: Member)
    ensures
        member@ == ports_member(key@, ports@),
{
    let mut numbers: Vec<Option<u64>> = Vec::new();
    let mut i: usize = 0;
    while i < ports.len()
        invariant
            i <= ports.len(),
            numbers@ == port_numbers(ports@.take(i as int)),
        decreases ports.len() - i,
    {
        numbers.push(Some(ports[i] as u64));
        i += 1;
    }
    assert(ports@.take(i as int) =~= ports@);
    Member { key: key.to_string(), value: JsonValue::List(numbers) }
}

fn optional_text_entry(key: &str, text: &Option<String>) -> (member: Member)
    ensures
        member@ == optional_text_member(key@, text_view(*text)),
{
    let value = match text {
        Some(t) => JsonValue::Text(t.clone()),
        None => JsonValue::Null,
    };
    Member { key: key.to_string(), value }
}

/// The JSON object of a message.
pub fn to_object(message: &Message) -> (members: Vec<Member>)
    ensures
        member_views(members@) == object_of(message@),
{
    let mut members: Vec<Member> = Vec::new();
    match message {
        Message::Register {
            ssh_key,
            uuid,
            auto_accept,
            port_whitelist,
            port_blacklist,
            client_type,
        } => {
            members.push(text_entry("type", "register".to_string()));
            members.push(text_entry("ssh_key", ssh_key.clone()));
            members.push(text_entry("uuid", uuid.clone()));
            members.push(flag_entry("auto_accept", *auto_accept));
            members.push(ports_entry("port_whitelist", port_whitelist));
            members.push(ports_entry("port_blacklist", port_blacklist));
            members.push(text_entry("client_type", role_text(*client_type)));
        },
        Message::ConnectToHost { target, port } => {
            members.push(text_entry("type", "connect_to_host".to_string()));
            members.push(text_entry("target", target.clone()));
            members.push(port_entry("port", *port));
        },
        Message::ConnectConfirm { source_client, port } => {
            members.push(text_entry("type", "connect_confirm".to_string()));
            members.push(text_entry("source_client", source_client.clone()));
            members.push(port_entry("port", *port));
        },
        Message::ConnectAccept => {
            members.push(text_entry("type", "connect_accept".to_string()));
        },
        Message::ConnectDeny => {
            members.push(text_entry("type", "connect_deny".to_string()));
        },
        Message::TunnelConnect { client_type, user, sshd_port, local_port, forwarded_port } => {
            members.push(text_entry("type", "tunnel_connect".to_string()));
            members.push(text_entry("client_type", role_text(*client_type)));
            members.push(text_entry("user", user.clone()));
            members.push(port_entry("sshd_port", *sshd_port));
            members.push(port_entry("local_port", *local_port));
            members.push(port_entry("forwarded_port", *forwarded_port));
        },
        Message::TunnelClose => {
            members.push(text_entry("type", "tunnel_close".to_string()));
        },
        Message::Response { success, error } => {
            members.push(text_entry("type", "response".to_string()));
            members.push(flag_entry("success", *success));
            members.push(optional_text_entry("error", error));
        },
    }
    members
}

/// Finds the value of the first member with this key.
fn find<'a>(members: &'a Vec<Member>, key: &str) -> (value: Option<&'a JsonValue>)
    ensures
        match value {
            Some(v) => lookup(member_views(members@), key@) == Some(v@),
            None => lookup(member_views(members@), key@) is None,
        },
{
    let wanted = key.to_string();
    let ghost views = member_views(members@);
    let mut i: usize = 0;
    assert(views.skip(0) =~= views);
    while i < members.len()
        invariant
            i <= members.len(),
            wanted@ == key@,
            views == member_views(members@),
            lookup(views, key@) == lookup(views.skip(i as int), key@),
        decreases members.len() - i,
    {
        if members[i].key == wanted {
            return Some(&members[i].value);
        }
        assert(views.skip(i as int).drop_first() =~= views.skip(i + 1));
        i += 1;
    }
    None
}

fn read_text(members: &Vec<Member>, key: &str) -> (text: Option<String>)
    ensures
        text_view(text) == text_at(member_views(members@), key@),
{
    match find(members, key) {
        Some(JsonValue::Text(t)) => Some(t.clone()),
        _ => None,
    }
}

fn read_flag(members: &Vec<Member>, key: &str) -> (flag: Option<bool>)
    ensures
        flag == flag_at(member_views(members@), key@),
{
    match find(members, key) {
        Some(JsonValue::Bool(b)) => Some(*b),
        _ => None,
    }
}

fn port_from(number: Option<u64>) -> (port: Option<u16>)
    ensures
        port == port_of_number(number),
{
    match number {
        Some(n) => if n <= 65535 {
            Some(n as u16)
        } else {
            None
        },
        None => None,
    }
}

fn read_port(members: &Vec<Member>, key: &str) -> (port: Option<u16>)
    ensures
        port == port_at(member_views(members@), key@),
{
    match find(members, key) {
        Some(JsonValue::Number(number)) => port_from(*number),
        _ => None,
    }
}

fn ports_from(numbers: &Vec<Option<u64>>) -> (ports: Option<Vec<u16>>)
    ensures
        match ports {
            Some(p) => ports_of_numbers(numbers@) == Some(p@),
            None => ports_of_numbers(numbers@) is None,
        },
{
    let mut ports: Vec<u16> = Vec::new();
    let mut i: usize = 0;
    while i < numbers.len()
        invariant
            i <= numbers.len(),
            ports@.len() == i,
            forall|k: int| 0 <= k < i ==> port_of_number(#[trigger] numbers@[k]) == Some(ports@[k]),
        decreases numbers.len() - i,
    {
        match port_from(numbers[i]) {
            Some(p) => {
                ports.push(p);
            },
            None => {
                return None;
            },
        }
        i += 1;
    }
    Some(ports)
}

fn read_ports(members: &Vec<Member>, key: &str) -> (ports: Option<Vec<u16>>)
    ensures
        match ports {
            Some(p) => ports_at(member_views(members@), key@) == Some(p@),
            None => ports_at(member_views(members@), key@) is None,
        },
{
    match find(members, key) {
        Some(JsonValue::List(numbers)) => ports_from(numbers),
        _ => None,
    }
}

/// Tells whether `text` is the string `literal`.
fn is_text(text: &String, literal: &str) -> (r: bool)
    ensures
        r == (text@ == literal@),
{
    *text == literal.to_string()
}

fn read_role(members: &Vec<Member>, key: &str) -> (role: Option<ClientRole>)
    ensures
        role == role_at(member_views(members@), key@),
{
    match read_text(members, key) {
        Some(name) => {
            if is_text(&name, "sender") {
                Some(ClientRole::Sender)
            } else if is_text(&name, "receiver") {
                Some(ClientRole::Receiver)
            } else {
                None
            }
        },
        None => None,
    }
}

fn read_optional_text(members: &Vec<Member>, key: &str) -> (text: Option<Option<String>>)
    ensures
        match text {
            Some(t) => optional_text_at(member_views(members@), key@) == Some(text_view(t)),
            None => optional_text_at(member_views(members@), key@) is None,
        },
{
    match find(members, key) {
        None => Some(None),
        Some(JsonValue::Null) => Some(None),
        Some(JsonValue::Text(t)) => Some(Some(t.clone())),
        _ => None,
    }
}

fn read_register(members: &Vec<Member>) -> (result: Result<Message, DecodeError>)
    ensures
        decoded_view(result) == register_of(member_views(members@)),
{
    let ssh_key = read_text(members, "ssh_key");
    let uuid = read_text(members, "uuid");
    let auto_accept = read_flag(members, "auto_accept");
    let port_whitelist = read_ports(members, "port_whitelist");
    let port_blacklist = read_ports(members, "port_blacklist");
    let client_type = read_role(members, "client_type");
    match (ssh_key, uuid, auto_accept, port_whitelist, port_blacklist, client_type) {
        (
            Some(ssh_key),
            Some(uuid),
            Some(auto_accept),
            Some(port_whitelist),
            Some(port_blacklist),
            Some(client_type),
        ) => Ok(
            Message::Register {
                ssh_key,
                uuid,
                auto_accept,
                port_whitelist,
                port_blacklist,
                client_type,
            },
        ),
        _ => Err(DecodeError::InvalidField),
    }
}

fn read_connect_to_host(members: &Vec<Member>) -> (result: Result<Message, DecodeError>)
    ensures
        decoded_view(result) == connect_to_host_of(member_views(members@)),
{
    match (read_text(members, "target"), read_port(members, "port")) {
        (Some(target), Some(port)) => Ok(Message::ConnectToHost { target, port }),
        _ => Err(DecodeError::InvalidField),
    }
}

fn read_connect_confirm(members: &Vec<Member>) -> (result: Result<Message, DecodeError>)
    ensures
        decoded_view(result) == connect_confirm_of(member_views(members@)),
{
    match (read_text(members, "source_client"), read_port(members, "port")) {
        (Some(source_client), Some(port)) => Ok(Message::ConnectConfirm { source_client, port }),
        _ => Err(DecodeError::InvalidField),
    }
}

fn read_tunnel_connect(members: &Vec<Member>) -> (result: Result<Message, DecodeError>)
    ensures
        decoded_view(result) == tunnel_connect_of(member_views(members@)),
{
    let client_type = read_role(members, "client_type");
    let user = read_text(members, "user");
    let sshd_port = read_port(members, "sshd_port");
    let local_port = read_port(members, "local_port");
    let forwarded_port = read_port(members, "forwarded_port");
    match (client_type, user, sshd_port, local_port, forwarded_port) {
        (Some(client_type), Some(user), Some(sshd_port), Some(local_port), Some(forwarded_port)) => {
            Ok(Message::TunnelConnect { client_type, user, sshd_port, local_port, forwarded_port })
        },
        _ => Err(DecodeError::InvalidField),
    }
}

fn read_response(members: &Vec<Member>) -> (result: Result<Message, DecodeError>)
    ensures
        decoded_view(result) == response_of(member_views(members@)),
{
    match (read_flag(members, "success"), read_optional_text(members, "error")) {
        (Some(success), Some(error)) => Ok(Message::Response { success, error }),
        _ => Err(DecodeError::InvalidField),
    }
}

/// Reads the message that a JSON object is, or tells why it is none.
pub fn from_object(members: &Vec<Member>) -> (result: Result<Message, DecodeError>)
    ensures
        decoded_view(result) == message_of(member_views(members@)),
{
    let tag = match read_text(members, "type") {
        Some(tag) => tag,
        None => {
            return Err(DecodeError::UnknownType);
        },
    };
    if is_text(&tag, "register") {
        read_register(members)
    } else if is_text(&tag, "connect_to_host") {
        read_connect_to_host(members)
    } else if is_text(&tag, "connect_confirm") {
        read_connect_confirm(members)
    } else if is_text(&tag, "connect_accept") {
        Ok(Message::ConnectAccept)
    } else if is_text(&tag, "connect_deny") {
        Ok(Message::ConnectDeny)
    } else if is_text(&tag, "tunnel_connect") {
        read_tunnel_connect(members)
    } else if is_text(&tag, "tunnel_close") {
        Ok(Message::TunnelClose)
    } else if is_text(&tag, "response") {
        read_response(members)
    } else {
        Err(DecodeError::UnknownType)
    }
}

/// Writes a message as the text of one frame: the JSON text that
/// `serde_json` writes for the object of the message. The frame is handed out
/// only if it is read back as the message it was made from; otherwise, and
/// if `serde_json` writes no text, there is no frame.
pub fn encode(message: &Message) -> (text: Option<String>)
    ensures
        match text {
            Some(frame) => encoded(message@) == Some(frame@) && decoded(frame@) == Ok::<
                MessageView,
                DecodeError,
            >(message@),
            None => match encoded(message@) {
                Some(frame) => decoded(frame) != Ok::<MessageView, DecodeError>(message@),
                None => true,
            },
        },
{
    let members = to_object(message);
    proof {
        lemma_object_is_writable(message@);
    }
    match write_object(&members) {
        Some(frame) => {
            let read_back = match decode(frame.as_str()) {
                Ok(back) => back.same_as(message),
                Err(_) => false,
            };
            if read_back {
                Some(frame)
            } else {
                None
            }
        },
        None => None,
    }
}

/// Reads the message that the text of a frame is, or tells why it is none.
pub fn decode(text: &str) -> (result: Result<Message, DecodeError>)
    ensures
        decoded_view(result) == decoded(text@),
{
    match read_object(text) {
        Some(members) => from_object(&members),
        None => Err(DecodeError::NotAnObject),
    }
}

} // verus!

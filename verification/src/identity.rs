//! Who the client is towards the relay: an identifier that stays the same
//! from run to run, and the public half of its SSH key.

use vstd::prelude::*;
use crate::session::{ClientIdentity, ClientIdentityView};
use crate::text::{replace_all, replaced};

verus! {

/// Whether `c` is a lower-case hexadecimal digit.
pub open spec fn is_hex_digit(c: char) -> bool {
    ('0' <= c && c <= '9') || ('a' <= c && c <= 'f')
}

/// Whether `s` has the form of a random UUID in its usual writing: 32
/// lower-case hexadecimal digits in groups of 8, 4, 4, 4 and 12 with a hyphen
/// between them, the third group starting with the version `4` and the fourth
/// with one of `8`, `9`, `a`, `b`.
pub open spec fn is_random_uuid(s: Seq<char>) -> bool {
    &&& s.len() == 36
    &&& forall|i: int|
        0 <= i < 36 ==> if i == 8 || i == 13 || i == 18 || i == 23 {
            #[trigger] s[i] == '-'
        } else {
            is_hex_digit(s[i])
        }
    &&& s[14] == '4'
    &&& (s[19] == '8' || s[19] == '9' || s[19] == 'a' || s[19] == 'b')
}

/// A new identifier: `uuid::Uuid::new_v4`, written with the `Display` of
/// `Uuid`. Which identifier comes is left to chance; each one is a random UUID
/// in hyphenated lower-case form. The call does not return if the operating
/// system hands out no random bytes.
#[verifier::external_body]
fn fresh_id() -> (id: String)
    ensures
        is_random_uuid(id@),
{
    uuid::Uuid::new_v4().to_string()
}

/// The identifier of this run: the stored one, unless there is none or a
/// fresh one is asked for. The flag tells whether the identifier is new and
/// has to be stored.
pub fn resolve_identifier(stored: Option<String>, always_fresh: bool) -> (result: (String, bool))
    ensures
        match stored {
            Some(id) if !always_fresh => result.0 == id && !result.1,
            _ => is_random_uuid(result.0@) && result.1,
        },
{
    match stored {
        Some(id) if !always_fresh => (id, false),
        _ => (fresh_id(), true),
    }
}

/// The path of a key file with the home directory filled in wherever the
/// path names it as `$HOME`.
pub open spec fn home_expanded(path: Seq<char>, home: Seq<char>) -> Seq<char> {
    replaced(path, "$HOME"@, home)
}

/// Fills in the home directory wherever the path names it as `$HOME`.
pub fn expand_home(path: &str, home: &str) -> (expanded: String)
    ensures
        expanded@ == home_expanded(path@, home@),
{
    replace_all(path, "$HOME", home)
}

/// The path of the public key file that belongs to a private key file: the
/// same path with `.pub` added.
pub fn public_key_path(private_key_path: &str) -> (path: String)
    ensures
        path@ == private_key_path@ + ".pub"@,
{
    let mut path = private_key_path.to_string();
    path.append(".pub");
    path
}

/// What `ssh_key` makes of the text of a public key file: the key written
/// anew in OpenSSH form, or the error that the crate reports.
pub uninterp spec fn openssh_public_key(contents: Seq<char>) -> Result<Seq<char>, Seq<char>>;

/// What `ssh_key` makes of the text of a private key file: `None` if it is
/// an OpenSSH private key, else the error that the crate reports.
pub uninterp spec fn openssh_private_key_fault(contents: Seq<char>) -> Option<Seq<char>>;

/// The view of a text or an error text.
pub open spec fn outcome_view(outcome: Result<String, String>) -> Result<Seq<char>, Seq<char>> {
    match outcome {
        Ok(text) => Ok(text@),
        Err(error) => Err(error@),
    }
}

/// The view of an optional error text.
pub open spec fn fault_view(fault: Option<String>) -> Option<Seq<char>> {
    match fault {
        Some(error) => Some(error@),
        None => None,
    }
}

/// Parses the text with `ssh_key::PublicKey::from_openssh` and writes the key
/// with `PublicKey::to_openssh`; an error of either is handed out as its
/// `Display` text. The result is a function of the text, named
/// `openssh_public_key`; nothing more is claimed of it.
#[verifier::external_body]
fn read_public_key(contents: &str) -> (outcome: Result<String, String>)
    ensures
        outcome_view(outcome) == openssh_public_key(contents@),
{
    match ssh_key::PublicKey::from_openssh(contents) {
        Ok(key) => key.to_openssh().map_err(|error| error.to_string()),
        Err(error) => Err(error.to_string()),
    }
}

/// Parses the text with `ssh_key::PrivateKey::from_openssh` and hands out the
/// error, if there is one, as its `Display` text. The result is a function of
/// the text, named `openssh_private_key_fault`; nothing more is claimed of it.
#[verifier::external_body]
fn read_private_key(contents: &str) -> (fault: Option<String>)
    ensures
        fault_view(fault) == openssh_private_key_fault(contents@),
{
    ssh_key::PrivateKey::from_openssh(contents).err().map(|error| error.to_string())
}

/// Why a pair of key files cannot be used.
#[derive(Clone, Debug, PartialEq, Eq)]
pub enum KeyFault {
    /// There is no private key file.
    PrivateMissing,
    /// There is no public key file.
    PublicMissing,
    /// The private key file holds no OpenSSH private key.
    PrivateInvalid(String),
    /// The public key file holds no OpenSSH public key.
    PublicInvalid(String),
}

/// `KeyFault` as a mathematical value.
pub enum KeyFaultView {
    PrivateMissing,
    PublicMissing,
    PrivateInvalid(Seq<char>),
    PublicInvalid(Seq<char>),
}

impl View for KeyFault {
    type V = KeyFaultView;

    open spec fn view(&self) -> KeyFaultView {
        match *self {
            KeyFault::PrivateMissing => KeyFaultView::PrivateMissing,
            KeyFault::PublicMissing => KeyFaultView::PublicMissing,
            KeyFault::PrivateInvalid(error) => KeyFaultView::PrivateInvalid(error@),
            KeyFault::PublicInvalid(error) => KeyFaultView::PublicInvalid(error@),
        }
    }
}

impl KeyFaultView {
    /// The text shown to the operator; `path` is the path of the private key
    /// file, and the public key file lies beside it with `.pub` added.
    pub open spec fn description(self, path: Seq<char>) -> Seq<char> {
        match self {
            KeyFaultView::PrivateMissing => "The ssh private key file \""@ + path
                + "\" does not exist"@,
            KeyFaultView::PublicMissing => "The ssh public key file \""@ + path
                + ".pub\" does not exist"@,
            KeyFaultView::PrivateInvalid(error) => "the private key is invalid: "@ + error,
            KeyFaultView::PublicInvalid(error) => "the public key is invalid: "@ + error,
        }
    }
}

impl KeyFault {
    /// The text shown to the operator; `path` is the path of the private key
    /// file.
    pub fn describe(&self, path: &str) -> (text: String)
        ensures
            text@ == self@.description(path@),
    {
        match self {
            KeyFault::PrivateMissing => {
                let mut text = "The ssh private key file \"".to_string();
                text.append(path);
                text.append("\" does not exist");
                text
            },
            KeyFault::PublicMissing => {
                let mut text = "The ssh public key file \"".to_string();
                text.append(path);
                text.append(".pub\" does not exist");
                text
            },
            KeyFault::PrivateInvalid(error) => {
                let mut text = "the private key is invalid: ".to_string();
                text.append(error.as_str());
                text
            },
            KeyFault::PublicInvalid(error) => {
                let mut text = "the public key is invalid: ".to_string();
                text.append(error.as_str());
                text
            },
        }
    }
}

/// What a pair of key files that both exist is good for, given what
/// `ssh_key` made of what they hold. Both must hold a key; the private key is
/// looked at first. A good pair gives the public key as it is registered.
pub open spec fn key_pair_verdict(
    private_fault: Option<Seq<char>>,
    public_key: Result<Seq<char>, Seq<char>>,
) -> Result<Seq<char>, KeyFaultView> {
    match private_fault {
        Some(error) => Err(KeyFaultView::PrivateInvalid(error)),
        None => match public_key {
            Ok(text) => Ok(text),
            Err(error) => Err(KeyFaultView::PublicInvalid(error)),
        },
    }
}

/// What a pair of key files is good for, given the text of each (none for a
/// file that does not exist). Both files must exist, the private key file
/// first, and then both must hold a key.
pub open spec fn key_pair(private: Option<Seq<char>>, public: Option<Seq<char>>) -> Result<
    Seq<char>,
    KeyFaultView,
> {
    match (private, public) {
        (None, _) => Err(KeyFaultView::PrivateMissing),
        (Some(_), None) => Err(KeyFaultView::PublicMissing),
        (Some(private_text), Some(public_text)) => key_pair_verdict(
            openssh_private_key_fault(private_text),
            openssh_public_key(public_text),
        ),
    }
}

/// The view of a public key text or the reason why there is none.
pub open spec fn verdict_view(verdict: Result<String, KeyFault>) -> Result<
    Seq<char>,
    KeyFaultView,
> {
    match verdict {
        Ok(text) => Ok(text@),
        Err(fault) => Err(fault@),
    }
}

/// Judges a pair of key files that both exist from what `ssh_key` made of
/// what they hold.
pub fn judge_key_pair(private_fault: Option<String>, public_key: Result<String, String>) -> (verdict:
    Result<String, KeyFault>)
    ensures
        verdict_view(verdict) == key_pair_verdict(
            fault_view(private_fault),
            outcome_view(public_key),
        ),
{
    match private_fault {
        Some(error) => Err(KeyFault::PrivateInvalid(error)),
        None => match public_key {
            Ok(text) => Ok(text),
            Err(error) => Err(KeyFault::PublicInvalid(error)),
        },
    }
}

/// Checks the pair of key files of the client, given the text of each (none
/// for a file that does not exist), and hands out the public key as it is
/// registered with the relay.
pub fn check_key_pair(private: Option<&str>, public: Option<&str>) -> (verdict: Result<
    String,
    KeyFault,
>)
    ensures
        verdict_view(verdict) == key_pair(
            match private {
                Some(text) => Some(text@),
                None => None,
            },
            match public {
                Some(text) => Some(text@),
                None => None,
            },
        ),
{
    match (private, public) {
        (None, _) => Err(KeyFault::PrivateMissing),
        (Some(_), None) => Err(KeyFault::PublicMissing),
        (Some(private_text), Some(public_text)) => {
            judge_key_pair(read_private_key(private_text), read_public_key(public_text))
        },
    }
}

impl ClientIdentity {
    /// The identity made of an identifier and the text of a public key.
    pub fn new(id: String, public_key: String) -> (identity: ClientIdentity)
        ensures
            identity@ == (ClientIdentityView { id: id@, public_key: public_key@ }),
    {
        ClientIdentity { id, public_key }
    }
}

} // verus!

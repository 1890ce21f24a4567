use ssh_key::private::{Ed25519Keypair, Ed25519PrivateKey, KeypairData};
use ssh_key::public::Ed25519PublicKey;
use tunnel_client::identity::{
    check_key_pair, expand_home, judge_key_pair, public_key_path, resolve_identifier, KeyFault,
};
use tunnel_client::session::ClientIdentity;

const PUBLIC_KEY: &str =
    "ssh-ed25519 AAAAC3NzaC1lZDI1NTE5AAAAILM+rvN+ot98qgEN796jTiQfZfG1KaT0PtFDJ/XFSqti user@example.com";

/// The text of a private key file, made for the test from fixed bytes.
fn private_key_file() -> String {
    let pair = Ed25519Keypair {
        public: Ed25519PublicKey([7u8; 32]),
        private: Ed25519PrivateKey::from_bytes(&[9u8; 32]),
    };
    let key = ssh_key::PrivateKey::new(KeypairData::Ed25519(pair), "op@example.org").expect("a key");
    key.to_openssh(ssh_key::LineEnding::LF).expect("a file").to_string()
}

fn assert_random_uuid(id: &str) {
    assert_eq!(id.len(), 36);
    for (i, c) in id.chars().enumerate() {
        if i == 8 || i == 13 || i == 18 || i == 23 {
            assert_eq!(c, '-');
        } else {
            assert!(c.is_ascii_digit() || ('a'..='f').contains(&c), "{}", id);
        }
    }
    assert_eq!(&id[14..15], "4");
    assert!(["8", "9", "a", "b"].contains(&&id[19..20]));
    let parsed = uuid::Uuid::parse_str(id).expect("a uuid");
    assert_eq!(parsed.get_version(), Some(uuid::Version::Random));
    assert_eq!(parsed.to_string(), id);
}

#[test]
fn stored_identifier_is_kept() {
    assert_eq!(
        resolve_identifier(Some("0b64c1a0-0c3e-4a5d-9d6f-1f2e3d4c5b6a".to_string()), false),
        ("0b64c1a0-0c3e-4a5d-9d6f-1f2e3d4c5b6a".to_string(), false)
    );
    assert_eq!(resolve_identifier(Some("anything".to_string()), false), ("anything".to_string(), false));
    assert_eq!(resolve_identifier(Some(String::new()), false), (String::new(), false));
}

#[test]
fn missing_identifier_is_made() {
    let (id, store) = resolve_identifier(None, false);
    assert!(store);
    assert_random_uuid(&id);
}

#[test]
fn fresh_identifier_is_made_on_demand() {
    let (id, store) = resolve_identifier(Some("0b64c1a0-0c3e-4a5d-9d6f-1f2e3d4c5b6a".to_string()), true);
    assert!(store);
    assert_random_uuid(&id);
    assert_ne!(id, "0b64c1a0-0c3e-4a5d-9d6f-1f2e3d4c5b6a");
    let (id, store) = resolve_identifier(None, true);
    assert!(store);
    assert_random_uuid(&id);
}

#[test]
fn fresh_identifiers_differ() {
    let (first, _) = resolve_identifier(None, true);
    let (second, _) = resolve_identifier(None, true);
    assert_ne!(first, second);
}

#[test]
fn home_is_filled_in() {
    assert_eq!(expand_home("$HOME/.ssh/id_rsa", "/home/op"), "/home/op/.ssh/id_rsa");
    assert_eq!(expand_home("/etc/keys/id", "/home/op"), "/etc/keys/id");
    assert_eq!(expand_home("$HOME/$HOME", "/h"), "/h//h");
    assert_eq!(expand_home("$HOMER", "/h"), "/hR");
    assert_eq!(expand_home("$home", "/h"), "$home");
}

#[test]
fn public_key_lies_beside_the_private_key() {
    assert_eq!(public_key_path("/home/op/.ssh/id_rsa"), "/home/op/.ssh/id_rsa.pub");
    assert_eq!(public_key_path(""), ".pub");
}

#[test]
fn missing_private_key_file_is_told_first() {
    assert_eq!(check_key_pair(None, None), Err(KeyFault::PrivateMissing));
    assert_eq!(check_key_pair(None, Some(PUBLIC_KEY)), Err(KeyFault::PrivateMissing));
}

#[test]
fn missing_public_key_file_is_told() {
    assert_eq!(check_key_pair(Some("whatever"), None), Err(KeyFault::PublicMissing));
    assert_eq!(check_key_pair(Some(&private_key_file()), None), Err(KeyFault::PublicMissing));
}

#[test]
fn invalid_private_key_is_told_before_the_public_key() {
    match check_key_pair(Some("no key"), Some("no key either")) {
        Err(KeyFault::PrivateInvalid(error)) => {
            assert!(!error.is_empty());
            assert_ne!(error, "no key");
            assert_eq!(error, ssh_key::PrivateKey::from_openssh("no key").unwrap_err().to_string());
        },
        other => panic!("{:?}", other),
    }
    assert!(matches!(
        check_key_pair(Some(""), Some(PUBLIC_KEY)),
        Err(KeyFault::PrivateInvalid(_))
    ));
}

#[test]
fn invalid_public_key_is_told() {
    match check_key_pair(Some(&private_key_file()), Some("ssh-ed25519 AAAA")) {
        Err(KeyFault::PublicInvalid(error)) => {
            assert!(!error.is_empty());
            assert_eq!(
                error,
                ssh_key::PublicKey::from_openssh("ssh-ed25519 AAAA").unwrap_err().to_string()
            );
        },
        other => panic!("{:?}", other),
    }
    assert!(matches!(
        check_key_pair(Some(&private_key_file()), Some("")),
        Err(KeyFault::PublicInvalid(_))
    ));
}

#[test]
fn good_pair_gives_the_public_key_as_registered() {
    assert_eq!(
        check_key_pair(Some(&private_key_file()), Some(PUBLIC_KEY)),
        Ok(PUBLIC_KEY.to_string())
    );
}

#[test]
fn public_key_is_written_anew() {
    let file = format!("{}\n", PUBLIC_KEY);
    assert_eq!(check_key_pair(Some(&private_key_file()), Some(&file)), Ok(PUBLIC_KEY.to_string()));
    let spaced = format!("{}  \r\n\n", PUBLIC_KEY);
    assert_eq!(check_key_pair(Some(&private_key_file()), Some(&spaced)), Ok(PUBLIC_KEY.to_string()));
}

#[test]
fn pair_is_judged_from_what_was_made_of_the_files() {
    assert_eq!(judge_key_pair(None, Ok("key".to_string())), Ok("key".to_string()));
    assert_eq!(
        judge_key_pair(None, Err("bad".to_string())),
        Err(KeyFault::PublicInvalid("bad".to_string()))
    );
    assert_eq!(
        judge_key_pair(Some("worse".to_string()), Ok("key".to_string())),
        Err(KeyFault::PrivateInvalid("worse".to_string()))
    );
    assert_eq!(
        judge_key_pair(Some("worse".to_string()), Err("bad".to_string())),
        Err(KeyFault::PrivateInvalid("worse".to_string()))
    );
}

#[test]
fn key_faults_are_told_with_the_path() {
    assert_eq!(
        KeyFault::PrivateMissing.describe("/home/op/.ssh/id_rsa"),
        "The ssh private key file \"/home/op/.ssh/id_rsa\" does not exist"
    );
    assert_eq!(
        KeyFault::PublicMissing.describe("/home/op/.ssh/id_rsa"),
        "The ssh public key file \"/home/op/.ssh/id_rsa.pub\" does not exist"
    );
    assert_eq!(
        KeyFault::PrivateInvalid("bad pem".to_string()).describe("/k"),
        "the private key is invalid: bad pem"
    );
    assert_eq!(
        KeyFault::PublicInvalid("bad text".to_string()).describe("/k"),
        "the public key is invalid: bad text"
    );
}

#[test]
fn identity_is_made_of_its_parts() {
    assert_eq!(
        ClientIdentity::new("id".to_string(), "key".to_string()),
        ClientIdentity { id: "id".to_string(), public_key: "key".to_string() }
    );
}

use rustkvm::dev_mode::{set_ssh_key_state, validate_ssh_key, KeyFault, SshKeyAction, SshKeyError};
use rustkvm::edid::{
    edid_block_count, edid_hex, edid_update_from_hex, fix_edid_checksum, prepare_edid, EdidError,
    DEFAULT_EDID_HEX,
};
use rustkvm::time_sync::{corrected_time, time_from_answer, time_sync_urls};

const KEY: &str = "ssh-ed25519 AAA user@host";

#[test]
fn ssh_key_with_base64_blob_is_accepted() {
    let key = "ssh-ed25519 AAAAC3NzaC1lZDI1NTE5 user@host";
    assert_eq!(validate_ssh_key(key), Ok(()));
    assert_eq!(validate_ssh_key(&format!("# comment\n\n{}\n", key)), Ok(()));
    assert_eq!(set_ssh_key_state(key), Ok(SshKeyAction::Write));
}

#[test]
fn ssh_key_faults() {
    assert_eq!(
        validate_ssh_key("ssh-dss AAAA"),
        Err(SshKeyError::Invalid(Some(KeyFault::UnsupportedType("ssh-dss".to_string()))))
    );
    assert_eq!(validate_ssh_key("ssh-rsa"), Err(SshKeyError::Invalid(Some(KeyFault::MissingBlob))));
    assert_eq!(validate_ssh_key(KEY), Err(SshKeyError::Invalid(Some(KeyFault::MalformedBlob))));
    assert_eq!(validate_ssh_key("# only a comment"), Err(SshKeyError::Invalid(None)));
    assert_eq!(
        validate_ssh_key("ssh-rsa\nssh-ed25519 AAAAC3NzaC1lZDI1NTE5"),
        Ok(())
    );
    assert_eq!(set_ssh_key_state(""), Ok(SshKeyAction::Remove));
    assert!(set_ssh_key_state("garbage").is_err());
}

#[test]
fn time_servers_come_from_the_environment_or_defaults() {
    assert_eq!(
        time_sync_urls(Some(" http://a/ , ,http://b/,")),
        vec!["http://a/".to_string(), "http://b/".to_string()]
    );
    assert!(time_sync_urls(Some("")).is_empty());
    let d = time_sync_urls(None);
    assert_eq!(d.len(), 3);
    assert_eq!(d[0], "http://www.gstatic.com/generate_204");
}

#[test]
fn time_is_corrected_by_half_the_round_trip() {
    assert_eq!(corrected_time(10, 3_000), 10_000_001_500);
    assert_eq!(
        time_from_answer(Some("Sun, 06 Nov 1994 08:49:37 GMT"), 2_000_000_000),
        Some(784_111_777 * 1_000_000_000 + 1_000_000_000)
    );
    assert_eq!(time_from_answer(Some("yesterday"), 0), None);
    assert_eq!(time_from_answer(None, 0), None);
}

#[test]
fn edid_checksums_make_each_block_sum_to_zero() {
    let mut e = vec![1u8; 256];
    fix_edid_checksum(&mut e);
    assert_eq!(e[127], (256 - 127) as u8);
    assert_eq!(e[255], (256 - 127) as u8);
    let sum: u32 = e[..128].iter().map(|b| *b as u32).sum();
    assert_eq!(sum % 256, 0);
    assert_eq!(edid_block_count(256), 2);
    assert_eq!(prepare_edid(&[0u8; 100]), Err(EdidError::BadSize(100)));
    let p = prepare_edid(&[0u8; 128]).unwrap();
    assert_eq!(p[127], 0);
}

#[test]
fn edid_hex_is_decoded_and_checked() {
    let d = edid_update_from_hex("").unwrap();
    assert_eq!(d.bytes.len(), 256);
    assert_eq!(d.saved_hex, DEFAULT_EDID_HEX);
    let upper = "AB".repeat(128);
    let u = edid_update_from_hex(&upper).unwrap();
    assert_eq!(u.bytes[0], 0xAB);
    assert_eq!(u.bytes[127], (256u32 - (127 * 0xAB) % 256) as u8);
    assert_eq!(u.saved_hex, "ab".repeat(128));
    assert!(matches!(edid_update_from_hex(&"00".repeat(257)), Err(EdidError::TooLong)));
    assert!(matches!(edid_update_from_hex("0g"), Err(EdidError::InvalidFormat)));
    assert!(matches!(edid_update_from_hex("abc"), Err(EdidError::InvalidFormat)));
    assert!(matches!(edid_update_from_hex("0011"), Err(EdidError::BadSize(2))));
}

#[test]
fn edid_bytes_are_sent_as_lower_case_hex() {
    assert_eq!(edid_hex(&[0x00, 0xab, 0x0f]), "00ab0f");
    assert_eq!(edid_hex(&[]), "");
    assert_eq!(edid_hex(&[0xff, 0x10]), "ff10");
}

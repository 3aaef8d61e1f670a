use acos5::decision::{common_read_decide, common_update_decide, delete_file_commit,
    delete_file_decide, AccessDecision};
use acos5::fci::{se_parse_sae, FCI};
use acos5::mirror::{FDB_DF, FDB_MF, FDB_SE_FILE, FDB_TRANSPARENT_EF};
use acos5::ops::{create_file_commit, enum_dir_visit, process_fci_update, register_enumerated_file};
use acos5::rv::{
    check_status, SC_ERROR_CARD_CMD_FAILED, SC_ERROR_FILE_NOT_FOUND, SC_ERROR_NOT_ALLOWED,
    SC_ERROR_SECURITY_STATUS_NOT_SATISFIED, SC_ERROR_WRONG_LENGTH, SC_SUCCESS,
};
use acos5::se::se_parse_sac;
use acos5::se::get_known_sec_env_entry_v3_fips;
use acos5::se::se_get_is_scb_suitable_for_sm_has_ct;
use acos5::select::{
    build_select_command, select_file_by_path, tracking_select_file, SC_PATH_TYPE_FILE_ID,
    SC_PATH_TYPE_PATH,
};
use acos5::session::{
    get_files_hashmap_info, get_is_running_cmd_long_response, set_is_running_cmd_long_response,
    Session,
};
use acos5::status::{interpret_get_response_status, FetchOutcome};
use acos5::algos::{SC_ALGORITHM_AES, SC_ALGORITHM_RSA, SC_SEC_OPERATION_SIGN};
use acos5::decision::build_erase_binary_range;
use acos5::rv::{SC_ERROR_NOT_SUPPORTED, SC_ERROR_NO_CARD_SUPPORT};
use acos5::secenv::{
    get_sec_env_mod_len, set_security_env_plan, SecurityEnv, SC_ALGORITHM_AES_CBC,
    SC_SEC_ENV_ALG_PRESENT, SC_SEC_ENV_ALG_REF_PRESENT, SC_SEC_ENV_FILE_REF_PRESENT,
    SC_SEC_ENV_KEY_REF_PRESENT, SC_SEC_ENV_KEY_REF_SYMMETRIC, SC_SEC_OPERATION_DERIVE,
    SC_SEC_OPERATION_ENCIPHER_SYMMETRIC,
};
use acos5::session::pin_get_policy;
use acos5::cards::{acos5_supported_atrs, acos5_supported_ec_curves};
use acos5::decision::pin_cmd_decide;
use acos5::fci::{fci_envelope_body, sae_scb_for_command};
use acos5::ops::process_fci;
use acos5::rv::{
    SC_ERROR_INVALID_ARGUMENTS, SC_ERROR_KEYPAD_MSG_TOO_LONG, SC_ERROR_UNKNOWN_DATA_RECEIVED,
    SC_ERROR_WRONG_PADDING,
};
use acos5::select::{acos5_select_file_check, SC_PATH_TYPE_PARENT};
use acos5::session::mark_mf_absent;
use acos5::sign::{decipher_output, strip_01_padding};
use acos5::sign::{
    compute_signature_route, emsa_pkcs1_v15_encode, signature_input_admissible, with_digest_info,
    SignatureRoute, SC_ALGORITHM_RSA_PAD_PKCS1, SC_ALGORITHM_RSA_RAW,
};

/// Builds a session whose mirror holds the tree 3F00 { 4100 { 4101 } },
/// every file visited and its header folded in; 4101's read slot carries
/// `read_scb`.
fn session_with_tree(read_scb: u8) -> Session {
    let mut card = Session::new();
    assert_eq!(register_enumerated_file(&mut card, [FDB_MF, 0, 0x3F, 0x00, 0, 0, 0, 0]), SC_SUCCESS);
    assert_eq!(register_enumerated_file(&mut card, [FDB_DF, 0, 0x41, 0x00, 0, 0, 0, 0]), SC_SUCCESS);
    assert_eq!(
        register_enumerated_file(&mut card, [FDB_TRANSPARENT_EF, 0, 0x41, 0x01, 0, 0x20, 0, 0]),
        SC_SUCCESS
    );
    assert_eq!(enum_dir_visit(&mut card, vec![0x3F00]), SC_SUCCESS);
    assert_eq!(enum_dir_visit(&mut card, vec![0x3F00, 0x4100]), SC_SUCCESS);
    assert_eq!(enum_dir_visit(&mut card, vec![0x3F00, 0x4100, 0x4101]), SC_SUCCESS);
    let ef_header = FCI {
        fdb: FDB_TRANSPARENT_EF,
        fid: 0x4101,
        size: 0x20,
        lcsi: 5,
        df_name: vec![],
        scb8: [read_scb, 0, 0, 0, 0, 0xFF, 0, 0xFF],
        sae: vec![],
        seid: 0,
        mrl: 0,
        nor: 0,
    };
    assert_eq!(process_fci_update(&mut card, 0x4101, ef_header), SC_SUCCESS);
    card.is_running_init = false;
    card
}

#[test]
fn read_of_forbidden_file_is_refused_without_transport() {
    // Enumerated tree with 4101's read slot forbidden: the read decision
    // is a refusal with missing authorization, before any read command
    // could be issued.
    let mut card = session_with_tree(0xFF);
    card.current_path = vec![0x3F00, 0x4100, 0x4101];
    let decision = common_read_decide(&card, true);
    assert_eq!(decision, AccessDecision::Deny { rv: SC_ERROR_SECURITY_STATUS_NOT_SATISFIED });
}

#[test]
fn read_of_free_file_executes() {
    let mut card = session_with_tree(0x00);
    card.current_path = vec![0x3F00, 0x4100, 0x4101];
    assert_eq!(common_read_decide(&card, true), AccessDecision::Execute);
}

#[test]
fn read_demanding_unavailable_secure_messaging_is_refused() {
    // The read slot demands secure messaging under environment 2, but no
    // security-environment records are cached for the directory.
    let mut card = session_with_tree(0x42);
    card.current_path = vec![0x3F00, 0x4100, 0x4101];
    assert_eq!(
        common_read_decide(&card, false),
        AccessDecision::Deny { rv: SC_ERROR_SECURITY_STATUS_NOT_SATISFIED }
    );
}

#[test]
fn read_through_secure_messaging_when_environment_offers_it() {
    let mut card = session_with_tree(0x42);
    // The directory's security-environment file offers, under reference 2,
    // both an authenticating and an enciphering template (the fixed
    // records of the FIPS-constrained variant).
    let mut rec = [0u8; 33];
    get_known_sec_env_entry_v3_fips(true, 2, &mut rec);
    let parsed = se_parse_sac(&rec).unwrap();
    assert_eq!(parsed.reference, 2);
    assert_eq!(card.mirror.mark_sac(0x4100, vec![parsed]), SC_SUCCESS);
    card.current_path = vec![0x3F00, 0x4100, 0x4101];
    assert_eq!(
        common_read_decide(&card, false),
        AccessDecision::ExecuteViaSecureChannel { enciphered: true }
    );
}

#[test]
fn fips_record_without_sm_templates_is_not_suitable() {
    let mut rec = [0u8; 33];
    get_known_sec_env_entry_v3_fips(true, 1, &mut rec);
    let parsed = se_parse_sac(&rec).unwrap();
    let records = vec![parsed];
    assert_eq!(se_get_is_scb_suitable_for_sm_has_ct(&records, 1), (false, false));
}

#[test]
fn update_append_restricted_to_record_files() {
    // A record update at index zero is an append; a transparent file
    // cannot take one.
    let mut card = session_with_tree(0x00);
    card.current_path = vec![0x3F00, 0x4100, 0x4101];
    assert_eq!(
        common_update_decide(&card, 0, false),
        AccessDecision::Deny { rv: SC_ERROR_NOT_ALLOWED }
    );
    assert_eq!(common_update_decide(&card, 0, true), AccessDecision::Execute);
}

#[test]
fn creating_duplicate_identifier_is_refused_and_mirror_unchanged() {
    let mut card = session_with_tree(0x00);
    card.current_path = vec![0x3F00, 0x4100];
    let before = card.mirror.files.len();
    // 4101 already stands in the mirror: the creation must be refused and
    // the mirror must not change.
    assert_eq!(
        create_file_commit(&mut card, 0x4101, FDB_TRANSPARENT_EF, 0, 0, 0x40),
        SC_ERROR_NOT_ALLOWED
    );
    assert_eq!(card.mirror.files.len(), before);
    // A fresh identifier is registered under the cursor's directory.
    assert_eq!(create_file_commit(&mut card, 0x4102, FDB_TRANSPARENT_EF, 0, 0, 0x40), SC_SUCCESS);
    assert_eq!(card.mirror.files.len(), before + 1);
    let rec = card.mirror.lookup(0x4102).unwrap();
    assert_eq!(rec.path, vec![0x3F00, 0x4100, 0x4102]);
    assert_eq!(rec.info, [FDB_TRANSPARENT_EF, 6, 0x41, 0x02, 0x00, 0x40, 0xFF, 1]);
}

#[test]
fn duplicate_identifier_during_enumeration_is_fatal() {
    let mut card = session_with_tree(0x00);
    let before = card.mirror.files.len();
    assert_eq!(
        register_enumerated_file(&mut card, [FDB_SE_FILE, 0, 0x41, 0x01, 0, 0, 0, 0]),
        SC_ERROR_NOT_ALLOWED
    );
    assert_eq!(card.mirror.files.len(), before);
}

#[test]
fn prefix_skip_issues_exactly_one_select() {
    // Cursor already at 3F00/4100: selecting 3F00/4100/4101 issues one
    // select, for segment 4101 alone — not three.
    let mut card = session_with_tree(0x00);
    card.current_path = vec![0x3F00, 0x4100];
    let plan = select_file_by_path(&card, &vec![0x3F00, 0x4100, 0x4101]).unwrap();
    assert_eq!(plan, vec![0x4101]);
}

#[test]
fn selecting_a_directory_again_is_not_skipped() {
    // Even when the target is the directory the cursor stands in, its
    // final segment is still selected: the chip's select also clears
    // accumulated security state, so it must reach the card.
    let mut card = session_with_tree(0x00);
    card.current_path = vec![0x3F00, 0x4100];
    let plan = select_file_by_path(&card, &vec![0x3F00, 0x4100]).unwrap();
    assert_eq!(plan, vec![0x4100]);
}

#[test]
fn select_from_unselected_state_walks_the_whole_path() {
    let card = session_with_tree(0x00);
    let plan = select_file_by_path(&card, &vec![0x3F00, 0x4100, 0x4101]).unwrap();
    assert_eq!(plan, vec![0x3F00, 0x4100, 0x4101]);
}

#[test]
fn prefix_skip_reaches_the_same_state_as_walking_from_root() {
    // Running the planned tail from the prefix cursor and running the
    // whole path from an unselected session end with the same cursor and
    // the same mirror.
    let mut skipping = session_with_tree(0x00);
    skipping.current_path = vec![0x3F00, 0x4100];
    let plan = select_file_by_path(&skipping, &vec![0x3F00, 0x4100, 0x4101]).unwrap();
    for id in plan {
        assert_eq!(tracking_select_file(&mut skipping, id, SC_SUCCESS), SC_SUCCESS);
    }

    let mut from_root = session_with_tree(0x00);
    for id in [0x3F00u16, 0x4100, 0x4101] {
        assert_eq!(tracking_select_file(&mut from_root, id, SC_SUCCESS), SC_SUCCESS);
    }

    assert_eq!(skipping.current_path, from_root.current_path);
    assert_eq!(skipping.mirror.files.len(), from_root.mirror.files.len());
    for (id, rec) in &skipping.mirror.files {
        let other = from_root.mirror.lookup(*id).unwrap();
        assert_eq!(rec.path, other.path);
        assert_eq!(rec.info, other.info);
        assert_eq!(rec.scb8, other.scb8);
    }
}

#[test]
fn cursor_follows_successful_select() {
    let mut card = session_with_tree(0x00);
    assert_eq!(tracking_select_file(&mut card, 0x4101, SC_SUCCESS), SC_SUCCESS);
    assert_eq!(card.current_path, vec![0x3F00, 0x4100, 0x4101]);
}

#[test]
fn cursor_unchanged_on_failed_select() {
    let mut card = session_with_tree(0x00);
    card.current_path = vec![0x3F00, 0x4100];
    assert_eq!(
        tracking_select_file(&mut card, 0x4101, SC_ERROR_FILE_NOT_FOUND),
        SC_ERROR_FILE_NOT_FOUND
    );
    assert_eq!(card.current_path, vec![0x3F00, 0x4100]);
    assert_eq!(
        tracking_select_file(&mut card, 0x4101, SC_ERROR_WRONG_LENGTH),
        SC_ERROR_WRONG_LENGTH
    );
    assert_eq!(card.current_path, vec![0x3F00, 0x4100]);
}

#[test]
fn cursor_moves_even_when_the_chip_reports_failure_after_moving() {
    // On a command failure or missing authorization the chip has already
    // moved its internal pointer: the mirror cursor follows.
    let mut card = session_with_tree(0x00);
    card.current_path = vec![0x3F00, 0x4100];
    assert_eq!(
        tracking_select_file(&mut card, 0x4101, SC_ERROR_CARD_CMD_FAILED),
        SC_ERROR_CARD_CMD_FAILED
    );
    assert_eq!(card.current_path, vec![0x3F00, 0x4100, 0x4101]);
}

#[test]
fn scb_is_cached_once_and_never_changes() {
    // A later select of the same file with different header data leaves
    // the cached Security-Condition Bytes as they were.
    let mut card = session_with_tree(0x03);
    let first = card.mirror.lookup(0x4101).unwrap().scb8;
    assert_eq!(first, Some([0x03, 0, 0, 0, 0, 0xFF, 0, 0xFF]));
    let other_header = FCI {
        fdb: FDB_TRANSPARENT_EF,
        fid: 0x4101,
        size: 0x20,
        lcsi: 5,
        df_name: vec![],
        scb8: [0x45, 1, 2, 3, 4, 5, 6, 7],
        sae: vec![],
        seid: 0,
        mrl: 0,
        nor: 0,
    };
    assert_eq!(process_fci_update(&mut card, 0x4101, other_header), SC_SUCCESS);
    assert_eq!(card.mirror.lookup(0x4101).unwrap().scb8, first);
}

#[test]
fn delete_decision_and_commit() {
    let mut card = session_with_tree(0x00);
    // 4101's delete-self slot is free in the enumerated header.
    assert_eq!(delete_file_decide(&card, 0x4101), AccessDecision::Execute);
    card.current_path = vec![0x3F00, 0x4100, 0x4101];
    assert_eq!(delete_file_commit(&mut card, 0x4101), SC_SUCCESS);
    assert!(card.mirror.lookup(0x4101).is_none());
    assert_eq!(card.current_path, vec![0x3F00, 0x4100]);
}

#[test]
fn get_response_flag_is_consumed_once() {
    let mut card = Session::new();
    set_is_running_cmd_long_response(&mut card, true);
    assert!(get_is_running_cmd_long_response(&card));
    assert_eq!(
        interpret_get_response_status(&mut card, 0x90, 0x00),
        FetchOutcome::MoreDataExpected { next: 256 }
    );
    assert!(!get_is_running_cmd_long_response(&card));
    assert_eq!(interpret_get_response_status(&mut card, 0x90, 0x00), FetchOutcome::NoMoreData);
    assert_eq!(interpret_get_response_status(&mut card, 0x6A, 0x88), FetchOutcome::NoDataAvailable);
    assert_eq!(
        interpret_get_response_status(&mut card, 0x69, 0x82),
        FetchOutcome::Error { rv: SC_ERROR_SECURITY_STATUS_NOT_SATISFIED }
    );
}

#[test]
fn status_word_table() {
    assert_eq!(check_status(0x90, 0x00), SC_SUCCESS);
    assert_eq!(check_status(0x61, 0x10), SC_SUCCESS);
    assert_eq!(check_status(0x62, 0x83), SC_ERROR_CARD_CMD_FAILED);
    assert_eq!(check_status(0x67, 0x00), SC_ERROR_WRONG_LENGTH);
    assert_eq!(check_status(0x69, 0x82), SC_ERROR_SECURITY_STATUS_NOT_SATISFIED);
    assert_eq!(check_status(0x69, 0x86), SC_ERROR_NOT_ALLOWED);
    assert_eq!(check_status(0x6A, 0x82), SC_ERROR_FILE_NOT_FOUND);
    assert_eq!(check_status(0x6A, 0x86), acos5::rv::SC_ERROR_INCORRECT_PARAMETERS);
    assert_eq!(check_status(0x12, 0x34), SC_ERROR_CARD_CMD_FAILED);
}

#[test]
fn select_command_parameters() {
    let cmd = build_select_command(SC_PATH_TYPE_FILE_ID, &vec![0x41, 0x01], false).unwrap();
    assert_eq!((cmd.p1, cmd.p2), (0, 0));
    assert_eq!(cmd.data, vec![0x41, 0x01]);
    // A full path keeps the root selection when it names the root alone,
    // and strips the leading root otherwise.
    let cmd = build_select_command(SC_PATH_TYPE_PATH, &vec![0x3F, 0x00], true).unwrap();
    assert_eq!(cmd.p1, 0);
    assert_eq!(cmd.data, vec![0x3F, 0x00]);
    let cmd = build_select_command(SC_PATH_TYPE_PATH, &vec![0x3F, 0x00, 0x41, 0x00], true).unwrap();
    assert_eq!(cmd.p1, 8);
    assert_eq!(cmd.data, vec![0x41, 0x00]);
    assert!(build_select_command(SC_PATH_TYPE_FILE_ID, &vec![0x41], false).is_err());
}

#[test]
fn mirror_report_layout() {
    let card = session_with_tree(0x00);
    let rbuf = get_files_hashmap_info(&card, 0x4101).unwrap();
    assert_eq!(rbuf[0], FDB_TRANSPARENT_EF);
    assert_eq!(&rbuf[2..4], &[0x41, 0x01]);
    assert_eq!(&rbuf[8..14], &[0x3F, 0x00, 0x41, 0x00, 0x41, 0x01]);
    assert_eq!(rbuf[24], 0x00);
    assert_eq!(rbuf[29], 0xFF);
    assert_eq!(get_files_hashmap_info(&card, 0x5555), Err(SC_ERROR_FILE_NOT_FOUND));
}

#[test]
fn security_environment_modulus_length() {
    let mut card = session_with_tree(0x00);
    // An RSA private key file of 1285 bytes: five half-modulus blocks of
    // 256 bytes behind a five-byte header, so a 512-byte modulus.
    assert_eq!(
        register_enumerated_file(&mut card, [0x09, 0, 0x41, 0xF1, 0x05, 0x05, 0, 0]),
        SC_SUCCESS
    );
    let env = SecurityEnv {
        operation: SC_SEC_OPERATION_SIGN,
        algorithm: SC_ALGORITHM_RSA,
        algorithm_flags: 0,
        algorithm_ref: 0,
        flags: SC_SEC_ENV_FILE_REF_PRESENT,
        file_ref: vec![0x3F, 0x00, 0x41, 0x00, 0x41, 0xF1],
        key_ref: 0,
        iv: vec![],
    };
    let cmds = set_security_env_plan(&mut card, env).unwrap();
    // Signing binds a signature template and, for the decipher-based
    // fallback, a confidentiality template.
    assert_eq!(cmds.len(), 2);
    assert_eq!(
        cmds[0],
        vec![0x00, 0x22, 0x01, 0xB6, 0x0A, 0x80, 0x01, 0x10, 0x81, 0x02, 0x41, 0xF1, 0x95, 0x01, 0x40]
    );
    assert_eq!(
        cmds[1],
        vec![0x00, 0x22, 0x01, 0xB8, 0x0A, 0x80, 0x01, 0x13, 0x81, 0x02, 0x41, 0xF1, 0x95, 0x01, 0x40]
    );
    // 0x0505 = 1285 bytes: (1285 - 5) * 2 / 5 = 512, a multiple of 32.
    assert_eq!(get_sec_env_mod_len(&card), 512);
}

#[test]
fn security_environment_symmetric_command() {
    let mut card = Session::new();
    let env = SecurityEnv {
        operation: SC_SEC_OPERATION_ENCIPHER_SYMMETRIC,
        algorithm: SC_ALGORITHM_AES,
        algorithm_flags: SC_ALGORITHM_AES_CBC,
        algorithm_ref: 0x06,
        flags: SC_SEC_ENV_ALG_PRESENT | SC_SEC_ENV_ALG_REF_PRESENT | SC_SEC_ENV_KEY_REF_PRESENT
            | SC_SEC_ENV_KEY_REF_SYMMETRIC,
        file_ref: vec![],
        key_ref: 0x83,
        iv: (1..=16).collect(),
    };
    let cmds = set_security_env_plan(&mut card, env).unwrap();
    assert_eq!(cmds.len(), 1);
    let mut expected = vec![0x00, 0x22, 0x01, 0xB8, 27, 0x95, 0x01, 0xC0, 0x80, 0x01, 0x06, 0x83,
        0x01, 0x83, 0x87, 16];
    expected.extend(1..=16u8);
    assert_eq!(cmds[0], expected);
}

#[test]
fn derive_operation_is_unsupported() {
    let mut card = Session::new();
    let mut env = SecurityEnv::new();
    env.operation = SC_SEC_OPERATION_DERIVE;
    assert_eq!(set_security_env_plan(&mut card, env), Err(SC_ERROR_NO_CARD_SUPPORT));
}

#[test]
fn erase_range_is_clamped_to_the_file() {
    assert_eq!(build_erase_binary_range(0, 10, 100), Some((0, Some(10))));
    assert_eq!(build_erase_binary_range(90, 10, 100), Some((90, None)));
    assert_eq!(build_erase_binary_range(90, 200, 100), Some((90, None)));
    assert_eq!(build_erase_binary_range(95, 5, 100), Some((95, None)));
    assert_eq!(build_erase_binary_range(100, 10, 100), None);
    assert_eq!(build_erase_binary_range(100, 0, 100), None);
    // A zero count inside the file still names an (empty) range; the
    // clamping rule cuts only ranges that would run past the end.
    assert_eq!(build_erase_binary_range(10, 0, 100), Some((10, Some(10))));
}

#[test]
fn pin_policy_bounds() {
    let policy = pin_get_policy();
    assert_eq!(policy.min_length, 4);
    assert_eq!(policy.max_length, 8);
    assert_eq!(policy.stored_length, 8);
    assert!(policy.ascii_numeric);
}

#[test]
fn symmetric_environment_demands_its_references() {
    let mut card = Session::new();
    // A symmetric operation without the symmetric-key flag is refused.
    let env = SecurityEnv {
        operation: SC_SEC_OPERATION_ENCIPHER_SYMMETRIC,
        algorithm: SC_ALGORITHM_AES,
        algorithm_flags: SC_ALGORITHM_AES_CBC,
        algorithm_ref: 0x06,
        flags: SC_SEC_ENV_ALG_PRESENT | SC_SEC_ENV_ALG_REF_PRESENT | SC_SEC_ENV_KEY_REF_PRESENT,
        file_ref: vec![],
        key_ref: 0x83,
        iv: (1..=16).collect(),
    };
    assert_eq!(set_security_env_plan(&mut card, env), Err(SC_ERROR_NOT_SUPPORTED));
    // A chaining mode without an initial vector of the block length is
    // refused as well.
    let env = SecurityEnv {
        operation: SC_SEC_OPERATION_ENCIPHER_SYMMETRIC,
        algorithm: SC_ALGORITHM_AES,
        algorithm_flags: SC_ALGORITHM_AES_CBC,
        algorithm_ref: 0x06,
        flags: SC_SEC_ENV_ALG_PRESENT | SC_SEC_ENV_ALG_REF_PRESENT | SC_SEC_ENV_KEY_REF_PRESENT
            | SC_SEC_ENV_KEY_REF_SYMMETRIC,
        file_ref: vec![],
        key_ref: 0x83,
        iv: vec![1, 2, 3],
    };
    assert_eq!(set_security_env_plan(&mut card, env), Err(SC_ERROR_NOT_SUPPORTED));
}

#[test]
fn signature_requests_are_routed_by_digest() {
    // A bare SHA-1 hash is wrapped into its DigestInfo and signed
    // natively; the hash itself starts after the fifteen-byte prefix.
    let hash = [0xABu8; 20];
    let di = with_digest_info(&hash);
    assert_eq!(di.len(), 35);
    assert_eq!(&di[..4], &[0x30, 0x21, 0x30, 0x09]);
    assert_eq!(
        compute_signature_route(&di, 20, 512, SC_ALGORITHM_RSA_PAD_PKCS1),
        SignatureRoute::Native { hash_offset: 15 }
    );
    // A bare SHA-256 hash likewise.
    let di = with_digest_info(&[0xCDu8; 32]);
    assert_eq!(di.len(), 51);
    assert_eq!(
        compute_signature_route(&di, 32, 512, 0),
        SignatureRoute::Native { hash_offset: 19 }
    );
    // A SHA-384 DigestInfo is not signed natively: with PKCS#1 padding
    // demanded it falls back to the encoded decipher path.
    let mut sha384 = vec![
        0x30, 0x41, 0x30, 0x0D, 0x06, 0x09, 0x60, 0x86, 0x48, 0x01, 0x65, 0x03, 0x04, 0x02, 0x02,
        0x05, 0x00, 0x04, 0x30,
    ];
    sha384.extend(std::iter::repeat(0x11).take(48));
    assert_eq!(
        compute_signature_route(&sha384, 67, 512, SC_ALGORITHM_RSA_PAD_PKCS1),
        SignatureRoute::ViaDecipherEncoded
    );
    // Under a raw environment the fallback demands a modulus-sized block.
    assert_eq!(
        compute_signature_route(&sha384, 512, 512, SC_ALGORITHM_RSA_RAW),
        SignatureRoute::ViaDecipherRaw
    );
    assert_eq!(
        compute_signature_route(&sha384, 67, 512, SC_ALGORITHM_RSA_RAW),
        SignatureRoute::Nothing
    );
    // A block that is no recognized DigestInfo is never deciphered on
    // behalf of a signature.
    let junk = [0x55u8; 64];
    assert_eq!(
        compute_signature_route(&junk, 64, 512, SC_ALGORITHM_RSA_PAD_PKCS1),
        SignatureRoute::Nothing
    );
    // Inadmissible input lengths are refused up front.
    assert!(signature_input_admissible(20, 512).is_ok());
    assert!(signature_input_admissible(512, 512).is_ok());
    assert!(signature_input_admissible(64, 512).is_err());
}

#[test]
fn emsa_block_layout() {
    let di = [0x30u8, 0x21, 0x05];
    let block = emsa_pkcs1_v15_encode(&di, 16).unwrap();
    assert_eq!(block, vec![0x00, 0x01, 0xFF, 0xFF, 0xFF, 0xFF, 0xFF, 0xFF, 0xFF, 0xFF, 0xFF, 0xFF,
        0x00, 0x30, 0x21, 0x05]);
    // A modulus too small for the DigestInfo and the mandatory fill is
    // refused.
    assert!(emsa_pkcs1_v15_encode(&[0u8; 6], 16).is_err());
}

#[test]
fn header_with_bad_security_conditions_is_reported_not_cached() {
    let mut card = session_with_tree(0x00);
    // 4100's conditions were never parsed yet.
    assert!(card.mirror.lookup(0x4100).unwrap().scb8.is_none());
    // An SAC value whose set-bit count disagrees with the bytes that
    // follow is the codec's error, handed through unchanged; nothing is
    // cached.
    let bad_sac = [0x83, 0x02, 0x41, 0x00, 0x8C, 0x03, 0x7F, 0x01, 0x02];
    assert_eq!(process_fci(&mut card, 0x4100, &bad_sac), SC_ERROR_KEYPAD_MSG_TOO_LONG);
    assert!(card.mirror.lookup(0x4100).unwrap().scb8.is_none());
    // A header without the mandatory SAC value is unknown data.
    let no_sac = [0x83, 0x02, 0x41, 0x00, 0x8A, 0x01, 0x05];
    assert_eq!(process_fci(&mut card, 0x4100, &no_sac), SC_ERROR_UNKNOWN_DATA_RECEIVED);
    assert!(card.mirror.lookup(0x4100).unwrap().scb8.is_none());
    // A well-formed header is folded in.
    let good = [0x83, 0x02, 0x41, 0x00, 0x82, 0x02, 0x38, 0x00, 0x8A, 0x01, 0x05, 0x8C, 0x01,
        0x00, 0x8D, 0x02, 0x41, 0x03];
    assert_eq!(process_fci(&mut card, 0x4100, &good), SC_SUCCESS);
    assert_eq!(
        card.mirror.lookup(0x4100).unwrap().scb8,
        Some([0, 0, 0, 0, 0, 0, 0, 0xFF])
    );
}

#[test]
fn creating_identifier_zero_is_invalid() {
    let mut card = session_with_tree(0x00);
    card.current_path = vec![0x3F00, 0x4100];
    let before = card.mirror.files.len();
    assert_eq!(
        create_file_commit(&mut card, 0x0000, FDB_TRANSPARENT_EF, 0, 0, 0x40),
        SC_ERROR_INVALID_ARGUMENTS
    );
    assert_eq!(card.mirror.files.len(), before);
}

#[test]
fn fips_records_carry_the_documented_templates() {
    // SEID 3 locally: the user PIN must be verified; nothing else.
    let mut rec = [0xAAu8; 33];
    get_known_sec_env_entry_v3_fips(true, 3, &mut rec);
    let mut expected = vec![0x80u8, 0x01, 0x03, 0xA4, 0x06, 0x83, 0x01, 0x81, 0x95, 0x01, 0x08];
    expected.extend(std::iter::repeat(0u8).take(22));
    assert_eq!(rec.to_vec(), expected);
    // SEID 2 globally carries the secure-messaging template pair.
    get_known_sec_env_entry_v3_fips(false, 2, &mut rec);
    assert_eq!(&rec[11..14], &[0xB4, 0x09, 0x80]);
    assert_eq!(&rec[22..25], &[0xB8, 0x09, 0x80]);
}

#[test]
fn selections_are_screened_before_any_exchange() {
    // An uninitialized session (no cursor yet) takes no selection.
    let fresh = Session::new();
    assert_eq!(
        acos5_select_file_check(&fresh, SC_PATH_TYPE_PATH, 6),
        Err(SC_ERROR_INVALID_ARGUMENTS)
    );
    let mut card = session_with_tree(0x00);
    card.current_path = vec![0x3F00];
    // Odd, empty and over-long paths, and a by-identifier request that is
    // not one identifier, are malformed.
    assert_eq!(acos5_select_file_check(&card, SC_PATH_TYPE_PATH, 5), Err(SC_ERROR_INVALID_ARGUMENTS));
    assert_eq!(acos5_select_file_check(&card, SC_PATH_TYPE_PATH, 0), Err(SC_ERROR_INVALID_ARGUMENTS));
    assert_eq!(acos5_select_file_check(&card, SC_PATH_TYPE_PATH, 18), Err(SC_ERROR_INVALID_ARGUMENTS));
    assert_eq!(
        acos5_select_file_check(&card, SC_PATH_TYPE_FILE_ID, 4),
        Err(SC_ERROR_INVALID_ARGUMENTS)
    );
    // An addressing mode the chip does not offer is beyond this card.
    assert_eq!(
        acos5_select_file_check(&card, SC_PATH_TYPE_PARENT, 2),
        Err(SC_ERROR_NO_CARD_SUPPORT)
    );
    assert_eq!(acos5_select_file_check(&card, SC_PATH_TYPE_PATH, 6), Ok(()));
    // A card without a master file refuses every selection.
    mark_mf_absent(&mut card);
    assert_eq!(acos5_select_file_check(&card, SC_PATH_TYPE_PATH, 6), Err(SC_ERROR_NOT_ALLOWED));
}

#[test]
fn pin_commands_obey_the_expanded_conditions() {
    // Never allow unblock (INS 2C); change code (INS 24) only through
    // secure messaging with SCB 0x42.
    let sae_bytes = [0x84, 0x01, 0x2C, 0x97, 0x00, 0x84, 0x01, 0x24, 0x9E, 0x01, 0x42];
    let entries = se_parse_sae(&sae_bytes).unwrap();
    assert_eq!(sae_scb_for_command(&entries, &[0x00, 0x2C, 0x00, 0x81]), 0xFF);
    assert_eq!(sae_scb_for_command(&entries, &[0x00, 0x24, 0x00, 0x81]), 0x42);
    assert_eq!(sae_scb_for_command(&entries, &[0x00, 0x20, 0x00, 0x81]), 0x00);

    let mut card = session_with_tree(0x00);
    assert_eq!(card.mirror.mark_sae(0x4100, entries), SC_SUCCESS);
    card.current_path = vec![0x3F00, 0x4100];
    // The forbidden unblock never reaches the card.
    assert_eq!(
        pin_cmd_decide(&card, 0x2C, 0x00, 0x81),
        AccessDecision::Deny { rv: SC_ERROR_SECURITY_STATUS_NOT_SATISFIED }
    );
    // A verify is unnamed by the conditions: it runs plainly.
    assert_eq!(pin_cmd_decide(&card, 0x20, 0x00, 0x81), AccessDecision::Execute);
    // The change demands secure messaging under environment 2, which the
    // directory does not offer yet: refused.
    assert_eq!(
        pin_cmd_decide(&card, 0x24, 0x00, 0x81),
        AccessDecision::Deny { rv: SC_ERROR_SECURITY_STATUS_NOT_SATISFIED }
    );
    // With the environment's templates cached, it goes through secure
    // messaging, enciphered.
    let mut rec = [0u8; 33];
    get_known_sec_env_entry_v3_fips(true, 2, &mut rec);
    let parsed = se_parse_sac(&rec).unwrap();
    assert_eq!(card.mirror.mark_sac(0x4100, vec![parsed]), SC_SUCCESS);
    assert_eq!(
        pin_cmd_decide(&card, 0x24, 0x00, 0x81),
        AccessDecision::ExecuteViaSecureChannel { enciphered: true }
    );
}

#[test]
fn deciphered_blocks_are_unpadded_unless_raw_or_signing() {
    let mut block = vec![0x00u8, 0x02];
    block.extend(std::iter::repeat(0x7Fu8).take(9));
    block.push(0x00);
    block.extend_from_slice(&[0xDE, 0xAD, 0xBE, 0xEF]);
    // Serving a signature or a raw environment: the block as it is.
    assert_eq!(decipher_output(block.clone(), true, false), Ok(block.clone()));
    assert_eq!(decipher_output(block.clone(), false, true), Ok(block.clone()));
    // Otherwise the encryption padding is stripped.
    assert_eq!(decipher_output(block.clone(), false, false), Ok(vec![0xDE, 0xAD, 0xBE, 0xEF]));
    // A block that is not type-02 padded is refused, not handed out.
    let mut bad = block.clone();
    bad[1] = 0x01;
    assert_eq!(decipher_output(bad, false, false), Err(SC_ERROR_WRONG_PADDING));
    // Too short a fill is refused as well.
    let mut short_fill = vec![0x00u8, 0x02, 0x55, 0x00];
    short_fill.extend(std::iter::repeat(0x33u8).take(12));
    assert_eq!(decipher_output(short_fill, false, false), Err(SC_ERROR_WRONG_PADDING));
}

#[test]
fn raw_signature_blocks_are_unpadded_before_routing() {
    // A signing block: 00 01, fill of 0xFF, 00, then the DigestInfo.
    let mut sha384_di = vec![
        0x30u8, 0x41, 0x30, 0x0D, 0x06, 0x09, 0x60, 0x86, 0x48, 0x01, 0x65, 0x03, 0x04, 0x02,
        0x02, 0x05, 0x00, 0x04, 0x30,
    ];
    sha384_di.extend(std::iter::repeat(0x5Au8).take(48));
    let mut block = vec![0x00u8, 0x01];
    block.extend(std::iter::repeat(0xFFu8).take(512 - 3 - sha384_di.len()));
    block.push(0x00);
    block.extend_from_slice(&sha384_di);
    assert_eq!(block.len(), 512);
    let stripped = strip_01_padding(&block).unwrap();
    assert_eq!(stripped, sha384_di);
    // With the stripped DigestInfo, a raw modulus-sized request reaches
    // the decipher path.
    assert_eq!(
        compute_signature_route(&stripped, 512, 512, SC_ALGORITHM_RSA_RAW),
        SignatureRoute::ViaDecipherRaw
    );
    // A block without the signing padding is refused.
    let mut bad = block.clone();
    bad[1] = 0x02;
    assert_eq!(strip_01_padding(&bad), Err(SC_ERROR_WRONG_PADDING));
}

#[test]
fn select_responses_are_unwrapped_and_checked() {
    assert_eq!(fci_envelope_body(&[0x6F, 0x03, 0x8A, 0x01, 0x05]), Ok((2, 3)));
    assert_eq!(fci_envelope_body(&[0x62, 0x00]), Ok((2, 0)));
    // An unknown leading tag is unknown data, not a header.
    assert_eq!(fci_envelope_body(&[0x70, 0x01, 0x00]), Err(SC_ERROR_UNKNOWN_DATA_RECEIVED));
    assert_eq!(fci_envelope_body(&[0x6F]), Err(SC_ERROR_UNKNOWN_DATA_RECEIVED));
    // A length running past the response is refused too.
    assert_eq!(fci_envelope_body(&[0x6F, 0x04, 0x8A, 0x01]), Err(SC_ERROR_UNKNOWN_DATA_RECEIVED));
}

#[test]
fn announced_card_tables_carry_their_patterns() {
    let atrs = acos5_supported_atrs();
    assert_eq!(atrs[0].atr, "3b:be:96:00:00:41:05:20:00:00:00:00:00:00:00:00:00:90:00");
    assert_eq!(atrs[1].atr, "3b:be:96:00:00:41:05:30:00:00:00:00:00:00:00:00:00:90:00");
    assert_eq!(atrs[2].atrmask, "ff:ff:ff:ff:ff:ff:ff:ff:00:00:00:00:00:00:00:00:00:ff:ff:ff");
    assert_eq!(atrs[3].atr, "");
    let curves = acos5_supported_ec_curves();
    assert_eq!(curves[0].curve_name, "nistp224");
    assert_eq!(curves[1].curve_oid[..8], [1, 2, 840, 10045, 3, 1, 7, -1]);
}

use acos5::algos::{
    algo_ref_mse_sedo, algo_ref_sym_store, is_any_known_digestAlgorithm, SC_ALGORITHM_3DES,
    SC_ALGORITHM_AES, SC_ALGORITHM_RSA, SC_CARD_TYPE_ACOS5_64_V2, SC_CARD_TYPE_ACOS5_64_V3,
    SC_CARD_TYPE_ACOS5_EVO_V4, SC_SEC_OPERATION_GENERATE_RSAPRIVATE, SC_SEC_OPERATION_SIGN,
};
use acos5::fci::{construct_fci, se_parse_sae, FCI};
use acos5::mirror::{FDB_DF, FDB_LINEAR_FIXED_EF, FDB_TRANSPARENT_EF};
use acos5::rv::SC_ERROR_INVALID_ARGUMENTS;
use acos5::padding::{
    trailing_blockcipher_padding_calculate, trailing_blockcipher_padding_get_length,
    BLOCKCIPHER_PAD_TYPE_ANSIX9_23, BLOCKCIPHER_PAD_TYPE_ONEANDZEROES,
    BLOCKCIPHER_PAD_TYPE_ONEANDZEROES_ACOS5_64, BLOCKCIPHER_PAD_TYPE_PKCS7,
    BLOCKCIPHER_PAD_TYPE_ZEROES,
};
use acos5::rv::SC_ERROR_KEYPAD_MSG_TOO_LONG;
use acos5::sac::{
    convert_acl_array_to_bytes_tag_fcp_sac, convert_amdo_to_cla_ins_p1_p2_array,
    convert_bytes_tag_fcp_sac_to_scb_array, AclEntry, ACL_CATEGORY_KEY, SC_AC_CHV, SC_AC_OP_CRYPTO,
    SC_AC_OP_DELETE_SELF, SC_AC_OP_INVALIDATE, SC_AC_OP_LOCK, SC_AC_OP_READ,
    SC_AC_OP_REHABILITATE, SC_AC_OP_UPDATE, SC_MAX_AC_OPS,
};
use acos5::se::CRT_TAG_DST;
use acos5::se::CRT_TAG_CT;

#[test]
fn test_fci() {
    let mut fci = FCI::new_parsed(&[
        /*0x6F, 0x30,*/ 0x83, 0x02, 0x41, 0x00, 0x88, 0x01, 0x00, 0x8A, 0x01, 0x05, 0x82, 0x02,
        0x38, 0x00, 0x8D, 0x02, 0x41, 0x03, 0x84, 0x10, 0x41, 0x43, 0x4F, 0x53, 0x50, 0x4B, 0x43,
        0x53, 0x2D, 0x31, 0x35, 0x76, 0x31, 0x2E, 0x30, 0x30, 0x8C, 0x08, 0x7F, 0x03, 0xFF, 0x00,
        0x01, 0x01, 0x01, 0x01, 0xAB, 0x00,
    ]);
    assert_eq!(
        fci,
        FCI {
            fdb: 0x38,
            fid: 0x4100,
            size: 0,
            lcsi: 5,
            df_name: b"ACOSPKCS-15v1.00".to_vec(),
            scb8: [1_u8, 1, 1, 1, 0, 255, 3, 255],
            sae: vec![],
            seid: 0x4103,
            mrl: 0,
            nor: 0
        }
    );

    fci = FCI::new_parsed(&[
        /*0x6F, 0x1E,*/ 0x83, 0x02, 0x41, 0x10, 0x88, 0x01, 0x10, 0x8A, 0x01, 0x05, 0x82, 0x02,
        0x01, 0x00, 0x80, 0x02, 0x03, 0x00, 0x8C, 0x08, 0x7F, 0x00, 0xFF, 0x00, 0x03, 0xFF, 0x00,
        0x00, 0xAB, 0x00,
    ]);
    assert_eq!(
        fci,
        FCI {
            fdb: 0x01,
            fid: 0x4110,
            size: 0x0300,
            lcsi: 5,
            df_name: vec![],
            scb8: [0_u8, 0, 255, 3, 0, 255, 0, 255],
            sae: vec![],
            seid: 0,
            mrl: 0,
            nor: 0
        }
    );
}

#[test]
fn test_convert_bytes_tag_fcp_sac_to_scb_array() -> Result<(), i32> {
    // the complete TLV : [0x8C, 0x07,  0x7D, 0x02, 0x03, 0x04, 0xFF, 0xFF, 0x02]
    let bytes_tag_fcp_sac = [0x7D, 0x02, 0x03, 0x04, 0xFF, 0xFF, 0x02];
    let mut scb8 = convert_bytes_tag_fcp_sac_to_scb_array(&bytes_tag_fcp_sac)?;
    assert_eq!(scb8, [0x02, 0x00, 0xFF, 0xFF, 0x04, 0x03, 0x02, 0xFF]);

    let bytes_tag_fcp_sac: [u8; 0] = [];
    scb8 = convert_bytes_tag_fcp_sac_to_scb_array(&bytes_tag_fcp_sac)?;
    assert_eq!(scb8, [0x00, 0x00, 0x00, 0x00, 0x00, 0x00, 0x00, 0xFF]);

    let bytes_tag_fcp_sac = [0x00];
    scb8 = convert_bytes_tag_fcp_sac_to_scb_array(&bytes_tag_fcp_sac)?;
    assert_eq!(scb8, [0x00, 0x00, 0x00, 0x00, 0x00, 0x00, 0x00, 0xFF]);

    let bytes_tag_fcp_sac = [0x7F, 0xFF, 0xFF, 0x03, 0x03, 0x01, 0x03, 0x01];
    scb8 = convert_bytes_tag_fcp_sac_to_scb_array(&bytes_tag_fcp_sac)?;
    assert_eq!(scb8, [0x01, 0x03, 0x01, 0x03, 0x03, 0xFF, 0xFF, 0xFF]);

    let bytes_tag_fcp_sac = [0x62, 0x06, 0x05, 0x01];
    scb8 = convert_bytes_tag_fcp_sac_to_scb_array(&bytes_tag_fcp_sac)?;
    assert_eq!(scb8, [0x00, 0x01, 0x00, 0x00, 0x00, 0x05, 0x06, 0xFF]);

    let bytes_tag_fcp_sac = [0x2B, 0x05, 0x03, 0x01, 0x45];
    scb8 = convert_bytes_tag_fcp_sac_to_scb_array(&bytes_tag_fcp_sac)?;
    assert_eq!(scb8, [0x45, 0x01, 0x00, 0x03, 0x00, 0x05, 0x00, 0xFF]);
    Ok(())
}

#[test]
fn test_convert_amdo_to_cla_ins_p1_p2_array() -> Result<(), i32> {
    let amdo_bytes = [0xAA_u8];
    let cla_ins_p1_p2 = convert_amdo_to_cla_ins_p1_p2_array(8, &amdo_bytes[..])?;
    assert_eq!(cla_ins_p1_p2, [0xAA, 0, 0, 0]);
    let cla_ins_p1_p2 = convert_amdo_to_cla_ins_p1_p2_array(4, &amdo_bytes[..])?;
    assert_eq!(cla_ins_p1_p2, [0, 0xAA, 0, 0]);
    let cla_ins_p1_p2 = convert_amdo_to_cla_ins_p1_p2_array(2, &amdo_bytes[..])?;
    assert_eq!(cla_ins_p1_p2, [0, 0, 0xAA, 0]);
    let cla_ins_p1_p2 = convert_amdo_to_cla_ins_p1_p2_array(1, &amdo_bytes[..])?;
    assert_eq!(cla_ins_p1_p2, [0, 0, 0, 0xAA]);

    let amdo_bytes = [0xAA_u8, 0xBB];
    let cla_ins_p1_p2 = convert_amdo_to_cla_ins_p1_p2_array(9, &amdo_bytes[..])?;
    assert_eq!(cla_ins_p1_p2, [0xAA, 0, 0, 0xBB]);
    let cla_ins_p1_p2 = convert_amdo_to_cla_ins_p1_p2_array(10, &amdo_bytes[..])?;
    assert_eq!(cla_ins_p1_p2, [0xAA, 0, 0xBB, 0]);
    let cla_ins_p1_p2 = convert_amdo_to_cla_ins_p1_p2_array(12, &amdo_bytes[..])?;
    assert_eq!(cla_ins_p1_p2, [0xAA, 0xBB, 0, 0]);
    let cla_ins_p1_p2 = convert_amdo_to_cla_ins_p1_p2_array(5, &amdo_bytes[..])?;
    assert_eq!(cla_ins_p1_p2, [0, 0xAA, 0, 0xBB]);
    let cla_ins_p1_p2 = convert_amdo_to_cla_ins_p1_p2_array(6, &amdo_bytes[..])?;
    assert_eq!(cla_ins_p1_p2, [0, 0xAA, 0xBB, 0]);
    let cla_ins_p1_p2 = convert_amdo_to_cla_ins_p1_p2_array(3, &amdo_bytes[..])?;
    assert_eq!(cla_ins_p1_p2, [0, 0, 0xAA, 0xBB]);

    let amdo_bytes = [0xAA_u8, 0xBB, 0xCC];
    let cla_ins_p1_p2 = convert_amdo_to_cla_ins_p1_p2_array(11, &amdo_bytes[..])?;
    assert_eq!(cla_ins_p1_p2, [0xAA, 0, 0xBB, 0xCC]);
    let cla_ins_p1_p2 = convert_amdo_to_cla_ins_p1_p2_array(13, &amdo_bytes[..])?;
    assert_eq!(cla_ins_p1_p2, [0xAA, 0xBB, 0, 0xCC]);
    let cla_ins_p1_p2 = convert_amdo_to_cla_ins_p1_p2_array(14, &amdo_bytes[..])?;
    assert_eq!(cla_ins_p1_p2, [0xAA, 0xBB, 0xCC, 0]);
    let cla_ins_p1_p2 = convert_amdo_to_cla_ins_p1_p2_array(7, &amdo_bytes[..])?;
    assert_eq!(cla_ins_p1_p2, [0, 0xAA, 0xBB, 0xCC]);

    let amdo_bytes = [0xAA_u8, 0xBB, 0xCC, 0xDD];
    let cla_ins_p1_p2 = convert_amdo_to_cla_ins_p1_p2_array(15, &amdo_bytes[..])?;
    assert_eq!(cla_ins_p1_p2, [0xAA, 0xBB, 0xCC, 0xDD]);
    Ok(())
}

#[test]
fn test_trailing_blockcipher_padding_calculate() {
    assert_eq!(
        trailing_blockcipher_padding_calculate(8, BLOCKCIPHER_PAD_TYPE_ZEROES, 3).as_slice(),
        &[0_u8, 0, 0, 0, 0]
    );
    assert_eq!(
        trailing_blockcipher_padding_calculate(8, BLOCKCIPHER_PAD_TYPE_ZEROES, 7).as_slice(),
        &[0_u8]
    );
    assert_eq!(
        trailing_blockcipher_padding_calculate(8, BLOCKCIPHER_PAD_TYPE_ZEROES, 0).as_slice(),
        &[0_u8; 0]
    );

    assert_eq!(
        trailing_blockcipher_padding_calculate(8, BLOCKCIPHER_PAD_TYPE_ONEANDZEROES, 3).as_slice(),
        &[0x80_u8, 0, 0, 0, 0]
    );
    assert_eq!(
        trailing_blockcipher_padding_calculate(8, BLOCKCIPHER_PAD_TYPE_ONEANDZEROES, 7).as_slice(),
        &[0x80_u8]
    );
    assert_eq!(
        trailing_blockcipher_padding_calculate(8, BLOCKCIPHER_PAD_TYPE_ONEANDZEROES, 0).as_slice(),
        &[0x80_u8, 0, 0, 0, 0, 0, 0, 0]
    );

    assert_eq!(
        trailing_blockcipher_padding_calculate(8, BLOCKCIPHER_PAD_TYPE_ONEANDZEROES_ACOS5_64, 3)
            .as_slice(),
        &[0x80_u8, 0, 0, 0, 0]
    );
    assert_eq!(
        trailing_blockcipher_padding_calculate(8, BLOCKCIPHER_PAD_TYPE_ONEANDZEROES_ACOS5_64, 7)
            .as_slice(),
        &[0x80_u8]
    );
    assert_eq!(
        trailing_blockcipher_padding_calculate(8, BLOCKCIPHER_PAD_TYPE_ONEANDZEROES_ACOS5_64, 0)
            .as_slice(),
        &[0_u8; 0]
    );

    assert_eq!(
        trailing_blockcipher_padding_calculate(8, BLOCKCIPHER_PAD_TYPE_PKCS7, 3).as_slice(),
        &[0x05_u8; 5]
    );
    assert_eq!(
        trailing_blockcipher_padding_calculate(8, BLOCKCIPHER_PAD_TYPE_PKCS7, 7).as_slice(),
        &[0x01_u8; 1]
    );
    assert_eq!(
        trailing_blockcipher_padding_calculate(8, BLOCKCIPHER_PAD_TYPE_PKCS7, 0).as_slice(),
        &[0x08_u8; 8]
    );

    assert_eq!(
        trailing_blockcipher_padding_calculate(8, BLOCKCIPHER_PAD_TYPE_ANSIX9_23, 3).as_slice(),
        &[0_u8, 0, 0, 0, 5]
    );
    assert_eq!(
        trailing_blockcipher_padding_calculate(8, BLOCKCIPHER_PAD_TYPE_ANSIX9_23, 7).as_slice(),
        &[1_u8]
    );
    assert_eq!(
        trailing_blockcipher_padding_calculate(8, BLOCKCIPHER_PAD_TYPE_ANSIX9_23, 0).as_slice(),
        &[0_u8, 0, 0, 0, 0, 0, 0, 8]
    );
}

#[test]
fn test_trailing_blockcipher_padding_get_length() -> Result<(), i32> {
    assert_eq!(
        trailing_blockcipher_padding_get_length(
            8,
            BLOCKCIPHER_PAD_TYPE_ZEROES,
            &[0_u8, 2, 1, 0, 0, 0, 0, 0]
        )?,
        5
    );
    assert_eq!(
        trailing_blockcipher_padding_get_length(
            8,
            BLOCKCIPHER_PAD_TYPE_ZEROES,
            &[0_u8, 6, 5, 4, 3, 2, 1, 0]
        )?,
        1
    );
    assert_eq!(
        trailing_blockcipher_padding_get_length(
            8,
            BLOCKCIPHER_PAD_TYPE_ZEROES,
            &[0_u8, 7, 6, 5, 4, 3, 2, 1]
        )?,
        0
    );

    assert_eq!(
        trailing_blockcipher_padding_get_length(
            8,
            BLOCKCIPHER_PAD_TYPE_ONEANDZEROES,
            &[0_u8, 0, 0, 0x80, 0, 0, 0, 0]
        )?,
        5
    );
    assert_eq!(
        trailing_blockcipher_padding_get_length(
            8,
            BLOCKCIPHER_PAD_TYPE_ONEANDZEROES,
            &[0_u8, 0, 0, 0, 0, 0, 0, 0x80]
        )?,
        1
    );
    assert_eq!(
        trailing_blockcipher_padding_get_length(
            8,
            BLOCKCIPHER_PAD_TYPE_ONEANDZEROES,
            &[0x80_u8, 0, 0, 0, 0, 0, 0, 0]
        )?,
        8
    );

    assert_eq!(
        trailing_blockcipher_padding_get_length(
            8,
            BLOCKCIPHER_PAD_TYPE_ONEANDZEROES_ACOS5_64,
            &[0_u8, 0, 0, 0x80, 0, 0, 0, 0]
        )?,
        5
    );
    assert_eq!(
        trailing_blockcipher_padding_get_length(
            8,
            BLOCKCIPHER_PAD_TYPE_ONEANDZEROES_ACOS5_64,
            &[0_u8, 0, 0, 0, 0, 0, 0, 0x80]
        )?,
        1
    );
    assert_eq!(
        trailing_blockcipher_padding_get_length(
            8,
            BLOCKCIPHER_PAD_TYPE_ONEANDZEROES_ACOS5_64,
            &[0x80_u8, 0, 0, 0, 0, 0, 0, 0]
        )?,
        0
    );

    assert_eq!(
        trailing_blockcipher_padding_get_length(
            8,
            BLOCKCIPHER_PAD_TYPE_PKCS7,
            &[0_u8, 5, 5, 5, 5, 5, 5, 5]
        )?,
        5
    );
    assert_eq!(
        trailing_blockcipher_padding_get_length(
            8,
            BLOCKCIPHER_PAD_TYPE_PKCS7,
            &[0_u8, 1, 1, 1, 1, 1, 1, 1]
        )?,
        1
    );
    assert_eq!(
        trailing_blockcipher_padding_get_length(
            8,
            BLOCKCIPHER_PAD_TYPE_PKCS7,
            &[8_u8, 8, 8, 8, 8, 8, 8, 8]
        )?,
        8
    );

    assert_eq!(
        trailing_blockcipher_padding_get_length(
            8,
            BLOCKCIPHER_PAD_TYPE_ANSIX9_23,
            &[0_u8, 0, 0, 0, 0, 0, 0, 5]
        )?,
        5
    );
    assert_eq!(
        trailing_blockcipher_padding_get_length(
            8,
            BLOCKCIPHER_PAD_TYPE_ANSIX9_23,
            &[0_u8, 0, 0, 0, 0, 0, 0, 1]
        )?,
        1
    );
    assert_eq!(
        trailing_blockcipher_padding_get_length(
            8,
            BLOCKCIPHER_PAD_TYPE_ANSIX9_23,
            &[0_u8, 0, 0, 0, 0, 0, 0, 8]
        )?,
        8
    );
    Ok(())
}

#[test]
fn test_algo_ref_mse_sedo() -> Result<(), i32> {
    let mut rsa_key_gen = algo_ref_mse_sedo(
        SC_CARD_TYPE_ACOS5_64_V2,
        SC_SEC_OPERATION_GENERATE_RSAPRIVATE,
        CRT_TAG_DST,
        SC_ALGORITHM_RSA,
        0,
        0,
        false,
        false,
    );
    assert_eq!(rsa_key_gen, Ok(0x10));
    rsa_key_gen = algo_ref_mse_sedo(
        SC_CARD_TYPE_ACOS5_EVO_V4,
        SC_SEC_OPERATION_GENERATE_RSAPRIVATE,
        CRT_TAG_DST,
        SC_ALGORITHM_RSA,
        0,
        0,
        false,
        false,
    );
    assert_eq!(rsa_key_gen, Ok(0x22));

    let mut rsa_sign = algo_ref_mse_sedo(
        SC_CARD_TYPE_ACOS5_64_V2,
        SC_SEC_OPERATION_SIGN,
        CRT_TAG_DST,
        SC_ALGORITHM_RSA,
        0,
        0,
        false,
        false,
    );
    assert_eq!(rsa_sign, Ok(0x10));
    rsa_sign = algo_ref_mse_sedo(
        SC_CARD_TYPE_ACOS5_EVO_V4,
        SC_SEC_OPERATION_SIGN,
        CRT_TAG_DST,
        SC_ALGORITHM_RSA,
        0,
        0,
        false,
        false,
    );
    assert_eq!(rsa_sign, Ok(0x20));

    let mut rsa_decipher = algo_ref_mse_sedo(
        SC_CARD_TYPE_ACOS5_64_V2,
        0,
        CRT_TAG_CT,
        SC_ALGORITHM_RSA,
        0,
        0,
        false,
        false,
    );
    assert_eq!(rsa_decipher, Ok(0x12));
    rsa_decipher = algo_ref_mse_sedo(
        SC_CARD_TYPE_ACOS5_EVO_V4,
        0,
        CRT_TAG_CT,
        SC_ALGORITHM_RSA,
        0,
        0,
        false,
        false,
    );
    assert_eq!(rsa_decipher, Ok(0x24));

    Ok(())
}

#[test]
fn sac_decode_rejects_inconsistent_string() {
    // Access-Mode byte 0x7D has six set bits but only five SCBs follow.
    let bytes = [0x7D, 0x02, 0x03, 0x04, 0xFF, 0xFF];
    assert_eq!(
        convert_bytes_tag_fcp_sac_to_scb_array(&bytes),
        Err(SC_ERROR_KEYPAD_MSG_TOO_LONG)
    );
}

#[test]
fn amdo_rejects_wrong_byte_count() {
    // Tag nibble 0x0F announces four header bytes, but only two follow.
    let bytes = [0xAA_u8, 0xBB];
    assert_eq!(
        convert_amdo_to_cla_ins_p1_p2_array(15, &bytes[..]),
        Err(SC_ERROR_KEYPAD_MSG_TOO_LONG)
    );
}

#[test]
fn acl_codec_round_trip_key_category() {
    // Encoding an access-control list for a key file and expanding the
    // result gives the canonical per-slot conditions back.
    let mut acl = [AclEntry::Absent; SC_MAX_AC_OPS];
    acl[SC_AC_OP_READ] = AclEntry::Keyed { method: SC_AC_CHV, key_ref: 0x81 };
    acl[SC_AC_OP_UPDATE] = AclEntry::Never;
    acl[SC_AC_OP_CRYPTO] = AclEntry::Keyed { method: SC_AC_CHV, key_ref: 0x01 };
    acl[SC_AC_OP_INVALIDATE] = AclEntry::Allow;
    acl[SC_AC_OP_REHABILITATE] = AclEntry::Keyed { method: SC_AC_CHV, key_ref: 0x42 };
    acl[SC_AC_OP_LOCK] = AclEntry::Undetermined;
    acl[SC_AC_OP_DELETE_SELF] = AclEntry::Never;

    let sac = convert_acl_array_to_bytes_tag_fcp_sac(&acl, ACL_CATEGORY_KEY).unwrap();
    assert_eq!(sac[0], 0x7F);
    let scb8 = convert_bytes_tag_fcp_sac_to_scb_array(&sac).unwrap();
    // slot order: read, update, crypto, invalidate, rehabilitate, lock,
    // delete-self, unused
    assert_eq!(scb8, [0x81, 0xFF, 0x01, 0x00, 0x42, 0xFF, 0xFF, 0xFF]);
}

#[test]
fn acl_codec_rejects_unknown_method() {
    let mut acl = [AclEntry::Absent; SC_MAX_AC_OPS];
    acl[SC_AC_OP_READ] = AclEntry::Keyed { method: 0x0000_0400, key_ref: 1 };
    assert!(convert_acl_array_to_bytes_tag_fcp_sac(&acl, ACL_CATEGORY_KEY).is_err());
}

#[test]
fn sae_parse_example_conditions() {
    // Never allow the command INS 2C; INS 24 only through secure
    // messaging with SCB 0x42.
    let bytes = [0x84, 0x01, 0x2C, 0x97, 0x00, 0x84, 0x01, 0x24, 0x9E, 0x01, 0x42];
    let entries = se_parse_sae(&bytes).unwrap();
    assert_eq!(entries.len(), 2);
    assert_eq!(entries[0].amdo_tag, 0x84);
    assert_eq!(entries[0].header, [0, 0x2C, 0, 0]);
    assert_eq!(entries[0].scdo_tag, 0x97);
    assert_eq!(entries[0].scb, 0xFF);
    assert_eq!(entries[1].header, [0, 0x24, 0, 0]);
    assert_eq!(entries[1].scdo_tag, 0x9E);
    assert_eq!(entries[1].scb, 0x42);
}

#[test]
fn sae_parse_tolerates_empty_and_rejects_garbage() {
    assert_eq!(se_parse_sae(&[]).unwrap().len(), 0);
    assert_eq!(se_parse_sae(&[0x00, 0x00, 0x00]).unwrap().len(), 0);
    assert!(se_parse_sae(&[0x55, 0x01, 0x00]).is_err());
}

#[test]
fn padding_get_length_rejects_bad_blocks() {
    // An all-zero block cannot carry zero padding information.
    assert_eq!(
        trailing_blockcipher_padding_get_length(8, BLOCKCIPHER_PAD_TYPE_ZEROES, &[0_u8; 8]),
        Err(SC_ERROR_KEYPAD_MSG_TOO_LONG)
    );
    // One-and-zeroes padding demands the 0x80 marker.
    assert_eq!(
        trailing_blockcipher_padding_get_length(
            8,
            BLOCKCIPHER_PAD_TYPE_ONEANDZEROES,
            &[1_u8, 2, 3, 4, 5, 6, 7, 0]
        ),
        Err(SC_ERROR_KEYPAD_MSG_TOO_LONG)
    );
    // A PKCS#7 fill byte that does not repeat is refused.
    assert_eq!(
        trailing_blockcipher_padding_get_length(
            8,
            BLOCKCIPHER_PAD_TYPE_PKCS7,
            &[0_u8, 0, 0, 0, 0, 0, 4, 5]
        ),
        Err(SC_ERROR_KEYPAD_MSG_TOO_LONG)
    );
    // An ANSI X9.23 fill byte must be zero.
    assert_eq!(
        trailing_blockcipher_padding_get_length(
            8,
            BLOCKCIPHER_PAD_TYPE_ANSIX9_23,
            &[0_u8, 0, 0, 0, 0, 0, 7, 3]
        ),
        Err(SC_ERROR_KEYPAD_MSG_TOO_LONG)
    );
}

#[test]
fn algo_ref_sym_store_table() {
    assert_eq!(algo_ref_sym_store(SC_CARD_TYPE_ACOS5_64_V3, SC_ALGORITHM_AES, 32), Ok(0x22));
    assert_eq!(algo_ref_sym_store(SC_CARD_TYPE_ACOS5_EVO_V4, SC_ALGORITHM_AES, 32), Ok(0x28));
    assert_eq!(algo_ref_sym_store(SC_CARD_TYPE_ACOS5_64_V2, SC_ALGORITHM_3DES, 24), Ok(0x14));
    assert_eq!(algo_ref_sym_store(SC_CARD_TYPE_ACOS5_64_V2, SC_ALGORITHM_AES, 20), Err(-1));
}

#[test]
fn digest_algorithm_recognition() {
    // A SHA-384 DigestInfo: the DER prefix followed by 48 hash bytes.
    let mut sha384 = vec![
        0x30, 0x41, 0x30, 0x0D, 0x06, 0x09, 0x60, 0x86, 0x48, 0x01, 0x65, 0x03, 0x04, 0x02, 0x02,
        0x05, 0x00, 0x04, 0x30,
    ];
    sha384.extend(std::iter::repeat(0xA5).take(48));
    assert!(is_any_known_digestAlgorithm(&sha384));
    // Same length, wrong prefix.
    let mut not_a_digest = sha384.clone();
    not_a_digest[14] = 0x03;
    assert!(!is_any_known_digestAlgorithm(&not_a_digest));
    // A bare 48-byte hash has no recognized DigestInfo length.
    assert!(!is_any_known_digestAlgorithm(&[0u8; 48]));
}

#[test]
fn construct_fci_for_created_files() {

    // A transparent working file of 64 bytes with every condition free.
    let acl = [AclEntry::Absent; SC_MAX_AC_OPS];
    let out = construct_fci(FDB_TRANSPARENT_EF, 0x4101, 0x40, 0, 0, &vec![], &acl).unwrap();
    assert_eq!(
        out,
        vec![
            0x6F, 25, 0x83, 0x02, 0x41, 0x01, 0x82, 0x02, 0x01, 0x00, 0x8A, 0x01, 0x01, 0x80,
            0x02, 0x00, 0x40, 0x8C, 0x08, 0x7F, 0, 0, 0, 0, 0, 0, 0
        ]
    );
    // Parsing the constructed header gives the file back.
    let parsed = FCI::new_parsed(&out[2..]);
    assert_eq!(parsed.fid, 0x4101);
    assert_eq!(parsed.fdb, FDB_TRANSPARENT_EF);
    assert_eq!(parsed.size, 0x40);
    assert_eq!(parsed.scb8, [0, 0, 0, 0, 0, 0, 0, 0xFF]);

    // A directory with a two-byte name: its conventional
    // security-environment file is its identifier plus three.
    let out = construct_fci(FDB_DF, 0x4100, 0, 0, 0, &vec![0x41, 0x76], &acl).unwrap();
    assert_eq!(
        out,
        vec![
            0x6F, 29, 0x83, 0x02, 0x41, 0x00, 0x82, 0x02, 0x38, 0x00, 0x8A, 0x01, 0x01, 0x8C,
            0x08, 0x7F, 0, 0, 0, 0, 0, 0, 0, 0x8D, 0x02, 0x41, 0x03, 0x84, 0x02, 0x41, 0x76
        ]
    );
    let parsed = FCI::new_parsed(&out[2..]);
    assert_eq!(parsed.seid, 0x4103);
    assert_eq!(parsed.df_name, vec![0x41, 0x76]);

    // A record-organized file without its record shape is refused.
    assert_eq!(
        construct_fci(FDB_LINEAR_FIXED_EF, 0x4102, 0, 0x10, 0, &vec![], &acl),
        Err(SC_ERROR_INVALID_ARGUMENTS)
    );
    // The purse kind has no known access-control category.
    assert_eq!(construct_fci(0x0E, 0x4102, 0, 0x10, 4, &vec![], &acl), Err(-1));
}

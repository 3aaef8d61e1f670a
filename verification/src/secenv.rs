//! The session's current security environment: what the host's last
//! set-security-environment call established, and the RSA modulus length
//! the driver derives from the referenced key file's size — the length
//! that later decipher and signature exchanges are framed with.

use vstd::prelude::*;
use crate::algos::SC_ALGORITHM_RSA;
use crate::session::Session;

verus! {

/// Flag bits of a security environment saying which references it
/// carries.
pub const SC_SEC_ENV_ALG_REF_PRESENT: u32 = 0x0001;
pub const SC_SEC_ENV_FILE_REF_PRESENT: u32 = 0x0002;
pub const SC_SEC_ENV_KEY_REF_PRESENT: u32 = 0x0004;

/// Security operations an environment may be set for, beyond signing and
/// key generation: the host's decipher, the driver's private decipher and
/// public encipher, and unwrapping.
pub const SC_SEC_OPERATION_DECIPHER: i32 = 1;
pub const SC_SEC_OPERATION_DERIVE: i32 = 4;
pub const SC_SEC_OPERATION_DECIPHER_RSAPRIVATE: i32 = 12;
pub const SC_SEC_OPERATION_ENCIPHER_RSAPUBLIC: i32 = 13;
pub const SC_SEC_OPERATION_UNWRAP: i32 = 14;
pub const SC_SEC_OPERATION_GENERATE_RSAPUBLIC: i32 = 15;
pub const SC_SEC_OPERATION_ENCIPHER_SYMMETRIC: i32 = 16;
pub const SC_SEC_OPERATION_DECIPHER_SYMMETRIC: i32 = 17;

/// More flag bits of a security environment.
pub const SC_SEC_ENV_KEY_REF_SYMMETRIC: u32 = 0x0008;
pub const SC_SEC_ENV_ALG_PRESENT: u32 = 0x0010;

/// Algorithm flags the driver reads: the ISO 9796 signature padding, and
/// the chaining-mode selectors for AES.
pub const SC_ALGORITHM_RSA_PAD_ISO9796: u32 = 0x0000_0008;
pub const SC_ALGORITHM_AES_ECB: u32 = 0x0100_0000;
pub const SC_ALGORITHM_AES_CBC: u32 = 0x0200_0000;
pub const SC_ALGORITHM_AES_CBC_PAD: u32 = 0x0400_0000;

/// The host's security environment, reduced to what the driver reads:
/// the operation, the algorithm and its flags, which references are
/// present, the referenced file (as path bytes) and the key reference.
pub struct SecurityEnv {
    pub operation: i32,
    pub algorithm: u32,
    pub algorithm_flags: u32,
    pub algorithm_ref: u32,
    pub flags: u32,
    pub file_ref: Vec<u8>,
    pub key_ref: u8,
    pub iv: Vec<u8>,
}

impl SecurityEnv {
    /// The empty environment a fresh session starts with.
    pub fn new() -> (r: SecurityEnv)
        ensures
            r.operation == 0,
            r.algorithm == 0,
            r.algorithm_flags == 0,
            r.flags == 0,
            r.file_ref@.len() == 0,
            r.key_ref == 0,
    {
        SecurityEnv {
            operation: 0,
            algorithm: 0,
            algorithm_flags: 0,
            algorithm_ref: 0,
            flags: 0,
            file_ref: Vec::new(),
            key_ref: 0,
            iv: Vec::new(),
        }
    }
}

/// The modulus length (in bytes) behind an RSA private key file of this
/// size: the card stores a private key in five half-modulus blocks plus
/// a five-byte header, so two fifths of the remainder is the modulus —
/// accepted when it is whole and a multiple of 32; a public-key-sized
/// remainder that is a multiple of 32 is accepted as the modulus itself.
/// Anything else leaves the length unknown (zero).
pub open spec fn spec_rsa_priv_mod_len(file_size: u16) -> u16 {
    if file_size < 5 {
        0u16
    } else {
        let rem = file_size - 5;
        let x = (rem * 2) / 5;
        if (x * 5) / 2 == rem && x % 32 == 0 {
            x as u16
        } else if rem % 32 == 0 {
            rem as u16
        } else {
            0u16
        }
    }
}

/// The modulus length behind an RSA public key file of this size: the
/// key follows a twenty-one byte header.
pub open spec fn spec_rsa_pub_mod_len(file_size: u16) -> u16 {
    if file_size < 21 {
        0u16
    } else if (file_size - 21) % 32 == 0 {
        (file_size - 21) as u16
    } else {
        0u16
    }
}

/// The modulus length a security environment implies: derived from the
/// size bytes of the referenced file's mirror entry, for RSA with a file
/// reference; private-key rules for signing, deciphering and unwrapping,
/// public-key rules for enciphering; zero (unknown) everywhere else.
pub open spec fn spec_sec_env_mod_len(card: Session, env: SecurityEnv) -> u16 {
    if env.algorithm != SC_ALGORITHM_RSA || env.flags & SC_SEC_ENV_FILE_REF_PRESENT == 0
        || env.file_ref@.len() < 2 {
        0u16
    } else {
        let n = env.file_ref@.len();
        let file_id = (((env.file_ref@[n - 2] as u16) << 8) | (env.file_ref@[n - 1] as u16)) as u16;
        if !card.mirror@.contains_key(file_id) {
            0u16
        } else {
            let info = card.mirror@[file_id].info@;
            let file_size = (((info[4] as u16) << 8) | (info[5] as u16)) as u16;
            if env.operation == crate::algos::SC_SEC_OPERATION_SIGN || env.operation
                == SC_SEC_OPERATION_DECIPHER || env.operation
                == SC_SEC_OPERATION_DECIPHER_RSAPRIVATE || env.operation
                == SC_SEC_OPERATION_UNWRAP {
                spec_rsa_priv_mod_len(file_size)
            } else if env.operation == SC_SEC_OPERATION_ENCIPHER_RSAPUBLIC {
                spec_rsa_pub_mod_len(file_size)
            } else {
                0u16
            }
        }
    }
}

/// Stores the environment the host set and derives the modulus length it
/// implies, per `spec_sec_env_mod_len`.  Nothing else of the session
/// changes.
pub fn set_sec_env(card: &mut Session, env: SecurityEnv) -> (r: u16)
    requires
        old(card).wf(),
    ensures
        final(card).wf(),
        final(card).sec_env == env,
        final(card).sec_env_mod_len == spec_sec_env_mod_len(*old(card), env),
        r == final(card).sec_env_mod_len,
        final(card).mirror@ == old(card).mirror@,
        final(card).current_path == old(card).current_path,
        final(card).does_mf_exist == old(card).does_mf_exist,
        final(card).is_running_init == old(card).is_running_init,
        final(card).is_running_cmd_long_response == old(card).is_running_cmd_long_response,
        final(card).is_running_compute_signature == old(card).is_running_compute_signature,
{
    let mut mod_len: u16 = 0;
    if env.algorithm == SC_ALGORITHM_RSA && env.flags & SC_SEC_ENV_FILE_REF_PRESENT != 0
        && env.file_ref.len() >= 2 {
        let n: usize = env.file_ref.len();
        let file_id: u16 = ((env.file_ref[n - 2] as u16) << 8) | (env.file_ref[n - 1] as u16);
        match card.mirror.lookup(file_id) {
            None => {},
            Some(rec) => {
                let file_size: u16 = ((rec.info[4] as u16) << 8) | (rec.info[5] as u16);
                if env.operation == crate::algos::SC_SEC_OPERATION_SIGN || env.operation
                    == SC_SEC_OPERATION_DECIPHER || env.operation
                    == SC_SEC_OPERATION_DECIPHER_RSAPRIVATE || env.operation
                    == SC_SEC_OPERATION_UNWRAP {
                    if file_size >= 5 {
                        let rem: u32 = (file_size - 5) as u32;
                        let x: u32 = (rem * 2) / 5;
                        if (x * 5) / 2 == rem && x % 32 == 0 {
                            mod_len = x as u16;
                        } else if rem % 32 == 0 {
                            mod_len = (file_size - 5) as u16;
                        }
                    }
                } else if env.operation == SC_SEC_OPERATION_ENCIPHER_RSAPUBLIC {
                    if file_size >= 21 && (file_size - 21) % 32 == 0 {
                        mod_len = file_size - 21;
                    }
                }
            },
        }
    }
    card.sec_env = env;
    card.sec_env_mod_len = mod_len;
    mod_len
}

/// The fixed MSE exchange that binds an asymmetric template: manage
/// security environment (set, for the given template tag) with the
/// algorithm reference, the key file identifier and the usage qualifier.
pub open spec fn spec_mse_asym_command(crt_tag: u8, algo: u8, id_hi: u8, id_lo: u8, usage: u8) -> Seq<
    u8,
> {
    seq![0x00u8, 0x22, 0x01, crt_tag, 0x0A, 0x80, 0x01, algo, 0x81, 0x02, id_hi, id_lo, 0x95, 0x01,
        usage]
}

/// Builds one asymmetric MSE exchange, per `spec_mse_asym_command`.
fn mse_asym_command(crt_tag: u8, algo: u8, id_hi: u8, id_lo: u8, usage: u8) -> (r: Vec<u8>)
    ensures
        r@ =~= spec_mse_asym_command(crt_tag, algo, id_hi, id_lo, usage),
{
    let mut v: Vec<u8> = Vec::new();
    v.push(0x00);
    v.push(0x22);
    v.push(0x01);
    v.push(crt_tag);
    v.push(0x0A);
    v.push(0x80);
    v.push(0x01);
    v.push(algo);
    v.push(0x81);
    v.push(0x02);
    v.push(id_hi);
    v.push(id_lo);
    v.push(0x95);
    v.push(0x01);
    v.push(usage);
    v
}

/// Whether a symmetric environment runs a chaining mode that carries an
/// initial vector: for AES everything but the electronic code book, for
/// DES and triple DES every algorithm reference but the code-book ones
/// (0 and 1).
pub open spec fn spec_sym_env_uses_iv(env: SecurityEnv) -> bool {
    if env.algorithm == crate::algos::SC_ALGORITHM_AES {
        env.algorithm_flags != SC_ALGORITHM_AES_ECB
    } else {
        env.algorithm_ref != 0 && env.algorithm_ref != 1
    }
}

/// The block length of the symmetric algorithm: sixteen for AES, eight
/// for DES and triple DES.
pub open spec fn spec_sym_env_block_len(env: SecurityEnv) -> int {
    if env.algorithm == crate::algos::SC_ALGORITHM_AES {
        16
    } else {
        8
    }
}

/// The MSE exchange that binds a symmetric confidentiality template: the
/// usage qualifier for enciphering and deciphering, the algorithm
/// reference, the key reference, and — in a chaining mode — the initial
/// vector.
pub open spec fn spec_mse_sym_command(env: SecurityEnv) -> Seq<u8> {
    let head = seq![0x95u8, 0x01, 0xC0, 0x80, 0x01, (env.algorithm_ref & 0xFF) as u8, 0x83, 0x01,
        env.key_ref];
    let body = if spec_sym_env_uses_iv(env) {
        head + seq![0x87u8, spec_sym_env_block_len(env) as u8] + env.iv@
    } else {
        head
    };
    seq![0x00u8, 0x22, 0x01, 0xB8, body.len() as u8] + body
}

/// What a set-security-environment call transmits: the MSE exchanges
/// that bind the templates the operation needs, each a complete command.
/// Key derivation is not supported by the card; a symmetric operation
/// demands a key reference, a supported symmetric algorithm, a symmetric
/// key, a recognized chaining mode, and an initial vector of the block
/// length whenever the mode chains.  An operation that needs none of the
/// driver's templates transmits nothing.
pub open spec fn spec_mse_commands(env: SecurityEnv) -> Result<Seq<Seq<u8>>, i32> {
    let rsa_file = env.algorithm == SC_ALGORITHM_RSA && env.flags & SC_SEC_ENV_FILE_REF_PRESENT
        != 0 && env.file_ref@.len() >= 2;
    let id_hi = if env.file_ref@.len() >= 2 {
        env.file_ref@[env.file_ref@.len() - 2]
    } else {
        0u8
    };
    let id_lo = if env.file_ref@.len() >= 2 {
        env.file_ref@[env.file_ref@.len() - 1]
    } else {
        0u8
    };
    if env.operation == SC_SEC_OPERATION_DERIVE {
        Err(crate::rv::SC_ERROR_NO_CARD_SUPPORT)
    } else if (env.operation == crate::algos::SC_SEC_OPERATION_GENERATE_RSAPRIVATE || env.operation
        == SC_SEC_OPERATION_GENERATE_RSAPUBLIC) && rsa_file && env.flags & SC_SEC_ENV_ALG_PRESENT
        != 0 {
        let usage: u8 = if env.operation == crate::algos::SC_SEC_OPERATION_GENERATE_RSAPRIVATE {
            0x40
        } else {
            0x80
        };
        Ok(seq![spec_mse_asym_command(0xB6, 0x10, id_hi, id_lo, usage)])
    } else if env.operation == crate::algos::SC_SEC_OPERATION_SIGN && rsa_file {
        let algo: u8 = if env.algorithm_flags & SC_ALGORITHM_RSA_PAD_ISO9796 == 0 {
            0x10
        } else {
            0x11
        };
        Ok(
            seq![
                spec_mse_asym_command(0xB6, algo, id_hi, id_lo, 0x40),
                spec_mse_asym_command(0xB8, 0x13, id_hi, id_lo, 0x40),
            ],
        )
    } else if (env.operation == SC_SEC_OPERATION_DECIPHER || env.operation
        == SC_SEC_OPERATION_DECIPHER_RSAPRIVATE || env.operation == SC_SEC_OPERATION_UNWRAP)
        && rsa_file {
        Ok(seq![spec_mse_asym_command(0xB8, 0x13, id_hi, id_lo, 0x40)])
    } else if env.operation == SC_SEC_OPERATION_ENCIPHER_RSAPUBLIC && rsa_file {
        Ok(seq![spec_mse_asym_command(0xB8, 0x12, id_hi, id_lo, 0x40)])
    } else if env.operation == SC_SEC_OPERATION_ENCIPHER_SYMMETRIC || env.operation
        == SC_SEC_OPERATION_DECIPHER_SYMMETRIC {
        if env.flags & SC_SEC_ENV_KEY_REF_PRESENT == 0 || env.flags & SC_SEC_ENV_ALG_REF_PRESENT
            == 0 || env.flags & SC_SEC_ENV_ALG_PRESENT == 0 || env.flags
            & SC_SEC_ENV_KEY_REF_SYMMETRIC == 0 {
            Err(crate::rv::SC_ERROR_NOT_SUPPORTED)
        } else if env.algorithm != crate::algos::SC_ALGORITHM_AES && env.algorithm
            != crate::algos::SC_ALGORITHM_3DES && env.algorithm != crate::algos::SC_ALGORITHM_DES {
            Err(crate::rv::SC_ERROR_NOT_SUPPORTED)
        } else if env.algorithm == crate::algos::SC_ALGORITHM_AES && env.algorithm_flags
            != SC_ALGORITHM_AES_CBC_PAD && env.algorithm_flags != SC_ALGORITHM_AES_CBC
            && env.algorithm_flags != SC_ALGORITHM_AES_ECB {
            Err(crate::rv::SC_ERROR_NOT_SUPPORTED)
        } else if spec_sym_env_uses_iv(env) && env.iv@.len() != spec_sym_env_block_len(env) {
            Err(crate::rv::SC_ERROR_NOT_SUPPORTED)
        } else {
            Ok(seq![spec_mse_sym_command(env)])
        }
    } else {
        Ok(Seq::empty())
    }
}

/// Plans the MSE exchanges a set-security-environment call transmits,
/// per `spec_mse_commands`, and stores the environment and its modulus
/// length in the session (per `set_sec_env`) whenever planning succeeds.
pub fn set_security_env_plan(card: &mut Session, env: SecurityEnv) -> (r: Result<Vec<Vec<u8>>, i32>)
    requires
        old(card).wf(),
    ensures
        final(card).wf(),
        match r {
            Ok(cmds) => {
                &&& spec_mse_commands(env) matches Ok(specs) && cmds@.len() == specs.len()
                    && (forall|i: int| 0 <= i < specs.len() ==> (#[trigger] cmds@[i])@ =~= specs[i])
                &&& final(card).sec_env == env
                &&& final(card).sec_env_mod_len == spec_sec_env_mod_len(*old(card), env)
            },
            Err(e) => {
                &&& spec_mse_commands(env) == Err::<Seq<Seq<u8>>, i32>(e)
                &&& *final(card) == *old(card)
            },
        },
        final(card).mirror@ == old(card).mirror@,
        final(card).current_path == old(card).current_path,
        final(card).does_mf_exist == old(card).does_mf_exist,
        final(card).is_running_init == old(card).is_running_init,
        final(card).is_running_cmd_long_response == old(card).is_running_cmd_long_response,
        final(card).is_running_compute_signature == old(card).is_running_compute_signature,
{
    let rsa_file: bool = env.algorithm == SC_ALGORITHM_RSA && env.flags
        & SC_SEC_ENV_FILE_REF_PRESENT != 0 && env.file_ref.len() >= 2;
    let (id_hi, id_lo): (u8, u8) = if env.file_ref.len() >= 2 {
        (env.file_ref[env.file_ref.len() - 2], env.file_ref[env.file_ref.len() - 1])
    } else {
        (0, 0)
    };
    let mut cmds: Vec<Vec<u8>> = Vec::new();
    if env.operation == SC_SEC_OPERATION_DERIVE {
        return Err(crate::rv::SC_ERROR_NO_CARD_SUPPORT);
    } else if (env.operation == crate::algos::SC_SEC_OPERATION_GENERATE_RSAPRIVATE
        || env.operation == SC_SEC_OPERATION_GENERATE_RSAPUBLIC) && rsa_file && env.flags
        & SC_SEC_ENV_ALG_PRESENT != 0 {
        let usage: u8 = if env.operation == crate::algos::SC_SEC_OPERATION_GENERATE_RSAPRIVATE {
            0x40
        } else {
            0x80
        };
        cmds.push(mse_asym_command(0xB6, 0x10, id_hi, id_lo, usage));
    } else if env.operation == crate::algos::SC_SEC_OPERATION_SIGN && rsa_file {
        let algo: u8 = if env.algorithm_flags & SC_ALGORITHM_RSA_PAD_ISO9796 == 0 {
            0x10
        } else {
            0x11
        };
        cmds.push(mse_asym_command(0xB6, algo, id_hi, id_lo, 0x40));
        cmds.push(mse_asym_command(0xB8, 0x13, id_hi, id_lo, 0x40));
    } else if (env.operation == SC_SEC_OPERATION_DECIPHER || env.operation
        == SC_SEC_OPERATION_DECIPHER_RSAPRIVATE || env.operation == SC_SEC_OPERATION_UNWRAP)
        && rsa_file {
        cmds.push(mse_asym_command(0xB8, 0x13, id_hi, id_lo, 0x40));
    } else if env.operation == SC_SEC_OPERATION_ENCIPHER_RSAPUBLIC && rsa_file {
        cmds.push(mse_asym_command(0xB8, 0x12, id_hi, id_lo, 0x40));
    } else if env.operation == SC_SEC_OPERATION_ENCIPHER_SYMMETRIC || env.operation
        == SC_SEC_OPERATION_DECIPHER_SYMMETRIC {
        if env.flags & SC_SEC_ENV_KEY_REF_PRESENT == 0 || env.flags & SC_SEC_ENV_ALG_REF_PRESENT
            == 0 || env.flags & SC_SEC_ENV_ALG_PRESENT == 0 || env.flags
            & SC_SEC_ENV_KEY_REF_SYMMETRIC == 0 {
            return Err(crate::rv::SC_ERROR_NOT_SUPPORTED);
        }
        if env.algorithm != crate::algos::SC_ALGORITHM_AES && env.algorithm
            != crate::algos::SC_ALGORITHM_3DES && env.algorithm != crate::algos::SC_ALGORITHM_DES {
            return Err(crate::rv::SC_ERROR_NOT_SUPPORTED);
        }
        if env.algorithm == crate::algos::SC_ALGORITHM_AES && env.algorithm_flags
            != SC_ALGORITHM_AES_CBC_PAD && env.algorithm_flags != SC_ALGORITHM_AES_CBC
            && env.algorithm_flags != SC_ALGORITHM_AES_ECB {
            return Err(crate::rv::SC_ERROR_NOT_SUPPORTED);
        }
        let uses_iv: bool = if env.algorithm == crate::algos::SC_ALGORITHM_AES {
            env.algorithm_flags != SC_ALGORITHM_AES_ECB
        } else {
            env.algorithm_ref != 0 && env.algorithm_ref != 1
        };
        let block_len: usize = if env.algorithm == crate::algos::SC_ALGORITHM_AES {
            16
        } else {
            8
        };
        if uses_iv && env.iv.len() != block_len {
            return Err(crate::rv::SC_ERROR_NOT_SUPPORTED);
        }
        let mut body: Vec<u8> = Vec::new();
        body.push(0x95);
        body.push(0x01);
        body.push(0xC0);
        body.push(0x80);
        body.push(0x01);
        body.push((env.algorithm_ref & 0xFF) as u8);
        body.push(0x83);
        body.push(0x01);
        body.push(env.key_ref);
        if uses_iv {
            body.push(0x87);
            body.push(block_len as u8);
            let mut i: usize = 0;
            let ghost head_snap = body@;
            while i < env.iv.len()
                invariant
                    i <= env.iv@.len(),
                    body@ =~= head_snap + env.iv@.take(i as int),
                decreases env.iv@.len() - i,
            {
                body.push(env.iv[i]);
                i = i + 1;
            }
            assert(body@ =~= head_snap + env.iv@);
        }
        let mut cmd: Vec<u8> = Vec::new();
        cmd.push(0x00);
        cmd.push(0x22);
        cmd.push(0x01);
        cmd.push(0xB8);
        cmd.push(body.len() as u8);
        let mut i: usize = 0;
        let ghost cmd_head = cmd@;
        while i < body.len()
            invariant
                i <= body@.len(),
                cmd@ =~= cmd_head + body@.take(i as int),
            decreases body@.len() - i,
        {
            cmd.push(body[i]);
            i = i + 1;
        }
        assert(cmd@ =~= cmd_head + body@);
        assert(body@ =~= (if spec_sym_env_uses_iv(env) {
            seq![0x95u8, 0x01, 0xC0, 0x80, 0x01, (env.algorithm_ref & 0xFF) as u8, 0x83, 0x01,
                env.key_ref] + seq![0x87u8, spec_sym_env_block_len(env) as u8] + env.iv@
        } else {
            seq![0x95u8, 0x01, 0xC0, 0x80, 0x01, (env.algorithm_ref & 0xFF) as u8, 0x83, 0x01,
                env.key_ref]
        }));
        assert(cmd@ =~= spec_mse_sym_command(env));
        cmds.push(cmd);
    }
    let _ = set_sec_env(card, env);
    Ok(cmds)
}


/// The environment the host last set.
pub fn get_sec_env(card: &Session) -> (r: &SecurityEnv)
    ensures
        r == card.sec_env,
{
    &card.sec_env
}

/// The modulus length the current environment implies (zero while
/// unknown).
pub fn get_sec_env_mod_len(card: &Session) -> (r: u16)
    ensures
        r == card.sec_env_mod_len,
{
    card.sec_env_mod_len
}

} // verus!

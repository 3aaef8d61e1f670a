//! The file-system mirror: the driver's in-memory copy of the card's file
//! tree, keyed by file identifier.  The card operating system permits
//! duplicate identifiers in different directories but resolves a SELECT by
//! identifier ambiguously; the driver therefore insists on globally unique
//! identifiers, and the mirror enforces that at creation and enumeration.

use vstd::prelude::*;
use std::collections::HashMap;
use crate::rv::{SC_SUCCESS, SC_ERROR_FILE_NOT_FOUND, SC_ERROR_NOT_ALLOWED};
use crate::se::SacRecord;
use crate::fci::SaeEntry;

verus! {

broadcast use vstd::std_specs::hash::group_hash_axioms;

/// File-descriptor bytes of the card operating system that the mirror's
/// logic distinguishes.
pub const FDB_MF: u8 = 0x3F;
pub const FDB_DF: u8 = 0x38;
pub const FDB_TRANSPARENT_EF: u8 = 0x01;
pub const FDB_LINEAR_FIXED_EF: u8 = 0x02;
pub const FDB_LINEAR_VARIABLE_EF: u8 = 0x04;
pub const FDB_CYCLIC_EF: u8 = 0x06;
pub const FDB_RSA_KEY_EF: u8 = 0x09;
pub const FDB_CHV_EF: u8 = 0x0A;
pub const FDB_SYMMETRIC_KEY_EF: u8 = 0x0C;
pub const FDB_PURSE_EF: u8 = 0x0E;
pub const FDB_ECC_KEY_EF: u8 = 0x19;
pub const FDB_SE_FILE: u8 = 0x1C;

/// Whether a file-descriptor byte names a directory (the master file or a
/// dedicated file).
pub open spec fn spec_is_df_mf(fdb: u8) -> bool {
    fdb == FDB_MF || fdb == FDB_DF
}

pub fn is_df_mf(fdb: u8) -> (r: bool)
    ensures
        r == spec_is_df_mf(fdb),
{
    fdb == FDB_MF || fdb == FDB_DF
}

/// A path is at most eight identifiers deep (sixteen bytes on the card).
pub const MAX_PATH_SEGMENTS: usize = 8;

/// One mirror entry.  `info` keeps the eight file-information bytes in the
/// card's layout: {FDB, path bytes used, id high, id low, record length or
/// size high or SE-file id high, record count or size low or SE-file id
/// low, PKCS#15 file type, life-cycle status}.  `scb8` stays `None` until
/// the file's header has been parsed; `sac` and `sae` are only ever filled
/// for directories.
pub struct FileRecord {
    pub path: Vec<u16>,
    pub info: [u8; 8],
    pub scb8: Option<[u8; 8]>,
    pub sac: Option<Vec<SacRecord>>,
    pub sae: Option<Vec<SaeEntry>>,
}

/// The identifier a record's file-information bytes carry.
pub open spec fn spec_record_id(r: FileRecord) -> u16 {
    ((r.info[2] as u16) << 8) | (r.info[3] as u16)
}

/// A record stored under key `id` is consistent: its information bytes
/// carry `id`, and its path — when already resolved — is no deeper than
/// the card permits and ends at the file itself.
pub open spec fn spec_record_wf(r: FileRecord, id: u16) -> bool {
    &&& spec_record_id(r) == id
    &&& r.path@.len() <= MAX_PATH_SEGMENTS
    &&& r.path@.len() > 0 ==> r.path@.last() == id
}

/// Every entry of the mirror is consistent with its key.
pub open spec fn spec_mirror_wf(m: Map<u16, FileRecord>) -> bool {
    forall|k: u16| m.contains_key(k) ==> spec_record_wf(#[trigger] m[k], k)
}

/// Uniqueness invariant: however the mirror was built up by enumeration,
/// creation and deletion, it never holds two records with the same
/// identifier — two distinct entries always carry distinct identifiers
/// in their file-information bytes.
pub proof fn lemma_mirror_identifier_unique(m: Map<u16, FileRecord>, k1: u16, k2: u16)
    requires
        spec_mirror_wf(m),
        m.contains_key(k1),
        m.contains_key(k2),
        k1 != k2,
    ensures
        spec_record_id(m[k1]) != spec_record_id(m[k2]),
{
}

/// The big-endian identifier bytes, as the card's file-information block
/// carries them.
pub open spec fn spec_id_bytes(id: u16) -> (u8, u8) {
    (((id >> 8) & 0xFF) as u8, (id & 0xFF) as u8)
}

/// Splits an identifier into its big-endian bytes.
pub fn id_bytes(id: u16) -> (r: (u8, u8))
    ensures
        r == spec_id_bytes(id),
        ((r.0 as u16) << 8) | (r.1 as u16) == id,
{
    let hi: u8 = ((id >> 8) & 0xFF) as u8;
    let lo: u8 = (id & 0xFF) as u8;
    proof {
        assert(((hi as u16) << 8) | (lo as u16) == id) by (bit_vector)
            requires
                hi == ((id >> 8) & 0xFF) as u8,
                lo == (id & 0xFF) as u8,
        ;
    }
    (hi, lo)
}

/// The driver's mirror of the card's file system.
pub struct Mirror {
    pub files: HashMap<u16, FileRecord>,
}

impl View for Mirror {
    type V = Map<u16, FileRecord>;

    open spec fn view(&self) -> Map<u16, FileRecord> {
        self.files@
    }
}

impl Mirror {
    pub open spec fn wf(&self) -> bool {
        spec_mirror_wf(self@)
    }

    /// An empty mirror, as a fresh session starts with.
    pub fn new() -> (r: Mirror)
        ensures
            r@ == Map::<u16, FileRecord>::empty(),
            r.wf(),
    {
        Mirror { files: HashMap::new() }
    }

    /// Whether the mirror holds a record for this identifier.
    pub fn contains(&self, id: u16) -> (r: bool)
        ensures
            r == self@.contains_key(id),
    {
        self.files.contains_key(&id)
    }

    /// The record of this identifier, when the mirror holds one.
    pub fn lookup(&self, id: u16) -> (r: Option<&FileRecord>)
        ensures
            match r {
                Some(rec) => self@.contains_key(id) && *rec == self@[id],
                None => !self@.contains_key(id),
            },
    {
        self.files.get(&id)
    }

    /// Registers a file reported by directory enumeration, under the eight
    /// file-information bytes the card supplied; the path stays empty until
    /// the file is visited.  A duplicate identifier is fatal to
    /// initialization: the mirror is left unchanged and enumeration gets
    /// `SC_ERROR_NOT_ALLOWED`.
    pub fn insert_from_enumeration(&mut self, id: u16, info: [u8; 8]) -> (r: i32)
        requires
            old(self).wf(),
            info[2] == spec_id_bytes(id).0,
            info[3] == spec_id_bytes(id).1,
        ensures
            final(self).wf(),
            old(self)@.contains_key(id) ==> r == SC_ERROR_NOT_ALLOWED && final(self)@ == old(self)@,
            !old(self)@.contains_key(id) ==> r == SC_SUCCESS && final(self)@ == old(self)@.insert(
                id,
                final(self)@[id],
            ) && final(self)@[id].info == info && final(self)@[id].path@.len() == 0 && final(self)@[id].scb8 is None,
    {
        if self.files.contains_key(&id) {
            return SC_ERROR_NOT_ALLOWED;
        }
        let rec = FileRecord { path: Vec::new(), info, scb8: None, sac: None, sae: None };
        proof {
            assert(spec_record_id(rec) == id) by {
                let (hi, lo) = spec_id_bytes(id);
                assert(((hi as u16) << 8) | (lo as u16) == id) by (bit_vector)
                    requires
                        hi == ((id >> 8) & 0xFF) as u8,
                        lo == (id & 0xFF) as u8,
                ;
            }
        }
        self.files.insert(id, rec);
        SC_SUCCESS
    }

    /// Registers a file the host just created, with its resolved path.
    /// Creating a file whose identifier the mirror already holds is
    /// refused with `SC_ERROR_NOT_ALLOWED`, and the mirror is unchanged.
    pub fn insert_from_creation(&mut self, id: u16, path: Vec<u16>, info: [u8; 8]) -> (r: i32)
        requires
            old(self).wf(),
            info[2] == spec_id_bytes(id).0,
            info[3] == spec_id_bytes(id).1,
            0 < path@.len() <= MAX_PATH_SEGMENTS,
            path@.last() == id,
        ensures
            final(self).wf(),
            old(self)@.contains_key(id) ==> r == SC_ERROR_NOT_ALLOWED && final(self)@ == old(self)@,
            !old(self)@.contains_key(id) ==> r == SC_SUCCESS && final(self)@ == old(self)@.insert(
                id,
                final(self)@[id],
            ) && final(self)@[id].info == info && final(self)@[id].path == path && final(self)@[id].scb8 is None,
    {
        if self.files.contains_key(&id) {
            return SC_ERROR_NOT_ALLOWED;
        }
        let rec = FileRecord { path, info, scb8: None, sac: None, sae: None };
        proof {
            assert(spec_record_id(rec) == id) by {
                let (hi, lo) = spec_id_bytes(id);
                assert(((hi as u16) << 8) | (lo as u16) == id) by (bit_vector)
                    requires
                        hi == ((id >> 8) & 0xFF) as u8,
                        lo == (id & 0xFF) as u8,
                ;
            }
        }
        self.files.insert(id, rec);
        SC_SUCCESS
    }

    /// Removes the record of a deleted file.
    pub fn remove(&mut self, id: u16) -> (r: i32)
        requires
            old(self).wf(),
        ensures
            final(self).wf(),
            final(self)@ == old(self)@.remove(id),
            old(self)@.contains_key(id) ==> r == SC_SUCCESS,
            !old(self)@.contains_key(id) ==> r == SC_ERROR_FILE_NOT_FOUND,
    {
        proof {
            if !old(self)@.contains_key(id) {
                assert(old(self)@.remove(id) =~= old(self)@);
            }
        }
        match self.files.remove(&id) {
            Some(_) => SC_SUCCESS,
            None => SC_ERROR_FILE_NOT_FOUND,
        }
    }

    /// Records the absolute path under which a file was visited.
    pub fn set_path(&mut self, id: u16, path: Vec<u16>) -> (r: i32)
        requires
            old(self).wf(),
            0 < path@.len() <= MAX_PATH_SEGMENTS,
            path@.last() == id,
        ensures
            final(self).wf(),
            !old(self)@.contains_key(id) ==> r == SC_ERROR_FILE_NOT_FOUND && final(self)@ == old(self)@,
            old(self)@.contains_key(id) ==> r == SC_SUCCESS && final(self)@ =~= old(self)@.insert(
                id,
                final(self)@[id],
            ) && final(self)@[id].path == path && final(self)@[id].info == old(self)@[id].info
                && final(self)@[id].scb8 == old(self)@[id].scb8 && final(self)@[id].sac == old(self)@[id].sac && final(self)@[id].sae == old(self)@[id].sae,
    {
        match self.files.remove(&id) {
            Some(mut rec) => {
                rec.path = path;
                self.files.insert(id, rec);
                proof {
                    assert(final(self)@ =~= old(self)@.insert(id, final(self)@[id]));
                }
                SC_SUCCESS
            },
            None => {
                proof {
                    assert(old(self)@.remove(id) =~= old(self)@);
                }
                SC_ERROR_FILE_NOT_FOUND
            },
        }
    }

    /// Caches the Security-Condition Bytes parsed from a file's header.
    /// The cache is write-once: an `scb8` that is already `Some` keeps its
    /// value, whatever a later select parsed — once known, the conditions
    /// are immutable while the file exists.
    pub fn mark_scb(&mut self, id: u16, scb8: [u8; 8]) -> (r: i32)
        requires
            old(self).wf(),
        ensures
            final(self).wf(),
            !old(self)@.contains_key(id) ==> r == SC_ERROR_FILE_NOT_FOUND && final(self)@ == old(self)@,
            old(self)@.contains_key(id) ==> r == SC_SUCCESS && final(self)@ =~= old(self)@.insert(
                id,
                final(self)@[id],
            ) && final(self)@[id].scb8 == (if old(self)@[id].scb8 is Some {
                old(self)@[id].scb8
            } else {
                Some(scb8)
            }) && final(self)@[id].path == old(self)@[id].path && final(self)@[id].info == old(self)@[id].info && final(self)@[id].sac == old(self)@[id].sac && final(self)@[id].sae
                == old(self)@[id].sae,
    {
        match self.files.remove(&id) {
            Some(mut rec) => {
                if rec.scb8.is_none() {
                    rec.scb8 = Some(scb8);
                }
                self.files.insert(id, rec);
                proof {
                    assert(final(self)@ =~= old(self)@.insert(id, final(self)@[id]));
                }
                SC_SUCCESS
            },
            None => {
                proof {
                    assert(old(self)@.remove(id) =~= old(self)@);
                }
                SC_ERROR_FILE_NOT_FOUND
            },
        }
    }

    /// Appends the security-environment records read for a directory to
    /// its SAC list (creating the list when none was parsed yet).
    pub fn mark_sac(&mut self, id: u16, records: Vec<SacRecord>) -> (r: i32)
        requires
            old(self).wf(),
        ensures
            final(self).wf(),
            !old(self)@.contains_key(id) ==> r == SC_ERROR_FILE_NOT_FOUND && final(self)@ == old(self)@,
            old(self)@.contains_key(id) ==> r == SC_SUCCESS && final(self)@ =~= old(self)@.insert(
                id,
                final(self)@[id],
            ) && (final(self)@[id].sac matches Some(v) && v@ =~= (match old(self)@[id].sac {
                Some(prior) => prior@,
                None => Seq::empty(),
            }) + records@) && final(self)@[id].path == old(self)@[id].path && final(self)@[id].info
                == old(self)@[id].info && final(self)@[id].scb8 == old(self)@[id].scb8 && final(self)@[id].sae == old(self)@[id].sae,
    {
        match self.files.remove(&id) {
            Some(mut rec) => {
                let mut list: Vec<SacRecord> = match rec.sac {
                    Some(prior) => prior,
                    None => Vec::new(),
                };
                let mut records = records;
                let ghost prior_view = list@;
                let ghost added_view = records@;
                list.append(&mut records);
                assert(list@ =~= prior_view + added_view);
                rec.sac = Some(list);
                self.files.insert(id, rec);
                proof {
                    assert(final(self)@ =~= old(self)@.insert(id, final(self)@[id]));
                }
                SC_SUCCESS
            },
            None => {
                proof {
                    assert(old(self)@.remove(id) =~= old(self)@);
                }
                SC_ERROR_FILE_NOT_FOUND
            },
        }
    }

    /// Stores the Security-Attributes-Expanded conditions parsed from a
    /// directory's header, unless some were stored already: the header is
    /// immutable while the directory exists, and data parsed earlier for
    /// the same entry must not be overwritten.
    pub fn mark_sae(&mut self, id: u16, entries: Vec<SaeEntry>) -> (r: i32)
        requires
            old(self).wf(),
        ensures
            final(self).wf(),
            !old(self)@.contains_key(id) ==> r == SC_ERROR_FILE_NOT_FOUND && final(self)@ == old(self)@,
            old(self)@.contains_key(id) ==> r == SC_SUCCESS && final(self)@ =~= old(self)@.insert(
                id,
                final(self)@[id],
            ) && final(self)@[id].sae == (if old(self)@[id].sae is Some {
                old(self)@[id].sae
            } else {
                Some(entries)
            }) && final(self)@[id].path == old(self)@[id].path && final(self)@[id].info == old(self)@[id].info && final(self)@[id].scb8 == old(self)@[id].scb8 && final(self)@[id].sac
                == old(self)@[id].sac,
    {
        match self.files.remove(&id) {
            Some(mut rec) => {
                if rec.sae.is_none() {
                    rec.sae = Some(entries);
                }
                self.files.insert(id, rec);
                proof {
                    assert(final(self)@ =~= old(self)@.insert(id, final(self)@[id]));
                }
                SC_SUCCESS
            },
            None => {
                proof {
                    assert(old(self)@.remove(id) =~= old(self)@);
                }
                SC_ERROR_FILE_NOT_FOUND
            },
        }
    }
}

} // verus!

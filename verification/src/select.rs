//! The SELECT-FILE tracking state machine.
//!
//! The chip's SELECT command takes one two-byte identifier (or a name) and
//! resolves it against several candidate locations, so a hierarchical
//! selection is driven as a run of single-identifier exchanges.  The
//! functions here make the decisions of that run — which exchanges to
//! issue, with which parameters, and how the cursor moves for each
//! possible outcome — while the caller performs the exchanges themselves.

use vstd::prelude::*;
use crate::mirror::{FileRecord, MAX_PATH_SEGMENTS};
use crate::rv::{
    SC_SUCCESS, SC_ERROR_CARD_CMD_FAILED, SC_ERROR_FILE_NOT_FOUND, SC_ERROR_INCORRECT_PARAMETERS,
    SC_ERROR_INVALID_ARGUMENTS, SC_ERROR_NOT_ALLOWED, SC_ERROR_NO_CARD_SUPPORT,
    SC_ERROR_SECURITY_STATUS_NOT_SATISFIED, SC_ERROR_WRONG_LENGTH,
};
use crate::session::Session;

verus! {

/// The ways a selection target is addressed.
pub const SC_PATH_TYPE_FILE_ID: i32 = 0;
pub const SC_PATH_TYPE_DF_NAME: i32 = 1;
pub const SC_PATH_TYPE_PATH: i32 = 2;
pub const SC_PATH_TYPE_FROM_CURRENT: i32 = 4;
pub const SC_PATH_TYPE_PARENT: i32 = 5;

/// One SELECT exchange, ready to be framed as `00 A4 p1 p2 [data] [le]`:
/// the parameter bytes, the command data, and whether the exchange asks
/// the chip to return the file header.
pub struct SelectCommand {
    pub p1: u8,
    pub p2: u8,
    pub data: Vec<u8>,
    pub request_fci: bool,
}

/// Builds the single SELECT exchange for a target given as raw path bytes
/// of the stated addressing type, as the chip expects it:
/// by identifier (exactly two bytes, P1 = 0), by name (P1 = 4), by path
/// from the root (P1 = 8, with a leading `3F 00` consumed: alone it is the
/// master file selected by identifier, otherwise it is stripped), by path
/// from the current directory (P1 = 9), or the parent (P1 = 3, no data).
pub fn build_select_command(path_type: i32, path: &Vec<u8>, request_fci: bool) -> (r: Result<
    SelectCommand,
    i32,
>)
    requires
        path@.len() <= 2 * MAX_PATH_SEGMENTS,
    ensures
        match r {
            Ok(cmd) => {
                &&& cmd.p2 == 0
                &&& cmd.request_fci == request_fci
                &&& (path_type == SC_PATH_TYPE_FILE_ID ==> path@.len() == 2 && cmd.p1 == 0
                    && cmd.data@ =~= path@)
                &&& (path_type == SC_PATH_TYPE_DF_NAME ==> cmd.p1 == 4 && cmd.data@ =~= path@)
                &&& (path_type == SC_PATH_TYPE_PATH ==> (if path@.len() >= 2 && path@[0] == 0x3F
                    && path@[1] == 0x00 {
                    if path@.len() == 2 {
                        cmd.p1 == 0 && cmd.data@ =~= path@
                    } else {
                        cmd.p1 == 8 && cmd.data@ =~= path@.skip(2)
                    }
                } else {
                    cmd.p1 == 8 && cmd.data@ =~= path@
                }))
                &&& (path_type == SC_PATH_TYPE_FROM_CURRENT ==> cmd.p1 == 9 && cmd.data@ =~= path@)
                &&& (path_type == SC_PATH_TYPE_PARENT ==> cmd.p1 == 3 && cmd.data@.len() == 0)
                &&& (path_type == SC_PATH_TYPE_FILE_ID || path_type == SC_PATH_TYPE_DF_NAME
                    || path_type == SC_PATH_TYPE_PATH || path_type == SC_PATH_TYPE_FROM_CURRENT
                    || path_type == SC_PATH_TYPE_PARENT)
            },
            Err(e) => {
                &&& e == SC_ERROR_INVALID_ARGUMENTS
                &&& ((path_type == SC_PATH_TYPE_FILE_ID && path@.len() != 2) || !(path_type
                    == SC_PATH_TYPE_FILE_ID || path_type == SC_PATH_TYPE_DF_NAME || path_type
                    == SC_PATH_TYPE_PATH || path_type == SC_PATH_TYPE_FROM_CURRENT || path_type
                    == SC_PATH_TYPE_PARENT))
            },
        },
{
    let mut data: Vec<u8> = Vec::new();
    if path_type == SC_PATH_TYPE_FILE_ID {
        if path.len() != 2 {
            return Err(SC_ERROR_INVALID_ARGUMENTS);
        }
        data.push(path[0]);
        data.push(path[1]);
        assert(data@ =~= path@);
        Ok(SelectCommand { p1: 0, p2: 0, data, request_fci })
    } else if path_type == SC_PATH_TYPE_DF_NAME {
        copy_all(&mut data, path, 0);
        Ok(SelectCommand { p1: 4, p2: 0, data, request_fci })
    } else if path_type == SC_PATH_TYPE_PATH {
        if path.len() >= 2 && path[0] == 0x3F && path[1] == 0x00 {
            if path.len() == 2 {
                copy_all(&mut data, path, 0);
                Ok(SelectCommand { p1: 0, p2: 0, data, request_fci })
            } else {
                copy_all(&mut data, path, 2);
                Ok(SelectCommand { p1: 8, p2: 0, data, request_fci })
            }
        } else {
            copy_all(&mut data, path, 0);
            Ok(SelectCommand { p1: 8, p2: 0, data, request_fci })
        }
    } else if path_type == SC_PATH_TYPE_FROM_CURRENT {
        copy_all(&mut data, path, 0);
        Ok(SelectCommand { p1: 9, p2: 0, data, request_fci })
    } else if path_type == SC_PATH_TYPE_PARENT {
        Ok(SelectCommand { p1: 3, p2: 0, data, request_fci })
    } else {
        Err(SC_ERROR_INVALID_ARGUMENTS)
    }
}

/// Appends `src[from..]` to `dst`.
fn copy_all(dst: &mut Vec<u8>, src: &Vec<u8>, from: usize)
    requires
        old(dst)@.len() == 0,
        from <= src@.len(),
    ensures
        final(dst)@ =~= src@.skip(from as int),
{
    let mut i: usize = from;
    while i < src.len()
        invariant
            from <= i <= src@.len(),
            dst@ =~= src@.subrange(from as int, i as int),
        decreases src@.len() - i,
    {
        dst.push(src[i]);
        i = i + 1;
    }
    assert(src@.subrange(from as int, src@.len() as int) =~= src@.skip(from as int));
}

/// How many leading path components two paths share.
pub open spec fn spec_common_prefix_len(a: Seq<u16>, b: Seq<u16>) -> int
    decreases a.len(),
{
    if a.len() == 0 || b.len() == 0 || a[0] != b[0] {
        0
    } else {
        1 + spec_common_prefix_len(a.skip(1), b.skip(1))
    }
}

pub proof fn lemma_common_prefix_len_bounds(a: Seq<u16>, b: Seq<u16>)
    ensures
        0 <= spec_common_prefix_len(a, b) <= a.len(),
        spec_common_prefix_len(a, b) <= b.len(),
        forall|i: int| 0 <= i < spec_common_prefix_len(a, b) ==> a[i] == b[i],
    decreases a.len(),
{
    if a.len() == 0 || b.len() == 0 || a[0] != b[0] {
    } else {
        lemma_common_prefix_len_bounds(a.skip(1), b.skip(1));
        assert forall|i: int| 0 <= i < spec_common_prefix_len(a, b) implies a[i] == b[i] by {
            if i > 0 {
                assert(a.skip(1)[i - 1] == b.skip(1)[i - 1]);
            }
        }
    }
}

/// Counts the shared leading components, per `spec_common_prefix_len`.
pub fn common_prefix_len(a: &Vec<u16>, b: &Vec<u16>) -> (r: usize)
    ensures
        r == spec_common_prefix_len(a@, b@),
{
    proof {
        lemma_common_prefix_len_bounds(a@, b@);
    }
    let mut i: usize = 0;
    assert(a@.skip(0) =~= a@);
    assert(b@.skip(0) =~= b@);
    loop
        invariant
            i <= a@.len(),
            i <= b@.len(),
            spec_common_prefix_len(a@, b@) == i + spec_common_prefix_len(
                a@.skip(i as int),
                b@.skip(i as int),
            ),
        ensures
            i == spec_common_prefix_len(a@, b@),
        decreases a@.len() - i,
    {
        if i == a.len() || i == b.len() || a[i] != b[i] {
            assert(spec_common_prefix_len(a@.skip(i as int), b@.skip(i as int)) == 0);
            break;
        }
        proof {
            assert(a@.skip(i as int).skip(1) =~= a@.skip(i + 1));
            assert(b@.skip(i as int).skip(1) =~= b@.skip(i + 1));
            assert(a@.skip(i as int)[0] == a@[i as int]);
        }
        i = i + 1;
    }
    i
}

/// The directory the cursor stands in: the cursor itself when it names a
/// directory (per the mirror's descriptor byte), else the cursor without
/// its last component.
pub open spec fn spec_current_path_df(card: Session) -> Seq<u16> {
    if card.current_path@.len() == 0 {
        Seq::empty()
    } else {
        let last = card.current_path@.last();
        if card.mirror@.contains_key(last) && crate::mirror::spec_is_df_mf(
            card.mirror@[last].info@[0],
        ) {
            card.current_path@
        } else {
            card.current_path@.take(card.current_path@.len() - 1)
        }
    }
}

/// The cursor's directory, per `spec_current_path_df`.
pub fn current_path_df(card: &Session) -> (r: Vec<u16>)
    ensures
        r@ =~= spec_current_path_df(*card),
{
    let mut r: Vec<u16> = Vec::new();
    if card.current_path.len() == 0 {
        return r;
    }
    let last: u16 = card.current_path[card.current_path.len() - 1];
    let whole: bool = match card.mirror.lookup(last) {
        Some(rec) => crate::mirror::is_df_mf(rec.info[0]),
        None => false,
    };
    let upto: usize = if whole {
        card.current_path.len()
    } else {
        card.current_path.len() - 1
    };
    let mut i: usize = 0;
    while i < upto
        invariant
            i <= upto,
            upto <= card.current_path@.len(),
            r@ =~= card.current_path@.take(i as int),
        decreases upto - i,
    {
        r.push(card.current_path[i]);
        i = i + 1;
    }
    assert(card.current_path@.take(card.current_path@.len() as int) =~= card.current_path@);
    r
}

/// The identifiers still to select for `target` when the cursor stands in
/// directory `df`: everything after the shared prefix — but never less
/// than the final component, since selecting the target itself must not
/// be skipped even when the cursor already stands there.
pub open spec fn spec_select_plan(df: Seq<u16>, target: Seq<u16>) -> Seq<u16> {
    let common = spec_common_prefix_len(target, df);
    let keep = if common > target.len() - 1 {
        target.len() - 1
    } else {
        common
    };
    target.skip(keep)
}

/// Plans a selection by hierarchical path: the identifiers to issue, one
/// SELECT each, relative to the already-selected directory.  Don't select
/// more than necessary: components the cursor's directory already shares
/// are skipped, except the final one.  An empty or over-deep path is
/// rejected.
pub fn select_file_by_path(card: &Session, target: &Vec<u16>) -> (r: Result<Vec<u16>, i32>)
    ensures
        1 <= target@.len() <= MAX_PATH_SEGMENTS ==> (r matches Ok(plan) && plan@
            =~= spec_select_plan(spec_current_path_df(*card), target@) && plan@.len() >= 1
            && plan@.last() == target@.last()),
        !(1 <= target@.len() <= MAX_PATH_SEGMENTS) ==> r == Err::<Vec<u16>, i32>(
            SC_ERROR_INVALID_ARGUMENTS,
        ),
{
    if target.len() == 0 || target.len() > MAX_PATH_SEGMENTS {
        return Err(SC_ERROR_INVALID_ARGUMENTS);
    }
    let df: Vec<u16> = current_path_df(card);
    let common: usize = common_prefix_len(target, &df);
    proof {
        lemma_common_prefix_len_bounds(target@, df@);
    }
    let keep: usize = if common > target.len() - 1 {
        target.len() - 1
    } else {
        common
    };
    let mut plan: Vec<u16> = Vec::new();
    let mut i: usize = keep;
    while i < target.len()
        invariant
            keep <= i <= target@.len(),
            plan@ =~= target@.subrange(keep as int, i as int),
        decreases target@.len() - i,
    {
        plan.push(target[i]);
        i = i + 1;
    }
    assert(plan@ =~= target@.skip(keep as int));
    Ok(plan)
}

/// Screens every selection before any exchange is planned: the request
/// must be well-formed — a cursor already established (the session
/// initialized), an even path length of two to sixteen bytes, exactly
/// one identifier when addressing by identifier — else it is refused as
/// invalid; a card without a master file refuses every selection as not
/// allowed; and only the three supported addressing modes reach the
/// chip, the others are beyond this card.
pub fn acos5_select_file_check(card: &Session, path_type: i32, path_byte_len: usize) -> (r: Result<
    (),
    i32,
>)
    ensures
        ({
            let bad_shape = card.current_path@.len() == 0 || path_byte_len % 2 != 0
                || path_byte_len < 2 || path_byte_len > 2 * MAX_PATH_SEGMENTS || (path_type
                == SC_PATH_TYPE_FILE_ID && path_byte_len != 2);
            let unsupported = path_type != SC_PATH_TYPE_FILE_ID && path_type
                != SC_PATH_TYPE_DF_NAME && path_type != SC_PATH_TYPE_PATH;
            if bad_shape {
                r == Err::<(), i32>(SC_ERROR_INVALID_ARGUMENTS)
            } else if !card.does_mf_exist {
                r == Err::<(), i32>(SC_ERROR_NOT_ALLOWED)
            } else if unsupported {
                r == Err::<(), i32>(SC_ERROR_NO_CARD_SUPPORT)
            } else {
                r == Ok::<(), i32>(())
            }
        }),
{
    if card.current_path.len() == 0 || path_byte_len % 2 != 0 || path_byte_len < 2
        || path_byte_len > 2 * MAX_PATH_SEGMENTS || (path_type == SC_PATH_TYPE_FILE_ID
        && path_byte_len != 2) {
        return Err(SC_ERROR_INVALID_ARGUMENTS);
    }
    if !card.does_mf_exist {
        return Err(SC_ERROR_NOT_ALLOWED);
    }
    if path_type != SC_PATH_TYPE_FILE_ID && path_type != SC_PATH_TYPE_DF_NAME && path_type
        != SC_PATH_TYPE_PATH {
        return Err(SC_ERROR_NO_CARD_SUPPORT);
    }
    Ok(())
}

/// Whether a select of this target must request and process the file
/// header: outside initialization, a mirrored file whose
/// Security-Condition Bytes are still unknown must have them parsed
/// before anything else runs against it — the next command may be one
/// that the conditions route through secure messaging.
pub fn select_needs_header(card: &Session, file_id: u16) -> (r: bool)
    ensures
        r == (!card.is_running_init && card.mirror@.contains_key(file_id)
            && card.mirror@[file_id].scb8 is None),
{
    if card.is_running_init {
        return false;
    }
    match card.mirror.lookup(file_id) {
        Some(rec) => rec.scb8.is_none(),
        None => false,
    }
}

/// The outcome codes after which the chip has moved its selection cursor
/// to the target, even where the operation as a whole failed: plain
/// success, a command failure on an invalidated-but-selected file, and
/// missing authorization discovered after the move.
pub open spec fn spec_select_moved_cursor(rv: i32) -> bool {
    rv == SC_SUCCESS || rv == SC_ERROR_CARD_CMD_FAILED || rv
        == SC_ERROR_SECURITY_STATUS_NOT_SATISFIED
}

/// The outcome codes after which the select failed outright and the chip's
/// cursor stands where it stood.
pub open spec fn spec_select_failed_in_place(rv: i32) -> bool {
    rv == SC_ERROR_WRONG_LENGTH || rv == SC_ERROR_NOT_ALLOWED || rv == SC_ERROR_FILE_NOT_FOUND
        || rv == SC_ERROR_INCORRECT_PARAMETERS
}

/// Applies the outcome of one SELECT exchange for `file_id` to the
/// session, keeping the mirror's cursor equal to the chip's: on the
/// outcomes after which the chip moved (success, but also a command
/// failure or missing authorization reported only after the move) the
/// cursor becomes the target's cached path; on a failed select (wrong
/// length, not allowed, file not found, incorrect parameters) the cursor
/// stands unchanged.  Returns the outcome it was given.
///
/// Cursor correctness: on `SC_SUCCESS` the cursor equals the cached path
/// of the resolved target, as the first `ensures` of the moved case
/// states.
pub fn tracking_select_file(card: &mut Session, file_id: u16, rv: i32) -> (r: i32)
    requires
        old(card).wf(),
        spec_select_moved_cursor(rv) || spec_select_failed_in_place(rv),
        spec_select_moved_cursor(rv) ==> old(card).mirror@.contains_key(file_id),
    ensures
        final(card).wf(),
        r == rv,
        final(card).mirror@ == old(card).mirror@,
        final(card).does_mf_exist == old(card).does_mf_exist,
        final(card).is_running_init == old(card).is_running_init,
        final(card).is_running_cmd_long_response == old(card).is_running_cmd_long_response,
        final(card).is_running_compute_signature == old(card).is_running_compute_signature,
        final(card).sec_env == old(card).sec_env,
        final(card).sec_env_mod_len == old(card).sec_env_mod_len,
        spec_select_moved_cursor(rv) ==> final(card).current_path@ == old(card).mirror@[file_id].path@,
        spec_select_failed_in_place(rv) ==> final(card).current_path@ == old(card).current_path@,
{
    if rv == SC_SUCCESS || rv == SC_ERROR_CARD_CMD_FAILED || rv
        == SC_ERROR_SECURITY_STATUS_NOT_SATISFIED {
        let mut path: Vec<u16> = Vec::new();
        match card.mirror.lookup(file_id) {
            Some(rec) => {
                let mut i: usize = 0;
                while i < rec.path.len()
                    invariant
                        i <= rec.path@.len(),
                        rec == card.mirror@[file_id],
                        card.mirror@.contains_key(file_id),
                        card.wf(),
                        path@ =~= rec.path@.take(i as int),
                    decreases rec.path@.len() - i,
                {
                    path.push(rec.path[i]);
                    i = i + 1;
                }
                assert(path@ =~= rec.path@);
                proof {
                    assert(card.mirror@[file_id].path@.len() <= MAX_PATH_SEGMENTS);
                }
            },
            None => {
                proof {
                    assert(false);
                }
            },
        }
        card.current_path = path;
    }
    rv
}

/// The cursor a run of SELECT exchanges leaves when every exchange in it
/// reports an outcome that moves the chip's cursor: each step replaces
/// the cursor with the cached path of the identifier selected, exactly as
/// `tracking_select_file` does.
pub open spec fn spec_apply_selects(
    m: Map<u16, FileRecord>,
    cursor: Seq<u16>,
    ids: Seq<u16>,
) -> Seq<u16>
    decreases ids.len(),
{
    if ids.len() == 0 {
        cursor
    } else if m.contains_key(ids[0]) {
        spec_apply_selects(m, m[ids[0]].path@, ids.skip(1))
    } else {
        spec_apply_selects(m, cursor, ids.skip(1))
    }
}

/// A nonempty run of selects, all of whose identifiers the mirror holds,
/// leaves the cursor at the cached path of its last identifier — whatever
/// the cursor was before.
pub proof fn lemma_apply_selects_last(m: Map<u16, FileRecord>, cursor: Seq<u16>, ids: Seq<u16>)
    requires
        ids.len() > 0,
        forall|i: int| 0 <= i < ids.len() ==> m.contains_key(#[trigger] ids[i]),
    ensures
        spec_apply_selects(m, cursor, ids) == m[ids.last()].path@,
    decreases ids.len(),
{
    assert(m.contains_key(ids[0]));
    if ids.len() == 1 {
        assert(ids.skip(1).len() == 0);
        assert(spec_apply_selects(m, m[ids[0]].path@, ids.skip(1)) == m[ids[0]].path@);
        assert(ids.last() == ids[0]);
    } else {
        assert(forall|i: int|
            0 <= i < ids.skip(1).len() ==> m.contains_key(#[trigger] ids.skip(1)[i]));
        lemma_apply_selects_last(m, m[ids[0]].path@, ids.skip(1));
        assert(ids.skip(1).last() == ids.last());
    }
}

/// Prefix-skip preserves correctness: when the mirror holds every
/// component of the target path, running only the planned tail of
/// segments from the current cursor ends with the same cursor as running
/// every segment of the path from an unselected state — and since each
/// step leaves the mirror untouched (see `tracking_select_file`), the
/// mirror agrees as well.
pub proof fn lemma_prefix_skip_preserves_outcome(
    m: Map<u16, FileRecord>,
    df: Seq<u16>,
    cursor: Seq<u16>,
    target: Seq<u16>,
)
    requires
        1 <= target.len(),
        forall|i: int| 0 <= i < target.len() ==> m.contains_key(#[trigger] target[i]),
    ensures
        spec_apply_selects(m, cursor, spec_select_plan(df, target)) == spec_apply_selects(
            m,
            Seq::empty(),
            target,
        ),
{
    let plan = spec_select_plan(df, target);
    lemma_common_prefix_len_bounds(target, df);
    assert(plan.len() >= 1);
    assert(plan.last() == target.last());
    assert(forall|i: int| 0 <= i < plan.len() ==> m.contains_key(#[trigger] plan[i])) by {
        let common = spec_common_prefix_len(target, df);
        let keep = if common > target.len() - 1 {
            target.len() - 1
        } else {
            common
        };
        assert(forall|i: int|
            0 <= i < plan.len() ==> plan[i] == target[i + keep] && m.contains_key(
                #[trigger] plan[i],
            ));
    }
    lemma_apply_selects_last(m, cursor, plan);
    lemma_apply_selects_last(m, Seq::empty(), target);
}

} // verus!

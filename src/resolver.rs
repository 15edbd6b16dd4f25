use vstd::prelude::*;
use vstd::string::StrSliceExecFns;
use crate::error::ConductorApiError;
use crate::types::{AppInfo, CellId, CellInfo, RoleCells};

verus! {

/// Separates a clone id's base role name from its index.
pub const CLONE_ID_DELIMITER: char = '.';

/// Identifies a clone cell: by its cell id, or by its clone id `"<role>.<index>"`.
#[derive(Clone, Debug)]
pub enum CloneCellId {
    CellId(CellId),
    CloneId(String),
}

/// The decimal digit `d`.
pub open spec fn digit_char(d: nat) -> char {
    seq!['0', '1', '2', '3', '4', '5', '6', '7', '8', '9'][d as int]
}

/// The decimal representation of `n`, without leading zeros.
pub open spec fn decimal_digits(n: nat) -> Seq<char>
    decreases n,
{
    if n < 10 {
        seq![digit_char(n)]
    } else {
        decimal_digits(n / 10) + seq![digit_char(n % 10)]
    }
}

/// The clone id of the clone with index `index` of role `role`.
pub open spec fn clone_id_of(role: Seq<char>, index: nat) -> Seq<char> {
    role + seq![CLONE_ID_DELIMITER] + decimal_digits(index)
}

/// Relies on holochain_zome_types' `CloneId::new`: the role name, the
/// delimiter and the index written in decimal.
#[verifier::external_body]
fn format_clone_id(role_name: &String, clone_index: u32) -> (r: String)
    ensures
        r@ == clone_id_of(role_name@, clone_index as nat),
{
    holochain_zome_types::prelude::CloneId::new(role_name, clone_index).0
}

proof fn lemma_delimiter_after(s: Seq<char>, n: int, i: int)
    requires
        0 <= i <= n < s.len(),
        s[n] == CLONE_ID_DELIMITER,
        forall|k: int| 0 <= k < n ==> s[k] != CLONE_ID_DELIMITER,
    ensures
        first_delimiter_from(s, i) == n,
    decreases n - i,
{
    if i < n {
        lemma_delimiter_after(s, n, i + 1);
    }
}

/// A clone id names a clone, and its base role name is the role it was made
/// from, where that role name holds no delimiter itself.
pub proof fn lemma_clone_id_base(role: Seq<char>, index: nat)
    requires
        forall|k: int| 0 <= k < role.len() ==> role[k] != CLONE_ID_DELIMITER,
    ensures
        is_clone_name(clone_id_of(role, index)),
        base_role_name(clone_id_of(role, index)) == role,
{
    let s = clone_id_of(role, index);
    assert(s[role.len() as int] == CLONE_ID_DELIMITER);
    assert forall|k: int| 0 <= k < role.len() implies s[k] != CLONE_ID_DELIMITER by {
        assert(s[k] == role[k]);
    }
    lemma_delimiter_after(s, role.len() as int, 0);
    assert(s.subrange(0, role.len() as int) =~= role);
}

impl CloneCellId {
    /// The clone with index `clone_index` of the role `role_name`.
    pub fn by_index(role_name: &String, clone_index: u32) -> (r: CloneCellId)
        ensures
            r matches CloneCellId::CloneId(id) && id@ == clone_id_of(role_name@, clone_index as nat),
    {
        CloneCellId::CloneId(format_clone_id(role_name, clone_index))
    }
}

/// What a zome call is addressed to.
#[derive(Clone, Debug)]
pub enum ZomeCallTarget {
    /// A cell given by its id.
    CellId(CellId),
    /// A cell given by its role name; a name with a `.` names a clone.
    RoleName(String),
    /// A clone cell.
    CloneId(CloneCellId),
}

/// Why a target could not be resolved.
#[derive(Clone, Copy, Debug, PartialEq, Eq, Structural)]
pub enum ResolveFailure {
    RoleNotFound,
    CellNotFound,
}

/// The position of the first delimiter in `s` at or after `i`, or `s.len()`.
pub open spec fn first_delimiter_from(s: Seq<char>, i: int) -> int
    decreases s.len() - i,
{
    if i >= s.len() {
        s.len() as int
    } else if s[i] == CLONE_ID_DELIMITER {
        i
    } else {
        first_delimiter_from(s, i + 1)
    }
}

proof fn lemma_first_delimiter_bounds(s: Seq<char>, i: int)
    requires
        0 <= i <= s.len(),
    ensures
        i <= first_delimiter_from(s, i) <= s.len(),
    decreases s.len() - i,
{
    if i < s.len() && s[i] != CLONE_ID_DELIMITER {
        lemma_first_delimiter_bounds(s, i + 1);
    }
}

/// The position of the first delimiter in `s`, or `s.len()` if it has none.
pub open spec fn first_delimiter(s: Seq<char>) -> int {
    first_delimiter_from(s, 0)
}

/// Whether a role name names a clone: it holds the delimiter.
pub open spec fn is_clone_name(s: Seq<char>) -> bool {
    first_delimiter(s) < s.len()
}

/// The base role name of a clone id: what stands before its first delimiter.
pub open spec fn base_role_name(s: Seq<char>) -> Seq<char> {
    s.subrange(0, first_delimiter(s))
}

/// The cell of the first provisioned slot among `cells`.
pub open spec fn first_provisioned(cells: Seq<CellInfo>) -> Option<CellId>
    decreases cells.len(),
{
    if cells.len() == 0 {
        None
    } else {
        match cells[0] {
            CellInfo::Provisioned { cell_id } => Some(cell_id),
            _ => first_provisioned(cells.drop_first()),
        }
    }
}

/// The cell of the first cloned slot among `cells` whose clone id is `name`.
pub open spec fn first_clone_named(cells: Seq<CellInfo>, name: Seq<char>) -> Option<CellId>
    decreases cells.len(),
{
    if cells.len() == 0 {
        None
    } else {
        match cells[0] {
            CellInfo::Cloned { cell_id, clone_id } => if clone_id@ == name {
                Some(cell_id)
            } else {
                first_clone_named(cells.drop_first(), name)
            },
            _ => first_clone_named(cells.drop_first(), name),
        }
    }
}

/// Resolution of a clone id: among the cloned cells of its base role, the
/// one whose clone id is exactly `name`.
pub open spec fn resolve_clone_name(roles: Seq<RoleCells>, name: Seq<char>) -> Result<
    (Seq<u8>, Seq<u8>),
    ResolveFailure,
> {
    match crate::types::cells_of_role(roles, base_role_name(name)) {
        None => Err(ResolveFailure::RoleNotFound),
        Some(cells) => match first_clone_named(cells, name) {
            Some(c) => Ok(c@),
            None => Err(ResolveFailure::CellNotFound),
        },
    }
}

/// Resolution of a role name: a clone id goes to its clone, any other name
/// to the provisioned cell of that role.
pub open spec fn resolve_role_name(roles: Seq<RoleCells>, name: Seq<char>) -> Result<
    (Seq<u8>, Seq<u8>),
    ResolveFailure,
> {
    if is_clone_name(name) {
        resolve_clone_name(roles, name)
    } else {
        match crate::types::cells_of_role(roles, name) {
            None => Err(ResolveFailure::RoleNotFound),
            Some(cells) => match first_provisioned(cells) {
                Some(c) => Ok(c@),
                None => Err(ResolveFailure::CellNotFound),
            },
        }
    }
}

/// Resolution of any target against a topology.
pub open spec fn resolve_spec(roles: Seq<RoleCells>, target: ZomeCallTarget) -> Result<
    (Seq<u8>, Seq<u8>),
    ResolveFailure,
> {
    match target {
        ZomeCallTarget::CellId(c) => Ok(c@),
        ZomeCallTarget::RoleName(name) => resolve_role_name(roles, name@),
        ZomeCallTarget::CloneId(CloneCellId::CellId(c)) => Ok(c@),
        ZomeCallTarget::CloneId(CloneCellId::CloneId(name)) => resolve_clone_name(roles, name@),
    }
}

/// The library error that stands for a resolution failure.
pub open spec fn failure_error(f: ResolveFailure) -> ConductorApiError {
    match f {
        ResolveFailure::RoleNotFound => ConductorApiError::RoleNotFound,
        ResolveFailure::CellNotFound => ConductorApiError::CellNotFound,
    }
}

/// Whether an executable result is the resolution `s`.
pub open spec fn is_resolution(
    r: Result<CellId, ConductorApiError>,
    s: Result<(Seq<u8>, Seq<u8>), ResolveFailure>,
) -> bool {
    match (r, s) {
        (Ok(c), Ok(v)) => c@ == v,
        (Err(e), Err(f)) => e == failure_error(f),
        _ => false,
    }
}

fn failure(f: ResolveFailure) -> (e: ConductorApiError)
    ensures
        e == failure_error(f),
{
    match f {
        ResolveFailure::RoleNotFound => ConductorApiError::RoleNotFound,
        ResolveFailure::CellNotFound => ConductorApiError::CellNotFound,
    }
}

/// The position of the first delimiter in `s`, or its length.
pub fn find_delimiter(s: &str) -> (k: usize)
    ensures
        k == first_delimiter(s@),
        k <= s@.len(),
{
    proof {
        lemma_first_delimiter_bounds(s@, 0);
    }
    let n = s.unicode_len();
    let mut i: usize = 0;
    while i < n
        invariant
            n == s@.len(),
            i <= n,
            first_delimiter_from(s@, i as int) == first_delimiter(s@),
        decreases n - i,
    {
        if s.get_char(i) == CLONE_ID_DELIMITER {
            return i;
        }
        i = i + 1;
    }
    i
}

/// Whether a role name names a clone cell.
pub fn is_clone_id(role_name: &str) -> (r: bool)
    ensures
        r == is_clone_name(role_name@),
{
    find_delimiter(role_name) < role_name.unicode_len()
}

/// The base role name of a clone id.
pub fn get_base_role_name_from_clone_id(role_name: &str) -> (r: String)
    ensures
        r@ == base_role_name(role_name@),
{
    let k = find_delimiter(role_name);
    role_name.substring_char(0, k).to_owned()
}

/// The position of the first entry of `role` in `roles`, if any.
fn find_role(roles: &Vec<RoleCells>, role: &String) -> (r: Option<usize>)
    ensures
        match r {
            Some(i) => i < roles@.len() && crate::types::cells_of_role(roles@, role@) == Some(
                roles@[i as int].cells@,
            ),
            None => crate::types::cells_of_role(roles@, role@) is None,
        },
{
    let mut i: usize = 0;
    assert(roles@.subrange(0, roles@.len() as int) =~= roles@);
    while i < roles.len()
        invariant
            i <= roles@.len(),
            crate::types::cells_of_role(roles@, role@) == crate::types::cells_of_role(
                roles@.subrange(i as int, roles@.len() as int),
                role@,
            ),
        decreases roles@.len() - i,
    {
        assert(roles@.subrange(i as int, roles@.len() as int).drop_first() =~= roles@.subrange(
            i + 1,
            roles@.len() as int,
        ));
        if roles[i].role_name == *role {
            return Some(i);
        }
        i = i + 1;
    }
    None
}

fn find_provisioned(cells: &Vec<CellInfo>) -> (r: Option<CellId>)
    ensures
        match (r, first_provisioned(cells@)) {
            (Some(c), Some(d)) => c@ == d@,
            (None, None) => true,
            _ => false,
        },
{
    let mut i: usize = 0;
    assert(cells@.subrange(0, cells@.len() as int) =~= cells@);
    while i < cells.len()
        invariant
            i <= cells@.len(),
            first_provisioned(cells@) == first_provisioned(
                cells@.subrange(i as int, cells@.len() as int),
            ),
        decreases cells@.len() - i,
    {
        assert(cells@.subrange(i as int, cells@.len() as int).drop_first() =~= cells@.subrange(
            i + 1,
            cells@.len() as int,
        ));
        match &cells[i] {
            CellInfo::Provisioned { cell_id } => {
                return Some(cell_id.copy());
            },
            _ => {},
        }
        i = i + 1;
    }
    None
}

fn find_clone(cells: &Vec<CellInfo>, name: &String) -> (r: Option<CellId>)
    ensures
        match (r, first_clone_named(cells@, name@)) {
            (Some(c), Some(d)) => c@ == d@,
            (None, None) => true,
            _ => false,
        },
{
    let mut i: usize = 0;
    assert(cells@.subrange(0, cells@.len() as int) =~= cells@);
    while i < cells.len()
        invariant
            i <= cells@.len(),
            first_clone_named(cells@, name@) == first_clone_named(
                cells@.subrange(i as int, cells@.len() as int),
                name@,
            ),
        decreases cells@.len() - i,
    {
        assert(cells@.subrange(i as int, cells@.len() as int).drop_first() =~= cells@.subrange(
            i + 1,
            cells@.len() as int,
        ));
        match &cells[i] {
            CellInfo::Cloned { cell_id, clone_id } => {
                if *clone_id == *name {
                    return Some(cell_id.copy());
                }
            },
            _ => {},
        }
        i = i + 1;
    }
    None
}

fn resolve_clone(app_info: &AppInfo, name: &String) -> (r: Result<CellId, ConductorApiError>)
    ensures
        is_resolution(r, resolve_clone_name(app_info.cell_info@, name@)),
{
    let base = get_base_role_name_from_clone_id(name.as_str());
    match find_role(&app_info.cell_info, &base) {
        None => Err(failure(ResolveFailure::RoleNotFound)),
        Some(i) => match find_clone(&app_info.cell_info[i].cells, name) {
            Some(c) => Ok(c),
            None => Err(failure(ResolveFailure::CellNotFound)),
        },
    }
}

/// The cell that a role name stands for in the topology.
pub fn get_cell_id_from_role_name(app_info: &AppInfo, role_name: &String) -> (r: Result<
    CellId,
    ConductorApiError,
>)
    ensures
        is_resolution(r, resolve_role_name(app_info.cell_info@, role_name@)),
{
    if is_clone_id(role_name.as_str()) {
        resolve_clone(app_info, role_name)
    } else {
        match find_role(&app_info.cell_info, role_name) {
            None => Err(failure(ResolveFailure::RoleNotFound)),
            Some(i) => match find_provisioned(&app_info.cell_info[i].cells) {
                Some(c) => Ok(c),
                None => Err(failure(ResolveFailure::CellNotFound)),
            },
        }
    }
}

/// Resolves a call target against a topology snapshot. A cell id is returned
/// as it is; names are looked up; nothing is changed.
pub fn resolve(target: &ZomeCallTarget, app_info: &AppInfo) -> (r: Result<CellId, ConductorApiError>)
    ensures
        is_resolution(r, resolve_spec(app_info.cell_info@, *target)),
{
    match target {
        ZomeCallTarget::CellId(c) => Ok(c.copy()),
        ZomeCallTarget::RoleName(name) => get_cell_id_from_role_name(app_info, name),
        ZomeCallTarget::CloneId(CloneCellId::CellId(c)) => Ok(c.copy()),
        ZomeCallTarget::CloneId(CloneCellId::CloneId(name)) => resolve_clone(app_info, name),
    }
}

} // verus!

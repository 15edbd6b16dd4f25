use vstd::prelude::*;

verus! {

/// Number of bytes of a full hash: a three-byte type prefix, the 32-byte
/// core and four location bytes.
pub const HASH_LEN: usize = 39;

/// Identifies one cell: the hash of its DNA and the agent that runs it.
/// Both are full 39-byte hashes; equality is structural.
#[derive(Clone, Debug)]
pub struct CellId {
    pub dna_hash: Vec<u8>,
    pub agent_pub_key: Vec<u8>,
}

impl View for CellId {
    type V = (Seq<u8>, Seq<u8>);

    open spec fn view(&self) -> (Seq<u8>, Seq<u8>) {
        (self.dna_hash@, self.agent_pub_key@)
    }
}

/// Byte-wise equality of two byte strings.
pub fn bytes_equal(a: &[u8], b: &[u8]) -> (r: bool)
    ensures
        r == (a@ == b@),
{
    if a.len() != b.len() {
        return false;
    }
    let mut i: usize = 0;
    while i < a.len()
        invariant
            a@.len() == b@.len(),
            i <= a@.len(),
            forall|k: int| 0 <= k < i ==> a@[k] == b@[k],
        decreases a@.len() - i,
    {
        if a[i] != b[i] {
            return false;
        }
        i = i + 1;
    }
    assert(a@ =~= b@);
    true
}

/// A copy of a byte string.
pub fn copy_bytes(a: &Vec<u8>) -> (r: Vec<u8>)
    ensures
        r@ == a@,
{
    let mut r: Vec<u8> = Vec::new();
    let mut i: usize = 0;
    while i < a.len()
        invariant
            i <= a@.len(),
            r@ == a@.subrange(0, i as int),
        decreases a@.len() - i,
    {
        r.push(a[i]);
        i = i + 1;
        assert(r@ =~= a@.subrange(0, i as int));
    }
    assert(a@.subrange(0, a@.len() as int) =~= a@);
    r
}

impl CellId {
    pub fn new(dna_hash: Vec<u8>, agent_pub_key: Vec<u8>) -> (r: CellId)
        ensures
            r.dna_hash@ == dna_hash@,
            r.agent_pub_key@ == agent_pub_key@,
    {
        CellId { dna_hash, agent_pub_key }
    }

    /// Whether both hashes have the length of a full hash.
    pub open spec fn well_formed(&self) -> bool {
        self.dna_hash@.len() == HASH_LEN && self.agent_pub_key@.len() == HASH_LEN
    }

    /// Structural equality.
    pub fn equals(&self, other: &CellId) -> (r: bool)
        ensures
            r == (self@ == other@),
    {
        bytes_equal(self.dna_hash.as_slice(), other.dna_hash.as_slice())
            && bytes_equal(self.agent_pub_key.as_slice(), other.agent_pub_key.as_slice())
    }

    pub fn copy(&self) -> (r: CellId)
        ensures
            r@ == self@,
    {
        CellId { dna_hash: copy_bytes(&self.dna_hash), agent_pub_key: copy_bytes(&self.agent_pub_key) }
    }
}

/// One cell slot of a role, as the host reports it.
#[derive(Clone, Debug)]
pub enum CellInfo {
    /// The cell that was created with the app, under its base role.
    Provisioned { cell_id: CellId },
    /// A clone of the role's cell, with its clone id (`"<role>.<index>"`).
    Cloned { cell_id: CellId, clone_id: String },
    /// A cell that has not been created yet and has no id.
    Stem,
}

impl CellInfo {
    /// The id of the cell, if it has one.
    pub open spec fn cell_of(&self) -> Option<CellId> {
        match self {
            CellInfo::Provisioned { cell_id } => Some(*cell_id),
            CellInfo::Cloned { cell_id, .. } => Some(*cell_id),
            CellInfo::Stem => None,
        }
    }

    /// Whether this slot carries `cell`.
    pub open spec fn carries(&self, cell: (Seq<u8>, Seq<u8>)) -> bool {
        match self.cell_of() {
            Some(c) => c@ == cell,
            None => false,
        }
    }
}

/// The cells that stand under one role name.
#[derive(Clone, Debug)]
pub struct RoleCells {
    pub role_name: String,
    pub cells: Vec<CellInfo>,
}

/// A snapshot of an installed app's topology: role names with their cells.
/// A snapshot is replaced as a whole on refresh.
#[derive(Clone, Debug)]
pub struct AppInfo {
    pub installed_app_id: String,
    pub agent_pub_key: Vec<u8>,
    pub cell_info: Vec<RoleCells>,
}

/// The cells under `role` in `roles`: those of its first entry.
pub open spec fn cells_of_role(roles: Seq<RoleCells>, role: Seq<char>) -> Option<Seq<CellInfo>>
    decreases roles.len(),
{
    if roles.len() == 0 {
        None
    } else if roles[0].role_name@ == role {
        Some(roles[0].cells@)
    } else {
        cells_of_role(roles.drop_first(), role)
    }
}

/// Whether some cell slot of the topology carries `cell`.
pub open spec fn topology_has_cell(roles: Seq<RoleCells>, cell: (Seq<u8>, Seq<u8>)) -> bool {
    exists|i: int, j: int|
        0 <= i < roles.len() && 0 <= j < roles[i].cells@.len()
            && (#[trigger] roles[i].cells@[j]).carries(cell)
}

impl AppInfo {
    /// Whether `cell` belongs to this app.
    pub fn has_cell(&self, cell: &CellId) -> (r: bool)
        ensures
            r == topology_has_cell(self.cell_info@, cell@),
    {
        let mut i: usize = 0;
        while i < self.cell_info.len()
            invariant
                i <= self.cell_info@.len(),
                forall|a: int, b: int|
                    0 <= a < i && 0 <= b < self.cell_info@[a].cells@.len() ==> !(
                    #[trigger] self.cell_info@[a].cells@[b]).carries(cell@),
            decreases self.cell_info@.len() - i,
        {
            let cells = &self.cell_info[i].cells;
            let mut j: usize = 0;
            while j < cells.len()
                invariant
                    i < self.cell_info@.len(),
                    cells@ == self.cell_info@[i as int].cells@,
                    j <= cells@.len(),
                    forall|b: int|
                        0 <= b < j ==> !(#[trigger] cells@[b]).carries(cell@),
                decreases cells@.len() - j,
            {
                let found = match &cells[j] {
                    CellInfo::Provisioned { cell_id } => cell_id.equals(cell),
                    CellInfo::Cloned { cell_id, .. } => cell_id.equals(cell),
                    CellInfo::Stem => false,
                };
                if found {
                    assert(self.cell_info@[i as int].cells@[j as int].carries(cell@));
                    return true;
                }
                j = j + 1;
            }
            i = i + 1;
        }
        false
    }
}

} // verus!

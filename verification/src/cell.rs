use vstd::prelude::*;

verus! {

/// One ledger cell: a value (`capacity`), the content hash of its
/// controlling script (`lock_hash`), the optional content hash of an
/// associated asset script (`type_hash`), and an opaque data payload.
///
/// Cells are never mutated in place: a transaction consumes existing
/// cells as inputs and produces fresh cells as outputs.
pub struct Cell {
    pub capacity: u64,
    pub lock_hash: Vec<u8>,
    pub type_hash: Option<Vec<u8>>,
    pub data: Vec<u8>,
}

/// Mathematical image of a [`Cell`].
pub ghost struct CellModel {
    pub capacity: u64,
    pub lock_hash: Seq<u8>,
    pub type_hash: Option<Seq<u8>>,
    pub data: Seq<u8>,
}

impl View for Cell {
    type V = CellModel;

    open spec fn view(&self) -> CellModel {
        CellModel {
            capacity: self.capacity,
            lock_hash: self.lock_hash@,
            type_hash: match self.type_hash {
                Some(h) => Some(h@),
                None => None,
            },
            data: self.data@,
        }
    }
}

/// The images of a list of cells, in order.
pub open spec fn views_of(cells: Seq<Cell>) -> Seq<CellModel> {
    cells.map_values(|c: Cell| c@)
}

/// The two ordered cell lists of one transaction. Witness byte strings
/// travel beside the transaction but neither validator reads them, so
/// they are not part of the model.
pub struct Transaction {
    pub inputs: Vec<Cell>,
    pub outputs: Vec<Cell>,
}

/// Mathematical image of a [`Transaction`].
pub ghost struct TransactionModel {
    pub inputs: Seq<CellModel>,
    pub outputs: Seq<CellModel>,
}

impl View for Transaction {
    type V = TransactionModel;

    open spec fn view(&self) -> TransactionModel {
        TransactionModel { inputs: views_of(self.inputs@), outputs: views_of(self.outputs@) }
    }
}

/// The cells agree on every attribute but possibly the data payload.
pub open spec fn non_data_eq(a: CellModel, b: CellModel) -> bool {
    &&& a.capacity == b.capacity
    &&& a.lock_hash == b.lock_hash
    &&& a.type_hash == b.type_hash
}

/// Byte-for-byte equality of two byte strings.
pub fn bytes_eq(a: &[u8], b: &[u8]) -> (r: bool)
    ensures
        r == (a@ == b@),
{
    if a.len() != b.len() {
        return false;
    }
    let n: usize = a.len();
    let mut i: usize = 0;
    while i < n
        invariant
            n == a@.len() == b@.len(),
            i <= n,
            forall|k: int| 0 <= k < i ==> a@[k] == b@[k],
        decreases n - i,
    {
        if a[i] != b[i] {
            return false;
        }
        i += 1;
    }
    proof {
        assert(a@ =~= b@);
    }
    true
}

/// Equality of two optional identities: both absent, or both present and
/// byte-for-byte equal.
pub fn opt_hash_eq(a: &Option<Vec<u8>>, b: &Option<Vec<u8>>) -> (r: bool)
    ensures
        r == (match (a, b) {
            (Some(x), Some(y)) => x@ == y@,
            (None, None) => true,
            _ => false,
        }),
{
    match (a, b) {
        (Some(x), Some(y)) => bytes_eq(x.as_slice(), y.as_slice()),
        (None, None) => true,
        _ => false,
    }
}

/// Decides [`non_data_eq`] on two cells: capacity, lock identity and type
/// identity must all coincide; the data payloads are not consulted.
pub fn cells_non_data_eq(a: &Cell, b: &Cell) -> (r: bool)
    ensures
        r == non_data_eq(a@, b@),
{
    a.capacity == b.capacity && bytes_eq(a.lock_hash.as_slice(), b.lock_hash.as_slice())
        && opt_hash_eq(&a.type_hash, &b.type_hash)
}

} // verus!

//! Handles to the data that URL values are resolved with, and their compact
//! form for memory that several processes share.
use vstd::prelude::*;
use vstd::string::StringExecFns;

verus! {

/// Whether the scheme of a URL is that of the user interface, whose style
/// sheets may use rules that content may not.
pub fn is_chrome_scheme(scheme: &str) -> (chrome: bool)
    ensures
        chrome == (scheme@ == "chrome"@),
{
    String::from_str(scheme) == String::from_str("chrome")
}

/// Why a value cannot be written to shared memory.
#[derive(Clone, Copy, Debug, PartialEq, Eq, Structural)]
pub enum SnapshotError {
    /// The URL data of a sheet is not in the table of shared URL data, so no
    /// other process could find it.
    Unshareable,
}

impl SnapshotError {
    /// The message for this error.
    pub fn message(&self) -> (message: &'static str)
        ensures
            message@
                == "ToShmem failed for UrlExtraData: expected sheet's URLExtraData to be in URLExtraData::sShared"@,
    {
        "ToShmem failed for UrlExtraData: expected sheet's URLExtraData to be in URLExtraData::sShared"
    }
}

/// Extra data that the backend may need to resolve url values.
///
/// If the lowest bit is 0, then this is a strong reference to a URL data
/// object, held as the address of the object.
///
/// Otherwise, shifting the bits to the right by one gives the index of a
/// user-agent style sheet, whose URL data stands at that index in the table
/// of shared URL data. No reference is held to that object: the objects of the
/// table are kept alive until shutdown.
#[derive(Clone, Copy, Debug, PartialEq, Eq, Structural)]
pub struct UrlExtraData(pub(crate) usize);

/// The first position of `address` in the table, if it is there.
pub open spec fn position_in(shared: Seq<usize>, address: usize) -> Option<int> {
    if exists|i: int| 0 <= i < shared.len() && shared[i] == address {
        Some(
            choose|i: int|
                0 <= i < shared.len() && shared[i] == address && forall|j: int|
                    0 <= j < i ==> shared[j] != address,
        )
    } else {
        None
    }
}

/// Where the address is in the table, it has a first position there, and
/// `position_in` names it.
pub proof fn lemma_position_in(shared: Seq<usize>, address: usize)
    ensures
        match position_in(shared, address) {
            Some(i) => 0 <= i < shared.len() && shared[i] == address && forall|j: int|
                0 <= j < i ==> shared[j] != address,
            None => forall|i: int| 0 <= i < shared.len() ==> shared[i] != address,
        },
{
    if exists|i: int| 0 <= i < shared.len() && shared[i] == address {
        let k = choose|i: int| 0 <= i < shared.len() && shared[i] == address;
        lemma_first_exists(shared, address, k);
    }
}

proof fn lemma_first_exists(shared: Seq<usize>, address: usize, k: int)
    requires
        0 <= k < shared.len(),
        shared[k] == address,
    ensures
        exists|i: int|
            0 <= i < shared.len() && shared[i] == address && forall|j: int|
                0 <= j < i ==> shared[j] != address,
    decreases k,
{
    if exists|j: int| 0 <= j < k && shared[j] == address {
        let j = choose|j: int| 0 <= j < k && shared[j] == address;
        lemma_first_exists(shared, address, j);
    } else {
        assert(0 <= k < shared.len() && shared[k] == address && forall|j: int|
            0 <= j < k ==> shared[j] != address);
    }
}

impl UrlExtraData {
    /// The bits of the handle.
    pub open(crate) spec fn bits(&self) -> usize {
        self.0
    }

    /// The handle with the given bits.
    pub open(crate) spec fn from_bits(bits: usize) -> UrlExtraData {
        UrlExtraData(bits)
    }

    /// Whether the handle is an index into the table of shared URL data.
    pub open spec fn is_shared(&self) -> bool {
        self.bits() % 2 == 1
    }

    /// The index that a handle into the table holds.
    pub open spec fn sheet_id(&self) -> usize {
        self.bits() / 2
    }

    /// The handle that holds the index `id` into the table.
    pub open spec fn shared_at(id: usize) -> UrlExtraData {
        UrlExtraData::from_bits((id * 2 + 1) as usize)
    }

    /// The address of the URL data object that the handle stands for: the
    /// address it holds, or the one at its index in the table.
    pub open spec fn resolve(&self, shared: Seq<usize>) -> usize {
        if self.is_shared() {
            shared[self.sheet_id() as int]
        } else {
            self.bits()
        }
    }

    /// What the handle is written as in shared memory: itself where it is an
    /// index into the table already, else the index of the first entry of the
    /// table that holds its address. A handle whose address the table does not
    /// hold cannot be written.
    pub open spec fn snapshot(&self, shared: Seq<usize>) -> Result<UrlExtraData, SnapshotError> {
        if self.is_shared() {
            Ok(*self)
        } else {
            match position_in(shared, self.bits()) {
                Some(id) => Ok(UrlExtraData::shared_at(id as usize)),
                None => Err(SnapshotError::Unshareable),
            }
        }
    }

    /// Create a new UrlExtraData that stands for the URL data object at the
    /// given address. The address of such an object is even.
    pub fn new(ptr: usize) -> (data: UrlExtraData)
        requires
            ptr % 2 == 0,
        ensures
            data.bits() == ptr,
            !data.is_shared(),
    {
        UrlExtraData(ptr)
    }

    /// The handle to the URL data of the user-agent sheet with the given
    /// index in the table of shared URL data.
    pub fn from_sheet_id(id: usize) -> (data: UrlExtraData)
        requires
            id <= usize::MAX / 2,
        ensures
            data == UrlExtraData::shared_at(id),
            data.is_shared(),
            data.sheet_id() == id,
    {
        assert(((id << 1) | 1) == (id * 2 + 1) as usize) by (bit_vector);
        UrlExtraData((id << 1) | 1)
    }

    /// Whether this handle holds a reference of its own to its URL data
    /// object, which is to be released when the handle goes. An index into the
    /// table of shared URL data holds none.
    pub fn holds_reference(&self) -> (held: bool)
        ensures
            held == !self.is_shared(),
    {
        let bits: usize = self.0;
        assert(bits & 1 == bits % 2) by (bit_vector);
        self.0 & 1 == 0
    }

    /// The index that the handle holds into the table of shared URL data, if
    /// it is such an index.
    pub fn shared_index(&self) -> (index: Option<usize>)
        ensures
            index == if self.is_shared() {
                Some(self.sheet_id())
            } else {
                None::<usize>
            },
    {
        let bits: usize = self.0;
        assert(bits & 1 == bits % 2) by (bit_vector);
        assert(bits >> 1 == bits / 2) by (bit_vector);
        if self.0 & 1 == 0 {
            None
        } else {
            Some(self.0 >> 1)
        }
    }

    /// Returns the address of the URL data object, given the table of shared
    /// URL data. An index into the table must be within it.
    pub fn ptr(&self, shared: &[usize]) -> (address: usize)
        requires
            self.is_shared() ==> self.sheet_id() < shared@.len(),
        ensures
            address == self.resolve(shared@),
    {
        let bits: usize = self.0;
        assert(bits & 1 == bits % 2) by (bit_vector);
        assert(bits >> 1 == bits / 2) by (bit_vector);
        if self.0 & 1 == 0 {
            self.0
        } else {
            let sheet_id: usize = self.0 >> 1;
            shared[sheet_id]
        }
    }

    /// The form of this handle for memory that other processes read.
    ///
    /// An address means nothing to another process, so a handle that holds
    /// one is replaced by the index of its URL data in the table of shared
    /// URL data, the first index where the table holds it more than once. A
    /// handle that is such an index already is kept. URL data that the table
    /// does not hold is an error, and nothing is made up for it.
    pub fn to_shmem(&self, shared: &[usize]) -> (result: Result<UrlExtraData, SnapshotError>)
        requires
            shared@.len() <= usize::MAX / 2,
        ensures
            result == self.snapshot(shared@),
            result matches Ok(data) ==> data.is_shared(),
            result matches Ok(data) ==> !self.is_shared() ==> data.sheet_id() < shared@.len()
                && data.resolve(shared@) == self.resolve(shared@),
    {
        let bits: usize = self.0;
        assert(bits & 1 == bits % 2) by (bit_vector);
        if self.0 & 1 == 0 {
            let mut sheet_id: usize = 0;
            while sheet_id < shared.len()
                invariant
                    sheet_id <= shared@.len() <= usize::MAX / 2,
                    !self.is_shared(),
                    forall|j: int| 0 <= j < sheet_id ==> shared@[j] != self.0,
                decreases shared@.len() - sheet_id,
            {
                if shared[sheet_id] == self.0 {
                    proof {
                        lemma_position_in(shared@, self.0);
                        assert(position_in(shared@, self.0) == Some(sheet_id as int));
                        let id: usize = sheet_id;
                        assert(((id << 1) | 1) == (id * 2 + 1) as usize) by (bit_vector);
                    }
                    return Ok(UrlExtraData((sheet_id << 1) | 1));
                }
                sheet_id += 1;
            }
            proof {
                lemma_position_in(shared@, self.0);
            }
            Err(SnapshotError::Unshareable)
        } else {
            Ok(UrlExtraData(self.0))
        }
    }
}

/// What is written to shared memory stands for what was there before.
///
/// Where a handle can be written for the given table of shared URL data, the
/// written handle is an index into that table, and it resolves to the same
/// URL data object as the handle it was made from.
pub proof fn lemma_snapshot_resolves(data: UrlExtraData, shared: Seq<usize>)
    requires
        shared.len() <= usize::MAX / 2,
        data.snapshot(shared) is Ok,
    ensures
        data.snapshot(shared)->Ok_0.is_shared(),
        data.snapshot(shared)->Ok_0.resolve(shared) == data.resolve(shared),
{
    if !data.is_shared() {
        lemma_position_in(shared, data.bits());
    }
}

/// Every entry of the table can be written.
///
/// The handle that holds the address of an entry of the table of shared URL
/// data can be written to shared memory, and what is written resolves to that
/// address.
pub proof fn lemma_snapshot_of_shared_entry(shared: Seq<usize>, entry: int)
    requires
        shared.len() <= usize::MAX / 2,
        0 <= entry < shared.len(),
        shared[entry] % 2 == 0,
    ensures
        UrlExtraData::from_bits(shared[entry]).snapshot(shared) is Ok,
        UrlExtraData::from_bits(shared[entry]).snapshot(shared)->Ok_0.resolve(shared) == shared[entry],
{
    lemma_position_in(shared, shared[entry]);
    lemma_snapshot_resolves(UrlExtraData::from_bits(shared[entry]), shared);
}

/// Writing to shared memory twice is writing once: what was written is kept
/// as it is when it is written again.
pub proof fn lemma_snapshot_idempotent(data: UrlExtraData, shared: Seq<usize>)
    requires
        shared.len() <= usize::MAX / 2,
        data.snapshot(shared) is Ok,
    ensures
        data.snapshot(shared)->Ok_0.snapshot(shared) == data.snapshot(shared),
{
    lemma_snapshot_resolves(data, shared);
}

} // verus!

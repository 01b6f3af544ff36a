use vstd::prelude::*;

verus! {

/// Number of process identifiers the first query makes room for.
pub const INITIAL_CAPACITY: usize = 1024;

/// Largest buffer, in identifiers, that the enumeration grows to. A listing
/// that still fills a buffer of this size is taken as it is.
pub const MAX_CAPACITY: usize = 1048576;

/// Size in bytes of one process identifier in the OS's listing.
pub const ID_BYTES: u32 = 4;

/// The OS refused to list processes, with this error code.
#[derive(Clone, Copy, Debug, PartialEq, Eq, Structural)]
pub struct EnumerationFailure {
    pub code: u32,
}

/// One answer of the OS's process-listing call: the buffer it was handed,
/// and how many bytes of it the call reports having written.
#[derive(Debug)]
pub struct RawListing {
    pub ids: Vec<u32>,
    pub bytes_written: u32,
}

/// How many identifiers of the buffer are populated.
pub open spec fn populated_len(buffer_len: int, bytes_written: int) -> int {
    let n = bytes_written / (ID_BYTES as int);
    if n < buffer_len { n } else { buffer_len }
}

/// The identifiers that a listing holds.
pub open spec fn populated_ids(listing: RawListing) -> Seq<u32> {
    listing.ids@.take(populated_len(listing.ids@.len() as int, listing.bytes_written as int))
}

/// The call filled the whole buffer, so more processes may exist than it held.
pub open spec fn may_be_truncated(listing: RawListing) -> bool {
    listing.bytes_written as int >= (ID_BYTES as int) * listing.ids@.len()
}

/// The capacity that follows `capacity` when a listing may have been cut off.
pub open spec fn grown(capacity: int) -> int {
    if capacity * 2 < MAX_CAPACITY as int { capacity * 2 } else { MAX_CAPACITY as int }
}

/// The identifiers that a listing holds: as many as the reported byte count
/// covers, and never more than the buffer.
pub fn populated(listing: &RawListing) -> (r: Vec<u32>)
    ensures
        r@ == populated_ids(*listing),
{
    let n: usize = (listing.bytes_written / ID_BYTES) as usize;
    let len = listing.ids.len();
    let count: usize = if n < len { n } else { len };
    let mut r: Vec<u32> = Vec::with_capacity(count);
    let mut i: usize = 0;
    while i < count
        invariant
            count == populated_len(listing.ids@.len() as int, listing.bytes_written as int),
            count <= listing.ids@.len(),
            i <= count,
            r@ == listing.ids@.take(i as int),
        decreases count - i,
    {
        r.push(listing.ids[i]);
        i = i + 1;
        assert(r@ =~= listing.ids@.take(i as int));
    }
    r
}

/// Whether a listing filled its whole buffer.
pub fn is_possibly_truncated(listing: &RawListing) -> (r: bool)
    ensures
        r == may_be_truncated(*listing),
{
    (listing.bytes_written as u128) >= (ID_BYTES as u128) * (listing.ids.len() as u128)
}

/// The next capacity to ask for: double, but no more than the largest.
pub fn next_capacity(capacity: usize) -> (r: usize)
    requires
        capacity <= MAX_CAPACITY,
    ensures
        r == grown(capacity as int),
{
    if capacity < MAX_CAPACITY / 2 {
        capacity * 2
    } else {
        MAX_CAPACITY
    }
}

/// Lists the identifiers of the running processes. `query(c)` asks the OS to
/// list into a buffer of `c` identifiers. When a listing fills the whole
/// buffer, the query is made again with a larger one; a failure ends the
/// listing at once, and no partial listing is returned with it. So the result
/// is the failure of some query, or the populated part of a listing that was
/// not cut off or was taken at the largest capacity.
pub fn list_processes<Q: Fn(usize) -> Result<RawListing, u32>>(query: Q) -> (r: Result<
    Vec<u32>,
    EnumerationFailure,
>)
    requires
        forall|c: usize| INITIAL_CAPACITY <= c <= MAX_CAPACITY ==> #[trigger] query.requires((c,)),
    ensures
        r is Err ==> exists|c: usize, code: u32|
            #[trigger] query.ensures((c,), Err(code)) && r->Err_0.code == code,
        r is Ok ==> exists|c: usize, l: RawListing|
            #[trigger] query.ensures((c,), Ok(l)) && r->Ok_0@ == populated_ids(l) && (
            !may_be_truncated(l) || c == MAX_CAPACITY),
{
    let mut capacity: usize = INITIAL_CAPACITY;
    loop
        invariant
            INITIAL_CAPACITY <= capacity <= MAX_CAPACITY,
            forall|c: usize|
                INITIAL_CAPACITY <= c <= MAX_CAPACITY ==> #[trigger] query.requires((c,)),
        decreases MAX_CAPACITY - capacity,
    {
        let answer = query(capacity);
        match answer {
            Err(code) => {
                let e = EnumerationFailure { code };
                return Err(e);
            },
            Ok(listing) => {
                if !is_possibly_truncated(&listing) || capacity == MAX_CAPACITY {
                    let ids = populated(&listing);
                    assert(query.ensures((capacity,), Ok(listing)));
                    return Ok(ids);
                }
                capacity = next_capacity(capacity);
            },
        }
    }
}

} // verus!

use vstd::prelude::*;

use crate::codes::{STORAGE_AREA_PLUGIN, SUCCESS};

verus! {

/// Why an object-store operation, or what the adapter does around it, failed.
#[derive(Debug, Clone, Copy, PartialEq, Eq, Structural)]
pub enum StoreError {
    /// The bucket holds no object under the key.
    NoSuchKey,
    /// The store answered a read without a body.
    EmptyBody,
    /// The request failed in transport, authentication or the store itself.
    Request,
    /// No client could be built from the configuration.
    Client,
    /// The shared state is not there.
    Unavailable,
    /// The execution bridge has been shut down.
    Shutdown,
    /// The object key could not be read as UTF-8.
    InvalidKey,
    /// A range reaches past the end of the fetched content.
    RangeOutOfBounds,
}

/// A failure that the object store itself reports.
pub open spec fn store_failure(e: StoreError) -> bool {
    e == StoreError::NoSuchKey || e == StoreError::EmptyBody || e == StoreError::Request
}

/// A byte result seen through its view.
pub open spec fn bytes_of<E>(r: Result<Vec<u8>, E>) -> Result<Seq<u8>, E> {
    match r {
        Ok(v) => Ok(v@),
        Err(e) => Err(e),
    }
}

/// Host code answered for a put that replied `put`.
pub open spec fn create_code(put: Result<(), StoreError>) -> i32 {
    match put {
        Ok(()) => SUCCESS,
        Err(_) => STORAGE_AREA_PLUGIN,
    }
}

/// What a whole-object read hands the host when the fetch replied `fetched`.
pub open spec fn whole_result(fetched: Result<Seq<u8>, StoreError>) -> Result<Seq<u8>, i32> {
    match fetched {
        Ok(c) => Ok(c),
        Err(_) => Err(STORAGE_AREA_PLUGIN),
    }
}

/// `size` bytes of `content` from `start`, when they all lie inside it.
pub open spec fn range_of(content: Seq<u8>, start: nat, size: nat) -> Result<Seq<u8>, StoreError> {
    if start + size <= content.len() {
        Ok(content.subrange(start as int, (start + size) as int))
    } else {
        Err(StoreError::RangeOutOfBounds)
    }
}

/// What a range read hands the host when the fetch replied `fetched`. An
/// empty range needs no fetch and always succeeds.
pub open spec fn range_result(fetched: Result<Seq<u8>, StoreError>, start: nat, size: nat) -> Result<
    Seq<u8>,
    i32,
> {
    if size == 0 {
        Ok(Seq::empty())
    } else {
        match fetched {
            Ok(c) => match range_of(c, start, size) {
                Ok(s) => Ok(s),
                Err(_) => Err(STORAGE_AREA_PLUGIN),
            },
            Err(_) => Err(STORAGE_AREA_PLUGIN),
        }
    }
}

/// Host code answered for a delete that replied `del`: a missing object
/// counts as removed.
pub open spec fn remove_code(del: Result<(), StoreError>) -> i32 {
    match del {
        Ok(()) => SUCCESS,
        Err(StoreError::NoSuchKey) => SUCCESS,
        Err(_) => STORAGE_AREA_PLUGIN,
    }
}

/// Host code for a create, given what the put replied.
pub fn create_outcome(put: Result<(), StoreError>) -> (r: i32)
    ensures
        r == create_code(put),
{
    match put {
        Ok(()) => SUCCESS,
        Err(_) => STORAGE_AREA_PLUGIN,
    }
}

/// Host answer for a whole-object read, given what the fetch replied.
pub fn whole_outcome(fetched: Result<Vec<u8>, StoreError>) -> (r: Result<Vec<u8>, i32>)
    ensures
        bytes_of(r) == whole_result(bytes_of(fetched)),
{
    match fetched {
        Ok(c) => Ok(c),
        Err(_) => Err(STORAGE_AREA_PLUGIN),
    }
}

/// Copies `size` bytes of `content` from `start`, or reports that the range
/// does not fit inside it.
pub fn copy_range(content: &Vec<u8>, start: u64, size: u64) -> (r: Result<Vec<u8>, StoreError>)
    ensures
        bytes_of(r) == range_of(content@, start as nat, size as nat),
{
    let len = content.len() as u64;
    if start > len || size > len - start {
        return Err(StoreError::RangeOutOfBounds);
    }
    let first = start as usize;
    let end = (start + size) as usize;
    let mut out: Vec<u8> = Vec::new();
    let mut i: usize = first;
    while i < end
        invariant
            first <= i <= end,
            first == start,
            end == start + size,
            end <= content@.len(),
            out@ == content@.subrange(first as int, i as int),
        decreases end - i,
    {
        out.push(content[i]);
        proof {
            assert(out@ =~= content@.subrange(first as int, i + 1));
        }
        i = i + 1;
    }
    Ok(out)
}

/// Host answer for a range read, given what the fetch replied.
pub fn range_outcome(fetched: Result<Vec<u8>, StoreError>, start: u64, size: u64) -> (r: Result<
    Vec<u8>,
    i32,
>)
    ensures
        bytes_of(r) == range_result(bytes_of(fetched), start as nat, size as nat),
{
    if size == 0 {
        return Ok(Vec::new());
    }
    match fetched {
        Ok(c) => match copy_range(&c, start, size) {
            Ok(s) => Ok(s),
            Err(_) => Err(STORAGE_AREA_PLUGIN),
        },
        Err(_) => Err(STORAGE_AREA_PLUGIN),
    }
}

/// Host code for a remove, given what the delete replied.
pub fn remove_outcome(del: Result<(), StoreError>) -> (r: i32)
    ensures
        r == remove_code(del),
{
    match del {
        Ok(()) => SUCCESS,
        Err(StoreError::NoSuchKey) => SUCCESS,
        Err(_) => STORAGE_AREA_PLUGIN,
    }
}

/// When the fetch after a successful create replies the created bytes, the
/// whole read hands back exactly those bytes.
pub proof fn lemma_create_then_read_whole(bytes: Seq<u8>)
    ensures
        create_code(Ok(())) == SUCCESS,
        whole_result(Ok(bytes)) == Ok::<Seq<u8>, i32>(bytes),
{
}

/// When the fetch after a successful create replies the created bytes, a
/// range read that lies inside them hands back exactly that slice.
pub proof fn lemma_create_then_read_range(bytes: Seq<u8>, start: nat, size: nat)
    requires
        start + size <= bytes.len(),
    ensures
        range_result(Ok(bytes), start, size) == Ok::<Seq<u8>, i32>(
            bytes.subrange(start as int, (start + size) as int),
        ),
{
    if size == 0 {
        assert(bytes.subrange(start as int, start as int) =~= Seq::<u8>::empty());
    }
}

/// An empty range read succeeds with nothing copied, whatever the fetch
/// would have replied, so also for a key that is not stored.
pub proof fn lemma_empty_range(fetched: Result<Seq<u8>, StoreError>, start: nat)
    ensures
        range_result(fetched, start, 0) == Ok::<Seq<u8>, i32>(Seq::empty()),
{
}

/// Removing a key that is not stored succeeds, whether the store replies
/// success or reports the key missing.
pub proof fn lemma_remove_missing()
    ensures
        remove_code(Ok(())) == SUCCESS,
        remove_code(Err(StoreError::NoSuchKey)) == SUCCESS,
{
}

/// When the fetch after a remove reports the key missing, the whole read
/// fails with the generic code.
pub proof fn lemma_remove_then_read_whole()
    ensures
        whole_result(Err(StoreError::NoSuchKey)) == Err::<Seq<u8>, i32>(STORAGE_AREA_PLUGIN),
{
}

} // verus!

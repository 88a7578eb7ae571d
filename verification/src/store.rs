//! The RGW object store: its identity, and the decisions each of its
//! operations makes around the calls into the RGW C API.
//!
//! An operation runs in three steps: the decisions here say what to hand to
//! the C call, the caller makes the call, and the decisions here turn the
//! call's return code and outputs into the operation's result.

use vstd::prelude::*;
use vstd::utf8::encode_utf8;

use crate::error::{check_errno, errno_error, StoreError};
use crate::ffi::{RGWListResult, RGWObjectMeta};
use crate::memory::{c_string_text, list_result_meta, RgwListResultWrapper};
use crate::object::{ObjectMeta, ObjectMetaView};
use crate::text::{append_i32, decimal_text, opt_text};
use crate::time::{modification_time, time_or_now, Timestamp};

verus! {

/// The name under which this backend reports its errors.
pub const STORE: &'static str = "RGW";

/// An object store backed by an RGW driver, for one bucket.
///
/// `driver` and `dpp` are the addresses of the RGW driver and of its
/// `DoutPrefixProvider` (0 for none); the store only hands them on to the
/// C API.
#[derive(Debug, Clone)]
pub struct RGWObjectStore {
    bucket_name: String,
    driver: usize,
    dpp: usize,
}

impl View for RGWObjectStore {
    type V = (Seq<char>, usize, usize);

    closed spec fn view(&self) -> (Seq<char>, usize, usize) {
        (self.bucket_name@, self.driver, self.dpp)
    }
}

impl RGWObjectStore {
    /// A store for `bucket_name` that reaches RGW through `driver` and `dpp`.
    pub fn new(bucket_name: String, driver: usize, dpp: usize) -> (s: Self)
        ensures
            s@ == (bucket_name@, driver, dpp),
    {
        RGWObjectStore { bucket_name, driver, dpp }
    }

    /// The bucket name.
    pub fn bucket_name(&self) -> (b: &str)
        ensures
            b@ == self@.0,
    {
        self.bucket_name.as_str()
    }

    /// The address of the RGW driver.
    pub fn driver(&self) -> (d: usize)
        ensures
            d == self@.1,
    {
        self.driver
    }

    /// The address of the `DoutPrefixProvider` (0 for none).
    pub fn dpp(&self) -> (d: usize)
        ensures
            d == self@.2,
    {
        self.dpp
    }

    /// The store that wrapping any store under `store_prefix` with this one
    /// gives: this store itself, in place of the store it wraps.
    pub fn wrap(&self, store_prefix: &str) -> (s: RGWObjectStore)
        ensures
            s@ == self@,
    {
        RGWObjectStore { bucket_name: self.bucket_name.clone(), driver: self.driver, dpp: self.dpp }
    }

    /// How the store is displayed: `RGWObjectStore(<bucket>)`.
    pub fn describe(&self) -> (s: String)
        ensures
            s@ == "RGWObjectStore("@ + self@.0 + ")"@,
    {
        let mut s = String::from_str("RGWObjectStore(");
        s.append(self.bucket_name.as_str());
        s.append(")");
        s
    }
}

/// The byte range that a read asks for.
#[derive(Clone, Copy, Debug, PartialEq, Eq, Structural)]
pub enum GetRange {
    /// The bytes from `start` up to, not including, `end`.
    Bounded { start: u64, end: u64 },
    /// The bytes from an offset to the end.
    Offset(u64),
    /// The last bytes, this many of them.
    Suffix(u64),
}

/// The offset and length a read hands to `rgw_get_object` (length 0 reads
/// to the end). A suffix range is read whole.
pub open spec fn read_window(range: Option<GetRange>) -> (u64, u64) {
    match range {
        Some(GetRange::Bounded { start, end }) => (start, (end - start) as u64),
        Some(GetRange::Offset(offset)) => (offset, 0),
        Some(GetRange::Suffix(_)) => (0, 0),
        None => (0, 0),
    }
}

/// A bounded range must not end before it starts.
pub open spec fn range_is_ordered(range: Option<GetRange>) -> bool {
    range matches Some(GetRange::Bounded { start, end }) ==> start <= end
}

/// The offset and length to hand to `rgw_get_object` for `range`.
pub fn rgw_read_window(range: Option<GetRange>) -> (w: (u64, u64))
    requires
        range_is_ordered(range),
    ensures
        w == read_window(range),
{
    match range {
        Some(GetRange::Bounded { start, end }) => (start, end - start),
        Some(GetRange::Offset(offset)) => (offset, 0),
        Some(GetRange::Suffix(_)) => (0, 0),
        None => (0, 0),
    }
}

/// The range that a read reports for `len` bytes returned: from the start
/// of a bounded range, else from 0; `len` bytes long.
pub open spec fn returned_range(range: Option<GetRange>, len: u64) -> (int, int) {
    match range {
        Some(GetRange::Bounded { start, end }) => (start as int, start + len),
        _ => (0, len as int),
    }
}

/// The range that a read reports, as a start and an end (exclusive).
pub fn rgw_returned_range(range: Option<GetRange>, len: u64) -> (r: (u64, u64))
    requires
        range matches Some(GetRange::Bounded { start, end }) ==> start + len <= u64::MAX,
    ensures
        r.0 == returned_range(range, len).0,
        r.1 == returned_range(range, len).1,
{
    match range {
        Some(GetRange::Bounded { start, end }) => (start, start + len),
        _ => (0, len),
    }
}

/// The concatenation of byte chunks.
pub open spec fn concat_chunks(chunks: Seq<Seq<u8>>) -> Seq<u8>
    decreases chunks.len(),
{
    if chunks.len() == 0 {
        Seq::empty()
    } else {
        concat_chunks(chunks.drop_last()) + chunks.last()
    }
}

/// The bytes of a put payload: its chunks, one after the other.
pub fn payload_bytes(chunks: &Vec<Vec<u8>>) -> (data: Vec<u8>)
    ensures
        data@ == concat_chunks(chunks@.map_values(|c: Vec<u8>| c@)),
{
    let ghost views = chunks@.map_values(|c: Vec<u8>| c@);
    let mut data: Vec<u8> = Vec::new();
    let n = chunks.len();
    for i in 0..n
        invariant
            n == chunks@.len(),
            views == chunks@.map_values(|c: Vec<u8>| c@),
            data@ == concat_chunks(views.take(i as int)),
    {
        let chunk = &chunks[i];
        let m = chunk.len();
        let ghost before = data@;
        for j in 0..m
            invariant
                m == chunk@.len(),
                data@ == before + chunk@.take(j as int),
        {
            data.push(chunk[j]);
            proof {
                assert(chunk@.take(j + 1) =~= chunk@.take(j as int).push(chunk@[j as int]));
            }
        }
        proof {
            assert(chunk@.take(m as int) =~= chunk@);
            assert(views.take(i + 1).drop_last() =~= views.take(i as int));
            assert(views.take(i + 1).last() == chunk@);
        }
    }
    proof {
        assert(views.take(n as int) =~= views);
    }
    data
}

/// The result of a put.
#[derive(Debug)]
pub struct PutResult {
    /// The ETag of the written object, where RGW gave one that is UTF-8.
    pub e_tag: Option<String>,
    /// The version of the written object.
    pub version: Option<String>,
}

/// Turns what `rgw_put_object` gave back for the object at `location` into
/// the put's result: the errno's error when `ret` is not 0, else the ETag
/// it returned.
pub fn put_outcome(ret: i32, etag: Option<Vec<u8>>, location: &str) -> (r: Result<PutResult, StoreError>)
    ensures
        r is Err <==> ret != 0,
        r matches Err(e) ==> e@ == errno_error(ret as int, location@),
        r matches Ok(p) ==> opt_text(p.e_tag) == c_string_text(etag) && p.version is None,
{
    match check_errno(ret, location) {
        Err(e) => Err(e),
        Ok(()) => {
            let etag_text = crate::memory::RgwString::from_raw(etag);
            Ok(PutResult { e_tag: etag_text.to_string(), version: None })
        },
    }
}

/// The metadata that a read reports for the object at `location`, from the
/// metadata RGW returned, with `now` where that holds no valid time.
pub open spec fn read_meta(location: Seq<char>, meta: RGWObjectMeta, now: Timestamp) -> ObjectMetaView {
    ObjectMetaView {
        location,
        last_modified: time_or_now(meta.mtime_sec, meta.mtime_nsec as u32, now),
        size: meta.size,
        e_tag: c_string_text(meta.etag),
        version: None,
    }
}

/// What a read gives: the bytes and the object's metadata.
#[derive(Debug)]
pub struct GetOutcome {
    pub data: Vec<u8>,
    pub meta: ObjectMeta,
}

/// Turns what `rgw_get_object` gave back for the object at `location` into
/// the read's result: the errno's error when `ret` is not 0, else the
/// bytes read (none for a null buffer) and the metadata.
pub fn get_outcome(
    ret: i32,
    buffer: Option<Vec<u8>>,
    bytes_read: u64,
    meta: RGWObjectMeta,
    location: &str,
    now: Timestamp,
) -> (r: Result<GetOutcome, StoreError>)
    requires
        buffer matches Some(b) ==> b.len() == bytes_read,
    ensures
        r is Err <==> ret != 0,
        r matches Err(e) ==> e@ == errno_error(ret as int, location@),
        r matches Ok(g) ==> {
            &&& g.data@ == (match buffer {
                Some(b) => b@,
                None => Seq::empty(),
            })
            &&& g.meta@ == read_meta(location@, meta, now)
        },
{
    match check_errno(ret, location) {
        Err(e) => Err(e),
        Ok(()) => {
            let data = match buffer {
                Some(b) => b,
                None => Vec::new(),
            };
            let e_tag = crate::memory::RgwString::from_raw(meta.etag).to_string();
            #[verifier::truncate]
            let nanos: u32 = meta.mtime_nsec as u32;
            let last_modified = modification_time(meta.mtime_sec, nanos, now);
            let meta = ObjectMeta {
                location: String::from_str(location),
                last_modified,
                size: meta.size,
                e_tag,
                version: None,
            };
            Ok(GetOutcome { data, meta })
        },
    }
}

/// The prefix text that a listing hands to `rgw_list_objects`: the prefix,
/// or empty for none.
pub fn list_prefix(prefix: Option<&str>) -> (p: String)
    ensures
        p@ == (match prefix {
            Some(s) => s@,
            None => Seq::empty(),
        }),
{
    match prefix {
        Some(s) => String::from_str(s),
        None => String::new(),
    }
}

/// The position of the first nul byte in the UTF-8 bytes of `s`, if any: a
/// string with a nul byte cannot be handed to the C API.
pub fn nul_position(s: &str) -> (r: Option<usize>)
    ensures
        match r {
            Some(p) => p < encode_utf8(s@).len() && encode_utf8(s@)[p as int] == 0 && forall|i: int|
                0 <= i < p ==> encode_utf8(s@)[i] != 0,
            None => forall|i: int| 0 <= i < encode_utf8(s@).len() ==> encode_utf8(s@)[i] != 0,
        },
{
    let bytes = s.as_bytes();
    let n = bytes.len();
    for i in 0..n
        invariant
            n == bytes@.len(),
            bytes@ == encode_utf8(s@),
            forall|k: int| 0 <= k < i ==> bytes@[k] != 0,
    {
        if bytes[i] == 0 {
            return Some(i);
        }
    }
    None
}

/// The most keys a listing asks for.
pub const LIST_MAX_KEYS: i32 = 1000;

/// The error text of a failed listing.
pub open spec fn list_failure_text(ret: int) -> Seq<char> {
    "list failed with errno "@ + decimal_text(ret)
}

/// Turns what `rgw_list_objects` gave back into the listing: an `IO` error
/// naming the errno when `ret` is negative, else the metadata of the listed
/// objects (with `now` for those whose time is no valid time).
pub fn list_outcome(ret: i32, result: RGWListResult, now: Timestamp) -> (r: Result<Vec<ObjectMeta>, StoreError>)
    requires
        ret >= 0 ==> result.well_formed(),
    ensures
        r is Err <==> ret < 0,
        r matches Err(e) ==> e@ == (crate::error::ErrorKind::IO, list_failure_text(ret as int)),
        r matches Ok(v) ==> {
            &&& v@.len() == list_result_meta(result, now).len()
            &&& forall|i: int| 0 <= i < v@.len() ==> #[trigger] v@[i]@ == list_result_meta(result, now)[i]
        },
{
    if ret < 0 {
        let mut message = String::from_str("list failed with errno ");
        append_i32(&mut message, ret);
        Err(StoreError::IO { message })
    } else {
        let wrapper = RgwListResultWrapper::from_raw(result);
        Ok(wrapper.entries_at(now))
    }
}

/// Why a store cannot be made from what a C caller handed over.
#[derive(Debug, Clone, Copy, PartialEq, Eq, Structural)]
pub enum CreateStoreError {
    /// The driver pointer is null.
    NullDriver,
    /// The bucket name pointer is null.
    NullBucket,
    /// The bucket name is not UTF-8.
    InvalidBucketName,
}

/// The store that a C caller asks for with a driver address, a
/// `DoutPrefixProvider` address and a bucket name (`None` for a null
/// pointer): refused for a null driver, then for a null bucket name, then
/// for a bucket name that is not UTF-8.
pub fn rgw_store_from_c(driver: usize, dpp: usize, bucket: Option<Vec<u8>>) -> (r: Result<RGWObjectStore, CreateStoreError>)
    ensures
        driver == 0 ==> r == Err::<RGWObjectStore, CreateStoreError>(CreateStoreError::NullDriver),
        driver != 0 && bucket is None ==> r == Err::<RGWObjectStore, CreateStoreError>(CreateStoreError::NullBucket),
        driver != 0 && bucket is Some && c_string_text(bucket) is None ==> r == Err::<RGWObjectStore, CreateStoreError>(CreateStoreError::InvalidBucketName),
        r matches Ok(s) ==> driver != 0 && c_string_text(bucket) == Some(s@.0) && s@.1 == driver && s@.2 == dpp,
        driver != 0 && c_string_text(bucket) is Some ==> r is Ok,
{
    if driver == 0 {
        return Err(CreateStoreError::NullDriver);
    }
    if bucket.is_none() {
        return Err(CreateStoreError::NullBucket);
    }
    let name = crate::memory::RgwString::from_raw(bucket);
    match name.to_string() {
        Some(bucket_name) => Ok(RGWObjectStore::new(bucket_name, driver, dpp)),
        None => Err(CreateStoreError::InvalidBucketName),
    }
}

} // verus!

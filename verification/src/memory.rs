//! Owners of the data that the RGW C API hands back: buffers, strings, list
//! results, object metadata and range results, with the reads the backend
//! makes of them.

use vstd::prelude::*;
use vstd::utf8::{decode_utf8, encode_utf8, encode_utf8_decode_utf8, valid_utf8};

use crate::ffi::{RGWListResult, RGWObjectEntry, RGWObjectMeta, RGWRangeResult};
use crate::object::{ObjectMeta, ObjectMetaView};
use crate::path::{encode_object_path, spec_path_from};
use crate::time::{modification_time, time_or_now, utc_now, utc_timestamp_exists, Timestamp};

verus! {

/// The text that UTF-8 bytes decode to, or `None` where they are not UTF-8.
pub open spec fn utf8_text(bytes: Seq<u8>) -> Option<Seq<char>> {
    if valid_utf8(bytes) {
        Some(decode_utf8(bytes))
    } else {
        None
    }
}

/// The text of a C string: `None` for a null pointer or for bytes that are
/// not UTF-8.
pub open spec fn c_string_text(s: Option<Vec<u8>>) -> Option<Seq<char>> {
    match s {
        Some(bytes) => utf8_text(bytes@),
        None => None,
    }
}

/// The text a borrowed optional string holds.
pub open spec fn opt_str_text(o: Option<&str>) -> Option<Seq<char>> {
    match o {
        Some(s) => Some(s@),
        None => None,
    }
}

/// `std::str::from_utf8`.
///
/// Trusted: as its documentation says, it succeeds exactly on valid UTF-8,
/// and the string it gives holds exactly the bytes it was given.
#[verifier::external_body]
fn str_from_utf8(bytes: &[u8]) -> (r: Option<&str>)
    ensures
        r is Some <==> valid_utf8(bytes@),
        r matches Some(s) ==> encode_utf8(s@) == bytes@,
{
    match std::str::from_utf8(bytes) {
        Ok(s) => Some(s),
        Err(_) => None,
    }
}

/// Reads UTF-8 bytes as a string.
fn decode_text(bytes: &[u8]) -> (r: Option<&str>)
    ensures
        opt_str_text(r) == utf8_text(bytes@),
{
    let r = str_from_utf8(bytes);
    proof {
        if let Some(s) = r {
            encode_utf8_decode_utf8(s@);
        }
    }
    r
}

/// Reads a C string as a string.
fn c_string_as_str(s: &Option<Vec<u8>>) -> (r: Option<&str>)
    ensures
        opt_str_text(r) == c_string_text(*s),
{
    match s {
        Some(bytes) => decode_text(bytes.as_slice()),
        None => None,
    }
}

/// Copies a borrowed optional string.
fn owned_text(o: Option<&str>) -> (r: Option<String>)
    ensures
        crate::text::opt_text(r) == opt_str_text(o),
{
    match o {
        Some(s) => Some(String::from_str(s)),
        None => None,
    }
}

/// A data buffer handed back by RGW: its bytes (`None` for a null pointer)
/// and its length.
pub struct RgwBuffer {
    data: Option<Vec<u8>>,
    len: usize,
}

impl View for RgwBuffer {
    type V = (Option<Seq<u8>>, usize);

    closed spec fn view(&self) -> (Option<Seq<u8>>, usize) {
        (
            match self.data {
                Some(v) => Some(v@),
                None => None,
            },
            self.len,
        )
    }
}

impl RgwBuffer {
    #[verifier::type_invariant]
    spec fn length_matches(self) -> bool {
        self.data matches Some(v) ==> v.len() == self.len
    }

    /// Takes ownership of a buffer of `len` bytes (`None` for a null pointer).
    pub fn from_raw(data: Option<Vec<u8>>, len: usize) -> (b: Self)
        requires
            data matches Some(v) ==> v.len() == len,
        ensures
            b@ == ((match data {
                Some(v) => Some(v@),
                None => None,
            }), len),
    {
        RgwBuffer { data, len }
    }

    /// The buffer's bytes: empty for a null or empty buffer.
    pub fn as_bytes(&self) -> (r: &[u8])
        ensures
            r@ == (match self@.0 {
                Some(bytes) => bytes,
                None => Seq::empty(),
            }),
            self@.0 matches Some(bytes) ==> bytes.len() == self@.1,
    {
        proof {
            use_type_invariant(self);
        }
        match &self.data {
            Some(v) => v.as_slice(),
            None => &[],
        }
    }

    /// Whether the buffer is null or empty.
    pub fn is_empty(&self) -> (b: bool)
        ensures
            b <==> (self@.0 is None || self@.1 == 0),
    {
        self.data.is_none() || self.len == 0
    }

    /// The buffer's length.
    pub fn len(&self) -> (n: usize)
        ensures
            n == self@.1,
    {
        self.len
    }
}

/// A string handed back by RGW (`None` for a null pointer).
pub struct RgwString(Option<Vec<u8>>);

impl View for RgwString {
    type V = Option<Seq<u8>>;

    closed spec fn view(&self) -> Option<Seq<u8>> {
        match self.0 {
            Some(v) => Some(v@),
            None => None,
        }
    }
}

impl RgwString {
    /// Takes ownership of a string's bytes (`None` for a null pointer).
    pub fn from_raw(bytes: Option<Vec<u8>>) -> (s: Self)
        ensures
            s@ == (match bytes {
                Some(v) => Some(v@),
                None => None,
            }),
    {
        RgwString(bytes)
    }

    /// The string, or `None` where it is null or not UTF-8.
    pub fn as_str(&self) -> (r: Option<&str>)
        ensures
            opt_str_text(r) == (match self@ {
                Some(bytes) => utf8_text(bytes),
                None => None,
            }),
    {
        c_string_as_str(&self.0)
    }

    /// Whether the string is null.
    pub fn is_null(&self) -> (b: bool)
        ensures
            b <==> self@ is None,
    {
        self.0.is_none()
    }

    /// A copy of the string, or `None` where it is null or not UTF-8.
    pub fn to_string(&self) -> (r: Option<String>)
        ensures
            crate::text::opt_text(r) == (match self@ {
                Some(bytes) => utf8_text(bytes),
                None => None,
            }),
    {
        owned_text(self.as_str())
    }
}


/// The metadata that a list entry describes: `None` where the key is null or
/// not UTF-8; otherwise the key encoded as a path, the entry's time (or `now`
/// where that is no valid time), its size and its ETag where that is UTF-8.
pub open spec fn entry_meta(e: RGWObjectEntry, now: Timestamp) -> Option<ObjectMetaView> {
    match c_string_text(e.key) {
        None => None,
        Some(key) => Some(
            ObjectMetaView {
                location: spec_path_from(key),
                last_modified: time_or_now(e.mtime_sec, e.mtime_nsec as u32, now),
                size: e.size,
                e_tag: c_string_text(e.etag),
                version: None,
            },
        ),
    }
}

/// The metadata of the entries that have a usable key, in their order.
pub open spec fn entries_meta(entries: Seq<RGWObjectEntry>, now: Timestamp) -> Seq<ObjectMetaView>
    decreases entries.len(),
{
    if entries.len() == 0 {
        Seq::empty()
    } else {
        let rest = entries_meta(entries.drop_last(), now);
        match entry_meta(entries.last(), now) {
            Some(m) => rest.push(m),
            None => rest,
        }
    }
}

/// `metas` is the listing of `r` in which the object at each index `i` was
/// given the clock reading `nows[i]` where its own time is no valid time.
pub open spec fn listing_read_at(r: RGWListResult, metas: Seq<ObjectMeta>, nows: Seq<Timestamp>) -> bool {
    &&& nows.len() == metas.len()
    &&& forall|i: int| 0 <= i < nows.len() ==> (#[trigger] nows[i]).nanos < 1_000_000_000
    &&& forall|i: int| 0 <= i < metas.len() ==> #[trigger] metas[i]@ == list_result_meta(r, nows[i])[i]
}

/// How many objects a listing yields does not depend on the clock.
pub proof fn lemma_entries_meta_len(entries: Seq<RGWObjectEntry>, now1: Timestamp, now2: Timestamp)
    ensures
        entries_meta(entries, now1).len() == entries_meta(entries, now2).len(),
    decreases entries.len(),
{
    if entries.len() > 0 {
        lemma_entries_meta_len(entries.drop_last(), now1, now2);
    }
}

/// The metadata that a list result describes.
pub open spec fn list_result_meta(r: RGWListResult, now: Timestamp) -> Seq<ObjectMetaView> {
    match r.entries {
        Some(v) => if r.num_objects == 0 {
            Seq::empty()
        } else {
            entries_meta(v@, now)
        },
        None => Seq::empty(),
    }
}

/// The texts of the common prefixes of a list result, one for each prefix
/// (`None` for one that is null or not UTF-8).
pub open spec fn prefix_texts(r: RGWListResult) -> Seq<Option<Seq<char>>> {
    match r.common_prefixes {
        Some(v) => v@.map_values(|p: Option<Vec<u8>>| c_string_text(p)),
        None => Seq::empty(),
    }
}

fn meta_of_entry(e: &RGWObjectEntry, now: Timestamp) -> (r: Option<ObjectMeta>)
    ensures
        match r {
            Some(m) => entry_meta(*e, now) == Some(m@),
            None => entry_meta(*e, now) is None,
        },
{
    match c_string_as_str(&e.key) {
        None => None,
        Some(key) => {
            let e_tag = owned_text(c_string_as_str(&e.etag));
            #[verifier::truncate]
            let nanos: u32 = e.mtime_nsec as u32;
            let last_modified = modification_time(e.mtime_sec, nanos, now);
            Some(
                ObjectMeta {
                    location: encode_object_path(key),
                    last_modified,
                    size: e.size,
                    e_tag,
                    version: None,
                },
            )
        },
    }
}

/// A list result handed back by RGW.
pub struct RgwListResultWrapper(RGWListResult);

impl View for RgwListResultWrapper {
    type V = RGWListResult;

    closed spec fn view(&self) -> RGWListResult {
        self.0
    }
}

impl RgwListResultWrapper {
    /// Takes ownership of a list result.
    pub fn from_raw(result: RGWListResult) -> (w: Self)
        ensures
            w@ == result,
    {
        RgwListResultWrapper(result)
    }

    /// The list result.
    pub fn inner(&self) -> (r: &RGWListResult)
        ensures
            *r == self@,
    {
        &self.0
    }

    /// The list result, to change.
    pub fn inner_mut(&mut self) -> (r: &mut RGWListResult)
        ensures
            *r == old(self)@,
            final(self)@ == *final(r),
    {
        &mut self.0
    }

    /// Number of objects in the result.
    pub fn num_objects(&self) -> (n: u32)
        ensures
            n == self@.num_objects,
    {
        self.0.num_objects
    }

    /// Number of common prefixes.
    pub fn num_common_prefixes(&self) -> (n: u32)
        ensures
            n == self@.num_common_prefixes,
    {
        self.0.num_common_prefixes
    }

    /// Whether there are more results to fetch.
    pub fn is_truncated(&self) -> (b: bool)
        ensures
            b <==> self@.is_truncated != 0,
    {
        self.0.is_truncated != 0
    }

    /// The marker for the next page; `None` where there are no more results,
    /// or where the marker is null or not UTF-8.
    pub fn next_marker(&self) -> (r: Option<&str>)
        ensures
            opt_str_text(r) == (if self@.is_truncated == 0 {
                None
            } else {
                c_string_text(self@.next_marker)
            }),
    {
        if self.0.is_truncated == 0 {
            None
        } else {
            c_string_as_str(&self.0.next_marker)
        }
    }

    /// The metadata of the listed objects, with `now` as the time of those
    /// whose recorded time is no valid time. Entries whose key is null or not
    /// UTF-8 are left out; the others keep their order.
    pub fn entries_at(&self, now: Timestamp) -> (r: Vec<ObjectMeta>)
        requires
            self@.well_formed(),
        ensures
            r@.len() == list_result_meta(self@, now).len(),
            forall|i: int| 0 <= i < r@.len() ==> #[trigger] r@[i]@ == list_result_meta(self@, now)[i],
    {
        let mut out: Vec<ObjectMeta> = Vec::new();
        if self.0.num_objects == 0 {
            return out;
        }
        match &self.0.entries {
            None => out,
            Some(entries) => {
                let n = entries.len();
                let ghost all = entries@;
                for i in 0..n
                    invariant
                        n == all.len(),
                        all == entries@,
                        out@.len() == entries_meta(all.take(i as int), now).len(),
                        forall|j: int|
                            0 <= j < out@.len() ==> #[trigger] out@[j]@ == entries_meta(
                                all.take(i as int),
                                now,
                            )[j],
                {
                    proof {
                        assert(all.take(i + 1).drop_last() =~= all.take(i as int));
                        assert(all.take(i + 1).last() == all[i as int]);
                    }
                    match meta_of_entry(&entries[i], now) {
                        Some(m) => out.push(m),
                        None => {},
                    }
                }
                proof {
                    assert(all.take(n as int) =~= all);
                }
                out
            },
        }
    }

    /// The metadata of the listed objects; an entry whose recorded time is no
    /// valid time gets the current time, read for that entry. The clock is
    /// read for no other entry.
    pub fn entries(&self) -> (r: Vec<ObjectMeta>)
        requires
            self@.well_formed(),
        ensures
            forall|now: Timestamp| r@.len() == #[trigger] list_result_meta(self@, now).len(),
            exists|nows: Seq<Timestamp>| #[trigger] listing_read_at(self@, r@, nows),
    {
        let mut out: Vec<ObjectMeta> = Vec::new();
        let ghost zero = Timestamp { secs: 0, nanos: 0 };
        assert(listing_read_at(self@, out@, Seq::empty()));
        if self.0.num_objects == 0 {
            return out;
        }
        match &self.0.entries {
            None => out,
            Some(entries) => {
                let n = entries.len();
                let ghost all = entries@;
                let ghost mut nows: Seq<Timestamp> = Seq::empty();
                for i in 0..n
                    invariant
                        n == all.len(),
                        all == entries@,
                        out@.len() == entries_meta(all.take(i as int), zero).len(),
                        nows.len() == out@.len(),
                        forall|j: int|
                            0 <= j < out@.len() ==> #[trigger] out@[j]@ == entries_meta(
                                all.take(i as int),
                                nows[j],
                            )[j],
                        forall|j: int| 0 <= j < nows.len() ==> (#[trigger] nows[j]).nanos < 1_000_000_000,
                {
                    let ghost before = all.take(i as int);
                    let ghost after = all.take(i + 1);
                    proof {
                        assert(after.drop_last() =~= before);
                        assert(after.last() == all[i as int]);
                    }
                    let e = &entries[i];
                    #[verifier::truncate]
                    let nanos: u32 = e.mtime_nsec as u32;
                    let now = if utc_timestamp_exists(e.mtime_sec, nanos) {
                        Timestamp { secs: 0, nanos: 0 }
                    } else {
                        utc_now()
                    };
                    let ghost old_out = out@;
                    let ghost old_nows = nows;
                    match meta_of_entry(e, now) {
                        Some(m) => {
                            out.push(m);
                            proof {
                                nows = nows.push(now);
                            }
                        },
                        None => {},
                    }
                    proof {
                        assert forall|j: int| 0 <= j < out@.len() implies #[trigger] out@[j]@ == entries_meta(
                            after,
                            nows[j],
                        )[j] by {
                            lemma_entries_meta_len(before, nows[j], zero);
                            if j < old_out.len() {
                                assert(out@[j] == old_out[j]);
                                assert(nows[j] == old_nows[j]);
                            }
                        }
                    }
                }
                proof {
                    assert(all.take(n as int) =~= all);
                    assert forall|now: Timestamp| out@.len() == #[trigger] list_result_meta(self@, now).len() by {
                        lemma_entries_meta_len(all, now, zero);
                    }
                    assert(listing_read_at(self@, out@, nows));
                }
                out
            },
        }
    }

    /// The common prefixes, each as a string where it is neither null nor
    /// invalid UTF-8.
    pub fn common_prefixes(&self) -> (r: Vec<Option<&str>>)
        requires
            self@.well_formed(),
        ensures
            r@.len() == prefix_texts(self@).len(),
            forall|i: int| 0 <= i < r@.len() ==> opt_str_text(#[trigger] r@[i]) == prefix_texts(self@)[i],
    {
        let mut out: Vec<Option<&str>> = Vec::new();
        match &self.0.common_prefixes {
            None => out,
            Some(prefixes) => {
                let n = prefixes.len();
                for i in 0..n
                    invariant
                        n == prefixes@.len(),
                        out@.len() == i,
                        forall|j: int|
                            0 <= j < i ==> opt_str_text(#[trigger] out@[j]) == c_string_text(
                                prefixes@[j],
                            ),
                {
                    out.push(c_string_as_str(&prefixes[i]));
                }
                out
            },
        }
    }
}

/// Object metadata handed back by RGW.
pub struct RgwObjectMetaWrapper(RGWObjectMeta);

impl View for RgwObjectMetaWrapper {
    type V = RGWObjectMeta;

    closed spec fn view(&self) -> RGWObjectMeta {
        self.0
    }
}

impl RgwObjectMetaWrapper {
    /// Takes ownership of object metadata.
    pub fn from_raw(meta: RGWObjectMeta) -> (w: Self)
        ensures
            w@ == meta,
    {
        RgwObjectMetaWrapper(meta)
    }

    /// Object size in bytes.
    pub fn size(&self) -> (n: u64)
        ensures
            n == self@.size,
    {
        self.0.size
    }

    /// Modification time, as seconds and nanoseconds.
    pub fn mtime(&self) -> (t: (i64, i64))
        ensures
            t == (self@.mtime_sec, self@.mtime_nsec),
    {
        (self.0.mtime_sec, self.0.mtime_nsec)
    }

    /// The ETag, or `None` where it is null or not UTF-8.
    pub fn etag(&self) -> (r: Option<&str>)
        ensures
            opt_str_text(r) == c_string_text(self@.etag),
    {
        c_string_as_str(&self.0.etag)
    }

    /// The metadata.
    pub fn inner(&self) -> (r: &RGWObjectMeta)
        ensures
            *r == self@,
    {
        &self.0
    }
}

/// Range results handed back by RGW: the results (`None` for a null
/// pointer) and their count.
pub struct RgwRangeResultsWrapper {
    results: Option<Vec<RGWRangeResult>>,
    count: u32,
}

impl View for RgwRangeResultsWrapper {
    type V = (Option<Seq<RGWRangeResult>>, u32);

    closed spec fn view(&self) -> (Option<Seq<RGWRangeResult>>, u32) {
        (
            match self.results {
                Some(v) => Some(v@),
                None => None,
            },
            self.count,
        )
    }
}

impl RgwRangeResultsWrapper {
    #[verifier::type_invariant]
    spec fn count_matches(self) -> bool {
        self.results matches Some(v) ==> v.len() == self.count
    }

    /// Takes ownership of `count` range results (`None` for a null pointer).
    pub fn from_raw(results: Option<Vec<RGWRangeResult>>, count: u32) -> (w: Self)
        requires
            results matches Some(v) ==> v.len() == count,
        ensures
            w@ == ((match results {
                Some(v) => Some(v@),
                None => None,
            }), count),
    {
        RgwRangeResultsWrapper { results, count }
    }

    /// Number of range results.
    pub fn count(&self) -> (n: u32)
        ensures
            n == self@.1,
    {
        self.count
    }

    /// All range results, in order; none for a null pointer.
    pub fn iter(&self) -> (r: &[RGWRangeResult])
        ensures
            r@ == (match self@.0 {
                Some(v) => v,
                None => Seq::empty(),
            }),
            self@.0 matches Some(v) ==> v.len() == self@.1,
    {
        proof {
            use_type_invariant(self);
        }
        match &self.results {
            Some(v) => v.as_slice(),
            None => &[],
        }
    }

    /// The range result at `index`, or `None` where the results are null or
    /// `index` is not below the count.
    pub fn get(&self, index: usize) -> (r: Option<&RGWRangeResult>)
        ensures
            match self@.0 {
                Some(v) => if index < self@.1 {
                    r == Some(&v[index as int])
                } else {
                    r is None
                },
                None => r is None,
            },
    {
        proof {
            use_type_invariant(self);
        }
        match &self.results {
            Some(v) => if index < self.count as usize {
                Some(&v[index])
            } else {
                None
            },
            None => None,
        }
    }
}

} // verus!

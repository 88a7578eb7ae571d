//! Properties of the backend that span its functions.

use vstd::prelude::*;

use crate::error::{errno_error, rgw_error_to_store, ErrorKind, RgwError};
use crate::ffi::{RGWListResult, RGWObjectEntry};
use crate::memory::{c_string_text, entries_meta, entry_meta, list_result_meta};
use crate::path::{path_parse, spec_path_from, trim_leading_slashes};
use crate::providers::{option_value, rgw_store_prefix, sal_store_prefix, url_object_path};
use crate::store::{concat_chunks, read_meta, read_window, returned_range, GetRange};
use crate::ffi::RGWObjectMeta;
use crate::time::{utc_time_exists, Timestamp};

verus! {

/// An errno code maps to a "not found" error exactly when it is `-2`
/// (ENOENT), whatever the path.
pub proof fn law_not_found_iff_enoent(errno: int, path: Seq<char>)
    ensures
        errno_error(errno, path).0 == ErrorKind::NotFound <==> errno == -2,
{
}

/// An errno code maps to an "invalid input" error exactly when it is `-22`
/// (EINVAL), whatever the path.
pub proof fn law_invalid_input_iff_einval(errno: int, path: Seq<char>)
    ensures
        errno_error(errno, path).0 == ErrorKind::InvalidInput <==> errno == -22,
{
}

/// An RGW error reports "not found" (`is_not_found`) exactly when the
/// storage error it becomes is a "not found" error.
pub proof fn law_rgw_not_found_agrees(e: RgwError)
    ensures
        (e matches RgwError::Errno(code) && code == -2) <==> rgw_error_to_store(e).0 == ErrorKind::NotFound,
{
}

/// The error made from an errno code gives that code back.
pub proof fn law_errno_round_trip(code: i32)
    ensures
        (match RgwError::Errno(code) {
            RgwError::Errno(c) => Some(c),
            _ => None::<i32>,
        }) == Some(code),
{
}

/// Two `rgw://` URLs are keyed alike only when they name the same bucket:
/// the bucket name uniquely identifies the store.
pub proof fn law_rgw_prefix_identifies_bucket(
    u1: (Seq<char>, Seq<char>, Option<Seq<char>>, Seq<char>, Seq<char>),
    u2: (Seq<char>, Seq<char>, Option<Seq<char>>, Seq<char>, Seq<char>),
)
    requires
        rgw_store_prefix(u1) is Some,
        rgw_store_prefix(u1) == rgw_store_prefix(u2),
    ensures
        u1.2 == u2.2,
{
    let head = "rgw$"@;
    let b1 = u1.2->Some_0;
    let b2 = u2.2->Some_0;
    assert((head + b1).skip(head.len() as int) =~= b1);
    assert((head + b2).skip(head.len() as int) =~= b2);
}

/// Two URLs of the same scheme are keyed alike by the SAL provider only
/// when they have the same authority: a different bucket gives a different
/// key.
pub proof fn law_sal_prefix_identifies_authority(
    u1: (Seq<char>, Seq<char>, Option<Seq<char>>, Seq<char>, Seq<char>),
    u2: (Seq<char>, Seq<char>, Option<Seq<char>>, Seq<char>, Seq<char>),
)
    requires
        u1.1 == u2.1,
        sal_store_prefix(u1) == sal_store_prefix(u2),
    ensures
        u1.3 == u2.3,
{
    let head = u1.1 + "$"@;
    assert(sal_store_prefix(u1) =~= head + u1.3);
    assert(sal_store_prefix(u2) =~= head + u2.3);
    assert((head + u1.3).skip(head.len() as int) =~= u1.3);
    assert((head + u2.3).skip(head.len() as int) =~= u2.3);
}

/// A parsed object path has no leading and no trailing `/`.
pub proof fn law_parsed_path_has_no_outer_slash(s: Seq<char>)
    requires
        path_parse(s) is Some,
    ensures
        path_parse(s)->Some_0.len() > 0 ==> path_parse(s)->Some_0[0] != '/' && path_parse(s)->Some_0.last() != '/',
{
}

/// The path that a provider extracts from a URL depends on the URL's path
/// alone: a URL without a bucket gives the same path as one with.
pub proof fn law_object_path_ignores_bucket(
    u1: (Seq<char>, Seq<char>, Option<Seq<char>>, Seq<char>, Seq<char>),
    u2: (Seq<char>, Seq<char>, Option<Seq<char>>, Seq<char>, Seq<char>),
)
    requires
        u1.4 == u2.4,
    ensures
        url_object_path(u1) == url_object_path(u2),
{
}

/// A bounded read, or a read of the whole object, reports a range that
/// starts where the read started and spans exactly the bytes returned.
pub proof fn law_reported_range_matches_read(range: Option<GetRange>, len: u64)
    requires
        range is None || range is Some && range->Some_0 is Bounded,
    ensures
        returned_range(range, len).0 == read_window(range).0,
        returned_range(range, len).1 - returned_range(range, len).0 == len,
{
}

/// A listing never yields more objects than the entries it was given.
pub proof fn law_listing_not_longer(entries: Seq<RGWObjectEntry>, now: Timestamp)
    ensures
        entries_meta(entries, now).len() <= entries.len(),
    decreases entries.len(),
{
    if entries.len() > 0 {
        law_listing_not_longer(entries.drop_last(), now);
    }
}

/// Where every entry records a valid time, the listing does not depend on
/// the clock.
pub proof fn law_listing_independent_of_clock(entries: Seq<RGWObjectEntry>, now1: Timestamp, now2: Timestamp)
    requires
        forall|i: int|
            0 <= i < entries.len() ==> utc_time_exists(
                #[trigger] entries[i].mtime_sec,
                entries[i].mtime_nsec as u32,
            ),
    ensures
        entries_meta(entries, now1) == entries_meta(entries, now2),
    decreases entries.len(),
{
    if entries.len() > 0 {
        let rest = entries.drop_last();
        assert forall|i: int| 0 <= i < rest.len() implies utc_time_exists(
            #[trigger] rest[i].mtime_sec,
            rest[i].mtime_nsec as u32,
        ) by {
            assert(rest[i] == entries[i]);
        }
        law_listing_independent_of_clock(rest, now1, now2);
        let last = entries.last();
        assert(utc_time_exists(entries[entries.len() - 1].mtime_sec, entries[entries.len() - 1].mtime_nsec as u32));
        assert(entry_meta(last, now1) == entry_meta(last, now2));
    }
}


/// The entries of a list that have a usable key (neither null nor invalid
/// UTF-8), in their order.
pub open spec fn entries_with_key(entries: Seq<RGWObjectEntry>) -> Seq<RGWObjectEntry> {
    entries.filter(|e: RGWObjectEntry| c_string_text(e.key) is Some)
}

/// `m` describes entry `e`: its location is `e`'s key encoded as a path,
/// with `e`'s size and ETag, and `e`'s time where that is a valid time,
/// `now` otherwise.
pub open spec fn describes_entry(m: crate::object::ObjectMetaView, e: RGWObjectEntry, now: Timestamp) -> bool {
    &&& m.location == spec_path_from(c_string_text(e.key)->Some_0)
    &&& m.size == e.size
    &&& m.e_tag == c_string_text(e.etag)
    &&& m.version is None
    &&& utc_time_exists(e.mtime_sec, e.mtime_nsec as u32) ==> m.last_modified == Timestamp {
        secs: e.mtime_sec,
        nanos: e.mtime_nsec as u32,
    }
    &&& !utc_time_exists(e.mtime_sec, e.mtime_nsec as u32) ==> m.last_modified == now
}

/// The metadata listed for a sequence of entries holds exactly one object for
/// each entry whose key is usable, whatever its size, in the entries' order,
/// and the `i`-th object describes the `i`-th such entry.
pub proof fn law_listing_keeps_every_keyed_entry(entries: Seq<RGWObjectEntry>, now: Timestamp)
    ensures
        entries_meta(entries, now).len() == entries_with_key(entries).len(),
        forall|i: int|
            0 <= i < entries_with_key(entries).len() ==> describes_entry(
                #[trigger] entries_meta(entries, now)[i],
                entries_with_key(entries)[i],
                now,
            ),
    decreases entries.len(),
{
    reveal_with_fuel(Seq::filter, 1);
    if entries.len() > 0 {
        let rest = entries.drop_last();
        law_listing_keeps_every_keyed_entry(rest, now);
        let last = entries.last();
        assert(entries_with_key(entries) == if c_string_text(last.key) is Some {
            entries_with_key(rest).push(last)
        } else {
            entries_with_key(rest)
        });
    }
}

/// A list result lists one object for each of its entries whose key is
/// usable, whatever the object's size, in order; the `i`-th listed object
/// describes the `i`-th such entry. A result without entries lists nothing.
pub proof fn law_list_result_keeps_every_keyed_entry(r: RGWListResult, now: Timestamp)
    requires
        r.well_formed(),
    ensures
        ({
            let entries = match r.entries {
                Some(v) => v@,
                None => Seq::empty(),
            };
            &&& list_result_meta(r, now).len() == entries_with_key(entries).len()
            &&& forall|i: int|
                0 <= i < entries_with_key(entries).len() ==> describes_entry(
                    #[trigger] list_result_meta(r, now)[i],
                    entries_with_key(entries)[i],
                    now,
                )
        }),
{
    reveal_with_fuel(Seq::filter, 1);
    match r.entries {
        Some(v) => {
            law_listing_keeps_every_keyed_entry(v@, now);
            if r.num_objects == 0 {
                assert(v@.len() == 0);
                assert(entries_with_key(v@) =~= Seq::empty());
            }
        },
        None => {
            assert(entries_with_key(Seq::<RGWObjectEntry>::empty()) =~= Seq::empty());
        },
    }
}

/// A bounded read of `start..end` reads exactly those bytes: from offset
/// `start`, `end - start` of them. A read from an offset reads from that
/// offset to the end (length 0), and a suffix or whole read starts at 0 and
/// reads to the end.
pub proof fn law_read_window_covers_the_range(start: u64, end: u64, offset: u64, n: u64)
    requires
        start <= end,
    ensures
        read_window(Some(GetRange::Bounded { start, end })).0 == start,
        read_window(Some(GetRange::Bounded { start, end })).0 + read_window(
            Some(GetRange::Bounded { start, end }),
        ).1 == end,
        read_window(Some(GetRange::Offset(offset))) == (offset, 0u64),
        read_window(Some(GetRange::Suffix(n))) == (0u64, 0u64),
        read_window(None) == (0u64, 0u64),
{
}

/// The sum of the lengths of byte chunks.
pub open spec fn total_len(chunks: Seq<Seq<u8>>) -> int {
    chunks.fold_left(0int, |acc: int, c: Seq<u8>| acc + c.len())
}

/// The bytes of a payload are all of its chunks one after the other: no
/// chunks give no bytes, one more chunk appends exactly its bytes, whatever
/// the number of chunks before it, and the length is the sum of the chunks'
/// lengths.
pub proof fn law_payload_is_all_chunks_in_order(chunks: Seq<Seq<u8>>, chunk: Seq<u8>)
    ensures
        concat_chunks(Seq::empty()) == Seq::<u8>::empty(),
        concat_chunks(chunks.push(chunk)) == concat_chunks(chunks) + chunk,
        concat_chunks(chunks).len() == total_len(chunks),
    decreases chunks.len(),
{
    assert(chunks.push(chunk).drop_last() =~= chunks);
    if chunks.len() > 0 {
        law_payload_is_all_chunks_in_order(chunks.drop_last(), chunks.last());
    }
}

/// Trimming leading slashes removes only `/` characters, and all of them:
/// the result is what follows a prefix of `/` characters in `s`, and it
/// does not start with `/`.
pub proof fn law_trim_removes_only_leading_slashes(s: Seq<char>)
    ensures
        trim_leading_slashes(s).len() <= s.len(),
        trim_leading_slashes(s) == s.skip(s.len() - trim_leading_slashes(s).len()),
        forall|i: int| 0 <= i < s.len() - trim_leading_slashes(s).len() ==> s[i] == '/',
        trim_leading_slashes(s).len() > 0 ==> trim_leading_slashes(s)[0] != '/',
    decreases s.len(),
{
    if s.len() > 0 && s[0] == '/' {
        let rest = s.drop_first();
        law_trim_removes_only_leading_slashes(rest);
        assert(rest.skip(rest.len() - trim_leading_slashes(rest).len()) =~= s.skip(
            s.len() - trim_leading_slashes(rest).len(),
        ));
        assert forall|i: int| 0 <= i < s.len() - trim_leading_slashes(s).len() implies s[i] == '/' by {
            if i > 0 {
                assert(s[i] == rest[i - 1]);
            }
        }
    } else {
        assert(s.skip(0) =~= s);
    }
}

/// A URL path of one `/` and then `p`, where `p` does not start with `/`,
/// trims to `p` itself.
pub proof fn law_trim_single_slash(p: Seq<char>)
    requires
        p.len() == 0 || p[0] != '/',
    ensures
        trim_leading_slashes(seq!['/'] + p) == p,
{
    let s = seq!['/'] + p;
    assert(s[0] == '/');
    assert(s.drop_first() =~= p);
    assert(trim_leading_slashes(p) == p);
    assert(trim_leading_slashes(s) == trim_leading_slashes(s.drop_first()));
}

/// A storage option is found exactly when some pair has its key, and then
/// the value found is that of the first pair with the key.
pub proof fn law_option_found_iff_present(options: Seq<(String, String)>, key: Seq<char>)
    ensures
        option_value(options, key) is Some <==> exists|i: int| 0 <= i < options.len() && #[trigger] options[i].0@ == key,
        option_value(options, key) is Some ==> exists|i: int|
            0 <= i < options.len() && #[trigger] options[i].0@ == key && option_value(options, key)
                == Some(options[i].1@) && forall|j: int| 0 <= j < i ==> options[j].0@ != key,
    decreases options.len(),
{
    if options.len() > 0 {
        let rest = options.drop_first();
        law_option_found_iff_present(rest, key);
        if options[0].0@ == key {
            assert(options[0].0@ == key);
        } else {
            if exists|i: int| 0 <= i < options.len() && #[trigger] options[i].0@ == key {
                let i = choose|i: int| 0 <= i < options.len() && #[trigger] options[i].0@ == key;
                assert(rest[i - 1].0@ == key);
            }
            if option_value(options, key) is Some {
                let i = choose|i: int|
                    0 <= i < rest.len() && #[trigger] rest[i].0@ == key && option_value(rest, key)
                        == Some(rest[i].1@) && forall|j: int| 0 <= j < i ==> rest[j].0@ != key;
                assert(options[i + 1] == rest[i]);
                assert forall|j: int| 0 <= j < i + 1 implies options[j].0@ != key by {
                    if j > 0 {
                        assert(options[j] == rest[j - 1]);
                    }
                }
            }
        }
    }
}


/// A read reports the range of the bytes it returned: for a bounded range,
/// from the range's start, `len` bytes long; for any other read, from 0,
/// `len` bytes long.
pub proof fn law_reported_range_of_every_read(start: u64, end: u64, offset: u64, n: u64, len: u64)
    ensures
        returned_range(Some((GetRange::Bounded { start, end })), len) == (start as int, start + len),
        returned_range(Some(GetRange::Offset(offset)), len) == (0int, len as int),
        returned_range(Some(GetRange::Suffix(n)), len) == (0int, len as int),
        returned_range(None, len) == (0int, len as int),
{
}

/// The metadata a read reports describes the object read: the location
/// asked for, the size and ETag RGW gave, and RGW's time where that is a
/// valid time, `now` otherwise.
pub proof fn law_read_meta_describes_object(location: Seq<char>, meta: RGWObjectMeta, now: Timestamp)
    ensures
        read_meta(location, meta, now).location == location,
        read_meta(location, meta, now).size == meta.size,
        read_meta(location, meta, now).e_tag == c_string_text(meta.etag),
        read_meta(location, meta, now).version is None,
        utc_time_exists(meta.mtime_sec, meta.mtime_nsec as u32) ==> read_meta(location, meta, now).last_modified
            == (Timestamp { secs: meta.mtime_sec, nanos: meta.mtime_nsec as u32 }),
        !utc_time_exists(meta.mtime_sec, meta.mtime_nsec as u32) ==> read_meta(location, meta, now).last_modified
            == now,
{
}

} // verus!

//! Portable archives: the files of a bundle in a ZIP file.
use crate::text::{begins_with, cat2, cat4, ends_with, ends_with_text};
use std::io::Write;
use vstd::prelude::*;
use vstd::string::*;
use vstd::utf8::encode_utf8;

verus! {

/// A ZIP file that is being written into memory, of the `zip` crate.
#[verifier::external_body]
pub struct ZipFile {
    inner: zip::ZipWriter<std::io::Cursor<Vec<u8>>>,
}

/// What a ZIP file that is being written holds so far: the entries' names and
/// contents, in order. The last entry is open.
pub uninterp spec fn zip_entries(zip: ZipFile) -> Seq<(Seq<char>, Seq<u8>)>;

/// Whether all that was asked of a ZIP file so far was done.
pub uninterp spec fn zip_intact(zip: ZipFile) -> bool;

/// What a finished ZIP file holds: its entries' names and contents, in order.
pub uninterp spec fn archive_entries(data: Seq<u8>) -> Seq<(Seq<char>, Seq<u8>)>;

/// Whether an entry has that name.
pub open spec fn has_entry(entries: Seq<(Seq<char>, Seq<u8>)>, name: Seq<char>) -> bool {
    exists|i: int| 0 <= i < entries.len() && (#[trigger] entries[i]).0 == name
}

/// No two entries have the same name.
pub open spec fn names_differ(entries: Seq<(Seq<char>, Seq<u8>)>) -> bool {
    forall|i: int, j: int|
        0 <= i < j < entries.len() ==> (#[trigger] entries[i]).0 != (#[trigger] entries[j]).0
}

/// The most that an entry may hold so that it surely fits. The sizes of an entry
/// are written in 32 bits, and deflating makes contents longer by an eighth, a
/// sixty-fourth and a few bytes at most.
pub const MAX_ENTRY_LEN: usize = 0xE000_0000;

/// All entries are short enough.
pub open spec fn entries_fit(entries: Seq<(Seq<char>, Seq<u8>)>) -> bool {
    forall|i: int| 0 <= i < entries.len() ==> (#[trigger] entries[i]).1.len() <= MAX_ENTRY_LEN
}

/// The message for a name that is taken.
pub open spec fn duplicate_message(name: Seq<char>) -> Seq<char> {
    "invalid Zip archive: Duplicate filename: "@ + name
}

/// `zip::ZipWriter::new` on an empty buffer: a ZIP file without entries.
#[verifier::external_body]
fn new_zip() -> (zip: ZipFile)
    ensures
        zip_entries(zip) == Seq::<(Seq<char>, Seq<u8>)>::empty(),
        zip_intact(zip),
{
    ZipFile { inner: zip::ZipWriter::new(std::io::Cursor::new(Vec::new())) }
}

/// `zip::ZipWriter::start_file` with deflate compression: opens an empty entry
/// behind the others. The file is written into memory, so it fails for two
/// reasons only: the entry before it is too long, or the name is taken. The
/// length of a name is written in 16 bits, and a longer one would end in a panic.
#[verifier::external_body]
fn start_entry(zip: &mut ZipFile, name: &str) -> (r: Result<(), String>)
    requires
        encode_utf8(name@).len() <= 65535,
    ensures
        r is Ok ==> zip_entries(*final(zip)) == zip_entries(*old(zip)).push(
            (name@, Seq::<u8>::empty()),
        ),
        r is Ok ==> !has_entry(zip_entries(*old(zip)), name@),
        r is Ok && zip_intact(*old(zip)) ==> zip_intact(*final(zip)),
        zip_intact(*old(zip)) && entries_fit(zip_entries(*old(zip))) && !has_entry(
            zip_entries(*old(zip)),
            name@,
        ) ==> r is Ok,
        zip_intact(*old(zip)) && entries_fit(zip_entries(*old(zip))) && has_entry(
            zip_entries(*old(zip)),
            name@,
        ) ==> r is Err && r->Err_0@ == duplicate_message(name@),
{
    let options = zip::write::SimpleFileOptions::default().compression_method(
        zip::CompressionMethod::Deflated,
    );
    zip.inner.start_file(name, options).map_err(|e| e.to_string())
}

/// `write_all` on a `zip::ZipWriter`: appends to the entry that is open, which it
/// refuses only where the entry becomes too long.
#[verifier::external_body]
fn write_entry(zip: &mut ZipFile, data: &[u8]) -> (r: Result<(), String>)
    requires
        zip_entries(*old(zip)).len() > 0,
    ensures
        r is Ok ==> zip_entries(*final(zip)) == zip_entries(*old(zip)).drop_last().push(
            (zip_entries(*old(zip)).last().0, zip_entries(*old(zip)).last().1 + data@),
        ),
        r is Ok && zip_intact(*old(zip)) ==> zip_intact(*final(zip)),
        zip_intact(*old(zip)) && zip_entries(*old(zip)).last().1.len() + data@.len()
            <= MAX_ENTRY_LEN ==> r is Ok,
{
    zip.inner.write_all(data).map_err(|e| e.to_string())
}

/// `zip::ZipWriter::finish`: the bytes of a ZIP file that holds the entries. It
/// fails only where the last entry is too long.
#[verifier::external_body]
fn finish_zip(zip: ZipFile) -> (r: Result<Vec<u8>, String>)
    ensures
        r matches Ok(data) ==> archive_entries(data@) == zip_entries(zip),
        zip_intact(zip) && entries_fit(zip_entries(zip)) ==> r is Ok,
{
    zip.inner.finish().map(|buffer| buffer.into_inner()).map_err(|e| e.to_string())
}

/// Something in the directory of a bundle.
pub struct BundleEntry {
    /// Its path in that directory, with `/` between the parts.
    pub name: String,
    pub is_file: bool,
    /// The contents of a file, or why it could not be read.
    pub data: Result<Vec<u8>, String>,
}

/// Whether a name goes into an archive: what only the build needs does not.
pub open spec fn is_archived(name: Seq<char>) -> bool {
    !ends_with(name, ".nsi"@) && !ends_with(name, ".exe.manifest"@)
}

/// Whether a file of that name goes into a portable archive.
pub fn goes_into_archive(name: &str) -> (r: bool)
    ensures
        r == is_archived(name@),
{
    !ends_with_text(name, ".nsi") && !ends_with_text(name, ".exe.manifest")
}

/// Whether an entry of the bundle's directory goes into an archive.
pub open spec fn is_packed(e: BundleEntry) -> bool {
    e.is_file && is_archived(e.name@)
}

/// The contents of a file; nothing where it could not be read.
pub open spec fn contents(e: BundleEntry) -> Seq<u8> {
    match e.data {
        Ok(data) => data@,
        Err(_) => Seq::empty(),
    }
}

/// What a portable archive of a bundle holds: the files that go into it, in
/// order, each under its name.
pub open spec fn packed(bundle: Seq<BundleEntry>) -> Seq<(Seq<char>, Seq<u8>)>
    decreases bundle.len(),
{
    if bundle.len() == 0 {
        Seq::empty()
    } else {
        let rest = packed(bundle.drop_last());
        if is_packed(bundle.last()) {
            rest.push((bundle.last().name@, contents(bundle.last())))
        } else {
            rest
        }
    }
}

/// Why a portable archive could not be made: a file could not be read, or the
/// ZIP file could not take an entry or be finished.
pub open spec fn is_packing_error(bundle: Seq<BundleEntry>, e: Seq<char>) -> bool {
    begins_with(e, "Failed to finalize zip: "@) || exists|k: int|
        0 <= k < bundle.len() && is_entry_error(#[trigger] bundle[k], e)
}

/// Why an entry could not be put into an archive.
pub open spec fn is_entry_error(entry: BundleEntry, e: Seq<char>) -> bool {
    &&& is_packed(entry)
    &&& {
        ||| begins_with(e, "Failed to start zip entry "@ + entry.name@ + ": "@)
        ||| begins_with(e, "Failed to write "@ + entry.name@ + " to zip: "@)
        ||| (entry.data matches Err(reason) && e == "Failed to read "@ + entry.name@ + ": "@
            + reason@)
    }
}

/// No file that goes into the archive is too long.
pub open spec fn files_fit(bundle: Seq<BundleEntry>) -> bool {
    forall|k: int|
        0 <= k < bundle.len() && is_packed(#[trigger] bundle[k]) ==> contents(bundle[k]).len()
            <= MAX_ENTRY_LEN
}

/// All files that go into the archive could be read, have different names and
/// are not too long.
pub open spec fn is_packable(bundle: Seq<BundleEntry>) -> bool {
    &&& names_differ(packed(bundle))
    &&& forall|k: int|
        0 <= k < bundle.len() && is_packed(#[trigger] bundle[k]) ==> (bundle[k].data matches Ok(d)
            && d@.len() <= MAX_ENTRY_LEN)
}

/// Whether a file cannot go into the archive, because the name is that of an
/// earlier one or because it could not be read.
pub open spec fn is_fault(bundle: Seq<BundleEntry>, k: int) -> bool {
    &&& is_packed(bundle[k])
    &&& has_entry(packed(bundle.take(k)), bundle[k].name@) || bundle[k].data is Err
}

/// Why a file cannot go into the archive.
pub open spec fn fault_message(bundle: Seq<BundleEntry>, k: int) -> Seq<char> {
    let name = bundle[k].name@;
    if has_entry(packed(bundle.take(k)), name) {
        "Failed to start zip entry "@ + name + ": "@ + duplicate_message(name)
    } else {
        "Failed to read "@ + name + ": "@ + bundle[k].data->Err_0@
    }
}

/// The first file that cannot go into the archive is at `k`.
pub open spec fn is_first_fault(bundle: Seq<BundleEntry>, k: int) -> bool {
    &&& 0 <= k < bundle.len()
    &&& is_fault(bundle, k)
    &&& forall|j: int| 0 <= j < k ==> !#[trigger] is_fault(bundle, j)
}

/// The message is that for the first file that cannot go into the archive.
pub open spec fn is_first_failure(bundle: Seq<BundleEntry>, e: Seq<char>) -> bool {
    exists|k: int| #[trigger] is_first_fault(bundle, k) && e == fault_message(bundle, k)
}

/// What the first files of a bundle come to stands first in its archive.
proof fn lemma_packed_prefix(bundle: Seq<BundleEntry>, n: int)
    requires
        0 <= n <= bundle.len(),
    ensures
        packed(bundle.take(n)).len() <= packed(bundle).len(),
        packed(bundle).take(packed(bundle.take(n)).len() as int) == packed(bundle.take(n)),
    decreases bundle.len(),
{
    if n == bundle.len() {
        assert(bundle.take(n) =~= bundle);
        assert(packed(bundle).take(packed(bundle).len() as int) =~= packed(bundle));
    } else {
        let rest = bundle.drop_last();
        assert(rest.take(n) =~= bundle.take(n));
        lemma_packed_prefix(rest, n);
        let len = packed(bundle.take(n)).len() as int;
        assert(packed(bundle).take(len) =~= packed(rest).take(len));
    }
}

/// A file with the name of an earlier one cannot be packed beside it.
proof fn lemma_taken_name(bundle: Seq<BundleEntry>, k: int)
    requires
        0 <= k < bundle.len(),
        is_packed(bundle[k]),
        has_entry(packed(bundle.take(k)), bundle[k].name@),
    ensures
        !names_differ(packed(bundle)),
{
    let earlier = packed(bundle.take(k));
    let i = choose|i: int| 0 <= i < earlier.len() && (#[trigger] earlier[i]).0 == bundle[k].name@;
    assert(bundle.take(k + 1).drop_last() =~= bundle.take(k));
    lemma_packed_prefix(bundle, k + 1);
    let upto = packed(bundle.take(k + 1));
    assert(upto == earlier.push((bundle[k].name@, contents(bundle[k]))));
    let all = packed(bundle);
    assert(all[i] == all.take(upto.len() as int)[i]);
    assert(all[earlier.len() as int] == all.take(upto.len() as int)[earlier.len() as int]);
    assert(all[i].0 == all[earlier.len() as int].0);
}

/// Create a portable ZIP containing the bundle directory contents.
pub fn create_portable_zip(bundle: &Vec<BundleEntry>) -> (r: Result<Vec<u8>, String>)
    requires
        forall|k: int|
            0 <= k < bundle@.len() && is_packed(#[trigger] bundle@[k]) ==> encode_utf8(
                bundle@[k].name@,
            ).len() <= 65535,
    ensures
        match r {
            Ok(data) => {
                &&& archive_entries(data@) == packed(bundle@)
                &&& names_differ(packed(bundle@))
                &&& forall|k: int|
                    0 <= k < bundle@.len() && is_packed(#[trigger] bundle@[k])
                        ==> bundle@[k].data is Ok
            },
            Err(e) => is_packing_error(bundle@, e@),
        },
        is_packable(bundle@) ==> r is Ok,
        files_fit(bundle@) && r is Err ==> is_first_failure(bundle@, r->Err_0@),
{
    let mut zip = new_zip();
    proof {
        if is_packable(bundle@) {
            assert forall|k: int|
                0 <= k < bundle@.len() && is_packed(#[trigger] bundle@[k]) implies contents(
                bundle@[k],
            ).len() <= MAX_ENTRY_LEN by {
                assert(bundle@[k].data is Ok);
            }
        }
    }
    let mut i: usize = 0;
    assert(packed(bundle@.take(0)) =~= Seq::empty());
    while i < bundle.len()
        invariant
            i <= bundle@.len(),
            zip_entries(zip) == packed(bundle@.take(i as int)),
            names_differ(zip_entries(zip)),
            zip_intact(zip),
            files_fit(bundle@) ==> entries_fit(zip_entries(zip)),
            is_packable(bundle@) ==> files_fit(bundle@),
            forall|j: int| 0 <= j < i ==> !#[trigger] is_fault(bundle@, j),
            forall|k: int|
                0 <= k < bundle@.len() && is_packed(#[trigger] bundle@[k]) ==> encode_utf8(
                    bundle@[k].name@,
                ).len() <= 65535,
            forall|k: int|
                0 <= k < i && is_packed(#[trigger] bundle@[k]) ==> bundle@[k].data is Ok,
        decreases bundle@.len() - i,
    {
        let entry = &bundle[i];
        let name = entry.name.as_str();
        assert(bundle@.take(i + 1).drop_last() =~= bundle@.take(i as int));
        if entry.is_file && goes_into_archive(name) {
            let ghost before = zip_entries(zip);
            match start_entry(&mut zip, name) {
                Ok(()) => {},
                Err(e) => {
                    let s = cat4("Failed to start zip entry ", name, ": ", e.as_str());
                    proof {
                        lemma_begins(
                            "Failed to start zip entry "@ + name@ + ": "@,
                            e@,
                        );
                        assert(is_entry_error(bundle@[i as int], s@));
                        if files_fit(bundle@) {
                            assert(has_entry(before, name@));
                            lemma_taken_name(bundle@, i as int);
                            assert(is_first_fault(bundle@, i as int));
                            assert(s@ == fault_message(bundle@, i as int));
                        }
                    }
                    return Err(s);
                },
            }
            match &entry.data {
                Ok(data) => match write_entry(&mut zip, data.as_slice()) {
                    Ok(()) => {
                        assert(zip_entries(zip) =~= before.push((name@, data@)));
                        assert(contents(bundle@[i as int]) == data@);
                    },
                    Err(e) => {
                        let s = cat4("Failed to write ", name, " to zip: ", e.as_str());
                        proof {
                            lemma_begins("Failed to write "@ + name@ + " to zip: "@, e@);
                            assert(is_entry_error(bundle@[i as int], s@));
                            assert(contents(bundle@[i as int]) == data@);
                        }
                        return Err(s);
                    },
                },
                Err(e) => {
                    let s = cat4("Failed to read ", name, ": ", e.as_str());
                    assert(is_entry_error(bundle@[i as int], s@));
                    assert(is_first_fault(bundle@, i as int));
                    assert(s@ == fault_message(bundle@, i as int));
                    return Err(s);
                },
            }
        }
        i = i + 1;
    }
    assert(bundle@.take(bundle@.len() as int) =~= bundle@);
    match finish_zip(zip) {
        Ok(data) => Ok(data),
        Err(e) => {
            let s = cat2("Failed to finalize zip: ", e.as_str());
            proof {
                lemma_begins("Failed to finalize zip: "@, e@);
            }
            Err(s)
        },
    }
}

proof fn lemma_begins(a: Seq<char>, b: Seq<char>)
    ensures
        begins_with(a + b, a),
{
    assert((a + b).take(a.len() as int) =~= a);
}

} // verus!

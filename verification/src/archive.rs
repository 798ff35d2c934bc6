//! Building an uncompressed zip archive in memory. Each entry is written
//! under its name with stored (uncompressed) options, in the given order;
//! the caller reads the source files beforehand and writes the finished
//! bytes out afterwards.

use vstd::prelude::*;
use vstd::utf8::encode_utf8;

use crate::errors::BackendError;

verus! {

/// A zip writer over an in-memory buffer. The writer itself comes from
/// the zip crate and is opaque here; everything stated about it goes
/// through `zip_entry_views`.
#[verifier::external_body]
pub struct ArchiveWriter {
    inner: zip::write::ZipWriter<std::io::Cursor<Vec<u8>>>,
}

/// The entries written to the archive so far, in order: each a name and
/// the bytes written under it.
pub uninterp spec fn zip_entry_views(w: ArchiveWriter) -> Seq<(Seq<char>, Seq<u8>)>;

/// Whether the writer's stream holds exactly its entries' headers and
/// bytes. A failed oversized write aborts the entry but leaves its bytes
/// past the rewound position, and finishing such a writer emits that
/// residue too; the wrappers keep to clean writers, so the first failure
/// abandons the writer.
pub uninterp spec fn zip_writer_clean(w: ArchiveWriter) -> bool;

/// Whether the last entry is open for writing: bytes can only be written
/// between starting an entry and starting the next (or finishing).
pub uninterp spec fn zip_entry_open(w: ArchiveWriter) -> bool;

/// The bytes of the finished archive holding exactly the given entries:
/// with stored entries and fixed options they depend on the entries
/// alone. That holds per build: the zip crate's `time` feature is off
/// here, so the per-entry timestamp is the constant 1980-01-01 (with it
/// on, the current time would enter the bytes), and the central
/// directory's system and attribute bytes are fixed at compile time per
/// target platform.
pub uninterp spec fn zip_archive_bytes(entries: Seq<(Seq<char>, Seq<u8>)>) -> Seq<u8>;

/// Relies on zip's `ZipWriter::new` over an in-memory cursor: a fresh
/// writer holds no entries.
#[verifier::external_body]
fn zip_writer_new() -> (w: ArchiveWriter)
    ensures
        zip_entry_views(w) == Seq::<(Seq<char>, Seq<u8>)>::empty(),
        zip_writer_clean(w),
{
    ArchiveWriter { inner: zip::write::ZipWriter::new(std::io::Cursor::new(Vec::new())) }
}

/// Relies on zip's `ZipWriter::start_file` with stored (uncompressed)
/// options: on success a new empty entry under the given name is open at
/// the end of a still-clean archive; on a clean in-memory writer it fails
/// only for a name already in the archive or a name whose UTF-8 form does
/// not fit the format's 16-bit length field, and a failure leaves the
/// writer in a state nothing more is stated about.
#[verifier::external_body]
fn zip_start_entry(w: &mut ArchiveWriter, name: &str) -> (r:
    Result<(), String>)
    requires
        zip_writer_clean(*old(w)),
    ensures
        r is Ok ==> zip_entry_views(*final(w)) == zip_entry_views(*old(w)).push(
            (name@, Seq::<u8>::empty()),
        ) && zip_writer_clean(*final(w)) && zip_entry_open(*final(w)),
        (forall|k: int|
            0 <= k < zip_entry_views(*old(w)).len() ==> zip_entry_views(*old(w))[k].0 != name@)
            && encode_utf8(name@).len() <= 65535 ==> r is Ok,
{
    let options = zip::write::SimpleFileOptions::default().compression_method(
        zip::CompressionMethod::Stored,
    );
    w.inner.start_file(name, options).map_err(|e| e.to_string())
}

/// Relies on the `std::io::Write` impl of zip's `ZipWriter`: `write_all`
/// appends the bytes to the open entry; on a clean in-memory writer with
/// an entry open it fails only when the entry grows past the format's
/// 32-bit size limit (the large-file option is not set here), and a
/// failure leaves the writer in a state nothing more is stated about.
#[verifier::external_body]
fn zip_write_data(w: &mut ArchiveWriter, data: &[u8]) -> (r:
    Result<(), String>)
    requires
        zip_entry_views(*old(w)).len() > 0,
        zip_writer_clean(*old(w)),
        zip_entry_open(*old(w)),
    ensures
        r is Ok ==> zip_entry_views(*final(w)) == zip_entry_views(*old(w)).update(
            zip_entry_views(*old(w)).len() - 1,
            (zip_entry_views(*old(w)).last().0, zip_entry_views(*old(w)).last().1 + data@),
        ) && zip_writer_clean(*final(w)) && zip_entry_open(*final(w)),
        zip_entry_views(*old(w)).last().1.len() + data@.len() <= 0xffff_ffff ==> r is Ok,
{
    std::io::Write::write_all(&mut w.inner, data).map_err(|e| e.to_string())
}

/// Relies on zip's `ZipWriter::finish`: it writes the central directory
/// and hands back the cursor over the finished archive bytes of a clean
/// writer. On an in-memory cursor every write and seek succeeds, entry
/// names and sizes were already bounded when the entries were written,
/// and oversized counts or offsets get zip64 records, so finishing
/// cannot fail.
#[verifier::external_body]
fn zip_finish(w: ArchiveWriter) -> (r: Result<Vec<u8>, String>)
    requires
        zip_writer_clean(w),
    ensures
        r is Ok,
        r matches Ok(b) ==> b@ == zip_archive_bytes(zip_entry_views(w)),
{
    match w.inner.finish() {
        Ok(c) => Ok(c.into_inner()),
        Err(e) => Err(e.to_string()),
    }
}

/// One archive entry: the name it is stored under and its content.
pub struct ZipEntry {
    pub name: String,
    pub data: Vec<u8>,
}

/// The entries as name and content sequences, in order.
pub open spec fn entries_view(es: Seq<ZipEntry>) -> Seq<(Seq<char>, Seq<u8>)> {
    es.map(|i: int, e: ZipEntry| (e.name@, e.data@))
}

/// No two entries share a name.
pub open spec fn entry_names_distinct(es: Seq<ZipEntry>) -> bool {
    forall|i: int, j: int| 0 <= i < j < es.len() ==> es[i].name@ != es[j].name@
}

/// Every entry fits the archive format: the name's UTF-8 form in the
/// 16-bit length field, the content in the 32-bit size field.
pub open spec fn entries_within_zip_limits(es: Seq<ZipEntry>) -> bool {
    forall|i: int|
        0 <= i < es.len() ==> encode_utf8(#[trigger] es[i].name@).len() <= 65535
            && es[i].data@.len() <= 0xffff_ffff
}

/// Builds an uncompressed archive holding exactly the given entries, in
/// the given order. Succeeds whenever the entry names are pairwise
/// distinct and each entry fits the archive format; otherwise it fails
/// with a file error on the first entry the zip writer refused.
pub fn build_zip_archive(entries: &Vec<ZipEntry>) -> (r: Result<Vec<u8>, BackendError>)
    ensures
        (r matches Ok(b) ==> b@ == zip_archive_bytes(entries_view(entries@))),
        (r matches Err(e) ==> e is FileIoError),
        (entry_names_distinct(entries@) && entries_within_zip_limits(entries@) ==> r is Ok),
{
    let mut w = zip_writer_new();
    let n = entries.len();
    let mut i: usize = 0;
    while i < n
        invariant
            i <= n,
            n == entries@.len(),
            zip_entry_views(w) == entries_view(entries@.take(i as int)),
            zip_writer_clean(w),
        decreases n - i,
    {
        let entry = &entries[i];
        let ghost before = zip_entry_views(w);
        match zip_start_entry(&mut w, entry.name.as_str()) {
            Ok(_) => (),
            Err(m) => {
                return Err(BackendError::FileIoError { message: m });
            },
        }
        match zip_write_data(&mut w, entry.data.as_slice()) {
            Ok(_) => (),
            Err(m) => {
                return Err(BackendError::FileIoError { message: m });
            },
        }
        proof {
            let withname = before.push((entry.name@, Seq::<u8>::empty()));
            assert(withname.last() == (entry.name@, Seq::<u8>::empty()));
            assert(Seq::<u8>::empty() + entry.data@ =~= entry.data@);
            assert(zip_entry_views(w) =~= before.push((entry.name@, entry.data@)));
            assert(entries_view(entries@.take(i + 1)) =~= entries_view(
                entries@.take(i as int),
            ).push((entry.name@, entry.data@)));
        }
        i = i + 1;
    }
    proof {
        assert(entries@.take(n as int) =~= entries@);
    }
    match zip_finish(w) {
        Ok(b) => Ok(b),
        Err(m) => Err(BackendError::FileIoError { message: m }),
    }
}

} // verus!

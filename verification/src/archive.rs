//! Archive packer core: turns an in-memory file set into a compressed
//! tar-style archive and back. The archive encoding itself comes from the
//! tar and flate2 crates behind trusted wrappers; the packing loop and the
//! round-trip contracts are verified here. Walking a source directory and
//! writing the archive to the staging area are I/O and live with the caller.

use vstd::prelude::*;
use vstd::string::*;

verus! {

/// One file of a source tree: its path relative to the tree's root and its
/// contents.
#[derive(Debug)]
pub struct FileEntry {
    pub path: String,
    pub data: Vec<u8>,
}

/// The model of one file entry: its path and contents as sequences.
pub open spec fn entry_model(e: FileEntry) -> (Seq<char>, Seq<u8>) {
    (e.path@, e.data@)
}

/// The model of a file list, in order.
pub open spec fn entries_model(es: Seq<FileEntry>) -> Seq<(Seq<char>, Seq<u8>)> {
    es.map_values(|e: FileEntry| entry_model(e))
}

/// An archive staging or write failure, carrying the underlying cause.
#[derive(Debug)]
pub struct IoError {
    pub cause: String,
}

/// Whether position `i` starts a path component: the start of the path or
/// the position right after a separator.
pub open spec fn component_starts_at(p: Seq<char>, i: int) -> bool {
    0 <= i < p.len() && (i == 0 || p[i - 1] == '/')
}

/// Whether the component starting at `i` is exactly `.`.
pub open spec fn dot_component_at(p: Seq<char>, i: int) -> bool {
    component_starts_at(p, i) && p[i] == '.' && (i + 1 == p.len() || p[i + 1] == '/')
}

/// Whether the component starting at `i` is exactly `..`.
pub open spec fn dot_dot_component_at(p: Seq<char>, i: int) -> bool {
    component_starts_at(p, i) && p[i] == '.' && i + 1 < p.len() && p[i + 1] == '.' && (i + 2
        == p.len() || p[i + 2] == '/')
}

/// A path in tar-normal form: non-empty and relative, with no empty, `.` or
/// `..` components and no NUL characters. The archive encoder stores such a
/// path byte-for-byte and reading the archive hands it back unchanged; any
/// other path it rejects or rewrites while encoding (`.` components are
/// skipped, repeated separators collapse), so only these paths are admitted.
/// Every path produced by walking a directory tree is in this form.
pub open spec fn tar_path_normal(p: Seq<char>) -> bool {
    &&& p.len() > 0
    &&& p[0] != '/'
    &&& p[p.len() - 1] != '/'
    &&& forall|i: int| 0 <= i < p.len() ==> #[trigger] p[i] != '\0'
    &&& forall|i: int| 0 <= i && i + 1 < p.len() ==> !(#[trigger] p[i] == '/' && p[i + 1] == '/')
    &&& forall|i: int| !dot_component_at(p, i)
    &&& forall|i: int| !dot_dot_component_at(p, i)
}

/// Decides whether a path is in tar-normal form.
pub fn is_tar_normal_path(p: &str) -> (b: bool)
    ensures
        b == tar_path_normal(p@),
{
    let n = p.unicode_len();
    if n == 0 {
        return false;
    }
    if p.get_char(0) == '/' {
        return false;
    }
    if p.get_char(n - 1) == '/' {
        return false;
    }
    let mut i: usize = 0;
    while i < n
        invariant
            n == p@.len(),
            0 < n <= usize::MAX,
            i <= n,
            p@[0] != '/',
            p@[n - 1] != '/',
            forall|j: int| 0 <= j < i ==> #[trigger] p@[j] != '\0',
            forall|j: int| 0 <= j < i && j + 1 < n ==> !(#[trigger] p@[j] == '/' && p@[j + 1]
                == '/'),
            forall|j: int| j < i ==> !dot_component_at(p@, j),
            forall|j: int| j < i ==> !dot_dot_component_at(p@, j),
        decreases n - i,
    {
        let c = p.get_char(i);
        if c == '\0' {
            proof {
                assert(p@[i as int] == '\0');
            }
            return false;
        }
        if c == '/' && i + 1 < n && p.get_char(i + 1) == '/' {
            proof {
                assert(p@[i as int] == '/' && p@[i + 1] == '/');
            }
            return false;
        }
        let at_start = i == 0 || p.get_char(i - 1) == '/';
        if at_start && c == '.' {
            if i + 1 == n {
                proof {
                    assert(dot_component_at(p@, i as int));
                }
                return false;
            }
            let c1 = p.get_char(i + 1);
            if c1 == '/' {
                proof {
                    assert(dot_component_at(p@, i as int));
                }
                return false;
            }
            if c1 == '.' && (i + 2 == n || p.get_char(i + 2) == '/') {
                proof {
                    assert(dot_dot_component_at(p@, i as int));
                }
                return false;
            }
        }
        i += 1;
    }
    true
}

/// An in-memory tar builder of the tar crate. Its generic writer parameter
/// keeps the type itself from being declared to the verifier, so it is held
/// opaquely here and spoken of only through `tar_entries`.
#[verifier::external_body]
pub struct ArchiveBuilder {
    inner: tar::Builder<Vec<u8>>,
}

/// What has been appended so far to an in-memory tar builder: the entries'
/// paths and contents, in append order.
pub uninterp spec fn tar_entries(b: ArchiveBuilder) -> Seq<(Seq<char>, Seq<u8>)>;

/// What tar extraction returns on a byte sequence: the archived entries in
/// order, with their paths read back as text, or nothing when the bytes are
/// not a well-formed archive of such entries.
pub uninterp spec fn untar_bytes(b: Seq<u8>) -> Option<Seq<(Seq<char>, Seq<u8>)>>;

/// What gzip decompression returns on a byte sequence: the decompressed
/// bytes, or nothing when the input is not a well-formed gzip stream.
pub uninterp spec fn gunzip_bytes(b: Seq<u8>) -> Option<Seq<u8>>;

/// The entries an archive's bytes decode to: gzip decompression followed by
/// tar extraction.
pub open spec fn archive_contents(b: Seq<u8>) -> Option<Seq<(Seq<char>, Seq<u8>)>> {
    match gunzip_bytes(b) {
        Option::Some(t) => untar_bytes(t),
        Option::None => Option::None,
    }
}

/// Relies on tar::Builder::new: a fresh builder over an in-memory buffer
/// holds no entries.
#[verifier::external_body]
fn tar_builder_new() -> (b: ArchiveBuilder)
    ensures
        tar_entries(b) == Seq::<(Seq<char>, Seq<u8>)>::empty(),
{
    ArchiveBuilder { inner: tar::Builder::new(Vec::new()) }
}

/// Relies on tar::Builder::append_data: the entry is appended under the
/// given path with the given contents, as a regular file. A path in
/// tar-normal form is stored byte-for-byte — a short one directly in the
/// header, a longer one through a long-name extension entry — and the call
/// cannot fail, since writing to the in-memory buffer cannot; paths the
/// encoder would reject or rewrite are excluded by the precondition.
#[verifier::external_body]
fn tar_append(b: &mut ArchiveBuilder, path: &String, data: &Vec<u8>)
    requires
        tar_path_normal(path@),
    ensures
        tar_entries(*final(b)) == tar_entries(*old(b)).push((path@, data@)),
{
    let mut header = tar::Header::new_gnu();
    header.set_size(data.len() as u64);
    header.set_mode(0o644);
    header.set_mtime(0);
    header.set_cksum();
    b.inner
        .append_data(&mut header, path.as_str(), data.as_slice())
        .expect("appending a tar-normal path to an in-memory archive cannot fail");
}

/// Relies on tar::Builder::into_inner: finishing the archive and reading it
/// back yields exactly the appended entries, in order. Flushing to the
/// in-memory buffer cannot fail.
#[verifier::external_body]
fn tar_finish(b: ArchiveBuilder) -> (r: Vec<u8>)
    ensures
        untar_bytes(r@) == Option::Some(tar_entries(b)),
{
    b.inner.into_inner().expect("writing a tar archive to memory cannot fail")
}

/// Relies on tar::Archive::entries: reads back the entries of an archive,
/// with their paths as text, in archive order.
#[verifier::external_body]
fn read_tar(data: &Vec<u8>) -> (r: Result<Vec<FileEntry>, String>)
    ensures
        r matches Ok(v) ==> untar_bytes(data@) == Option::Some(entries_model(v@)),
        r matches Err(_) ==> untar_bytes(data@) is None,
{
    let mut archive = tar::Archive::new(data.as_slice());
    let mut out = Vec::new();
    for entry in archive.entries().map_err(|e| e.to_string())? {
        let mut entry = entry.map_err(|e| e.to_string())?;
        let path = String::from_utf8(entry.path_bytes().to_vec()).map_err(|e| e.to_string())?;
        let mut data = Vec::new();
        std::io::Read::read_to_end(&mut entry, &mut data).map_err(|e| e.to_string())?;
        out.push(FileEntry { path, data });
    }
    Ok(out)
}

/// Relies on flate2::write::GzEncoder: gzip compression is lossless, so
/// decompressing the result returns the input. Writing to the in-memory
/// buffer cannot fail.
#[verifier::external_body]
fn gzip_compress(data: &Vec<u8>) -> (r: Vec<u8>)
    ensures
        gunzip_bytes(r@) == Option::Some(data@),
{
    let mut enc = flate2::write::GzEncoder::new(Vec::new(), flate2::Compression::default());
    std::io::Write::write_all(&mut enc, data.as_slice()).expect(
        "compressing into memory cannot fail",
    );
    enc.finish().expect("compressing into memory cannot fail")
}

/// Relies on flate2::read::GzDecoder: decompresses a gzip stream, or fails
/// on input that is not one.
#[verifier::external_body]
fn gzip_decompress(data: &Vec<u8>) -> (r: Result<Vec<u8>, String>)
    ensures
        r matches Ok(v) ==> gunzip_bytes(data@) == Option::Some(v@),
        r matches Err(_) ==> gunzip_bytes(data@) is None,
{
    let mut out = Vec::new();
    let mut dec = flate2::read::GzDecoder::new(data.as_slice());
    match std::io::Read::read_to_end(&mut dec, &mut out) {
        Ok(_) => Ok(out),
        Err(e) => Err(e.to_string()),
    }
}

/// Packages a file set as a compressed tar-style archive rooted at the set's
/// own top level. Succeeds exactly when every path is in tar-normal form —
/// which every path obtained by walking a source directory is — and the
/// returned bytes then decode back to exactly the given entries. An entry
/// with any other path is rejected, carrying that path as the cause.
pub fn pack(entries: &Vec<FileEntry>) -> (r: Result<Vec<u8>, IoError>)
    ensures
        r is Ok <==> (forall|i: int|
            0 <= i < entries@.len() ==> tar_path_normal(#[trigger] entries@[i].path@)),
        r matches Ok(b) ==> archive_contents(b@) == Option::Some(entries_model(entries@)),
{
    let mut builder = tar_builder_new();
    let mut i: usize = 0;
    proof {
        assert(entries_model(entries@.subrange(0, 0)) =~= Seq::<(Seq<char>, Seq<u8>)>::empty());
    }
    while i < entries.len()
        invariant
            i <= entries@.len(),
            forall|j: int| 0 <= j < i ==> tar_path_normal(#[trigger] entries@[j].path@),
            tar_entries(builder) == entries_model(entries@.subrange(0, i as int)),
        decreases entries@.len() - i,
    {
        let e = &entries[i];
        if !is_tar_normal_path(e.path.as_str()) {
            return Result::Err(IoError { cause: e.path.clone() });
        }
        tar_append(&mut builder, &e.path, &e.data);
        proof {
            assert(entries_model(entries@.subrange(0, i + 1)) =~= entries_model(
                entries@.subrange(0, i as int),
            ).push((entries@[i as int].path@, entries@[i as int].data@)));
        }
        i += 1;
    }
    proof {
        assert(entries@.subrange(0, entries@.len() as int) =~= entries@);
    }
    let t = tar_finish(builder);
    Result::Ok(gzip_compress(&t))
}

/// Re-extracts a packed archive: decompression followed by tar extraction.
/// Exactly the archives that `pack` reports decode to a file set; anything
/// else is rejected with the underlying cause.
pub fn unpack(archive: &Vec<u8>) -> (r: Result<Vec<FileEntry>, IoError>)
    ensures
        r matches Ok(v) ==> archive_contents(archive@) == Option::Some(entries_model(v@)),
        r matches Err(_) ==> archive_contents(archive@) is None,
{
    let t = match gzip_decompress(archive) {
        Result::Ok(t) => t,
        Result::Err(cause) => {
            return Result::Err(IoError { cause });
        },
    };
    match read_tar(&t) {
        Result::Ok(v) => Result::Ok(v),
        Result::Err(cause) => Result::Err(IoError { cause }),
    }
}

} // verus!

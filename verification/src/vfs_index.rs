//! The file list of a vanilla irose `data.idx` archive index.
//!
//! Layout, every integer little-endian: a header of three `u32` (base
//! version, current version, number of archives), then one entry per archive:
//! its name (a `u16` length and that many bytes, the last of them a
//! terminator), and the `u32` offset of its file table. A file table starts
//! with three `u32` (number of files and two unused words), then holds one
//! entry per file: its name as above, then `u32` offset, `u32` size, `u32`
//! block size, `u8` deleted flag, `u8` compressed flag, `u8` encrypted flag,
//! `u32` version and `u32` checksum. Names are EUC-KR text.

use vstd::prelude::*;
use vstd::string::*;

use crate::text::views;

verus! {

/// Why an index could not be read.
#[derive(Clone, Copy, Debug, PartialEq, Eq, Structural)]
pub enum IndexError {
    /// A field runs past the end of the data.
    UnexpectedEof,
    /// A name field has length zero, so it lacks even its terminator. The
    /// file list of such an index is not defined: the original tool panics
    /// there, [`read_vanilla_filenames`] requires that it is not met, and
    /// [`try_read_vanilla_filenames`] answers `None` for it.
    EmptyName,
}

/// The text that `encoding_rs::EUC_KR.decode` gives for `bytes`.
pub uninterp spec fn euc_kr_decode(bytes: Seq<u8>) -> Seq<char>;

/// The text that `str::to_uppercase` gives for `s`.
pub uninterp spec fn uppercase(s: Seq<char>) -> Seq<char>;

/// Whether every byte is ASCII.
pub open spec fn all_ascii(bytes: Seq<u8>) -> bool {
    forall|i: int| 0 <= i < bytes.len() ==> bytes[i] < 0x80
}

/// The ASCII characters that `bytes` stand for.
pub open spec fn ascii_chars(bytes: Seq<u8>) -> Seq<char> {
    bytes.map_values(|b: u8| b as char)
}

/// `encoding_rs::Encoding::decode` on `EUC_KR`: decodes `bytes` as EUC-KR
/// (after sniffing for a byte order mark), replacing malformed sequences.
/// Its result is named [`euc_kr_decode`]; ASCII input comes out unchanged, as
/// the source shows (no byte order mark starts with an ASCII byte, and the
/// decoder borrows input that is ASCII throughout). The size computation in
/// the decoder cannot overflow for the short inputs admitted here.
#[verifier::external_body]
fn decode_euc_kr(bytes: &[u8]) -> (text: String)
    requires
        bytes@.len() <= 0xffff,
    ensures
        text@ == euc_kr_decode(bytes@),
        all_ascii(bytes@) ==> text@ == ascii_chars(bytes@),
{
    encoding_rs::EUC_KR.decode(bytes).0.into_owned()
}

/// `str::to_uppercase`: the uppercase equivalent of `s`, named
/// [`uppercase`].
#[verifier::external_body]
fn to_uppercase(s: &str) -> (upper: String)
    ensures
        upper@ == uppercase(s@),
{
    s.to_uppercase()
}

/// Whether `n` bytes can be read at `p`.
pub open spec fn fits(d: Seq<u8>, p: int, n: int) -> bool {
    0 <= p && p + n <= d.len()
}

/// The little-endian `u16` at `p`.
pub open spec fn u16_at(d: Seq<u8>, p: int) -> int {
    d[p] + 256 * d[p + 1]
}

/// The little-endian `u32` at `p`.
pub open spec fn u32_at(d: Seq<u8>, p: int) -> int {
    d[p] + 256 * d[p + 1] + 65536 * d[p + 2] + 16777216 * d[p + 3]
}

/// The name field at `p`: the name's bytes without the terminator, and the
/// position after the field.
pub open spec fn name_at(d: Seq<u8>, p: int) -> Result<(Seq<u8>, int), IndexError> {
    if !fits(d, p, 2) || !fits(d, p + 2, u16_at(d, p)) {
        Err(IndexError::UnexpectedEof)
    } else if u16_at(d, p) == 0 {
        Err(IndexError::EmptyName)
    } else {
        Ok((d.subrange(p + 2, p + 1 + u16_at(d, p)), p + 2 + u16_at(d, p)))
    }
}

/// The file entry at `p`: the name's bytes, whether the file is marked
/// deleted, and the position after the entry.
pub open spec fn file_entry_at(d: Seq<u8>, p: int) -> Result<(Seq<u8>, bool, int), IndexError> {
    match name_at(d, p) {
        Err(e) => Err(e),
        Ok((name, q)) => if !fits(d, q, 23) {
            Err(IndexError::UnexpectedEof)
        } else {
            Ok((name, d[q + 12] != 0, q + 23))
        },
    }
}

/// The names of the files not marked deleted among the `count` file entries
/// from `p`, and the position after them.
pub open spec fn files_at(d: Seq<u8>, p: int, count: nat) -> Result<
    (Seq<Seq<char>>, int),
    IndexError,
>
    decreases count,
{
    if count == 0 {
        Ok((Seq::empty(), p))
    } else {
        match file_entry_at(d, p) {
            Err(e) => Err(e),
            Ok((name, deleted, q)) => match files_at(d, q, (count - 1) as nat) {
                Err(e) => Err(e),
                Ok((rest, r)) => Ok(
                    (if deleted {
                        rest
                    } else {
                        seq![euc_kr_decode(name)] + rest
                    }, r),
                ),
            },
        }
    }
}

/// Whether an archive of this name is the root archive, whose files are not
/// listed.
pub open spec fn is_root_archive(name: Seq<u8>) -> bool {
    uppercase(euc_kr_decode(name)) == "ROOT.VFS"@
}

/// The names listed by the `count` archive entries from `p`.
pub open spec fn archives_at(d: Seq<u8>, p: int, count: nat) -> Result<Seq<Seq<char>>, IndexError>
    decreases count,
{
    if count == 0 {
        Ok(Seq::empty())
    } else {
        match name_at(d, p) {
            Err(e) => Err(e),
            Ok((name, q)) => if !fits(d, q, 4) || !fits(d, u32_at(d, q), 12) {
                Err(IndexError::UnexpectedEof)
            } else if is_root_archive(name) {
                archives_at(d, q + 4, (count - 1) as nat)
            } else {
                match files_at(d, u32_at(d, q) + 12, u32_at(d, u32_at(d, q)) as nat) {
                    Err(e) => Err(e),
                    Ok((files, _)) => prefixed(files, archives_at(d, q + 4, (count - 1) as nat)),
                }
            },
        }
    }
}

/// `r` with `front` put before the names it holds.
pub open spec fn prefixed(front: Seq<Seq<char>>, r: Result<Seq<Seq<char>>, IndexError>) -> Result<
    Seq<Seq<char>>,
    IndexError,
> {
    match r {
        Ok(rest) => Ok(front + rest),
        Err(e) => Err(e),
    }
}

/// The names of the files an index lists: per archive in order, except the
/// root archive, the files not marked deleted, in order, decoded from EUC-KR.
pub open spec fn index_filenames(d: Seq<u8>) -> Result<Seq<Seq<char>>, IndexError> {
    if !fits(d, 0, 12) {
        Err(IndexError::UnexpectedEof)
    } else {
        archives_at(d, 12, u32_at(d, 8) as nat)
    }
}

fn read_u16(d: &[u8], p: usize) -> (r: Option<usize>)
    ensures
        match r {
            Some(v) => fits(d@, p as int, 2) && v == u16_at(d@, p as int),
            None => !fits(d@, p as int, 2),
        },
{
    if p <= d.len() && d.len() - p >= 2 {
        Some(d[p] as usize + (d[p + 1] as usize) * 256)
    } else {
        None
    }
}

fn read_u32(d: &[u8], p: usize) -> (r: Option<u32>)
    ensures
        match r {
            Some(v) => fits(d@, p as int, 4) && v == u32_at(d@, p as int),
            None => !fits(d@, p as int, 4),
        },
{
    if p <= d.len() && d.len() - p >= 4 {
        Some(
            d[p] as u32 + (d[p + 1] as u32) * 256 + (d[p + 2] as u32) * 65536 + (d[p + 3] as u32)
                * 16777216,
        )
    } else {
        None
    }
}

/// Reads and decodes the name field at `p`.
fn read_name(d: &[u8], p: usize) -> (r: Result<(String, usize), IndexError>)
    ensures
        match name_at(d@, p as int) {
            Ok((bytes, q)) => r matches Ok((s, q2)) && s@ == euc_kr_decode(bytes) && q2 == q,
            Err(e) => r matches Err(f) && f == e,
        },
{
    let n = match read_u16(d, p) {
        Some(n) => n,
        None => return Err(IndexError::UnexpectedEof),
    };
    let len = d.len();
    assert(p + 2 <= len);
    let start = p + 2;
    if !(len - start >= n) {
        return Err(IndexError::UnexpectedEof);
    }
    if n == 0 {
        return Err(IndexError::EmptyName);
    }
    let bytes = &d[start..start + n - 1];
    let name = decode_euc_kr(bytes);
    Ok((name, start + n))
}

/// Reads the `count` file entries from `p`, appending the names of those not
/// marked deleted to `names`.
fn read_files(d: &[u8], p: usize, count: u32, names: &mut Vec<String>) -> (r: Result<
    (),
    IndexError,
>)
    ensures
        match files_at(d@, p as int, count as nat) {
            Ok((files, _)) => r is Ok && views(final(names)@) == views(old(names)@) + files,
            Err(e) => r matches Err(f) && f == e,
        },
{
    let ghost start = views(names@);
    let mut pos = p;
    let mut i: u32 = 0;
    while i < count
        invariant
            i <= count,
            files_at(d@, p as int, count as nat) == (match files_at(
                d@,
                pos as int,
                (count - i) as nat,
            ) {
                Ok((rest, r)) => Ok((views(names@).subrange(start.len() as int, views(names@).len() as int) + rest, r)),
                Err(e) => Err::<(Seq<Seq<char>>, int), IndexError>(e),
            }),
            views(names@).len() >= start.len(),
            views(names@).subrange(0, start.len() as int) == start,
        decreases count - i,
    {
        let ghost before = views(names@);
        let (name, q) = match read_name(d, pos) {
            Ok(x) => x,
            Err(e) => return Err(e),
        };
        if !(d.len() - q >= 23) {
            return Err(IndexError::UnexpectedEof);
        }
        let deleted = d[q + 12];
        if deleted == 0 {
            names.push(name);
        }
        proof {
            let after = views(names@);
            assert(before.subrange(0, start.len() as int) == start);
            assert(after.subrange(0, start.len() as int) =~= start);
            let acc = before.subrange(start.len() as int, before.len() as int);
            let acc2 = after.subrange(start.len() as int, after.len() as int);
            if deleted == 0 {
                assert(acc2 =~= acc + seq![name@]);
                assert forall|rest: Seq<Seq<char>>| #[trigger] (acc2 + rest) =~= acc + (seq![name@] + rest) by {}
            } else {
                assert(acc2 =~= acc);
            }
        }
        pos = q + 23;
        i = i + 1;
    }
    proof {
        let after = views(names@);
        assert(after =~= start + after.subrange(start.len() as int, after.len() as int));
        assert(after.subrange(start.len() as int, after.len() as int) + Seq::empty() =~= after.subrange(start.len() as int, after.len() as int));
    }
    Ok(())
}

/// Reads the index as far as it goes: its file names, or the first failure.
fn parse_index(data: &[u8]) -> (r: Result<Vec<String>, IndexError>)
    ensures
        match index_filenames(data@) {
            Ok(names) => r matches Ok(v) && views(v@) == names,
            Err(e) => r matches Err(f) && f == e,
        },
{
    let num_archives = match read_u32(data, 8) {
        Some(n) => n,
        None => return Err(IndexError::UnexpectedEof),
    };
    let mut names: Vec<String> = Vec::new();
    let mut pos: usize = 12;
    let mut i: u32 = 0;
    while i < num_archives
        invariant
            i <= num_archives,
            fits(data@, 0, 12),
            index_filenames(data@) == prefixed(
                views(names@),
                archives_at(data@, pos as int, (num_archives - i) as nat),
            ),
        decreases num_archives - i,
    {
        let ghost before = views(names@);
        let (archive_name, q) = match read_name(data, pos) {
            Ok(x) => x,
            Err(e) => return Err(e),
        };
        let offset = match read_u32(data, q) {
            Some(o) => o as usize,
            None => return Err(IndexError::UnexpectedEof),
        };
        let num_files = match read_u32(data, offset) {
            Some(n) => n,
            None => return Err(IndexError::UnexpectedEof),
        };
        if !(data.len() - offset >= 12) {
            return Err(IndexError::UnexpectedEof);
        }
        let upper = to_uppercase(archive_name.as_str());
        let root = upper == String::from_str("ROOT.VFS");
        proof {
            let (bytes, q0) = name_at(data@, pos as int)->Ok_0;
            assert(q0 == q);
            assert(root == is_root_archive(bytes));
            assert(archives_at(data@, pos as int, (num_archives - i) as nat) == if root {
                archives_at(data@, q + 4, (num_archives - i - 1) as nat)
            } else {
                match files_at(data@, offset + 12, num_files as nat) {
                    Err(e) => Err(e),
                    Ok((files, _)) => prefixed(files, archives_at(data@, q + 4, (num_archives - i - 1) as nat)),
                }
            });
        }
        if !root {
            match read_files(data, offset + 12, num_files, &mut names) {
                Ok(()) => {},
                Err(e) => return Err(e),
            }
            proof {
                let rest = archives_at(data@, q + 4, (num_archives - i - 1) as nat);
                let files = files_at(data@, (offset + 12) as int, num_files as nat)->Ok_0.0;
                assert(views(names@) == before + files);
                match rest {
                    Ok(r) => {
                        assert(before + (files + r) =~= views(names@) + r);
                    },
                    Err(_) => {},
                }
            }
        }
        pos = q + 4;
        i = i + 1;
    }
    proof {
        assert(views(names@) + Seq::empty() =~= views(names@));
    }
    Ok(names)
}

/// Whether reading the index comes to a name field of length zero before any
/// other failure, the input on which the original tool panics.
pub open spec fn reaches_empty_name(d: Seq<u8>) -> bool {
    index_filenames(d) == Err::<Seq<Seq<char>>, IndexError>(IndexError::EmptyName)
}

/// Reads the file name list out of a vanilla irose `data.idx` (which, unlike
/// TitanROSE's hash-only index, stores real file names): the names of the
/// files not marked deleted, archive by archive, skipping the root archive,
/// decoded from EUC-KR. Fails where a field runs past the end of the data.
/// An index that comes to a name of length zero first is left out, as the
/// original tool panics on it.
pub fn read_vanilla_filenames(data: &[u8]) -> (r: Result<Vec<String>, IndexError>)
    requires
        !reaches_empty_name(data@),
    ensures
        match index_filenames(data@) {
            Ok(names) => r matches Ok(v) && views(v@) == names,
            Err(e) => r matches Err(f) && f == e && e == IndexError::UnexpectedEof,
        },
{
    parse_index(data)
}

/// Reads the file name list as [`read_vanilla_filenames`] does, where the
/// index does not come to a name of length zero first; gives `None` where it
/// does.
pub fn try_read_vanilla_filenames(data: &[u8]) -> (r: Option<Result<Vec<String>, IndexError>>)
    ensures
        r is None <==> reaches_empty_name(data@),
        r matches Some(res) ==> match index_filenames(data@) {
            Ok(names) => res matches Ok(v) && views(v@) == names,
            Err(e) => res matches Err(f) && f == e && e == IndexError::UnexpectedEof,
        },
{
    let reaches_empty = match parse_index(data) {
        Err(IndexError::EmptyName) => true,
        _ => false,
    };
    if reaches_empty {
        None
    } else {
        Some(read_vanilla_filenames(data))
    }
}

} // verus!

verus! {

/// The little-endian bytes of a `u16` value.
pub open spec fn le16(v: int) -> Seq<u8> {
    seq![(v % 256) as u8, ((v / 256) % 256) as u8]
}

/// The little-endian bytes of a `u32` value.
pub open spec fn le32(v: int) -> Seq<u8> {
    seq![
        (v % 256) as u8,
        ((v / 256) % 256) as u8,
        (((v / 256) / 256) % 256) as u8,
        ((((v / 256) / 256) / 256) % 256) as u8,
    ]
}

/// A file to be written into an index: its name's bytes, the byte that ends
/// the name field, the 12 bytes of its offset, size and block size, its
/// deleted flag, and the 10 bytes of its other flags, version and checksum.
pub type FileSpec = (Seq<u8>, u8, Seq<u8>, u8, Seq<u8>);

/// An archive to be written into an index: its name's bytes, the byte that
/// ends the name field, the two unused words of its file table, its files.
pub type ArchiveSpec = (Seq<u8>, u8, Seq<u8>, Seq<FileSpec>);

/// A name field holding `raw` ended by `end`: its length with the ending
/// byte, `raw`, and the ending byte.
pub open spec fn name_field(raw: Seq<u8>, end: u8) -> Seq<u8> {
    le16(raw.len() + 1int) + raw + seq![end]
}

/// The entry of a file.
pub open spec fn file_record(f: FileSpec) -> Seq<u8> {
    name_field(f.0, f.1) + f.2 + seq![f.3] + f.4
}

/// The file entries, one after the other.
pub open spec fn file_records(files: Seq<FileSpec>) -> Seq<u8>
    decreases files.len(),
{
    if files.len() == 0 {
        Seq::empty()
    } else {
        file_record(files[0]) + file_records(files.drop_first())
    }
}

/// A file table: the number of files, two unused words, the entries.
pub open spec fn file_table(a: ArchiveSpec) -> Seq<u8> {
    le32(a.3.len() as int) + a.2 + file_records(a.3)
}

/// The file tables of the archives, one after the other.
pub open spec fn file_tables(archives: Seq<ArchiveSpec>) -> Seq<u8>
    decreases archives.len(),
{
    if archives.len() == 0 {
        Seq::empty()
    } else {
        file_table(archives[0]) + file_tables(archives.drop_first())
    }
}

/// The archive entries, each naming the archive and the offset of its file
/// table, the tables lying one after the other from `table_at`.
pub open spec fn archive_entries(archives: Seq<ArchiveSpec>, table_at: int) -> Seq<u8>
    decreases archives.len(),
{
    if archives.len() == 0 {
        Seq::empty()
    } else {
        name_field(archives[0].0, archives[0].1) + le32(table_at) + archive_entries(
            archives.drop_first(),
            table_at + file_table(archives[0]).len(),
        )
    }
}

/// The size of the archive entries.
pub open spec fn entries_size(archives: Seq<ArchiveSpec>) -> int
    decreases archives.len(),
{
    if archives.len() == 0 {
        0
    } else {
        archives[0].0.len() + 7 + entries_size(archives.drop_first())
    }
}

/// An index of these archives, each with its files: the two version words,
/// the number of archives, the archive entries, then the file tables in the
/// same order.
pub open spec fn index_bytes(versions: Seq<u8>, archives: Seq<ArchiveSpec>) -> Seq<u8> {
    versions + le32(archives.len() as int) + archive_entries(archives, 12 + entries_size(archives))
        + file_tables(archives)
}

/// The decoded names of the files whose deleted flag is zero, in order.
pub open spec fn live_names(files: Seq<FileSpec>) -> Seq<Seq<char>>
    decreases files.len(),
{
    if files.len() == 0 {
        Seq::empty()
    } else {
        (if files[0].3 == 0 {
            seq![euc_kr_decode(files[0].0)]
        } else {
            Seq::empty()
        }) + live_names(files.drop_first())
    }
}

/// The names an index of these archives lists: archive by archive, except an
/// archive named `ROOT.VFS` in any case, its files not marked deleted.
pub open spec fn listed_names(archives: Seq<ArchiveSpec>) -> Seq<Seq<char>>
    decreases archives.len(),
{
    if archives.len() == 0 {
        Seq::empty()
    } else {
        (if uppercase(euc_kr_decode(archives[0].0)) == "ROOT.VFS"@ {
            Seq::empty()
        } else {
            live_names(archives[0].3)
        }) + listed_names(archives.drop_first())
    }
}

/// Whether a file can be written into an index.
pub open spec fn writable_file(f: FileSpec) -> bool {
    f.0.len() < 65535 && f.2.len() == 12 && f.4.len() == 10
}

/// Whether an archive can be written into an index.
pub open spec fn writable_archive(a: ArchiveSpec) -> bool {
    &&& a.0.len() < 65535
    &&& a.2.len() == 8
    &&& a.3.len() < 0x1_0000_0000
    &&& forall|f: int| 0 <= f < a.3.len() ==> writable_file(#[trigger] a.3[f])
}

/// Whether the archives can be written as an index: every name is shorter
/// than 65535 bytes, every field has its size, and the index is shorter than
/// 4 GiB.
pub open spec fn writable_index(versions: Seq<u8>, archives: Seq<ArchiveSpec>) -> bool {
    &&& versions.len() == 8
    &&& archives.len() < 0x1_0000_0000
    &&& forall|a: int| 0 <= a < archives.len() ==> writable_archive(#[trigger] archives[a])
    &&& index_bytes(versions, archives).len() < 0x1_0000_0000
}

/// `x` lies in `d` from `p`.
pub open spec fn lies_at(d: Seq<u8>, p: int, x: Seq<u8>) -> bool {
    0 <= p && p + x.len() <= d.len() && d.subrange(p, p + x.len()) == x
}

proof fn lemma_lies_split(d: Seq<u8>, p: int, x: Seq<u8>, y: Seq<u8>)
    requires
        lies_at(d, p, x + y),
    ensures
        lies_at(d, p, x),
        lies_at(d, p + x.len(), y),
{
    assert(d.subrange(p, p + x.len()) =~= (x + y).subrange(0, x.len() as int));
    assert((x + y).subrange(0, x.len() as int) =~= x);
    assert(d.subrange(p + x.len(), p + x.len() + y.len()) =~= y) by {
        assert forall|k: int| 0 <= k < y.len() implies d.subrange(
            p + x.len(),
            p + x.len() + y.len(),
        )[k] == y[k] by {
            assert(d[p + x.len() + k] == d.subrange(p, p + (x + y).len())[x.len() + k]);
        }
    }
}

proof fn lemma_lies_byte(d: Seq<u8>, p: int, x: Seq<u8>, k: int)
    requires
        lies_at(d, p, x),
        0 <= k < x.len(),
    ensures
        d[p + k] == x[k],
{
    assert(d[p + k] == d.subrange(p, p + x.len())[k]);
}

proof fn lemma_read_le16(d: Seq<u8>, p: int, v: int)
    requires
        lies_at(d, p, le16(v)),
        0 <= v < 65536,
    ensures
        fits(d, p, 2),
        u16_at(d, p) == v,
{
    lemma_lies_byte(d, p, le16(v), 0);
    lemma_lies_byte(d, p, le16(v), 1);
}

proof fn lemma_read_le32(d: Seq<u8>, p: int, v: int)
    requires
        lies_at(d, p, le32(v)),
        0 <= v < 0x1_0000_0000,
    ensures
        fits(d, p, 4),
        u32_at(d, p) == v,
{
    lemma_lies_byte(d, p, le32(v), 0);
    lemma_lies_byte(d, p, le32(v), 1);
    lemma_lies_byte(d, p, le32(v), 2);
    lemma_lies_byte(d, p, le32(v), 3);
}

proof fn lemma_read_name_field(d: Seq<u8>, p: int, raw: Seq<u8>, end: u8)
    requires
        lies_at(d, p, name_field(raw, end)),
        raw.len() < 65535,
    ensures
        name_at(d, p) == Ok::<(Seq<u8>, int), IndexError>((raw, p + raw.len() + 3)),
{
    let n = raw.len() + 1int;
    lemma_lies_split(d, p, le16(n) + raw, seq![end]);
    lemma_lies_split(d, p, le16(n), raw);
    lemma_read_le16(d, p, n);
    assert(d.subrange(p + 2, p + 1 + n) == raw);
}

proof fn lemma_read_file_record(d: Seq<u8>, p: int, f: FileSpec)
    requires
        lies_at(d, p, file_record(f)),
        writable_file(f),
    ensures
        file_entry_at(d, p) == Ok::<(Seq<u8>, bool, int), IndexError>(
            (f.0, f.3 != 0, p + file_record(f).len()),
        ),
{
    let b = seq![f.3];
    let head = name_field(f.0, f.1) + f.2;
    lemma_lies_split(d, p, head + b, f.4);
    lemma_lies_split(d, p, head, b);
    lemma_lies_split(d, p, name_field(f.0, f.1), f.2);
    lemma_read_name_field(d, p, f.0, f.1);
    let q = p + f.0.len() + 3;
    lemma_lies_byte(d, q + 12, b, 0);
}

proof fn lemma_read_file_records(d: Seq<u8>, p: int, files: Seq<FileSpec>)
    requires
        lies_at(d, p, file_records(files)),
        forall|f: int| 0 <= f < files.len() ==> writable_file(#[trigger] files[f]),
    ensures
        files_at(d, p, files.len()) == Ok::<(Seq<Seq<char>>, int), IndexError>(
            (live_names(files), p + file_records(files).len()),
        ),
    decreases files.len(),
{
    if files.len() > 0 {
        let rest = files.drop_first();
        let rec = file_record(files[0]);
        lemma_lies_split(d, p, rec, file_records(rest));
        lemma_read_file_record(d, p, files[0]);
        assert forall|f: int| 0 <= f < rest.len() implies writable_file(#[trigger] rest[f]) by {
            assert(rest[f] == files[f + 1]);
        }
        lemma_read_file_records(d, p + rec.len(), rest);
        assert((files.len() - 1) as nat == rest.len());
        if files[0].3 != 0 {
            assert(live_names(files) =~= live_names(rest));
        } else {
            assert(live_names(files) =~= seq![euc_kr_decode(files[0].0)] + live_names(rest));
        }
    }
}

proof fn lemma_entries_size(archives: Seq<ArchiveSpec>, t: int)
    ensures
        archive_entries(archives, t).len() == entries_size(archives),
    decreases archives.len(),
{
    if archives.len() > 0 {
        lemma_entries_size(archives.drop_first(), t + file_table(archives[0]).len());
    }
}

proof fn lemma_read_archives(d: Seq<u8>, p: int, t: int, archives: Seq<ArchiveSpec>)
    requires
        lies_at(d, p, archive_entries(archives, t)),
        lies_at(d, t, file_tables(archives)),
        d.len() < 0x1_0000_0000,
        forall|a: int| 0 <= a < archives.len() ==> writable_archive(#[trigger] archives[a]),
    ensures
        archives_at(d, p, archives.len()) == Ok::<Seq<Seq<char>>, IndexError>(
            listed_names(archives),
        ),
    decreases archives.len(),
{
    if archives.len() > 0 {
        let a = archives[0];
        assert(writable_archive(a));
        let rest = archives.drop_first();
        let t2 = t + file_table(a).len();
        lemma_lies_split(d, p, name_field(a.0, a.1) + le32(t), archive_entries(rest, t2));
        lemma_lies_split(d, p, name_field(a.0, a.1), le32(t));
        lemma_lies_split(d, t, file_table(a), file_tables(rest));
        lemma_read_name_field(d, p, a.0, a.1);
        let q = p + a.0.len() + 3;
        lemma_read_le32(d, q, t);
        lemma_lies_split(d, t, le32(a.3.len() as int) + a.2, file_records(a.3));
        lemma_lies_split(d, t, le32(a.3.len() as int), a.2);
        lemma_read_le32(d, t, a.3.len() as int);
        assert forall|k: int| 0 <= k < rest.len() implies writable_archive(#[trigger] rest[k]) by {
            assert(rest[k] == archives[k + 1]);
        }
        lemma_read_archives(d, q + 4, t2, rest);
        assert((archives.len() - 1) as nat == rest.len());
        if uppercase(euc_kr_decode(a.0)) == "ROOT.VFS"@ {
            assert(listed_names(archives) =~= listed_names(rest));
        } else {
            lemma_read_file_records(d, t + 12, a.3);
            assert(listed_names(archives) =~= live_names(a.3) + listed_names(rest));
        }
    }
}

/// Reading back an index written from archives and their files gives the
/// names of the files whose deleted flag is zero, archive by archive in
/// order, skipping the root archive: each name is the name field's bytes but
/// the last, decoded, each archive's file table is found at the full 32-bit
/// offset its entry gives however far into the index it lies, and no other
/// field of the index matters.
pub proof fn lemma_index_roundtrip(versions: Seq<u8>, archives: Seq<ArchiveSpec>)
    requires
        writable_index(versions, archives),
    ensures
        index_filenames(index_bytes(versions, archives)) == Ok::<Seq<Seq<char>>, IndexError>(
            listed_names(archives),
        ),
{
    let d = index_bytes(versions, archives);
    let t = 12 + entries_size(archives);
    let entries = archive_entries(archives, t);
    lemma_entries_size(archives, t);
    assert(d.subrange(0, d.len() as int) =~= d);
    lemma_lies_split(d, 0, versions + le32(archives.len() as int) + entries, file_tables(archives));
    lemma_lies_split(d, 0, versions + le32(archives.len() as int), entries);
    lemma_lies_split(d, 0, versions, le32(archives.len() as int));
    lemma_read_le32(d, 8, archives.len() as int);
    lemma_read_archives(d, 12, t, archives);
}

/// An index shorter than its header fails with `UnexpectedEof`; an index
/// whose first archive's name field is complete but has length zero comes to
/// an empty name, on which the original tool panics.
pub proof fn lemma_index_failures(d: Seq<u8>, versions: Seq<u8>, rest: Seq<u8>, count: int)
    ensures
        d.len() < 12 ==> index_filenames(d) == Err::<Seq<Seq<char>>, IndexError>(
            IndexError::UnexpectedEof,
        ),
        versions.len() == 8 && 1 <= count < 0x1_0000_0000 ==> reaches_empty_name(
            versions + le32(count) + le16(0) + rest,
        ),
{
    if versions.len() == 8 && 1 <= count < 0x1_0000_0000 {
        let e = versions + le32(count) + le16(0) + rest;
        assert(e.subrange(0, e.len() as int) =~= e);
        lemma_lies_split(e, 0, versions + le32(count) + le16(0), rest);
        lemma_lies_split(e, 0, versions + le32(count), le16(0));
        lemma_lies_split(e, 0, versions, le32(count));
        lemma_read_le32(e, 8, count);
        lemma_read_le16(e, 12, 0);
        assert(name_at(e, 12) == Err::<(Seq<u8>, int), IndexError>(IndexError::EmptyName));
    }
}

} // verus!

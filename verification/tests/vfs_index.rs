use rose_launcher::extract::relative_output_path;
use rose_launcher::vfs_index::{read_vanilla_filenames, try_read_vanilla_filenames, IndexError};

fn name_field(name: &[u8]) -> Vec<u8> {
    let mut out = ((name.len() + 1) as u16).to_le_bytes().to_vec();
    out.extend_from_slice(name);
    out.push(0);
    out
}

fn file_entry(name: &[u8], deleted: u8) -> Vec<u8> {
    let mut out = name_field(name);
    out.extend_from_slice(&[0u8; 12]);
    out.extend_from_slice(&[deleted, 0, 0]);
    out.extend_from_slice(&[0u8; 8]);
    out
}

fn build_index(archives: &[(&[u8], Vec<(&[u8], u8)>)]) -> Vec<u8> {
    let mut table_len = 12;
    for (name, _) in archives {
        table_len += 2 + name.len() + 1 + 4;
    }
    let mut header = Vec::new();
    header.extend_from_slice(&1u32.to_le_bytes());
    header.extend_from_slice(&2u32.to_le_bytes());
    header.extend_from_slice(&(archives.len() as u32).to_le_bytes());
    let mut tables = Vec::new();
    for (name, files) in archives {
        header.extend_from_slice(&name_field(name));
        let offset = table_len + tables.len();
        header.extend_from_slice(&(offset as u32).to_le_bytes());
        tables.extend_from_slice(&(files.len() as u32).to_le_bytes());
        tables.extend_from_slice(&[0u8; 8]);
        for (file, deleted) in files {
            tables.extend_from_slice(&file_entry(file, *deleted));
        }
    }
    assert_eq!(header.len(), table_len);
    header.extend_from_slice(&tables);
    header
}

#[test]
fn lists_files_of_each_archive_in_order() {
    let data = build_index(&[
        (b"DATA.VFS", vec![(b"3DDATA\\A.ZMS", 0), (b"3DDATA\\B.ZMS", 0)]),
        (b"MAP.VFS", vec![(b"3DDATA\\MAPS\\C.HIM", 0)]),
    ]);
    assert_eq!(
        read_vanilla_filenames(&data).unwrap(),
        vec!["3DDATA\\A.ZMS", "3DDATA\\B.ZMS", "3DDATA\\MAPS\\C.HIM"]
    );
}

#[test]
fn skips_deleted_files() {
    let data = build_index(&[(b"DATA.VFS", vec![(b"GONE.TXT", 1), (b"KEPT.TXT", 0), (b"ALSO_GONE", 7)])]);
    assert_eq!(read_vanilla_filenames(&data).unwrap(), vec!["KEPT.TXT"]);
}

#[test]
fn skips_root_archive_in_any_case() {
    let data = build_index(&[
        (b"root.vfs", vec![(b"LOOSE.TXT", 0)]),
        (b"DATA.VFS", vec![(b"PACKED.TXT", 0)]),
        (b"ROOT.VFS", vec![(b"LOOSE2.TXT", 0)]),
    ]);
    assert_eq!(read_vanilla_filenames(&data).unwrap(), vec!["PACKED.TXT"]);
}

#[test]
fn decodes_euc_kr_names() {
    // 0xB0 0xA1 is HANGUL SYLLABLE GA in EUC-KR.
    let data = build_index(&[(b"DATA.VFS", vec![(b"\xB0\xA1.TXT", 0)])]);
    assert_eq!(read_vanilla_filenames(&data).unwrap(), vec!["\u{AC00}.TXT"]);
}

#[test]
fn empty_index_lists_nothing() {
    let data = build_index(&[]);
    assert_eq!(read_vanilla_filenames(&data).unwrap(), Vec::<String>::new());
}

#[test]
fn short_header_is_eof() {
    assert_eq!(read_vanilla_filenames(&[0u8; 11]), Err(IndexError::UnexpectedEof));
    assert_eq!(read_vanilla_filenames(&[]), Err(IndexError::UnexpectedEof));
}

#[test]
fn truncated_file_table_is_eof() {
    let data = build_index(&[(b"DATA.VFS", vec![(b"A.TXT", 0)])]);
    for cut in 12..data.len() {
        assert_eq!(read_vanilla_filenames(&data[..cut]), Err(IndexError::UnexpectedEof), "cut {cut}");
    }
}

#[test]
fn offset_past_end_is_eof() {
    let mut data = build_index(&[(b"DATA.VFS", vec![])]);
    let at = 12 + 2 + 9;
    data[at..at + 4].copy_from_slice(&1000u32.to_le_bytes());
    assert_eq!(read_vanilla_filenames(&data), Err(IndexError::UnexpectedEof));
}

#[test]
fn zero_length_name_is_rejected() {
    let mut data = build_index(&[(b"DATA.VFS", vec![(b"A.TXT", 0)])]);
    // The file name field follows the archive table and the file table's header.
    let at = 12 + 2 + 9 + 4 + 12;
    data[at..at + 2].copy_from_slice(&0u16.to_le_bytes());
    assert_eq!(try_read_vanilla_filenames(&data), None);
}

#[test]
fn try_read_gives_the_listing_or_the_failure() {
    let data = build_index(&[(b"DATA.VFS", vec![(b"A.TXT", 0)])]);
    assert_eq!(try_read_vanilla_filenames(&data), Some(Ok(vec!["A.TXT".to_string()])));
    assert_eq!(try_read_vanilla_filenames(&data[..20]), Some(Err(IndexError::UnexpectedEof)));
}

#[test]
fn failure_before_an_empty_name_is_eof() {
    // The file table is cut before its empty name field would be read.
    let mut data = build_index(&[(b"DATA.VFS", vec![(b"A.TXT", 0)])]);
    let at = 12 + 2 + 9 + 4 + 12;
    data[at..at + 2].copy_from_slice(&0u16.to_le_bytes());
    assert_eq!(try_read_vanilla_filenames(&data[..at + 1]), Some(Err(IndexError::UnexpectedEof)));
}

#[test]
fn root_archive_table_is_not_read() {
    // The root archive's table claims files that are not there; they are never read.
    let mut data = build_index(&[(b"ROOT.VFS", vec![])]);
    let at = data.len() - 12;
    data[at..at + 4].copy_from_slice(&50u32.to_le_bytes());
    assert_eq!(read_vanilla_filenames(&data).unwrap(), Vec::<String>::new());
}

#[test]
fn output_path_uses_forward_slashes_without_leading_ones() {
    assert_eq!(relative_output_path("3DDATA\\AVATAR\\A.ZMS"), "3DDATA/AVATAR/A.ZMS");
    assert_eq!(relative_output_path("\\\\/X\\Y"), "X/Y");
    assert_eq!(relative_output_path("/"), "");
    assert_eq!(relative_output_path("A/B"), "A/B");
    assert_eq!(relative_output_path(""), "");
}

#[test]
fn output_path_is_idempotent() {
    for s in ["\\A\\B", "//C", "D", "\\\\"] {
        let once = relative_output_path(s);
        assert_eq!(relative_output_path(&once), once);
    }
}

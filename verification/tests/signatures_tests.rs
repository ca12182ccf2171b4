use std::io::Write;

use filescanner::clamav::{cvd_size_acceptable, db_file_kind, epoch_seconds, ClamavDb, DbFileKind, HashType};
use filescanner::types::ScanError;

const EICAR_MD5: &str = "44d88612fea8a8f36de82e1278abb02f";
const EICAR_SHA256: &str = "275a021bbfb6489e54d471899f7db9d1663fc695ec2fe2a2c4538aabf651fd0f";

fn cvd(members: &[(&str, &[u8])]) -> Vec<u8> {
    let mut builder = tar::Builder::new(Vec::new());
    for (path, content) in members {
        let mut header = tar::Header::new_gnu();
        header.set_size(content.len() as u64);
        header.set_mode(0o644);
        header.set_cksum();
        builder.append_data(&mut header, path, *content).unwrap();
    }
    let tar_bytes = builder.into_inner().unwrap();
    let mut gz = flate2::write::GzEncoder::new(Vec::new(), flate2::Compression::default());
    gz.write_all(&tar_bytes).unwrap();
    let body = gz.finish().unwrap();
    let mut out = vec![b' '; 512];
    out[..7].copy_from_slice(b"ClamAV-");
    out.extend_from_slice(&body);
    out
}

#[test]
fn empty_database() {
    let db = ClamavDb::new("/var/lib/clamav");
    let s = db.status();
    assert!(!s.loaded);
    assert_eq!(s.md5_count, 0);
    assert_eq!(s.sha256_count, 0);
    assert_eq!(s.db_path, "/var/lib/clamav");
    assert_eq!(s.last_updated, None);
    assert!(db.check_md5(EICAR_MD5).is_none());
}

#[test]
fn md5_lines_are_read() {
    let mut db = ClamavDb::new("db");
    let content = format!(
        "# comment line\n\n{}:68:Eicar-Test-Signature\n  ABCDEF0123456789ABCDEF0123456789:10:Upper.Case:With:Colons  \nshort:1:Too.Short\nnocolon\n",
        EICAR_MD5
    );
    db.parse_hash_lines(content.as_bytes(), HashType::Md5);
    let hit = db.check_md5(EICAR_MD5).expect("known digest");
    assert_eq!(hit.malware_name, "Eicar-Test-Signature");
    assert_eq!(hit.database, "ClamAV/MD5");
    let upper = db.check_md5("abcdef0123456789abcdef0123456789").expect("digest is lower-cased");
    assert_eq!(upper.malware_name, "Upper.Case:With:Colons");
    assert!(db.check_md5("short").is_none());
    assert!(db.check_sha256(EICAR_MD5).is_none());
    let s = db.status();
    assert!(s.loaded);
    assert_eq!(s.md5_count, 2);
    assert_eq!(s.sha256_count, 0);
}

#[test]
fn sha256_lines_and_later_lines_win() {
    let mut db = ClamavDb::new("db");
    let content = format!("{EICAR_SHA256}:68:First\r\n{EICAR_SHA256}:68:Second\n{EICAR_MD5}:68:WrongLength\n");
    db.parse_hash_lines(content.as_bytes(), HashType::Sha256);
    let hit = db.check_sha256(EICAR_SHA256).unwrap();
    assert_eq!(hit.malware_name, "Second");
    assert_eq!(hit.database, "ClamAV/SHA256");
    assert_eq!(db.status().sha256_count, 1);
    assert_eq!(db.status().md5_count, 0);
}

#[test]
fn invalid_utf8_lines_are_skipped() {
    let mut db = ClamavDb::new("db");
    let mut content = b"\xFF\xFE:1:Bad\n".to_vec();
    content.extend_from_slice(format!("{EICAR_MD5}:68:Good").as_bytes());
    db.parse_hash_lines(&content, HashType::Md5);
    assert_eq!(db.status().md5_count, 1);
    assert_eq!(db.check_md5(EICAR_MD5).unwrap().malware_name, "Good");
}

#[test]
fn last_updated_is_reported() {
    let mut db = ClamavDb::new("db");
    db.set_last_updated(Some("2024-01-02 03:04 UTC".to_string()));
    assert_eq!(db.status().last_updated, Some("2024-01-02 03:04 UTC".to_string()));
}

#[test]
fn file_kinds_by_extension() {
    assert_eq!(db_file_kind("main.hdb"), DbFileKind::Md5);
    assert_eq!(db_file_kind("daily.hsb"), DbFileKind::Sha1OrSha256);
    assert_eq!(db_file_kind("extra.msb"), DbFileKind::Sha256);
    assert_eq!(db_file_kind("main.cvd"), DbFileKind::Archive);
    assert_eq!(db_file_kind("daily.cld"), DbFileKind::Archive);
    assert_eq!(db_file_kind("dir/sub/main.hdb"), DbFileKind::Md5);
    assert_eq!(db_file_kind("main.HDB"), DbFileKind::Ignored);
    assert_eq!(db_file_kind(".hdb"), DbFileKind::Ignored);
    assert_eq!(db_file_kind("README"), DbFileKind::Ignored);
    assert_eq!(db_file_kind("notes.txt"), DbFileKind::Ignored);
}

#[test]
fn archive_size_limit() {
    assert!(cvd_size_acceptable(0));
    assert!(cvd_size_acceptable(500 * 1024 * 1024));
    assert!(!cvd_size_acceptable(500 * 1024 * 1024 + 1));
}

#[test]
fn signature_archive_is_unpacked() {
    let md5_lines = format!("{EICAR_MD5}:68:Eicar.From.Archive\n");
    let sha_lines = format!("{EICAR_SHA256}:68:Eicar.Sha\n");
    let bytes = cvd(&[
        ("main.hdb", md5_lines.as_bytes()),
        ("main.info", b"ignored"),
        ("main.hsb", sha_lines.as_bytes()),
    ]);
    let mut db = ClamavDb::new("db");
    db.parse_cvd(&bytes).unwrap();
    assert_eq!(db.check_md5(EICAR_MD5).unwrap().malware_name, "Eicar.From.Archive");
    assert_eq!(db.check_sha256(EICAR_SHA256).unwrap().malware_name, "Eicar.Sha");
    assert_eq!(db.status().md5_count, 1);
    assert_eq!(db.status().sha256_count, 1);
}

#[test]
fn short_or_broken_archives_fail() {
    let mut db = ClamavDb::new("db");
    assert!(matches!(db.parse_cvd(b"too short"), Err(ScanError::Io(_))));
    let mut broken = vec![0u8; 512];
    broken.extend_from_slice(b"not gzip at all");
    assert!(matches!(db.parse_cvd(&broken), Err(ScanError::Io(_))));
    assert_eq!(db.status().md5_count, 0);
}

#[test]
fn directory_files_by_kind() {
    let mut db = ClamavDb::new("db");
    let md5_line = format!("{EICAR_MD5}:68:Eicar.Md5\n");
    let sha_line = format!("{EICAR_SHA256}:68:Eicar.Sha\n");
    assert!(db.apply_db_file(DbFileKind::Md5, md5_line.as_bytes()).is_ok());
    assert!(db.apply_db_file(DbFileKind::Sha256, sha_line.as_bytes()).is_ok());
    assert!(db.apply_db_file(DbFileKind::Ignored, b"anything").is_ok());
    assert_eq!(db.status().md5_count, 1);
    assert_eq!(db.status().sha256_count, 1);
    assert!(matches!(db.apply_db_file(DbFileKind::Archive, b"short"), Err(ScanError::Io(_))));
    let archive = cvd(&[("daily.hdb", b"00112233445566778899aabbccddeeff:1:From.Archive\n")]);
    assert!(db.apply_db_file(DbFileKind::Archive, &archive).is_ok());
    assert_eq!(db.status().md5_count, 2);
    assert_eq!(db.check_md5("00112233445566778899aabbccddeeff").unwrap().malware_name, "From.Archive");
}

#[test]
fn sha1_lines_of_hsb_files_are_read() {
    let mut db = ClamavDb::new("db");
    db.parse_hash_lines(b"da39a3ee5e6b4b0d3255bfef95601890afd80709:0:Sha1-Sig\n", HashType::Sha1OrSha256);
    assert_eq!(db.status().md5_count + db.status().sha256_count, 1);
    let sha = format!("{EICAR_SHA256}:68:Sha256-Sig\n");
    db.parse_hash_lines(sha.as_bytes(), HashType::Sha1OrSha256);
    assert_eq!(db.status().sha256_count, 2);
    // An .msb file holds SHA-256 digests only.
    let mut msb = ClamavDb::new("db");
    msb.parse_hash_lines(b"da39a3ee5e6b4b0d3255bfef95601890afd80709:0:Sha1-Sig\n", HashType::Sha256);
    assert_eq!(msb.status().sha256_count, 0);
    let mut dir = ClamavDb::new("db");
    assert!(dir.apply_db_file(DbFileKind::Sha1OrSha256, b"DA39A3EE5E6B4B0D3255BFEF95601890AFD80709:0:Upper\n").is_ok());
    assert_eq!(dir.status().sha256_count, 1);
    assert_eq!(dir.check_sha256("da39a3ee5e6b4b0d3255bfef95601890afd80709").unwrap().malware_name, "Upper");
}

#[test]
fn members_before_a_broken_stream_are_kept() {
    let md5_lines = format!("{EICAR_MD5}:68:Early.Member\n");
    let mut noise = Vec::new();
    let mut x: u32 = 12345;
    for _ in 0..200_000 {
        x = x.wrapping_mul(1103515245).wrapping_add(12345);
        noise.push((x >> 16) as u8);
    }
    let full = cvd(&[("main.hdb", md5_lines.as_bytes()), ("noise.bin", &noise)]);
    let cut = &full[..512 + (full.len() - 512) / 2];
    let mut db = ClamavDb::new("db");
    assert!(matches!(db.parse_cvd(cut), Err(ScanError::Io(_))));
    assert_eq!(db.check_md5(EICAR_MD5).unwrap().malware_name, "Early.Member");
}

#[test]
fn directory_dates_round_down_to_whole_seconds() {
    assert_eq!(epoch_seconds(false, 1_700_000_000, 500), Some(1_700_000_000));
    assert_eq!(epoch_seconds(true, 10, 0), Some(-10));
    assert_eq!(epoch_seconds(true, 10, 1), Some(-11));
    assert_eq!(epoch_seconds(false, u64::MAX, 0), None);
}

#[test]
fn a_second_file_keeps_earlier_digests() {
    let mut db = ClamavDb::new("db");
    db.parse_hash_lines(format!("{EICAR_MD5}:68:First.File\n").as_bytes(), HashType::Md5);
    db.parse_hash_lines(b"00112233445566778899aabbccddeeff:1:Second.File\n# nothing else\n", HashType::Md5);
    assert_eq!(db.check_md5(EICAR_MD5).unwrap().malware_name, "First.File");
    assert_eq!(db.check_md5("00112233445566778899aabbccddeeff").unwrap().malware_name, "Second.File");
    assert_eq!(db.status().md5_count, 2);
}

use filescanner::upload::{clean_file_name, upload_problem, MAX_FILE_NAME_CHARS};

#[test]
fn missing_or_empty_upload_is_refused() {
    assert_eq!(upload_problem(None), Some("Champ 'file' manquant"));
    assert_eq!(upload_problem(Some(&[])), Some("Fichier vide"));
    assert_eq!(upload_problem(Some(b"x")), None);
}

#[test]
fn file_name_loses_its_directories() {
    assert_eq!(clean_file_name("report.pdf"), "report.pdf");
    assert_eq!(clean_file_name("../../etc/passwd"), "passwd");
    assert_eq!(clean_file_name("C:\\Users\\bob\\evil.exe"), "evil.exe");
    assert_eq!(clean_file_name("mixed/dir\\name.txt"), "name.txt");
    assert_eq!(clean_file_name("dir/"), "");
    assert_eq!(clean_file_name(""), "");
}

#[test]
fn file_name_is_cut_at_255_characters() {
    assert_eq!(MAX_FILE_NAME_CHARS, 255);
    let long: String = std::iter::repeat('é').take(300).collect();
    let cleaned = clean_file_name(&format!("dir/{long}"));
    assert_eq!(cleaned.chars().count(), 255);
    assert!(cleaned.chars().all(|c| c == 'é'));
}

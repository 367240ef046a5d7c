use std::io::{Cursor, Read, Write};

use media_helper::archive::select_member;

fn names(v: &[&str]) -> Vec<String> {
    v.iter().map(|s| s.to_string()).collect()
}

#[test]
fn first_entry_with_matching_base_name_is_chosen() {
    assert_eq!(select_member(&names(&["a/b/ffmpeg", "x/ffmpeg.txt"]), "ffmpeg"), Ok(0));
    assert_eq!(select_member(&names(&["x/ffmpeg.txt", "a/b/ffmpeg", "c/ffmpeg"]), "ffmpeg"), Ok(1));
}

#[test]
fn base_name_not_full_path_is_compared() {
    assert_eq!(select_member(&names(&["ffmpeg-7/bin/ffmpeg.exe"]), "ffmpeg.exe"), Ok(0));
    assert_eq!(select_member(&names(&["bin/ffmpeg/readme"]), "ffmpeg"), Err("ffmpeg not found in archive".to_string()));
}

#[test]
fn absent_binary_is_named_in_error() {
    assert_eq!(
        select_member(&names(&["a/b/ffmpeg", "x/ffmpeg.txt"]), "ffprobe"),
        Err("ffprobe not found in archive".to_string())
    );
    assert_eq!(select_member(&Vec::new(), "ffmpeg"), Err("ffmpeg not found in archive".to_string()));
}

#[test]
fn selected_entry_reads_back_byte_identical() {
    let mut writer = zip::ZipWriter::new(Cursor::new(Vec::new()));
    let options = zip::write::SimpleFileOptions::default()
        .compression_method(zip::CompressionMethod::Stored);
    writer.start_file("a/b/ffmpeg", options).unwrap();
    writer.write_all(b"\x7fELF binary bytes").unwrap();
    writer.start_file("x/ffmpeg.txt", options).unwrap();
    writer.write_all(b"notes").unwrap();
    let bytes = writer.finish().unwrap().into_inner();

    let mut archive = zip::ZipArchive::new(Cursor::new(bytes)).unwrap();
    let mut entry_names = Vec::new();
    for i in 0..archive.len() {
        entry_names.push(archive.by_index(i).unwrap().name().to_string());
    }
    let index = select_member(&entry_names, "ffmpeg").unwrap();
    let mut out = Vec::new();
    archive.by_index(index).unwrap().read_to_end(&mut out).unwrap();
    assert_eq!(out, b"\x7fELF binary bytes".to_vec());
}

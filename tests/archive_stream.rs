use std::io::{Read, Write};

use flate2::read::GzDecoder;
use flate2::write::GzEncoder;
use flate2::Compression;
use stream_extract::entry_path::PathPart;
use stream_extract::extract::{check_entry, classify_failure, Cause, Phase, RunError};
use stream_extract::format::{select_format, FormatTag};
use stream_extract::progress::ProgressReader;

/// A progress-counting source over bytes in memory.
struct Counted<'a> {
    reader: ProgressReader<&'a [u8]>,
    lines: usize,
}

impl<'a> Read for Counted<'a> {
    fn read(&mut self, buf: &mut [u8]) -> std::io::Result<usize> {
        let outcome = self.reader.inner.read(buf);
        let (outcome, _status) = self.reader.account(outcome);
        self.lines += 1;
        outcome
    }
}

fn parts_of(p: &std::path::Path) -> Vec<PathPart> {
    p.components()
        .map(|c| match c {
            std::path::Component::Prefix(_) => PathPart::Prefix,
            std::path::Component::RootDir => PathPart::Root,
            std::path::Component::CurDir => PathPart::Current,
            std::path::Component::ParentDir => PathPart::Parent,
            std::path::Component::Normal(_) => PathPart::Normal,
        })
        .collect()
}

fn cause_of(e: &std::io::Error) -> Cause {
    match e.kind() {
        std::io::ErrorKind::InvalidData | std::io::ErrorKind::InvalidInput => Cause::InvalidData,
        std::io::ErrorKind::UnexpectedEof => Cause::UnexpectedEnd,
        _ => Cause::Other,
    }
}

fn sample_archive() -> Vec<u8> {
    let gz = GzEncoder::new(Vec::new(), Compression::default());
    let mut builder = tar::Builder::new(gz);

    let mut dir = tar::Header::new_gnu();
    dir.set_entry_type(tar::EntryType::Directory);
    dir.set_size(0);
    dir.set_mode(0o755);
    builder.append_data(&mut dir, "docs/", std::io::empty()).unwrap();

    let content = b"hello, streamed world\n";
    let mut file = tar::Header::new_gnu();
    file.set_entry_type(tar::EntryType::Regular);
    file.set_size(content.len() as u64);
    file.set_mode(0o644);
    builder.append_data(&mut file, "docs/readme.txt", &content[..]).unwrap();

    let mut link = tar::Header::new_gnu();
    link.set_entry_type(tar::EntryType::Symlink);
    link.set_size(0);
    link.set_mode(0o777);
    builder.append_link(&mut link, "docs/latest", "readme.txt").unwrap();

    let mut gz = builder.into_inner().unwrap();
    gz.flush().unwrap();
    gz.finish().unwrap()
}

/// What one pass over the stream yields: (path, kind, payload or link target).
fn walk(bytes: &[u8]) -> (Vec<(String, char, Vec<u8>)>, Option<RunError>, u64) {
    assert_eq!(select_format("https://host/sample.tar.gz").unwrap(), FormatTag::GzipTar);
    let mut counted = Counted { reader: ProgressReader::new(bytes, bytes.len() as u64), lines: 0 };
    let mut seen = Vec::new();
    let mut failure = None;
    {
        let mut archive = tar::Archive::new(GzDecoder::new(&mut counted));
        let entries = archive.entries().unwrap();
        for entry in entries {
            let mut entry = match entry {
                Ok(e) => e,
                Err(e) => {
                    failure = Some(classify_failure(Phase::ReadingHeader, cause_of(&e), String::new(), e.to_string()));
                    break;
                }
            };
            let path = entry.path().unwrap().into_owned();
            let text = path.to_string_lossy().into_owned();
            if let Err(e) = check_entry(text.clone(), &parts_of(&path)) {
                failure = Some(e);
                break;
            }
            let kind = entry.header().entry_type();
            let (tag, data) = if kind.is_dir() {
                ('d', Vec::new())
            } else if kind.is_symlink() {
                let target = entry.link_name().unwrap().unwrap().into_owned();
                ('l', target.to_string_lossy().into_owned().into_bytes())
            } else {
                let mut data = Vec::new();
                if let Err(e) = entry.read_to_end(&mut data) {
                    failure = Some(classify_failure(Phase::WritingEntry, cause_of(&e), text, e.to_string()));
                    break;
                }
                ('f', data)
            };
            seen.push((text, tag, data));
        }
    }
    assert!(counted.lines > 0);
    let read = counted.reader.bytes_read();
    (seen, failure, read)
}

#[test]
fn gzip_tar_round_trip() {
    let bytes = sample_archive();
    let (seen, failure, read) = walk(&bytes);
    assert!(failure.is_none());
    assert_eq!(
        seen,
        vec![
            ("docs/".to_string(), 'd', Vec::new()),
            ("docs/readme.txt".to_string(), 'f', b"hello, streamed world\n".to_vec()),
            ("docs/latest".to_string(), 'l', b"readme.txt".to_vec()),
        ]
    );
    assert!(read <= bytes.len() as u64);
}

#[test]
fn truncated_stream_fails_and_stops() {
    let bytes = sample_archive();
    let cut = &bytes[..bytes.len() / 2];
    let (seen, failure, read) = walk(cut);
    match failure {
        Some(RunError::Decompression { .. }) | Some(RunError::ArchiveFormat { .. }) => {}
        other => panic!("unexpected {:?}", other),
    }
    assert!(seen.len() < 3);
    assert!(read <= cut.len() as u64);
}

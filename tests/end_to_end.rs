use launcher::archive::{plan_install, InstallStep};
use launcher::launcher::{InstallAction, InstallEvent, Launcher, ARCHIVE_FILE_NAME, INSTALL_DIR_NAME};
use std::io::{Cursor, Write};
use std::collections::BTreeMap;
use zip::write::SimpleFileOptions;
use zip::ZipWriter;

fn two_entry_zip() -> Vec<u8> {
    let mut w = ZipWriter::new(Cursor::new(Vec::new()));
    let options = SimpleFileOptions::default();
    w.start_file("file1.txt", options).unwrap();
    w.write_all(b"A").unwrap();
    w.start_file("dir/file2.txt", options).unwrap();
    w.write_all(b"B").unwrap();
    w.finish().unwrap().into_inner()
}

/// A disk held in memory: a file's path, as components, to its bytes; a
/// directory maps to `None`.
type Disk = BTreeMap<Vec<String>, Option<Vec<u8>>>;

fn under(root: &[String], parts: &[String]) -> Vec<String> {
    root.iter().chain(parts.iter()).cloned().collect()
}

fn create_dirs(disk: &mut Disk, path: &[String]) {
    for k in 1..=path.len() {
        disk.entry(path[..k].to_vec()).or_insert(None);
    }
}

fn apply(disk: &mut Disk, root: &[String], step: &InstallStep) {
    match step {
        InstallStep::CreateDir(parts) => create_dirs(disk, &under(root, parts)),
        InstallStep::WriteFile(parts, data) => {
            let p = under(root, parts);
            create_dirs(disk, &p[..p.len() - 1]);
            disk.insert(p, Some(data.clone()));
        }
    }
}

#[test]
fn download_then_install_with_mocked_download() {
    let dest = vec!["D".to_string()];
    let archive = under(&dest, &[ARCHIVE_FILE_NAME.to_string()]);
    let extract_to = under(&dest, &[INSTALL_DIR_NAME.to_string()]);
    let mut disk: Disk = BTreeMap::new();
    create_dirs(&mut disk, &dest);
    let mut launcher = Launcher::new();
    let mut downloaded = Vec::new();
    let mut action = launcher.on_install_event(InstallEvent::Requested);
    while action != InstallAction::Nothing {
        let event = match action {
            InstallAction::Download => {
                downloaded = two_entry_zip();
                InstallEvent::Downloaded
            }
            InstallAction::WriteArchive => {
                disk.insert(archive.clone(), Some(downloaded.clone()));
                InstallEvent::ArchiveWritten
            }
            InstallAction::Extract => {
                let bytes = disk[&archive].clone().unwrap();
                let plan = plan_install(bytes).unwrap();
                for step in &plan {
                    apply(&mut disk, &extract_to, step);
                }
                InstallEvent::Extracted
            }
            InstallAction::RemoveArchive => {
                disk.remove(&archive).unwrap();
                InstallEvent::ArchiveRemoved
            }
            InstallAction::Nothing => unreachable!(),
        };
        action = launcher.on_install_event(event);
    }
    let file1 = under(&extract_to, &["file1.txt".to_string()]);
    let file2 = under(&extract_to, &["dir".to_string(), "file2.txt".to_string()]);
    assert_eq!(disk[&file1], Some(b"A".to_vec()));
    assert_eq!(disk[&file2], Some(b"B".to_vec()));
    assert!(!disk.contains_key(&archive));
}

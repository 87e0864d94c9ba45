use budget_store::location::DataLocation;
use budget_store::store::{load_reply, save_reply, StoreError};
use std::collections::{HashMap, HashSet};

/// An in-memory disk: directories and files keyed by their path segments.
#[derive(Default)]
struct MemDisk {
    dirs: HashSet<Vec<String>>,
    files: HashMap<Vec<String>, String>,
}

impl MemDisk {
    fn create_dir_all(&mut self, dir: &[String]) -> Result<(), String> {
        for n in 1..=dir.len() {
            if self.files.contains_key(&dir[..n].to_vec()) {
                return Err("Not a directory".to_string());
            }
        }
        for n in 1..=dir.len() {
            self.dirs.insert(dir[..n].to_vec());
        }
        Ok(())
    }

    fn write(&mut self, path: &[String], data: &str) -> Result<(), String> {
        let parent = path[..path.len() - 1].to_vec();
        if !self.dirs.contains(&parent) {
            return Err("No such file or directory".to_string());
        }
        if self.dirs.contains(&path.to_vec()) {
            return Err("Is a directory".to_string());
        }
        self.files.insert(path.to_vec(), data.to_string());
        Ok(())
    }
}

fn save(disk: &mut MemDisk, loc: &DataLocation, data: &str) -> Result<(), StoreError> {
    disk.create_dir_all(&loc.dir_segments()).ok();
    save_reply(disk.write(&loc.file_segments(), data))
}

fn load(disk: &MemDisk, loc: &DataLocation) -> Result<String, StoreError> {
    let found = disk.files.get(&loc.file_segments()).map(|t| Ok(t.clone()));
    load_reply(found)
}

fn text(r: Result<String, StoreError>) -> String {
    match r {
        Ok(s) => s,
        Err(e) => panic!("unexpected error: {}", e.message()),
    }
}

#[test]
fn resolve_uses_platform_dir() {
    let loc = DataLocation::resolve(Some("/home/u/.local/share".to_string()));
    assert_eq!(loc.base, "/home/u/.local/share");
    assert_eq!(
        loc.file_segments(),
        vec!["/home/u/.local/share".to_string(), "BudgetMaster".to_string(), "budget-data.json".to_string()]
    );
}

#[test]
fn resolve_falls_back_to_current_dir() {
    let loc = DataLocation::resolve(None);
    assert_eq!(loc.base, ".");
    assert_eq!(loc.dir_segments(), vec![".".to_string(), "BudgetMaster".to_string()]);
    assert_eq!(
        loc.file_segments(),
        vec![".".to_string(), "BudgetMaster".to_string(), "budget-data.json".to_string()]
    );
}

#[test]
fn resolve_is_stable() {
    let a = DataLocation::resolve(Some("/data".to_string())).file_segments();
    let b = DataLocation::resolve(Some("/data".to_string())).file_segments();
    assert_eq!(a, b);
    assert_eq!(DataLocation::resolve(None).file_segments(), DataLocation::resolve(None).file_segments());
}

#[test]
fn load_reply_without_file_is_null() {
    assert_eq!(text(load_reply(None)), "null");
}

#[test]
fn load_reply_passes_text_through() {
    assert_eq!(text(load_reply(Some(Ok("{\"balance\":100}".to_string())))), "{\"balance\":100}");
    assert_eq!(text(load_reply(Some(Ok(String::new())))), "");
    assert_eq!(text(load_reply(Some(Ok("null".to_string())))), "null");
}

#[test]
fn load_reply_read_failure_is_io_error() {
    match load_reply(Some(Err("permission denied".to_string()))) {
        Err(StoreError::IoError(m)) => assert_eq!(m, "permission denied"),
        Ok(_) => panic!("expected an error"),
    }
}

#[test]
fn save_reply_maps_outcome() {
    assert!(matches!(save_reply(Ok(())), Ok(())));
    match save_reply(Err("disk full".to_string())) {
        Err(e) => assert_eq!(e.message(), "disk full"),
        Ok(()) => panic!("expected an error"),
    }
}

#[test]
fn fresh_disk_loads_null() {
    let disk = MemDisk::default();
    let loc = DataLocation::resolve(Some("/home/u/.local/share".to_string()));
    assert_eq!(text(load(&disk, &loc)), "null");
}

#[test]
fn save_then_load_round_trips() {
    let mut disk = MemDisk::default();
    let loc = DataLocation::resolve(Some("/data".to_string()));
    assert!(save(&mut disk, &loc, "{\"balance\":100}").is_ok());
    assert_eq!(text(load(&disk, &loc)), "{\"balance\":100}");
    assert!(save(&mut disk, &loc, "null").is_ok());
    assert_eq!(text(load(&disk, &loc)), "null");
}

#[test]
fn empty_save_is_not_the_sentinel() {
    let mut disk = MemDisk::default();
    let loc = DataLocation::resolve(None);
    assert!(save(&mut disk, &loc, "").is_ok());
    assert_eq!(text(load(&disk, &loc)), "");
}

#[test]
fn second_save_replaces_first() {
    let mut disk = MemDisk::default();
    let loc = DataLocation::resolve(Some("/data".to_string()));
    assert!(save(&mut disk, &loc, "{\"balance\":100,\"items\":[1,2,3]}").is_ok());
    assert!(save(&mut disk, &loc, "{}").is_ok());
    assert_eq!(text(load(&disk, &loc)), "{}");
}

#[test]
fn save_creates_missing_directory() {
    let mut disk = MemDisk::default();
    let loc = DataLocation::resolve(Some("/data".to_string()));
    assert!(!disk.dirs.contains(&loc.dir_segments()));
    assert!(save(&mut disk, &loc, "[]").is_ok());
    assert!(disk.dirs.contains(&loc.dir_segments()));
    assert_eq!(text(load(&disk, &loc)), "[]");
}

#[test]
fn unwritable_location_fails_and_leaves_no_file() {
    let mut disk = MemDisk::default();
    // A plain file where the base directory should be: nothing can be created below it.
    disk.files.insert(vec!["/data".to_string()], "not a directory".to_string());
    let loc = DataLocation::resolve(Some("/data".to_string()));
    match save(&mut disk, &loc, "{\"balance\":100}") {
        Err(StoreError::IoError(m)) => assert!(!m.is_empty()),
        Ok(()) => panic!("expected an error"),
    }
    assert_eq!(text(load(&disk, &loc)), "null");
}

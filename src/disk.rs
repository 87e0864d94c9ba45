use vstd::prelude::*;
use crate::location::{dir_of, file_of};
use crate::store::{load_answer, missing_sentinel};

verus! {

/// A model of the disk that the store works on, as seen through paths made of
/// segments: the directories that exist and the files with their text. It
/// grants every request that a file system would grant.
pub struct Disk {
    pub dirs: Set<Seq<Seq<char>>>,
    pub files: Map<Seq<Seq<char>>, Seq<char>>,
}

/// The directories that creating `dir` with all its parents brings into being.
pub open spec fn prefixes_of(dir: Seq<Seq<char>>) -> Set<Seq<Seq<char>>> {
    Set::new(|p: Seq<Seq<char>>| 0 < p.len() <= dir.len() && p == dir.subrange(0, p.len() as int))
}

/// Creates `dir` and every missing parent; `None` when a file stands where one
/// of them should go.
pub open spec fn create_dir_all(disk: Disk, dir: Seq<Seq<char>>) -> Option<Disk> {
    if exists|p: Seq<Seq<char>>| #[trigger] prefixes_of(dir).contains(p) && disk.files.contains_key(p) {
        None
    } else {
        Some(Disk { dirs: disk.dirs.union(prefixes_of(dir)), files: disk.files })
    }
}

/// Whether the directory that holds `path` exists.
pub open spec fn parent_exists(disk: Disk, path: Seq<Seq<char>>) -> bool {
    path.len() == 1 || disk.dirs.contains(path.drop_last())
}

/// Writes `data` as the whole text of the file at `path`, replacing what was
/// there; `None` when its directory is missing or a directory stands there.
pub open spec fn write_file(disk: Disk, path: Seq<Seq<char>>, data: Seq<char>) -> Option<Disk> {
    if path.len() > 0 && parent_exists(disk, path) && !disk.dirs.contains(path) {
        Some(Disk { dirs: disk.dirs, files: disk.files.insert(path, data) })
    } else {
        None
    }
}

/// What a load finds at `path`: the file's text, or `None` when there is no
/// file.
pub open spec fn found_at(disk: Disk, path: Seq<Seq<char>>) -> Option<Result<Seq<char>, Seq<char>>> {
    if disk.files.contains_key(path) {
        Some(Ok(disk.files[path]))
    } else {
        None
    }
}

/// A save of `data` under `base`: create the application's directory, best
/// effort, then write the data file. `None` when the write fails.
pub open spec fn save_on(disk: Disk, base: Seq<char>, data: Seq<char>) -> Option<Disk> {
    let prepared = match create_dir_all(disk, dir_of(base)) {
        Some(d) => d,
        None => disk,
    };
    write_file(prepared, file_of(base), data)
}

/// A load under `base`: what the store answers given what is on the disk.
pub open spec fn load_on(disk: Disk, base: Seq<char>) -> Result<Seq<char>, Seq<char>> {
    load_answer(found_at(disk, file_of(base)))
}

/// Whether nothing on the disk stands in the way of a save under `base`: no
/// file where a directory of the path should be, no directory where the data
/// file should be.
pub open spec fn unobstructed(disk: Disk, base: Seq<char>) -> bool {
    &&& forall|p: Seq<Seq<char>>| #[trigger] prefixes_of(dir_of(base)).contains(p) ==> !disk.files.contains_key(p)
    &&& !disk.dirs.contains(file_of(base))
}

proof fn lemma_save_succeeds(disk: Disk, base: Seq<char>, data: Seq<char>)
    requires
        unobstructed(disk, base),
    ensures
        save_on(disk, base, data) is Some,
        save_on(disk, base, data).unwrap().dirs.contains(dir_of(base)),
        save_on(disk, base, data).unwrap().files == disk.files.insert(file_of(base), data),
        unobstructed(save_on(disk, base, data).unwrap(), base),
{
    let dir = dir_of(base);
    let file = file_of(base);
    assert(prefixes_of(dir).contains(dir)) by {
        assert(dir.subrange(0, dir.len() as int) =~= dir);
    }
    assert(file.drop_last() =~= dir);
    assert(!prefixes_of(dir).contains(file));
    let prepared = create_dir_all(disk, dir).unwrap();
    assert(prepared.dirs.contains(dir));
    assert(!prepared.dirs.contains(file));
}

/// Saving `data` and then loading gives back `data` exactly, whatever the disk
/// held before, as long as nothing stands in the way of the save.
pub proof fn lemma_round_trip(disk: Disk, base: Seq<char>, data: Seq<char>)
    requires
        unobstructed(disk, base),
    ensures
        save_on(disk, base, data) is Some,
        load_on(save_on(disk, base, data).unwrap(), base) == Ok::<Seq<char>, Seq<char>>(data),
{
    lemma_save_succeeds(disk, base, data);
}

/// With no data file on the disk, a load answers the text `null`.
pub proof fn lemma_missing_file(disk: Disk, base: Seq<char>)
    requires
        !disk.files.contains_key(file_of(base)),
    ensures
        load_on(disk, base) == Ok::<Seq<char>, Seq<char>>(missing_sentinel()),
{
}

/// A second save replaces the first: the load gives the second text.
pub proof fn lemma_overwrite(disk: Disk, base: Seq<char>, first: Seq<char>, second: Seq<char>)
    requires
        unobstructed(disk, base),
    ensures
        save_on(disk, base, first) is Some,
        save_on(save_on(disk, base, first).unwrap(), base, second) is Some,
        load_on(save_on(save_on(disk, base, first).unwrap(), base, second).unwrap(), base)
            == Ok::<Seq<char>, Seq<char>>(second),
{
    lemma_save_succeeds(disk, base, first);
    lemma_save_succeeds(save_on(disk, base, first).unwrap(), base, second);
}

/// A save succeeds when the application's directory is missing, and creates it.
pub proof fn lemma_directory_created(disk: Disk, base: Seq<char>, data: Seq<char>)
    requires
        !disk.dirs.contains(dir_of(base)),
        unobstructed(disk, base),
    ensures
        save_on(disk, base, data) is Some,
        save_on(disk, base, data).unwrap().dirs.contains(dir_of(base)),
        save_on(disk, base, data).unwrap().files.contains_key(file_of(base)),
{
    lemma_save_succeeds(disk, base, data);
}

} // verus!

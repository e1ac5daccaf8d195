use crate::runner::clock::HostTime;
use crate::strings::names_of;
use std::collections::hash_map::DefaultHasher;
use std::hash::{Hash, Hasher};
use vstd::prelude::*;
use vstd::std_specs::hash::DefaultHasherAdditionalSpecFns;
use vstd::string::StringExecFns;

verus! {

/// The state of a hasher after a string was fed to it by the `Hash` impl of
/// `str`: a function of the state before and of the string.
pub uninterp spec fn hasher_after_str(state: Seq<Seq<u8>>, s: Seq<char>) -> Seq<Seq<u8>>;

/// `<str as Hash>::hash` into a `DefaultHasher`: the state afterwards is the
/// one that the name above stands for.
#[verifier::external_body]
fn hash_str(s: &str, state: &mut DefaultHasher)
    ensures
        final(state)@ == hasher_after_str(old(state)@, s@),
{
    s.hash(state)
}

/// The inode of the directory itself.
pub const DIR_INODE: u64 = 1;

/// What is added to the hash of a file's name to give its inode.
pub const FILE_INODE_OFFSET: u64 = 100;

/// The inode under which a file of the given name appears, in listings and
/// in metadata alike: the hash of the name, moved by a fixed offset.
pub open spec fn inode_of(name: Seq<char>) -> u64 {
    (((DefaultHasher::spec_finish(hasher_after_str(Seq::empty(), name)) as int)
        + FILE_INODE_OFFSET as int) % 0x1_0000_0000_0000_0000int) as u64
}

/// The inode under which a file of the given name appears.
pub fn path_to_inode(path: &str) -> (inode: u64)
    ensures
        inode == inode_of(path@),
{
    let mut hasher = DefaultHasher::new();
    hash_str(path, &mut hasher);
    hasher.finish().wrapping_add(FILE_INODE_OFFSET)
}

/// The names of `names` that are not in `taken`, each once, in the order in
/// which they first occur.
pub open spec fn fresh_names(names: Seq<Seq<char>>, taken: Seq<Seq<char>>) -> Seq<Seq<char>>
    decreases names.len(),
{
    if names.len() == 0 {
        Seq::empty()
    } else {
        let front = fresh_names(names.drop_last(), taken);
        if taken.contains(names.last()) || front.contains(names.last()) {
            front
        } else {
            front.push(names.last())
        }
    }
}

/// What `fresh_names` keeps: every kept name is one of `names` and none of
/// `taken`, every name of `names` outside `taken` is kept, and none is kept
/// twice.
pub proof fn lemma_fresh_names(names: Seq<Seq<char>>, taken: Seq<Seq<char>>)
    ensures
        fresh_names(names, taken).no_duplicates(),
        fresh_names(names, taken).len() <= names.len(),
        forall|name: Seq<char>| #[trigger]
            fresh_names(names, taken).contains(name) <==> names.contains(name) && !taken.contains(
                name,
            ),
    decreases names.len(),
{
    if names.len() > 0 {
        let front_names = names.drop_last();
        lemma_fresh_names(front_names, taken);
        let front = fresh_names(front_names, taken);
        let all = fresh_names(names, taken);
        assert forall|name: Seq<char>| #[trigger]
            all.contains(name) <==> names.contains(name) && !taken.contains(name) by {
            if all.contains(name) {
                let i = choose|i: int| 0 <= i < all.len() && all[i] == name;
                if i < front.len() {
                    assert(front.contains(name));
                    let j = choose|j: int| 0 <= j < front_names.len() && front_names[j] == name;
                }
            }
            if names.contains(name) && !taken.contains(name) {
                let j = choose|j: int| 0 <= j < names.len() && names[j] == name;
                if j < front_names.len() {
                    assert(front_names[j] == name);
                    assert(front.contains(name));
                    let i = choose|i: int| 0 <= i < front.len() && front[i] == name;
                    assert(all[i] == name);
                } else {
                    if front.contains(name) {
                        let i = choose|i: int| 0 <= i < front.len() && front[i] == name;
                    } else {
                        assert(all[all.len() - 1] == name);
                    }
                }
            }
        }
    }
}

/// How a file of the directory may be used.
#[derive(Debug, Clone, Copy, PartialEq, Eq, Structural)]
pub enum FileAccess {
    /// The guest may read the file and nothing else.
    ReadOnly,
    /// The guest may write the file and nothing else.
    WriteOnly,
}

/// The operations on a directory that change it or follow links.
#[derive(Debug, Clone, Copy, PartialEq, Eq, Structural)]
pub enum DirOperation {
    CreateDir,
    Symlink,
    RemoveDir,
    UnlinkFile,
    ReadLink,
    Rename,
    HardLink,
    SetTimes,
}

/// Why the directory refused a request.
#[derive(Debug, Clone, Copy, PartialEq, Eq, Structural)]
pub enum DirError {
    /// A directory was asked for: there is none below this one.
    NotDir,
    /// Permission denied: the file can only be read.
    FileIsReadOnly,
    /// Permission denied: the file can only be written.
    FileIsWriteOnly,
    /// No file of that name is exposed.
    NotFound,
    /// The directory does not offer the operation.
    NotSupported(DirOperation),
}

/// The flags of a request to open a file that the directory looks at.
#[derive(Debug, Clone, Copy, PartialEq, Eq, Structural)]
pub struct OpenFlags {
    pub create: bool,
    pub directory: bool,
    pub exclusive: bool,
    pub truncate: bool,
}

/// What a directory entry is.
#[derive(Debug, Clone, Copy, PartialEq, Eq, Structural)]
pub enum FileType {
    Directory,
    RegularFile,
}

/// What the host reports of one of its files.
#[derive(Debug, Clone, Copy, PartialEq, Eq)]
pub struct HostMetadata {
    /// The size of the file, in bytes.
    pub size: u64,
    /// When the file was last read, where the host knows it.
    pub accessed: Option<HostTime>,
    /// When the file was last changed, where the host knows it.
    pub modified: Option<HostTime>,
    /// When the file was made, where the host knows it.
    pub created: Option<HostTime>,
}

/// The metadata of a directory entry as the guest sees it.
#[derive(Debug, Clone, Copy, PartialEq, Eq)]
pub struct Filestat {
    pub device_id: u64,
    pub inode: u64,
    pub filetype: FileType,
    pub nlink: u64,
    pub size: u64,
    pub atim: Option<HostTime>,
    pub mtim: Option<HostTime>,
    pub ctim: Option<HostTime>,
}

/// The metadata of the directory itself: a directory of size 0 with the
/// constant inode and no timestamps.
pub open spec fn dir_filestat() -> Filestat {
    Filestat {
        device_id: 0,
        inode: DIR_INODE,
        filetype: FileType::Directory,
        nlink: 1,
        size: 0,
        atim: None,
        mtim: None,
        ctim: None,
    }
}

/// The metadata of an exposed file: a regular file with the inode of its
/// name and the size and timestamps that the host reports.
pub open spec fn file_filestat(name: Seq<char>, metadata: HostMetadata) -> Filestat {
    Filestat {
        device_id: 0,
        inode: inode_of(name),
        filetype: FileType::RegularFile,
        nlink: 1,
        size: metadata.size,
        atim: metadata.accessed,
        mtim: metadata.modified,
        ctim: metadata.created,
    }
}

/// One entry of a listing of the directory.
#[derive(Debug, Clone, PartialEq, Eq)]
pub struct ReaddirEntity {
    /// The cursor from which a listing goes on after this entry.
    pub next: u64,
    pub inode: u64,
    pub name: String,
    pub filetype: FileType,
}

/// An entry of a listing as plain values.
pub struct EntryView {
    pub next: nat,
    pub inode: u64,
    pub name: Seq<char>,
    pub filetype: FileType,
}

impl View for ReaddirEntity {
    type V = EntryView;

    open spec fn view(&self) -> EntryView {
        EntryView {
            next: self.next as nat,
            inode: self.inode,
            name: self.name@,
            filetype: self.filetype,
        }
    }
}

/// The entries that a list of entries holds, as plain values.
pub open spec fn entries_of(entries: Seq<ReaddirEntity>) -> Seq<EntryView> {
    entries.map_values(|e: ReaddirEntity| e@)
}

/// The names that a directory exposes, as plain values.
pub struct DirView {
    /// The names of the files that can only be read, in the order given.
    pub read_only: Seq<Seq<char>>,
    /// The names of the files that can only be written, in the order given.
    pub write_only: Seq<Seq<char>>,
}

impl DirView {
    /// No name is exposed twice, neither within one of the two lists nor
    /// across them.
    pub open spec fn distinct(self) -> bool {
        &&& self.read_only.no_duplicates()
        &&& self.write_only.no_duplicates()
        &&& forall|i: int, j: int|
            0 <= i < self.read_only.len() && 0 <= j < self.write_only.len()
                ==> self.read_only[i] != self.write_only[j]
    }

    /// Whether the directory exposes a file of this name.
    pub open spec fn exposes(self, name: Seq<char>) -> bool {
        self.read_only.contains(name) || self.write_only.contains(name)
    }

    /// How the file of this name may be used, if there is one. A name that
    /// can only be read is found first.
    pub open spec fn access(self, name: Seq<char>) -> Option<FileAccess> {
        if self.read_only.contains(name) {
            Some(FileAccess::ReadOnly)
        } else if self.write_only.contains(name) {
            Some(FileAccess::WriteOnly)
        } else {
            None
        }
    }

    /// What becomes of a request to open `path`.
    pub open spec fn open(self, path: Seq<char>, oflags: OpenFlags, read: bool, write: bool) -> Result<
        FileAccess,
        DirError,
    > {
        if oflags.directory {
            Err(DirError::NotDir)
        } else {
            match self.access(path) {
                Some(FileAccess::ReadOnly) => if write || oflags.create || oflags.truncate
                    || oflags.exclusive {
                    Err(DirError::FileIsReadOnly)
                } else {
                    Ok(FileAccess::ReadOnly)
                },
                Some(FileAccess::WriteOnly) => if read {
                    Err(DirError::FileIsWriteOnly)
                } else {
                    Ok(FileAccess::WriteOnly)
                },
                None => Err(DirError::NotFound),
            }
        }
    }
}

impl DirView {
    /// The number of entries in a listing: the directory, its parent and
    /// every exposed file.
    pub open spec fn entry_count(self) -> nat {
        2 + self.read_only.len() + self.write_only.len()
    }

    /// The entry at position `i` of the listing: `.`, `..`, then the files
    /// for reading, then the files for writing, each list in its own order.
    /// The cursor of every entry is the number of entries up to and with it.
    pub open spec fn entry(self, i: int) -> EntryView {
        if i == 0 {
            EntryView { next: 1, inode: DIR_INODE, name: "."@, filetype: FileType::Directory }
        } else if i == 1 {
            EntryView { next: 2, inode: DIR_INODE, name: ".."@, filetype: FileType::Directory }
        } else {
            let name = if i < 2 + self.read_only.len() {
                self.read_only[i - 2]
            } else {
                self.write_only[i - 2 - self.read_only.len()]
            };
            EntryView {
                next: (i + 1) as nat,
                inode: inode_of(name),
                name,
                filetype: FileType::RegularFile,
            }
        }
    }

    /// The whole listing, in its fixed order.
    pub open spec fn listing(self) -> Seq<EntryView> {
        Seq::new(self.entry_count(), |i: int| self.entry(i))
    }

    /// What a listing yields when it is resumed at `cursor`: the whole
    /// listing less its first `cursor` entries.
    pub open spec fn listing_from(self, cursor: nat) -> Seq<EntryView> {
        if cursor >= self.entry_count() {
            Seq::empty()
        } else {
            self.listing().skip(cursor as int)
        }
    }

    /// The metadata found under `path`: that of the directory for `.` and
    /// `..`, that of the file for an exposed name, and nothing for any other.
    pub open spec fn stat(self, path: Seq<char>, metadata: HostMetadata) -> Result<
        Filestat,
        DirError,
    > {
        if path == "."@ || path == ".."@ {
            Ok(dir_filestat())
        } else if self.exposes(path) {
            Ok(file_filestat(path, metadata))
        } else {
            Err(DirError::NotFound)
        }
    }
}

/// A guest is confined to what the directory exposes. A request to open is
/// granted only for an exposed name, for a file that can only be read never
/// with a wish to write, create, truncate or make anew, for a file that can
/// only be written never with a wish to read. A listing names the directory,
/// its parent and exposed files, and nothing else; metadata is found for
/// these alone.
pub proof fn lemma_confinement(
    dir: DirView,
    path: Seq<char>,
    oflags: OpenFlags,
    read: bool,
    write: bool,
    metadata: HostMetadata,
)
    requires
        dir.distinct(),
    ensures
        dir.open(path, oflags, read, write) is Ok ==> dir.exposes(path) && !oflags.directory,
        !dir.exposes(path) ==> dir.open(path, oflags, read, write) is Err,
        dir.read_only.contains(path) && (write || oflags.create || oflags.truncate
            || oflags.exclusive) ==> dir.open(path, oflags, read, write) is Err,
        dir.write_only.contains(path) && read ==> dir.open(path, oflags, read, write) is Err,
        dir.open(path, oflags, read, write) == Ok::<FileAccess, DirError>(FileAccess::ReadOnly)
            ==> dir.read_only.contains(path) && !dir.write_only.contains(path),
        dir.open(path, oflags, read, write) == Ok::<FileAccess, DirError>(FileAccess::WriteOnly)
            ==> dir.write_only.contains(path) && !dir.read_only.contains(path),
        forall|i: int|
            0 <= i < dir.listing().len() ==> {
                let name = (#[trigger] dir.listing()[i]).name;
                name == "."@ || name == ".."@ || dir.exposes(name)
            },
        forall|cursor: nat, i: int|
            0 <= i < dir.listing_from(cursor).len() ==> {
                let name = (#[trigger] dir.listing_from(cursor)[i]).name;
                name == "."@ || name == ".."@ || dir.exposes(name)
            },
        dir.stat(path, metadata) is Ok ==> path == "."@ || path == ".."@ || dir.exposes(path),
{
}

/// A listing never changes between two requests, and resuming it at the
/// cursor of one of its entries yields exactly the entries after that one.
/// The inode that a listing announces for a file is the one that its
/// metadata carries.
pub proof fn lemma_listing_resumes(dir: DirView, i: int, metadata: HostMetadata)
    requires
        0 <= i < dir.entry_count(),
    ensures
        dir.listing()[i].next == i + 1,
        dir.listing_from(dir.listing()[i].next) =~= dir.listing().skip(i + 1),
        dir.listing_from(0) =~= dir.listing(),
        i >= 2 ==> dir.exposes(dir.listing()[i].name) && (dir.listing()[i].name != "."@
            && dir.listing()[i].name != ".."@ ==> dir.stat(dir.listing()[i].name, metadata)
            == Ok::<Filestat, DirError>(file_filestat(dir.listing()[i].name, metadata))
            && file_filestat(dir.listing()[i].name, metadata).inode == dir.listing()[i].inode),
{
}

/// A virtual directory that exposes a fixed set of host files by name, each
/// either for reading only or for writing only, and nothing else.
pub struct JudgeDir {
    read_only_files: Vec<String>,
    write_only_files: Vec<String>,
}

impl View for JudgeDir {
    type V = DirView;

    closed spec fn view(&self) -> DirView {
        DirView {
            read_only: names_of(self.read_only_files@),
            write_only: names_of(self.write_only_files@),
        }
    }
}

/// The position of the first string of `names` that equals `key`.
fn position(names: &Vec<String>, key: &String) -> (found: Option<usize>)
    ensures
        match found {
            Some(i) => i < names.len() && names[i as int]@ == key@ && forall|j: int|
                0 <= j < i ==> names[j]@ != key@,
            None => forall|j: int| 0 <= j < names.len() ==> names[j]@ != key@,
        },
        found is Some <==> names_of(names@).contains(key@),
{
    let mut i: usize = 0;
    while i < names.len()
        invariant
            i <= names.len(),
            forall|j: int| 0 <= j < i ==> names[j]@ != key@,
        decreases names.len() - i,
    {
        if names[i] == *key {
            assert(names_of(names@)[i as int] == key@);
            return Some(i);
        }
        i += 1;
    }
    None
}

/// The strings of `paths` that are not in `taken`, each once, in the order
/// in which they first occur.
fn keep_fresh(paths: &[String], taken: &Vec<String>) -> (kept: Vec<String>)
    ensures
        names_of(kept@) == fresh_names(names_of(paths@), names_of(taken@)),
{
    let mut kept: Vec<String> = Vec::new();
    let mut i: usize = 0;
    while i < paths.len()
        invariant
            i <= paths.len(),
            names_of(kept@) == fresh_names(names_of(paths@).take(i as int), names_of(taken@)),
        decreases paths.len() - i,
    {
        let ghost prefix = names_of(paths@).take(i as int + 1);
        assert(prefix.drop_last() =~= names_of(paths@).take(i as int));
        let in_taken = position(taken, &paths[i]);
        let in_kept = position(&kept, &paths[i]);
        if in_taken.is_none() && in_kept.is_none() {
            kept.push(paths[i].clone());
        }
        i += 1;
    }
    assert(names_of(paths@).take(paths.len() as int) =~= names_of(paths@));
    kept
}

impl JudgeDir {
    /// No name is exposed twice, and the machine can count the entries of
    /// a listing.
    pub closed spec fn wf(&self) -> bool {
        &&& self@.distinct()
        &&& self.read_only_files.len() + self.write_only_files.len() + 2 <= usize::MAX
    }

    /// In a well-formed directory no name is exposed twice, neither within
    /// one of the two lists nor across them.
    pub proof fn lemma_wf_is_distinct(&self)
        requires
            self.wf(),
        ensures
            self@.distinct(),
    {
    }

    /// A directory that exposes the given names: those of `read_only_paths`
    /// for reading, those of `write_only_paths` for writing. A name that is
    /// given twice is exposed once, where it came first; a name that is
    /// given in both lists is exposed for reading.
    pub fn new(read_only_paths: &[String], write_only_paths: &[String]) -> (dir: JudgeDir)
        requires
            read_only_paths.len() + write_only_paths.len() + 2 <= usize::MAX,
        ensures
            dir.wf(),
            dir@.distinct(),
            dir@.read_only == fresh_names(names_of(read_only_paths@), Seq::empty()),
            dir@.write_only == fresh_names(names_of(write_only_paths@), dir@.read_only),
    {
        let none: Vec<String> = Vec::new();
        assert(names_of(none@) =~= Seq::<Seq<char>>::empty());
        let read_only_files = keep_fresh(read_only_paths, &none);
        let write_only_files = keep_fresh(write_only_paths, &read_only_files);
        proof {
            lemma_fresh_names(names_of(read_only_paths@), Seq::empty());
            lemma_fresh_names(names_of(write_only_paths@), names_of(read_only_files@));
            let ro = names_of(read_only_files@);
            let wo = names_of(write_only_files@);
            assert forall|i: int, j: int| 0 <= i < ro.len() && 0 <= j < wo.len() implies ro[i]
                != wo[j] by {
                assert(wo.contains(wo[j]));
            }
        }
        JudgeDir { read_only_files, write_only_files }
    }

    /// How the file of this name may be used, if the directory exposes one.
    pub fn lookup(&self, path: &str) -> (access: Option<FileAccess>)
        ensures
            access == self@.access(path@),
    {
        let key = path.to_owned();
        if position(&self.read_only_files, &key).is_some() {
            Some(FileAccess::ReadOnly)
        } else if position(&self.write_only_files, &key).is_some() {
            Some(FileAccess::WriteOnly)
        } else {
            None
        }
    }

    /// Decides a request to open `path`. Nothing below the directory is a
    /// directory; a file for reading is opened for reading alone, a file for
    /// writing for writing alone; any other name is not found. Where the
    /// request is granted, the caller hands out a fresh handle on the file.
    pub fn open_file(
        &self,
        symlink_follow: bool,
        path: &str,
        oflags: OpenFlags,
        read: bool,
        write: bool,
    ) -> (r: Result<FileAccess, DirError>)
        ensures
            r == self@.open(path@, oflags, read, write),
    {
        if oflags.directory {
            return Err(DirError::NotDir);
        }
        match self.lookup(path) {
            Some(FileAccess::ReadOnly) => {
                if write || oflags.create || oflags.truncate || oflags.exclusive {
                    Err(DirError::FileIsReadOnly)
                } else {
                    Ok(FileAccess::ReadOnly)
                }
            },
            Some(FileAccess::WriteOnly) => {
                if read {
                    Err(DirError::FileIsWriteOnly)
                } else {
                    Ok(FileAccess::WriteOnly)
                }
            },
            None => Err(DirError::NotFound),
        }
    }
}

impl DirOperation {
    /// The name of the operation.
    pub open spec fn spec_name(self) -> Seq<char> {
        match self {
            DirOperation::CreateDir => "create_dir"@,
            DirOperation::Symlink => "symlink"@,
            DirOperation::RemoveDir => "remove_dir"@,
            DirOperation::UnlinkFile => "unlink_file"@,
            DirOperation::ReadLink => "read_link"@,
            DirOperation::Rename => "rename"@,
            DirOperation::HardLink => "hard_link"@,
            DirOperation::SetTimes => "set_times"@,
        }
    }

    /// The name of the operation.
    pub fn name(&self) -> (s: &'static str)
        ensures
            s@ == self.spec_name(),
    {
        match self {
            DirOperation::CreateDir => "create_dir",
            DirOperation::Symlink => "symlink",
            DirOperation::RemoveDir => "remove_dir",
            DirOperation::UnlinkFile => "unlink_file",
            DirOperation::ReadLink => "read_link",
            DirOperation::Rename => "rename",
            DirOperation::HardLink => "hard_link",
            DirOperation::SetTimes => "set_times",
        }
    }
}

impl DirError {
    /// The words that go with the error when it concerns `path`, if any.
    pub open spec fn spec_context(self, path: Seq<char>) -> Option<Seq<char>> {
        match self {
            DirError::NotDir => None,
            DirError::NotFound => None,
            DirError::FileIsReadOnly => Some("file '"@ + path + "' is read-only"@),
            DirError::FileIsWriteOnly => Some("file '"@ + path + "' is write-only"@),
            DirError::NotSupported(operation) => Some(operation.spec_name() + " is not supported"@),
        }
    }

    /// The words that go with the error when it concerns `path`, if any.
    pub fn context(&self, path: &str) -> (words: Option<String>)
        ensures
            match self.spec_context(path@) {
                Some(text) => words matches Some(w) && w@ == text,
                None => words is None,
            },
    {
        match self {
            DirError::NotDir => None,
            DirError::NotFound => None,
            DirError::FileIsReadOnly => {
                let mut words = String::from_str("file '");
                words.append(path);
                words.append("' is read-only");
                Some(words)
            },
            DirError::FileIsWriteOnly => {
                let mut words = String::from_str("file '");
                words.append(path);
                words.append("' is write-only");
                Some(words)
            },
            DirError::NotSupported(operation) => {
                let mut words = String::from_str(operation.name());
                words.append(" is not supported");
                Some(words)
            },
        }
    }
}

impl JudgeDir {
    /// The entry at position `i` of the listing.
    fn entry_at(&self, i: usize) -> (entry: ReaddirEntity)
        requires
            self.wf(),
            i < self@.entry_count(),
        ensures
            entry@ == self@.entry(i as int),
    {
        let next = (i + 1) as u64;
        if i == 0 {
            ReaddirEntity {
                next,
                inode: DIR_INODE,
                name: ".".to_owned(),
                filetype: FileType::Directory,
            }
        } else if i == 1 {
            ReaddirEntity {
                next,
                inode: DIR_INODE,
                name: "..".to_owned(),
                filetype: FileType::Directory,
            }
        } else {
            let name = if i - 2 < self.read_only_files.len() {
                self.read_only_files[i - 2].clone()
            } else {
                let k = i - 2 - self.read_only_files.len();
                self.write_only_files[k].clone()
            };
            ReaddirEntity {
                next,
                inode: path_to_inode(name.as_str()),
                name,
                filetype: FileType::RegularFile,
            }
        }
    }

    /// Lists the directory from `cursor` on: `.`, `..`, the files for
    /// reading, then the files for writing, less the first `cursor` entries.
    pub fn readdir(&self, cursor: u64) -> (entries: Vec<ReaddirEntity>)
        requires
            self.wf(),
        ensures
            entries_of(entries@) == self@.listing_from(cursor as nat),
    {
        let total = 2 + self.read_only_files.len() + self.write_only_files.len();
        let mut entries: Vec<ReaddirEntity> = Vec::new();
        if cursor >= total as u64 {
            return entries;
        }
        let start = cursor as usize;
        let mut i = start;
        while i < total
            invariant
                self.wf(),
                total == self@.entry_count(),
                start <= i <= total,
                entries_of(entries@) == self@.listing().subrange(start as int, i as int),
            decreases total - i,
        {
            let ghost before = entries_of(entries@);
            let entry = self.entry_at(i);
            entries.push(entry);
            assert(entries_of(entries@) =~= before.push(entry@));
            i += 1;
        }
        entries
    }

    /// The metadata of the directory itself.
    pub fn get_filestat(&self) -> (stat: Filestat)
        ensures
            stat == dir_filestat(),
    {
        Filestat {
            device_id: 0,
            inode: DIR_INODE,
            filetype: FileType::Directory,
            nlink: 1,
            size: 0,
            atim: None,
            mtim: None,
            ctim: None,
        }
    }

    /// The metadata found under `path`, where `metadata` is what the host
    /// reports of the file of that name; it is looked at for an exposed file
    /// only.
    pub fn get_path_filestat(&self, path: &str, follow_symlinks: bool, metadata: &HostMetadata) -> (r:
        Result<Filestat, DirError>)
        ensures
            r == self@.stat(path@, *metadata),
    {
        let key = path.to_owned();
        if key == ".".to_owned() || key == "..".to_owned() {
            return Ok(self.get_filestat());
        }
        match self.lookup(path) {
            Some(_) => Ok(
                Filestat {
                    device_id: 0,
                    inode: path_to_inode(path),
                    filetype: FileType::RegularFile,
                    nlink: 1,
                    size: metadata.size,
                    atim: metadata.accessed,
                    mtim: metadata.modified,
                    ctim: metadata.created,
                },
            ),
            None => Err(DirError::NotFound),
        }
    }

    /// Directories cannot be made.
    pub fn create_dir(&self, path: &str) -> (r: Result<(), DirError>)
        ensures
            r == Err::<(), DirError>(DirError::NotSupported(DirOperation::CreateDir)),
    {
        Err(DirError::NotSupported(DirOperation::CreateDir))
    }

    /// Links cannot be made.
    pub fn symlink(&self, src_path: &str, dest_path: &str) -> (r: Result<(), DirError>)
        ensures
            r == Err::<(), DirError>(DirError::NotSupported(DirOperation::Symlink)),
    {
        Err(DirError::NotSupported(DirOperation::Symlink))
    }

    /// Directories cannot be removed.
    pub fn remove_dir(&self, path: &str) -> (r: Result<(), DirError>)
        ensures
            r == Err::<(), DirError>(DirError::NotSupported(DirOperation::RemoveDir)),
    {
        Err(DirError::NotSupported(DirOperation::RemoveDir))
    }

    /// Files cannot be removed.
    pub fn unlink_file(&self, path: &str) -> (r: Result<(), DirError>)
        ensures
            r == Err::<(), DirError>(DirError::NotSupported(DirOperation::UnlinkFile)),
    {
        Err(DirError::NotSupported(DirOperation::UnlinkFile))
    }

    /// There are no links to read.
    pub fn read_link(&self, path: &str) -> (r: Result<String, DirError>)
        ensures
            r == Err::<String, DirError>(DirError::NotSupported(DirOperation::ReadLink)),
    {
        Err(DirError::NotSupported(DirOperation::ReadLink))
    }

    /// Files cannot be renamed.
    pub fn rename(&self, src_path: &str, dest_path: &str) -> (r: Result<(), DirError>)
        ensures
            r == Err::<(), DirError>(DirError::NotSupported(DirOperation::Rename)),
    {
        Err(DirError::NotSupported(DirOperation::Rename))
    }

    /// Hard links cannot be made.
    pub fn hard_link(&self, src_path: &str, target_path: &str) -> (r: Result<(), DirError>)
        ensures
            r == Err::<(), DirError>(DirError::NotSupported(DirOperation::HardLink)),
    {
        Err(DirError::NotSupported(DirOperation::HardLink))
    }

    /// Timestamps cannot be set.
    pub fn set_times(
        &self,
        path: &str,
        atime: Option<HostTime>,
        mtime: Option<HostTime>,
        follow_symlinks: bool,
    ) -> (r: Result<(), DirError>)
        ensures
            r == Err::<(), DirError>(DirError::NotSupported(DirOperation::SetTimes)),
    {
        Err(DirError::NotSupported(DirOperation::SetTimes))
    }
}

} // verus!

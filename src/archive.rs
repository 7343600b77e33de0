//! Planning the extraction of an update archive.
//!
//! The archive is read with the zip crate; this module turns its entries, in
//! archive order, into steps relative to the extraction root: create a
//! directory, or write a file with given bytes. Performing the steps and
//! removing the archive afterwards is left to the caller.
use vstd::prelude::*;
use vstd::string::StrSliceExecFns;

verus! {

#[verifier::external_type_specification]
#[verifier::external_body]
#[verifier::reject_recursive_types(T)]
pub struct ExCursor<T>(std::io::Cursor<T>);

#[verifier::external_type_specification]
#[verifier::external_body]
#[verifier::reject_recursive_types(R)]
pub struct ExZipArchive<R>(zip::ZipArchive<R>);

#[verifier::external_type_specification]
#[verifier::external_body]
pub struct ExZipError(zip::result::ZipError);

/// An archive read from bytes held in memory.
pub type MemArchive = zip::ZipArchive<std::io::Cursor<Vec<u8>>>;

/// Whether the zip crate opens the archive bytes `bytes`, that is, finds and
/// reads its central directory.
pub uninterp spec fn zip_opens(bytes: Seq<u8>) -> bool;

/// The entries that the zip crate finds in the archive bytes `bytes`, in
/// archive order: each entry's name and its decompressed content, or `None`
/// where the entry cannot be opened or its content not read to the end.
pub uninterp spec fn zip_entries(bytes: Seq<u8>) -> Seq<(Seq<char>, Option<Seq<u8>>)>;

/// The entries held by an opened archive, as in `zip_entries`.
pub uninterp spec fn archive_entries(a: MemArchive) -> Seq<(Seq<char>, Option<Seq<u8>>)>;

/// The path components of the zip crate's mangled form of the entry name
/// `name`, as the target platform's path rules split that path. They are
/// not trusted to be safe: the planner checks each one.
pub uninterp spec fn mangled_components(name: Seq<char>) -> Seq<Seq<char>>;

/// One entry read from an archive.
pub struct ArchiveEntry {
    /// The name stored in the archive.
    pub name: String,
    /// The components of the name's mangled form.
    pub parts: Vec<String>,
    /// The decompressed content.
    pub data: Vec<u8>,
}

/// Relies on zip::ZipArchive::new, which reads the central directory of the
/// archive held in `bytes`.
#[verifier::external_body]
fn open_archive(bytes: Vec<u8>) -> (r: Result<MemArchive, zip::result::ZipError>)
    ensures
        r is Ok <==> zip_opens(bytes@),
        r is Ok ==> archive_entries(r->Ok_0) == zip_entries(bytes@),
{
    zip::ZipArchive::new(std::io::Cursor::new(bytes))
}

/// Relies on zip::ZipArchive::len, the number of entries.
#[verifier::external_body]
fn archive_len(a: &MemArchive) -> (r: usize)
    ensures
        r == archive_entries(*a).len(),
{
    a.len()
}

/// Relies on zip::ZipArchive::by_index and, for the entry it opens, on
/// ZipFile::name, ZipFile::mangled_name and reading the decompressed content
/// to its end. The archive's entries are unchanged by reading one.
#[verifier::external_body]
fn read_entry(a: &mut MemArchive, i: usize) -> (r: Result<ArchiveEntry, zip::result::ZipError>)
    ensures
        archive_entries(*final(a)) == archive_entries(*old(a)),
        r is Ok <==> (i < archive_entries(*old(a)).len() && archive_entries(*old(a))[i as int].1 is Some),
        r is Ok ==> r->Ok_0.name@ == archive_entries(*old(a))[i as int].0,
        r is Ok ==> r->Ok_0.data@ == archive_entries(*old(a))[i as int].1->Some_0,
        r is Ok ==> strings_view(r->Ok_0.parts@) == mangled_components(r->Ok_0.name@),
{
    let mut f = a.by_index(i)?;
    let name = f.name().to_string();
    let parts = f.mangled_name().components().map(|c| c.as_os_str().to_string_lossy().into_owned()).collect();
    let mut data = Vec::new();
    std::io::Read::read_to_end(&mut f, &mut data)?;
    Ok(ArchiveEntry { name, parts, data })
}

/// Relies on zip::result::ZipError's Display impl for a readable description.
#[verifier::external_body]
fn zip_error_message(e: &zip::result::ZipError) -> String {
    e.to_string()
}

/// The characters of each string.
pub open spec fn strings_view(s: Seq<String>) -> Seq<Seq<char>> {
    s.map_values(|x: String| x@)
}

/// A path component that names an entry inside its parent: not empty, not
/// `.` or `..`, free of separators, and free of `:`, so that no platform reads
/// it as a drive or other path prefix.
pub open spec fn is_normal_component(c: Seq<char>) -> bool {
    &&& c.len() > 0
    &&& c != seq!['.']
    &&& c != seq!['.', '.']
    &&& !c.contains('/')
    &&& !c.contains('\\')
    &&& !c.contains(':')
}

/// Every component is normal, so the path stays below the root it is joined to.
pub open spec fn all_normal(parts: Seq<Seq<char>>) -> bool {
    forall|i: int| 0 <= i < parts.len() ==> #[trigger] is_normal_component(parts[i])
}

/// An entry name that denotes a directory: it ends with `/`.
pub open spec fn is_dir_name(name: Seq<char>) -> bool {
    name.len() > 0 && name.last() == '/'
}

/// What to do for one archive entry, relative to the extraction root.
#[derive(Debug, PartialEq, Eq)]
pub enum InstallStep {
    /// Create the directory at this path, and any missing ancestors.
    CreateDir(Vec<String>),
    /// Create the ancestors, then create or overwrite the file with these bytes.
    WriteFile(Vec<String>, Vec<u8>),
}

/// Why an archive cannot be installed.
#[derive(Debug, PartialEq, Eq)]
pub enum ArchiveError {
    /// The zip crate could not read the archive or an entry; its description.
    Unreadable(String),
    /// The entry with this name would not land strictly inside the root.
    UnsafePath(String),
}

impl InstallStep {
    /// The bytes written by the step; none for a directory.
    pub open spec fn data(self) -> Seq<u8> {
        match self {
            InstallStep::CreateDir(_) => Seq::empty(),
            InstallStep::WriteFile(_, d) => d@,
        }
    }

    /// Two steps that do the same thing: same kind, path and bytes.
    pub open spec fn same_as(self, other: InstallStep) -> bool {
        &&& (self is CreateDir <==> other is CreateDir)
        &&& self.path() == other.path()
        &&& self.data() == other.data()
    }

    /// The path of the step, relative to the extraction root.
    pub open spec fn path(self) -> Seq<Seq<char>> {
        match self {
            InstallStep::CreateDir(p) => strings_view(p@),
            InstallStep::WriteFile(p, _) => strings_view(p@),
        }
    }
}

/// An entry whose path components are all normal and, for a file, not empty.
pub open spec fn entry_path_safe(name: Seq<char>, parts: Seq<Seq<char>>) -> bool {
    all_normal(parts) && (is_dir_name(name) || parts.len() > 0)
}

/// The step `s` installs the entry named `name`, with path components `parts`
/// and content `data`.
pub open spec fn step_installs(s: InstallStep, name: Seq<char>, parts: Seq<Seq<char>>, data: Seq<u8>) -> bool {
    match s {
        InstallStep::CreateDir(p) => is_dir_name(name) && strings_view(p@) == parts,
        InstallStep::WriteFile(p, d) => !is_dir_name(name) && strings_view(p@) == parts && d@ == data,
    }
}

fn is_normal_component_exec(c: &String) -> (r: bool)
    ensures
        r == is_normal_component(c@),
{
    let s = c.as_str();
    let n = s.unicode_len();
    if n == 0 {
        return false;
    }
    if n == 1 {
        let c0 = s.get_char(0);
        if c0 == '.' {
            assert(c@ =~= seq!['.']);
            return false;
        }
        assert(seq!['.'][0] == '.');
    }
    if n == 2 {
        let c0 = s.get_char(0);
        let c1 = s.get_char(1);
        if c0 == '.' && c1 == '.' {
            assert(c@ =~= seq!['.', '.']);
            return false;
        }
        assert(seq!['.', '.'][0] == '.' && seq!['.', '.'][1] == '.');
    }
    let mut i: usize = 0;
    while i < n
        invariant
            n == s@.len(),
            s@ == c@,
            0 <= i <= n,
            forall|j: int| 0 <= j < i ==> s@[j] != '/' && s@[j] != '\\' && s@[j] != ':',
        decreases n - i,
    {
        let ch = s.get_char(i);
        if ch == '/' || ch == '\\' || ch == ':' {
            assert(c@.contains(ch));
            return false;
        }
        i = i + 1;
    }
    true
}

fn all_normal_exec(parts: &Vec<String>) -> (r: bool)
    ensures
        r == all_normal(strings_view(parts@)),
{
    let mut i: usize = 0;
    while i < parts.len()
        invariant
            0 <= i <= parts.len(),
            forall|j: int| 0 <= j < i ==> #[trigger] is_normal_component(parts@[j]@),
        decreases parts.len() - i,
    {
        if !is_normal_component_exec(&parts[i]) {
            assert(strings_view(parts@)[i as int] == parts@[i as int]@);
            return false;
        }
        i = i + 1;
    }
    assert forall|j: int| 0 <= j < strings_view(parts@).len() implies
        #[trigger] is_normal_component(strings_view(parts@)[j]) by {
        assert(strings_view(parts@)[j] == parts@[j]@);
    }
    true
}

/// Whether the entry name `name` denotes a directory.
pub fn is_dir_entry_name(name: &String) -> (r: bool)
    ensures
        r == is_dir_name(name@),
{
    let s = name.as_str();
    let n = s.unicode_len();
    n > 0 && s.get_char(n - 1) == '/'
}

/// The step that installs one entry: a directory for a name ending in `/`,
/// otherwise a file with the entry's content, at the entry's path components.
/// An entry with a component that is not normal, or a file entry with no
/// component at all, is refused with `UnsafePath` and its name.
pub fn install_step(entry: ArchiveEntry) -> (r: Result<InstallStep, ArchiveError>)
    ensures
        r is Ok <==> entry_path_safe(entry.name@, strings_view(entry.parts@)),
        r is Ok ==> step_installs(r->Ok_0, entry.name@, strings_view(entry.parts@), entry.data@),
        r is Err ==> r->Err_0 == ArchiveError::UnsafePath(entry.name),
{
    let is_dir = is_dir_entry_name(&entry.name);
    if !all_normal_exec(&entry.parts) || (!is_dir && entry.parts.len() == 0) {
        return Err(ArchiveError::UnsafePath(entry.name));
    }
    if is_dir {
        Ok(InstallStep::CreateDir(entry.parts))
    } else {
        Ok(InstallStep::WriteFile(entry.parts, entry.data))
    }
}

/// The entry at position `i` of `entries` is safe to install.
pub open spec fn entry_safe_at(entries: Seq<(Seq<char>, Option<Seq<u8>>)>, i: int) -> bool {
    entry_path_safe(entries[i].0, mangled_components(entries[i].0))
}

/// `steps` installs `entries` one for one, in order.
pub open spec fn plan_installs(steps: Seq<InstallStep>, entries: Seq<(Seq<char>, Option<Seq<u8>>)>) -> bool {
    &&& steps.len() == entries.len()
    &&& forall|i: int| 0 <= i < steps.len() ==> #[trigger] step_installs(
        steps[i], entries[i].0, mangled_components(entries[i].0), entries[i].1->Some_0)
    &&& forall|i: int| 0 <= i < entries.len() ==> #[trigger] entry_safe_at(entries, i)
}

/// The zip crate opens the archive bytes `bytes` and reads every entry.
pub open spec fn zip_reads(bytes: Seq<u8>) -> bool {
    &&& zip_opens(bytes)
    &&& forall|i: int| 0 <= i < zip_entries(bytes).len() ==> (#[trigger] zip_entries(bytes)[i]).1 is Some
}

/// Every entry of the archive bytes `bytes` is safe to install.
pub open spec fn all_entries_safe(bytes: Seq<u8>) -> bool {
    forall|i: int| 0 <= i < zip_entries(bytes).len() ==> #[trigger] entry_safe_at(zip_entries(bytes), i)
}

/// The steps that install the zip archive held in `bytes`, one per entry in
/// archive order. They are given exactly when the zip crate reads the whole
/// archive and every entry lands inside the root. Otherwise the first entry
/// that fails decides: one that cannot be read (or an archive that cannot be
/// opened) gives `Unreadable`, and one that would not land inside the root
/// gives `UnsafePath` with its name.
#[verifier::loop_isolation(false)]
pub fn plan_install(bytes: Vec<u8>) -> (r: Result<Vec<InstallStep>, ArchiveError>)
    ensures
        r is Ok <==> zip_reads(bytes@) && all_entries_safe(bytes@),
        r is Ok ==> plan_installs(r->Ok_0@, zip_entries(bytes@)),
        (r is Err && r->Err_0 is Unreadable) ==> !zip_reads(bytes@),
        (r is Err && r->Err_0 is UnsafePath) ==> exists|i: int|
            0 <= i < zip_entries(bytes@).len()
            && !#[trigger] entry_safe_at(zip_entries(bytes@), i)
            && r->Err_0->UnsafePath_0@ == zip_entries(bytes@)[i].0,
{
    let ghost entries = zip_entries(bytes@);
    let mut a = match open_archive(bytes) {
        Ok(a) => a,
        Err(e) => return Err(ArchiveError::Unreadable(zip_error_message(&e))),
    };
    let n = archive_len(&a);
    let mut steps: Vec<InstallStep> = Vec::new();
    let mut i: usize = 0;
    while i < n
        invariant
            archive_entries(a) == entries,
            n == entries.len(),
            0 <= i <= n,
            steps@.len() == i,
            forall|j: int| 0 <= j < i ==> (#[trigger] entries[j]).1 is Some,
            forall|j: int| 0 <= j < i ==> #[trigger] step_installs(
                steps@[j], entries[j].0, mangled_components(entries[j].0), entries[j].1->Some_0),
            forall|j: int| 0 <= j < i ==> #[trigger] entry_safe_at(entries, j),
        decreases n - i,
    {
        let entry = match read_entry(&mut a, i) {
            Ok(e) => e,
            Err(e) => {
                assert(!(entries[i as int].1 is Some));
                return Err(ArchiveError::Unreadable(zip_error_message(&e)));
            },
        };
        let ghost name = entry.name@;
        match install_step(entry) {
            Ok(s) => {
                steps.push(s);
            },
            Err(err) => {
                assert(!entry_safe_at(entries, i as int));
                assert(err->UnsafePath_0@ == entries[i as int].0);
                return Err(err);
            },
        }
        i = i + 1;
    }
    Ok(steps)
}

/// Path safety: every step of an installable plan has a path made of normal
/// components only, so joined to the extraction root it stays inside it; a
/// file step's path is never the root itself.
pub proof fn lemma_plan_stays_inside_root(bytes: Seq<u8>, steps: Seq<InstallStep>)
    requires
        plan_installs(steps, zip_entries(bytes)),
    ensures
        forall|i: int| 0 <= i < steps.len() ==> all_normal(#[trigger] steps[i].path()),
        forall|i: int| 0 <= i < steps.len() && steps[i] is WriteFile ==> #[trigger] steps[i].path().len() > 0,
{
    let entries = zip_entries(bytes);
    assert forall|i: int| 0 <= i < steps.len() implies all_normal(#[trigger] steps[i].path()) by {
        assert(step_installs(steps[i], entries[i].0, mangled_components(entries[i].0), entries[i].1->Some_0));
        assert(entry_safe_at(entries, i));
    }
    assert forall|i: int| 0 <= i < steps.len() && steps[i] is WriteFile implies #[trigger] steps[i].path().len() > 0 by {
        assert(step_installs(steps[i], entries[i].0, mangled_components(entries[i].0), entries[i].1->Some_0));
        assert(entry_safe_at(entries, i));
    }
}

/// Repeatability: two plans of the same archive agree step for step, so a
/// second install recreates the same directories and overwrites each file
/// with the same bytes. Whether a plan is given depends on the bytes alone
/// (see `plan_install`), so a second run succeeds whenever the first did.
pub proof fn lemma_plan_repeatable(bytes: Seq<u8>, first: Seq<InstallStep>, second: Seq<InstallStep>)
    requires
        plan_installs(first, zip_entries(bytes)),
        plan_installs(second, zip_entries(bytes)),
    ensures
        first.len() == second.len(),
        forall|i: int| 0 <= i < first.len() ==> (#[trigger] first[i]).same_as(second[i]),
{
    let entries = zip_entries(bytes);
    assert forall|i: int| 0 <= i < first.len() implies (#[trigger] first[i]).same_as(second[i]) by {
        assert(step_installs(first[i], entries[i].0, mangled_components(entries[i].0), entries[i].1->Some_0));
        assert(step_installs(second[i], entries[i].0, mangled_components(entries[i].0), entries[i].1->Some_0));
    }
}

} // verus!

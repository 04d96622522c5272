//! The file registry the launch pipeline searches: a flat catalog from
//! cleaned path text to either plain bytes or an installed application
//! constructor, plus the active directory relative lookups start from.

use vstd::prelude::*;
use vstd::string::*;

use crate::path::{spec_clean, Path};
use crate::strutil::{lemma_assoc_absent, lemma_assoc_found, spec_assoc, str_eq};

verus! {

/// What can go wrong looking a file up, reading it, or writing it.
#[derive(Clone, Copy, Debug, PartialEq, Eq, Structural)]
pub enum FileSystemError {
    /// The launch pipeline found no text argument to treat as a path.
    EmptyPath,
    /// No file exists under the requested path.
    FileNotFound,
    /// The file exists but is not an installed application.
    NotExecutable,
    /// The file's contents cannot be read as requested.
    InvalidData,
}

impl FileSystemError {
    /// A short diagnostic for the active text display.
    pub fn describe(&self) -> (r: &'static str)
        ensures
            self is EmptyPath ==> r@ == "empty path"@,
            self is FileNotFound ==> r@ == "file not found"@,
            self is NotExecutable ==> r@ == "not executable"@,
            self is InvalidData ==> r@ == "invalid data"@,
    {
        match self {
            FileSystemError::EmptyPath => "empty path",
            FileSystemError::FileNotFound => "file not found",
            FileSystemError::NotExecutable => "not executable",
            FileSystemError::InvalidData => "invalid data",
        }
    }
}

/// The closed registry of application constructors a file can name.
#[derive(Clone, Copy, Debug, PartialEq, Eq, Structural)]
pub enum InstalledApp {
    ForRunner,
    ClearScreen,
    Help,
    ForEditor,
}

/// What one file holds.
pub enum FileContent {
    Data(Vec<u8>),
    App(InstalledApp),
}

/// The mathematical shape of one file's contents.
pub enum ContentModel {
    Data(Seq<u8>),
    App(InstalledApp),
}

impl View for FileContent {
    type V = ContentModel;

    open spec fn view(&self) -> ContentModel {
        match self {
            FileContent::Data(d) => ContentModel::Data(d@),
            FileContent::App(a) => ContentModel::App(*a),
        }
    }
}

struct FileEntry {
    path: String,
    content: FileContent,
}

/// The filesystem: a catalog of files keyed by cleaned path text, and the
/// active directory.
pub struct FileSystem {
    entries: Vec<FileEntry>,
    active: Path,
}

/// The association list a sequence of entries describes.
spec fn entries_model(entries: Seq<FileEntry>) -> Seq<(Seq<char>, ContentModel)>
    decreases entries.len(),
{
    if entries.len() == 0 {
        Seq::<(Seq<char>, ContentModel)>::empty()
    } else {
        entries_model(entries.drop_last()).push(
            (entries.last().path@, entries.last().content@),
        )
    }
}

proof fn lemma_entries_model(entries: Seq<FileEntry>)
    ensures
        entries_model(entries).len() == entries.len(),
        forall|j: int|
            0 <= j < entries.len() ==> #[trigger] entries_model(entries)[j] == (
                entries[j].path@,
                entries[j].content@,
            ),
    decreases entries.len(),
{
    if entries.len() > 0 {
        lemma_entries_model(entries.drop_last());
    }
}

impl FileSystem {
    /// The catalog as a map; a later entry for the same path shadows an
    /// earlier one.
    pub closed spec fn catalog(&self) -> Map<Seq<char>, ContentModel> {
        spec_assoc(entries_model(self.entries@))
    }

    /// The directory relative lookups start from.
    pub closed spec fn active_dir(&self) -> Seq<char> {
        self.active@
    }

    /// An empty filesystem rooted at the empty directory.
    pub fn new() -> (r: Self)
        ensures
            r.catalog() == Map::<Seq<char>, ContentModel>::empty(),
            r.active_dir() == Seq::<char>::empty(),
    {
        let entries: Vec<FileEntry> = Vec::new();
        let r = FileSystem { entries, active: Path::new() };
        r
    }

    /// The active directory.
    pub fn active_directory(&self) -> (r: Path)
        ensures
            r@ == self.active_dir(),
    {
        self.active.clone()
    }

    pub fn set_active_directory(&mut self, path: Path)
        ensures
            final(self).active_dir() == path@,
            final(self).catalog() == old(self).catalog(),
    {
        self.active = path;
    }

    /// Stores content under the cleaned form of `path`, replacing whatever
    /// was there.
    fn put(&mut self, path: &Path, content: FileContent)
        ensures
            final(self).catalog() == old(self).catalog().insert(spec_clean(path@), content@),
            final(self).active_dir() == old(self).active_dir(),
    {
        let key = path.clone().clean();
        let entry = FileEntry { path: String::from_str(key.as_str()), content };
        self.entries.push(entry);
        proof {
            assert(self.entries@.drop_last() =~= old(self).entries@);
            assert(entries_model(self.entries@).drop_last() =~= entries_model(
                old(self).entries@,
            ));
        }
    }

    /// Installs an application constructor under the cleaned path.
    pub fn install(&mut self, path: &Path, app: InstalledApp)
        ensures
            final(self).catalog() == old(self).catalog().insert(
                spec_clean(path@),
                ContentModel::App(app),
            ),
            final(self).active_dir() == old(self).active_dir(),
    {
        self.put(path, FileContent::App(app));
    }

    /// Creates or replaces a plain file under the cleaned path.
    pub fn create_file(&mut self, path: &Path, data: Vec<u8>)
        ensures
            final(self).catalog() == old(self).catalog().insert(
                spec_clean(path@),
                ContentModel::Data(data@),
            ),
            final(self).active_dir() == old(self).active_dir(),
    {
        self.put(path, FileContent::Data(data));
    }

    /// The index of the entry that decides the catalog at the cleaned key,
    /// if the key is present.
    fn locate(&self, key: &Path) -> (r: Option<usize>)
        ensures
            r is Some ==> {
                &&& r->0 < self.entries@.len()
                &&& self.catalog().contains_key(spec_clean(key@))
                &&& self.entries@[r->0 as int].path@ == spec_clean(key@)
                &&& self.catalog()[spec_clean(key@)] == self.entries@[r->0 as int].content@
            },
            r is None ==> !self.catalog().contains_key(spec_clean(key@)),
    {
        let cleaned = key.clone().clean();
        let target = cleaned.as_str();
        proof {
            lemma_entries_model(self.entries@);
        }
        let mut i: usize = self.entries.len();
        while i > 0
            invariant
                i <= self.entries@.len(),
                target@ == spec_clean(key@),
                forall|j: int| i <= j < self.entries@.len() ==> self.entries@[j].path@ != target@,
            decreases i,
        {
            i = i - 1;
            if str_eq(self.entries[i].path.as_str(), target) {
                proof {
                    lemma_entries_model(self.entries@);
                    let m = entries_model(self.entries@);
                    assert(forall|j: int| i < j < m.len() ==> m[j].0 != m[i as int].0);
                    lemma_assoc_found(m, i as int);
                }
                return Some(i);
            }
        }
        proof {
            lemma_entries_model(self.entries@);
            let m = entries_model(self.entries@);
            assert(forall|j: int| 0 <= j < m.len() ==> m[j].0 != target@);
            lemma_assoc_absent(m, target@);
        }
        None
    }

    /// Whether a file exists under the cleaned path.
    pub fn contains(&self, path: &Path) -> (r: bool)
        ensures
            r == self.catalog().contains_key(spec_clean(path@)),
    {
        match self.locate(path) {
            Some(_) => true,
            None => false,
        }
    }

    /// Reads the bytes of the plain file under the cleaned path.
    pub fn read_file(&self, path: &Path) -> (r: Result<Vec<u8>, FileSystemError>)
        ensures
            ({
                let key = spec_clean(path@);
                if !self.catalog().contains_key(key) {
                    r == Err::<Vec<u8>, FileSystemError>(FileSystemError::FileNotFound)
                } else {
                    match self.catalog()[key] {
                        ContentModel::Data(d) => r is Ok && r->Ok_0@ == d,
                        ContentModel::App(_) => r == Err::<Vec<u8>, FileSystemError>(
                            FileSystemError::InvalidData,
                        ),
                    }
                }
            }),
    {
        match self.locate(path) {
            None => Err(FileSystemError::FileNotFound),
            Some(i) => match &self.entries[i].content {
                FileContent::Data(d) => Ok(d.clone()),
                FileContent::App(_) => Err(FileSystemError::InvalidData),
            },
        }
    }

    /// The application constructor installed under the cleaned path.
    pub fn app_at(&self, path: &Path) -> (r: Result<InstalledApp, FileSystemError>)
        ensures
            ({
                let key = spec_clean(path@);
                if !self.catalog().contains_key(key) {
                    r == Err::<InstalledApp, FileSystemError>(FileSystemError::FileNotFound)
                } else {
                    match self.catalog()[key] {
                        ContentModel::App(a) => r == Ok::<InstalledApp, FileSystemError>(a),
                        ContentModel::Data(_) => r == Err::<InstalledApp, FileSystemError>(
                            FileSystemError::NotExecutable,
                        ),
                    }
                }
            }),
    {
        match self.locate(path) {
            None => Err(FileSystemError::FileNotFound),
            Some(i) => match &self.entries[i].content {
                FileContent::App(a) => Ok(*a),
                FileContent::Data(_) => Err(FileSystemError::NotExecutable),
            },
        }
    }

    /// Replaces the contents of an existing file under the cleaned path.
    pub fn write_file(&mut self, path: &Path, data: Vec<u8>) -> (r: Result<(), FileSystemError>)
        ensures
            ({
                let key = spec_clean(path@);
                if old(self).catalog().contains_key(key) {
                    &&& r is Ok
                    &&& final(self).catalog() == old(self).catalog().insert(
                        key,
                        ContentModel::Data(data@),
                    )
                } else {
                    &&& r == Err::<(), FileSystemError>(FileSystemError::FileNotFound)
                    &&& final(self).catalog() == old(self).catalog()
                }
            }),
            final(self).active_dir() == old(self).active_dir(),
    {
        match self.locate(path) {
            None => Err(FileSystemError::FileNotFound),
            Some(_) => {
                self.put(path, FileContent::Data(data));
                Ok(())
            },
        }
    }
}

} // verus!

//! The world a document is compiled in: its main file, Typst's library with
//! the given inputs, the discovered fonts, the project and package files, and
//! the time.
use vstd::prelude::*;

use std::io;
use std::path::{Path, PathBuf};
use typst::diag::{FileError, FileResult};
use typst::foundations::{Bytes, Datetime, Dict, Duration};
use typst::syntax::{FileId, RootedPath, Source, VirtualPath, VirtualRoot, VirtualizeError};
use typst::text::{Font, FontBook, FontInfo};
use typst::utils::LazyHash;
use typst::{Library, LibraryExt};
use typst_kit::datetime::Time;
use typst_kit::downloader::SystemDownloader;
use typst_kit::files::{FileStore, FsRoot, SystemFiles};
use typst_kit::fonts::FontStore;
use typst_kit::packages::{FsPackages, SystemPackages, UniversePackages};

use crate::error::WorldCreationError;
use crate::fonts::{
    discover_fonts, embedded_families, found_then_embedded, has_default_families,
    hashed_book_families, hashed_book_info_at, store_families, store_font, store_hashed_book,
    store_in_memory, store_info_at,
};
use crate::inputs::{dict_pairs, inputs_dict, pairs_of_inputs, text_pairs};

verus! {

/// A borrowed file system path, seen by Verus as an opaque value.
#[verifier::external_type_specification]
#[verifier::external_body]
pub struct ExPath(Path);

/// The identifier of a file, seen by Verus as an opaque value.
#[verifier::external_type_specification]
#[verifier::external_body]
pub struct ExFileId(FileId);

/// A path inside a project or package, seen by Verus as an opaque value.
#[verifier::external_type_specification]
#[verifier::external_body]
pub struct ExVirtualPath(VirtualPath);

/// A path with its root, seen by Verus as an opaque value.
#[verifier::external_type_specification]
#[verifier::external_body]
pub struct ExRootedPath(RootedPath);

/// A parsed source file, seen by Verus as an opaque value.
#[verifier::external_type_specification]
#[verifier::external_body]
pub struct ExSource(Source);

/// Raw file data, seen by Verus as an opaque value.
#[verifier::external_type_specification]
#[verifier::external_body]
pub struct ExBytes(Bytes);

/// The error of loading a file, seen by Verus as an opaque value.
#[verifier::external_type_specification]
#[verifier::external_body]
pub struct ExFileError(FileError);

/// A date and time, seen by Verus as an opaque value.
#[verifier::external_type_specification]
#[verifier::external_body]
pub struct ExDatetime(Datetime);

/// A span of time, seen by Verus as an opaque value.
#[verifier::external_type_specification]
#[verifier::external_body]
pub struct ExDuration(Duration);

/// Typst's standard library, seen by Verus as an opaque value.
#[verifier::external_type_specification]
#[verifier::external_body]
pub struct ExLibrary(Library);

/// The current time as typst-kit provides it, seen by Verus as an opaque
/// value.
#[verifier::external_type_specification]
#[verifier::external_body]
pub struct ExTime(Time);

/// The network client for packages, seen by Verus as an opaque value.
#[verifier::external_type_specification]
#[verifier::external_body]
pub struct ExSystemDownloader(SystemDownloader);

/// A cache of loaded files, seen by Verus as an opaque value.
#[verifier::external_type_specification]
#[verifier::external_body]
#[verifier::reject_recursive_types(L)]
pub struct ExFileStore<L>(FileStore<L>);

/// The loader of project and package files, seen by Verus as an opaque value.
#[verifier::external_type_specification]
#[verifier::external_body]
pub struct ExSystemFiles(SystemFiles);

/// A directory that is a file system root, seen by Verus as an opaque value.
#[verifier::external_type_specification]
#[verifier::external_body]
pub struct ExFsRoot(FsRoot);

/// The package sources, seen by Verus as an opaque value.
#[verifier::external_type_specification]
#[verifier::external_body]
pub struct ExSystemPackages(SystemPackages);

/// A directory of packages, seen by Verus as an opaque value.
#[verifier::external_type_specification]
#[verifier::external_body]
pub struct ExFsPackages(FsPackages);

/// The Typst Universe registry, seen by Verus as an opaque value.
#[verifier::external_type_specification]
#[verifier::external_body]
pub struct ExUniversePackages(UniversePackages);

/// The user agent with which packages are downloaded.
pub const USER_AGENT: &'static str = "typwriter/0.1.0";

/// Calls `Path::canonicalize`. What comes back depends on the file system.
#[verifier::external_body]
fn canonicalize(path: &Path) -> io::Result<PathBuf> {
    path.canonicalize()
}

/// Calls `io::Error::kind` and tells whether it is `NotFound`.
#[verifier::external_body]
fn is_not_found(err: &io::Error) -> bool {
    err.kind() == io::ErrorKind::NotFound
}

/// Calls `Path::to_path_buf`.
#[verifier::external_body]
fn to_path_buf(path: &Path) -> PathBuf {
    path.to_path_buf()
}

/// Calls `Path::parent`.
#[verifier::external_body]
fn parent(path: &PathBuf) -> Option<&Path> {
    path.parent()
}

/// Calls `Path::new` on a text.
#[verifier::external_body]
fn path_new(text: &'static str) -> &'static Path {
    Path::new(text)
}

/// Calls `Clone::clone` on a path: the clone is the same path.
#[verifier::external_body]
fn clone_path(path: &PathBuf) -> (copy: PathBuf)
    ensures
        copy == *path,
{
    path.clone()
}

/// Calls `VirtualPath::virtualize`: the path of `path` inside `root`, or why
/// it has none.
#[verifier::external_body]
fn virtualize(root: &PathBuf, path: &PathBuf) -> Result<VirtualPath, VirtualizeError> {
    VirtualPath::virtualize(root, path)
}

/// Calls `RootedPath::new` with `VirtualRoot::Project`, the one root that
/// Verus cannot build, as `VirtualRoot` is opaque to it.
#[verifier::external_body]
fn in_project(vpath: VirtualPath) -> RootedPath {
    RootedPath::new(VirtualRoot::Project, vpath)
}

/// Calls `RootedPath::intern`.
#[verifier::external_body]
fn intern(path: RootedPath) -> FileId {
    path.intern()
}

/// Calls `SystemDownloader::new`.
#[verifier::external_body]
fn system_downloader(user_agent: &str) -> SystemDownloader {
    SystemDownloader::new(user_agent)
}

/// Calls `FsPackages::new`.
#[verifier::external_body]
fn fs_packages(path: PathBuf) -> FsPackages {
    FsPackages::new(path)
}

/// Calls `FsPackages::system_data`: the data directory of the environment, if
/// there is one.
#[verifier::external_body]
fn system_data_packages() -> Option<FsPackages> {
    FsPackages::system_data()
}

/// Calls `FsPackages::system_cache`: the cache directory of the environment,
/// if there is one.
#[verifier::external_body]
fn system_cache_packages() -> Option<FsPackages> {
    FsPackages::system_cache()
}

/// Calls `UniversePackages::new`.
#[verifier::external_body]
fn universe_packages(downloader: SystemDownloader) -> UniversePackages {
    UniversePackages::new(downloader)
}

/// Calls `SystemPackages::from_parts`.
#[verifier::external_body]
fn system_packages(
    data: Option<FsPackages>,
    cache: Option<FsPackages>,
    universe: UniversePackages,
) -> SystemPackages {
    SystemPackages::from_parts(data, cache, universe)
}

/// Calls `FsRoot::new`.
#[verifier::external_body]
fn fs_root(root: PathBuf) -> FsRoot {
    FsRoot::new(root)
}

/// Calls `SystemFiles::new`.
#[verifier::external_body]
fn system_files(project: FsRoot, packages: SystemPackages) -> SystemFiles {
    SystemFiles::new(project, packages)
}

/// Calls `FileStore::new`.
#[verifier::external_body]
fn file_store(loader: SystemFiles) -> FileStore<SystemFiles> {
    FileStore::new(loader)
}

/// Calls `FileStore::source`. What comes back depends on the file system.
#[verifier::external_body]
fn file_store_source(files: &FileStore<SystemFiles>, id: FileId) -> FileResult<Source> {
    files.source(id)
}

/// Calls `FileStore::file`. What comes back depends on the file system.
#[verifier::external_body]
fn file_store_file(files: &FileStore<SystemFiles>, id: FileId) -> FileResult<Bytes> {
    files.file(id)
}

/// Typst's standard library as `Library::builder` builds it with the given
/// `sys.inputs` pairs, behind a lazily computed hash.
pub uninterp spec fn library_with_inputs(inputs: Seq<(Seq<char>, Seq<char>)>) -> LazyHash<Library>;

/// Calls `Library::builder`, `LibraryBuilder::with_inputs` with the
/// dictionary, `LibraryBuilder::build` and `LazyHash::new`: the library is a
/// function of the dictionary's pairs alone (the builder's other settings stay
/// at their defaults).
#[verifier::external_body]
fn standard_library(inputs: Dict) -> (library: LazyHash<Library>)
    ensures
        library == library_with_inputs(dict_pairs(inputs)),
{
    LazyHash::new(Library::builder().with_inputs(inputs).build())
}

/// Calls `Time::system`: the time is read from the system clock when first
/// needed.
#[verifier::external_body]
fn system_time() -> Time {
    Time::system()
}

/// Calls `Time::today`. What comes back depends on the clock.
#[verifier::external_body]
fn time_today(time: &Time, offset: Option<Duration>) -> Option<Datetime> {
    time.today(offset)
}

/// The packages in a custom directory, where one is given.
fn custom_packages(path: &Option<PathBuf>) -> (packages: Option<FsPackages>)
    ensures
        packages is Some <==> path is Some,
{
    match path {
        Some(path) => Some(fs_packages(clone_path(path))),
        None => None,
    }
}

/// The package data directory: the custom one where given, else the one of
/// the environment.
fn data_packages(custom: Option<FsPackages>) -> (packages: Option<FsPackages>)
    ensures
        custom is Some ==> packages == custom,
{
    match custom {
        Some(packages) => Some(packages),
        None => system_data_packages(),
    }
}

/// The package cache directory: the custom one where given, else the one of
/// the environment.
fn cache_packages(custom: Option<FsPackages>) -> (packages: Option<FsPackages>)
    ensures
        custom is Some ==> packages == custom,
{
    match custom {
        Some(packages) => Some(packages),
        None => system_cache_packages(),
    }
}

/// The input file as resolved: its canonical path, or the error for it. A
/// path that does not exist is reported as "input not found", with the path
/// as given; any other I/O error is reported as it is.
pub fn resolve_input(
    given: PathBuf,
    canonical: io::Result<PathBuf>,
    not_found: bool,
) -> (resolved: Result<PathBuf, WorldCreationError>)
    ensures
        match canonical {
            Ok(path) => resolved == Ok::<PathBuf, WorldCreationError>(path),
            Err(err) => resolved == Err::<PathBuf, WorldCreationError>(
                if not_found {
                    WorldCreationError::InputNotFound(given)
                } else {
                    WorldCreationError::Io(err)
                },
            ),
        },
{
    match canonical {
        Ok(path) => Ok(path),
        Err(err) => Err(WorldCreationError::for_input(given, err, not_found)),
    }
}

/// The root directory as resolved: its canonical path, or the error for it.
/// A root that does not exist is reported as "root not found", with the
/// directory searched; any other I/O error is reported as it is.
pub fn resolve_root(
    root: PathBuf,
    canonical: io::Result<PathBuf>,
    not_found: bool,
) -> (resolved: Result<PathBuf, WorldCreationError>)
    ensures
        match canonical {
            Ok(path) => resolved == Ok::<PathBuf, WorldCreationError>(path),
            Err(err) => resolved == Err::<PathBuf, WorldCreationError>(
                if not_found {
                    WorldCreationError::RootNotFound(root)
                } else {
                    WorldCreationError::Io(err)
                },
            ),
        },
{
    match canonical {
        Ok(path) => Ok(path),
        Err(err) => Err(WorldCreationError::for_root(root, err, not_found)),
    }
}

/// The main file's path inside the root, or the error for an input outside
/// it: "input malformed".
pub fn resolve_main(
    virtualized: Result<VirtualPath, VirtualizeError>,
) -> (resolved: Result<VirtualPath, WorldCreationError>)
    ensures
        match virtualized {
            Ok(vpath) => resolved == Ok::<VirtualPath, WorldCreationError>(vpath),
            Err(err) => resolved == Err::<VirtualPath, WorldCreationError>(
                WorldCreationError::InputMalformed(err),
            ),
        },
{
    match virtualized {
        Ok(vpath) => Ok(vpath),
        Err(err) => Err(WorldCreationError::from(err)),
    }
}

/// The directory whose files form the project of an input file: the file's
/// parent, or the current directory where it has none.
fn root_candidate(input: &PathBuf) -> &Path {
    match parent(input) {
        Some(dir) => dir,
        None => path_new("."),
    }
}

/// A world that provides access to the operating system.
pub struct SystemWorld {
    /// The id of the main source file.
    main: FileId,
    /// Typst's standard library.
    library: LazyHash<Library>,
    /// Discovered and lazily loaded fonts.
    fonts: FontStore,
    /// Source files and buffers, keyed by file id.
    files: FileStore<SystemFiles>,
    /// The current datetime, fixed within a single compilation.
    now: Time,
}

impl SystemWorld {
    /// The family of each font of the world, by index.
    pub closed spec fn font_families(&self) -> Seq<Seq<char>> {
        store_families(self.fonts)
    }

    /// The metadata that the world records for its font at an index.
    pub closed spec fn font_info(&self, index: int) -> FontInfo {
        store_info_at(self.fonts, index)
    }

    /// Which fonts of the world are held in memory, by index.
    pub closed spec fn fonts_in_memory(&self) -> Seq<bool> {
        store_in_memory(self.fonts)
    }

    /// The world's standard library.
    pub closed spec fn standard_library(&self) -> LazyHash<Library> {
        self.library
    }

    /// The id of the world's main file.
    pub closed spec fn main_file(&self) -> FileId {
        self.main
    }

    /// Create a new system world.
    pub fn new(
        input: &Path,
        font_paths: &[PathBuf],
        inputs: &[(String, String)],
        package_path: &Option<PathBuf>,
        package_cache_path: &Option<PathBuf>,
    ) -> (world: Result<Self, WorldCreationError>)
        ensures
            world matches Ok(w) ==> {
                &&& found_then_embedded(w.font_families(), w.fonts_in_memory())
                &&& font_paths@.len() == 0 ==> w.font_families() == embedded_families()
                &&& has_default_families(w.font_families())
                &&& w.standard_library() == library_with_inputs(
                    pairs_of_inputs(text_pairs(inputs@)),
                )
            },
    {
        // Resolve the input path.
        let canonical = canonicalize(input);
        let not_found = match &canonical {
            Ok(_) => false,
            Err(err) => is_not_found(err),
        };
        let input = resolve_input(to_path_buf(input), canonical, not_found)?;

        // Resolve the root directory (the input file's parent).
        let searched = root_candidate(&input);
        let canonical_root = canonicalize(searched);
        let not_found = match &canonical_root {
            Ok(_) => false,
            Err(err) => is_not_found(err),
        };
        let root = resolve_root(to_path_buf(searched), canonical_root, not_found)?;

        // Resolve the virtual path of the main file within the project root.
        let vpath = resolve_main(virtualize(&root, &input))?;
        let main = intern(in_project(vpath));

        // Build package storage honoring optional custom paths.
        let downloader = system_downloader(USER_AGENT);
        let data = data_packages(custom_packages(package_path));
        let cache = cache_packages(custom_packages(package_cache_path));
        let packages = system_packages(data, cache, universe_packages(downloader));

        let files = file_store(system_files(fs_root(root), packages));

        // Convert the input pairs to a dictionary.
        let inputs = inputs_dict(inputs);
        let library = standard_library(inputs);

        Ok(SystemWorld {
            main,
            library,
            fonts: discover_fonts(font_paths),
            files,
            now: system_time(),
        })
    }

    /// Typst's standard library, with the inputs of the world.
    pub fn library(&self) -> (library: &LazyHash<Library>)
        ensures
            *library == self.standard_library(),
    {
        &self.library
    }

    /// The metadata of the world's fonts: the family of each font, at the
    /// index at which `font` serves it.
    pub fn book(&self) -> (book: &LazyHash<FontBook>)
        ensures
            hashed_book_families(*book) == self.font_families(),
            forall|i: int|
                0 <= i < self.font_families().len() ==> #[trigger] hashed_book_info_at(*book, i)
                    == self.font_info(i),
    {
        store_hashed_book(&self.fonts)
    }

    /// The id of the main source file.
    pub fn main(&self) -> (main: FileId)
        ensures
            main == self.main_file(),
    {
        self.main
    }

    /// The source file with the given id.
    pub fn source(&self, id: FileId) -> FileResult<Source> {
        file_store_source(&self.files, id)
    }

    /// The raw data of the file with the given id.
    pub fn file(&self, id: FileId) -> FileResult<Bytes> {
        file_store_file(&self.files, id)
    }

    /// The font at the given index: there is none past the last font, and one
    /// held in memory (such as an embedded font) is always there.
    pub fn font(&self, index: usize) -> (font: Option<Font>)
        ensures
            index >= self.font_families().len() ==> font is None,
            index < self.font_families().len() && index < self.fonts_in_memory().len()
                && self.fonts_in_memory()[index as int] ==> font is Some,
    {
        store_font(&self.fonts, index)
    }

    /// The current date, in the time zone of the given offset from UTC or in
    /// the local one.
    pub fn today(&self, offset: Option<Duration>) -> Option<Datetime> {
        time_today(&self.now, offset)
    }
}

} // verus!

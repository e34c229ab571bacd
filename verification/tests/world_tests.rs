use std::io;
use std::path::{Path, PathBuf};

use ecow::EcoString;
use typst::foundations::IntoValue;
use typst::utils::LazyHash;
use typst::{Library, LibraryExt};
use typst::syntax::{PathError, VirtualPath, VirtualizeError};
use typwriter::error::{message_of, CreationErrorKind};
use typwriter::inputs::inputs_dict;
use typwriter::world::{resolve_input, resolve_main, resolve_root};
use typwriter::{SystemWorld, WorldCreationError};

fn pairs(items: &[(&str, &str)]) -> Vec<(String, String)> {
    items.iter().map(|(k, v)| (k.to_string(), v.to_string())).collect()
}

#[test]
fn inputs_dict_keeps_pairs_in_order() {
    let dict = inputs_dict(&pairs(&[("a", "1"), ("b", "2")]));
    let keys: Vec<String> = dict.iter().map(|(k, _)| k.to_string()).collect();
    assert_eq!(keys, vec!["a".to_string(), "b".to_string()]);
    assert_eq!(*dict.get("a").unwrap(), "1".into_value());
    assert_eq!(*dict.get("b").unwrap(), "2".into_value());
}

#[test]
fn inputs_dict_later_pair_overrides_earlier() {
    let dict = inputs_dict(&pairs(&[("a", "1"), ("b", "2"), ("a", "3")]));
    assert_eq!(dict.len(), 2);
    let keys: Vec<String> = dict.iter().map(|(k, _)| k.to_string()).collect();
    assert_eq!(keys, vec!["a".to_string(), "b".to_string()]);
    assert_eq!(*dict.get("a").unwrap(), "3".into_value());
}

#[test]
fn inputs_dict_of_nothing_is_empty() {
    let dict = inputs_dict(&[]);
    assert!(dict.is_empty());
}

fn io_error() -> io::Error {
    io::Error::new(io::ErrorKind::PermissionDenied, "denied")
}

fn virtualize_error() -> VirtualizeError {
    VirtualizeError::Path(PathError::Escapes)
}

#[test]
fn compose_message_input_not_found() {
    let err = WorldCreationError::InputNotFound(PathBuf::from("a.typ"));
    assert_eq!(err.compose_message("a.typ"), "input file not found (searched at a.typ)");
}

#[test]
fn compose_message_root_not_found() {
    let err = WorldCreationError::RootNotFound(PathBuf::from("x/a.typ"));
    assert_eq!(err.compose_message("x/a.typ"), "root directory not found (searched at x/a.typ)");
}

#[test]
fn compose_message_malformed_ignores_detail() {
    let err = WorldCreationError::InputMalformed(virtualize_error());
    assert_eq!(err.compose_message("anything"), "source file must be contained in project root");
}

#[test]
fn compose_message_io_is_detail() {
    let err = WorldCreationError::Io(io_error());
    assert_eq!(err.compose_message("denied"), "denied");
}

#[test]
fn message_shows_the_path() {
    let err = WorldCreationError::InputNotFound(PathBuf::from("missing/doc.typ"));
    assert_eq!(err.message(), "input file not found (searched at missing/doc.typ)");
    let err = WorldCreationError::RootNotFound(PathBuf::from("missing/doc.typ"));
    assert_eq!(err.message(), "root directory not found (searched at missing/doc.typ)");
}

#[test]
fn message_of_io_error_is_its_text() {
    let err = WorldCreationError::Io(io_error());
    assert_eq!(err.message(), "denied");
}

#[test]
fn message_of_malformed_input() {
    let err = WorldCreationError::InputMalformed(virtualize_error());
    assert_eq!(err.message(), "source file must be contained in project root");
}

#[test]
fn source_only_for_io_errors() {
    let err = WorldCreationError::Io(io_error());
    assert_eq!(err.source().map(|e| e.kind()), Some(io::ErrorKind::PermissionDenied));
    assert!(WorldCreationError::InputNotFound(PathBuf::from("a")).source().is_none());
    assert!(WorldCreationError::RootNotFound(PathBuf::from("a")).source().is_none());
    assert!(WorldCreationError::InputMalformed(virtualize_error()).source().is_none());
}

#[test]
fn from_virtualize_error_is_malformed_input() {
    let err = WorldCreationError::from(virtualize_error());
    assert!(matches!(err, WorldCreationError::InputMalformed(VirtualizeError::Path(PathError::Escapes))));
}

#[test]
fn eco_string_from_error_is_its_message() {
    let err = WorldCreationError::InputNotFound(PathBuf::from("doc.typ"));
    let text = EcoString::from(err);
    assert_eq!(text.as_str(), "input file not found (searched at doc.typ)");
}

#[test]
fn for_input_not_found() {
    let err = WorldCreationError::for_input(PathBuf::from("doc.typ"), io_error(), true);
    assert!(matches!(err, WorldCreationError::InputNotFound(p) if p == PathBuf::from("doc.typ")));
}

#[test]
fn for_input_other_io_error() {
    let err = WorldCreationError::for_input(PathBuf::from("doc.typ"), io_error(), false);
    assert!(matches!(err, WorldCreationError::Io(e) if e.kind() == io::ErrorKind::PermissionDenied));
}

#[test]
fn for_root_not_found() {
    let err = WorldCreationError::for_root(PathBuf::from("/x"), io_error(), true);
    assert!(matches!(err, WorldCreationError::RootNotFound(p) if p == PathBuf::from("/x")));
}

#[test]
fn for_root_other_io_error() {
    let err = WorldCreationError::for_root(PathBuf::from("/x"), io_error(), false);
    assert!(matches!(err, WorldCreationError::Io(_)));
}

#[test]
fn world_for_missing_input_is_input_not_found() {
    let input = Path::new("no-such-dir/no-such-file.typ");
    let result = SystemWorld::new(input, &[], &[], &None, &None);
    match result {
        Err(WorldCreationError::InputNotFound(path)) => assert_eq!(path, input.to_path_buf()),
        Err(other) => panic!("unexpected error: {}", other.message()),
        Ok(_) => panic!("a missing input was accepted"),
    }
}

#[test]
fn world_for_existing_input() {
    let world = SystemWorld::new(
        Path::new("/etc/passwd"),
        &[],
        &pairs(&[("mode", "draft")]),
        &Some(PathBuf::from("packages")),
        &None,
    );
    let world = match world {
        Ok(world) => world,
        Err(err) => panic!("unexpected error: {}", err.message()),
    };
    assert_eq!(world.main().get().vpath().get_with_slash(), "/passwd");
    assert!(world.font(usize::MAX).is_none());
    assert!(world.font(0).is_some());
    assert!(world.book().families().count() >= 4);
}

#[test]
fn world_for_empty_path_is_input_not_found() {
    let result = SystemWorld::new(Path::new(""), &[], &[], &None, &None);
    assert!(matches!(result, Err(WorldCreationError::InputNotFound(ref p)) if *p == PathBuf::from("")));
}

#[test]
fn world_for_path_with_nul_is_io_error() {
    let result = SystemWorld::new(Path::new("a\0b.typ"), &[], &[], &None, &None);
    assert!(matches!(result, Err(WorldCreationError::Io(ref e)) if e.kind() == io::ErrorKind::InvalidInput));
}

#[test]
fn world_embedded_fonts_always_load() {
    let world = match SystemWorld::new(Path::new("/etc/passwd"), &[], &[], &None, &None) {
        Ok(world) => world,
        Err(err) => panic!("unexpected error: {}", err.message()),
    };
    for index in 0..17 {
        assert!(world.font(index).is_some());
    }
    assert!(world.font(17).is_none());
}

#[test]
fn resolve_input_keeps_canonical_path() {
    let resolved = resolve_input(PathBuf::from("a.typ"), Ok(PathBuf::from("/x/a.typ")), false);
    assert!(matches!(resolved, Ok(p) if p == PathBuf::from("/x/a.typ")));
}

#[test]
fn resolve_input_not_found_keeps_given_path() {
    let resolved = resolve_input(PathBuf::from("a.typ"), Err(io_error()), true);
    assert!(matches!(resolved, Err(WorldCreationError::InputNotFound(p)) if p == PathBuf::from("a.typ")));
}

#[test]
fn resolve_input_other_error_is_io() {
    let resolved = resolve_input(PathBuf::from("a.typ"), Err(io_error()), false);
    assert!(matches!(resolved, Err(WorldCreationError::Io(e)) if e.kind() == io::ErrorKind::PermissionDenied));
}

#[test]
fn resolve_root_not_found_names_the_searched_directory() {
    let resolved = resolve_root(PathBuf::from("/x"), Err(io_error()), true);
    assert!(matches!(resolved, Err(WorldCreationError::RootNotFound(p)) if p == PathBuf::from("/x")));
    let resolved = resolve_root(PathBuf::from("x"), Ok(PathBuf::from("/w/x")), true);
    assert!(matches!(resolved, Ok(p) if p == PathBuf::from("/w/x")));
    let resolved = resolve_root(PathBuf::from("/x"), Err(io_error()), false);
    assert!(matches!(resolved, Err(WorldCreationError::Io(_))));
}

#[test]
fn resolve_main_error_is_malformed_input() {
    let resolved = resolve_main(Err(virtualize_error()));
    assert!(matches!(resolved, Err(WorldCreationError::InputMalformed(_))));
    let vpath = VirtualPath::virtualize(Path::new("/x"), Path::new("/x/a.typ")).unwrap();
    let resolved = resolve_main(Ok(vpath.clone()));
    assert!(matches!(resolved, Ok(v) if v == vpath));
}

#[test]
fn message_of_each_kind() {
    assert_eq!(message_of(CreationErrorKind::InputNotFound, "p"), "input file not found (searched at p)");
    assert_eq!(message_of(CreationErrorKind::RootNotFound, "p"), "root directory not found (searched at p)");
    assert_eq!(message_of(CreationErrorKind::InputMalformed, "p"), "source file must be contained in project root");
    assert_eq!(message_of(CreationErrorKind::Io, "p"), "p");
}

#[test]
fn kind_of_each_error() {
    assert_eq!(WorldCreationError::Io(io_error()).kind(), CreationErrorKind::Io);
    assert_eq!(WorldCreationError::InputNotFound(PathBuf::new()).kind(), CreationErrorKind::InputNotFound);
    assert_eq!(WorldCreationError::RootNotFound(PathBuf::new()).kind(), CreationErrorKind::RootNotFound);
    assert_eq!(WorldCreationError::InputMalformed(virtualize_error()).kind(), CreationErrorKind::InputMalformed);
}

#[test]
fn world_library_carries_the_inputs() {
    let inputs = pairs(&[("mode", "draft"), ("mode", "final")]);
    let world = match SystemWorld::new(Path::new("/etc/passwd"), &[], &inputs, &None, &None) {
        Ok(world) => world,
        Err(err) => panic!("unexpected error: {}", err.message()),
    };
    let with_inputs =
        LazyHash::new(Library::builder().with_inputs(inputs_dict(&pairs(&[("mode", "final")]))).build());
    let without = LazyHash::new(Library::builder().build());
    assert!(*world.library() == with_inputs);
    assert!(*world.library() != without);
}

#[test]
fn eco_string_of_malformed_input() {
    let err = WorldCreationError::InputMalformed(virtualize_error());
    assert_eq!(EcoString::from(err).as_str(), "source file must be contained in project root");
}

#[test]
fn world_book_matches_fonts() {
    let world = match SystemWorld::new(Path::new("/etc/passwd"), &[], &[], &None, &None) {
        Ok(world) => world,
        Err(err) => panic!("unexpected error: {}", err.message()),
    };
    for index in 0..17 {
        let font = world.font(index).unwrap();
        assert_eq!(world.book().info(index), Some(font.info()));
    }
    assert!(world.book().info(17).is_none());
}

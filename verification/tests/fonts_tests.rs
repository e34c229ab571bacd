use std::collections::HashSet;
use std::path::PathBuf;

use typwriter::fonts::book_families_with_infos;
use typwriter::{discover_fonts, list_fonts};

const DEFAULTS: [&str; 4] =
    ["Libertinus Serif", "New Computer Modern", "New Computer Modern Math", "DejaVu Sans Mono"];

#[test]
fn discovered_fonts_include_the_typst_defaults() {
    let store = discover_fonts(&[]);
    let families: Vec<String> =
        store.book().families().map(|(family, _)| family.to_string()).collect();
    for default in DEFAULTS {
        assert!(families.iter().any(|f| f == default), "missing {default}");
    }
}

#[test]
fn list_fonts_includes_the_typst_defaults() {
    let families = list_fonts(&[]);
    for default in DEFAULTS {
        assert!(families.iter().any(|(f, _)| f == default), "missing {default}");
    }
}

#[test]
fn list_fonts_names_are_distinct() {
    let families = list_fonts(&[]);
    let names: HashSet<&String> = families.iter().map(|(f, _)| f).collect();
    assert_eq!(names.len(), families.len());
}

#[test]
fn list_fonts_every_family_has_fonts_of_its_name() {
    for (family, infos) in list_fonts(&[]) {
        assert!(!infos.is_empty());
        for info in infos {
            assert_eq!(info.family.to_lowercase(), family.to_lowercase());
        }
    }
}

#[test]
fn list_fonts_are_ordered_by_lowercase_name() {
    let families = list_fonts(&[]);
    let keys: Vec<String> = families.iter().map(|(f, _)| f.to_lowercase()).collect();
    let mut sorted = keys.clone();
    sorted.sort();
    assert_eq!(keys, sorted);
}

#[test]
fn list_fonts_counts_every_font_once() {
    let store = discover_fonts(&[]);
    let families = book_families_with_infos(store.book());
    let total: usize = families.iter().map(|(_, infos)| infos.len()).sum();
    let mut count = 0;
    while store.book().info(count).is_some() {
        count += 1;
    }
    assert_eq!(total, count);
}

#[test]
fn list_fonts_with_missing_directory_still_has_defaults() {
    let families = list_fonts(&[PathBuf::from("no-such-font-directory")]);
    for default in DEFAULTS {
        assert!(families.iter().any(|(f, _)| f == default), "missing {default}");
    }
}

#[test]
fn new_computer_modern_has_several_styles() {
    let families = list_fonts(&[]);
    let (_, infos) = families.iter().find(|(f, _)| f == "New Computer Modern").unwrap();
    assert!(infos.len() >= 4);
}

const EMBEDDED: [&str; 17] = [
    "Libertinus Serif",
    "Libertinus Serif",
    "Libertinus Serif",
    "Libertinus Serif",
    "Libertinus Serif",
    "Libertinus Serif",
    "New Computer Modern Math",
    "New Computer Modern Math",
    "New Computer Modern Math",
    "New Computer Modern",
    "New Computer Modern",
    "New Computer Modern",
    "New Computer Modern",
    "DejaVu Sans Mono",
    "DejaVu Sans Mono",
    "DejaVu Sans Mono",
    "DejaVu Sans Mono",
];

fn store_families(store: &typst_kit::fonts::FontStore) -> Vec<String> {
    let mut families = Vec::new();
    let mut index = 0;
    while let Some(info) = store.book().info(index) {
        families.push(info.family.clone());
        index += 1;
    }
    families
}

#[test]
fn embedded_block_is_the_bundled_fonts_in_order() {
    assert_eq!(store_families(&discover_fonts(&[])), EMBEDDED.to_vec());
}

#[test]
fn missing_font_directory_adds_nothing() {
    let store = discover_fonts(&[PathBuf::from("no-such-font-directory")]);
    assert_eq!(store_families(&store), EMBEDDED.to_vec());
}

#[test]
fn embedded_fonts_always_load() {
    let store = discover_fonts(&[]);
    for index in 0..EMBEDDED.len() {
        assert!(store.font(index).is_some());
    }
    assert!(store.font(EMBEDDED.len()).is_none());
}

#[test]
fn listed_infos_are_the_book_infos_of_the_family() {
    let store = discover_fonts(&[]);
    let families = book_families_with_infos(store.book());
    let mut index = 0;
    while let Some(info) = store.book().info(index) {
        let key = info.family.to_lowercase();
        let (_, infos) = families.iter().find(|(f, _)| f.to_lowercase() == key).unwrap();
        assert!(infos.contains(info));
        index += 1;
    }
}

//! Font discovery: font directories first, then the fonts that Typst embeds.
use vstd::prelude::*;

use std::path::PathBuf;
use typst::text::{Font, FontBook, FontInfo};
use typst::utils::LazyHash;
use typst_kit::fonts::{embedded, scan, FontStore};

verus! {

/// Typst-kit's store of fonts, seen by Verus as an opaque collection.
#[verifier::external_type_specification]
#[verifier::external_body]
pub struct ExFontStore(FontStore);

/// The metadata of a collection of fonts, seen by Verus as an opaque
/// collection.
#[verifier::external_type_specification]
#[verifier::external_body]
pub struct ExFontBook(FontBook);

/// The metadata of one font, seen by Verus as an opaque value.
#[verifier::external_type_specification]
#[verifier::external_body]
pub struct ExFontInfo(FontInfo);

/// A loaded font, seen by Verus as an opaque value.
#[verifier::external_type_specification]
#[verifier::external_body]
pub struct ExFont(Font);

/// A value with a cached hash, seen by Verus as an opaque value.
#[verifier::external_type_specification]
#[verifier::external_body]
#[verifier::reject_recursive_types(T)]
pub struct ExLazyHash<T: ?Sized>(LazyHash<T>);

/// What a font store holds: the family name of each of its fonts, in the
/// order in which they were added (the order of their indices).
pub uninterp spec fn store_families(store: FontStore) -> Seq<Seq<char>>;

/// Which fonts of a store are held in memory (rather than loaded from a file
/// on first use), by index.
pub uninterp spec fn store_in_memory(store: FontStore) -> Seq<bool>;

/// The metadata that a font store records for its font at an index.
pub uninterp spec fn store_info_at(store: FontStore, index: int) -> FontInfo;

/// What a font book holds: the family name of the font at each index.
pub uninterp spec fn book_families(book: FontBook) -> Seq<Seq<char>>;

/// The metadata that a font book holds for the font at an index.
pub uninterp spec fn book_info_at(book: FontBook, index: int) -> FontInfo;

/// The metadata that the book inside a hashed book holds for the font at an
/// index.
pub uninterp spec fn hashed_book_info_at(book: LazyHash<FontBook>, index: int) -> FontInfo;

/// What the hashed book of a font store holds: the family name of the font
/// at each index.
pub uninterp spec fn hashed_book_families(book: LazyHash<FontBook>) -> Seq<Seq<char>>;

/// The lower-case form of a text, as `str::to_lowercase` computes it.
pub uninterp spec fn lowercase(text: Seq<char>) -> Seq<char>;

/// The families of the fonts that Typst embeds: its default text, math and
/// code fonts.
pub open spec fn default_families() -> Seq<Seq<char>> {
    seq![
        "Libertinus Serif"@,
        "New Computer Modern"@,
        "New Computer Modern Math"@,
        "DejaVu Sans Mono"@,
    ]
}

/// The families of the fonts that `fonts::embedded` yields, in its order:
/// one face per bundled font file.
pub open spec fn embedded_families() -> Seq<Seq<char>> {
    seq![
        "Libertinus Serif"@,
        "Libertinus Serif"@,
        "Libertinus Serif"@,
        "Libertinus Serif"@,
        "Libertinus Serif"@,
        "Libertinus Serif"@,
        "New Computer Modern Math"@,
        "New Computer Modern Math"@,
        "New Computer Modern Math"@,
        "New Computer Modern"@,
        "New Computer Modern"@,
        "New Computer Modern"@,
        "New Computer Modern"@,
        "DejaVu Sans Mono"@,
        "DejaVu Sans Mono"@,
        "DejaVu Sans Mono"@,
        "DejaVu Sans Mono"@,
    ]
}

/// `n` flags of the same value.
pub open spec fn flags(n: nat, value: bool) -> Seq<bool> {
    Seq::new(n, |i: int| value)
}

/// The number of fonts of a store that come before its embedded block.
pub open spec fn found_count(families: Seq<Seq<char>>) -> int {
    families.len() - embedded_families().len()
}

/// Whether the fonts of `old` keep their metadata in `new`.
pub open spec fn keeps_infos(old: FontStore, new: FontStore) -> bool {
    forall|i: int|
        0 <= i < store_families(old).len() ==> #[trigger] store_info_at(new, i) == store_info_at(
            old,
            i,
        )
}

/// Whether a store holds some fonts loaded from files on use, followed by the
/// embedded fonts, held in memory.
pub open spec fn found_then_embedded(families: Seq<Seq<char>>, in_memory: Seq<bool>) -> bool {
    &&& found_count(families) >= 0
    &&& families == families.subrange(0, found_count(families)) + embedded_families()
    &&& in_memory == flags(found_count(families) as nat, false) + flags(
        embedded_families().len(),
        true,
    )
}

/// Each default family occurs in the embedded block, wherever it stands.
pub proof fn lemma_embedded_has_defaults(found: Seq<Seq<char>>)
    ensures
        has_default_families(found + embedded_families()),
{
    let all = found + embedded_families();
    let n = found.len() as int;
    assert forall|f: int| 0 <= f < default_families().len() implies occurs_from(
        all,
        #[trigger] default_families()[f],
        0,
    ) by {
        if f == 0 {
            assert(all[n] == default_families()[f]);
        } else if f == 1 {
            assert(all[n + 9] == default_families()[f]);
        } else if f == 2 {
            assert(all[n + 6] == default_families()[f]);
        } else {
            assert(all[n + 13] == default_families()[f]);
        }
    }
}

/// Whether each default family occurs among `families`.
pub open spec fn has_default_families(families: Seq<Seq<char>>) -> bool {
    forall|f: int|
        0 <= f < default_families().len() ==> occurs_from(
            families,
            #[trigger] default_families()[f],
            0,
        )
}

/// Whether `prefix` is an initial part of `whole`.
pub open spec fn is_prefix(prefix: Seq<Seq<char>>, whole: Seq<Seq<char>>) -> bool {
    prefix.len() <= whole.len() && whole.subrange(0, prefix.len() as int) == prefix
}

/// Whether `family` occurs in `families` at an index of at least `from`.
pub open spec fn occurs_from(families: Seq<Seq<char>>, family: Seq<char>, from: int) -> bool {
    exists|i: int| from <= i < families.len() && #[trigger] families[i] == family
}

/// Order of texts by their characters, one after the other, as `String`'s
/// `Ord` compares them (byte order of UTF-8 is the order of the code points).
pub open spec fn text_less(a: Seq<char>, b: Seq<char>) -> bool
    decreases a.len(),
{
    if a.len() == 0 {
        b.len() > 0
    } else if b.len() == 0 {
        false
    } else if a[0] != b[0] {
        (a[0] as u32) < (b[0] as u32)
    } else {
        text_less(a.drop_first(), b.drop_first())
    }
}

/// No text comes before itself.
pub proof fn lemma_text_less_irreflexive(a: Seq<char>)
    ensures
        !text_less(a, a),
    decreases a.len(),
{
    if a.len() > 0 {
        lemma_text_less_irreflexive(a.drop_first());
    }
}

/// Whether no two families of a list share a name.
pub open spec fn names_distinct(sizes: Seq<(Seq<char>, nat)>) -> bool {
    forall|g: int, h: int|
        0 <= g < h < sizes.len() ==> #[trigger] sizes[g].0 != #[trigger] sizes[h].0
}

/// One family as a font book lists it: its name and the indices of its fonts.
pub type FamilyGroup = (Seq<char>, Seq<usize>);

/// Whether `groups` is a listing of the fonts of a book that holds
/// `families`: each group is named after the family of its first font and
/// lists its indices in increasing order; every index is listed.
pub open spec fn groups_cover(families: Seq<Seq<char>>, groups: Seq<FamilyGroup>) -> bool {
    &&& forall|g: int|
        #![trigger groups[g]]
        0 <= g < groups.len() ==> {
            let (name, ids) = groups[g];
            &&& ids.len() > 0
            &&& ids[0] < families.len()
            &&& name == families[ids[0] as int]
            &&& forall|k: int| 0 <= k < ids.len() ==> #[trigger] ids[k] < families.len()
            &&& forall|k: int, l: int| 0 <= k < l < ids.len() ==> #[trigger] ids[k] < #[trigger] ids[l]
        }
    &&& forall|i: int| 0 <= i < families.len() ==> #[trigger] index_listed(groups, i)
}

/// Whether some group lists the index `i`.
pub open spec fn index_listed(groups: Seq<FamilyGroup>, i: int) -> bool {
    exists|g: int, k: int|
        0 <= g < groups.len() && 0 <= k < groups[g].1.len() && #[trigger] groups[g].1[k] == i
}

/// Whether each group holds only fonts whose lower-cased family is that of
/// the group's name.
pub open spec fn groups_share_key(families: Seq<Seq<char>>, groups: Seq<FamilyGroup>) -> bool {
    forall|g: int, k: int|
        0 <= g < groups.len() && 0 <= k < groups[g].1.len() ==> lowercase(
            families[#[trigger] groups[g].1[k] as int],
        ) == lowercase(groups[g].0)
}

/// Whether the groups come in the order of their lower-cased names.
pub open spec fn groups_ordered(groups: Seq<FamilyGroup>) -> bool {
    forall|g: int, h: int|
        0 <= g < h < groups.len() ==> text_less(
            lowercase(#[trigger] groups[g].0),
            lowercase(#[trigger] groups[h].0),
        )
}

/// Whether `groups` is the family listing of a book that holds `families`:
/// the fonts are grouped by their lower-cased family name, the groups come in
/// the order of those names, each is named after the family of its first font
/// and lists its indices in increasing order, and every index is listed.
pub open spec fn lists_families(families: Seq<Seq<char>>, groups: Seq<FamilyGroup>) -> bool {
    &&& groups_cover(families, groups)
    &&& groups_share_key(families, groups)
    &&& groups_ordered(groups)
    &&& groups_ascii_keys(families, groups)
}

/// Whether every character of a text is ASCII.
pub open spec fn is_ascii_text(text: Seq<char>) -> bool {
    forall|i: int| 0 <= i < text.len() ==> (#[trigger] text[i] as u32) < 128
}

/// The text with its ASCII upper-case letters turned to lower case.
pub open spec fn ascii_lowercase(text: Seq<char>) -> Seq<char> {
    text.map_values(
        |c: char|
            if 65 <= (c as u32) <= 90 {
                ((c as u32) + 32) as char
            } else {
                c
            },
    )
}

/// Whether the lower-case forms of the ASCII names and families of a listing
/// are their ASCII lower-case forms.
pub open spec fn groups_ascii_keys(families: Seq<Seq<char>>, groups: Seq<FamilyGroup>) -> bool {
    &&& forall|g: int|
        0 <= g < groups.len() && is_ascii_text(#[trigger] groups[g].0) ==> lowercase(groups[g].0)
            == ascii_lowercase(groups[g].0)
    &&& forall|g: int, k: int|
        0 <= g < groups.len() && 0 <= k < groups[g].1.len() && is_ascii_text(
            families[#[trigger] groups[g].1[k] as int],
        ) ==> lowercase(families[groups[g].1[k] as int]) == ascii_lowercase(
            families[groups[g].1[k] as int],
        )
}

/// The family groups of a list as text: each name with its indices.
pub open spec fn group_view(groups: Seq<(String, Vec<usize>)>) -> Seq<FamilyGroup> {
    groups.map_values(|g: (String, Vec<usize>)| (g.0@, g.1@))
}

/// Each family of a list as its name and the number of its fonts.
pub open spec fn family_sizes(families: Seq<(String, Vec<FontInfo>)>) -> Seq<(Seq<char>, nat)> {
    families.map_values(|f: (String, Vec<FontInfo>)| (f.0@, f.1@.len()))
}

/// Whether a list of families follows a family listing of `book`: the same
/// families in the same order, each with the book's metadata of the fonts of
/// its group, in the group's order.
pub open spec fn follows_book(
    book: FontBook,
    families: Seq<(String, Vec<FontInfo>)>,
    groups: Seq<FamilyGroup>,
) -> bool {
    &&& follows_groups(family_sizes(families), groups)
    &&& forall|g: int, k: int|
        0 <= g < groups.len() && 0 <= k < groups[g].1.len() ==> #[trigger] families[g].1@[k]
            == book_info_at(book, groups[g].1[k] as int)
}

/// Whether a list of families (as names and sizes) follows a family listing:
/// the same families in the same order, each with as many fonts as its group.
pub open spec fn follows_groups(sizes: Seq<(Seq<char>, nat)>, groups: Seq<FamilyGroup>) -> bool {
    &&& sizes.len() == groups.len()
    &&& forall|g: int|
        0 <= g < groups.len() ==> #[trigger] sizes[g].0 == groups[g].0 && sizes[g].1
            == groups[g].1.len()
}

/// The families of a listing have pairwise different names: the listing is
/// ordered strictly by the lower-cased name, and equal names would have equal
/// lower-cased forms.
pub proof fn lemma_listed_names_distinct(families: Seq<Seq<char>>, groups: Seq<FamilyGroup>)
    requires
        lists_families(families, groups),
    ensures
        forall|g: int, h: int|
            0 <= g < h < groups.len() ==> #[trigger] groups[g].0 != #[trigger] groups[h].0,
{
    assert forall|g: int, h: int| 0 <= g < h < groups.len() implies #[trigger] groups[g].0
        != #[trigger] groups[h].0 by {
        if groups[g].0 == groups[h].0 {
            lemma_text_less_irreflexive(lowercase(groups[g].0));
            assert(text_less(lowercase(groups[g].0), lowercase(groups[h].0)));
        }
    }
}

/// Every font of a book is in exactly one family of a listing of it, at
/// exactly one place: no font is listed twice, none is left out.
pub proof fn lemma_listed_once(families: Seq<Seq<char>>, groups: Seq<FamilyGroup>)
    requires
        lists_families(families, groups),
    ensures
        forall|i: int| 0 <= i < families.len() ==> #[trigger] index_listed(groups, i),
        forall|g: int, k: int, h: int, l: int|
            0 <= g < groups.len() && 0 <= k < groups[g].1.len() && 0 <= h < groups.len() && 0
                <= l < groups[h].1.len() && #[trigger] groups[g].1[k] == #[trigger] groups[h].1[l]
                ==> g == h && k == l,
{
    assert forall|g: int, k: int, h: int, l: int|
        0 <= g < groups.len() && 0 <= k < groups[g].1.len() && 0 <= h < groups.len() && 0 <= l
            < groups[h].1.len() && #[trigger] groups[g].1[k] == #[trigger] groups[h].1[l] implies g
        == h && k == l by {
        let i = groups[g].1[k];
        assert(lowercase(families[i as int]) == lowercase(groups[g].0));
        assert(lowercase(families[groups[h].1[l] as int]) == lowercase(groups[h].0));
        if g != h {
            lemma_text_less_irreflexive(lowercase(groups[g].0));
            if g < h {
                assert(text_less(lowercase(groups[g].0), lowercase(groups[h].0)));
            } else {
                assert(text_less(lowercase(groups[h].0), lowercase(groups[g].0)));
            }
        } else if k < l {
            assert(groups[g].1[k] < groups[g].1[l]);
        } else if l < k {
            assert(groups[g].1[l] < groups[g].1[k]);
        }
    }
}

/// The index in `default_families` of the family of the embedded font at `i`.
pub open spec fn default_index(i: int) -> int {
    if i < 6 {
        0
    } else if i < 9 {
        2
    } else if i < 13 {
        1
    } else {
        3
    }
}

/// Whether each default family is the name of some listed family.
pub open spec fn names_defaults(sizes: Seq<(Seq<char>, nat)>) -> bool {
    forall|f: int| 0 <= f < default_families().len() ==> #[trigger] names_family(sizes, default_families()[f])
}

/// Whether some group of a listing has the given name.
pub open spec fn group_named(groups: Seq<FamilyGroup>, name: Seq<char>) -> bool {
    exists|g: int| 0 <= g < groups.len() && #[trigger] groups[g].0 == name
}

/// Whether some listed family has the given name.
pub open spec fn names_family(sizes: Seq<(Seq<char>, nat)>, name: Seq<char>) -> bool {
    exists|g: int| 0 <= g < sizes.len() && #[trigger] sizes[g].0 == name
}

/// The default family names are ASCII and differ in their lower-case forms.
proof fn lemma_default_names()
    ensures
        forall|a: int| 0 <= a < 4 ==> is_ascii_text(#[trigger] default_families()[a]),
        forall|a: int, b: int|
            0 <= a < 4 && 0 <= b < 4 && a != b ==> ascii_lowercase(
                #[trigger] default_families()[a],
            ) != ascii_lowercase(#[trigger] default_families()[b]),
{
    reveal_strlit("Libertinus Serif");
    reveal_strlit("New Computer Modern");
    reveal_strlit("New Computer Modern Math");
    reveal_strlit("DejaVu Sans Mono");
    let d = default_families();
    assert(d[0].len() == 16 && d[1].len() == 19 && d[2].len() == 24 && d[3].len() == 16);
    assert(d[0][0] == 'L' && d[3][0] == 'D');
    assert(ascii_lowercase(d[0])[0] == ((('L' as u32) + 32) as char));
    assert(ascii_lowercase(d[3])[0] == ((('D' as u32) + 32) as char));
    assert((((('L' as u32) + 32) as char) as u32) == 108);
    assert((((('D' as u32) + 32) as char) as u32) == 100);
    assert forall|a: int, b: int|
        0 <= a < 4 && 0 <= b < 4 && a != b implies ascii_lowercase(#[trigger] d[a])
        != ascii_lowercase(#[trigger] d[b]) by {
        assert(ascii_lowercase(d[a]).len() == d[a].len());
        assert(ascii_lowercase(d[b]).len() == d[b].len());
        if (a == 0 && b == 3) || (a == 3 && b == 0) {
            assert(ascii_lowercase(d[a])[0] != ascii_lowercase(d[b])[0]);
        }
    }
    assert forall|a: int| 0 <= a < 4 implies is_ascii_text(#[trigger] d[a]) by {
        assert forall|i: int| 0 <= i < d[a].len() implies (#[trigger] d[a][i] as u32) < 128 by {}
    }
}

/// Where the book holds exactly the embedded fonts, each default family is
/// listed under its own name.
pub proof fn lemma_defaults_named(groups: Seq<FamilyGroup>)
    requires
        lists_families(embedded_families(), groups),
    ensures
        forall|f: int|
            0 <= f < default_families().len() ==> #[trigger] group_named(
                groups,
                default_families()[f],
            ),
{
    let e = embedded_families();
    let d = default_families();
    lemma_default_names();
    assert forall|i: int| 0 <= i < 17 implies #[trigger] e[i] == d[default_index(i)] by {
        if i == 0 {
            assert(embedded_families()[0] == default_families()[default_index(0)]);
        } else if i == 1 {
            assert(embedded_families()[1] == default_families()[default_index(1)]);
        } else if i == 2 {
            assert(embedded_families()[2] == default_families()[default_index(2)]);
        } else if i == 3 {
            assert(embedded_families()[3] == default_families()[default_index(3)]);
        } else if i == 4 {
            assert(embedded_families()[4] == default_families()[default_index(4)]);
        } else if i == 5 {
            assert(embedded_families()[5] == default_families()[default_index(5)]);
        } else if i == 6 {
            assert(embedded_families()[6] == default_families()[default_index(6)]);
        } else if i == 7 {
            assert(embedded_families()[7] == default_families()[default_index(7)]);
        } else if i == 8 {
            assert(embedded_families()[8] == default_families()[default_index(8)]);
        } else if i == 9 {
            assert(embedded_families()[9] == default_families()[default_index(9)]);
        } else if i == 10 {
            assert(embedded_families()[10] == default_families()[default_index(10)]);
        } else if i == 11 {
            assert(embedded_families()[11] == default_families()[default_index(11)]);
        } else if i == 12 {
            assert(embedded_families()[12] == default_families()[default_index(12)]);
        } else if i == 13 {
            assert(embedded_families()[13] == default_families()[default_index(13)]);
        } else if i == 14 {
            assert(embedded_families()[14] == default_families()[default_index(14)]);
        } else if i == 15 {
            assert(embedded_families()[15] == default_families()[default_index(15)]);
        } else if i == 16 {
            assert(embedded_families()[16] == default_families()[default_index(16)]);
        }
    }
    assert forall|f: int| 0 <= f < d.len() implies #[trigger] group_named(groups, d[f]) by {
        let j: int = if f == 0 {
            0
        } else if f == 1 {
            9
        } else if f == 2 {
            6
        } else {
            13
        };
        assert(e[j] == d[f]);
        assert(index_listed(groups, j));
        let (g, k) = choose|g: int, k: int|
            0 <= g < groups.len() && 0 <= k < groups[g].1.len() && #[trigger] groups[g].1[k] == j;
        let first = groups[g].1[0] as int;
        assert(groups[g].0 == e[first]);
        assert(e[first] == d[default_index(first)]);
        assert(is_ascii_text(d[default_index(first)]));
        assert(lowercase(e[groups[g].1[k] as int]) == lowercase(groups[g].0));
        assert(lowercase(e[j]) == ascii_lowercase(e[j]));
        assert(lowercase(groups[g].0) == ascii_lowercase(groups[g].0));
        assert(default_index(first) == f);
        assert(groups[g].0 == d[f]);
    }
}

/// Whether the book's metadata for font `i` stands in the list at the place
/// of `i` in the listing.
pub open spec fn info_listed(
    book: FontBook,
    families: Seq<(String, Vec<FontInfo>)>,
    groups: Seq<FamilyGroup>,
    i: int,
) -> bool {
    exists|g: int, k: int|
        0 <= g < families.len() && g < groups.len() && 0 <= k < families[g].1@.len() && k
            < groups[g].1.len() && #[trigger] groups[g].1[k] == i && families[g].1@[k]
            == book_info_at(book, i)
}

/// Every font of a book appears in a list that follows a listing of it with
/// the book's metadata for that font, at exactly one place in the list: no
/// font is dropped or repeated.
pub proof fn lemma_infos_listed_once(
    book: FontBook,
    families: Seq<(String, Vec<FontInfo>)>,
    groups: Seq<FamilyGroup>,
)
    requires
        lists_families(book_families(book), groups),
        follows_book(book, families, groups),
    ensures
        forall|i: int|
            0 <= i < book_families(book).len() ==> #[trigger] info_listed(book, families, groups, i),
        forall|g: int, k: int, h: int, l: int|
            0 <= g < groups.len() && 0 <= k < groups[g].1.len() && 0 <= h < groups.len() && 0
                <= l < groups[h].1.len() && #[trigger] groups[g].1[k] == #[trigger] groups[h].1[l]
                ==> g == h && k == l,
{
    lemma_listed_once(book_families(book), groups);
    assert forall|i: int| 0 <= i < book_families(book).len() implies #[trigger] info_listed(
        book,
        families,
        groups,
        i,
    ) by {
        assert(index_listed(groups, i));
        let (g, k) = choose|g: int, k: int|
            0 <= g < groups.len() && 0 <= k < groups[g].1.len() && #[trigger] groups[g].1[k] == i;
        let sizes = family_sizes(families);
        assert(sizes.len() == families.len());
        assert(sizes[g].0 == groups[g].0 && sizes[g].1 == groups[g].1.len());
        assert(sizes[g].1 == families[g].1@.len());
        assert(families[g].1@[k] == book_info_at(book, groups[g].1[k] as int));
    }
}

/// Calls `FontStore::new`: the new store holds no font.
#[verifier::external_body]
fn new_store() -> (store: FontStore)
    ensures
        store_families(store) == Seq::<Seq<char>>::empty(),
        store_in_memory(store) == Seq::<bool>::empty(),
{
    FontStore::new()
}

/// Calls `FontStore::extend` with what `fonts::scan` finds in the directory.
/// Which fonts it finds depends on the disk; the claim is what `extend` does
/// whatever they are: it appends, so the fonts already there keep their
/// places, and each appended font is a path to load from on use.
#[verifier::external_body]
fn add_scanned(store: &mut FontStore, dir: &PathBuf)
    requires
        store_in_memory(*old(store)).len() == store_families(*old(store)).len(),
    ensures
        is_prefix(store_families(*old(store)), store_families(*final(store))),
        store_in_memory(*final(store)) == store_in_memory(*old(store)) + flags(
            (store_families(*final(store)).len() - store_families(*old(store)).len()) as nat,
            false,
        ),
        forall|i: int|
            0 <= i < store_families(*old(store)).len() ==> #[trigger] store_info_at(
                *final(store),
                i,
            ) == store_info_at(*old(store), i),
{
    store.extend(scan(dir));
}

/// Calls `FontStore::extend` with `fonts::embedded()`, the fonts compiled into
/// the binary. Claims that it appends one font per bundled font file of
/// typst-assets, with the families those files carry, each held in memory.
#[verifier::external_body]
fn add_embedded_fonts(store: &mut FontStore)
    ensures
        store_families(*final(store)) == store_families(*old(store)) + embedded_families(),
        store_in_memory(*final(store)) == store_in_memory(*old(store)) + flags(
            embedded_families().len(),
            true,
        ),
        forall|i: int|
            0 <= i < store_families(*old(store)).len() ==> #[trigger] store_info_at(
                *final(store),
                i,
            ) == store_info_at(*old(store), i),
{
    store.extend(embedded());
}

/// Calls `FontStore::book`: the store's book records the family of each of
/// its fonts, at the font's index.
#[verifier::external_body]
fn store_book(store: &FontStore) -> (book: &FontBook)
    ensures
        book_families(*book) == store_families(*store),
        forall|i: int|
            0 <= i < store_families(*store).len() ==> #[trigger] book_info_at(*book, i)
                == store_info_at(*store, i),
{
    store.book()
}

/// Calls `FontStore::book` and hands out the hashed book itself: it records
/// the family of each font of the store, at the font's index.
#[verifier::external_body]
pub(crate) fn store_hashed_book(store: &FontStore) -> (book: &LazyHash<FontBook>)
    ensures
        hashed_book_families(*book) == store_families(*store),
        forall|i: int|
            0 <= i < store_families(*store).len() ==> #[trigger] hashed_book_info_at(*book, i)
                == store_info_at(*store, i),
{
    store.book()
}

/// Calls `FontStore::font`: there is no font past the last index; a font held
/// in memory is always there. For a font loaded from a file, whether it loads
/// depends on the disk.
#[verifier::external_body]
pub(crate) fn store_font(store: &FontStore, index: usize) -> (font: Option<Font>)
    ensures
        index >= store_families(*store).len() ==> font is None,
        index < store_families(*store).len() && index < store_in_memory(*store).len()
            && store_in_memory(*store)[index as int] ==> font is Some,
{
    store.font(index)
}

/// Calls `FontBook::families` and collects each family's name and indices.
/// Claims what the book's source shows: fonts grouped in a map keyed by the
/// lower-cased family name, walked in key order, each group named after its
/// first font and listing indices in the order they were pushed. Of the
/// lower-casing (`str::to_lowercase`) it claims that on ASCII text it lowers
/// exactly the ASCII letters.
#[verifier::external_body]
fn book_family_groups(book: &FontBook) -> (groups: Vec<(String, Vec<usize>)>)
    ensures
        groups_cover(book_families(*book), group_view(groups@)),
        forall|g: int, k: int|
            0 <= g < groups@.len() && 0 <= k < groups@[g].1@.len() ==> lowercase(
                book_families(*book)[#[trigger] groups@[g].1@[k] as int],
            ) == lowercase(groups@[g].0@),
        forall|g: int, h: int|
            0 <= g < h < groups@.len() ==> text_less(
                lowercase(#[trigger] groups@[g].0@),
                lowercase(#[trigger] groups@[h].0@),
            ),
        forall|g: int|
            0 <= g < groups@.len() && is_ascii_text(#[trigger] groups@[g].0@) ==> lowercase(
                groups@[g].0@,
            ) == ascii_lowercase(groups@[g].0@),
        forall|g: int, k: int|
            0 <= g < groups@.len() && 0 <= k < groups@[g].1@.len() && is_ascii_text(
                book_families(*book)[#[trigger] groups@[g].1@[k] as int],
            ) ==> lowercase(book_families(*book)[groups@[g].1@[k] as int]) == ascii_lowercase(
                book_families(*book)[groups@[g].1@[k] as int],
            ),
{
    book.families().map(|(family, ids)| (family.to_string(), ids.collect())).collect()
}

/// Calls `FontBook::info` and clones the info: the book's info for each of
/// its indices, none past them.
#[verifier::external_body]
fn book_info(book: &FontBook, index: usize) -> (info: Option<FontInfo>)
    ensures
        index < book_families(*book).len() ==> info == Some(book_info_at(*book, index as int)),
        index >= book_families(*book).len() ==> info is None,
{
    book.info(index).cloned()
}

/// Discovers fonts: font directories first, then the embedded typst defaults.
///
/// System fonts are intentionally never searched, to keep output reproducible.
/// All extra fonts must be supplied explicitly via `font_paths`.
pub fn discover_fonts(font_paths: &[PathBuf]) -> (store: FontStore)
    ensures
        found_then_embedded(store_families(store), store_in_memory(store)),
        font_paths@.len() == 0 ==> store_families(store) == embedded_families(),
        has_default_families(store_families(store)),
{
    let mut store = new_store();
    let n = font_paths.len();
    let mut i: usize = 0;
    while i < n
        invariant
            n == font_paths@.len(),
            i <= n,
            store_in_memory(store) == flags(store_families(store).len(), false),
            i == 0 ==> store_families(store) == Seq::<Seq<char>>::empty(),
        decreases n - i,
    {
        add_scanned(&mut store, &font_paths[i]);
        assert(store_in_memory(store) =~= flags(store_families(store).len(), false));
        i = i + 1;
    }
    let ghost found = store_families(store);
    add_embedded(&mut store);
    proof {
        assert(found_count(store_families(store)) == found.len());
        assert(store_families(store).subrange(0, found.len() as int) =~= found);
        lemma_embedded_has_defaults(found);
        if n == 0 {
            assert(store_families(store) =~= embedded_families());
        }
    }
    store
}

/// Adds the fonts that are embedded in the binary, after the fonts the store
/// already holds: the Typst defaults, held in memory.
fn add_embedded(store: &mut FontStore)
    ensures
        store_families(*final(store)) == store_families(*old(store)) + embedded_families(),
        store_in_memory(*final(store)) == store_in_memory(*old(store)) + flags(
            embedded_families().len(),
            true,
        ),
        keeps_infos(*old(store), *final(store)),
{
    add_embedded_fonts(store);
}

/// The families of a font book, each with the metadata of its fonts, in the
/// book's family order.
pub fn book_families_with_infos(book: &FontBook) -> (families: Vec<(String, Vec<FontInfo>)>)
    ensures
        exists|groups: Seq<FamilyGroup>|
            #[trigger] lists_families(book_families(*book), groups) && follows_book(
                *book,
                families@,
                groups,
            ),
{
    let groups = book_family_groups(book);
    let ghost gv = group_view(groups@);
    assert(lists_families(book_families(*book), gv)) by {
        assert forall|g: int, k: int|
            0 <= g < gv.len() && 0 <= k < gv[g].1.len() implies lowercase(
                book_families(*book)[#[trigger] gv[g].1[k] as int],
            ) == lowercase(gv[g].0) by {
            assert(gv[g].1[k] == groups@[g].1@[k]);
        }
        assert forall|g: int, h: int| 0 <= g < h < gv.len() implies text_less(
            lowercase(#[trigger] gv[g].0),
            lowercase(#[trigger] gv[h].0),
        ) by {
            assert(gv[g].0 == groups@[g].0@);
            assert(gv[h].0 == groups@[h].0@);
        }
        assert forall|g: int|
            0 <= g < gv.len() && is_ascii_text(#[trigger] gv[g].0) implies lowercase(gv[g].0)
            == ascii_lowercase(gv[g].0) by {
            assert(gv[g].0 == groups@[g].0@);
        }
        assert forall|g: int, k: int|
            0 <= g < gv.len() && 0 <= k < gv[g].1.len() && is_ascii_text(
                book_families(*book)[#[trigger] gv[g].1[k] as int],
            ) implies lowercase(book_families(*book)[gv[g].1[k] as int]) == ascii_lowercase(
            book_families(*book)[gv[g].1[k] as int],
        ) by {
            assert(gv[g].1[k] == groups@[g].1@[k]);
        }
    }
    let mut families: Vec<(String, Vec<FontInfo>)> = Vec::new();
    let m = groups.len();
    let mut g: usize = 0;
    while g < m
        invariant
            m == groups@.len(),
            g <= m,
            gv == group_view(groups@),
            lists_families(book_families(*book), gv),
            families@.len() == g,
            forall|h: int|
                0 <= h < g ==> #[trigger] families@[h].0@ == gv[h].0 && families@[h].1@.len()
                    == gv[h].1.len(),
            forall|h: int, k: int|
                0 <= h < g && 0 <= k < gv[h].1.len() ==> #[trigger] families@[h].1@[k]
                    == book_info_at(*book, gv[h].1[k] as int),
        decreases m - g,
    {
        let (name, ids) = &groups[g];
        assert(gv[g as int] == (name@, ids@));
        let mut infos: Vec<FontInfo> = Vec::new();
        let k_len = ids.len();
        let mut k: usize = 0;
        while k < k_len
            invariant
                k_len == ids@.len(),
                k <= k_len,
                infos@.len() == k,
                gv[g as int] == (name@, ids@),
                0 <= g < gv.len(),
                lists_families(book_families(*book), gv),
                forall|l: int|
                    0 <= l < k ==> #[trigger] infos@[l] == book_info_at(*book, ids@[l] as int),
            decreases k_len - k,
        {
            assert(ids@[k as int] < book_families(*book).len());
            match book_info(book, ids[k]) {
                Some(info) => infos.push(info),
                None => {},
            }
            k = k + 1;
        }
        families.push((name.clone(), infos));
        proof {
            assert forall|h: int, k: int|
                0 <= h < g + 1 && 0 <= k < gv[h].1.len() implies #[trigger] families@[h].1@[k]
                == book_info_at(*book, gv[h].1[k] as int) by {
                if h == g {
                    assert(families@[h].1@ == infos@);
                }
            }
        }
        g = g + 1;
    }
    assert(follows_book(*book, families@, gv));
    families
}

/// Lists all fonts available for the library: each family name with the
/// metadata of its fonts.
///
/// - The typst defaults are always embedded.
/// - The crate won't search system fonts to ensure the reproducibility. All
///   fonts needed should be explicitly added via `font_paths`.
pub fn list_fonts(font_paths: &[PathBuf]) -> (families: Vec<(String, Vec<FontInfo>)>)
    ensures
        exists|book: FontBook, groups: Seq<FamilyGroup>|
            {
                &&& #[trigger] lists_families(book_families(book), groups)
                &&& found_count(book_families(book)) >= 0
                &&& book_families(book) == book_families(book).subrange(
                    0,
                    found_count(book_families(book)),
                ) + embedded_families()
                &&& font_paths@.len() == 0 ==> book_families(book) == embedded_families()
                &&& has_default_families(book_families(book))
                &&& follows_book(book, families@, groups)
            },
        names_distinct(family_sizes(families@)),
        font_paths@.len() == 0 ==> names_defaults(family_sizes(families@)),
{
    let store = discover_fonts(font_paths);
    let book = store_book(&store);
    let families = book_families_with_infos(book);
    proof {
        let groups = choose|groups: Seq<FamilyGroup>|
            #[trigger] lists_families(book_families(*book), groups) && follows_book(
                *book,
                families@,
                groups,
            );
        lemma_listed_names_distinct(book_families(*book), groups);
        let sizes = family_sizes(families@);
        assert forall|g: int, h: int| 0 <= g < h < sizes.len() implies #[trigger] sizes[g].0
            != #[trigger] sizes[h].0 by {
            assert(sizes[g].0 == groups[g].0);
            assert(sizes[h].0 == groups[h].0);
        }
        assert(lists_families(book_families(*book), groups) && follows_book(*book, families@, groups));
        if font_paths@.len() == 0 {
            lemma_defaults_named(groups);
            assert forall|f: int| 0 <= f < default_families().len() implies #[trigger] names_family(
                sizes,
                default_families()[f],
            ) by {
                assert(group_named(groups, default_families()[f]));
                let g = choose|g: int| 0 <= g < groups.len() && #[trigger] groups[g].0 == default_families()[f];
                assert(sizes[g].0 == groups[g].0);
            }
        }
    }
    families
}

} // verus!

//! The column index: from the texts of a header row to the map that takes a
//! column name to its offset in that row.

use vstd::hash_map::StringHashMap;
use vstd::prelude::*;

verus! {

/// `position` is where `name` occurs last in `names`.
pub open spec fn is_last_occurrence(names: Seq<Seq<char>>, name: Seq<char>, position: int) -> bool {
    &&& 0 <= position < names.len()
    &&& names[position] == name
    &&& forall|later: int| position < later < names.len() ==> names[later] != name
}

/// The position at which `name` occurs last in `names`.
pub open spec fn last_occurrence(names: Seq<Seq<char>>, name: Seq<char>) -> int {
    choose|position: int| is_last_occurrence(names, name, position)
}

/// The column index of a header row: every name of the row, mapped to the
/// offset of its last occurrence.
pub open spec fn column_index(names: Seq<Seq<char>>) -> Map<Seq<char>, u32> {
    Map::new(
        |name: Seq<char>| names.contains(name),
        |name: Seq<char>| last_occurrence(names, name) as u32,
    )
}

/// The texts of a vector of strings.
pub open spec fn texts_of(names: Seq<String>) -> Seq<Seq<char>> {
    names.map_values(|name: String| name@)
}

/// A name that occurs in a row has a last occurrence there.
pub proof fn lemma_last_occurrence_exists(names: Seq<Seq<char>>, name: Seq<char>)
    requires
        names.contains(name),
    ensures
        is_last_occurrence(names, name, last_occurrence(names, name)),
    decreases names.len(),
{
    if names.last() == name {
        assert(is_last_occurrence(names, name, names.len() - 1));
    } else {
        let shorter = names.drop_last();
        let seen = choose|i: int| 0 <= i < names.len() && names[i] == name;
        assert(shorter[seen] == name);
        lemma_last_occurrence_exists(shorter, name);
        let position = last_occurrence(shorter, name);
        assert forall|later: int| position < later < names.len() implies names[later] != name by {
            if later < shorter.len() {
                assert(shorter[later] == names[later]);
            }
        }
        assert(is_last_occurrence(names, name, position));
    }
}

/// A name has no more than one last occurrence.
pub proof fn lemma_last_occurrence_unique(names: Seq<Seq<char>>, name: Seq<char>, position: int)
    requires
        is_last_occurrence(names, name, position),
    ensures
        last_occurrence(names, name) == position,
{
}

/// Where a header row names a column twice, the later column wins: a name
/// maps to an offset exactly when no later column carries the same name.
pub proof fn lemma_later_column_wins(names: Seq<Seq<char>>, offset: int)
    requires
        0 <= offset < names.len() <= 0x1_0000_0000,
    ensures
        column_index(names).contains_key(names[offset]),
        column_index(names)[names[offset]] == offset <==> forall|later: int|
            offset < later < names.len() ==> names[later] != names[offset],
{
    let name = names[offset];
    lemma_last_occurrence_exists(names, name);
    if forall|later: int| offset < later < names.len() ==> names[later] != name {
        lemma_last_occurrence_unique(names, name, offset);
    }
}

/// The column index has one entry for each distinct name of the row, and
/// each entry leads back to a column of that name.
pub proof fn lemma_column_index_entries(names: Seq<Seq<char>>, name: Seq<char>)
    requires
        names.len() <= 0x1_0000_0000,
    ensures
        column_index(names).contains_key(name) <==> names.contains(name),
        column_index(names).contains_key(name) ==> {
            &&& 0 <= column_index(names)[name] < names.len()
            &&& names[column_index(names)[name] as int] == name
        },
{
    if names.contains(name) {
        lemma_last_occurrence_exists(names, name);
    }
}

/// Adding a column to a header row adds its name to the index, or moves the
/// name to the new column.
pub proof fn lemma_column_index_push(names: Seq<Seq<char>>, name: Seq<char>)
    requires
        names.len() < 0x1_0000_0000,
    ensures
        column_index(names.push(name)) == column_index(names).insert(name, names.len() as u32),
{
    let longer = names.push(name);
    let left = column_index(longer);
    let right = column_index(names).insert(name, names.len() as u32);
    assert forall|key: Seq<char>| left.contains_key(key) <==> right.contains_key(key) by {
        if names.contains(key) {
            let seen = choose|i: int| 0 <= i < names.len() && names[i] == key;
            assert(longer[seen] == key);
        }
        assert(longer[names.len() as int] == name);
    }
    assert forall|key: Seq<char>| left.contains_key(key) implies left[key] == right[key] by {
        if key == name {
            lemma_last_occurrence_unique(longer, name, names.len() as int);
        } else {
            lemma_last_occurrence_exists(names, key);
            let position = last_occurrence(names, key);
            lemma_last_occurrence_unique(longer, key, position);
        }
    }
}

/// Builds the column index of a header row.
pub fn index_columns(names: &Vec<String>) -> (header: StringHashMap<u32>)
    requires
        names.len() <= 0x1_0000_0000,
    ensures
        header@ == column_index(texts_of(names@)),
{
    let mut header: StringHashMap<u32> = StringHashMap::new();
    let mut offset: usize = 0;
    while offset < names.len()
        invariant
            offset <= names.len() <= 0x1_0000_0000,
            header@ == column_index(texts_of(names@).take(offset as int)),
        decreases names.len() - offset,
    {
        proof {
            let texts = texts_of(names@);
            lemma_column_index_push(texts.take(offset as int), texts[offset as int]);
            assert(texts.take(offset as int).push(texts[offset as int]) =~= texts.take(
                offset as int + 1,
            ));
        }
        header.insert(names[offset].clone(), offset as u32);
        offset += 1;
    }
    assert(texts_of(names@).take(names.len() as int) =~= texts_of(names@));
    header
}

} // verus!

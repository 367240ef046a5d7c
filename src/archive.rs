use vstd::prelude::*;
use vstd::string::*;

verus! {

/// The final component of a path, as `std::path::Path::file_name` reads it.
pub uninterp spec fn file_name_of(path: Seq<char>) -> Option<Seq<char>>;

/// Relies on `std::path::Path::file_name`: the last component of an entry's
/// path, none when the path ends in `..` or has no component. A name read
/// from a `&str` is valid UTF-8, so the conversion back to text keeps it.
#[verifier::external_body]
fn entry_file_name(path: &str) -> (r: Option<String>)
    ensures
        match (r, file_name_of(path@)) {
            (Some(s), Some(t)) => s@ == t,
            (None, None) => true,
            _ => false,
        },
{
    std::path::Path::new(path).file_name().and_then(|n| n.to_str()).map(|n| n.to_string())
}

pub open spec fn opt_text(b: Option<String>) -> Option<Seq<char>> {
    match b {
        Some(s) => Some(s@),
        None => None,
    }
}

pub open spec fn base_texts(v: Seq<Option<String>>) -> Seq<Option<Seq<char>>> {
    v.map_values(|b: Option<String>| opt_text(b))
}

/// The base name of an entry, empty when the path has none.
pub open spec fn base_name(file_name: Option<Seq<char>>) -> Seq<char> {
    match file_name {
        Some(t) => t,
        None => Seq::empty(),
    }
}

/// Index of the first entry, among base names already read, whose base name is
/// `target`.
pub open spec fn first_match(base_names: Seq<Option<Seq<char>>>, target: Seq<char>) -> Option<int> {
    if exists|i: int| 0 <= i < base_names.len() && base_name(base_names[i]) == target {
        Some(
            choose|i: int|
                0 <= i < base_names.len() && base_name(base_names[i]) == target && forall|j: int|
                    0 <= j < i ==> base_name(#[trigger] base_names[j]) != target,
        )
    } else {
        None
    }
}

/// The message of a failed extraction.
pub open spec fn not_found_message(target: Seq<char>) -> Seq<char> {
    target + " not found in archive"@
}

/// The entry to extract: the first one whose base name is `target`.
pub fn find_base_name(base_names: &Vec<Option<String>>, target: &str) -> (r: Option<usize>)
    ensures
        match r {
            Some(i) => first_match(base_texts(base_names@), target@) == Some(i as int),
            None => first_match(base_texts(base_names@), target@) is None,
        },
{
    let ghost names = base_texts(base_names@);
    let target_text = String::from_str(target);
    let empty = String::new();
    let mut i: usize = 0;
    while i < base_names.len()
        invariant
            i <= base_names.len(),
            names == base_texts(base_names@),
            target_text@ == target@,
            empty@ == Seq::<char>::empty(),
            forall|j: int| 0 <= j < i ==> base_name(#[trigger] names[j]) != target@,
        decreases base_names.len() - i,
    {
        let hit = match &base_names[i] {
            Some(s) => *s == target_text,
            None => empty == target_text,
        };
        assert(names[i as int] == opt_text(base_names@[i as int]));
        if hit {
            assert(base_name(names[i as int]) == target@);
            let ghost k = choose|k: int|
                0 <= k < names.len() && base_name(names[k]) == target@ && forall|j: int|
                    0 <= j < k ==> base_name(#[trigger] names[j]) != target@;
            assert(k == i) by {
                if k < i {
                } else if k > i {
                    assert(base_name(names[i as int]) != target@);
                }
            }
            return Some(i);
        }
        i = i + 1;
    }
    None
}

/// Chooses the entry of an archive to extract, given the entries' paths: the
/// first whose base name is `target`, or an error that names `target`.
pub fn select_member(entry_names: &Vec<String>, target: &str) -> (r: Result<usize, String>)
    ensures
        match r {
            Ok(i) => first_match(
                entry_names@.map_values(|n: String| file_name_of(n@)),
                target@,
            ) == Some(i as int),
            Err(m) => first_match(
                entry_names@.map_values(|n: String| file_name_of(n@)),
                target@,
            ) is None && m@ == not_found_message(target@),
        },
{
    let mut base_names: Vec<Option<String>> = Vec::new();
    let mut i: usize = 0;
    while i < entry_names.len()
        invariant
            i <= entry_names.len(),
            base_names.len() == i,
            forall|j: int|
                0 <= j < i ==> opt_text(#[trigger] base_names@[j]) == file_name_of(
                    entry_names@[j]@,
                ),
        decreases entry_names.len() - i,
    {
        let b = entry_file_name(entry_names[i].as_str());
        base_names.push(b);
        i = i + 1;
    }
    assert(base_texts(base_names@)
        =~= entry_names@.map_values(|n: String| file_name_of(n@)));
    match find_base_name(&base_names, target) {
        Some(k) => Ok(k),
        None => {
            let mut m = String::from_str(target);
            m.append(" not found in archive");
            Err(m)
        },
    }
}

} // verus!

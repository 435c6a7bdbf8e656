//! Picking the Sony RAW files out of a folder listing.
use vstd::prelude::*;

verus! {

/// The index of the last occurrence of `c` in `s`, if any.
pub open spec fn last_index_of(s: Seq<char>, c: char) -> Option<int>
    decreases s.len(),
{
    if s.len() == 0 {
        None
    } else if s.last() == c {
        Some(s.len() - 1)
    } else {
        last_index_of(s.drop_last(), c)
    }
}

/// The extension of a file name, as a path library defines it: the text after
/// the last `.`, where a name without a dot, a name whose only dot leads it,
/// and the name `..` have no extension.
pub open spec fn file_extension(name: Seq<char>) -> Option<Seq<char>> {
    if name =~= seq!['.', '.'] {
        None
    } else {
        match last_index_of(name, '.') {
            Some(i) => if i > 0 {
                Some(name.subrange(i + 1, name.len() as int))
            } else {
                None
            },
            None => None,
        }
    }
}

/// `c` lower-cases to the ASCII letter `lower`.
pub open spec fn lowercases_to(c: char, lower: char) -> bool {
    c == lower || c as u32 + 32 == lower as u32
}

/// The extension reads `arw` in any mix of upper and lower case. Only `A`,
/// `R` and `W` lower-case to `a`, `r` and `w`, so this is the extension
/// lower-cased being `arw`.
pub open spec fn is_arw_extension(ext: Seq<char>) -> bool {
    &&& ext.len() == 3
    &&& lowercases_to(ext[0], 'a')
    &&& lowercases_to(ext[1], 'r')
    &&& lowercases_to(ext[2], 'w')
}

/// The file name carries the Sony RAW extension.
pub open spec fn names_arw_file(name: Seq<char>) -> bool {
    match file_extension(name) {
        Some(ext) => is_arw_extension(ext),
        None => false,
    }
}

proof fn lemma_last_dot_before_letters(name: Seq<char>)
    requires
        name.len() >= 4,
        name[name.len() - 4] == '.',
        name[name.len() - 3] != '.',
        name[name.len() - 2] != '.',
        name[name.len() - 1] != '.',
    ensures
        last_index_of(name, '.') == Some(name.len() - 4),
{
    let n = name.len();
    reveal_with_fuel(last_index_of, 4);
    assert(name.drop_last().last() == name[n - 2]);
    assert(name.drop_last().drop_last().last() == name[n - 3]);
    assert(name.drop_last().drop_last().drop_last().last() == name[n - 4]);
}

proof fn lemma_no_arw_when_last_letters_differ(name: Seq<char>)
    requires
        !(name.len() >= 5 && name[name.len() - 4] == '.' && lowercases_to(name[name.len() - 3], 'a')
            && lowercases_to(name[name.len() - 2], 'r') && lowercases_to(name[name.len() - 1], 'w')),
    ensures
        !names_arw_file(name),
{
    if names_arw_file(name) {
        let i = last_index_of(name, '.').unwrap();
        lemma_last_index_of_bounds(name, '.');
        let ext = name.subrange(i + 1, name.len() as int);
        assert(ext.len() == 3);
        assert(i == name.len() - 4);
        assert(ext[0] == name[name.len() - 3]);
        assert(ext[1] == name[name.len() - 2]);
        assert(ext[2] == name[name.len() - 1]);
    }
}

/// The last occurrence lies in the text and holds the character.
pub proof fn lemma_last_index_of_bounds(s: Seq<char>, c: char)
    ensures
        last_index_of(s, c) matches Some(i) ==> 0 <= i < s.len() && s[i] == c,
    decreases s.len(),
{
    if s.len() > 0 && s.last() != c {
        lemma_last_index_of_bounds(s.drop_last(), c);
    }
}

fn char_lowercases_to(c: char, lower: char) -> (r: bool)
    requires
        'a' <= lower <= 'z',
    ensures
        r == lowercases_to(c, lower),
{
    c == lower || (c as u32) + 32 == (lower as u32)
}

/// Whether a file name has the `.arw` extension, compared without regard to
/// case (`DSC0001.ARW`, `shot.arw`, `x.Arw`).
pub fn has_arw_extension(name: &str) -> (r: bool)
    ensures
        r == names_arw_file(name@),
{
    let n = name.unicode_len();
    if n < 5 {
        proof {
            lemma_no_arw_when_last_letters_differ(name@);
        }
        return false;
    }
    let dot = name.get_char(n - 4);
    let a = name.get_char(n - 3);
    let r = name.get_char(n - 2);
    let w = name.get_char(n - 1);
    let found = dot == '.' && char_lowercases_to(a, 'a') && char_lowercases_to(r, 'r')
        && char_lowercases_to(w, 'w');
    proof {
        if found {
            lemma_last_dot_before_letters(name@);
            assert(!(name@ =~= seq!['.', '.']));
            let ext = name@.subrange(n - 3, n as int);
            assert(ext[0] == a && ext[1] == r && ext[2] == w);
        } else {
            lemma_no_arw_when_last_letters_differ(name@);
        }
    }
    found
}

/// One entry of a folder listing: its full path, its file name, and whether
/// it is a regular file.
pub struct FolderEntry {
    pub path: String,
    pub file_name: String,
    pub is_file: bool,
}

/// The entry is a regular file whose name has the `.arw` extension.
pub open spec fn is_listed(e: FolderEntry) -> bool {
    e.is_file && names_arw_file(e.file_name@)
}

/// The paths of the listed entries, in the order of the listing.
pub open spec fn arw_paths(entries: Seq<FolderEntry>) -> Seq<Seq<char>>
    decreases entries.len(),
{
    if entries.len() == 0 {
        Seq::empty()
    } else {
        let rest = arw_paths(entries.drop_last());
        if is_listed(entries.last()) {
            rest.push(entries.last().path@)
        } else {
            rest
        }
    }
}

/// The views of a list of strings.
pub open spec fn texts(v: Seq<String>) -> Seq<Seq<char>> {
    v.map_values(|s: String| s@)
}

/// The paths of the regular files with the `.arw` extension in a folder
/// listing, in the order in which the listing gives them.
pub fn select_arw_files(entries: &Vec<FolderEntry>) -> (r: Vec<String>)
    ensures
        texts(r@) == arw_paths(entries@),
{
    let mut r: Vec<String> = Vec::new();
    let n = entries.len();
    for i in 0..n
        invariant
            n == entries@.len(),
            texts(r@) == arw_paths(entries@.take(i as int)),
    {
        let e = &entries[i];
        proof {
            assert(entries@.take(i + 1).drop_last() =~= entries@.take(i as int));
            assert(entries@.take(i + 1).last() == entries@[i as int]);
        }
        if e.is_file && has_arw_extension(e.file_name.as_str()) {
            let p = e.path.clone();
            let ghost before = r@;
            r.push(p);
            proof {
                assert(texts(r@) =~= texts(before).push(p@));
            }
        }
    }
    proof {
        assert(entries@.take(n as int) =~= entries@);
    }
    r
}

} // verus!

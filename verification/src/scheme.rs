use std::collections::BTreeMap;
use vstd::prelude::*;
use vstd::string::*;

verus! {

/// A sound scheme: a directory of sound files and the rule that picks the
/// file for each key.
///
/// The first `non_unique_count` files are shared out over the keys that
/// `key_audio_map` does not name; `key_audio_map` maps a key code to the
/// index of its own file.
pub struct AudioScheme {
    pub name: String,
    pub display_name: String,
    pub files: Vec<String>,
    pub non_unique_count: u8,
    pub key_audio_map: BTreeMap<u8, u8>,
}

/// The names of the schemes, in order.
pub open spec fn scheme_names(schemes: Seq<AudioScheme>) -> Seq<Seq<char>> {
    schemes.map_values(|s: AudioScheme| s.name@)
}

/// The path of file `file` in directory `dir`.
pub open spec fn file_path(dir: Seq<char>, file: Seq<char>) -> Seq<char> {
    dir + seq!['/'] + file
}

/// The resource path of the directory of scheme `name`.
pub open spec fn scheme_dir_path(name: Seq<char>) -> Seq<char> {
    seq!['d', 'a', 't', 'a', '/'] + name
}

/// The name of the scheme to use: the stored one when some scheme has that
/// name, else the first scheme's (also when nothing is stored yet).
pub open spec fn resolved_scheme_name(schemes: Seq<AudioScheme>, stored: Option<Seq<char>>) -> Seq<
    char,
> {
    match stored {
        Some(name) => if scheme_names(schemes).contains(name) {
            name
        } else {
            schemes[0].name@
        },
        None => schemes[0].name@,
    }
}

/// The paths of the scheme's sound files in directory `dir`, in the order of
/// `scheme.files`.
pub fn audio_file_paths(dir: &str, scheme: &AudioScheme) -> (paths: Vec<String>)
    ensures
        paths@.len() == scheme.files@.len(),
        forall|i: int|
            0 <= i < paths@.len() ==> #[trigger] paths@[i]@ == file_path(dir@, scheme.files@[i]@),
{
    let mut paths: Vec<String> = Vec::with_capacity(scheme.files.len());
    let mut i: usize = 0;
    while i < scheme.files.len()
        invariant
            i <= scheme.files@.len(),
            paths@.len() == i,
            forall|j: int|
                0 <= j < i ==> #[trigger] paths@[j]@ == file_path(dir@, scheme.files@[j]@),
        decreases scheme.files.len() - i,
    {
        proof {
            reveal_strlit("/");
        }
        let mut path = String::from_str(dir);
        path.append("/");
        path.append(scheme.files[i].as_str());
        assert(path@ =~= file_path(dir@, scheme.files@[i as int]@));
        paths.push(path);
        i = i + 1;
    }
    paths
}

/// The resource path of the directory of scheme `name`: "data/" and the
/// name.
pub fn scheme_dir(name: &str) -> (dir: String)
    ensures
        dir@ == scheme_dir_path(name@),
{
    proof {
        reveal_strlit("data/");
    }
    let dir = String::from_str("data/");
    let dir = dir.concat(name);
    assert(dir@ =~= scheme_dir_path(name@));
    dir
}

/// The index of the first scheme named `name`, if any.
pub fn find_scheme(schemes: &Vec<AudioScheme>, name: &String) -> (index: Option<usize>)
    ensures
        match index {
            Some(i) => i < schemes@.len() && schemes@[i as int].name@ == name@ && forall|j: int|
                0 <= j < i ==> #[trigger] schemes@[j].name@ != name@,
            None => forall|j: int| 0 <= j < schemes@.len() ==> #[trigger] schemes@[j].name@ != name@,
        },
{
    let mut i: usize = 0;
    while i < schemes.len()
        invariant
            i <= schemes@.len(),
            forall|j: int| 0 <= j < i ==> #[trigger] schemes@[j].name@ != name@,
        decreases schemes.len() - i,
    {
        if schemes[i].name == *name {
            return Some(i);
        }
        i = i + 1;
    }
    None
}

/// The index of the last scheme named `name`, if any: the entry that ends up
/// selected when every scheme with that name is selected in turn.
pub fn selected_scheme_index(schemes: &Vec<AudioScheme>, name: &String) -> (index: Option<usize>)
    ensures
        match index {
            Some(i) => i < schemes@.len() && schemes@[i as int].name@ == name@ && forall|j: int|
                i < j < schemes@.len() ==> #[trigger] schemes@[j].name@ != name@,
            None => forall|j: int| 0 <= j < schemes@.len() ==> #[trigger] schemes@[j].name@ != name@,
        },
{
    let mut selected: Option<usize> = None;
    let mut i: usize = 0;
    while i < schemes.len()
        invariant
            i <= schemes@.len(),
            match selected {
                Some(k) => k < i && schemes@[k as int].name@ == name@ && forall|j: int|
                    k < j < i ==> #[trigger] schemes@[j].name@ != name@,
                None => forall|j: int| 0 <= j < i ==> #[trigger] schemes@[j].name@ != name@,
            },
        decreases schemes.len() - i,
    {
        if schemes[i].name == *name {
            selected = Some(i);
        }
        i = i + 1;
    }
    selected
}

/// The name of the scheme to use, given the stored preference (`None` before
/// the first run has stored one): the stored name when a scheme has it, else
/// the first scheme's.
pub fn resolve_scheme_name(schemes: &Vec<AudioScheme>, stored: Option<String>) -> (name: String)
    requires
        schemes@.len() > 0,
    ensures
        name@ == resolved_scheme_name(schemes@, match stored {
            Some(s) => Some(s@),
            None => None,
        }),
{
    let default_name = schemes[0].name.clone();
    match stored {
        None => default_name,
        Some(s) => {
            let found = find_scheme(schemes, &s);
            proof {
                let names = scheme_names(schemes@);
                match found {
                    Some(i) => {
                        assert(names[i as int] == s@);
                    },
                    None => {
                        if names.contains(s@) {
                            let k = choose|k: int| 0 <= k < names.len() && names[k] == s@;
                            assert(schemes@[k].name@ != s@);
                        }
                    },
                }
            }
            match found {
                Some(_) => s,
                None => default_name,
            }
        },
    }
}

/// The scheme in use is always one of the schemes: whatever is stored, the
/// resolved name is that of some scheme.
pub proof fn lemma_resolved_scheme_exists(schemes: Seq<AudioScheme>, stored: Option<Seq<char>>)
    requires
        schemes.len() > 0,
    ensures
        scheme_names(schemes).contains(resolved_scheme_name(schemes, stored)),
{
    assert(scheme_names(schemes)[0] == schemes[0].name@);
}

/// The stored preference wins whenever it names a scheme; otherwise (or
/// when nothing is stored) the first scheme is used.
pub proof fn lemma_stored_scheme_is_kept(schemes: Seq<AudioScheme>, n: Seq<char>)
    requires
        schemes.len() > 0,
    ensures
        (exists|i: int| 0 <= i < schemes.len() && #[trigger] schemes[i].name@ == n)
            ==> resolved_scheme_name(schemes, Some(n)) == n,
        (forall|i: int| 0 <= i < schemes.len() ==> #[trigger] schemes[i].name@ != n)
            ==> resolved_scheme_name(schemes, Some(n)) == schemes[0].name@,
        resolved_scheme_name(schemes, None) == schemes[0].name@,
{
    let names = scheme_names(schemes);
    if exists|i: int| 0 <= i < schemes.len() && #[trigger] schemes[i].name@ == n {
        let i = choose|i: int| 0 <= i < schemes.len() && #[trigger] schemes[i].name@ == n;
        assert(names[i] == n);
    } else {
        if names.contains(n) {
            let k = choose|k: int| 0 <= k < names.len() && names[k] == n;
            assert(schemes[k].name@ == n);
        }
    }
}

/// A file's path is the directory exactly as given, then '/', then the file
/// name exactly as given.
pub proof fn lemma_file_path_parts(dir: Seq<char>, file: Seq<char>)
    ensures
        file_path(dir, file).len() == dir.len() + 1 + file.len(),
        file_path(dir, file).subrange(0, dir.len() as int) == dir,
        file_path(dir, file)[dir.len() as int] == '/',
        file_path(dir, file).subrange(dir.len() + 1int, file_path(dir, file).len() as int) == file,
{
    let p = file_path(dir, file);
    assert(p.subrange(0, dir.len() as int) =~= dir);
    assert(p.subrange(dir.len() + 1int, p.len() as int) =~= file);
}

} // verus!

use vstd::prelude::*;

verus! {

/// The per-user directory that holds the storage file, under the given home
/// directory.
pub open spec fn spec_storage_dir(home: Seq<char>) -> Seq<char> {
    home + "/.canzero"@
}

/// The fixed storage file path under the given home directory.
pub open spec fn spec_appdata_path(home: Seq<char>) -> Seq<char> {
    spec_storage_dir(home) + "/canzero.toml"@
}

/// The directory that holds the storage file: `<home>/.canzero`.
pub fn storage_dir(home: &str) -> (r: String)
    ensures
        r@ == spec_storage_dir(home@),
{
    let mut path = String::from_str(home);
    path.append("/.canzero");
    path
}

/// The storage file's path: `<home>/.canzero/canzero.toml`.
pub fn appdata_path(home: &str) -> (r: String)
    ensures
        r@ == spec_appdata_path(home@),
{
    let mut path = storage_dir(home);
    path.append("/canzero.toml");
    path
}

/// The proper prefixes of `p` that end just before a separator among the
/// first `n` characters, shortest first, the empty prefix left out.
pub open spec fn spec_slash_prefixes(p: Seq<char>, n: int) -> Seq<Seq<char>>
    decreases n,
{
    if n <= 0 {
        Seq::empty()
    } else if p[n - 1] == '/' && n - 1 > 0 {
        spec_slash_prefixes(p, n - 1).push(p.take(n - 1))
    } else {
        spec_slash_prefixes(p, n - 1)
    }
}

/// The directories to create, parent first, so that the directory `p` and
/// all its ancestors exist: every ancestor named inside `p`, then `p`
/// itself.
pub open spec fn spec_ancestor_dirs(p: Seq<char>) -> Seq<Seq<char>> {
    spec_slash_prefixes(p, p.len() as int).push(p)
}

/// Lists the given directory and all its ancestors, parent first, so that
/// creating each missing one in order makes the whole chain exist.
pub fn ancestor_dirs(path: &str) -> (r: Vec<String>)
    ensures
        r.deep_view() == spec_ancestor_dirs(path@),
{
    let len: usize = path.unicode_len();
    let mut dirs: Vec<String> = Vec::new();
    let mut i: usize = 0;
    while i < len
        invariant
            len == path@.len(),
            i <= len,
            dirs.deep_view() == spec_slash_prefixes(path@, i as int),
        decreases len - i,
    {
        if path.get_char(i) == '/' && i > 0 {
            let prefix = path.substring_char(0, i);
            dirs.push(String::from_str(prefix));
            proof {
                assert(path@.subrange(0, i as int) =~= path@.take(i as int));
                assert(dirs.deep_view() =~= spec_slash_prefixes(path@, i + 1));
            }
        } else {
            proof {
                assert(dirs.deep_view() =~= spec_slash_prefixes(path@, i + 1));
            }
        }
        i = i + 1;
    }
    dirs.push(String::from_str(path));
    proof {
        assert(dirs.deep_view() =~= spec_ancestor_dirs(path@));
    }
    dirs
}

} // verus!

//! The `install` subcommand's decisions: where the binary goes and where to
//! look for an installed one.
use vstd::prelude::*;
use crate::paths::{join_path, path_join};
use crate::text::{chars_of, split_on, split_on_char, string_of, views};

verus! {

/// Why `install` could not choose a directory.
#[derive(Debug, PartialEq, Eq, Structural)]
pub enum InstallError {
    /// `HOME` is not set and no directory was given.
    HomeNotSet,
}

/// The install directory: the one given, else `~/.local/bin`.
pub fn resolve_install_dir(install_dir: Option<&str>, home: Option<&str>) -> (r: Result<
    String,
    InstallError,
>)
    ensures
        match install_dir {
            Some(d) => r matches Ok(p) && p@ == d@,
            None => match home {
                Some(h) => r matches Ok(p) && p@ == path_join(path_join(h@, ".local"@), "bin"@),
                None => r == Err::<String, InstallError>(InstallError::HomeNotSet),
            },
        },
{
    match install_dir {
        Some(d) => Ok(d.to_owned()),
        None => match home {
            None => Err(InstallError::HomeNotSet),
            Some(h) => {
                let local = join_path(h, ".local");
                Ok(join_path(local.as_str(), "bin"))
            },
        },
    }
}

/// The places to look for an installed `sccache`, in order: `sccache` in
/// each `:`-separated entry of `$PATH` (none when `$PATH` is unset).
pub fn sccache_candidates(path_var: Option<&str>) -> (r: Vec<String>)
    ensures
        match path_var {
            None => r@.len() == 0,
            Some(p) => {
                &&& r@.len() == split_on(p@, ':').len()
                &&& forall|i: int|
                    0 <= i < r@.len() ==> #[trigger] r@[i]@ == path_join(
                        split_on(p@, ':')[i],
                        "sccache"@,
                    )
            },
        },
{
    let mut r: Vec<String> = Vec::new();
    match path_var {
        None => {},
        Some(p) => {
            let v = chars_of(p);
            let dirs = split_on_char(&v, ':');
            let mut i: usize = 0;
            while i < dirs.len()
                invariant
                    i <= dirs.len(),
                    views(dirs@) == split_on(p@, ':'),
                    r@.len() == i,
                    forall|j: int|
                        0 <= j < i ==> #[trigger] r@[j]@ == path_join(
                            split_on(p@, ':')[j],
                            "sccache"@,
                        ),
                decreases dirs.len() - i,
            {
                let dir = string_of(&dirs[i]);
                assert(dir@ == split_on(p@, ':')[i as int]);
                r.push(join_path(dir.as_str(), "sccache"));
                i += 1;
            }
        },
    }
    r
}

} // verus!

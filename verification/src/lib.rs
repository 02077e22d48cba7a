//! Persists one user-level setting — an optional path to an external
//! configuration file — in a per-user TOML file, tracking whether the
//! in-memory record diverged from disk and handing back text to write
//! only on divergence.

use vstd::prelude::*;

mod codec;
mod fspath;

pub use codec::{opt_string_view, opt_opt_string_view, toml_encoding, toml_decoding};
pub use fspath::{
    ancestor_dirs, appdata_path, spec_ancestor_dirs, spec_appdata_path, spec_slash_prefixes,
    spec_storage_dir, storage_dir,
};

verus! {

/// The ways reading or mutating the record can fail.
#[derive(Debug, Clone, Copy, PartialEq, Eq, Structural)]
pub enum AppDataError {
    /// The storage file exists but does not parse as the record.
    BrokenConfig,
    /// The supplied path names a directory rather than a file.
    InvalidConfigPath,
    /// A filesystem operation failed; the operation's caller holds the detail.
    Io,
}

/// A filesystem path that the caller has already canonicalized (absolute,
/// symlinks resolved, no relative segments), together with whether it names
/// a directory. Canonicalization itself is filesystem work and happens at
/// the application edge; the record's logic only reads these two facts.
#[derive(Clone)]
pub struct ResolvedPath {
    path: String,
    is_dir: bool,
}

impl ResolvedPath {
    /// The path's text.
    pub closed spec fn path_spec(&self) -> Seq<char> {
        self.path@
    }

    /// Whether the path names a directory.
    pub closed spec fn is_dir_spec(&self) -> bool {
        self.is_dir
    }

    pub fn new(path: String, is_dir: bool) -> (r: ResolvedPath)
        ensures
            r.path_spec() == path@,
            r.is_dir_spec() == is_dir,
    {
        ResolvedPath { path, is_dir }
    }
}

/// A resolved-path argument as a mathematical value: the path's text paired
/// with its directory flag.
pub open spec fn resolved_opt_view(p: Option<ResolvedPath>) -> Option<(Seq<char>, bool)> {
    match p {
        Some(q) => Some((q.path_spec(), q.is_dir_spec())),
        None => None,
    }
}

/// The persisted record: just the optional configuration-file path. The
/// dirty flag lives outside it and is never written to disk.
#[derive(Clone)]
pub struct AppDataRaw {
    config_path: Option<String>,
}

impl AppDataRaw {
    /// The stored path, as a mathematical value.
    pub closed spec fn config_path_spec(&self) -> Option<Seq<char>> {
        opt_string_view(self.config_path)
    }
}

/// The in-memory mirror of the persisted record, with dirty tracking.
#[derive(Clone)]
pub struct AppData {
    change_flag: bool,
    raw: AppDataRaw,
}

/// What setting a resolved path does to a record, as a function from the
/// stored path, the dirty flag and the argument to the new stored path, the
/// new dirty flag and the operation's result: a directory is rejected and
/// nothing moves; an unchanged value moves nothing; a changed value is
/// stored and marks the record dirty.
pub open spec fn spec_set_config_path(
    config_path: Option<Seq<char>>,
    dirty: bool,
    path: Option<(Seq<char>, bool)>,
) -> (Option<Seq<char>>, bool, Result<(), AppDataError>) {
    match path {
        Some(q) => {
            if q.1 {
                (config_path, dirty, Err(AppDataError::InvalidConfigPath))
            } else if config_path == Some(q.0) {
                (config_path, dirty, Ok(()))
            } else {
                (Some(q.0), true, Ok(()))
            }
        },
        None => {
            if config_path is None {
                (config_path, dirty, Ok(()))
            } else {
                (None, true, Ok(()))
            }
        },
    }
}

impl AppData {
    /// The stored path, as a mathematical value.
    pub closed spec fn config_path_spec(&self) -> Option<Seq<char>> {
        self.raw.config_path_spec()
    }

    /// Whether the record diverged from disk since it was loaded.
    pub closed spec fn dirty(&self) -> bool {
        self.change_flag
    }

    /// Builds the record from the storage file's text, or from its absence:
    /// no file gives the default record, a valid document gives its
    /// `config_path` entry, and anything else is a broken configuration.
    /// Either way the loaded record starts clean.
    pub fn read(contents: Option<&str>) -> (r: Result<AppData, AppDataError>)
        ensures
            match contents {
                None => r matches Ok(d) && d.config_path_spec() is None && !d.dirty(),
                Some(text) => match toml_decoding(text@) {
                    Some(cp) => r matches Ok(d) && d.config_path_spec() == cp && !d.dirty(),
                    None => r == Err::<AppData, AppDataError>(AppDataError::BrokenConfig),
                },
            },
    {
        match contents {
            None => Ok(AppData::default()),
            Some(text) => match codec::decode_record(text) {
                Some(config_path) => Ok(AppData { change_flag: false, raw: AppDataRaw { config_path } }),
                None => Err(AppDataError::BrokenConfig),
            },
        }
    }

    /// Replaces the stored path as `spec_set_config_path` says: a resolved
    /// directory is rejected with `InvalidConfigPath` and the record is left
    /// untouched; storing the value already held touches nothing; a new
    /// value is stored and sets the dirty flag.
    pub fn set_config_path(&mut self, path: Option<ResolvedPath>) -> (r: Result<(), AppDataError>)
        ensures
            (final(self).config_path_spec(), final(self).dirty(), r) == spec_set_config_path(
                old(self).config_path_spec(),
                old(self).dirty(),
                resolved_opt_view(path),
            ),
    {
        let new_config_path: Option<String> = match path {
            Some(resolved) => {
                if resolved.is_dir {
                    return Err(AppDataError::InvalidConfigPath);
                }
                Some(resolved.path)
            },
            None => None,
        };
        let unchanged: bool = match (&new_config_path, &self.raw.config_path) {
            (Some(new_path), Some(cur_path)) => *new_path == *cur_path,
            (None, None) => true,
            _ => false,
        };
        if !unchanged {
            self.raw.config_path = new_config_path;
            self.change_flag = true;
        }
        Ok(())
    }

    /// A read-only view of the stored path.
    pub fn get_config_path(&self) -> (r: Option<&String>)
        ensures
            match r {
                Some(path) => self.config_path_spec() == Some(path@),
                None => self.config_path_spec() is None,
            },
    {
        self.raw.config_path.as_ref()
    }

    /// Ends the record's use: hands back the serialized record exactly when
    /// it diverged from disk, and leaves it clean either way. The returned
    /// text decodes back to the stored path, so writing it and reading the
    /// file again restores the record.
    pub fn flush(&mut self) -> (r: Option<String>)
        ensures
            old(self).dirty() ==> (r matches Some(text)
                && text@ == toml_encoding(old(self).config_path_spec())
                && toml_decoding(text@) == Some(old(self).config_path_spec())),
            !old(self).dirty() ==> r is None,
            final(self).config_path_spec() == old(self).config_path_spec(),
            !final(self).dirty(),
    {
        if self.change_flag {
            let text = codec::encode_record(&self.raw.config_path);
            self.change_flag = false;
            Some(text)
        } else {
            None
        }
    }
}

impl Default for AppData {
    /// The empty record: no stored path, nothing to write back.
    fn default() -> (r: Self)
        ensures
            r.config_path_spec() is None,
            !r.dirty(),
    {
        AppData { change_flag: false, raw: AppDataRaw { config_path: None } }
    }
}

/// Setting the same resolved path twice is idempotent: the second
/// application returns the same result and leaves the stored path and the
/// dirty flag exactly as the first left them.
pub proof fn lemma_set_config_path_idempotent(
    config_path: Option<Seq<char>>,
    dirty: bool,
    path: Option<(Seq<char>, bool)>,
)
    ensures
        ({
            let (cp1, dirty1, r1) = spec_set_config_path(config_path, dirty, path);
            spec_set_config_path(cp1, dirty1, path) == (cp1, dirty1, r1)
        }),
{
}

} // verus!

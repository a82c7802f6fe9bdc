use vstd::prelude::*;

use crate::paths::{expand_tilde, expanded_or_kept, has_home_marker};
use crate::schema::{Conf, DbType};

verus! {

/// The characters of an optional string.
pub open spec fn opt_view(o: Option<String>) -> Option<Seq<char>> {
    match o {
        Some(s) => Some(s@),
        None => None,
    }
}

/// The history storage path before home expansion. There is one only where
/// history is on and kept in a file: an override path comes first, then the
/// path of the configuration.
pub open spec fn db_source(
    history: bool,
    db_type: DbType,
    override_path: Option<Seq<char>>,
    configured: Option<Seq<char>>,
) -> Option<Seq<char>> {
    if !history {
        None
    } else {
        match db_type {
            DbType::InMemory => None,
            DbType::SQLite => if override_path is Some {
                override_path
            } else {
                configured
            },
        }
    }
}

/// `r` is the path `src` after home expansion, whatever home directory the
/// platform reported.
pub open spec fn expansion_of(r: Seq<char>, src: Seq<char>) -> bool {
    &&& exists|home: Option<Seq<char>>| r == expanded_or_kept(src, home)
    &&& !has_home_marker(src) ==> r == src
}

/// Paths of the configuration file and of the history storage.
#[derive(Clone)]
pub struct Paths {
    pub conf: String,
    pub db: Option<String>,
}

impl Default for Paths {
    fn default() -> (r: Self)
        ensures
            r.conf@.len() == 0,
            r.db is None,
    {
        Paths { conf: String::new(), db: None }
    }
}

/// Run-time data: the paths in use, the configuration and whether message
/// history is kept.
#[derive(Clone)]
pub struct Rtd {
    pub paths: Paths,
    pub conf: Conf,
    pub history: bool,
}

impl Default for Rtd {
    fn default() -> (r: Self)
        ensures
            r.paths.conf@.len() == 0,
            r.paths.db is None,
            r.conf.is_default(),
            !r.history,
    {
        Rtd { paths: Paths::default(), conf: Conf::default(), history: false }
    }
}

impl Rtd {
    pub fn new() -> (r: Self)
        ensures
            r.paths.conf@.len() == 0,
            r.paths.db is None,
            r.conf.is_default(),
            !r.history,
    {
        Rtd::default()
    }

    /// Sets the configuration file path, home-expanded.
    pub fn conf(&mut self, path: &str)
        ensures
            expansion_of(final(self).paths.conf@, path@),
            final(self).paths.db == old(self).paths.db,
            final(self).conf == old(self).conf,
            final(self).history == old(self).history,
    {
        self.paths.conf = expand_tilde(path);
    }

    /// Sets the storage path override, home-expanded.
    pub fn db(&mut self, path: Option<&str>)
        ensures
            match path {
                Some(p) => final(self).paths.db matches Some(d) && expansion_of(d@, p@),
                None => final(self).paths.db is None,
            },
            final(self).paths.conf == old(self).paths.conf,
            final(self).conf == old(self).conf,
            final(self).history == old(self).history,
    {
        self.paths.db = match path {
            Some(p) => Some(expand_tilde(p)),
            None => None,
        };
    }

    /// The history storage path that the configuration and the override
    /// select, before home expansion.
    pub fn get_db_info(&self) -> (r: Option<String>)
        ensures
            opt_view(r) == db_source(
                self.conf.features.history,
                self.conf.database.db_type,
                opt_view(self.paths.db),
                opt_view(self.conf.database.path),
            ),
    {
        if self.conf.features.history {
            match self.conf.database.db_type {
                DbType::InMemory => None,
                DbType::SQLite => {
                    if let Some(p) = &self.paths.db {
                        Some(p.clone())
                    } else if let Some(p) = &self.conf.database.path {
                        Some(p.clone())
                    } else {
                        None
                    }
                },
            }
        } else {
            None
        }
    }
}

} // verus!

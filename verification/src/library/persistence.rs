//! Where the library is kept on disk: `library.json` in the data directory.
//! Reading and writing the file is the caller's; this module decides where
//! and when.
use vstd::prelude::*;
use crate::config::{app_dir_under, default_data_dir};
use crate::text::{join_path, joined_path};

verus! {

/// The library's place on disk.
#[derive(Debug)]
pub struct LibraryStore {
    data_dir: String,
    pub auto_save: bool,
}

impl LibraryStore {
    /// A store in `data_dir`, saving automatically.
    pub fn new(data_dir: String) -> (r: LibraryStore)
        ensures
            r.data_dir()@ == data_dir@,
            r.saves_automatically(),
    {
        LibraryStore { data_dir, auto_save: true }
    }

    /// Whether the library is saved after each change: the public field
    /// `auto_save` (a public contract cannot name a field of this struct,
    /// whose other field is private, so it speaks of this function).
    pub closed spec fn saves_automatically(&self) -> bool {
        self.auto_save
    }

    /// The data directory.
    pub closed spec fn data_dir(&self) -> String {
        self.data_dir
    }

    /// The data directory.
    pub fn data_dir_path(&self) -> (r: &str)
        ensures
            r@ == self.data_dir()@,
    {
        self.data_dir.as_str()
    }

    /// The default data directory: `open_music` under the platform's data
    /// directory.
    pub fn default_data_dir() -> (r: String)
        ensures
            exists|p: Option<Seq<char>>| r@ == app_dir_under(p),
    {
        default_data_dir()
    }

    /// The library file: `library.json` in the data directory.
    pub fn library_path(&self) -> (r: String)
        ensures
            r@ == joined_path(self.data_dir()@, "library.json"@),
    {
        join_path(self.data_dir.as_str(), "library.json")
    }

    /// Where the library is to be written now: the library file when saving
    /// automatically, nowhere otherwise.
    pub fn save_if_needed(&self) -> (r: Option<String>)
        ensures
            match r {
                Some(p) => self.saves_automatically() && p@ == joined_path(self.data_dir()@, "library.json"@),
                None => !self.saves_automatically(),
            },
    {
        if self.auto_save {
            Some(self.library_path())
        } else {
            None
        }
    }
}

} // verus!

//! Where conversations are kept: the directory, the file name that a
//! conversation is saved under, and which directory entries are archives.
//! Reading and writing the files is left to the caller.

use vstd::prelude::*;
use crate::conversation::Conversation;
use crate::text;
use crate::traits::Named;

verus! {

/// The directory that conversations are saved to.
#[derive(Debug)]
pub struct Archivist {
    storage_path: String,
}

/// The directory used where none is given.
pub open spec fn default_storage_path() -> Seq<char> {
    "./message_history"@
}

/// The name of the file that holds the conversation with the given title:
/// the title with every space replaced by an underscore, then `.json`.
pub open spec fn file_name_of(title: Seq<char>) -> Seq<char> {
    text::replaced(title, ' ', '_') + ".json"@
}

/// Whether a directory entry is a saved conversation: its name ends in
/// `.json`.
pub open spec fn is_archive(name: Seq<char>) -> bool {
    ".json"@.is_suffix_of(name)
}

/// The entries among `names` that are saved conversations, in their order.
pub open spec fn archives_among(names: Seq<Seq<char>>) -> Seq<Seq<char>> {
    names.filter(|name: Seq<char>| is_archive(name))
}

/// The texts of a sequence of strings.
pub open spec fn texts(names: Seq<String>) -> Seq<Seq<char>> {
    names.map_values(|s: String| s@)
}

impl Archivist {
    pub closed spec fn path_spec(&self) -> Seq<char> {
        self.storage_path@
    }

    /// An archivist for the given directory, or for `./message_history`
    /// where none is given. The directory is not touched.
    pub fn new(storage_path: Option<String>) -> (a: Self)
        ensures
            a.path_spec() == (match storage_path {
                Some(path) => path@,
                None => default_storage_path(),
            }),
    {
        let path = match storage_path {
            Some(path) => path,
            None => "./message_history".to_owned(),
        };
        Archivist { storage_path: path }
    }

    /// The directory that conversations are saved to.
    pub fn storage_path(&self) -> (r: &str)
        ensures
            r@ == self.path_spec(),
    {
        self.storage_path.as_str()
    }

    /// The name of the file, inside the directory, that `conversation` is
    /// saved under.
    pub fn file_name(&self, conversation: &Conversation) -> (r: String)
        ensures
            r@ == file_name_of(conversation@.title),
    {
        proof {
            reveal_strlit("_");
        }
        let mut name = text::replace_char(conversation.title.as_str(), ' ', "_");
        name.append(".json");
        name
    }

    /// Of the directory's entries, those that are saved conversations, in
    /// the order given.
    pub fn list(&self, entries: &[String]) -> (r: Vec<String>)
        ensures
            texts(r@) == archives_among(texts(entries@)),
    {
        let ghost keep = |name: Seq<char>| is_archive(name);
        let mut r: Vec<String> = Vec::new();
        let mut i: usize = 0;
        proof {
            reveal(Seq::filter);
            assert(texts(entries@).take(0).filter(keep) =~= texts(r@));
        }
        while i < entries.len()
            invariant
                i <= entries.len(),
                keep == |name: Seq<char>| is_archive(name),
                texts(r@) == texts(entries@).take(i as int).filter(keep),
            decreases entries.len() - i,
        {
            let ghost before = texts(entries@).take(i as int);
            let ghost after = texts(entries@).take(i + 1);
            proof {
                reveal(Seq::filter);
                assert(after.drop_last() =~= before);
                assert(after.last() == entries[i as int]@);
            }
            if text::ends_with(entries[i].as_str(), ".json") {
                r.push(entries[i].clone());
                assert(texts(r@) =~= after.filter(keep));
            }
            i += 1;
        }
        assert(texts(entries@).take(i as int) =~= texts(entries@));
        r
    }
}

impl Named for Archivist {
    fn name(&self) -> (r: &str)
        ensures
            r@ == "archivist"@,
    {
        "archivist"
    }
}

} // verus!

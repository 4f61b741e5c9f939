use vstd::prelude::*;

use crate::common::id::{bs58_encoded, Id};

verus! {

/// Blobs kept as files: stored blobs in `blob_path`, blobs being written
/// in `tmp_path`, each named by the base 58 text of its identifier.
#[derive(Debug)]
pub struct Blobs {
    pub blob_path: String,
    pub tmp_path: String,
}

/// `name` joined to the directory `dir`, as `std::path::Path::join` joins a
/// relative name on Unix.
pub open spec fn joined(dir: Seq<char>, name: Seq<char>) -> Seq<char> {
    if dir.len() == 0 || dir.last() == '/' {
        dir + name
    } else {
        dir + seq!['/'] + name
    }
}

/// `name` joined to the directory `dir`.
fn join(dir: &String, name: &String) -> (r: String)
    ensures
        r@ == joined(dir@, name@),
{
    let n = dir.as_str().unicode_len();
    let mut r = dir.clone();
    if n > 0 && dir.as_str().get_char(n - 1) != '/' {
        proof {
            reveal_strlit("/");
        }
        r.append("/");
    }
    r.append(name.as_str());
    r
}

impl Blobs {
    pub fn new(blob_path: String, tmp_path: String) -> (r: Blobs)
        ensures
            r.blob_path == blob_path,
            r.tmp_path == tmp_path,
    {
        Blobs { blob_path, tmp_path }
    }

    /// The file of stored blob `id`.
    pub fn blob_file(&self, id: &Id) -> (r: String)
        ensures
            r@ == joined(self.blob_path@, bs58_encoded(id@)),
    {
        join(&self.blob_path, &id.to_string())
    }

    /// The file of blob `id` while it is being written.
    pub fn tmp_file(&self, id: &Id) -> (r: String)
        ensures
            r@ == joined(self.tmp_path@, bs58_encoded(id@)),
    {
        join(&self.tmp_path, &id.to_string())
    }
}

} // verus!

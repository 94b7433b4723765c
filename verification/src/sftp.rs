//! The data model of the file-transfer subsystem.
//!
//! The subsystem itself — wire protocol, handles, the filesystem calls —
//! runs with the glue; these are the plain values it trades in: file
//! attributes, directory entries, and the path containment rule of the
//! local filesystem backend.

use vstd::prelude::*;

verus! {

/// The attributes of a file, each piece optional.
#[derive(Debug, Clone, Copy, PartialEq, Eq, Structural, Default)]
pub struct FileAttr {
    pub size: Option<u64>,
    pub uid: Option<u32>,
    pub gid: Option<u32>,
    pub permissions: Option<u32>,
    pub atime: Option<u32>,
    pub mtime: Option<u32>,
}

/// One entry of a directory listing.
#[derive(Debug, PartialEq, Eq)]
pub struct DirEntry {
    pub name: String,
    pub attrs: FileAttr,
}

impl Clone for DirEntry {
    fn clone(&self) -> (r: Self)
        ensures
            r == *self,
    {
        DirEntry { name: self.name.clone(), attrs: self.attrs }
    }
}

/// `s` without its leading run of `c`.
pub open spec fn spec_trim_leading(s: Seq<char>, c: char) -> Seq<char>
    decreases s.len(),
{
    if s.len() > 0 && s[0] == c {
        spec_trim_leading(s.drop_first(), c)
    } else {
        s
    }
}

/// Trimming the leading run of `c` keeps exactly the characters from the
/// first position that is not `c`.
proof fn lemma_trim_leading(s: Seq<char>, c: char, i: int)
    requires
        0 <= i <= s.len(),
        forall|k: int| 0 <= k < i ==> s[k] == c,
        i == s.len() || s[i] != c,
    ensures
        spec_trim_leading(s, c) == s.subrange(i, s.len() as int),
    decreases i,
{
    if i == 0 {
        assert(spec_trim_leading(s, c) =~= s.subrange(0, s.len() as int));
    } else {
        let t = s.drop_first();
        lemma_trim_leading(t, c, i - 1);
        assert(t.subrange(i - 1, t.len() as int) =~= s.subrange(i, s.len() as int));
    }
}

/// The path `rel` resolved under `root`: the two joined with a path
/// separator, none added after an empty or separator-ended root.
pub open spec fn spec_resolve(root: Seq<char>, rel: Seq<char>) -> Seq<char> {
    if root.len() == 0 {
        rel
    } else if root.last() == '/' {
        root + rel
    } else {
        root + seq!['/'] + rel
    }
}

/// A filesystem backend serving one directory tree of the local disk.
///
/// The operations themselves are performed by the glue; what is decided
/// here is where a peer-supplied path lands: under `root`, with the
/// path's leading separators stripped so it cannot name an absolute
/// location.
#[derive(Debug, PartialEq, Eq)]
pub struct LocalFilesystem {
    root: String,
}

impl Clone for LocalFilesystem {
    fn clone(&self) -> (r: Self)
        ensures
            r@ == self@,
    {
        LocalFilesystem { root: self.root.clone() }
    }
}

impl View for LocalFilesystem {
    type V = Seq<char>;

    closed spec fn view(&self) -> Seq<char> {
        self.root@
    }
}

impl LocalFilesystem {
    /// A backend serving the tree under `root`.
    pub fn new(root: String) -> (r: LocalFilesystem)
        ensures
            r@ == root@,
    {
        LocalFilesystem { root }
    }

    /// Where the peer-supplied `path` lands on the local disk: under the
    /// root, with leading separators stripped.
    pub fn resolve(&self, path: &str) -> (r: String)
        ensures
            r@ == spec_resolve(self@, spec_trim_leading(path@, '/')),
    {
        let n = path.unicode_len();
        let mut i: usize = 0;
        loop
            invariant
                0 <= i <= n,
                n == path@.len(),
                forall|k: int| 0 <= k < i ==> path@[k] == '/',
            ensures
                0 <= i <= n,
                forall|k: int| 0 <= k < i ==> path@[k] == '/',
                i == n || path@[i as int] != '/',
            decreases n - i,
        {
            if i >= n {
                break;
            }
            if (path.get_char(i) as u32) != 47 {
                proof {
                    assert(path@[i as int] != '/') by {
                        assert(('/' as u32) == 47);
                    }
                }
                break;
            }
            i += 1;
        }
        let rel = path.substring_char(i, n);
        proof {
            lemma_trim_leading(path@, '/', i as int);
        }
        let rn = self.root.as_str().unicode_len();
        if rn == 0 {
            return rel.to_owned();
        }
        let last = self.root.as_str().get_char(rn - 1);
        if (last as u32) == 47 {
            proof {
                assert(self@.last() == '/') by {
                    assert(('/' as u32) == 47);
                }
            }
            self.root.clone().concat(rel)
        } else {
            proof {
                assert(self@.last() != '/') by {
                    assert(('/' as u32) == 47);
                }
            }
            let joined = self.root.clone().concat("/").concat(rel);
            proof {
                reveal_strlit("/");
                assert(joined@ =~= self@ + seq!['/'] + spec_trim_leading(path@, '/'));
            }
            joined
        }
    }
}

} // verus!

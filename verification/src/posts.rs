use vstd::prelude::*;
use vstd::string::*;
use crate::target::Target;
use crate::text::{spec_suffix_after_last, spec_lower, suffix_after_last, rfind_char,
    to_ascii_lowercase_str};

verus! {

/// A file referenced by a post. Its identity is the remote CDN path,
/// shaped `/xx/yy/<64-hex-hash><ext>`; an absent path means "no file".
#[derive(Debug)]
pub struct PostFile {
    pub path: Option<String>,
}

impl Clone for PostFile {
    fn clone(&self) -> (r: Self)
        ensures
            r == *self,
    {
        PostFile {
            path: match &self.path {
                Some(p) => Some(p.clone()),
                None => None,
            },
        }
    }
}

impl PostFile {
    /// The identity of this descriptor: the remote path's characters.
    pub open spec fn spec_key(self) -> Option<Seq<char>> {
        match self.path {
            Some(p) => Some(p@),
            None => None,
        }
    }

    /// The file name part of the remote path: everything after its
    /// last `/`.
    pub open spec fn spec_name(self) -> Seq<char>
        recommends
            self.path is Some,
    {
        spec_suffix_after_last(self.path->0@, '/')
    }

    /// The file name this descriptor is stored under.
    pub fn to_name(&self) -> (r: String)
        requires
            self.path is Some,
        ensures
            r@ == self.spec_name(),
    {
        match &self.path {
            Some(p) => String::from_str(suffix_after_last(p.as_str(), '/')),
            None => unreached(),
        }
    }

    /// The staging file name: the file name with `.temp` appended.
    pub open spec fn spec_temp_name(self) -> Seq<char>
        recommends
            self.path is Some,
    {
        self.spec_name() + ".temp"@
    }

    /// The name of the staging file this descriptor is downloaded into.
    pub fn to_temp_name(&self) -> (r: String)
        requires
            self.path is Some,
        ensures
            r@ == self.spec_temp_name(),
    {
        let mut r = self.to_name();
        r.append(".temp");
        r
    }

    /// The canonical CDN URL of this file:
    /// `https://<site>.su/data<path>`.
    pub open spec fn spec_url(self, target: Target) -> Seq<char>
        recommends
            self.path is Some,
    {
        "https://"@ + target.spec_site() + ".su/data"@ + self.path->0@
    }

    /// Builds the canonical CDN URL of this file for `target`'s site family.
    pub fn to_url(&self, target: &Target) -> (r: String)
        requires
            self.path is Some,
        ensures
            r@ == self.spec_url(*target),
    {
        let mut r = String::from_str("https://");
        r.append(target.site());
        r.append(".su/data");
        match &self.path {
            Some(p) => r.append(p.as_str()),
            None => unreached(),
        }
        r
    }

    /// The expected content hash of this file: the first 64 characters of
    /// its file name, which the source service makes the file's hex digest.
    pub open spec fn spec_hash(self) -> Seq<char>
        recommends
            self.path is Some,
            self.spec_name().len() >= 64,
    {
        self.spec_name().subrange(0, 64)
    }

    /// The content hash encoded in the file name.
    pub fn to_hash(&self) -> (r: String)
        requires
            self.path is Some,
            self.spec_name().len() >= 64,
        ensures
            r@ == self.spec_hash(),
    {
        let name = self.to_name();
        String::from_str(name.as_str().substring_char(0, 64))
    }

    /// The lowercased extension of the file name: the characters after the
    /// last `.`, provided a `.` stands after the name's first character.
    pub open spec fn spec_extension(self) -> Option<Seq<char>>
        recommends
            self.path is Some,
    {
        if exists|j: int| 1 <= j < self.spec_name().len() && self.spec_name()[j] == '.' {
            Some(spec_lower(spec_suffix_after_last(self.spec_name(), '.')))
        } else {
            None
        }
    }

    /// The lowercased extension of the file name, if it has one.
    pub fn to_extension(&self) -> (r: Option<String>)
        requires
            self.path is Some,
        ensures
            match r {
                Some(e) => self.spec_extension() == Some(e@),
                None => self.spec_extension() is None,
            },
    {
        let name = self.to_name();
        match rfind_char(name.as_str(), '.') {
            Some(i) => {
                if i >= 1 {
                    Some(to_ascii_lowercase_str(suffix_after_last(name.as_str(), '.')))
                } else {
                    None
                }
            },
            None => None,
        }
    }

    /// The destination path of this file under `output_root`.
    pub fn to_pathbuf(&self, target: &Target, output_root: &str) -> (r: String)
        requires
            self.path is Some,
        ensures
            r@ == target.spec_file_path(output_root@, self.spec_name()),
    {
        let name = self.to_name();
        target.to_pathbuf(output_root, Some(name.as_str()))
    }

    /// The staging path of this file under `output_root`.
    pub fn to_temp_pathbuf(&self, target: &Target, output_root: &str) -> (r: String)
        requires
            self.path is Some,
        ensures
            r@ == target.spec_file_path(output_root@, self.spec_temp_name()),
    {
        let name = self.to_temp_name();
        target.to_pathbuf(output_root, Some(name.as_str()))
    }
}

/// The file entries of a post that carry a path, in order: the primary
/// file first, then the attachments.
pub open spec fn spec_kept_files(s: Seq<PostFile>) -> Seq<PostFile>
    decreases s.len(),
{
    if s.len() == 0 {
        Seq::empty()
    } else if s.last().path is Some {
        spec_kept_files(s.drop_last()) + seq![s.last()]
    } else {
        spec_kept_files(s.drop_last())
    }
}

/// Appending one entry to the flattened list keeps it exactly when it
/// carries a path.
pub proof fn lemma_kept_files_push(s: Seq<PostFile>, f: PostFile)
    ensures
        spec_kept_files(s.push(f)) == if f.path is Some {
            spec_kept_files(s) + seq![f]
        } else {
            spec_kept_files(s)
        },
{
    assert(s.push(f).drop_last() =~= s);
    assert(s.push(f).last() == f);
}

/// Every file surviving extraction carries a path.
pub proof fn lemma_kept_files_all_present(s: Seq<PostFile>)
    ensures
        forall|i: int|
            0 <= i < spec_kept_files(s).len() ==> (#[trigger] spec_kept_files(s)[i]).path is Some,
    decreases s.len(),
{
    if s.len() > 0 {
        lemma_kept_files_all_present(s.drop_last());
    }
}

/// A post record, transient: it exists only between retrieval and
/// extraction. It holds zero-or-one primary file (an absent path means
/// none) and zero-or-more attachment files.
#[derive(Clone, Debug)]
pub struct Post {
    pub file: PostFile,
    pub attachments: Vec<PostFile>,
}

impl Post {
    /// All file entries of the post, the primary one first.
    pub open spec fn spec_all_files(self) -> Seq<PostFile> {
        seq![self.file] + self.attachments@
    }

    /// The file entries of the post that carry a path.
    pub open spec fn spec_files(self) -> Seq<PostFile> {
        spec_kept_files(self.spec_all_files())
    }

    /// Flattens the post into its file descriptors, excluding entries
    /// whose path is absent, and consumes the record.
    pub fn files(self) -> (r: Vec<PostFile>)
        ensures
            r@ == self.spec_files(),
    {
        let ghost all = self.spec_all_files();
        let mut r: Vec<PostFile> = Vec::new();
        proof {
            assert(all.take(1) =~= Seq::<PostFile>::empty().push(self.file));
            lemma_kept_files_push(Seq::<PostFile>::empty(), self.file);
        }
        if self.file.path.is_some() {
            r.push(self.file);
        }
        proof {
            assert(r@ =~= spec_kept_files(all.take(1)));
        }
        let n = self.attachments.len();
        let mut i: usize = 0;
        while i < n
            invariant
                0 <= i <= n,
                n == self.attachments@.len(),
                all == seq![self.file] + self.attachments@,
                all.len() == n + 1,
                r@ == spec_kept_files(all.take(i + 1)),
            decreases n - i,
        {
            let f = self.attachments[i].clone();
            proof {
                assert(f == all[i + 1]);
                assert(all.take(i + 2) =~= all.take(i + 1).push(f));
                lemma_kept_files_push(all.take(i + 1), f);
            }
            if f.path.is_some() {
                r.push(f);
            }
            proof {
                assert(r@ =~= spec_kept_files(all.take(i + 2)));
            }
            i = i + 1;
        }
        proof {
            assert(all.take(n + 1) =~= all);
        }
        r
    }
}

/// A post with no primary file and no attachments yields no descriptors.
pub proof fn lemma_empty_post_yields_no_files(p: Post)
    requires
        p.file.path is None,
        p.attachments@.len() == 0,
    ensures
        p.spec_files().len() == 0,
{
    let all = p.spec_all_files();
    assert(all =~= Seq::<PostFile>::empty().push(p.file));
    lemma_kept_files_push(Seq::<PostFile>::empty(), p.file);
}

} // verus!

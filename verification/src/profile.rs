use vstd::prelude::*;
use vstd::string::*;
use crate::posts::{Post, PostFile, lemma_kept_files_all_present};
use crate::target::{SubType, Target, spec_service_name};
use crate::text::{spec_decimal, u64_to_string};

verus! {

/// Whether some entry of `s` has the identity `k`.
pub open spec fn seq_has_key(s: Seq<PostFile>, k: Option<Seq<char>>) -> bool {
    exists|i: int| 0 <= i < s.len() && s[i].spec_key() == k
}

/// Set-semantics insertion: `s` unchanged when it already holds the
/// descriptor's remote path, `s` extended by the descriptor otherwise.
pub open spec fn spec_insert(s: Seq<PostFile>, pf: PostFile) -> Seq<PostFile> {
    if seq_has_key(s, pf.spec_key()) {
        s
    } else {
        s.push(pf)
    }
}

/// Set-semantics insertion of every descriptor of `fs`, in order.
pub open spec fn spec_insert_all(s: Seq<PostFile>, fs: Seq<PostFile>) -> Seq<PostFile>
    decreases fs.len(),
{
    if fs.len() == 0 {
        s
    } else {
        spec_insert(spec_insert_all(s, fs.drop_last()), fs.last())
    }
}

/// Set-semantics insertion of the surviving files of every post of
/// `posts`, in order.
pub open spec fn spec_extract(s: Seq<PostFile>, posts: Seq<Post>) -> Seq<PostFile>
    decreases posts.len(),
{
    if posts.len() == 0 {
        s
    } else {
        spec_insert_all(spec_extract(s, posts.drop_last()), posts.last().spec_files())
    }
}

/// The deduplicating set of file descriptors accumulated for one target.
/// It never holds a descriptor without a path, nor two descriptors with
/// equal remote path.
pub struct FileSet {
    pub files: Vec<PostFile>,
}

impl FileSet {
    /// The set's invariant: every member carries a path, and no two
    /// members share one.
    pub open spec fn wf(self) -> bool {
        &&& forall|i: int| 0 <= i < self.files@.len() ==> (#[trigger] self.files@[i]).path is Some
        &&& forall|i: int, j: int|
            0 <= i < j < self.files@.len() ==> self.files@[i].spec_key()
                != self.files@[j].spec_key()
    }

    /// An empty set.
    pub fn new() -> (r: FileSet)
        ensures
            r.wf(),
            r.files@.len() == 0,
    {
        FileSet { files: Vec::new() }
    }

    /// How many distinct files the set holds.
    pub fn len(&self) -> (r: usize)
        ensures
            r == self.files@.len(),
    {
        self.files.len()
    }

    /// Whether the set already holds a descriptor with `pf`'s remote path.
    pub fn contains_path(&self, pf: &PostFile) -> (r: bool)
        ensures
            r == seq_has_key(self.files@, pf.spec_key()),
    {
        let n = self.files.len();
        let mut i: usize = 0;
        while i < n
            invariant
                0 <= i <= n,
                n == self.files@.len(),
                forall|j: int| 0 <= j < i ==> self.files@[j].spec_key() != pf.spec_key(),
            decreases n - i,
        {
            let same: bool = match (&self.files[i].path, &pf.path) {
                (Some(a), Some(b)) => *a == *b,
                (None, None) => true,
                _ => false,
            };
            proof {
                assert(same == (self.files@[i as int].spec_key() == pf.spec_key()));
            }
            if same {
                return true;
            }
            i = i + 1;
        }
        false
    }

    /// Inserts a descriptor with set semantics: descriptors with equal
    /// remote path collapse to one.
    pub fn insert(&mut self, pf: PostFile)
        requires
            old(self).wf(),
            pf.path is Some,
        ensures
            final(self).wf(),
            final(self).files@ == spec_insert(old(self).files@, pf),
    {
        if !self.contains_path(&pf) {
            self.files.push(pf);
        }
    }
}

/// Two post records whose file entries reference the same remote path
/// extract to a deduplicated set of size 1.
pub proof fn lemma_two_posts_same_path_dedup(q1: Post, q2: Post, k: Seq<char>)
    requires
        q1.spec_files().len() == 1,
        q2.spec_files().len() == 1,
        q1.spec_files()[0].spec_key() == Some(k),
        q2.spec_files()[0].spec_key() == Some(k),
    ensures
        spec_extract(Seq::<PostFile>::empty(), seq![q1, q2]).len() == 1,
{
    let e = Seq::<PostFile>::empty();
    let none = Seq::<Post>::empty();
    let one = seq![q1];
    let two = seq![q1, q2];
    let f1 = q1.spec_files()[0];
    let f2 = q2.spec_files()[0];
    assert(q1.spec_files() =~= seq![f1]);
    assert(q2.spec_files() =~= seq![f2]);

    assert(spec_extract(e, none) == e);
    assert(spec_insert_all(e, e) == e);
    assert(one.drop_last() =~= none);
    assert(one.last() == q1);
    assert(spec_extract(e, one) == spec_insert_all(e, seq![f1]));
    assert(seq![f1].drop_last() =~= e);
    assert(seq![f1].last() == f1);
    assert(spec_insert_all(e, seq![f1]) == spec_insert(e, f1));
    assert(spec_insert(e, f1) =~= seq![f1]);

    assert(two.drop_last() =~= one);
    assert(two.last() == q2);
    assert(spec_insert_all(seq![f1], e) == seq![f1]);
    assert(seq![f2].drop_last() =~= e);
    assert(seq![f2].last() == f2);
    assert(spec_extract(e, two) == spec_insert_all(seq![f1], seq![f2]));
    assert(spec_insert_all(seq![f1], seq![f2]) == spec_insert(seq![f1], f2));
    assert(seq![f1][0].spec_key() == f2.spec_key());
    assert(seq_has_key(seq![f1], f2.spec_key()));
    assert(spec_insert(seq![f1], f2) == seq![f1]);
}

/// Everything retrieved for one target: the post records while they last,
/// and the deduplicated file descriptors extracted from them.
pub struct Profile {
    pub target: Target,
    pub post_count: usize,
    pub posts: Vec<Post>,
    pub files: FileSet,
}

impl Profile {
    /// A fresh profile for `target`, with no posts and no files yet.
    pub fn new(target: Target) -> (r: Profile)
        ensures
            r.target == target,
            r.post_count == 0,
            r.posts@.len() == 0,
            r.files.wf(),
            r.files.files@.len() == 0,
    {
        Profile { target, post_count: 0, posts: Vec::new(), files: FileSet::new() }
    }

    /// Appends a retrieved batch of post records.
    pub fn absorb_posts(&mut self, posts: &mut Vec<Post>)
        ensures
            final(self).posts@ == old(self).posts@ + old(posts)@,
            final(posts)@.len() == 0,
            final(self).target == old(self).target,
            final(self).post_count == old(self).post_count,
            final(self).files == old(self).files,
    {
        self.posts.append(posts);
    }

    /// The listing API URL for `target` at `offset`.
    pub open spec fn spec_api_url_with_offset(target: Target, offset: u64) -> Seq<char> {
        "https://"@ + target.spec_site() + ".su/api/v1/"@ + spec_service_name(
            target.spec_service(),
        ) + "/user/"@ + target.spec_user() + "?o="@ + spec_decimal(offset as nat)
    }

    /// Builds the listing API URL for `target` at `offset`.
    pub fn api_url_with_offset(target: &Target, offset: u64) -> (r: String)
        ensures
            r@ == Self::spec_api_url_with_offset(*target, offset),
    {
        let mut r = String::from_str("https://");
        r.append(target.site());
        r.append(".su/api/v1/");
        r.append(target.service().name());
        r.append("/user/");
        let user = target.user();
        r.append(user.as_str());
        r.append("?o=");
        let off = u64_to_string(offset);
        r.append(off.as_str());
        r
    }

    /// The single-post API URL for `target` and the post id `post`.
    pub open spec fn spec_api_post_url(target: Target, post: Seq<char>) -> Seq<char> {
        "https://"@ + target.spec_site() + ".su/api/v1/"@ + spec_service_name(
            target.spec_service(),
        ) + "/user/"@ + target.spec_user() + "/post/"@ + post
    }

    /// Builds the single-post API URL for `target` and the post id `post`.
    pub fn api_post_url(target: &Target, post: &str) -> (r: String)
        ensures
            r@ == Self::spec_api_post_url(*target, post@),
    {
        let mut r = String::from_str("https://");
        r.append(target.site());
        r.append(".su/api/v1/");
        r.append(target.service().name());
        r.append("/user/");
        let user = target.user();
        r.append(user.as_str());
        r.append("/post/");
        r.append(post);
        r
    }

    /// The phrase counting files: `no files`, `1 file`, or `<n> files`.
    pub open spec fn spec_files_phrase(n: nat) -> Seq<char> {
        if n == 0 {
            "no files"@
        } else if n == 1 {
            "1 file"@
        } else {
            spec_decimal(n) + " files"@
        }
    }

    /// The phrase counting posts: `no posts`, `1 post`, or `<n> posts`.
    pub open spec fn spec_posts_phrase(n: nat) -> Seq<char> {
        if n == 0 {
            "no posts"@
        } else if n == 1 {
            "1 post"@
        } else {
            spec_decimal(n) + " posts"@
        }
    }

    /// The clause appended after a post count, relating the file count.
    pub open spec fn spec_files_clause(n: nat) -> Seq<char> {
        if n == 0 {
            ", but no files"@
        } else if n == 1 {
            ", containing 1 file"@
        } else {
            ", containing "@ + spec_decimal(n) + " files"@
        }
    }

    /// The per-target summary shown after retrieval and extraction: the
    /// target's identity with its post and distinct-file counts. A
    /// single-post or single-channel target reports its files alone; a
    /// one-page target names the page; a full target omits the file
    /// clause when it has no posts at all.
    pub open spec fn spec_summary(self) -> Seq<char> {
        let np = self.post_count as nat;
        let nf = self.files.files@.len();
        match self.target {
            Target::Creator { subtype: SubType::Post(_), .. } => self.target.spec_label()
                + " has "@ + Self::spec_files_phrase(nf),
            Target::Discord { channel: Some(_), .. } => self.target.spec_label() + " has "@
                + Self::spec_files_phrase(nf),
            Target::Creator { subtype: SubType::PageOffset(o), .. } => self.target.spec_label()
                + " page "@ + spec_decimal((((o as int) + 50) / 50) as nat) + " has "@
                + Self::spec_posts_phrase(np) + Self::spec_files_clause(nf),
            _ => self.target.spec_label() + " has "@ + Self::spec_posts_phrase(np) + (if np == 0 {
                Seq::<char>::empty()
            } else {
                Self::spec_files_clause(nf)
            }),
        }
    }

    /// Renders the per-target summary.
    pub fn summary(&self) -> (r: String)
        requires
            self.target matches Target::Creator { subtype: SubType::PageOffset(o), .. } ==> o + 50
                <= u64::MAX,
        ensures
            r@ == self.spec_summary(),
    {
        let mut r = self.target.label();
        let nf = self.files.len() as u64;
        let np = self.post_count as u64;
        let single = match &self.target {
            Target::Creator { subtype: SubType::Post(_), .. } => true,
            Target::Discord { channel: Some(_), .. } => true,
            _ => false,
        };
        if single {
            r.append(" has ");
            let f = Self::files_phrase(nf);
            r.append(f.as_str());
            proof {
                assert(r@ =~= self.spec_summary());
            }
            return r;
        }
        if let Target::Creator { subtype: SubType::PageOffset(o), .. } = &self.target {
            r.append(" page ");
            let page = u64_to_string((*o + 50) / 50);
            r.append(page.as_str());
            r.append(" has ");
            let p = Self::posts_phrase(np);
            r.append(p.as_str());
            let f = Self::files_clause(nf);
            r.append(f.as_str());
            proof {
                assert(r@ =~= self.spec_summary());
            }
            return r;
        }
        r.append(" has ");
        let p = Self::posts_phrase(np);
        r.append(p.as_str());
        if np > 0 {
            let f = Self::files_clause(nf);
            r.append(f.as_str());
        }
        proof {
            assert(r@ =~= self.spec_summary());
        }
        r
    }

    /// Renders the phrase counting files.
    fn files_phrase(n: u64) -> (r: String)
        ensures
            r@ == Self::spec_files_phrase(n as nat),
    {
        if n == 0 {
            String::from_str("no files")
        } else if n == 1 {
            String::from_str("1 file")
        } else {
            let mut r = u64_to_string(n);
            r.append(" files");
            r
        }
    }

    /// Renders the phrase counting posts.
    fn posts_phrase(n: u64) -> (r: String)
        ensures
            r@ == Self::spec_posts_phrase(n as nat),
    {
        if n == 0 {
            String::from_str("no posts")
        } else if n == 1 {
            String::from_str("1 post")
        } else {
            let mut r = u64_to_string(n);
            r.append(" posts");
            r
        }
    }

    /// Renders the clause relating the file count.
    fn files_clause(n: u64) -> (r: String)
        ensures
            r@ == Self::spec_files_clause(n as nat),
    {
        if n == 0 {
            String::from_str(", but no files")
        } else if n == 1 {
            String::from_str(", containing 1 file")
        } else {
            let mut r = String::from_str(", containing ");
            let d = u64_to_string(n);
            r.append(d.as_str());
            r.append(" files");
            r
        }
    }

    /// Flattens the accumulated posts into the deduplicated file set,
    /// records the post count, and discards the post records.
    pub fn init_files(&mut self)
        requires
            old(self).files.wf(),
        ensures
            final(self).files.wf(),
            final(self).files.files@ == spec_extract(old(self).files.files@, old(self).posts@),
            final(self).post_count == old(self).posts@.len(),
            final(self).posts@.len() == 0,
            final(self).target == old(self).target,
    {
        let ghost posts0 = self.posts@;
        let ghost files0 = self.files.files@;
        self.post_count = self.posts.len();
        let n = self.posts.len();
        let mut k: usize = 0;
        while k < n
            invariant
                0 <= k <= n,
                n == posts0.len(),
                self.posts@ == posts0.skip(k as int),
                self.files.wf(),
                self.files.files@ == spec_extract(files0, posts0.take(k as int)),
                self.target == old(self).target,
                self.post_count == posts0.len(),
            decreases n - k,
        {
            let post = self.posts.remove(0);
            proof {
                assert(post == posts0[k as int]);
                assert(posts0.skip(k as int).remove(0) =~= posts0.skip(k + 1));
            }
            let ghost before = self.files.files@;
            let mut fs = post.files();
            proof {
                lemma_kept_files_all_present(post.spec_all_files());
            }
            let m = fs.len();
            let mut j: usize = 0;
            while j < m
                invariant
                    0 <= j <= m,
                    m == fs@.len(),
                    fs@ == posts0[k as int].spec_files(),
                    forall|i: int| 0 <= i < fs@.len() ==> (#[trigger] fs@[i]).path is Some,
                    self.files.wf(),
                    self.files.files@ == spec_insert_all(before, fs@.take(j as int)),
                    self.target == old(self).target,
                    self.post_count == posts0.len(),
                    self.posts@ == posts0.skip(k + 1),
                decreases m - j,
            {
                let f = fs[j].clone();
                proof {
                    assert(f == fs@[j as int]);
                    assert(fs@.take(j + 1).drop_last() =~= fs@.take(j as int));
                    assert(fs@.take(j + 1).last() == f);
                }
                self.files.insert(f);
                j = j + 1;
            }
            proof {
                assert(fs@.take(m as int) =~= fs@);
                assert(posts0.take(k + 1).drop_last() =~= posts0.take(k as int));
                assert(posts0.take(k + 1).last() == posts0[k as int]);
            }
            k = k + 1;
        }
        proof {
            assert(posts0.take(n as int) =~= posts0);
            assert(self.posts@ =~= Seq::<Post>::empty());
        }
    }
}

} // verus!

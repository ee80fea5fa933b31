use postvault::posts::{Post, PostFile};
use postvault::profile::Profile;
use postvault::target::{Service, SubType, Target};

fn pf(path: &str) -> PostFile {
    PostFile { path: Some(String::from(path)) }
}

fn no_file() -> PostFile {
    PostFile { path: None }
}

fn creator_all() -> Target {
    Target::Creator {
        service: Service::Patreon,
        user: String::from("alice"),
        subtype: SubType::All,
    }
}

const P1: &str = "/6e/6c/6e6cf84df44c1d091a2e36b6df77b098107c18831833de1e2e9c8207206f150b.jpg";
const P2: &str = "/11/22/1122f84df44c1d091a2e36b6df77b098107c18831833de1e2e9c8207206f150b.png";

#[test]
fn empty_post_yields_no_descriptors() {
    let post = Post { file: no_file(), attachments: Vec::new() };
    let files = post.files();
    assert_eq!(files.len(), 0);
}

#[test]
fn absent_paths_are_excluded() {
    let post = Post {
        file: no_file(),
        attachments: vec![no_file(), pf(P1), no_file()],
    };
    let files = post.files();
    assert_eq!(files.len(), 1);
    assert_eq!(files[0].path.as_deref(), Some(P1));
}

#[test]
fn primary_file_comes_first() {
    let post = Post { file: pf(P1), attachments: vec![pf(P2)] };
    let files = post.files();
    assert_eq!(files.len(), 2);
    assert_eq!(files[0].path.as_deref(), Some(P1));
    assert_eq!(files[1].path.as_deref(), Some(P2));
}

#[test]
fn same_path_deduplicates_to_one() {
    let mut profile = Profile::new(creator_all());
    profile.posts.push(Post { file: pf(P1), attachments: Vec::new() });
    profile.posts.push(Post { file: pf(P1), attachments: Vec::new() });
    profile.init_files();
    assert_eq!(profile.files.len(), 1);
    assert_eq!(profile.post_count, 2);
    assert_eq!(profile.posts.len(), 0);
}

#[test]
fn distinct_paths_are_kept_apart() {
    let mut profile = Profile::new(creator_all());
    profile.posts.push(Post { file: pf(P1), attachments: vec![pf(P2)] });
    profile.posts.push(Post { file: pf(P2), attachments: Vec::new() });
    profile.init_files();
    assert_eq!(profile.files.len(), 2);
    assert_eq!(profile.post_count, 2);
}

#[test]
fn extraction_discards_posts() {
    let mut profile = Profile::new(creator_all());
    profile.posts.push(Post { file: no_file(), attachments: Vec::new() });
    profile.init_files();
    assert_eq!(profile.post_count, 1);
    assert_eq!(profile.posts.len(), 0);
    assert_eq!(profile.files.len(), 0);
}

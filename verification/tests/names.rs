use postvault::posts::PostFile;
use postvault::profile::Profile;
use postvault::target::{Service, SubType, Target};
use postvault::text::{str_eq, suffix_after_last, to_ascii_lowercase_str, u64_to_string};

const HASH: &str = "6e6cf84df44c1d091a2e36b6df77b098107c18831833de1e2e9c8207206f150b";

fn pf(path: &str) -> PostFile {
    PostFile { path: Some(String::from(path)) }
}

fn creator(subtype: SubType) -> Target {
    Target::Creator { service: Service::OnlyFans, user: String::from("bob"), subtype }
}

#[test]
fn decimal_rendering() {
    assert_eq!(u64_to_string(0), "0");
    assert_eq!(u64_to_string(7), "7");
    assert_eq!(u64_to_string(50), "50");
    assert_eq!(u64_to_string(1234567890), "1234567890");
    assert_eq!(u64_to_string(u64::MAX), "18446744073709551615");
}

#[test]
fn string_helpers() {
    assert!(str_eq("abc", "abc"));
    assert!(!str_eq("abc", "abd"));
    assert!(!str_eq("abc", "ab"));
    assert_eq!(suffix_after_last("/a/b/c.jpg", '/'), "c.jpg");
    assert_eq!(suffix_after_last("no-slash", '/'), "no-slash");
    assert_eq!(to_ascii_lowercase_str("JPeG9-_"), "jpeg9-_");
}

#[test]
fn file_names_derive_from_the_remote_path() {
    let f = pf(&format!("/6e/6c/{HASH}.JPG"));
    assert_eq!(f.to_name(), format!("{HASH}.JPG"));
    assert_eq!(f.to_temp_name(), format!("{HASH}.JPG.temp"));
    assert_eq!(f.to_hash(), HASH);
    assert_eq!(f.to_extension(), Some(String::from("jpg")));
}

#[test]
fn extension_cases() {
    assert_eq!(pf("/a/b/noext").to_extension(), None);
    assert_eq!(pf("/a/b/.hidden").to_extension(), None);
    assert_eq!(pf("/a/b/x.tar.GZ").to_extension(), Some(String::from("gz")));
}

#[test]
fn cdn_url_uses_the_site_family() {
    let f = pf(&format!("/6e/6c/{HASH}.jpg"));
    assert_eq!(
        f.to_url(&creator(SubType::All)),
        format!("https://coomer.su/data/6e/6c/{HASH}.jpg")
    );
    let kemono = Target::Creator {
        service: Service::Patreon,
        user: String::from("alice"),
        subtype: SubType::All,
    };
    assert_eq!(f.to_url(&kemono), format!("https://kemono.su/data/6e/6c/{HASH}.jpg"));
}

#[test]
fn on_disk_layout() {
    let f = pf(&format!("/6e/6c/{HASH}.jpg"));
    let t = creator(SubType::All);
    assert_eq!(t.to_pathbuf("out", None), "out/onlyfans/bob");
    assert_eq!(
        f.to_pathbuf(&t, "out"),
        format!("out/onlyfans/bob/{HASH}.jpg")
    );
    assert_eq!(
        f.to_temp_pathbuf(&t, "out"),
        format!("out/onlyfans/bob/{HASH}.jpg.temp")
    );
}

#[test]
fn services_and_sites() {
    assert_eq!(Service::OnlyFans.site(), "coomer");
    assert_eq!(Service::Fansly.site(), "coomer");
    assert_eq!(Service::CandFans.site(), "coomer");
    assert_eq!(Service::Patreon.site(), "kemono");
    assert_eq!(Service::Discord.site(), "kemono");
    assert_eq!(Service::Patreon.name(), "patreon");
    assert_eq!(Service::from_name("patreon"), Some(Service::Patreon));
    assert_eq!(Service::from_name("subscribestar"), Some(Service::SubscribeStar));
    assert_eq!(Service::from_name("myspace"), None);
}

#[test]
fn target_accessors() {
    let t = creator(SubType::Post(String::from("99")));
    assert_eq!(t.service(), Service::OnlyFans);
    assert_eq!(t.user(), "bob");
    assert_eq!(t.page_size(), 50);
    assert_eq!(t.label(), "onlyfans/bob/99");
    let d = Target::Discord {
        server: String::from("123"),
        channel: Some(String::from("456")),
    };
    assert_eq!(d.service(), Service::Discord);
    assert_eq!(d.user(), "123");
    assert_eq!(d.page_size(), 150);
    assert_eq!(d.label(), "discord/123/456");
    let d2 = Target::Discord { server: String::from("123"), channel: None };
    assert_eq!(d2.label(), "discord/123");
}

#[test]
fn summaries() {
    let mut p = Profile::new(creator(SubType::All));
    assert_eq!(p.summary(), "onlyfans/bob has no posts");
    p.post_count = 1;
    p.files.insert(pf("/a/b/x.jpg"));
    assert_eq!(p.summary(), "onlyfans/bob has 1 post, containing 1 file");
    p.post_count = 3;
    p.files.insert(pf("/a/b/y.jpg"));
    assert_eq!(p.summary(), "onlyfans/bob has 3 posts, containing 2 files");

    let mut p = Profile::new(creator(SubType::PageOffset(100)));
    p.post_count = 2;
    assert_eq!(p.summary(), "onlyfans/bob page 3 has 2 posts, but no files");

    let mut p = Profile::new(creator(SubType::Post(String::from("99"))));
    p.files.insert(pf("/a/b/x.jpg"));
    assert_eq!(p.summary(), "onlyfans/bob/99 has 1 file");
}

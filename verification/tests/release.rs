use appdater::outcome::Failure;
use appdater::release::{latest_release, latest_tag, Author, GitHubRelease, GitHubReleases, Reactions};

fn tagged(tag: &str) -> GitHubRelease {
    let mut release = GitHubRelease::default();
    release.tag_name = String::from(tag);
    release
}

#[test]
fn default_reactions_are_blank() {
    let reactions = Reactions::default();
    assert_eq!(reactions.url, "");
    assert_eq!(reactions.total_count, 0);
    assert_eq!(reactions.n1, 0);
    assert_eq!(reactions.n12, 0);
    assert_eq!(reactions.laugh, 0);
    assert_eq!(reactions.hooray, 0);
    assert_eq!(reactions.confused, 0);
    assert_eq!(reactions.heart, 0);
    assert_eq!(reactions.rocket, 0);
    assert_eq!(reactions.eyes, 0);
}

#[test]
fn default_author_is_blank() {
    let author = Author::default();
    assert_eq!(author.login, "");
    assert_eq!(author.id, 0);
    assert_eq!(author.node_id, "");
    assert_eq!(author.avatar_url, "");
    assert_eq!(author.gravatar_id, "");
    assert_eq!(author.url, "");
    assert_eq!(author.html_url, "");
    assert_eq!(author.followers_url, "");
    assert_eq!(author.following_url, "");
    assert_eq!(author.gists_url, "");
    assert_eq!(author.starred_url, "");
    assert_eq!(author.subscriptions_url, "");
    assert_eq!(author.organizations_url, "");
    assert_eq!(author.repos_url, "");
    assert_eq!(author.events_url, "");
    assert_eq!(author.received_events_url, "");
    assert_eq!(author.type_field, "");
    assert!(!author.site_admin);
}

#[test]
fn default_release_is_blank() {
    let release = GitHubRelease::default();
    assert_eq!(release.url, "");
    assert_eq!(release.assets_url, "");
    assert_eq!(release.upload_url, "");
    assert_eq!(release.html_url, "");
    assert_eq!(release.id, 0);
    assert_eq!(release.author, Author::default());
    assert_eq!(release.node_id, "");
    assert_eq!(release.tag_name, "");
    assert_eq!(release.target_commitish, "");
    assert_eq!(release.name, "");
    assert!(!release.draft);
    assert!(!release.prerelease);
    assert_eq!(release.created_at, "");
    assert_eq!(release.published_at, "");
    assert!(release.assets.is_empty());
    assert_eq!(release.tarball_url, "");
    assert_eq!(release.zipball_url, "");
    assert_eq!(release.body, "");
    assert_eq!(release.reactions, Reactions::default());
}

#[test]
fn releases_compare_by_their_fields() {
    assert_eq!(tagged("1.0.0"), tagged("1.0.0"));
    assert_ne!(tagged("1.0.0"), tagged("1.0.1"));
    let copy = tagged("1.0.0").clone();
    assert_eq!(copy, tagged("1.0.0"));
}

#[test]
fn latest_tag_is_the_first_tag() {
    let releases: GitHubReleases = vec![tagged("1.86.0"), tagged("1.85.2"), tagged("1.85.1")];
    assert_eq!(latest_tag(&releases), Ok(String::from("1.86.0")));
}

#[test]
fn latest_tag_of_a_single_release() {
    assert_eq!(latest_tag(&vec![tagged("1.85.2")]), Ok(String::from("1.85.2")));
}

#[test]
fn latest_tag_of_no_release_fails() {
    assert_eq!(latest_tag(&Vec::new()), Err(Failure::NoReleases));
}

#[test]
fn latest_release_is_the_first_entry() {
    let releases = vec![tagged("2.0.0"), tagged("1.0.0")];
    assert_eq!(latest_release(&releases), Some(&releases[0]));
    assert_eq!(latest_release(&Vec::new()), None);
}

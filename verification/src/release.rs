//! Published releases, as a release index lists them.

use crate::outcome::{text_result, Failure};
use vstd::prelude::*;

verus! {

/// The releases of a project, newest first.
pub type GitHubReleases = Vec<GitHubRelease>;

/// One published release.
#[derive(Debug, Clone, PartialEq)]
pub struct GitHubRelease {
    pub url: String,
    pub assets_url: String,
    pub upload_url: String,
    pub html_url: String,
    pub id: i64,
    pub author: Author,
    pub node_id: String,
    pub tag_name: String,
    pub target_commitish: String,
    pub name: String,
    pub draft: bool,
    pub prerelease: bool,
    pub created_at: String,
    pub published_at: String,
    pub assets: Vec<serde_json::Value>,
    pub tarball_url: String,
    pub zipball_url: String,
    pub body: String,
    pub reactions: Reactions,
}

/// The account that published a release.
#[derive(Debug, Clone, PartialEq)]
pub struct Author {
    pub login: String,
    pub id: i64,
    pub node_id: String,
    pub avatar_url: String,
    pub gravatar_id: String,
    pub url: String,
    pub html_url: String,
    pub followers_url: String,
    pub following_url: String,
    pub gists_url: String,
    pub starred_url: String,
    pub subscriptions_url: String,
    pub organizations_url: String,
    pub repos_url: String,
    pub events_url: String,
    pub received_events_url: String,
    pub type_field: String,
    pub site_admin: bool,
}

/// How readers reacted to a release.
#[derive(Debug, Clone, PartialEq)]
pub struct Reactions {
    pub url: String,
    pub total_count: i64,
    pub n1: i64,
    pub n12: i64,
    pub laugh: i64,
    pub hooray: i64,
    pub confused: i64,
    pub heart: i64,
    pub rocket: i64,
    pub eyes: i64,
}

impl Reactions {
    /// Every count is zero and the address is empty.
    pub open spec fn blank(self) -> bool {
        &&& self.url@ == Seq::<char>::empty()
        &&& self.total_count == 0
        &&& self.n1 == 0
        &&& self.n12 == 0
        &&& self.laugh == 0
        &&& self.hooray == 0
        &&& self.confused == 0
        &&& self.heart == 0
        &&& self.rocket == 0
        &&& self.eyes == 0
    }
}

impl Default for Reactions {
    fn default() -> (r: Reactions)
        ensures
            r.blank(),
    {
        Reactions {
            url: String::new(),
            total_count: 0,
            n1: 0,
            n12: 0,
            laugh: 0,
            hooray: 0,
            confused: 0,
            heart: 0,
            rocket: 0,
            eyes: 0,
        }
    }
}

impl Author {
    /// Every text is empty, the number is zero and the flag is off.
    pub open spec fn blank(self) -> bool {
        &&& self.login@ == Seq::<char>::empty()
        &&& self.id == 0
        &&& self.node_id@ == Seq::<char>::empty()
        &&& self.avatar_url@ == Seq::<char>::empty()
        &&& self.gravatar_id@ == Seq::<char>::empty()
        &&& self.url@ == Seq::<char>::empty()
        &&& self.html_url@ == Seq::<char>::empty()
        &&& self.followers_url@ == Seq::<char>::empty()
        &&& self.following_url@ == Seq::<char>::empty()
        &&& self.gists_url@ == Seq::<char>::empty()
        &&& self.starred_url@ == Seq::<char>::empty()
        &&& self.subscriptions_url@ == Seq::<char>::empty()
        &&& self.organizations_url@ == Seq::<char>::empty()
        &&& self.repos_url@ == Seq::<char>::empty()
        &&& self.events_url@ == Seq::<char>::empty()
        &&& self.received_events_url@ == Seq::<char>::empty()
        &&& self.type_field@ == Seq::<char>::empty()
        &&& !self.site_admin
    }
}

impl Default for Author {
    fn default() -> (r: Author)
        ensures
            r.blank(),
    {
        Author {
            login: String::new(),
            id: 0,
            node_id: String::new(),
            avatar_url: String::new(),
            gravatar_id: String::new(),
            url: String::new(),
            html_url: String::new(),
            followers_url: String::new(),
            following_url: String::new(),
            gists_url: String::new(),
            starred_url: String::new(),
            subscriptions_url: String::new(),
            organizations_url: String::new(),
            repos_url: String::new(),
            events_url: String::new(),
            received_events_url: String::new(),
            type_field: String::new(),
            site_admin: false,
        }
    }
}

impl GitHubRelease {
    /// Every text and list is empty, the number is zero, the flags are off,
    /// and author and reactions are blank themselves.
    pub open spec fn blank(self) -> bool {
        &&& self.url@ == Seq::<char>::empty()
        &&& self.assets_url@ == Seq::<char>::empty()
        &&& self.upload_url@ == Seq::<char>::empty()
        &&& self.html_url@ == Seq::<char>::empty()
        &&& self.id == 0
        &&& self.author.blank()
        &&& self.node_id@ == Seq::<char>::empty()
        &&& self.tag_name@ == Seq::<char>::empty()
        &&& self.target_commitish@ == Seq::<char>::empty()
        &&& self.name@ == Seq::<char>::empty()
        &&& !self.draft
        &&& !self.prerelease
        &&& self.created_at@ == Seq::<char>::empty()
        &&& self.published_at@ == Seq::<char>::empty()
        &&& self.assets@.len() == 0
        &&& self.tarball_url@ == Seq::<char>::empty()
        &&& self.zipball_url@ == Seq::<char>::empty()
        &&& self.body@ == Seq::<char>::empty()
        &&& self.reactions.blank()
    }
}

impl Default for GitHubRelease {
    fn default() -> (r: GitHubRelease)
        ensures
            r.blank(),
    {
        GitHubRelease {
            url: String::new(),
            assets_url: String::new(),
            upload_url: String::new(),
            html_url: String::new(),
            id: 0,
            author: Author::default(),
            node_id: String::new(),
            tag_name: String::new(),
            target_commitish: String::new(),
            name: String::new(),
            draft: false,
            prerelease: false,
            created_at: String::new(),
            published_at: String::new(),
            assets: Vec::new(),
            tarball_url: String::new(),
            zipball_url: String::new(),
            body: String::new(),
            reactions: Reactions::default(),
        }
    }
}

/// The tags of a list of releases, in the order of the list.
pub open spec fn tags(releases: Seq<GitHubRelease>) -> Seq<Seq<char>> {
    Seq::new(releases.len(), |i: int| releases[i].tag_name@)
}

/// The version that a list of release tags announces as the latest: the
/// first tag of the list.
pub open spec fn newest(tags: Seq<Seq<char>>) -> Result<Seq<char>, Failure> {
    if tags.len() == 0 {
        Err(Failure::NoReleases)
    } else {
        Ok(tags[0])
    }
}

/// The latest release of a list: its first entry, if it has one.
pub fn latest_release(releases: &Vec<GitHubRelease>) -> (r: Option<&GitHubRelease>)
    ensures
        releases@.len() == 0 <==> r.is_none(),
        r matches Some(release) ==> *release == releases@[0],
{
    if releases.len() == 0 {
        None
    } else {
        Some(&releases[0])
    }
}

/// The latest published version: the tag of the first release of the list.
///
/// Fails with `NoReleases` exactly where the list is empty.
pub fn latest_tag(releases: &Vec<GitHubRelease>) -> (r: Result<String, Failure>)
    ensures
        text_result(r) == newest(tags(releases@)),
{
    match latest_release(releases) {
        None => Err(Failure::NoReleases),
        Some(release) => Ok(release.tag_name.clone()),
    }
}

} // verus!

//! The applications that can be kept current, and where each of them lives:
//! on disk, at its vendor, and in the temporary directory while it is fetched.

use crate::outcome::text_option;
use vstd::prelude::*;
use vstd::string::*;

verus! {

/// The directory under which applications are looked for: the one chosen on
/// the command line where there is one, the home directory otherwise. A home
/// directory is needed in either case.
pub open spec fn download_root_text(home: Option<Seq<char>>, chosen: Option<Seq<char>>) -> Option<
    Seq<char>,
> {
    match (home, chosen) {
        (None, _) => None,
        (Some(_), Some(dir)) => Some(dir),
        (Some(dir), None) => Some(dir),
    }
}

/// Settles the directory under which applications are looked for.
///
/// Gives `None` exactly where no home directory is known, even if another
/// directory was chosen; otherwise the chosen directory, or the home
/// directory where none was chosen.
pub fn download_root(home: Option<String>, chosen: Option<String>) -> (r: Option<String>)
    ensures
        text_option(r) == download_root_text(text_option(home), text_option(chosen)),
{
    match home {
        None => None,
        Some(dir) => match chosen {
            Some(other) => Some(other),
            None => Some(dir),
        },
    }
}

/// The application to check and update.
#[derive(Clone, Copy, Debug, PartialEq, Eq, Structural)]
pub enum AppSelection {
    VSCode,
    Discord,
}

impl AppSelection {
    /// The directory that holds every installed application of this kind,
    /// and into which a new version is extracted.
    pub open spec fn extract_dir_text(self, download_dir: Seq<char>) -> Seq<char> {
        match self {
            AppSelection::VSCode => download_dir + "/Apps"@,
            AppSelection::Discord => download_dir + "/Downloads"@,
        }
    }

    /// The directory of the installed application.
    pub open spec fn install_dir_text(self, download_dir: Seq<char>) -> Seq<char> {
        match self {
            AppSelection::VSCode => self.extract_dir_text(download_dir) + "/VSCode-linux-x64"@,
            AppSelection::Discord => self.extract_dir_text(download_dir) + "/DiscordCanary"@,
        }
    }

    /// The file in which the installed application records its version.
    pub open spec fn metadata_path_text(self, download_dir: Seq<char>) -> Seq<char> {
        match self {
            AppSelection::VSCode => self.install_dir_text(download_dir)
                + "/resources/app/package.json"@,
            AppSelection::Discord => self.install_dir_text(download_dir)
                + "/resources/build_info.json"@,
        }
    }

    /// The address that answers with a redirection to the latest archive.
    pub open spec fn probe_url_text(self) -> Seq<char> {
        match self {
            AppSelection::VSCode =>
                "https://code.visualstudio.com/sha/download?build=stable&os=linux-x64"@,
            AppSelection::Discord =>
                "https://discordapp.com/api/download/canary?platform=linux&format=tar.gz"@,
        }
    }

    /// The address of the release index, for an application whose latest
    /// version is looked up there.
    pub open spec fn releases_url_text(self) -> Option<Seq<char>> {
        match self {
            AppSelection::VSCode => Some(
                "https://api.github.com/repos/microsoft/vscode/releases"@,
            ),
            AppSelection::Discord => None,
        }
    }

    /// The `User-Agent` that requests for this application carry, if any.
    pub open spec fn user_agent_text(self) -> Option<Seq<char>> {
        match self {
            AppSelection::VSCode => Some("appdater 0.1.1"@),
            AppSelection::Discord => None,
        }
    }

    /// The temporary file that receives the archive of a version.
    pub open spec fn archive_path_text(self, version: Seq<char>) -> Seq<char> {
        match self {
            AppSelection::VSCode => "/tmp/vscode-"@ + version + ".tar.gz"@,
            AppSelection::Discord => "/tmp/discord-canary-0.0."@ + version + ".tar.gz"@,
        }
    }

    /// The directory into which a new version is extracted.
    pub fn extract_dir(&self, download_dir: &str) -> (r: String)
        ensures
            r@ == self.extract_dir_text(download_dir@),
    {
        let mut path = download_dir.to_owned();
        match self {
            AppSelection::VSCode => path.append("/Apps"),
            AppSelection::Discord => path.append("/Downloads"),
        }
        path
    }

    /// The directory of the installed application.
    pub fn install_dir(&self, download_dir: &str) -> (r: String)
        ensures
            r@ == self.install_dir_text(download_dir@),
    {
        let mut path = self.extract_dir(download_dir);
        match self {
            AppSelection::VSCode => path.append("/VSCode-linux-x64"),
            AppSelection::Discord => path.append("/DiscordCanary"),
        }
        path
    }

    /// The file in which the installed application records its version.
    pub fn metadata_path(&self, download_dir: &str) -> (r: String)
        ensures
            r@ == self.metadata_path_text(download_dir@),
    {
        let mut path = self.install_dir(download_dir);
        match self {
            AppSelection::VSCode => path.append("/resources/app/package.json"),
            AppSelection::Discord => path.append("/resources/build_info.json"),
        }
        path
    }

    /// The address that answers with a redirection to the latest archive.
    pub fn probe_url(&self) -> (r: String)
        ensures
            r@ == self.probe_url_text(),
    {
        match self {
            AppSelection::VSCode =>
                "https://code.visualstudio.com/sha/download?build=stable&os=linux-x64".to_owned(),
            AppSelection::Discord =>
                "https://discordapp.com/api/download/canary?platform=linux&format=tar.gz".to_owned(),
        }
    }

    /// The address of the release index, for an application whose latest
    /// version is looked up there.
    pub fn releases_url(&self) -> (r: Option<String>)
        ensures
            text_option(r) == self.releases_url_text(),
    {
        match self {
            AppSelection::VSCode => Some(
                "https://api.github.com/repos/microsoft/vscode/releases".to_owned(),
            ),
            AppSelection::Discord => None,
        }
    }

    /// The `User-Agent` that requests for this application carry, if any.
    pub fn user_agent(&self) -> (r: Option<String>)
        ensures
            text_option(r) == self.user_agent_text(),
    {
        match self {
            AppSelection::VSCode => Some("appdater 0.1.1".to_owned()),
            AppSelection::Discord => None,
        }
    }

    /// The temporary file that receives the archive of a version.
    pub fn archive_path(&self, version: &str) -> (r: String)
        ensures
            r@ == self.archive_path_text(version@),
    {
        let mut path = match self {
            AppSelection::VSCode => "/tmp/vscode-".to_owned(),
            AppSelection::Discord => "/tmp/discord-canary-0.0.".to_owned(),
        };
        path.append(version);
        path.append(".tar.gz");
        path
    }
}

} // verus!

use appdater::target::{download_root, AppSelection};

#[test]
fn vscode_lives_under_apps() {
    let app = AppSelection::VSCode;
    assert_eq!(app.extract_dir("/home/me"), "/home/me/Apps");
    assert_eq!(app.install_dir("/home/me"), "/home/me/Apps/VSCode-linux-x64");
    assert_eq!(
        app.metadata_path("/home/me"),
        "/home/me/Apps/VSCode-linux-x64/resources/app/package.json"
    );
}

#[test]
fn discord_lives_under_downloads() {
    let app = AppSelection::Discord;
    assert_eq!(app.extract_dir("/home/me"), "/home/me/Downloads");
    assert_eq!(app.install_dir("/home/me"), "/home/me/Downloads/DiscordCanary");
    assert_eq!(
        app.metadata_path("/home/me"),
        "/home/me/Downloads/DiscordCanary/resources/build_info.json"
    );
}

#[test]
fn paths_are_joined_as_given() {
    assert_eq!(AppSelection::VSCode.install_dir(""), "/Apps/VSCode-linux-x64");
    assert_eq!(AppSelection::Discord.extract_dir("/opt/"), "/opt//Downloads");
}

#[test]
fn probe_urls_are_fixed() {
    assert_eq!(
        AppSelection::VSCode.probe_url(),
        "https://code.visualstudio.com/sha/download?build=stable&os=linux-x64"
    );
    assert_eq!(
        AppSelection::Discord.probe_url(),
        "https://discordapp.com/api/download/canary?platform=linux&format=tar.gz"
    );
}

#[test]
fn only_vscode_has_a_release_index() {
    assert_eq!(
        AppSelection::VSCode.releases_url(),
        Some(String::from("https://api.github.com/repos/microsoft/vscode/releases"))
    );
    assert_eq!(AppSelection::Discord.releases_url(), None);
}

#[test]
fn only_vscode_names_a_user_agent() {
    assert_eq!(AppSelection::VSCode.user_agent(), Some(String::from("appdater 0.1.1")));
    assert_eq!(AppSelection::Discord.user_agent(), None);
}

#[test]
fn archives_are_named_after_the_version() {
    assert_eq!(AppSelection::VSCode.archive_path("1.86.0"), "/tmp/vscode-1.86.0.tar.gz");
    assert_eq!(
        AppSelection::Discord.archive_path("151"),
        "/tmp/discord-canary-0.0.151.tar.gz"
    );
    assert_eq!(AppSelection::VSCode.archive_path(""), "/tmp/vscode-.tar.gz");
}

#[test]
fn the_chosen_directory_wins_over_home() {
    assert_eq!(
        download_root(Some(String::from("/home/me")), Some(String::from("/srv/apps"))),
        Some(String::from("/srv/apps"))
    );
}

#[test]
fn home_is_the_default_directory() {
    assert_eq!(download_root(Some(String::from("/home/me")), None), Some(String::from("/home/me")));
}

#[test]
fn home_is_needed_even_with_a_chosen_directory() {
    assert_eq!(download_root(None, Some(String::from("/srv/apps"))), None);
    assert_eq!(download_root(None, None), None);
}

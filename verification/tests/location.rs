use goki::location::{
    announce_download, download_file, fetch_program_file, open_local, parse_gh_location,
    ArtifactMetadata, FetchError, FetchRequest, Location, LocationError,
};

fn registry(location: &str) -> (String, String) {
    match Location::try_from(location) {
        Ok(Location::SolanaProgramRegistry { id, version }) => (id, version),
        other => panic!("unexpected result: {:?}", other),
    }
}

fn github(location: &str) -> (String, String, String) {
    match Location::try_from(location) {
        Ok(Location::GitHub { program, repo, version }) => (program, repo, version),
        other => panic!("unexpected result: {:?}", other),
    }
}

fn local(location: &str) -> String {
    match Location::try_from(location) {
        Ok(Location::Local { path }) => path,
        other => panic!("unexpected result: {:?}", other),
    }
}

fn url(location: &str) -> String {
    match Location::try_from(location) {
        Ok(Location::URL { url }) => url,
        other => panic!("unexpected result: {:?}", other),
    }
}

fn refused(location: &str) -> LocationError {
    match Location::try_from(location) {
        Err(e) => e,
        other => panic!("unexpected result: {:?}", other),
    }
}

#[test]
fn github_reference_is_split_at_the_first_colon_and_at_sign() {
    assert_eq!(
        github("gh:smart_wallet:GokiProtocol/goki@0.5.2"),
        (
            "smart_wallet".to_string(),
            "GokiProtocol/goki".to_string(),
            "0.5.2".to_string()
        )
    );
    assert_eq!(
        github("gh:a:b:c@d@e"),
        ("a".to_string(), "b:c".to_string(), "d@e".to_string())
    );
    assert_eq!(
        github("gh::@"),
        ("".to_string(), "".to_string(), "".to_string())
    );
}

#[test]
fn github_reference_resolves_to_release_asset() {
    match fetch_program_file("gh:smart_wallet:GokiProtocol/goki@0.5.2") {
        Ok(FetchRequest::Download { url }) => assert_eq!(
            url,
            "https://github.com/GokiProtocol/goki/releases/download/v0.5.2/smart_wallet.so"
        ),
        other => panic!("unexpected result: {:?}", other),
    }
}

#[test]
fn github_reference_without_both_separators_is_refused() {
    for location in [
        "gh:",
        "gh:smart_wallet",
        "gh:smart_wallet:GokiProtocol/goki",
        "gh:GokiProtocol/goki@0.5.2",
        "gh:goki@0.5.2:smart_wallet",
        "gh:@:",
    ] {
        assert_eq!(refused(location), LocationError::InvalidGitHubRef);
    }
}

#[test]
fn registry_reference_without_version_is_latest() {
    assert_eq!(
        registry("spr:QuarryProtocol/quarry_mine"),
        ("QuarryProtocol/quarry_mine".to_string(), "latest".to_string())
    );
}

#[test]
fn registry_reference_is_split_at_the_first_at_sign() {
    assert_eq!(
        registry("spr:QuarryProtocol/quarry_mine@1.2.3"),
        ("QuarryProtocol/quarry_mine".to_string(), "1.2.3".to_string())
    );
    assert_eq!(registry("spr:a@b@c"), ("a".to_string(), "b@c".to_string()));
    assert_eq!(registry("spr:@"), ("".to_string(), "".to_string()));
    assert_eq!(registry("spr:a@"), ("a".to_string(), "".to_string()));
}

#[test]
fn registry_reference_with_nothing_behind_the_prefix_is_refused() {
    assert_eq!(refused("spr:"), LocationError::InvalidRegistryRef);
}

#[test]
fn registry_form_is_tried_before_the_others() {
    assert_eq!(
        registry("spr:gh:a:b@c"),
        ("gh:a:b".to_string(), "c".to_string())
    );
    assert_eq!(
        registry("spr:https://example.com/a.so"),
        ("https://example.com/a.so".to_string(), "latest".to_string())
    );
    assert_eq!(
        github("gh:https://x:y@z"),
        ("https".to_string(), "//x:y".to_string(), "z".to_string())
    );
}

#[test]
fn url_is_kept_as_written() {
    assert_eq!(
        url("https://github.com/GokiProtocol/goki/releases/download/v0.5.2/smart_wallet.so"),
        "https://github.com/GokiProtocol/goki/releases/download/v0.5.2/smart_wallet.so"
    );
    assert_eq!(url("http://127.0.0.1:8000/a b.so"), "http://127.0.0.1:8000/a b.so");
    assert_eq!(url("https://"), "https://");
}

#[test]
fn anything_else_is_a_local_path_kept_as_written() {
    for location in [
        "./path/to/program.so",
        "",
        "program.so",
        "/abs/program.so",
        "sp:a@b",
        "GH:a:b@c",
        "Https://example.com",
        "http:/example.com",
        "ftp://example.com/a.so",
        " spr:a",
        "pr\u{e9}fixe/\u{1F980}.so",
    ] {
        assert_eq!(local(location), location);
    }
}

#[test]
fn parse_gh_location_reads_the_remainder() {
    match parse_gh_location("smart_wallet:GokiProtocol/goki@0.5.2") {
        Some(Location::GitHub { program, repo, version }) => {
            assert_eq!(program, "smart_wallet");
            assert_eq!(repo, "GokiProtocol/goki");
            assert_eq!(version, "0.5.2");
        }
        other => panic!("unexpected result: {:?}", other),
    }
    assert!(parse_gh_location("smart_wallet").is_none());
    assert!(parse_gh_location("a@b:c").is_none());
}

#[test]
fn registry_reference_asks_for_the_metadata_document() {
    match fetch_program_file("spr:QuarryProtocol/quarry_mine") {
        Ok(FetchRequest::Metadata { url }) => assert_eq!(
            url,
            "https://raw.githubusercontent.com/DeployDAO/solana-program-index/master/artifacts-by-id/QuarryProtocol/quarry_mine@latest.json"
        ),
        other => panic!("unexpected result: {:?}", other),
    }
    match fetch_program_file("spr:a@1.0") {
        Ok(FetchRequest::Metadata { url }) => assert_eq!(
            url,
            "https://raw.githubusercontent.com/DeployDAO/solana-program-index/master/artifacts-by-id/a@1.0.json"
        ),
        other => panic!("unexpected result: {:?}", other),
    }
}

#[test]
fn url_and_path_are_fetched_as_they_are() {
    match fetch_program_file("https://example.com/a.so") {
        Ok(FetchRequest::Download { url }) => assert_eq!(url, "https://example.com/a.so"),
        other => panic!("unexpected result: {:?}", other),
    }
    match fetch_program_file("./a.so") {
        Ok(FetchRequest::Copy { path }) => assert_eq!(path, "./a.so"),
        other => panic!("unexpected result: {:?}", other),
    }
}

#[test]
fn malformed_location_is_not_fetched() {
    assert!(matches!(
        fetch_program_file("gh:smart_wallet"),
        Err(LocationError::InvalidGitHubRef)
    ));
    assert!(matches!(
        fetch_program_file("spr:"),
        Err(LocationError::InvalidRegistryRef)
    ));
}

#[test]
fn status_outside_200_to_299_is_artifact_not_found() {
    for status in [0u16, 100, 199, 300, 301, 404, 500, 999, u16::MAX] {
        assert_eq!(download_file(status), Err(FetchError::ArtifactNotFound));
    }
    for status in [200u16, 201, 204, 299] {
        assert_eq!(download_file(status), Ok(()));
    }
}

#[test]
fn absent_local_file_is_not_found() {
    assert_eq!(open_local(false), Err(FetchError::NotFound));
    assert_eq!(open_local(true), Ok(()));
}

#[test]
fn transfer_is_announced_with_its_target() {
    assert_eq!(
        announce_download("https://example.com/a.so"),
        "Downloading program code from https://example.com/a.so"
    );
}

fn metadata() -> ArtifactMetadata {
    ArtifactMetadata {
        id: "QuarryProtocol/quarry_mine".to_string(),
        tag: "v1.11.3".to_string(),
        name: "quarry_mine".to_string(),
        source: "https://github.com/QuarryProtocol/quarry".to_string(),
        url: "https://example.com/quarry_mine.so".to_string(),
        checksum: "abc123".to_string(),
    }
}

#[test]
fn metadata_is_described_line_by_line() {
    assert_eq!(
        metadata().print_info(),
        vec![
            "Artifact: QuarryProtocol/quarry_mine@v1.11.3",
            "  ID: QuarryProtocol/quarry_mine",
            "  Tag: v1.11.3",
            "  Name: quarry_mine",
            "  Source: https://github.com/QuarryProtocol/quarry",
            "  URL: https://example.com/quarry_mine.so",
            "  SHA256: abc123",
        ]
    );
}

#[test]
fn metadata_points_to_the_binary() {
    match metadata().download() {
        FetchRequest::Download { url } => assert_eq!(url, "https://example.com/quarry_mine.so"),
        other => panic!("unexpected request: {:?}", other),
    }
    let copy = metadata().clone();
    assert_eq!(copy.checksum, "abc123");
}

#[test]
fn refused_location_is_explained_by_the_expected_form() {
    assert_eq!(
        LocationError::InvalidGitHubRef.message(),
        "invalid gh format: should look like gh:program:owner/repo@version, for example `gh:smart_wallet:GokiProtocol/goki@0.5.2`"
    );
    assert_eq!(
        LocationError::InvalidRegistryRef.message(),
        "invalid spr format: should look like spr:id[@version], for example `spr:QuarryProtocol/quarry_mine`"
    );
    assert_eq!(FetchError::ArtifactNotFound.message(), "program file not found");
    assert_eq!(FetchError::NotFound.message(), "program file not found on disk");
    assert_eq!(FetchError::Transfer.message(), "program file could not be transferred");
}

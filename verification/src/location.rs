//! Locations of program artifacts: their grammar, and what has to be
//! fetched for each.
//!
//! A location is written in one of four forms, tried in this order:
//!
//! ```text
//! spr:<id>[@<version>]                     registry artifact
//! gh:<program>:<owner>/<repo>@<version>    GitHub release asset
//! https://... | http://...                 direct URL
//! <path>                                   local file
//! ```

use crate::text::{
    first_index, has_prefix, lemma_first_index, push_string, skip_chars, split_once,
    split_once_char, starts_with, strings_view,
};
use vstd::prelude::*;
use vstd::string::StringExecFns;

verus! {

/// Where a program binary is to be had.
#[derive(Debug)]
pub enum Location {
    /// An artifact of the program registry; the version is `latest` unless one was written.
    SolanaProgramRegistry { id: String, version: String },
    /// An asset of a GitHub release.
    GitHub { program: String, repo: String, version: String },
    /// A direct link, kept as it was written.
    URL { url: String },
    /// A file on this machine; whether it exists is found out when it is fetched.
    Local { path: String },
}

/// A `Location` with its strings taken as sequences of characters.
pub ghost enum LocationView {
    SolanaProgramRegistry { id: Seq<char>, version: Seq<char> },
    GitHub { program: Seq<char>, repo: Seq<char>, version: Seq<char> },
    URL { url: Seq<char> },
    Local { path: Seq<char> },
}

impl View for Location {
    type V = LocationView;

    open spec fn view(&self) -> LocationView {
        match self {
            Location::SolanaProgramRegistry { id, version } => LocationView::SolanaProgramRegistry {
                id: id@,
                version: version@,
            },
            Location::GitHub { program, repo, version } => LocationView::GitHub {
                program: program@,
                repo: repo@,
                version: version@,
            },
            Location::URL { url } => LocationView::URL { url: url@ },
            Location::Local { path } => LocationView::Local { path: path@ },
        }
    }
}

/// Why a location string was refused.
#[derive(Clone, Copy, Debug, PartialEq, Eq, Structural)]
pub enum LocationError {
    /// `spr:` with nothing behind it.
    InvalidRegistryRef,
    /// `gh:` not followed by `program:owner/repo@version`.
    InvalidGitHubRef,
}

/// What the operator is told about a location that was refused.
pub open spec fn location_error_message(e: LocationError) -> Seq<char> {
    match e {
        LocationError::InvalidRegistryRef => "invalid spr format: should look like spr:id[@version], for example `spr:QuarryProtocol/quarry_mine`"@,
        LocationError::InvalidGitHubRef => "invalid gh format: should look like gh:program:owner/repo@version, for example `gh:smart_wallet:GokiProtocol/goki@0.5.2`"@,
    }
}

impl LocationError {
    /// The message for the operator, which shows the form that was
    /// expected.
    pub fn message(&self) -> (r: &'static str)
        ensures
            r@ == location_error_message(*self),
    {
        match self {
            LocationError::InvalidRegistryRef => "invalid spr format: should look like spr:id[@version], for example `spr:QuarryProtocol/quarry_mine`",
            LocationError::InvalidGitHubRef => "invalid gh format: should look like gh:program:owner/repo@version, for example `gh:smart_wallet:GokiProtocol/goki@0.5.2`",
        }
    }
}

/// The remainder of a GitHub reference, read as `program:repo@version`.
pub open spec fn parse_gh_reference(rest: Seq<char>) -> Option<LocationView> {
    match split_once(rest, ':') {
        Some((program, tail)) => match split_once(tail, '@') {
            Some((repo, version)) => Some(LocationView::GitHub { program, repo, version }),
            None => None,
        },
        None => None,
    }
}

/// The remainder of a registry reference, read as `id[@version]`.
pub open spec fn parse_spr_reference(rest: Seq<char>) -> Option<LocationView> {
    if rest.len() == 0 {
        None
    } else {
        match split_once(rest, '@') {
            Some((id, version)) => Some(LocationView::SolanaProgramRegistry { id, version }),
            None => Some(LocationView::SolanaProgramRegistry { id: rest, version: "latest"@ }),
        }
    }
}

/// The grammar of location strings.
pub open spec fn parse_location(s: Seq<char>) -> Result<LocationView, LocationError> {
    if has_prefix(s, "spr:"@) {
        match parse_spr_reference(s.subrange("spr:"@.len() as int, s.len() as int)) {
            Some(location) => Ok(location),
            None => Err(LocationError::InvalidRegistryRef),
        }
    } else if has_prefix(s, "gh:"@) {
        match parse_gh_reference(s.subrange("gh:"@.len() as int, s.len() as int)) {
            Some(location) => Ok(location),
            None => Err(LocationError::InvalidGitHubRef),
        }
    } else if has_prefix(s, "https://"@) || has_prefix(s, "http://"@) {
        Ok(LocationView::URL { url: s })
    } else {
        Ok(LocationView::Local { path: s })
    }
}

/// The result of parsing, with the location taken by its view.
pub open spec fn parsed_view(r: Result<Location, LocationError>) -> Result<
    LocationView,
    LocationError,
> {
    match r {
        Ok(location) => Ok(location@),
        Err(e) => Err(e),
    }
}

/// The address of a GitHub release asset.
pub open spec fn github_release_url(repo: Seq<char>, version: Seq<char>, program: Seq<char>) -> Seq<
    char,
> {
    "https://github.com/"@ + repo + "/releases/download/v"@ + version + "/"@ + program + ".so"@
}

/// The address of the registry's metadata document for `id` at `version`.
pub open spec fn registry_metadata_url(id: Seq<char>, version: Seq<char>) -> Seq<char> {
    "https://raw.githubusercontent.com/DeployDAO/solana-program-index/master/artifacts-by-id/"@
        + id + "@"@ + version + ".json"@
}

/// Reads what follows `gh:` as `program:repo@version`.
pub fn parse_gh_location(rest: &str) -> (r: Option<Location>)
    ensures
        match r {
            Some(location) => parse_gh_reference(rest@) == Some(location@),
            None => parse_gh_reference(rest@) is None,
        },
{
    match split_once_char(rest, ':') {
        Some((program, tail)) => match split_once_char(tail, '@') {
            Some((repo, version)) => Some(
                Location::GitHub {
                    program: String::from_str(program),
                    repo: String::from_str(repo),
                    version: String::from_str(version),
                },
            ),
            None => None,
        },
        None => None,
    }
}

impl Location {
    /// Parses a location string. The registry form is tried first, then the
    /// GitHub form, then a URL; anything else is a local path.
    pub fn try_from(location: &str) -> (r: Result<Location, LocationError>)
        ensures
            parsed_view(r) == parse_location(location@),
    {
        proof {
            reveal_strlit("spr:");
            reveal_strlit("gh:");
        }
        if starts_with(location, "spr:") {
            let rest = skip_chars(location, 4);
            if rest.unicode_len() == 0 {
                return Err(LocationError::InvalidRegistryRef);
            }
            let (id, version) = match split_once_char(rest, '@') {
                Some((id, version)) => (id, version),
                None => (rest, "latest"),
            };
            Ok(
                Location::SolanaProgramRegistry {
                    id: String::from_str(id),
                    version: String::from_str(version),
                },
            )
        } else if starts_with(location, "gh:") {
            match parse_gh_location(skip_chars(location, 3)) {
                Some(found) => Ok(found),
                None => Err(LocationError::InvalidGitHubRef),
            }
        } else if starts_with(location, "https://") || starts_with(location, "http://") {
            Ok(Location::URL { url: String::from_str(location) })
        } else {
            Ok(Location::Local { path: String::from_str(location) })
        }
    }
}

/// The registry's description of an artifact. It is shown to the operator;
/// its checksum is not compared with that of the binary.
#[derive(Debug)]
pub struct ArtifactMetadata {
    pub id: String,
    pub tag: String,
    pub name: String,
    pub source: String,
    pub url: String,
    pub checksum: String,
}

/// An `ArtifactMetadata` with its strings taken as sequences of characters.
pub ghost struct ArtifactMetadataView {
    pub id: Seq<char>,
    pub tag: Seq<char>,
    pub name: Seq<char>,
    pub source: Seq<char>,
    pub url: Seq<char>,
    pub checksum: Seq<char>,
}

impl View for ArtifactMetadata {
    type V = ArtifactMetadataView;

    open spec fn view(&self) -> ArtifactMetadataView {
        ArtifactMetadataView {
            id: self.id@,
            tag: self.tag@,
            name: self.name@,
            source: self.source@,
            url: self.url@,
            checksum: self.checksum@,
        }
    }
}

impl Clone for ArtifactMetadata {
    fn clone(&self) -> (r: ArtifactMetadata)
        ensures
            r@ == self@,
    {
        ArtifactMetadata {
            id: self.id.clone(),
            tag: self.tag.clone(),
            name: self.name.clone(),
            source: self.source.clone(),
            url: self.url.clone(),
            checksum: self.checksum.clone(),
        }
    }
}

/// One line of the summary: a property and its value.
pub open spec fn info_line(property: Seq<char>, value: Seq<char>) -> Seq<char> {
    "  "@ + property + ": "@ + value
}

/// The summary of an artifact: a heading, then one line for each property.
pub open spec fn info_lines(m: ArtifactMetadataView) -> Seq<Seq<char>> {
    seq![
        "Artifact: "@ + m.id + "@"@ + m.tag,
        info_line("ID"@, m.id),
        info_line("Tag"@, m.tag),
        info_line("Name"@, m.name),
        info_line("Source"@, m.source),
        info_line("URL"@, m.url),
        info_line("SHA256"@, m.checksum),
    ]
}

fn make_info_line(property: &str, value: &str) -> (r: String)
    ensures
        r@ == info_line(property@, value@),
{
    let mut line = String::from_str("  ");
    line.append(property);
    line.append(": ");
    line.append(value);
    line
}

impl ArtifactMetadata {
    /// The lines that describe the artifact to the operator.
    pub fn print_info(&self) -> (lines: Vec<String>)
        ensures
            strings_view(lines@) == info_lines(self@),
    {
        let mut heading = String::from_str("Artifact: ");
        heading.append(self.id.as_str());
        heading.append("@");
        heading.append(self.tag.as_str());
        let mut lines: Vec<String> = Vec::new();
        push_string(&mut lines, heading);
        push_string(&mut lines, make_info_line("ID", self.id.as_str()));
        push_string(&mut lines, make_info_line("Tag", self.tag.as_str()));
        push_string(&mut lines, make_info_line("Name", self.name.as_str()));
        push_string(&mut lines, make_info_line("Source", self.source.as_str()));
        push_string(&mut lines, make_info_line("URL", self.url.as_str()));
        push_string(&mut lines, make_info_line("SHA256", self.checksum.as_str()));
        lines
    }
}

/// What has to be done to get the bytes of an artifact.
#[derive(Debug)]
pub enum FetchRequest {
    /// Get the registry's metadata document at `url`; the binary is at the
    /// address that the document gives.
    Metadata { url: String },
    /// Get the binary at `url`.
    Download { url: String },
    /// Copy the file at `path`.
    Copy { path: String },
}

/// A `FetchRequest` with its strings taken as sequences of characters.
pub ghost enum FetchRequestView {
    Metadata { url: Seq<char> },
    Download { url: Seq<char> },
    Copy { path: Seq<char> },
}

impl View for FetchRequest {
    type V = FetchRequestView;

    open spec fn view(&self) -> FetchRequestView {
        match self {
            FetchRequest::Metadata { url } => FetchRequestView::Metadata { url: url@ },
            FetchRequest::Download { url } => FetchRequestView::Download { url: url@ },
            FetchRequest::Copy { path } => FetchRequestView::Copy { path: path@ },
        }
    }
}

/// Why an artifact could not be fetched.
#[derive(Clone, Copy, Debug, PartialEq, Eq, Structural)]
pub enum FetchError {
    /// The local file is absent.
    NotFound,
    /// The server answered with a status outside 200 to 299.
    ArtifactNotFound,
    /// The network or the file system failed.
    Transfer,
}

/// What the operator is told about a fetch that failed.
pub open spec fn fetch_error_message(e: FetchError) -> Seq<char> {
    match e {
        FetchError::NotFound => "program file not found on disk"@,
        FetchError::ArtifactNotFound => "program file not found"@,
        FetchError::Transfer => "program file could not be transferred"@,
    }
}

impl FetchError {
    /// The message for the operator.
    pub fn message(&self) -> (r: &'static str)
        ensures
            r@ == fetch_error_message(*self),
    {
        match self {
            FetchError::NotFound => "program file not found on disk",
            FetchError::ArtifactNotFound => "program file not found",
            FetchError::Transfer => "program file could not be transferred",
        }
    }
}

/// The first request that fetching `location` makes.
pub open spec fn first_request(location: LocationView) -> FetchRequestView {
    match location {
        LocationView::SolanaProgramRegistry { id, version } => FetchRequestView::Metadata {
            url: registry_metadata_url(id, version),
        },
        LocationView::GitHub { program, repo, version } => FetchRequestView::Download {
            url: github_release_url(repo, version, program),
        },
        LocationView::URL { url } => FetchRequestView::Download { url },
        LocationView::Local { path } => FetchRequestView::Copy { path },
    }
}

/// The first request for a location string, or why the string was refused.
pub open spec fn first_request_of(s: Seq<char>) -> Result<FetchRequestView, LocationError> {
    match parse_location(s) {
        Ok(location) => Ok(first_request(location)),
        Err(e) => Err(e),
    }
}

/// Whether an HTTP status tells success: 200 to 299.
pub open spec fn is_success(status: u16) -> bool {
    200 <= status < 300
}

/// The line that announces a transfer.
pub open spec fn download_notice(target: Seq<char>) -> Seq<char> {
    "Downloading program code from "@ + target
}

impl Location {
    /// Says how the program file of this location is fetched: which
    /// document or binary to get, or which file to copy.
    pub fn fetch_program_file(&self) -> (r: FetchRequest)
        ensures
            r@ == first_request(self@),
    {
        match self {
            Location::SolanaProgramRegistry { id, version } => {
                let mut url = String::from_str(
                    "https://raw.githubusercontent.com/DeployDAO/solana-program-index/master/artifacts-by-id/",
                );
                url.append(id.as_str());
                url.append("@");
                url.append(version.as_str());
                url.append(".json");
                FetchRequest::Metadata { url }
            },
            Location::GitHub { program, repo, version } => {
                let mut url = String::from_str("https://github.com/");
                url.append(repo.as_str());
                url.append("/releases/download/v");
                url.append(version.as_str());
                url.append("/");
                url.append(program.as_str());
                url.append(".so");
                FetchRequest::Download { url }
            },
            Location::URL { url } => FetchRequest::Download { url: url.clone() },
            Location::Local { path } => FetchRequest::Copy { path: path.clone() },
        }
    }
}

impl ArtifactMetadata {
    /// The request for the binary that this document points to.
    pub fn download(&self) -> (r: FetchRequest)
        ensures
            r@ == (FetchRequestView::Download { url: self.url@ }),
    {
        FetchRequest::Download { url: self.url.clone() }
    }
}

/// Parses `location` and says how its program file is fetched.
pub fn fetch_program_file(location: &str) -> (r: Result<FetchRequest, LocationError>)
    ensures
        match r {
            Ok(request) => first_request_of(location@) == Ok::<FetchRequestView, LocationError>(
                request@,
            ),
            Err(e) => first_request_of(location@) == Err::<FetchRequestView, LocationError>(e),
        },
{
    match Location::try_from(location) {
        Ok(parsed) => Ok(parsed.fetch_program_file()),
        Err(e) => Err(e),
    }
}

/// The line to show before the binary at `target` is transferred.
pub fn announce_download(target: &str) -> (r: String)
    ensures
        r@ == download_notice(target@),
{
    let mut line = String::from_str("Downloading program code from ");
    line.append(target);
    line
}

/// Judges the answer to a download: the body is kept only when the status
/// tells success.
pub fn download_file(status: u16) -> (r: Result<(), FetchError>)
    ensures
        is_success(status) ==> r == Ok::<(), FetchError>(()),
        !is_success(status) ==> r == Err::<(), FetchError>(FetchError::ArtifactNotFound),
{
    if 200 <= status && status < 300 {
        Ok(())
    } else {
        Err(FetchError::ArtifactNotFound)
    }
}

/// Judges the attempt to open a local file.
pub fn open_local(found: bool) -> (r: Result<(), FetchError>)
    ensures
        found ==> r == Ok::<(), FetchError>(()),
        !found ==> r == Err::<(), FetchError>(FetchError::NotFound),
{
    if found {
        Ok(())
    } else {
        Err(FetchError::NotFound)
    }
}

/// A reference that begins with `gh:` is accepted exactly when what follows
/// the prefix holds a `:` with an `@` somewhere behind it; every other such
/// reference fails with `InvalidGitHubRef`.
pub proof fn lemma_github_reference_needs_both_separators(s: Seq<char>)
    requires
        has_prefix(s, "gh:"@),
    ensures
        parse_location(s) is Ok <==> exists|i: int, j: int|
            3 <= i < j < s.len() && s[i] == ':' && s[j] == '@',
        parse_location(s) is Err ==> parse_location(s) == Err::<LocationView, LocationError>(
            LocationError::InvalidGitHubRef,
        ),
        parse_location(s) is Ok ==> parse_location(s)->Ok_0 is GitHub,
{
    reveal_strlit("spr:");
    reveal_strlit("gh:");
    assert(s.subrange(0, 3)[0] == 'g');
    if has_prefix(s, "spr:"@) {
        assert(s.subrange(0, 4)[0] == 's');
    }
    let rest = s.subrange(3, s.len() as int);
    let i0 = first_index(rest, ':');
    lemma_first_index(rest, ':');
    if i0 < rest.len() {
        let tail = rest.subrange(i0 + 1, rest.len() as int);
        let j0 = first_index(tail, '@');
        lemma_first_index(tail, '@');
        if j0 < tail.len() {
            assert(s[3 + i0] == rest[i0]);
            assert(s[3 + i0 + 1 + j0] == tail[j0]);
        }
    }
    if exists|i: int, j: int| 3 <= i < j < s.len() && s[i] == ':' && s[j] == '@' {
        let (i, j) = choose|i: int, j: int| 3 <= i < j < s.len() && s[i] == ':' && s[j] == '@';
        assert(rest[i - 3] == ':');
        let tail = rest.subrange(i0 + 1, rest.len() as int);
        lemma_first_index(tail, '@');
        assert(tail[j - 3 - i0 - 1] == '@');
    }
}

/// Every reference that begins with `spr:` and goes on is accepted as a
/// registry artifact. Without an `@` the whole remainder is the id and the
/// version is `latest`.
pub proof fn lemma_registry_reference_accepted(s: Seq<char>)
    requires
        has_prefix(s, "spr:"@),
        s.len() > 4,
    ensures
        parse_location(s) is Ok,
        parse_location(s)->Ok_0 is SolanaProgramRegistry,
        (forall|i: int| 4 <= i < s.len() ==> s[i] != '@') ==> parse_location(s) == Ok::<
            LocationView,
            LocationError,
        >(
            LocationView::SolanaProgramRegistry {
                id: s.subrange(4, s.len() as int),
                version: "latest"@,
            },
        ),
{
    reveal_strlit("spr:");
    let rest = s.subrange(4, s.len() as int);
    lemma_first_index(rest, '@');
    let i0 = first_index(rest, '@');
    if i0 < rest.len() {
        assert(s[4 + i0] == rest[i0]);
    }
}

/// A string with none of the prefixes `spr:`, `gh:`, `https://` and
/// `http://` is a local path, kept unchanged.
pub proof fn lemma_unprefixed_is_local(s: Seq<char>)
    requires
        !has_prefix(s, "spr:"@),
        !has_prefix(s, "gh:"@),
        !has_prefix(s, "https://"@),
        !has_prefix(s, "http://"@),
    ensures
        parse_location(s) == Ok::<LocationView, LocationError>(LocationView::Local { path: s }),
{
}

} // verus!

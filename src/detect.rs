//! Provider detection: from a repository URL, which SCM hosts it, where its
//! API lives, and which owner and repository it names.

use crate::text::{
    ends_with, find_char, join, lemma_replace_first_at, replace_first, same_text, starts_with,
};
use vstd::prelude::*;

verus! {

/// Whether `url::Url::parse` accepts the text.
pub uninterp spec fn url_parse_ok(input: Seq<char>) -> bool;

/// What `url::Url::as_str` gives for the URL parsed from the text.
pub uninterp spec fn url_text(input: Seq<char>) -> Seq<char>;

/// What `url::Url::domain` gives for the URL parsed from the text.
pub uninterp spec fn url_domain(input: Seq<char>) -> Option<Seq<char>>;

/// What `url::Url::path_segments` yields for the URL parsed from the text.
pub uninterp spec fn url_path_segments(input: Seq<char>) -> Option<Seq<Seq<char>>>;

/// The parts of a parsed URL that detection reads.
#[derive(Debug)]
pub struct UrlParts {
    /// The URL as the parser serialises it.
    pub serialization: String,
    /// Its host, when that is a domain name.
    pub domain: Option<String>,
    /// Its path segments, when it has a hierarchical path.
    pub path_segments: Option<Vec<String>>,
}

pub open spec fn opt_text(s: Option<String>) -> Option<Seq<char>> {
    match s {
        Some(t) => Some(t@),
        None => None,
    }
}

pub open spec fn opt_texts(v: Option<Vec<String>>) -> Option<Seq<Seq<char>>> {
    match v {
        Some(t) => Some(t@.map_values(|x: String| x@)),
        None => None,
    }
}

/// Relies on `url::Url::parse`, and on `as_str`, `domain` and
/// `path_segments` of the parsed URL.
#[verifier::external_body]
fn parse_url(input: &str) -> (r: Option<UrlParts>)
    ensures
        r is Some <==> url_parse_ok(input@),
        r matches Some(u) ==> u.serialization@ == url_text(input@) && opt_text(u.domain)
            == url_domain(input@) && opt_texts(u.path_segments) == url_path_segments(input@),
{
    let url = url::Url::parse(input).ok()?;
    Some(UrlParts {
        serialization: url.as_str().to_string(),
        domain: url.domain().map(String::from),
        path_segments: url.path_segments().map(|segments| segments.map(String::from).collect()),
    })
}

/// The supported source control providers.
#[derive(Clone, Copy, Debug, PartialEq, Eq, Structural)]
pub enum SCMKind {
    Unsupported,
    GitHub,
    Gitlab,
}

/// Where a repository lives: its provider, the base URL of that provider's
/// API, and the owner and name of the repository.
#[derive(Debug)]
pub struct SCM {
    pub kind: SCMKind,
    pub base_url: String,
    pub owner: String,
    pub repo: String,
}

pub struct ScmView {
    pub kind: SCMKind,
    pub base_url: Seq<char>,
    pub owner: Seq<char>,
    pub repo: Seq<char>,
}

impl View for SCM {
    type V = ScmView;

    open spec fn view(&self) -> ScmView {
        ScmView { kind: self.kind, base_url: self.base_url@, owner: self.owner@, repo: self.repo@ }
    }
}

/// Detection failed for the URL it carries.
#[derive(Debug)]
pub enum Error {
    UnknownProvider(String),
}

impl Error {
    pub open spec fn url(&self) -> Seq<char> {
        match self {
            Error::UnknownProvider(u) => u@,
        }
    }

    /// The error as a sentence for the user.
    pub fn message(&self) -> (r: String)
        ensures
            r@ == "Unknown provider for url "@ + self.url(),
    {
        match self {
            Error::UnknownProvider(u) => join("Unknown provider for url ", u.as_str()),
        }
    }
}

/// Operator-supplied API base URLs for self-hosted installations, used when
/// the host is not one of the public services.
#[derive(Debug)]
pub struct DetectorConfig {
    pub github_base_url: Option<String>,
    pub gitlab_base_url: Option<String>,
}

/// A host that only probing can classify: the candidate API base, and what
/// was read from the URL.
#[derive(Debug)]
pub struct ProbeRequest {
    pub base_url: String,
    pub owner: String,
    pub repo: String,
    /// The URL, for the error when neither probe answers.
    pub url: String,
}

/// The outcome of reading a URL: a resolved descriptor, or a host to probe.
#[derive(Debug)]
pub enum Detection {
    Resolved(SCM),
    Probe(ProbeRequest),
}

pub enum DetectionView {
    Resolved(ScmView),
    Probe { base_url: Seq<char>, owner: Seq<char>, repo: Seq<char>, url: Seq<char> },
}

impl View for Detection {
    type V = DetectionView;

    open spec fn view(&self) -> DetectionView {
        match self {
            Detection::Resolved(scm) => DetectionView::Resolved(scm@),
            Detection::Probe(p) => DetectionView::Probe {
                base_url: p.base_url@,
                owner: p.owner@,
                repo: p.repo@,
                url: p.url@,
            },
        }
    }
}

pub open spec fn result_view(r: Result<Detection, Error>) -> Result<DetectionView, Seq<char>> {
    match r {
        Ok(d) => Ok(d@),
        Err(e) => Err(e.url()),
    }
}

/// The SSH form `git@host:owner/repo` rewritten as `git://host/owner/repo`;
/// any other text unchanged.
pub open spec fn scrubbed(repository: Seq<char>) -> Seq<char> {
    if "git@"@.is_prefix_of(repository) {
        "git://"@ + replace_first(repository.skip(4), ':', '/')
    } else {
        repository
    }
}

/// A repository name without a trailing `.git`.
pub open spec fn without_git_suffix(repo: Seq<char>) -> Seq<char> {
    if repo.len() >= 4 && repo.subrange(repo.len() - 4, repo.len() as int) == ".git"@ {
        repo.subrange(0, repo.len() - 4)
    } else {
        repo
    }
}

pub open spec fn is_github_host(host: Seq<char>) -> bool {
    host == "github.com"@ || host == "www.github.com"@
}

pub open spec fn is_gitlab_host(host: Seq<char>) -> bool {
    host == "gitlab.com"@ || host == "www.gitlab.com"@
}

/// What detection makes of a parsed URL, given its serialisation, domain and
/// path segments and the configured base URLs: the first two path segments
/// are owner and repository; the host picks the provider, by the public
/// names first, then by the configured bases, and otherwise asks for
/// probing. The error carries the URL.
pub open spec fn describe_url(
    text: Seq<char>,
    domain: Option<Seq<char>>,
    segments: Option<Seq<Seq<char>>>,
    github_base: Option<Seq<char>>,
    gitlab_base: Option<Seq<char>>,
) -> Result<DetectionView, Seq<char>> {
    if segments is None || segments->0.len() < 2 || domain is None {
        Err(text)
    } else {
        let host = domain->0;
        let owner = segments->0[0];
        let repo = without_git_suffix(segments->0[1]);
        if is_github_host(host) {
            Ok(
                DetectionView::Resolved(
                    ScmView {
                        kind: SCMKind::GitHub,
                        base_url: "https://api.github.com"@,
                        owner,
                        repo,
                    },
                ),
            )
        } else if is_gitlab_host(host) {
            Ok(
                DetectionView::Resolved(
                    ScmView { kind: SCMKind::Gitlab, base_url: "https://gitlab.com"@, owner, repo },
                ),
            )
        } else if github_base is Some {
            Ok(
                DetectionView::Resolved(
                    ScmView { kind: SCMKind::GitHub, base_url: github_base->0, owner, repo },
                ),
            )
        } else if gitlab_base is Some {
            Ok(
                DetectionView::Resolved(
                    ScmView { kind: SCMKind::Gitlab, base_url: gitlab_base->0, owner, repo },
                ),
            )
        } else {
            Ok(DetectionView::Probe { base_url: "https://"@ + host, owner, repo, url: text })
        }
    }
}

/// Rewrites the SSH form `git@host:owner/repo` as `git://host/owner/repo`,
/// so that it parses as a URL; other text is returned unchanged.
pub fn scrub_git_url_if_needed(repository: &str) -> (r: String)
    ensures
        r@ == scrubbed(repository@),
{
    let ssh = "git@";
    proof {
        reveal_strlit("git@");
    }
    if !starts_with(repository, ssh) {
        return String::from_str(repository);
    }
    let n = repository.unicode_len();
    let ghost rest = repository@.skip(4);
    let mut out = String::from_str("git://");
    match find_char(repository, ':', 4) {
        Some(i) => {
            out.append(repository.substring_char(4, i));
            out.append("/");
            out.append(repository.substring_char(i + 1, n));
            proof {
                reveal_strlit("/");
                lemma_replace_first_at(rest, ':', '/', i - 4);
                assert(rest.take(i - 4) =~= repository@.subrange(4, i as int));
                assert(rest.skip(i - 4 + 1) =~= repository@.subrange(i + 1, n as int));
                assert(out@ =~= "git://"@ + replace_first(rest, ':', '/'));
            }
        },
        None => {
            out.append(repository.substring_char(4, n));
            proof {
                lemma_replace_first_at(rest, ':', '/', rest.len() as int);
                assert(rest =~= repository@.subrange(4, n as int));
            }
        },
    }
    out
}

/// Drops a trailing `.git` from a repository name.
fn strip_git_suffix(repo: &str) -> (r: String)
    ensures
        r@ == without_git_suffix(repo@),
{
    proof {
        reveal_strlit(".git");
    }
    if ends_with(repo, ".git") {
        String::from_str(repo.substring_char(0, repo.unicode_len() - 4))
    } else {
        String::from_str(repo)
    }
}

fn copy_text(s: &Option<String>) -> (r: Option<String>)
    ensures
        opt_text(r) == opt_text(*s),
{
    match s {
        Some(t) => Some(t.clone()),
        None => None,
    }
}

/// Classifies a parsed URL (see `describe_url`).
pub fn metadata_for_url(url: &UrlParts, config: &DetectorConfig) -> (r: Result<Detection, Error>)
    ensures
        result_view(r) == describe_url(
            url.serialization@,
            opt_text(url.domain),
            opt_texts(url.path_segments),
            opt_text(config.github_base_url),
            opt_text(config.gitlab_base_url),
        ),
{
    let segments = match &url.path_segments {
        Some(s) => s,
        None => {
            return Err(Error::UnknownProvider(url.serialization.clone()));
        },
    };
    if segments.len() < 2 {
        return Err(Error::UnknownProvider(url.serialization.clone()));
    }
    let host = match &url.domain {
        Some(h) => h,
        None => {
            return Err(Error::UnknownProvider(url.serialization.clone()));
        },
    };
    let owner = segments[0].clone();
    let repo = strip_git_suffix(segments[1].as_str());
    proof {
        reveal_strlit("github.com");
        reveal_strlit("www.github.com");
        reveal_strlit("gitlab.com");
        reveal_strlit("www.gitlab.com");
    }
    let (kind, base_url) = if same_text(host.as_str(), "github.com") || same_text(
        host.as_str(),
        "www.github.com",
    ) {
        (SCMKind::GitHub, String::from_str("https://api.github.com"))
    } else if same_text(host.as_str(), "gitlab.com") || same_text(host.as_str(), "www.gitlab.com") {
        (SCMKind::Gitlab, String::from_str("https://gitlab.com"))
    } else if let Some(base) = &config.github_base_url {
        (SCMKind::GitHub, base.clone())
    } else if let Some(base) = &config.gitlab_base_url {
        (SCMKind::Gitlab, base.clone())
    } else {
        return Ok(
            Detection::Probe(
                ProbeRequest {
                    base_url: join("https://", host.as_str()),
                    owner,
                    repo,
                    url: url.serialization.clone(),
                },
            ),
        );
    };
    Ok(Detection::Resolved(SCM { kind, base_url, owner, repo }))
}

/// Reads a repository URL (SSH form accepted): the descriptor when the host
/// is a public service or a base URL is configured, a probe request
/// otherwise, and an error when the text is not a URL (carrying the text)
/// or names no owner and repository or no domain (carrying the URL).
pub fn what_git(repository: &str, config: &DetectorConfig) -> (r: Result<Detection, Error>)
    ensures
        ({
            let s = scrubbed(repository@);
            result_view(r) == if url_parse_ok(s) {
                describe_url(
                    url_text(s),
                    url_domain(s),
                    url_path_segments(s),
                    opt_text(config.github_base_url),
                    opt_text(config.gitlab_base_url),
                )
            } else {
                Err(s)
            }
        }),
{
    let url_str = scrub_git_url_if_needed(repository);
    match parse_url(url_str.as_str()) {
        Some(url) => metadata_for_url(&url, config),
        None => Err(Error::UnknownProvider(url_str)),
    }
}

impl ProbeRequest {
    /// GitHub's `/zen` endpoint under the candidate base, which only
    /// GitHub's API serves.
    pub fn github_probe_url(&self) -> (r: String)
        ensures
            r@ == self.base_url@ + "/zen"@,
    {
        join(self.base_url.as_str(), "/zen")
    }

    /// GitLab's version endpoint under the candidate base, which only
    /// GitLab's API serves.
    pub fn gitlab_probe_url(&self) -> (r: String)
        ensures
            r@ == self.base_url@ + "/api/v4/version"@,
    {
        join(self.base_url.as_str(), "/api/v4/version")
    }

    /// The headers of the GitHub probe: the versioned media type, the
    /// bearer token, and the user agent.
    pub fn github_probe_headers(&self, token: &str) -> (r: Vec<(String, String)>)
        ensures
            r@.len() == 3,
            r@[0].0@ == "accept"@ && r@[0].1@ == "application/vnd.github.v3+json"@,
            r@[1].0@ == "authorization"@ && r@[1].1@ == "Bearer "@ + token@,
            r@[2].0@ == "user-agent"@ && r@[2].1@ == "com.wayfair.what_gitjson"@,
    {
        let mut out: Vec<(String, String)> = Vec::new();
        out.push(
            (String::from_str("accept"), String::from_str("application/vnd.github.v3+json")),
        );
        out.push((String::from_str("authorization"), join("Bearer ", token)));
        out.push((String::from_str("user-agent"), String::from_str("com.wayfair.what_gitjson")));
        out
    }

    /// The headers of the GitLab probe: the token in `private-token`.
    pub fn gitlab_probe_headers(&self, token: &str) -> (r: Vec<(String, String)>)
        ensures
            r@.len() == 1,
            r@[0].0@ == "private-token"@ && r@[0].1@ == token@,
    {
        let mut out: Vec<(String, String)> = Vec::new();
        out.push((String::from_str("private-token"), String::from_str(token)));
        out
    }
}

/// Finishes detection from the two probes' answers (`true`: the endpoint
/// answered with a success status; `false`: it did not, or the request
/// failed). GitHub's answer is read first, so it wins a tie.
pub fn resolve_probe(probe: ProbeRequest, github_ok: bool, gitlab_ok: bool) -> (r: Result<
    SCM,
    Error,
>)
    ensures
        github_ok ==> (r matches Ok(scm) && scm@ == (ScmView {
            kind: SCMKind::GitHub,
            base_url: probe.base_url@,
            owner: probe.owner@,
            repo: probe.repo@,
        })),
        !github_ok && gitlab_ok ==> (r matches Ok(scm) && scm@ == (ScmView {
            kind: SCMKind::Gitlab,
            base_url: probe.base_url@,
            owner: probe.owner@,
            repo: probe.repo@,
        })),
        !github_ok && !gitlab_ok ==> (r matches Err(e) && e.url() == probe.url@),
{
    let ProbeRequest { base_url, owner, repo, url } = probe;
    if github_ok {
        Ok(SCM { kind: SCMKind::GitHub, base_url, owner, repo })
    } else if gitlab_ok {
        Ok(SCM { kind: SCMKind::Gitlab, base_url, owner, repo })
    } else {
        Err(Error::UnknownProvider(url))
    }
}

} // verus!

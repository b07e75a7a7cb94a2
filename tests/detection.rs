use foxdie::detect::{
    metadata_for_url, resolve_probe, scrub_git_url_if_needed, what_git, Detection,
    DetectorConfig, Error, ProbeRequest, SCMKind, UrlParts,
};

fn no_overrides() -> DetectorConfig {
    DetectorConfig { github_base_url: None, gitlab_base_url: None }
}

fn resolved(d: Result<Detection, Error>) -> (SCMKind, String, String, String) {
    match d {
        Ok(Detection::Resolved(scm)) => (scm.kind, scm.base_url, scm.owner, scm.repo),
        other => panic!("expected a resolved descriptor, got {:?}", other),
    }
}

#[test]
fn test_scrub_git_url() {
    assert_eq!(
        scrub_git_url_if_needed("file:///Users/wayfair/foxdie.git"),
        "file:///Users/wayfair/foxdie.git"
    );
    assert_eq!(
        scrub_git_url_if_needed("https://github.com/wayfair/foxdie"),
        "https://github.com/wayfair/foxdie"
    );
    assert_eq!(
        scrub_git_url_if_needed("https://github.com/wayfair/foxdie.git"),
        "https://github.com/wayfair/foxdie.git"
    );
    assert_eq!(
        scrub_git_url_if_needed("git@github.com:wayfair/foxdie"),
        "git://github.com/wayfair/foxdie"
    );
    assert_eq!(
        scrub_git_url_if_needed("git@github.com:wayfair/foxdie.git"),
        "git://github.com/wayfair/foxdie.git"
    );
}

#[test]
fn scrub_replaces_only_the_first_colon() {
    assert_eq!(scrub_git_url_if_needed("git@host:a:b/c"), "git://host/a:b/c");
    assert_eq!(scrub_git_url_if_needed("git@host"), "git://host");
}

#[test]
fn ssh_github_url_resolves_to_github() {
    let d = what_git("git@github.com:acme/widgets.git", &no_overrides());
    assert_eq!(
        resolved(d),
        (
            SCMKind::GitHub,
            "https://api.github.com".to_string(),
            "acme".to_string(),
            "widgets".to_string()
        )
    );
}

#[test]
fn public_gitlab_host_resolves_to_gitlab() {
    let d = what_git("https://www.gitlab.com/group/project", &no_overrides());
    assert_eq!(
        resolved(d),
        (
            SCMKind::Gitlab,
            "https://gitlab.com".to_string(),
            "group".to_string(),
            "project".to_string()
        )
    );
}

#[test]
fn only_a_trailing_git_suffix_is_removed() {
    let d = what_git("https://github.com/acme/my.github.io", &no_overrides());
    assert_eq!(resolved(d).3, "my.github.io");
}

#[test]
fn configured_bases_are_used_for_other_hosts() {
    let gh = DetectorConfig {
        github_base_url: Some("https://ghe.example.com/api/v3".to_string()),
        gitlab_base_url: Some("https://gl.example.com".to_string()),
    };
    let d = what_git("https://code.example.com/team/tool.git", &gh);
    assert_eq!(
        resolved(d),
        (
            SCMKind::GitHub,
            "https://ghe.example.com/api/v3".to_string(),
            "team".to_string(),
            "tool".to_string()
        )
    );
    let gl = DetectorConfig {
        github_base_url: None,
        gitlab_base_url: Some("https://gl.example.com".to_string()),
    };
    let d = what_git("https://code.example.com/team/tool.git", &gl);
    assert_eq!(resolved(d).0, SCMKind::Gitlab);
    assert_eq!(
        what_git("https://code.example.com/team/tool.git", &gl).map(|d| match d {
            Detection::Resolved(scm) => scm.base_url,
            Detection::Probe(p) => p.base_url,
        }).unwrap(),
        "https://gl.example.com"
    );
}

#[test]
fn unknown_host_asks_for_probing() {
    match what_git("git@code.example.com:team/tool.git", &no_overrides()) {
        Ok(Detection::Probe(p)) => {
            assert_eq!(p.base_url, "https://code.example.com");
            assert_eq!(p.owner, "team");
            assert_eq!(p.repo, "tool");
            assert_eq!(p.url, "git://code.example.com/team/tool.git");
            assert_eq!(p.github_probe_url(), "https://code.example.com/zen");
            assert_eq!(p.gitlab_probe_url(), "https://code.example.com/api/v4/version");
            let gh = p.github_probe_headers("secret");
            assert_eq!(gh[1], ("authorization".to_string(), "Bearer secret".to_string()));
            assert_eq!(gh[2].1, "com.wayfair.what_gitjson");
            assert_eq!(
                p.gitlab_probe_headers("secret"),
                vec![("private-token".to_string(), "secret".to_string())]
            );
        }
        other => panic!("expected a probe request, got {:?}", other),
    }
}

#[test]
fn detection_errors_carry_the_url() {
    match what_git("not a url", &no_overrides()) {
        Err(Error::UnknownProvider(u)) => assert_eq!(u, "not a url"),
        other => panic!("unexpected {:?}", other),
    }
    match what_git("https://github.com/acme", &no_overrides()) {
        Err(Error::UnknownProvider(u)) => assert_eq!(u, "https://github.com/acme"),
        other => panic!("unexpected {:?}", other),
    }
    match what_git("file:///Users/wayfair/foxdie.git", &no_overrides()) {
        Err(e) => assert_eq!(
            e.message(),
            "Unknown provider for url file:///Users/wayfair/foxdie.git"
        ),
        other => panic!("unexpected {:?}", other),
    }
}

#[test]
fn metadata_reads_url_parts() {
    let parts = UrlParts {
        serialization: "https://gitlab.com/a/b.git".to_string(),
        domain: Some("gitlab.com".to_string()),
        path_segments: Some(vec!["a".to_string(), "b.git".to_string(), "c".to_string()]),
    };
    let d = metadata_for_url(&parts, &no_overrides());
    assert_eq!(
        resolved(d),
        (SCMKind::Gitlab, "https://gitlab.com".to_string(), "a".to_string(), "b".to_string())
    );
    let no_path = UrlParts {
        serialization: "mailto:x@y".to_string(),
        domain: None,
        path_segments: None,
    };
    assert!(metadata_for_url(&no_path, &no_overrides()).is_err());
}

fn probe() -> ProbeRequest {
    ProbeRequest {
        base_url: "https://scm.example.com".to_string(),
        owner: "o".to_string(),
        repo: "r".to_string(),
        url: "https://scm.example.com/o/r".to_string(),
    }
}

#[test]
fn probes_prefer_github() {
    let scm = resolve_probe(probe(), true, true).unwrap();
    assert_eq!(scm.kind, SCMKind::GitHub);
    assert_eq!(scm.base_url, "https://scm.example.com");
    assert_eq!(resolve_probe(probe(), false, true).unwrap().kind, SCMKind::Gitlab);
    match resolve_probe(probe(), false, false) {
        Err(Error::UnknownProvider(u)) => assert_eq!(u, "https://scm.example.com/o/r"),
        other => panic!("unexpected {:?}", other),
    }
}

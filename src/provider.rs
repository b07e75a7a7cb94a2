//! The provider a repository was detected on, held for the run: one of the
//! two API variants, chosen once.

use crate::detect::{SCMKind, SCM};
use crate::github::GitHub;
use crate::gitlab::Gitlab;
use vstd::prelude::*;

verus! {

/// The API variant of a provider.
#[derive(Debug)]
pub enum ProviderApi {
    GitHub(GitHub),
    Gitlab(Gitlab),
}

/// The client-side description of a detected provider: which API, where,
/// for which repository, with which token.
#[derive(Debug)]
pub struct SCMProvider {
    pub api: ProviderApi,
}

impl SCMProvider {
    /// The provider for a detected repository: GitHub's or GitLab's API with
    /// the descriptor's base URL, owner and repository; `None` for an
    /// unsupported kind.
    pub fn from_scm_description(description: SCM, token: &str) -> (r: Option<SCMProvider>)
        ensures
            description.kind == SCMKind::Unsupported <==> r is None,
            description.kind == SCMKind::GitHub ==> (r matches Some(p) && p.api matches ProviderApi::GitHub(g)
                && g.base_url@ == description.base_url@ && g.token@ == token@ && g.owner@
                == description.owner@ && g.repo@ == description.repo@),
            description.kind == SCMKind::Gitlab ==> (r matches Some(p) && p.api matches ProviderApi::Gitlab(g)
                && g.base_url@ == description.base_url@ && g.token@ == token@ && g.owner@
                == description.owner@ && g.repo@ == description.repo@),
    {
        match description.kind {
            SCMKind::GitHub => Some(
                SCMProvider {
                    api: ProviderApi::GitHub(
                        GitHub::new(
                            description.base_url.as_str(),
                            token,
                            description.owner.as_str(),
                            description.repo.as_str(),
                        ),
                    ),
                },
            ),
            SCMKind::Gitlab => Some(
                SCMProvider {
                    api: ProviderApi::Gitlab(
                        Gitlab::new(
                            description.base_url.as_str(),
                            token,
                            description.owner.as_str(),
                            description.repo.as_str(),
                        ),
                    ),
                },
            ),
            SCMKind::Unsupported => None,
        }
    }
}

} // verus!

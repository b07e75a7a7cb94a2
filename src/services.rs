//! The provider-neutral model: push requests, protected-branch rules, and
//! the points in time that staleness is measured with.

use vstd::prelude::*;

verus! {

/// Whether `glob::Pattern::new` accepts `pattern`.
pub uninterp spec fn glob_pattern_valid(pattern: Seq<char>) -> bool;

/// What `glob::Pattern::matches` answers for `name` on the pattern compiled
/// from `pattern`.
pub uninterp spec fn glob_pattern_matches(pattern: Seq<char>, name: Seq<char>) -> bool;

/// Relies on `glob::Pattern::new`: whether the text compiles to a pattern.
#[verifier::external_body]
fn glob_compiles(pattern: &str) -> (r: bool)
    ensures
        r == glob_pattern_valid(pattern@),
{
    glob::Pattern::new(pattern).is_ok()
}

/// Relies on `glob::Pattern::new` and `glob::Pattern::matches`: shell-glob
/// matching of `name` against a pattern that compiles.
#[verifier::external_body]
fn glob_matches(pattern: &str, name: &str) -> (r: bool)
    requires
        glob_pattern_valid(pattern@),
    ensures
        r == glob_pattern_matches(pattern@, name@),
{
    match glob::Pattern::new(pattern) {
        Ok(compiled) => compiled.matches(name),
        Err(_) => false,
    }
}

/// A point in time: whole seconds since the Unix epoch and the nanoseconds
/// past that second. Ordered as the pair (seconds, nanos).
#[derive(Clone, Copy, Debug, PartialEq, Eq, Structural)]
pub struct Timestamp {
    pub seconds: i64,
    pub nanos: u32,
}

impl Timestamp {
    /// `self` lies strictly before `other`.
    pub open spec fn precedes(self, other: Timestamp) -> bool {
        self.seconds < other.seconds || (self.seconds == other.seconds && self.nanos < other.nanos)
    }

    pub fn is_before(&self, other: &Timestamp) -> (r: bool)
        ensures
            r == self.precedes(*other),
    {
        self.seconds < other.seconds || (self.seconds == other.seconds && self.nanos < other.nanos)
    }
}

/// The state of push requests to list.
#[derive(Clone, Copy, Debug, PartialEq, Eq, Structural)]
pub enum PushRequestState {
    Opened,
    Closed,
}

impl PushRequestState {
    pub open spec fn github_spec(self) -> Seq<char> {
        match self {
            PushRequestState::Opened => "open"@,
            PushRequestState::Closed => "closed"@,
        }
    }

    pub open spec fn gitlab_spec(self) -> Seq<char> {
        match self {
            PushRequestState::Opened => "opened"@,
            PushRequestState::Closed => "closed"@,
        }
    }

    /// The `state` query value that GitHub's pull request listing takes.
    pub fn github_value(&self) -> (r: &'static str)
        ensures
            r@ == self.github_spec(),
    {
        match self {
            PushRequestState::Opened => "open",
            PushRequestState::Closed => "closed",
        }
    }

    /// The `state` query value that GitLab's merge request listing takes.
    pub fn gitlab_value(&self) -> (r: &'static str)
        ensures
            r@ == self.gitlab_spec(),
    {
        match self {
            PushRequestState::Opened => "opened",
            PushRequestState::Closed => "closed",
        }
    }
}

/// A pull request (GitHub) or merge request (GitLab) in provider-neutral
/// form. `id` is the number users see, not the provider's internal id.
#[derive(Debug)]
pub struct PushRequest {
    pub url: String,
    pub id: i32,
    pub title: String,
    pub created_at: Timestamp,
    pub updated_at: Timestamp,
    pub target_project: i32,
    pub target_branch: String,
    pub source_project: i32,
    pub source_branch: String,
}

impl Clone for PushRequest {
    fn clone(&self) -> (r: Self)
        ensures
            r == *self,
    {
        PushRequest {
            url: self.url.clone(),
            id: self.id,
            title: self.title.clone(),
            created_at: self.created_at,
            updated_at: self.updated_at,
            target_project: self.target_project,
            target_branch: self.target_branch.clone(),
            source_project: self.source_project,
            source_branch: self.source_branch.clone(),
        }
    }
}

/// A rule exempting branches whose name matches a shell-glob pattern.
#[derive(Debug)]
pub struct ProtectedBranch {
    pattern: String,
}

impl View for ProtectedBranch {
    type V = Seq<char>;

    /// The pattern's text.
    closed spec fn view(&self) -> Seq<char> {
        self.pattern@
    }
}

impl ProtectedBranch {
    #[verifier::type_invariant]
    spec fn inv(&self) -> bool {
        glob_pattern_valid(self.pattern@)
    }

    /// Whether this rule protects the branch called `name`.
    pub open spec fn protects(&self, name: Seq<char>) -> bool {
        glob_pattern_matches(self@, name)
    }

    /// The rule for `pattern`, or `None` when it is not a valid glob.
    pub fn new(pattern: &str) -> (r: Option<ProtectedBranch>)
        ensures
            r is Some <==> glob_pattern_valid(pattern@),
            r matches Some(b) ==> b@ == pattern@,
    {
        if glob_compiles(pattern) {
            Some(ProtectedBranch { pattern: String::from_str(pattern) })
        } else {
            None
        }
    }

    /// The pattern's text.
    pub fn pattern(&self) -> (r: &str)
        ensures
            r@ == self@,
    {
        self.pattern.as_str()
    }

    /// Whether the branch called `branch` matches this rule's pattern.
    pub fn matches_branch(&self, branch: &str) -> (r: bool)
        ensures
            r == self.protects(branch@),
    {
        proof {
            use_type_invariant(self);
        }
        glob_matches(self.pattern.as_str(), branch)
    }
}

} // verus!

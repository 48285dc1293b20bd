//! Where entities come from: the listings of the remote API.
use vstd::prelude::*;

pub mod github_gist;
pub mod github_releases;
pub mod github_repo;

pub use github_gist::GitHubGistSource;
pub use github_releases::GitHubReleasesSource;
pub use github_repo::GitHubRepoSource;

use crate::errors::{user, user_error, Error, ErrorView};
use crate::helpers::github::{endpoint_of, GitHubArtifactKind, SourceKindView};
use crate::policy::BackupPolicy;
use crate::text::{join, split, split_text, texts_view, trim_end, trim_end_matches};

verus! {

/// A source of entities for one kind of policy.
pub trait BackupSource {
    /// The kind of policy that this source serves.
    open spec fn kind_name(&self) -> Seq<char> {
        arbitrary()
    }

    /// What is wrong with `policy` for this source, if anything is.
    open spec fn objection(&self, policy: &BackupPolicy) -> Option<ErrorView> {
        arbitrary()
    }

    /// The kind of policy that this source serves.
    fn kind(&self) -> (kind: &str)
        ensures
            kind@ == self.kind_name(),
    ;

    /// Checks that this source can serve `policy`.
    fn validate(&self, policy: &BackupPolicy) -> (r: Result<(), Error>)
        ensures
            match self.objection(policy) {
                None => r is Ok,
                Some(e) => r matches Err(x) && x@ == e,
            },
    ;
}

/// The root of the API where the policy names none.
pub open spec fn default_api_url() -> Seq<char> {
    "https://api.github.com"@
}

/// The address of the listing `endpoint` for `policy`:
/// `<api_url>/<endpoint>?<query>`, without `/` at the end of the root and
/// without `?` at the end of the whole.
pub open spec fn listing_url(policy: &BackupPolicy, endpoint: Seq<char>) -> Seq<char> {
    let root = match policy.knob("api_url"@) {
        Some(url) => url,
        None => default_api_url(),
    };
    let query = match policy.knob("query"@) {
        Some(q) => q,
        None => Seq::empty(),
    };
    trim_end(trim_end(root, '/') + "/"@ + endpoint + "?"@ + query, '?')
}

/// The refspecs that `policy` names: the pieces of its knob `refspecs`
/// between commas, where it has that knob.
pub open spec fn named_refspecs(policy: &BackupPolicy) -> Option<Seq<Seq<char>>> {
    match policy.knob("refspecs"@) {
        Some(list) => Some(split_text(list, ',')),
        None => None,
    }
}

/// The error for a `from` that the kind of the policy cannot be used with.
pub open spec fn unsuitable_from(policy: &BackupPolicy, advice: Seq<char>) -> ErrorView {
    user_error(
        "Your 'from' target '"@ + policy.from@ + "' is not valid for 'kind' '"@ + policy.kind@
            + "'."@,
        advice,
    )
}

/// How a source reads its entities: from which address, whether that
/// address names a single object or a listing in pages, and the refspecs
/// to give to every repository.
pub struct LoadPlan {
    pub url: String,
    pub single: bool,
    pub refspecs: Option<Vec<String>>,
}

/// The address of the listing `endpoint` for `policy`.
pub fn listing_address(policy: &BackupPolicy, endpoint: &str) -> (url: String)
    ensures
        url@ == listing_url(policy, endpoint@),
{
    let root = match policy.property("api_url") {
        Some(url) => trim_end_matches(url, '/'),
        None => trim_end_matches("https://api.github.com", '/'),
    };
    let mut url = root;
    url.append("/");
    url.append(endpoint);
    url.append("?");
    match policy.property("query") {
        Some(q) => {
            url.append(q);
        },
        None => {
            proof {
                assert(url@ + Seq::<char>::empty() =~= url@);
            }
        },
    }
    trim_end_matches(url.as_str(), '?')
}

/// The refspecs that `policy` names.
pub fn refspecs_for(policy: &BackupPolicy) -> (specs: Option<Vec<String>>)
    ensures
        match named_refspecs(policy) {
            Some(named) => specs matches Some(s) && texts_view(s@) == named,
            None => specs is None,
        },
{
    match policy.property("refspecs") {
        Some(list) => Some(split(list, ',')),
        None => None,
    }
}

/// The error for a `from` that the kind of `policy` cannot be used with.
pub fn unsuitable(policy: &BackupPolicy, advice: &str) -> (e: Error)
    ensures
        e@ == unsuitable_from(policy, advice@),
{
    let mut message = join("Your 'from' target '", policy.from.as_str());
    message.append("' is not valid for 'kind' '");
    message.append(policy.kind.as_str());
    message.append("'.");
    user(message, advice)
}

/// The plan for reading the artifacts of kind `kind` that `policy`
/// names, where its `from` names a source; `single` says which shape of
/// `from` names one object instead of a listing.
pub open spec fn plan_view(
    policy: &BackupPolicy,
    kind: GitHubArtifactKind,
    plan: LoadPlan,
    single: bool,
    source: SourceKindView,
) -> bool {
    &&& plan.url@ == listing_url(policy, endpoint_of(source, kind))
    &&& plan.single == single
    &&& match named_refspecs(policy) {
        Some(named) => plan.refspecs matches Some(s) && texts_view(s@) == named,
        None => plan.refspecs is None,
    }
}

} // verus!

//! Registry metadata of a dependency and its resolution to a repository on the
//! code forge.
use vstd::prelude::*;

use crate::path::{owner_and_repo, split_repo_path};

verus! {

/// Host name of the code forge whose repositories are starred.
pub const FORGE_HOST: &'static str = "github.com";

/// What `url::Url::parse` makes of a string: `None` where it is not a URL, else
/// the URL's host (if it has one) and its path.
pub uninterp spec fn parsed_url(s: Seq<char>) -> Option<(Option<Seq<char>>, Seq<char>)>;

/// The parts of a repository URL that resolution reads.
pub struct RepoUrl {
    pub host: Option<String>,
    pub path: String,
}

impl RepoUrl {
    pub open spec fn model(&self) -> (Option<Seq<char>>, Seq<char>) {
        (
            match self.host {
                Some(h) => Some(h@),
                None => None,
            },
            self.path@,
        )
    }

    /// Parses `s` as a URL, keeping its host and path.
    pub fn parse(s: &str) -> (r: Option<RepoUrl>)
        ensures
            r matches Some(u) ==> parsed_url(s@) == Some(u.model()),
            r is None <==> parsed_url(s@) is None,
    {
        parse_url(s)
    }
}

/// Relies on `url::Url::parse` to parse `s`, and on `Url::host_str` and
/// `Url::path` for the parts of the result.
#[verifier::external_body]
fn parse_url(s: &str) -> (r: Option<RepoUrl>)
    ensures
        r matches Some(u) ==> parsed_url(s@) == Some(u.model()),
        r is None <==> parsed_url(s@) is None,
{
    match url::Url::parse(s) {
        Ok(u) => Some(RepoUrl { host: u.host_str().map(|h| h.to_owned()), path: u.path().to_owned() }),
        Err(_) => None,
    }
}

/// A package's entry in the registry.
pub struct Crate {
    pub id: String,
    pub name: String,
    pub repository: Option<RepoUrl>,
}

/// The registry's response body, which holds the entry under `crate`.
pub struct Wrapper {
    pub krate: Crate,
}

impl Crate {
    /// An entry from its decoded fields; `None` where `repository` is present
    /// and not a URL.
    pub fn new(id: String, name: String, repository: Option<&str>) -> (r: Option<Crate>)
        ensures
            r is None <==> (repository matches Some(s) && parsed_url(s@) is None),
            r matches Some(c) ==> {
                &&& c.id@ == id@
                &&& c.name@ == name@
                &&& match repository {
                    None => c.repository is None,
                    Some(s) => c.repository matches Some(u) && parsed_url(s@) == Some(u.model()),
                }
            },
    {
        match repository {
            None => Some(Crate { id, name, repository: None }),
            Some(s) => match RepoUrl::parse(s) {
                Some(u) => Some(Crate { id, name, repository: Some(u) }),
                None => None,
            },
        }
    }
}

/// A dependency together with the forge repository it resolved to.
pub struct ResolvedTarget {
    pub name: String,
    pub owner: String,
    pub repo: String,
}

/// The mathematical content of a `ResolvedTarget`.
pub struct TargetModel {
    pub name: Seq<char>,
    pub owner: Seq<char>,
    pub repo: Seq<char>,
}

impl View for ResolvedTarget {
    type V = TargetModel;

    open spec fn view(&self) -> TargetModel {
        TargetModel { name: self.name@, owner: self.owner@, repo: self.repo@ }
    }
}

/// The target a URL with this host and path resolves to for dependency `name`.
pub open spec fn resolve_url_spec(name: Seq<char>, host: Option<Seq<char>>, path: Seq<char>) -> Option<TargetModel> {
    if host == Some(FORGE_HOST@) {
        match owner_and_repo(path) {
            Some((owner, repo)) => Some(TargetModel { name, owner, repo }),
            None => None,
        }
    } else {
        None
    }
}

/// The target an entry resolves to: its repository must be on the forge's host,
/// with a path that names an owner and a repository.
pub open spec fn resolve_spec(c: Crate) -> Option<TargetModel> {
    match c.repository {
        Some(u) => resolve_url_spec(c.name@, u.model().0, u.path@),
        None => None,
    }
}

/// The host and path of an entry's repository URL, if it has one.
pub open spec fn repository_model(c: Crate) -> Option<(Option<Seq<char>>, Seq<char>)> {
    match c.repository {
        Some(u) => Some(u.model()),
        None => None,
    }
}

/// Resolution reads nothing but the entry's name and its repository's host and
/// path: two entries that agree on these resolve alike, whatever else differs.
pub proof fn lemma_resolve_reads_name_and_url(a: Crate, b: Crate)
    requires
        a.name@ == b.name@,
        repository_model(a) == repository_model(b),
    ensures
        resolve_spec(a) == resolve_spec(b),
{
}

/// The forge repository of `krate`, or `None` where it has none that resolves.
pub fn resolve(krate: &Crate) -> (r: Option<ResolvedTarget>)
    ensures
        r matches Some(t) ==> resolve_spec(*krate) == Some(t@),
        r is None <==> resolve_spec(*krate) is None,
{
    match &krate.repository {
        None => None,
        Some(u) => {
            let on_forge = match &u.host {
                Some(h) => {
                    let forge = FORGE_HOST.to_owned();
                    *h == forge
                },
                None => false,
            };
            if !on_forge {
                return None;
            }
            match split_repo_path(u.path.as_str()) {
                Some((owner, repo)) => Some(ResolvedTarget { name: krate.name.clone(), owner, repo }),
                None => None,
            }
        },
    }
}

impl ResolvedTarget {
    /// The repository's place on the forge, `github.com/owner/repo`.
    pub fn forge_path(&self) -> (r: String)
        ensures
            r@ == FORGE_HOST@ + "/"@ + self.owner@ + "/"@ + self.repo@,
    {
        let mut r = FORGE_HOST.to_owned();
        r.append("/");
        r.append(self.owner.as_str());
        r.append("/");
        r.append(self.repo.as_str());
        r
    }
}

} // verus!

//! The service a run talks to, and how the outcomes of one batch of requests
//! become project records.
use vstd::prelude::*;
use crate::batch::FetchOutcome;
use crate::json::{parsed_json, Json};
use crate::text::{append_decimal, decimal};
use crate::project::{document_of, document_project, paired, unknown_project, Project, ProjectView};

verus! {

/// Why a run's configuration was refused.
#[derive(Clone, Copy, Debug, PartialEq, Eq, Structural)]
pub enum ConfigError {
    MissingKey,
    MissingToken,
    MissingVaultUrl,
}

/// Why a batch of fetches yields no records.
#[derive(Clone, Copy, Debug, PartialEq, Eq, Structural)]
pub enum FetchError {
    /// Some request was answered with HTTP 401.
    InvalidCredentials,
    /// A successful response held no valid JSON.
    MalformedDocument,
}

/// Checks that the key, the token and the base URL are each non-empty; the
/// first empty one, in that order, is reported.
pub fn validate_config(key: &str, token: &str, vault_url: &str) -> (r: Result<(), ConfigError>)
    ensures
        key@.len() == 0 ==> r == Err::<(), ConfigError>(ConfigError::MissingKey),
        key@.len() > 0 && token@.len() == 0 ==> r == Err::<(), ConfigError>(ConfigError::MissingToken),
        key@.len() > 0 && token@.len() > 0 && vault_url@.len() == 0 ==> r == Err::<(), ConfigError>(
            ConfigError::MissingVaultUrl,
        ),
        r is Ok <==> (key@.len() > 0 && token@.len() > 0 && vault_url@.len() > 0),
{
    if key.unicode_len() == 0 {
        Err(ConfigError::MissingKey)
    } else if token.unicode_len() == 0 {
        Err(ConfigError::MissingToken)
    } else if vault_url.unicode_len() == 0 {
        Err(ConfigError::MissingVaultUrl)
    } else {
        Ok(())
    }
}

/// A successful response whose payload is not valid JSON.
pub open spec fn malformed(o: FetchOutcome) -> bool {
    match o {
        FetchOutcome::Body(t) => parsed_json(t@) is None,
        _ => false,
    }
}

/// The record for one outcome: the placeholder for a failed request, else
/// the record of the document in the response.
pub open spec fn record_of(o: FetchOutcome, vault_url: Seq<char>) -> ProjectView {
    match o {
        FetchOutcome::Body(t) => match parsed_json(t@) {
            Some(j) => document_project(document_of(j), vault_url),
            None => unknown_project(),
        },
        _ => unknown_project(),
    }
}

/// `{vault_url}/api/projects/{project_id}`.
pub open spec fn project_api_url(vault_url: Seq<char>, project_id: nat) -> Seq<char> {
    vault_url + "/api/projects/"@ + decimal(project_id)
}

/// Where and with which credentials the projects `project_ids` are fetched.
pub struct Vault<'a> {
    key: &'a str,
    token: &'a str,
    vault_url: &'a str,
    project_ids: &'a [u32],
}

impl<'a> Vault<'a> {
    pub fn new(key: &'a str, token: &'a str, vault_url: &'a str, project_ids: &'a [u32]) -> (r: Self)
        ensures
            r.key() == key,
            r.token() == token,
            r.vault_url() == vault_url,
            r.project_ids() == project_ids,
    {
        Vault { key, token, vault_url, project_ids }
    }

    pub closed spec fn spec_key(&self) -> &'a str {
        self.key
    }

    #[verifier::when_used_as_spec(spec_key)]
    pub fn key(&self) -> (r: &'a str)
        ensures
            r == self.spec_key(),
    {
        self.key
    }

    pub closed spec fn spec_token(&self) -> &'a str {
        self.token
    }

    #[verifier::when_used_as_spec(spec_token)]
    pub fn token(&self) -> (r: &'a str)
        ensures
            r == self.spec_token(),
    {
        self.token
    }

    pub closed spec fn spec_vault_url(&self) -> &'a str {
        self.vault_url
    }

    #[verifier::when_used_as_spec(spec_vault_url)]
    pub fn vault_url(&self) -> (r: &'a str)
        ensures
            r == self.spec_vault_url(),
    {
        self.vault_url
    }

    pub closed spec fn spec_project_ids(&self) -> &'a [u32] {
        self.project_ids
    }

    #[verifier::when_used_as_spec(spec_project_ids)]
    pub fn project_ids(&self) -> (r: &'a [u32])
        ensures
            r == self.spec_project_ids(),
    {
        self.project_ids
    }

    /// The URL that the project `project_id` is requested from.
    pub fn project_url(&self, project_id: u32) -> (r: String)
        ensures
            r@ == project_api_url(self.vault_url()@, project_id as nat),
    {
        let mut r = String::from_str(self.vault_url);
        r.append("/api/projects/");
        append_decimal(&mut r, project_id);
        assert(r@ =~= project_api_url(self.vault_url()@, project_id as nat));
        r
    }

    /// The records for the outcomes of one batch, in the same order. Any 401
    /// fails the whole batch; a successful response that is not JSON fails it
    /// too; a failed request gives the placeholder record.
    pub fn collect_projects(&self, outcomes: Vec<FetchOutcome>) -> (r: Result<Vec<Project>, FetchError>)
        ensures
            r == Err::<Vec<Project>, FetchError>(FetchError::InvalidCredentials) <==> exists|i: int|
                0 <= i < outcomes@.len() && #[trigger] outcomes@[i] == FetchOutcome::Unauthorized,
            r == Err::<Vec<Project>, FetchError>(FetchError::MalformedDocument) <==> (
            forall|i: int| 0 <= i < outcomes@.len() ==> #[trigger] outcomes@[i] != FetchOutcome::Unauthorized)
                && exists|i: int| 0 <= i < outcomes@.len() && malformed(#[trigger] outcomes@[i]),
            r matches Ok(ps) ==> {
                &&& ps@.len() == outcomes@.len()
                &&& forall|i: int| 0 <= i < ps@.len() ==> (#[trigger] ps@[i])@ == record_of(outcomes@[i], self.vault_url()@)
                &&& forall|i: int| 0 <= i < ps@.len() ==> paired(#[trigger] ps@[i]@)
            },
    {
        let n = outcomes.len();
        let mut i: usize = 0;
        while i < n
            invariant
                n == outcomes@.len(),
                i <= n,
                forall|j: int| 0 <= j < i ==> #[trigger] outcomes@[j] != FetchOutcome::Unauthorized,
            decreases n - i,
        {
            match &outcomes[i] {
                FetchOutcome::Unauthorized => {
                    return Err(FetchError::InvalidCredentials);
                },
                _ => {},
            }
            i = i + 1;
        }
        let mut projects: Vec<Project> = Vec::new();
        let mut i: usize = 0;
        while i < n
            invariant
                n == outcomes@.len(),
                i <= n,
                projects@.len() == i,
                forall|j: int| 0 <= j < n ==> #[trigger] outcomes@[j] != FetchOutcome::Unauthorized,
                forall|j: int| 0 <= j < i ==> !malformed(#[trigger] outcomes@[j]),
                forall|j: int| 0 <= j < i ==> paired(#[trigger] projects@[j]@),
                forall|j: int| 0 <= j < i ==> (#[trigger] projects@[j])@ == record_of(outcomes@[j], self.vault_url()@),
            decreases n - i,
        {
            let p = match &outcomes[i] {
                FetchOutcome::Body(text) => {
                    match Json::from_text(text.as_str()) {
                        Some(doc) => Project::parse(Some(&doc), self.vault_url),
                        None => {
                            assert(malformed(outcomes@[i as int]));
                            return Err(FetchError::MalformedDocument);
                        },
                    }
                },
                _ => Project::parse(None, self.vault_url),
            };
            projects.push(p);
            i = i + 1;
        }
        Ok(projects)
    }
}

} // verus!

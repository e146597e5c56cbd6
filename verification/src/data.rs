use vstd::prelude::*;

verus! {

/// The issue lifecycle events this service accepts. The decoder rejects every
/// other action text, including case variants.
#[derive(Clone, Copy, PartialEq, Eq, Structural, Debug)]
pub enum Action {
    Opened,
    Closed,
}

/// The issue an event speaks of.
#[derive(Debug)]
pub struct Issue {
    pub id: u64,
    pub number: u32,
    pub body: String,
    pub title: String,
}

/// The repository an event belongs to.
#[derive(Debug)]
pub struct Repository {
    pub full_name: String,
    pub url: String,
}

/// One decoded webhook notification: which issue, what happened, and where.
#[derive(Debug)]
pub struct WebhookPayload {
    pub issue: Issue,
    pub action: Action,
    pub repository: Repository,
}

/// Mathematical model of an `Issue`.
pub struct IssueV {
    pub id: u64,
    pub number: u32,
    pub body: Seq<char>,
    pub title: Seq<char>,
}

/// Mathematical model of a `Repository`.
pub struct RepositoryV {
    pub full_name: Seq<char>,
    pub url: Seq<char>,
}

/// Mathematical model of a `WebhookPayload`.
pub struct WebhookPayloadV {
    pub issue: IssueV,
    pub action: Action,
    pub repository: RepositoryV,
}

impl View for Issue {
    type V = IssueV;

    open spec fn view(&self) -> IssueV {
        IssueV { id: self.id, number: self.number, body: self.body@, title: self.title@ }
    }
}

impl View for Repository {
    type V = RepositoryV;

    open spec fn view(&self) -> RepositoryV {
        RepositoryV { full_name: self.full_name@, url: self.url@ }
    }
}

impl View for WebhookPayload {
    type V = WebhookPayloadV;

    open spec fn view(&self) -> WebhookPayloadV {
        WebhookPayloadV {
            issue: self.issue@,
            action: self.action,
            repository: self.repository@,
        }
    }
}

} // verus!

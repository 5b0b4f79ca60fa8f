use crate::ids::Timestamp;
use crate::registry::{delete_target, log_source_of, FullJobState, LogSource};
use crate::text::{join_sep, views_of};
use vstd::prelude::*;

verus! {

/// URL listing the executions of `namespace`, restricted to the fields the
/// registry reads.
pub fn get_status_url_bakta(url: &str, namespace: &str) -> (r: String)
    ensures
        r@ == url@ + "/api/v1/workflows/"@ + namespace@
            + "?fields=items.status.finishedAt,items.status.startedAt,items.metadata.name,items.metadata.uid,items.metadata.resourceVersion,items.status.phase,items.metadata.labels"@,
{
    String::from_str(url).concat("/api/v1/workflows/").concat(namespace).concat(
        "?fields=items.status.finishedAt,items.status.startedAt,items.metadata.name,items.metadata.uid,items.metadata.resourceVersion,items.status.phase,items.metadata.labels",
    )
}

/// URL that submits a workflow template in `namespace`.
pub fn get_submit_url(url: &str, namespace: &str) -> (r: String)
    ensures
        r@ == url@ + "/api/v1/workflows/"@ + namespace@ + "/submit"@,
{
    String::from_str(url).concat("/api/v1/workflows/").concat(namespace).concat("/submit")
}

/// URL of the main container's log of an archived execution.
pub fn get_logs_archived_url(url: &str, namespace: &str, uid: &str, workflowname: &str) -> (r:
    String)
    ensures
        r@ == url@ + "/artifact-files/"@ + namespace@ + "/archived-workflows/"@ + uid@ + "/"@
            + workflowname@ + "/outputs/main-logs"@,
{
    String::from_str(url).concat("/artifact-files/").concat(namespace).concat(
        "/archived-workflows/",
    ).concat(uid).concat("/").concat(workflowname).concat("/outputs/main-logs")
}

/// URL of the main container's log of a live execution.
pub fn get_logs_running_url(url: &str, namespace: &str, workflowname: &str) -> (r: String)
    ensures
        r@ == url@ + "/api/v1/workflows/"@ + namespace@ + "/"@ + workflowname@
            + "/log?logOptions.container=main"@,
{
    String::from_str(url).concat("/api/v1/workflows/").concat(namespace).concat("/").concat(
        workflowname,
    ).concat("/log?logOptions.container=main")
}

/// URL that deletes an archived execution.
pub fn get_delete_url_archived(url: &str, uid: &str) -> (r: String)
    ensures
        r@ == url@ + "/api/v1/archived-workflows/"@ + uid@,
{
    String::from_str(url).concat("/api/v1/archived-workflows/").concat(uid)
}

/// URL that deletes a live execution.
pub fn get_delete_url_running(url: &str, namespace: &str, workflowname: &str) -> (r: String)
    ensures
        r@ == url@ + "/api/v1/workflows/"@ + namespace@ + "/"@ + workflowname@,
{
    String::from_str(url).concat("/api/v1/workflows/").concat(namespace).concat("/").concat(
        workflowname,
    )
}

/// Body of a request that submits a workflow template.
pub struct SubmitWorkflowTemplate {
    pub namespace: String,
    pub resource_kind: String,
    pub resource_name: String,
    pub submit_options: SubmitOptions,
}

/// Options of a template submission.
pub struct SubmitOptions {
    pub labels: Option<String>,
    pub parameters: Option<Vec<String>>,
    pub service_account: Option<String>,
    pub generate_name: Option<String>,
}

/// Listing of executions as the orchestrator reports them.
pub struct SimpleStatusList {
    pub items: Vec<SimpleStatus>,
}

/// One execution of the listing.
pub struct SimpleStatus {
    pub metadata: StatusMetadata,
    pub status: SimpleStatusStatus,
}

/// Name, identity and labels of an execution.
pub struct StatusMetadata {
    pub name: String,
    pub uid: Option<String>,
    pub resource_version: Option<String>,
    pub labels: Vec<(String, String)>,
}

/// Phase and times of an execution.
pub struct SimpleStatusStatus {
    pub phase: String,
    pub started_at: Timestamp,
    pub finished_at: Option<Timestamp>,
}

/// The orchestrator's answer to a submission.
pub struct SubmitResult {
    pub metadata: SubmitResultMetadata,
}

/// Name and creation time of a submitted execution.
pub struct SubmitResultMetadata {
    pub name: String,
    pub creation_timestamp: Timestamp,
}

/// `key=value`.
pub open spec fn pair_text(p: (Seq<char>, Seq<char>)) -> Seq<char> {
    p.0 + seq!['='] + p.1
}

pub open spec fn pair_texts(ps: Seq<(Seq<char>, Seq<char>)>) -> Seq<Seq<char>> {
    ps.map_values(|p: (Seq<char>, Seq<char>)| pair_text(p))
}

pub open spec fn pair_views(ps: Seq<(String, String)>) -> Seq<(Seq<char>, Seq<char>)> {
    ps.map_values(|p: (String, String)| (p.0@, p.1@))
}

fn pair_strings(ps: &Vec<(String, String)>) -> (r: Vec<String>)
    ensures
        views_of(r@) == pair_texts(pair_views(ps@)),
{
    let mut out: Vec<String> = Vec::new();
    let mut i: usize = 0;
    while i < ps.len()
        invariant
            i <= ps.len(),
            views_of(out@) =~= pair_texts(pair_views(ps@.subrange(0, i as int))),
        decreases ps.len() - i,
    {
        let ghost before = views_of(out@);
        let w = String::from_str(ps[i].0.as_str()).concat("=").concat(ps[i].1.as_str());
        proof {
            reveal_strlit("=");
            assert("="@ =~= seq!['=']);
            assert(w@ == pair_text((ps@[i as int].0@, ps@[i as int].1@)));
        }
        out.push(w);
        assert(views_of(out@) =~= before.push(w@));
        assert(pair_texts(pair_views(ps@.subrange(0, i + 1))) =~= pair_texts(
            pair_views(ps@.subrange(0, i as int)),
        ).push(pair_text((ps@[i as int].0@, ps@[i as int].1@))));
        i = i + 1;
    }
    assert(ps@.subrange(0, ps.len() as int) =~= ps@);
    out
}

/// No two pairs of `ps` share a key, as in a map.
pub open spec fn distinct_keys(ps: Seq<(Seq<char>, Seq<char>)>) -> bool {
    forall|i: int, j: int| 0 <= i < j < ps.len() ==> ps[i].0 != ps[j].0
}

/// Whether no two pairs of `ps` share a key.
pub fn has_distinct_keys(ps: &Vec<(String, String)>) -> (r: bool)
    ensures
        r == distinct_keys(pair_views(ps@)),
{
    let ghost v = pair_views(ps@);
    let mut i: usize = 0;
    while i < ps.len()
        invariant
            i <= ps.len(),
            v == pair_views(ps@),
            forall|a: int, b: int| 0 <= a < b < ps.len() && a < i ==> v[a].0 != v[b].0,
        decreases ps.len() - i,
    {
        let mut j: usize = i + 1;
        while j < ps.len()
            invariant
                i < ps.len(),
                i + 1 <= j <= ps.len(),
                v == pair_views(ps@),
                forall|a: int, b: int| 0 <= a < b < ps.len() && a < i ==> v[a].0 != v[b].0,
                forall|b: int| i < b < j ==> v[i as int].0 != v[b].0,
            decreases ps.len() - j,
        {
            if crate::text::str_eq(ps[i].0.as_str(), ps[j].0.as_str()) {
                assert(v[i as int].0 == v[j as int].0);
                return false;
            }
            j = j + 1;
        }
        assert forall|a: int, b: int| 0 <= a < b < ps.len() && a < i + 1 implies v[a].0
            != v[b].0 by {
            if a == i {
                assert(i < b < j);
            }
        }
        i = i + 1;
    }
    true
}

/// What a submission sends, given the template, labels and parameters.
pub open spec fn submission_matches(
    t: SubmitWorkflowTemplate,
    namespace: Seq<char>,
    template_name: Seq<char>,
    labels: Option<Seq<(Seq<char>, Seq<char>)>>,
    parameters: Option<Seq<(Seq<char>, Seq<char>)>>,
    service_account: Option<Seq<char>>,
    generate_name: Option<Seq<char>>,
) -> bool {
    &&& t.namespace@ == namespace
    &&& t.resource_kind@ == "WorkflowTemplate"@
    &&& t.resource_name@ == template_name
    &&& match labels {
        Some(ls) => t.submit_options.labels matches Some(l) && l@ == join_sep(
            pair_texts(ls),
            ',',
        ),
        None => t.submit_options.labels is None,
    }
    &&& match parameters {
        Some(ps) => t.submit_options.parameters matches Some(p) && views_of(p@) == pair_texts(ps),
        None => t.submit_options.parameters is None,
    }
    &&& crate::registry::opt_view(t.submit_options.service_account) == service_account
    &&& crate::registry::opt_view(t.submit_options.generate_name) == generate_name
}

/// Connection data of the workflow orchestrator.
pub struct ArgoClient {
    pub token: String,
    pub url: String,
    pub namespace: String,
}

impl ArgoClient {
    pub fn new(token: String, url: String, namespace: String) -> (r: ArgoClient)
        ensures
            r.token == token,
            r.url == url,
            r.namespace == namespace,
    {
        ArgoClient { token, url, namespace }
    }

    /// URL that lists the executions of this client's namespace.
    pub fn status_url(&self) -> (r: String)
        ensures
            r@ == self.url@ + "/api/v1/workflows/"@ + self.namespace@
                + "?fields=items.status.finishedAt,items.status.startedAt,items.metadata.name,items.metadata.uid,items.metadata.resourceVersion,items.status.phase,items.metadata.labels"@,
    {
        get_status_url_bakta(self.url.as_str(), self.namespace.as_str())
    }

    /// URL that submits a workflow template in this client's namespace.
    pub fn submit_url(&self) -> (r: String)
        ensures
            r@ == self.url@ + "/api/v1/workflows/"@ + self.namespace@ + "/submit"@,
    {
        get_submit_url(self.url.as_str(), self.namespace.as_str())
    }

    /// The URL that deletes the execution of `state`, if it has one.
    pub fn delete_url(&self, state: &FullJobState) -> (r: Option<String>)
        ensures
            crate::registry::opt_view(r) == delete_target(self.url@, self.namespace@, state@),
    {
        if state.archived {
            match &state.argo_uid {
                Some(uid) => Some(get_delete_url_archived(self.url.as_str(), uid.as_str())),
                None => None,
            }
        } else {
            match &state.workflowname {
                Some(name) => Some(
                    get_delete_url_running(self.url.as_str(), self.namespace.as_str(), name.as_str()),
                ),
                None => None,
            }
        }
    }

    /// Where the log of `state` is read from.
    pub fn log_source(&self, state: &FullJobState) -> (r: LogSource)
        ensures
            log_source_of(r, self.url@, self.namespace@, state@),
    {
        if state.archived {
            match &state.argo_uid {
                Some(uid) => {
                    let name = match &state.workflowname {
                        Some(n) => n.clone(),
                        None => String::new(),
                    };
                    LogSource::Archived(
                        get_logs_archived_url(
                            self.url.as_str(),
                            self.namespace.as_str(),
                            uid.as_str(),
                            name.as_str(),
                        ),
                    )
                },
                None => LogSource::Empty,
            }
        } else {
            match &state.workflowname {
                Some(name) => LogSource::Running(
                    get_logs_running_url(self.url.as_str(), self.namespace.as_str(), name.as_str()),
                ),
                None => LogSource::Empty,
            }
        }
    }

    /// The body that submits `templatename` in this client's namespace:
    /// labels as `key=value` joined by commas, parameters as `key=value`.
    pub fn submit_template(
        &self,
        templatename: &str,
        labels: Option<Vec<(String, String)>>,
        parameters: Option<Vec<(String, String)>>,
        service_account: Option<String>,
        generate_name: Option<String>,
    ) -> (r: SubmitWorkflowTemplate)
        requires
            labels matches Some(l) ==> distinct_keys(pair_views(l@)),
            parameters matches Some(p) ==> distinct_keys(pair_views(p@)),
        ensures
            submission_matches(
                r,
                self.namespace@,
                templatename@,
                match labels {
                    Some(l) => Some(pair_views(l@)),
                    None => None,
                },
                match parameters {
                    Some(p) => Some(pair_views(p@)),
                    None => None,
                },
                crate::registry::opt_view(service_account),
                crate::registry::opt_view(generate_name),
            ),
    {
        let label_text = match labels {
            Some(ls) => {
                let words = pair_strings(&ls);
                Some(crate::text::join_strings(&words, ','))
            },
            None => None,
        };
        let parameter_texts = match parameters {
            Some(ps) => Some(pair_strings(&ps)),
            None => None,
        };
        SubmitWorkflowTemplate {
            namespace: self.namespace.clone(),
            resource_kind: String::from_str("WorkflowTemplate"),
            resource_name: String::from_str(templatename),
            submit_options: SubmitOptions {
                labels: label_text,
                parameters: parameter_texts,
                service_account,
                generate_name,
            },
        }
    }
}

} // verus!

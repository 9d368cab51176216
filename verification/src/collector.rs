//! What a collector is set up with: the node to send to, the credentials
//! to show, and the template that names the indices.

use vstd::prelude::*;
use vstd::string::*;
use crate::index::{IndexTemplate, IndexTemplateView};
use crate::{DEFAULT_TEMPLATE_FORMAT, DEFAULT_TEMPLATE_PREFIX, LOCAL_SERVER_URL};

verus! {

/// The settings of a collector as a mathematical value.
pub struct ElasticCollectorView {
    pub server_url: Seq<char>,
    pub authorization: Option<Seq<char>>,
    pub template: IndexTemplateView,
}

/// Log collector for Elasticsearch.
///
/// Logs are written to an index based on their timestamp and the given
/// `IndexTemplate`.
#[derive(Debug)]
pub struct ElasticCollector {
    server_url: String,
    authorization: Option<String>,
    template: IndexTemplate,
}

impl View for ElasticCollector {
    type V = ElasticCollectorView;

    closed spec fn view(&self) -> ElasticCollectorView {
        ElasticCollectorView {
            server_url: self.server_url@,
            authorization: match self.authorization {
                Some(auth) => Some(auth@),
                None => None,
            },
            template: self.template@,
        }
    }
}

impl ElasticCollector {
    /// Create a new collector with the given node url and naming template.
    pub fn new(server_url: &str, index_template: IndexTemplate) -> (collector: ElasticCollector)
        ensures
            collector@ == (ElasticCollectorView {
                server_url: server_url@,
                authorization: None,
                template: index_template@,
            }),
    {
        ElasticCollector {
            server_url: server_url.to_owned(),
            authorization: None,
            template: index_template,
        }
    }

    /// Create a new collector for logging to `localhost:9200`.
    pub fn new_local(index_template: IndexTemplate) -> (collector: ElasticCollector)
        ensures
            collector@ == (ElasticCollectorView {
                server_url: LOCAL_SERVER_URL@,
                authorization: None,
                template: index_template@,
            }),
    {
        Self::new(LOCAL_SERVER_URL, index_template)
    }

    /// Supply an auth header for index requests.
    pub fn with_auth(self, auth: String) -> (collector: ElasticCollector)
        ensures
            collector@ == (ElasticCollectorView { authorization: Some(auth@), ..self@ }),
    {
        ElasticCollector {
            server_url: self.server_url,
            authorization: Some(auth),
            template: self.template,
        }
    }

    /// The address of the node.
    pub fn server_url(&self) -> (server_url: &str)
        ensures
            server_url@ == self@.server_url,
    {
        self.server_url.as_str()
    }

    /// The value of the authorization header, if one was supplied.
    pub fn authorization(&self) -> (authorization: Option<&str>)
        ensures
            authorization is Some <==> self@.authorization is Some,
            authorization matches Some(auth) ==> self@.authorization == Some(auth@),
    {
        match &self.authorization {
            Some(auth) => Some(auth.as_str()),
            None => None,
        }
    }

    /// The template that names the indices.
    pub fn template(&self) -> (template: &IndexTemplate)
        ensures
            template@ == self@.template,
    {
        &self.template
    }
}

impl Default for ElasticCollector {
    fn default() -> (collector: ElasticCollector)
        ensures
            collector@ == (ElasticCollectorView {
                server_url: LOCAL_SERVER_URL@,
                authorization: None,
                template: IndexTemplateView {
                    prefix: DEFAULT_TEMPLATE_PREFIX@,
                    date_format: DEFAULT_TEMPLATE_FORMAT@,
                },
            }),
    {
        ElasticCollector::new_local(IndexTemplate::default())
    }
}

} // verus!

//! The choice of a backend by the scheme of the connection URI, the
//! mandatory settings of a connection, and the rows of a backend's answer.

use crate::document::{document_to_value, normalized, Document, DocumentView};
use crate::result::QueryResults;
use crate::text::{occurs_at, split_once, split_once_spec, str_eq};
use crate::value::CanonicalValue;
use vstd::prelude::*;

verus! {

/// The list of the schemes that name a backend.
pub const ACCEPTED_SCHEMES: &'static str = "[http, https, bolt]";

/// What comes before the list in the message for a scheme that names no backend.
pub const BAD_SCHEME_LEAD: &'static str = "db uri must have one of the following protocols: ";

/// What comes before the list in the message for a URI without a scheme.
pub const BAD_URI_LEAD: &'static str =
    "db uri must be a valid uri with one of the following protocols: ";

/// What comes after the list in the message for a URI without a scheme.
pub const URI_EXAMPLES: &'static str =
    ", eg. \"bolt://127.0.0.1:7687\", or \"https://abc.xyz.us-east-1.neptune.amazonaws.com:8182\"";

/// The message for an answer that is no array.
pub const NOT_AN_ARRAY: &'static str = "unexpected response received, was expecting an array";

/// The name of the setting that holds the connection URI.
pub const DB_URI: &'static str = "DB_URI";

/// The name of the setting that holds the user of the local backend.
pub const NEO4J_USER: &'static str = "NEO4J_USER";

/// The name of the setting that holds the password of the local backend.
pub const NEO4J_PASSWORD: &'static str = "NEO4J_PASSWORD";

/// The name of the setting that holds the database of the local backend.
pub const NEO4J_DB: &'static str = "NEO4J_DB";

/// The two backends.
#[derive(Debug, Clone, Copy, PartialEq, Eq, Structural)]
pub enum Backend {
    /// The managed graph database, reached over HTTP.
    Neptune,
    /// The self-hosted graph database, reached over its binary protocol.
    Neo4j,
}

/// Why a connection cannot be configured.
#[derive(Debug, Clone, Copy, PartialEq, Eq, Structural)]
pub enum UriError {
    /// The URI has a scheme that names no backend.
    BadScheme,
    /// The URI has no `://`.
    BadUri,
}

/// Whether a text holds the list of the accepted schemes.
pub open spec fn lists_schemes(text: Seq<char>) -> bool {
    exists|i: int| occurs_at(text, ACCEPTED_SCHEMES@, i)
}

impl UriError {
    /// The message of the error: each one lists the accepted schemes, and
    /// the one for a URI without a scheme shows two URIs as well.
    pub open spec fn spec_message(self) -> Seq<char> {
        match self {
            UriError::BadScheme => BAD_SCHEME_LEAD@ + ACCEPTED_SCHEMES@,
            UriError::BadUri => BAD_URI_LEAD@ + ACCEPTED_SCHEMES@ + URI_EXAMPLES@,
        }
    }

    /// The message of the error.
    pub fn message(&self) -> (r: String)
        ensures
            r@ == self.spec_message(),
            lists_schemes(r@),
    {
        proof {
            lemma_messages_list_schemes(*self);
        }
        match self {
            UriError::BadScheme => String::from_str(BAD_SCHEME_LEAD).concat(ACCEPTED_SCHEMES),
            UriError::BadUri => String::from_str(BAD_URI_LEAD).concat(ACCEPTED_SCHEMES).concat(
                URI_EXAMPLES,
            ),
        }
    }
}

/// The message of every error over the URI lists the accepted schemes.
pub proof fn lemma_messages_list_schemes(e: UriError)
    ensures
        lists_schemes(e.spec_message()),
{
    let list = ACCEPTED_SCHEMES@;
    match e {
        UriError::BadScheme => {
            let lead = BAD_SCHEME_LEAD@;
            assert((lead + list).subrange(lead.len() as int, (lead.len() + list.len()) as int) =~= list);
            assert(occurs_at(e.spec_message(), list, lead.len() as int));
        },
        UriError::BadUri => {
            let lead = BAD_URI_LEAD@;
            assert((lead + list + URI_EXAMPLES@).subrange(
                lead.len() as int,
                (lead.len() + list.len()) as int,
            ) =~= list);
            assert(occurs_at(e.spec_message(), list, lead.len() as int));
        },
    }
}

/// The backend that the scheme of a URI names: `http` and `https` the
/// managed one, `bolt` the self-hosted one.
pub open spec fn backend_of(db_uri: Seq<char>) -> Result<Backend, UriError> {
    match split_once_spec(db_uri, "://"@) {
        Some((scheme, _)) => if scheme == "http"@ || scheme == "https"@ {
            Ok(Backend::Neptune)
        } else if scheme == "bolt"@ {
            Ok(Backend::Neo4j)
        } else {
            Err(UriError::BadScheme)
        },
        None => Err(UriError::BadUri),
    }
}

/// The backend that the scheme of the URI names.
pub fn select_backend(db_uri: &str) -> (r: Result<Backend, UriError>)
    ensures
        r == backend_of(db_uri@),
{
    match split_once(db_uri, "://") {
        Some((scheme, _)) => {
            if str_eq(scheme, "http") || str_eq(scheme, "https") {
                Ok(Backend::Neptune)
            } else if str_eq(scheme, "bolt") {
                Ok(Backend::Neo4j)
            } else {
                Err(UriError::BadScheme)
            }
        },
        None => Err(UriError::BadUri),
    }
}

/// The value of a setting that must be set: the value where there is one,
/// else the message that the setting of this name is not set.
pub fn get_mandatory_env_var(key: &str, value: Option<String>) -> (r: Result<String, String>)
    ensures
        match value {
            Some(v) => r matches Ok(s) && s@ == v@,
            None => r matches Err(e) && e@ == key@ + " is not set"@,
        },
{
    match value {
        Some(v) => Ok(v),
        None => Err(String::from_str(key).concat(" is not set")),
    }
}

/// The settings of a connection to the self-hosted backend.
#[derive(Debug, Clone, PartialEq, Eq)]
pub struct Neo4jConfig {
    pub db_uri: String,
    pub user: String,
    pub password: String,
    pub database_name: String,
}

/// The settings of a connection to the self-hosted backend, from the URI and
/// the three settings that must go with it. The first of them that is not
/// set, in the order user, password, database, gives the error.
pub fn neo4j_config(
    db_uri: String,
    user: Option<String>,
    password: Option<String>,
    database_name: Option<String>,
) -> (r: Result<Neo4jConfig, String>)
    ensures
        match (user, password, database_name) {
            (Some(u), Some(p), Some(d)) => r matches Ok(c) && c.db_uri@ == db_uri@ && c.user@
                == u@ && c.password@ == p@ && c.database_name@ == d@,
            (None, _, _) => r matches Err(e) && e@ == NEO4J_USER@ + " is not set"@,
            (Some(_), None, _) => r matches Err(e) && e@ == NEO4J_PASSWORD@ + " is not set"@,
            (Some(_), Some(_), None) => r matches Err(e) && e@ == NEO4J_DB@ + " is not set"@,
        },
{
    let user = match get_mandatory_env_var(NEO4J_USER, user) {
        Ok(v) => v,
        Err(e) => {
            return Err(e);
        },
    };
    let password = match get_mandatory_env_var(NEO4J_PASSWORD, password) {
        Ok(v) => v,
        Err(e) => {
            return Err(e);
        },
    };
    let database_name = match get_mandatory_env_var(NEO4J_DB, database_name) {
        Ok(v) => v,
        Err(e) => {
            return Err(e);
        },
    };
    Ok(Neo4jConfig { db_uri, user, password, database_name })
}

/// The rows of a backend's answer: the normalized elements of the array that
/// the answer is. An answer of another shape is refused.
pub fn results_from_document(doc: &Document) -> (r: Result<QueryResults, &'static str>)
    ensures
        match doc@ {
            DocumentView::Array(items) => r matches Ok(results) && results@ == normalized(
                doc@,
            )->Array_0 && (results is Empty <==> items.len() == 0),
            _ => r matches Err(e) && e@ == NOT_AN_ARRAY@,
        },
{
    match document_to_value(doc) {
        CanonicalValue::Array(rows) => {
            let ghost want = normalized(doc@)->Array_0;
            assert(crate::result::values_model(rows@) =~= want);
            let results = QueryResults::from(rows);
            assert(results@ =~= want);
            Ok(results)
        },
        _ => Err(NOT_AN_ARRAY),
    }
}

} // verus!

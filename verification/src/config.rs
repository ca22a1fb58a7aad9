//! Process configuration data.
//!
//! The configuration is loaded once at startup from a structured file by the
//! surrounding process; a parse failure there is fatal and aborts startup.
//! This crate holds the parsed values only. The cache section is a
//! pass-through capability: its key space and semantics are owned entirely by
//! the external cache collaborator, so it is kept as uninterpreted key/value
//! pairs.

use vstd::prelude::*;

verus! {

/// Configuration of the directory-backend side: where the exclusive session
/// is opened and the base scope every query is issued under.
#[derive(Debug)]
pub struct LdapConfiguration {
    /// URI of the directory server the session connects to.
    pub uri: String,
    /// Base distinguished name under which queries are scoped.
    pub base: String,
}

impl Default for LdapConfiguration {
    /// An empty backend configuration: no server, no base scope.
    fn default() -> (r: Self)
        ensures
            r.uri@ == Seq::<char>::empty(),
            r.base@ == Seq::<char>::empty(),
    {
        LdapConfiguration { uri: String::new(), base: String::new() }
    }
}

/// Configuration of the inbound HTTP side.
#[derive(Debug)]
pub struct HttpConfiguration {
    /// Address the inbound transport listens on.
    pub address: String,
}

impl Default for HttpConfiguration {
    /// An empty frontend configuration: no listen address.
    fn default() -> (r: Self)
        ensures
            r.address@ == Seq::<char>::empty(),
    {
        HttpConfiguration { address: String::new() }
    }
}

/// Configuration of the result cache that sits in front of the dispatcher.
///
/// The cache's behaviour is not part of this core; its settings are carried
/// as opaque key/value pairs for the external collaborator that owns them.
#[derive(Debug)]
pub struct CacheConfiguration {
    /// Uninterpreted cache-tuning settings, in file order.
    pub options: Vec<(String, String)>,
}

impl Default for CacheConfiguration {
    /// An empty cache configuration: no settings.
    fn default() -> (r: Self)
        ensures
            r.options@ == Seq::<(String, String)>::empty(),
    {
        CacheConfiguration { options: Vec::new() }
    }
}

/// The whole process configuration.
#[derive(Debug)]
pub struct IdPConfiguration {
    /// The directory-backend section.
    pub ldap: LdapConfiguration,
    /// The inbound HTTP section.
    pub http: HttpConfiguration,
    /// The cache section, passed through to the cache collaborator.
    pub cache: CacheConfiguration,
}

impl Default for IdPConfiguration {
    /// A configuration whose every section is empty.
    fn default() -> (r: Self)
        ensures
            r.ldap.uri@ == Seq::<char>::empty(),
            r.ldap.base@ == Seq::<char>::empty(),
            r.http.address@ == Seq::<char>::empty(),
            r.cache.options@ == Seq::<(String, String)>::empty(),
    {
        IdPConfiguration {
            ldap: LdapConfiguration::default(),
            http: HttpConfiguration::default(),
            cache: CacheConfiguration::default(),
        }
    }
}

} // verus!

//! The cache of connections to the other nodes of the cluster.
use vstd::prelude::*;

use std::collections::HashMap;

use crate::NodeId;

verus! {

broadcast use vstd::std_specs::hash::group_hash_axioms;

/// The connection to each node that has been reached, with the address it was
/// opened to. `C` is the connection.
pub struct ClientCache<C> {
    clients: HashMap<NodeId, (String, C)>,
}

impl<C> View for ClientCache<C> {
    type V = Map<NodeId, (String, C)>;

    closed spec fn view(&self) -> Map<NodeId, (String, C)> {
        self.clients@
    }
}

impl<C> ClientCache<C> {
    /// A cache that holds no connection.
    pub fn new() -> (cache: ClientCache<C>)
        ensures
            cache@ == Map::<NodeId, (String, C)>::empty(),
    {
        ClientCache { clients: HashMap::new() }
    }

    /// The connection already opened to a node, if any.
    ///
    /// A node is looked up by its id alone: a connection is reused even when
    /// the node is now reached at another address.
    pub fn cached(&self, node_id: NodeId) -> (client: Option<&C>)
        ensures
            match client {
                Some(c) => self@.contains_key(node_id) && *c == self@[node_id].1,
                None => !self@.contains_key(node_id),
            },
    {
        match self.clients.get(&node_id) {
            Some(entry) => Some(&entry.1),
            None => None,
        }
    }

    /// Makes sure a connection to a node is kept: an existing one is reused
    /// (whatever address it was opened to); otherwise `connect` opens one to
    /// `addr`, and it is kept only when that succeeds.
    pub fn get_or_connect<E, F: FnOnce(&str) -> Result<C, E>>(
        &mut self,
        node_id: NodeId,
        addr: &str,
        connect: F,
    ) -> (r: Result<(), E>)
        requires
            call_requires(connect, (addr,)),
        ensures
            old(self)@.contains_key(node_id) ==> r is Ok && final(self)@ == old(self)@,
            !old(self)@.contains_key(node_id) ==> match r {
                Ok(()) => final(self)@.contains_key(node_id) && final(self)@[node_id].0@ == addr@
                    && call_ensures(connect, (addr,), Ok(final(self)@[node_id].1))
                    && final(self)@ == old(self)@.insert(node_id, final(self)@[node_id]),
                Err(e) => call_ensures(connect, (addr,), Err(e)) && final(self)@ == old(self)@,
            },
    {
        if self.clients.contains_key(&node_id) {
            return Ok(());
        }
        match connect(addr) {
            Ok(client) => {
                self.clients.insert(node_id, (String::from_str(addr), client));
                Ok(())
            },
            Err(e) => Err(e),
        }
    }

    /// Keeps the connection just opened to a node, replacing any older one.
    pub fn remember(&mut self, node_id: NodeId, addr: String, client: C)
        ensures
            final(self)@ == old(self)@.insert(node_id, (addr, client)),
    {
        self.clients.insert(node_id, (addr, client));
    }
}

/// A connection that has been kept for a node is the one found for it, and
/// keeping it leaves the other nodes' connections as they were.
pub proof fn lemma_remember_then_cached<C>(
    before: Map<NodeId, (String, C)>,
    node_id: NodeId,
    addr: String,
    client: C,
    other: NodeId,
)
    ensures
        before.insert(node_id, (addr, client)).contains_key(node_id),
        before.insert(node_id, (addr, client))[node_id].1 == client,
        other != node_id ==> (before.insert(node_id, (addr, client)).contains_key(other)
            == before.contains_key(other)),
        other != node_id && before.contains_key(other) ==> before.insert(node_id, (addr, client))[other]
            == before[other],
{
}

/// The URI that a node's RPC endpoint is reached at.
#[verifier::external_type_specification]
#[verifier::external_body]
pub struct ExUri(http::Uri);

/// The error that parsing a URI reports.
#[verifier::external_type_specification]
#[verifier::external_body]
pub struct ExInvalidUri(http::uri::InvalidUri);

/// Whether `http::Uri` accepts a text as a URI (a function of the text alone).
pub uninterp spec fn uri_parses(text: Seq<char>) -> bool;

/// The URI that `http::Uri` parses from a text (a function of the text alone).
pub uninterp spec fn parsed_uri(text: Seq<char>) -> http::Uri;

/// `str::parse::<http::Uri>`: parses a URI; it succeeds exactly on the texts
/// that `uri_parses` names, and then gives the URI that `parsed_uri` names.
#[verifier::external_body]
fn parse_uri(text: &str) -> (r: Result<http::Uri, http::uri::InvalidUri>)
    ensures
        r is Ok == uri_parses(text@),
        r matches Ok(u) ==> u == parsed_uri(text@),
{
    text.parse::<http::Uri>()
}

/// The text of the URI of a node's endpoint: plain HTTP to its address.
pub open spec fn endpoint_text(addr: Seq<char>) -> Seq<char> {
    "http://"@ + addr
}

/// The URI of the RPC endpoint of the node at `addr`.
pub fn endpoint_uri(addr: &str) -> (r: Result<http::Uri, http::uri::InvalidUri>)
    ensures
        r is Ok == uri_parses(endpoint_text(addr@)),
        r matches Ok(u) ==> u == parsed_uri(endpoint_text(addr@)),
{
    let mut text = String::from_str("http://");
    text.append(addr);
    parse_uri(text.as_str())
}

} // verus!

//! The user-facing persisted configuration.
//!
//! This is the source of truth synthesis reads: the subscription URL
//! list, the manual node list, the control port and the engine's home
//! directory.  It is mutated only through the add and delete
//! operations here, which keep subscription URLs and node tags unique;
//! loading it from and saving it to its file is the application's
//! outside work, done after every mutation and before any restart.

use vstd::prelude::*;

use crate::descriptor::ProxyDescriptor;

verus! {

/// Errors of the configuration-mutating operations.
#[derive(Clone, Copy, Debug, PartialEq, Eq, Structural)]
pub enum ConfigOpError {
    /// The subscription URL is already configured.
    DuplicateSubscription,
    /// No configured subscription has that URL.
    SubscriptionNotFound,
    /// A manual node with that tag already exists.
    DuplicateNode,
    /// No manual node has that tag.
    NodeNotFound,
}

/// No two strings of the sequence hold the same text.
pub open spec fn unique_texts(s: Seq<String>) -> bool {
    forall|i: int, j: int| 0 <= i < j < s.len() ==> #[trigger] s[i]@ != #[trigger] s[j]@
}

/// No two descriptors of the sequence share a name.
pub open spec fn unique_names(s: Seq<ProxyDescriptor>) -> bool {
    forall|i: int, j: int| 0 <= i < j < s.len() ==> #[trigger] s[i].name@ != #[trigger] s[j].name@
}

/// The persisted configuration.
pub struct PersistedConfig {
    port: u16,
    engine_home: Option<String>,
    subs: Vec<String>,
    nodes: Vec<ProxyDescriptor>,
}

impl PersistedConfig {
    /// The HTTP control port.
    pub closed spec fn spec_port(self) -> u16 {
        self.port
    }

    /// The configured engine home directory, if any.
    pub closed spec fn spec_engine_home(self) -> Option<String> {
        self.engine_home
    }

    /// The configured subscription URLs, in order.
    pub closed spec fn spec_subs(self) -> Seq<String> {
        self.subs@
    }

    /// The configured manual nodes, in order.
    pub closed spec fn spec_nodes(self) -> Seq<ProxyDescriptor> {
        self.nodes@
    }

    /// Subscription URLs and node tags are unique.
    pub open spec fn wf(self) -> bool {
        unique_texts(self.spec_subs()) && unique_names(self.spec_nodes())
    }

    /// A fresh configuration with no subscriptions and no nodes.
    pub fn new(port: u16, engine_home: Option<String>) -> (c: PersistedConfig)
        ensures
            c.wf(),
            c.spec_port() == port,
            c.spec_engine_home() == engine_home,
            c.spec_subs().len() == 0,
            c.spec_nodes().len() == 0,
    {
        PersistedConfig { port, engine_home, subs: Vec::new(), nodes: Vec::new() }
    }

    /// The control port.
    pub fn port(&self) -> (r: u16)
        ensures
            r == self.spec_port(),
    {
        self.port
    }

    /// The engine home directory, if one is configured.
    pub fn engine_home(&self) -> (r: &Option<String>)
        ensures
            *r == self.spec_engine_home(),
    {
        &self.engine_home
    }

    /// The subscription URLs, in configured order.
    pub fn subscriptions(&self) -> (r: &Vec<String>)
        ensures
            r@ == self.spec_subs(),
    {
        &self.subs
    }

    /// The manual nodes, in configured order.
    pub fn nodes(&self) -> (r: &Vec<ProxyDescriptor>)
        ensures
            r@ == self.spec_nodes(),
    {
        &self.nodes
    }

    /// Add a subscription URL.  Fails exactly when the URL is already
    /// configured, leaving the configuration unchanged; otherwise the
    /// URL is appended.
    pub fn add_subscription(&mut self, url: String) -> (r: Result<(), ConfigOpError>)
        requires
            old(self).wf(),
        ensures
            final(self).wf(),
            final(self).spec_port() == old(self).spec_port(),
            final(self).spec_engine_home() == old(self).spec_engine_home(),
            final(self).spec_nodes() == old(self).spec_nodes(),
            r is Err <==> exists|i: int|
                0 <= i < old(self).spec_subs().len() && #[trigger] old(self).spec_subs()[i]@
                    == url@,
            r is Err ==> r == Result::<(), ConfigOpError>::Err(ConfigOpError::DuplicateSubscription)
                && final(self).spec_subs() == old(self).spec_subs(),
            r is Ok ==> final(self).spec_subs() == old(self).spec_subs().push(url),
    {
        let n = self.subs.len();
        let mut i: usize = 0;
        while i < n
            invariant
                old(self).wf(),
                *self == *old(self),
                n == self.subs@.len(),
                0 <= i <= n,
                forall|j: int| 0 <= j < i ==> #[trigger] self.subs@[j]@ != url@,
        decreases n - i,
        {
            if self.subs[i].eq(&url) {
                return Result::Err(ConfigOpError::DuplicateSubscription);
            }
            i += 1;
        }
        self.subs.push(url);
        Result::Ok(())
    }

    /// Delete a subscription URL.  Fails exactly when no configured
    /// subscription has that URL; otherwise the one entry with it is
    /// removed and the order of the rest is kept.
    pub fn delete_subscription(&mut self, url: &String) -> (r: Result<(), ConfigOpError>)
        requires
            old(self).wf(),
        ensures
            final(self).wf(),
            final(self).spec_port() == old(self).spec_port(),
            final(self).spec_engine_home() == old(self).spec_engine_home(),
            final(self).spec_nodes() == old(self).spec_nodes(),
            r is Ok <==> exists|i: int|
                0 <= i < old(self).spec_subs().len() && #[trigger] old(self).spec_subs()[i]@
                    == url@,
            r is Ok ==> exists|i: int|
                0 <= i < old(self).spec_subs().len() && #[trigger] old(self).spec_subs()[i]@
                    == url@ && final(self).spec_subs() == old(self).spec_subs().remove(i),
            r is Err ==> r == Result::<(), ConfigOpError>::Err(ConfigOpError::SubscriptionNotFound)
                && final(self).spec_subs() == old(self).spec_subs(),
    {
        let n = self.subs.len();
        let mut i: usize = 0;
        while i < n
            invariant
                old(self).wf(),
                *self == *old(self),
                n == self.subs@.len(),
                0 <= i <= n,
                forall|j: int| 0 <= j < i ==> #[trigger] self.subs@[j]@ != url@,
        decreases n - i,
        {
            if self.subs[i].eq(url) {
                self.subs.remove(i);
                proof {
                    let s = old(self).spec_subs();
                    let t = s.remove(i as int);
                    s.remove_ensures(i as int);
                    assert forall|p: int, q: int| 0 <= p < q < t.len() implies t[p]@ != t[q]@ by {
                        if p < i && q < i {
                            assert(t[p] == s[p] && t[q] == s[q]);
                        } else if p < i {
                            assert(t[p] == s[p] && t[q] == s[q + 1]);
                        } else {
                            assert(t[p] == s[p + 1] && t[q] == s[q + 1]);
                        }
                    };
                    assert(unique_texts(t));
                }
                return Result::Ok(());
            }
            i += 1;
        }
        Result::Err(ConfigOpError::SubscriptionNotFound)
    }

    /// Add a manual node.  Fails exactly when a node with the same
    /// tag already exists, leaving the configuration unchanged;
    /// otherwise the node is appended as given, so a later listing
    /// returns it with the same tag, server, port and SNI.
    pub fn add_node(&mut self, node: ProxyDescriptor) -> (r: Result<(), ConfigOpError>)
        requires
            old(self).wf(),
        ensures
            final(self).wf(),
            final(self).spec_port() == old(self).spec_port(),
            final(self).spec_engine_home() == old(self).spec_engine_home(),
            final(self).spec_subs() == old(self).spec_subs(),
            r is Err <==> exists|i: int|
                0 <= i < old(self).spec_nodes().len() && #[trigger] old(self).spec_nodes()[i].name@
                    == node.name@,
            r is Err ==> r == Result::<(), ConfigOpError>::Err(ConfigOpError::DuplicateNode)
                && final(self).spec_nodes() == old(self).spec_nodes(),
            r is Ok ==> final(self).spec_nodes() == old(self).spec_nodes().push(node),
    {
        let n = self.nodes.len();
        let mut i: usize = 0;
        while i < n
            invariant
                old(self).wf(),
                *self == *old(self),
                n == self.nodes@.len(),
                0 <= i <= n,
                forall|j: int| 0 <= j < i ==> #[trigger] self.nodes@[j].name@ != node.name@,
        decreases n - i,
        {
            if self.nodes[i].name.eq(&node.name) {
                return Result::Err(ConfigOpError::DuplicateNode);
            }
            i += 1;
        }
        self.nodes.push(node);
        Result::Ok(())
    }

    /// Delete the manual node with the given tag.  Fails exactly when
    /// no node has it; otherwise the one node with it is removed and
    /// the order of the rest is kept.
    pub fn delete_node(&mut self, tag: &String) -> (r: Result<(), ConfigOpError>)
        requires
            old(self).wf(),
        ensures
            final(self).wf(),
            final(self).spec_port() == old(self).spec_port(),
            final(self).spec_engine_home() == old(self).spec_engine_home(),
            final(self).spec_subs() == old(self).spec_subs(),
            r is Ok <==> exists|i: int|
                0 <= i < old(self).spec_nodes().len() && #[trigger] old(self).spec_nodes()[i].name@
                    == tag@,
            r is Ok ==> exists|i: int|
                0 <= i < old(self).spec_nodes().len() && #[trigger] old(self).spec_nodes()[i].name@
                    == tag@ && final(self).spec_nodes() == old(self).spec_nodes().remove(i),
            r is Err ==> r == Result::<(), ConfigOpError>::Err(ConfigOpError::NodeNotFound)
                && final(self).spec_nodes() == old(self).spec_nodes(),
    {
        let n = self.nodes.len();
        let mut i: usize = 0;
        while i < n
            invariant
                old(self).wf(),
                *self == *old(self),
                n == self.nodes@.len(),
                0 <= i <= n,
                forall|j: int| 0 <= j < i ==> #[trigger] self.nodes@[j].name@ != tag@,
        decreases n - i,
        {
            if self.nodes[i].name.eq(tag) {
                self.nodes.remove(i);
                proof {
                    let s = old(self).spec_nodes();
                    let t = s.remove(i as int);
                    s.remove_ensures(i as int);
                    assert forall|p: int, q: int|
                        0 <= p < q < t.len() implies t[p].name@ != t[q].name@ by {
                        if p < i && q < i {
                            assert(t[p] == s[p] && t[q] == s[q]);
                        } else if p < i {
                            assert(t[p] == s[p] && t[q] == s[q + 1]);
                        } else {
                            assert(t[p] == s[p + 1] && t[q] == s[q + 1]);
                        }
                    };
                    assert(unique_names(t));
                }
                return Result::Ok(());
            }
            i += 1;
        }
        Result::Err(ConfigOpError::NodeNotFound)
    }
}

/// The node round trip: a node added to the configuration is what the
/// node listing then ends with — same tag, server, port and SNI.
pub proof fn lemma_node_round_trip(before: Seq<ProxyDescriptor>, n: ProxyDescriptor)
    ensures
        before.push(n).last() == n,
        before.push(n).last().name == n.name,
        before.push(n).last().server == n.server,
        before.push(n).last().port == n.port,
        before.push(n).last().sni == n.sni,
{
}

} // verus!

//! The identity of a node of the control plane.
use vstd::prelude::*;

verus! {

/// The identity of a node of the control plane. It is made when the process
/// starts and is kept in the coordinator for as long as the session lasts.
/// Two identities stand for the same node when their `uuid` is the same.
#[derive(Debug, PartialEq, Eq)]
pub struct NodeId {
    pub extra: Vec<(String, String)>,
    pub human_readable: String,
    pub uuid: String,
}

/// What a `NodeId` holds.
pub struct NodeIdView {
    pub extra: Seq<(Seq<char>, Seq<char>)>,
    pub human_readable: Seq<char>,
    pub uuid: Seq<char>,
}

impl View for NodeId {
    type V = NodeIdView;

    open spec fn view(&self) -> NodeIdView {
        NodeIdView {
            extra: self.extra.deep_view(),
            human_readable: self.human_readable@,
            uuid: self.uuid@,
        }
    }
}

impl DeepView for NodeId {
    type V = NodeIdView;

    open spec fn deep_view(&self) -> NodeIdView {
        self@
    }
}

impl Clone for NodeId {
    fn clone(&self) -> (out: Self)
        ensures
            out@ == self@,
    {
        let mut extra: Vec<(String, String)> = Vec::new();
        let mut i: usize = 0;
        while i < self.extra.len()
            invariant
                i <= self.extra.len(),
                extra.len() == i,
                forall|j: int| 0 <= j < i ==> extra[j].deep_view() == self.extra[j].deep_view(),
            decreases self.extra.len() - i,
        {
            extra.push((self.extra[i].0.clone(), self.extra[i].1.clone()));
            i += 1;
        }
        assert(extra.deep_view() =~= self.extra.deep_view());
        NodeId { extra, human_readable: self.human_readable.clone(), uuid: self.uuid.clone() }
    }
}

impl NodeId {
    /// The identity with the given `uuid`, a name for people to read, and no
    /// further attributes.
    pub fn new(uuid: &str, human_readable: &str) -> (id: NodeId)
        ensures
            id@ == (NodeIdView {
                extra: Seq::empty(),
                human_readable: human_readable@,
                uuid: uuid@,
            }),
    {
        let extra: Vec<(String, String)> = Vec::new();
        assert(extra.deep_view() =~= Seq::<(Seq<char>, Seq<char>)>::empty());
        NodeId { extra, human_readable: human_readable.to_owned(), uuid: uuid.to_owned() }
    }

    /// Attach the attribute `key` with the given `value`.
    pub fn extra(&mut self, key: &str, value: &str)
        ensures
            final(self)@ == (NodeIdView {
                extra: old(self)@.extra.push((key@, value@)),
                ..old(self)@
            }),
    {
        let ghost before = self.extra.deep_view();
        self.extra.push((key.to_owned(), value.to_owned()));
        assert(self.extra.deep_view() =~= before.push((key@, value@)));
    }

    /// Whether both identities stand for the same node.
    pub fn same_node(&self, other: &NodeId) -> (same: bool)
        ensures
            same == (self@.uuid == other@.uuid),
    {
        self.uuid == other.uuid
    }
}

} // verus!

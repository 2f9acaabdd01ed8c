use vstd::prelude::*;
use crate::form::{classify_payload, standard_form, Form};
use crate::ledger::{committed, KnowledgeMap, PresenceMap, QualityMap};
use crate::network::{live, SignalRootNetwork};
use crate::signal::{ContentHash, Quality, Sighting, Signal, SignalModel, Time};
use crate::trunk::Emission;

verus! {

/// The three ledgers of a node, as mathematical maps.
pub struct NodeModel {
    pub knowledge: Map<Seq<u8>, Seq<SignalModel>>,
    pub presence: Map<Seq<u8>, Seq<(Seq<u8>, Time)>>,
    pub quality: Map<Seq<u8>, Seq<Quality>>,
}

/// The ledgers after signal `s` about hash `h` is taken in: a presence goes
/// to the presence ledger, a quality score to the quality ledger, and every
/// other signal to the knowledge ledger.
pub open spec fn ingested(m: NodeModel, h: Seq<u8>, s: SignalModel) -> NodeModel {
    match s {
        SignalModel::Presence(socket, time, _) => NodeModel {
            presence: committed(m.presence, h, (socket, time)),
            ..m
        },
        SignalModel::Quality(q) => NodeModel { quality: committed(m.quality, h, q), ..m },
        _ => NodeModel { knowledge: committed(m.knowledge, h, s), ..m },
    }
}

/// A node's memory: what it knows of each hash, who was seen holding it,
/// and how it was rated.
pub struct Node {
    pub knowledge_map: KnowledgeMap,
    pub presence_map: PresenceMap,
    pub quality_map: QualityMap,
}

impl View for Node {
    type V = NodeModel;

    open spec fn view(&self) -> NodeModel {
        NodeModel {
            knowledge: self.knowledge_map@,
            presence: self.presence_map@,
            quality: self.quality_map@,
        }
    }
}

impl Node {
    pub open spec fn wf(&self) -> bool {
        &&& self.knowledge_map.wf()
        &&& self.presence_map.wf()
        &&& self.quality_map.wf()
    }

    /// A node that knows nothing.
    pub fn new() -> (r: Node)
        ensures
            r.wf(),
            r@.knowledge == Map::<Seq<u8>, Seq<SignalModel>>::empty(),
            r@.presence == Map::<Seq<u8>, Seq<(Seq<u8>, Time)>>::empty(),
            r@.quality == Map::<Seq<u8>, Seq<Quality>>::empty(),
    {
        Node { knowledge_map: KnowledgeMap::new(), presence_map: PresenceMap::new(), quality_map: QualityMap::new() }
    }

    /// Takes in `signal` about `hash`, in the ledger that its kind belongs
    /// to. The bytes of a source come back classified by the standard tree.
    pub fn ingest(&mut self, hash: ContentHash, signal: Signal) -> (r: Option<Form>)
        requires
            old(self).wf(),
        ensures
            final(self).wf(),
            final(self)@ == ingested(old(self)@, hash@, signal@),
            r.is_some() <==> signal@ is Source,
            r matches Some(f) ==> signal@ matches SignalModel::Source(b) && f@ == standard_form(b),
    {
        match signal {
            Signal::Presence(socket, time, verified) => {
                self.presence_map.commit(hash, Sighting { socket, time });
                None
            },
            Signal::Quality(q) => {
                self.quality_map.commit(hash, q);
                None
            },
            Signal::Source(bytes) => {
                let form = classify_payload(&bytes);
                self.knowledge_map.commit(hash, Signal::Source(bytes));
                Some(form)
            },
            other => {
                self.knowledge_map.commit(hash, other);
                None
            },
        }
    }

    /// Takes in an emission from the trunk if the worker that sent it still
    /// runs; one from a stopped worker is dropped, and the node is unchanged.
    pub fn take(&mut self, e: Emission, network: &SignalRootNetwork) -> (r: (bool, Option<Form>))
        requires
            old(self).wf(),
        ensures
            final(self).wf(),
            r.0 == live(network@, e.generation),
            r.0 ==> final(self)@ == ingested(old(self)@, e.hash@, e.signal@),
            !r.0 ==> final(self)@ == old(self)@ && r.1.is_none(),
            r.0 ==> (r.1.is_some() <==> e.signal@ is Source),
            r.1 matches Some(f) ==> e.signal@ matches SignalModel::Source(b) && f@ == standard_form(b),
    {
        if network.is_live(e.generation) {
            let f = self.ingest(e.hash, e.signal);
            (true, f)
        } else {
            (false, None)
        }
    }
}

} // verus!

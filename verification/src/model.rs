//! The membership model that every other part of the library works on: which
//! node identifiers each node's quorum set references, and the public key of
//! each node.

use crate::source::{
    contained_nodes, fbas_public_keys, fbas_quorum_members, node_count, public_keys_of,
    quorum_set_of,
};
use crate::text::texts;
use fbas_analyzer::Fbas;
use vstd::prelude::*;

verus! {

/// Every identifier that some node references is itself a node: the
/// identifier space is `0..members.len()`, and an identifier fits a machine
/// word.
pub open spec fn valid_membership(members: Seq<Seq<usize>>) -> bool {
    &&& members.len() <= usize::MAX
    &&& forall|s: int, k: int|
        0 <= s < members.len() && 0 <= k < members[s].len() ==> #[trigger] members[s][k]
            < members.len()
}

/// The rows of a vector of vectors, each by its view.
pub open spec fn rows(v: Seq<Vec<usize>>) -> Seq<Seq<usize>> {
    Seq::new(v.len(), |i: int| v[i]@)
}

/// Node `source` references node `target` in its quorum set.
pub open spec fn names(members: Seq<Seq<usize>>, source: int, target: int) -> bool {
    exists|k: int| 0 <= k < members[source].len() && #[trigger] members[source][k] == target
}

/// The nodes of one system under dense identifiers `0..N`. Position `i` of
/// either field describes node `i`.
pub struct FbasModel {
    members: Vec<Vec<usize>>,
    public_keys: Vec<String>,
}

impl FbasModel {
    /// For each node, the identifiers that its quorum set references, in
    /// the order in which they are held. An identifier may occur twice.
    pub closed spec fn members(&self) -> Seq<Seq<usize>> {
        rows(self.members@)
    }

    /// For each node, its public key.
    pub closed spec fn public_keys(&self) -> Seq<Seq<char>> {
        texts(self.public_keys@)
    }

    /// The number of nodes, `N`.
    pub open spec fn count(&self) -> nat {
        self.members().len()
    }

    /// There is one public key per node, and no node references an
    /// identifier outside `0..N`.
    pub open spec fn wf(&self) -> bool {
        &&& self.public_keys().len() == self.members().len()
        &&& valid_membership(self.members())
    }

    /// Builds a model from plain values. It is refused exactly where the two
    /// vectors differ in length or some identifier is not below the number
    /// of nodes.
    pub fn new(members: Vec<Vec<usize>>, public_keys: Vec<String>) -> (model: Option<FbasModel>)
        ensures
            model.is_some() <==> texts(public_keys@).len() == rows(members@).len()
                && valid_membership(rows(members@)),
            model matches Some(m) ==> m.wf() && m.members() == rows(members@)
                && m.public_keys() == texts(public_keys@),
    {
        if public_keys.len() != members.len() {
            return None;
        }
        let n: usize = members.len();
        let mut s: usize = 0;
        while s < n
            invariant
                n == members@.len(),
                s <= n,
                forall|i: int, k: int|
                    0 <= i < s && 0 <= k < members@[i]@.len() ==> #[trigger] members@[i]@[k] < n,
            decreases n - s,
        {
            if !all_below(&members[s], n) {
                proof {
                    let row = members@[s as int]@;
                    let k = choose|k: int| 0 <= k < row.len() && row[k] >= n;
                    assert(rows(members@)[s as int][k] >= n);
                }
                return None;
            }
            s += 1;
        }
        proof {
            let held = rows(members@);
            assert forall|i: int, k: int|
                0 <= i < held.len() && 0 <= k < held[i].len() implies #[trigger] held[i][k]
                < held.len() by {
            }
        }
        Some(FbasModel { members, public_keys })
    }

    /// Reads a loaded system through its accessors. The model holds what the
    /// system holds; it is refused exactly where some quorum set references
    /// an identifier that is not a node of the system.
    pub fn from_fbas(fbas: &Fbas) -> (model: Option<FbasModel>)
        ensures
            model.is_some() <==> valid_membership(fbas_quorum_members(*fbas)),
            model matches Some(m) ==> m.wf() && m.members() == fbas_quorum_members(*fbas)
                && m.public_keys() == fbas_public_keys(*fbas),
    {
        let n: usize = node_count(fbas);
        let mut members: Vec<Vec<usize>> = Vec::new();
        let mut ids: Vec<usize> = Vec::new();
        let mut s: usize = 0;
        while s < n
            invariant
                n == fbas_quorum_members(*fbas).len(),
                s <= n,
                members@.len() == s,
                ids@.len() == s,
                forall|i: int| 0 <= i < s ==> #[trigger] ids@[i] == i,
                forall|i: int|
                    0 <= i < s ==> (#[trigger] members@[i])@ == fbas_quorum_members(*fbas)[i],
            decreases n - s,
        {
            match quorum_set_of(fbas, s) {
                Some(quorum_set) => {
                    members.push(contained_nodes(&quorum_set));
                },
                None => {
                    // every identifier below the node count has a quorum set
                    return None;
                },
            }
            ids.push(s);
            s += 1;
        }
        assert(rows(members@) =~= fbas_quorum_members(*fbas));
        let public_keys: Vec<String> = public_keys_of(fbas, ids);
        FbasModel::new(members, public_keys)
    }

    /// The number of nodes.
    pub fn node_count(&self) -> (n: usize)
        ensures
            n == self.count(),
    {
        self.members.len()
    }

    /// The identifiers that node `id` references.
    pub fn quorum_members(&self, id: usize) -> (ids: &Vec<usize>)
        requires
            id < self.count(),
        ensures
            ids@ == self.members()[id as int],
    {
        &self.members[id]
    }

    /// The public key of node `id`.
    pub fn public_key(&self, id: usize) -> (key: &String)
        requires
            id < self.public_keys().len(),
        ensures
            key@ == self.public_keys()[id as int],
    {
        &self.public_keys[id]
    }
}

/// Whether every identifier of `ids` is below `bound`.
fn all_below(ids: &Vec<usize>, bound: usize) -> (ok: bool)
    ensures
        ok <==> forall|k: int| 0 <= k < ids@.len() ==> ids@[k] < bound,
{
    let mut k: usize = 0;
    while k < ids.len()
        invariant
            k <= ids@.len(),
            forall|j: int| 0 <= j < k ==> ids@[j] < bound,
        decreases ids@.len() - k,
    {
        if ids[k] >= bound {
            return false;
        }
        k += 1;
    }
    true
}

} // verus!

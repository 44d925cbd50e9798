//! The boundary to `fbas_analyzer`: the two types that hold a loaded system,
//! and the accessors through which the library reads one.
//!
//! Nothing in this file is proved. Each contract restates what the named
//! function of `fbas_analyzer` does.

use fbas_analyzer::{Fbas, QuorumSet};
use vstd::prelude::*;

verus! {

/// `fbas_analyzer::Fbas`, carried as an opaque value.
#[verifier::external_type_specification]
#[verifier::external_body]
pub struct ExFbas(fbas_analyzer::Fbas);

/// `fbas_analyzer::QuorumSet`, carried as an opaque value.
#[verifier::external_type_specification]
#[verifier::external_body]
pub struct ExQuorumSet(fbas_analyzer::QuorumSet);

/// What a loaded system holds, node by node in the order of the identifiers:
/// the identifiers that the node's quorum set contains, ascending.
pub uninterp spec fn fbas_quorum_members(fbas: Fbas) -> Seq<Seq<usize>>;

/// The public keys of a loaded system, in the order of the identifiers.
pub uninterp spec fn fbas_public_keys(fbas: Fbas) -> Seq<Seq<char>>;

/// The identifiers that a quorum set contains, at any depth, ascending.
pub uninterp spec fn quorum_set_members(quorum_set: QuorumSet) -> Seq<usize>;

/// `Fbas::number_of_nodes`: the number of nodes, each of which has one quorum
/// set and one public key.
#[verifier::external_body]
pub(crate) fn node_count(fbas: &Fbas) -> (n: usize)
    ensures
        n == fbas_quorum_members(*fbas).len(),
        n == fbas_public_keys(*fbas).len(),
{
    fbas.number_of_nodes()
}

/// `Fbas::get_quorum_set`: a copy of the quorum set of node `id`, and `None`
/// exactly where the system has no such node.
#[verifier::external_body]
pub(crate) fn quorum_set_of(fbas: &Fbas, id: usize) -> (found: Option<QuorumSet>)
    ensures
        found.is_some() <==> id < fbas_quorum_members(*fbas).len(),
        found matches Some(quorum_set) ==> quorum_set_members(quorum_set)
            == fbas_quorum_members(*fbas)[id as int],
{
    fbas.get_quorum_set(id)
}

/// `QuorumSet::contained_nodes`: the set of the identifiers that the quorum
/// set names, its inner quorum sets included. The set is handed out as a
/// vector, which a bit set yields in ascending order. The bit set takes
/// memory in proportion to the largest identifier; as with any allocation,
/// nothing is claimed of a call that runs out of it.
#[verifier::external_body]
pub(crate) fn contained_nodes(quorum_set: &QuorumSet) -> (ids: Vec<usize>)
    ensures
        ids@ == quorum_set_members(*quorum_set),
{
    quorum_set.contained_nodes().iter().collect()
}

/// `fbas_analyzer::to_public_keys`: the public key of each of `ids`, in their
/// order. It indexes the nodes by each identifier, so each must be one.
#[verifier::external_body]
pub(crate) fn public_keys_of(fbas: &Fbas, ids: Vec<usize>) -> (keys: Vec<String>)
    requires
        forall|i: int| 0 <= i < ids@.len() ==> ids@[i] < fbas_public_keys(*fbas).len(),
    ensures
        keys@.len() == ids@.len(),
        forall|i: int| 0 <= i < ids@.len() ==> (#[trigger] keys@[i])@ == fbas_public_keys(
            *fbas,
        )[ids@[i] as int],
{
    fbas_analyzer::to_public_keys(ids, fbas)
}

} // verus!

//! The two forms of the trust graph side by side.

use crate::adjacency::{
    generate_adjacency_list, lemma_neighbors_once, list_lines, list_row, list_rows,
};
use crate::matrix::{generate_adjacency_matrix, matrix_cells, matrix_lines};
use crate::model::{names, valid_membership, FbasModel};
use crate::text::texts;
use vstd::prelude::*;

verus! {

/// The form in which the trust graph is written down.
#[derive(Clone, Copy, Debug, PartialEq, Eq, Structural)]
pub enum GraphForm {
    /// One row per node that lists the nodes referencing it.
    List,
    /// An `N x N` incidence matrix with a header line.
    Matrix,
}

/// The lines of the trust graph of a membership in the given form.
pub open spec fn graph_lines(members: Seq<Seq<usize>>, form: GraphForm) -> Seq<Seq<char>> {
    match form {
        GraphForm::List => list_lines(list_rows(members)),
        GraphForm::Matrix => matrix_lines(matrix_cells(members)),
    }
}

/// The trust graph of a model as lines of text, in the form asked for.
pub fn generate_graph(model: &FbasModel, form: GraphForm) -> (lines: Vec<String>)
    requires
        model.wf(),
    ensures
        texts(lines@) == graph_lines(model.members(), form),
{
    match form {
        GraphForm::List => generate_adjacency_list(model),
        GraphForm::Matrix => generate_adjacency_matrix(model),
    }
}

/// An edge shows in both forms: where `source` references `target`, the
/// cell `(source, target)` of the matrix is set, and `source` stands in the
/// row of `target` in the adjacency list, behind the leading identifier.
pub proof fn lemma_edge_in_both_forms(members: Seq<Seq<usize>>, source: int, target: int)
    requires
        valid_membership(members),
        0 <= source < members.len(),
        names(members, source, target),
    ensures
        0 <= target < members.len(),
        matrix_cells(members)[source][target],
        list_row(members, target).skip(1).contains(source as usize),
{
    lemma_neighbors_once(members, target);
}

/// The two forms hold the same edges: a cell of the matrix is set exactly
/// where its source stands in the row of its target.
pub proof fn lemma_forms_agree(members: Seq<Seq<usize>>, source: int, target: int)
    requires
        valid_membership(members),
        0 <= source < members.len(),
        0 <= target < members.len(),
    ensures
        matrix_cells(members)[source][target] <==> list_row(members, target).skip(1).contains(
            source as usize,
        ),
{
    lemma_neighbors_once(members, target);
}

} // verus!

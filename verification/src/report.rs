//! The per-node report: one record per node, in the order of the identifiers,
//! and its lines of text.

use crate::model::FbasModel;
use crate::text::{append_decimal, decimal, texts};
use vstd::prelude::*;

verus! {

/// One record of the report. The score is held as the text that is written
/// for it; the report never computes with it and never orders by it.
#[derive(Debug, PartialEq, Eq)]
pub struct NodeRanking {
    /// The identifier of the node.
    pub id: usize,
    /// The public key of the node, or nothing where none was asked for.
    pub label: String,
    /// The score of the node, as text.
    pub score: String,
}

impl NodeRanking {
    /// The line of the record: identifier, label and score with commas
    /// between them, closed by a line feed.
    pub open spec fn line(&self) -> Seq<char> {
        decimal(self.id as nat) + seq![','] + self.label@ + seq![','] + self.score@ + seq!['\n']
    }
}

/// The score that every node has where no ranking was made.
pub open spec fn uniform_score() -> Seq<char> {
    seq!['1']
}

/// The record of node `id`: its public key where labels are asked for and
/// an empty label where not, beside the score at its position.
pub open spec fn record_matches(
    record: NodeRanking,
    id: int,
    public_keys: Seq<Seq<char>>,
    scores: Seq<Seq<char>>,
    use_pks: bool,
) -> bool {
    &&& record.id == id
    &&& record.label@ == if use_pks {
        public_keys[id]
    } else {
        Seq::<char>::empty()
    }
    &&& record.score@ == scores[id]
}

/// One uniform score per node.
pub fn uniform_scores(n: usize) -> (scores: Vec<String>)
    ensures
        scores@.len() == n,
        forall|i: int| 0 <= i < n ==> (#[trigger] scores@[i])@ == uniform_score(),
{
    let mut scores: Vec<String> = Vec::new();
    let mut i: usize = 0;
    while i < n
        invariant
            i <= n,
            scores@.len() == i,
            forall|j: int| 0 <= j < i ==> (#[trigger] scores@[j])@ == uniform_score(),
        decreases n - i,
    {
        proof {
            reveal_strlit("1");
        }
        let one: String = String::from_str("1");
        scores.push(one);
        i += 1;
    }
    scores
}

/// Assembles the report from one score per node. The record at position
/// `i` describes node `i`, whatever the scores are.
pub fn create_node_ranking_report(model: &FbasModel, scores: Vec<String>, use_pks: bool) -> (report:
    Vec<NodeRanking>)
    requires
        model.wf(),
        scores@.len() == model.count(),
    ensures
        report@.len() == model.count(),
        forall|i: int|
            0 <= i < model.count() ==> record_matches(
                #[trigger] report@[i],
                i,
                model.public_keys(),
                texts(scores@),
                use_pks,
            ),
{
    let n: usize = model.node_count();
    let mut report: Vec<NodeRanking> = Vec::new();
    let mut id: usize = 0;
    while id < n
        invariant
            model.wf(),
            n == model.count(),
            n == scores@.len(),
            id <= n,
            report@.len() == id,
            forall|i: int|
                0 <= i < id ==> record_matches(
                    #[trigger] report@[i],
                    i,
                    model.public_keys(),
                    texts(scores@),
                    use_pks,
                ),
        decreases n - id,
    {
        let label: String = if use_pks {
            model.public_key(id).clone()
        } else {
            String::new()
        };
        let score: String = scores[id].clone();
        report.push(NodeRanking { id, label, score });
        id += 1;
    }
    report
}

/// The report of a model: from the scores of a ranking where one was made,
/// and with the uniform score for every node where none was.
pub fn compute_influence(model: &FbasModel, ranking: Option<Vec<String>>, use_pks: bool) -> (report:
    Vec<NodeRanking>)
    requires
        model.wf(),
        ranking matches Some(scores) ==> scores@.len() == model.count(),
    ensures
        report@.len() == model.count(),
        forall|i: int| 0 <= i < model.count() ==> (#[trigger] report@[i]).id == i,
        forall|i: int|
            0 <= i < model.count() ==> record_matches(
                #[trigger] report@[i],
                i,
                model.public_keys(),
                match ranking {
                    Some(scores) => texts(scores@),
                    None => Seq::new(model.count(), |j: int| uniform_score()),
                },
                use_pks,
            ),
{
    let scores: Vec<String> = match ranking {
        Some(scores) => scores,
        None => uniform_scores(model.node_count()),
    };
    create_node_ranking_report(model, scores, use_pks)
}

/// The lines of a report, one per record and in the order of the records.
pub fn generate_node_list_with_weight(rankings: &[NodeRanking]) -> (lines: Vec<String>)
    ensures
        lines@.len() == rankings@.len(),
        forall|i: int| 0 <= i < rankings@.len() ==> (#[trigger] lines@[i])@ == rankings@[i].line(),
{
    let mut lines: Vec<String> = Vec::new();
    let mut i: usize = 0;
    while i < rankings.len()
        invariant
            i <= rankings@.len(),
            lines@.len() == i,
            forall|j: int| 0 <= j < i ==> (#[trigger] lines@[j])@ == rankings@[j].line(),
        decreases rankings@.len() - i,
    {
        let node: &NodeRanking = &rankings[i];
        let mut line: String = String::new();
        proof {
            reveal_strlit(",");
            reveal_strlit("\n");
        }
        append_decimal(&mut line, node.id);
        line.append(",");
        line.append(node.label.as_str());
        line.append(",");
        line.append(node.score.as_str());
        line.append("\n");
        lines.push(line);
        i += 1;
    }
    lines
}

} // verus!

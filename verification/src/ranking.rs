//! The choice of a ranking algorithm, and what the rest of a run derives
//! from it: the tag in the names of the output files, and whether the scores
//! are brought to sum one before they are reported.

use vstd::prelude::*;

verus! {

/// One of the ranking algorithms. Where none is chosen every node has the
/// same weight.
#[derive(Clone, Copy, Debug, PartialEq, Eq, Structural)]
pub enum RankingAlgConfig {
    /// A centrality measure in the manner of PageRank.
    NodeRank,
    /// Power indices by enumeration.
    PowerIndexEnum,
    /// Power indices approximated from `s` samples.
    PowerIndexApprox { s: usize },
}

/// The tag of a choice as it stands in the names of the output files.
pub open spec fn ranking_tag(choice: Option<RankingAlgConfig>) -> Seq<char> {
    match choice {
        Some(RankingAlgConfig::NodeRank) => "node_rank"@,
        Some(RankingAlgConfig::PowerIndexEnum) => "power_index_enum"@,
        Some(RankingAlgConfig::PowerIndexApprox { s }) => "power_index_approx"@,
        None => "unweighted"@,
    }
}

/// The tag of a choice as it stands in the names of the output files.
pub fn ranking_name(choice: Option<RankingAlgConfig>) -> (name: String)
    ensures
        name@ == ranking_tag(choice),
{
    match choice {
        Some(RankingAlgConfig::NodeRank) => String::from_str("node_rank"),
        Some(RankingAlgConfig::PowerIndexEnum) => String::from_str("power_index_enum"),
        Some(RankingAlgConfig::PowerIndexApprox { s: _ }) => String::from_str("power_index_approx"),
        None => String::from_str("unweighted"),
    }
}

/// Whether the scores of a choice are divided by their sum and cut to three
/// decimal places before they are reported: those of `NodeRank` only.
pub fn is_normalised(choice: Option<RankingAlgConfig>) -> (yes: bool)
    ensures
        yes <==> choice == Some(RankingAlgConfig::NodeRank),
{
    match choice {
        Some(RankingAlgConfig::NodeRank) => true,
        _ => false,
    }
}

/// The base of the names of the output files: the stem of the input file's
/// name, an underscore, and the tag of the ranking.
pub fn output_base_name(stem: &str, choice: Option<RankingAlgConfig>) -> (base: String)
    ensures
        base@ == stem@ + "_"@ + ranking_tag(choice),
{
    let mut base: String = String::from_str(stem);
    base.append("_");
    let tag: String = ranking_name(choice);
    base.append(tag.as_str());
    base
}

} // verus!

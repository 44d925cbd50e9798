//! Trust graphs and per-node influence reports for federated Byzantine
//! agreement systems.
//!
//! A system is read into an [`FbasModel`], from which the library derives the
//! trust graph, as an adjacency list or as an incidence matrix, and the report
//! of one record per node. It also says under which names the two files are
//! written and what they hold; writing them is left to the caller.

pub mod adjacency;
pub mod graph;
pub mod matrix;
pub mod model;
pub mod ranking;
pub mod report;
pub mod source;
pub mod text;
pub mod writer;

pub use adjacency::generate_adjacency_list;
pub use graph::{generate_graph, GraphForm};
pub use matrix::generate_adjacency_matrix;
pub use model::FbasModel;
pub use ranking::RankingAlgConfig;
pub use report::{compute_influence, generate_node_list_with_weight, NodeRanking};
pub use writer::{output_paths, plan_output, OutputPaths, OutputPlan, WriteError};

use fbas_graph::graph::GraphForm;
use fbas_graph::ranking::{is_normalised, output_base_name, ranking_name, RankingAlgConfig};
use fbas_graph::writer::{
    graph_contents, graph_file_name, node_list_contents, node_list_file_name, output_dir_name,
    output_paths, plan_output, OutputPaths, WriteError,
};

fn lines(items: &[&str]) -> Vec<String> {
    items.iter().map(|s| s.to_string()).collect()
}

fn paths() -> OutputPaths {
    output_paths(Some("out".to_string()), "net_unweighted", GraphForm::Matrix).unwrap()
}

#[test]
fn default_directory_is_graphs() {
    assert_eq!(output_dir_name(None), "graphs");
    assert_eq!(output_dir_name(Some("some/where".to_string())), "some/where");
}

#[test]
fn file_names_follow_the_convention() {
    assert_eq!(node_list_file_name("graphs", "net"), "graphs/net_nodelist.csv");
    assert_eq!(
        graph_file_name("graphs", "net", GraphForm::Matrix),
        "graphs/net_adjacency_matrix.csv"
    );
    assert_eq!(
        graph_file_name("graphs", "net", GraphForm::List),
        "graphs/net_adjacency_list.csv"
    );
}

#[test]
fn paths_need_a_directory() {
    let found = output_paths(Some("d".to_string()), "b", GraphForm::List).unwrap();
    assert_eq!(found.node_list, "d/b_nodelist.csv");
    assert_eq!(found.graph, "d/b_adjacency_list.csv");
    assert_eq!(
        output_paths(None, "b", GraphForm::List),
        Err(WriteError::InvalidDirectory)
    );
}

#[test]
fn node_list_begins_with_the_header() {
    let contents = node_list_contents(&lines(&["0,,1\n", "1,,1\n"]));
    assert_eq!(contents, "Id,Label,weight\n0,,1\n1,,1\n");
    assert_eq!(node_list_contents(&Vec::new()), "Id,Label,weight\n");
}

#[test]
fn graph_lines_are_closed() {
    let contents = graph_contents(&lines(&[";0;1", "0;1;0", "1;0;1"]));
    assert_eq!(contents, ";0;1\n0;1;0\n1;0;1\n");
    assert_eq!(graph_contents(&Vec::new()), "");
}

#[test]
fn plan_holds_both_files() {
    let plan = plan_output(
        paths(),
        &lines(&["0,,1\n"]),
        &lines(&[";0", "0;1"]),
        false,
        false,
        false,
    )
    .unwrap();
    assert_eq!(plan.node_list.path, "out/net_unweighted_nodelist.csv");
    assert_eq!(plan.node_list.contents, "Id,Label,weight\n0,,1\n");
    assert_eq!(plan.graph.path, "out/net_unweighted_adjacency_matrix.csv");
    assert_eq!(plan.graph.contents, ";0\n0;1\n");
}

#[test]
fn existing_file_is_refused_without_overwrite() {
    let nodes = lines(&["0,,1\n"]);
    let graph = lines(&[";0", "0;1"]);
    assert_eq!(
        plan_output(paths(), &nodes, &graph, false, true, false),
        Err(WriteError::PathExists {
            path: "out/net_unweighted_nodelist.csv".to_string()
        })
    );
    assert_eq!(
        plan_output(paths(), &nodes, &graph, false, false, true),
        Err(WriteError::PathExists {
            path: "out/net_unweighted_adjacency_matrix.csv".to_string()
        })
    );
    assert_eq!(
        plan_output(paths(), &nodes, &graph, false, true, true),
        Err(WriteError::PathExists {
            path: "out/net_unweighted_nodelist.csv".to_string()
        })
    );
}

#[test]
fn existing_file_is_replaced_with_overwrite() {
    let nodes = lines(&["0,,1\n"]);
    let graph = lines(&[";0", "0;1"]);
    assert!(plan_output(paths(), &nodes, &graph, true, true, true).is_ok());
    assert!(plan_output(paths(), &nodes, &graph, true, false, true).is_ok());
}

#[test]
fn error_messages() {
    assert_eq!(WriteError::InvalidDirectory.message(), "invalid directory path");
    assert_eq!(
        WriteError::PathExists {
            path: "a/b.csv".to_string()
        }
        .message(),
        "File a/b.csv exists. Refusing to overwrite.\n Use --overwrite if this is intended."
    );
    assert_eq!(
        WriteError::IoFailure {
            path: "a/b.csv".to_string(),
            cause: "disk full".to_string()
        }
        .message(),
        "Error writing file a/b.csv: disk full"
    );
}

#[test]
fn ranking_names() {
    assert_eq!(ranking_name(None), "unweighted");
    assert_eq!(ranking_name(Some(RankingAlgConfig::NodeRank)), "node_rank");
    assert_eq!(
        ranking_name(Some(RankingAlgConfig::PowerIndexEnum)),
        "power_index_enum"
    );
    assert_eq!(
        ranking_name(Some(RankingAlgConfig::PowerIndexApprox { s: 100 })),
        "power_index_approx"
    );
}

#[test]
fn base_name_joins_stem_and_ranking() {
    assert_eq!(output_base_name("trivial", None), "trivial_unweighted");
    assert_eq!(
        output_base_name("net", Some(RankingAlgConfig::NodeRank)),
        "net_node_rank"
    );
}

#[test]
fn only_node_rank_is_normalised() {
    assert!(is_normalised(Some(RankingAlgConfig::NodeRank)));
    assert!(!is_normalised(Some(RankingAlgConfig::PowerIndexEnum)));
    assert!(!is_normalised(Some(RankingAlgConfig::PowerIndexApprox { s: 5 })));
    assert!(!is_normalised(None));
}

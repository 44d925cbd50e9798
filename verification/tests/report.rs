use fbas_analyzer::Fbas;
use fbas_graph::model::FbasModel;
use fbas_graph::report::{
    compute_influence, create_node_ranking_report, generate_node_list_with_weight, uniform_scores,
    NodeRanking,
};

fn score(value: f64) -> String {
    format!("{}", value)
}

fn ranking(id: usize, label: &str, value: f64) -> NodeRanking {
    NodeRanking {
        id,
        label: label.to_string(),
        score: score(value),
    }
}

fn trivial() -> FbasModel {
    let mut nodes: Vec<String> = Vec::new();
    for key in ["nodeA", "nodeB", "nodeC"] {
        nodes.push(format!(
            "{{\"publicKey\": \"{}\", \"quorumSet\": {{\"threshold\": 2, \"validators\": [\"nodeA\", \"nodeB\", \"nodeC\"]}}}}",
            key
        ));
    }
    let fbas = Fbas::from_json_str(&format!("[{}]", nodes.join(",")));
    FbasModel::from_fbas(&fbas).unwrap()
}

#[test]
fn output_nodelist_is_ok() {
    let rankings = vec![
        ranking(0, "nodeA", 0.0),
        ranking(1, "nodeB", 0.1),
        ranking(2, "nodeC", 0.2),
    ];
    let actual = generate_node_list_with_weight(&rankings);
    let expected = vec!["0,nodeA,0\n", "1,nodeB,0.1\n", "2,nodeC,0.2\n"];
    assert_eq!(actual, expected);
}

#[test]
fn compute_unweighted_node_rankings() {
    let model = trivial();
    let use_pks = false;
    let actual = compute_influence(&model, None, use_pks);
    let expected = vec![ranking(0, "", 1.0), ranking(1, "", 1.0), ranking(2, "", 1.0)];
    assert_eq!(actual, expected);
}

#[test]
fn compute_weighted_node_rankings() {
    let model = trivial();
    let use_pks = false;
    let scores = Some(vec![score(0.333), score(0.333), score(0.333)]);
    let actual = compute_influence(&model, scores, use_pks);
    let expected = vec![
        ranking(0, "", 0.333),
        ranking(1, "", 0.333),
        ranking(2, "", 0.333),
    ];
    assert_eq!(actual, expected);
}

#[test]
fn unweighted_report_lines() {
    let model = trivial();
    let report = compute_influence(&model, None, false);
    let lines = generate_node_list_with_weight(&report);
    assert_eq!(lines, vec!["0,,1\n", "1,,1\n", "2,,1\n"]);
}

#[test]
fn labels_are_public_keys() {
    let model = trivial();
    let report = compute_influence(&model, None, true);
    let labels: Vec<&str> = report.iter().map(|r| r.label.as_str()).collect();
    assert_eq!(labels, vec!["nodeA", "nodeB", "nodeC"]);
    let lines = generate_node_list_with_weight(&report);
    assert_eq!(lines, vec!["0,nodeA,1\n", "1,nodeB,1\n", "2,nodeC,1\n"]);
}

#[test]
fn report_keeps_the_order_of_the_nodes() {
    let model = trivial();
    let scores = vec![score(0.2), score(0.7), score(0.1)];
    let report = create_node_ranking_report(&model, scores, false);
    for (i, record) in report.iter().enumerate() {
        assert_eq!(record.id, i);
    }
    let weights: Vec<&str> = report.iter().map(|r| r.score.as_str()).collect();
    assert_eq!(weights, vec!["0.2", "0.7", "0.1"]);
}

#[test]
fn uniform_scores_are_one() {
    assert_eq!(uniform_scores(3), vec!["1", "1", "1"]);
    assert!(uniform_scores(0).is_empty());
}

#[test]
fn empty_report() {
    let rankings: Vec<NodeRanking> = Vec::new();
    assert!(generate_node_list_with_weight(&rankings).is_empty());
}

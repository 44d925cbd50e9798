use fbas_analyzer::{Fbas, QuorumSet};
use fbas_graph::adjacency::adjacency_list;
use fbas_graph::matrix::adjacency_matrix;
use fbas_graph::model::FbasModel;

fn keys(n: usize) -> Vec<String> {
    (0..n).map(|i| format!("n{}", i)).collect()
}

#[test]
fn model_from_plain_values() {
    let model = FbasModel::new(vec![vec![1, 0], vec![], vec![2]], keys(3)).unwrap();
    assert_eq!(model.node_count(), 3);
    assert_eq!(model.quorum_members(0), &vec![1, 0]);
    assert_eq!(model.quorum_members(1), &Vec::<usize>::new());
    assert_eq!(model.public_key(2), "n2");
}

#[test]
fn model_refuses_unknown_identifiers() {
    assert!(FbasModel::new(vec![vec![1], vec![2]], keys(2)).is_none());
    assert!(FbasModel::new(vec![vec![0]], keys(1)).is_some());
    assert!(FbasModel::new(vec![vec![1]], keys(1)).is_none());
}

#[test]
fn model_refuses_missing_public_keys() {
    assert!(FbasModel::new(vec![vec![], vec![]], keys(1)).is_none());
    assert!(FbasModel::new(vec![], keys(1)).is_none());
    assert!(FbasModel::new(vec![], keys(0)).is_some());
}

#[test]
fn model_reads_a_loaded_system() {
    let fbas = Fbas::from_json_str(
        "[{\"publicKey\": \"alice\", \"quorumSet\": {\"threshold\": 1, \"validators\": [\"carol\", \"bob\"]}},
          {\"publicKey\": \"bob\", \"quorumSet\": {\"threshold\": 1, \"validators\": [\"bob\"],
            \"innerQuorumSets\": [{\"threshold\": 1, \"validators\": [\"alice\", \"bob\"]}]}},
          {\"publicKey\": \"carol\"}]",
    );
    let model = FbasModel::from_fbas(&fbas).unwrap();
    assert_eq!(model.node_count(), 3);
    assert_eq!(model.quorum_members(0), &vec![1, 2]);
    assert_eq!(model.quorum_members(1), &vec![0, 1]);
    assert_eq!(model.quorum_members(2), &Vec::<usize>::new());
    assert_eq!(model.public_key(0), "alice");
    assert_eq!(model.public_key(1), "bob");
    assert_eq!(model.public_key(2), "carol");
    assert_eq!(
        adjacency_list(&model),
        vec![vec![0, 1], vec![1, 0, 1], vec![2, 0]]
    );
    assert_eq!(
        adjacency_matrix(&model),
        vec![
            vec![false, true, true],
            vec![true, true, false],
            vec![false, false, false]
        ]
    );
}

#[test]
fn model_refuses_a_system_with_dangling_references() {
    let mut fbas = Fbas::new_generic_unconfigured(2);
    fbas.swap_quorum_set(0, QuorumSet::new(vec![1, 5], vec![], 1));
    assert!(FbasModel::from_fbas(&fbas).is_none());
    fbas.swap_quorum_set(0, QuorumSet::new(vec![1], vec![], 1));
    let model = FbasModel::from_fbas(&fbas).unwrap();
    assert_eq!(model.quorum_members(0), &vec![1]);
    assert_eq!(model.public_key(1), "n1");
}

#[test]
fn empty_system_is_a_model() {
    let model = FbasModel::from_fbas(&Fbas::new()).unwrap();
    assert_eq!(model.node_count(), 0);
}

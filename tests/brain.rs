use pong::brain::{chromosome_len, gene_count, Brain, LayerTopology};
use pong::settings::Config;
use rand::{Rng, SeedableRng};
use rand_chacha::ChaCha8Rng;

#[test]
fn brain_from_network() {
    let layers = vec![LayerTopology { neurons: 3 }, LayerTopology { neurons: 2 }];
    let weights: Vec<f32> = vec![0.1, 0.2, 0.3, 0.4, 0.5, 0.6, 0.7, 0.8];
    let brain = Brain::new(layers, weights.clone());
    let chromosome = brain.to_chromosome();
    assert_eq!(weights, chromosome);
}

#[test]
fn brain_from_chromosome() {
    let mut prng = ChaCha8Rng::from_seed(Default::default());
    let genes: Vec<f32> = (0..106).map(|_| prng.gen_range(-1.0..1.0)).collect();
    let config = Config::default();
    let brain = Brain::from_chromosome(&config, genes.clone());
    let brain_chromo = brain.to_chromosome();
    assert_eq!(brain_chromo, genes);
}

#[test]
fn default_config_asks_for_106_genes() {
    let config = Config::default();
    assert_eq!(
        config,
        Config { data_inputs: 5, brain_neurons: 15, outputs: 1, generation_length: 10 }
    );
    assert_eq!(chromosome_len(&config), Some(106));
    let t = Brain::<f32>::network_topology(&config);
    assert_eq!(t, vec![
        LayerTopology { neurons: 5 },
        LayerTopology { neurons: 15 },
        LayerTopology { neurons: 1 },
    ]);
}

#[test]
fn gene_count_reports_overflow() {
    assert_eq!(gene_count(&vec![]), Some(0));
    assert_eq!(gene_count(&vec![LayerTopology { neurons: 9 }]), Some(0));
    assert_eq!(
        gene_count(&vec![LayerTopology { neurons: usize::MAX }, LayerTopology { neurons: 0 }]),
        Some(0)
    );
    assert_eq!(
        gene_count(&vec![LayerTopology { neurons: usize::MAX }, LayerTopology { neurons: 2 }]),
        None
    );
    assert_eq!(
        gene_count(&vec![
            LayerTopology { neurons: 2 },
            LayerTopology { neurons: 3 },
            LayerTopology { neurons: 4 },
        ]),
        Some(3 * 3 + 4 * 4)
    );
}

#[test]
fn brain_layout_puts_each_bias_before_its_weights() {
    let config = Config::default();
    let genes: Vec<u32> = (0..106).collect();
    let brain = Brain::from_chromosome(&config, genes);
    assert_eq!(brain.layers(), 2);
    assert_eq!(brain.neurons(0), 15);
    assert_eq!(brain.neurons(1), 1);
    assert_eq!(brain.inputs(0), 5);
    assert_eq!(brain.inputs(1), 15);
    assert_eq!(brain.bias(0, 0), 0);
    assert_eq!(brain.weight(0, 0, 0), 1);
    assert_eq!(brain.weight(0, 0, 4), 5);
    assert_eq!(brain.bias(0, 1), 6);
    assert_eq!(brain.weight(0, 14, 4), 89);
    assert_eq!(brain.bias(1, 0), 90);
    assert_eq!(brain.weight(1, 0, 0), 91);
    assert_eq!(brain.weight(1, 0, 14), 105);
}

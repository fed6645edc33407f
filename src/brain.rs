use vstd::prelude::*;

use crate::settings::Config;

verus! {

/// The size of one layer of a network.
#[derive(Clone, Copy, Debug, PartialEq, Eq, Structural)]
pub struct LayerTopology {
    pub neurons: usize,
}

/// A feed-forward network, kept as its chromosome: the layer sizes, and
/// all biases and weights in one flat sequence. Layer by layer, and within
/// a layer neuron by neuron, each neuron contributes its bias followed by
/// one weight per neuron of the layer before. The weight type is left
/// open; evaluating the network is the caller's arithmetic.
#[derive(Clone, Debug)]
pub struct Brain<W> {
    pub topology: Vec<LayerTopology>,
    pub weights: Vec<W>,
}

/// The genes of the neurons of layer `l + 1`, which read layer `l`.
pub open spec fn layer_genes(t: Seq<LayerTopology>, l: int) -> int {
    t[l + 1].neurons * (t[l].neurons + 1)
}

/// The genes of the first `l` layers of neurons.
pub open spec fn genes_before(t: Seq<LayerTopology>, l: int) -> int
    decreases l,
{
    if l <= 0 {
        0
    } else {
        genes_before(t, l - 1) + layer_genes(t, l - 1)
    }
}

/// The length of the chromosome of a network of topology `t`.
pub open spec fn genes_for(t: Seq<LayerTopology>) -> int {
    genes_before(t, t.len() - 1)
}

/// Where the bias of neuron `n` of layer of neurons `l` stands; its
/// weights follow it.
pub open spec fn neuron_start(t: Seq<LayerTopology>, l: int, n: int) -> int {
    genes_before(t, l) + n * (t[l].neurons + 1)
}

/// The topology that a configuration asks for: the inputs, one hidden
/// layer, the outputs.
pub open spec fn topology_of(config: Config) -> Seq<LayerTopology> {
    seq![
        LayerTopology { neurons: config.data_inputs },
        LayerTopology { neurons: config.brain_neurons },
        LayerTopology { neurons: config.outputs },
    ]
}

/// What `Brain::from_chromosome(config, c)` is, as a view.
pub open spec fn brain_from<W>(config: Config, c: Seq<W>) -> (Seq<LayerTopology>, Seq<W>) {
    (topology_of(config), c)
}

/// What `to_chromosome` gives for a brain of view `b`.
pub open spec fn chromosome_of<W>(b: (Seq<LayerTopology>, Seq<W>)) -> Seq<W> {
    b.1
}

/// The first layers count no more genes than more of them.
proof fn lemma_genes_before_grows(t: Seq<LayerTopology>, l: int, m: int)
    requires
        0 <= l <= m < t.len(),
    ensures
        genes_before(t, l) <= genes_before(t, m),
    decreases m - l,
{
    if l < m {
        lemma_genes_before_grows(t, l, m - 1);
        assert(layer_genes(t, m - 1) >= 0) by (nonlinear_arith)
            requires
                t[m].neurons >= 0,
                t[m - 1].neurons + 1 >= 0,
        ;
    }
}

/// Every gene of neuron `n` of layer `l` lies within the chromosome.
proof fn lemma_neuron_in_range(t: Seq<LayerTopology>, l: int, n: int, k: int)
    requires
        0 <= l < t.len() - 1,
        0 <= n < t[l + 1].neurons,
        0 <= k <= t[l].neurons,
    ensures
        0 <= neuron_start(t, l, n) + k < genes_for(t),
        0 <= n * (t[l].neurons + 1),
{
    let i = t[l].neurons + 1;
    assert(0 <= n * i && n * i + k < t[l + 1].neurons * i) by (nonlinear_arith)
        requires
            0 <= n < t[l + 1].neurons,
            0 <= k < i,
    ;
    lemma_genes_before_grows(t, 0, l);
    lemma_genes_before_grows(t, l + 1, t.len() - 1);
}

impl<W> View for Brain<W> {
    type V = (Seq<LayerTopology>, Seq<W>);

    open spec fn view(&self) -> (Seq<LayerTopology>, Seq<W>) {
        (self.topology@, self.weights@)
    }
}

impl<W> Brain<W> {
    /// The chromosome has the length that the topology asks for.
    pub open spec fn wf(&self) -> bool {
        self.weights@.len() == genes_for(self.topology@)
    }

    /// The layers of neurons: all but the inputs.
    pub open spec fn layers_spec(&self) -> int {
        if self.topology@.len() == 0 {
            0
        } else {
            self.topology@.len() - 1
        }
    }

    /// The network of the given topology and chromosome.
    pub fn new(topology: Vec<LayerTopology>, weights: Vec<W>) -> (r: Brain<W>)
        requires
            weights@.len() == genes_for(topology@),
        ensures
            r.wf(),
            r@ == (topology@, weights@),
    {
        Brain { topology, weights }
    }

    /// The network that a configuration asks for, with the given
    /// chromosome; its length must be what the configuration asks for.
    pub fn from_chromosome(config: &Config, chromosome: Vec<W>) -> (r: Brain<W>)
        requires
            chromosome@.len() == genes_for(topology_of(*config)),
        ensures
            r.wf(),
            r@ == brain_from(*config, chromosome@),
    {
        Brain::new(Brain::<W>::network_topology(config), chromosome)
    }

    /// The topology that `config` asks for.
    pub fn network_topology(config: &Config) -> (r: Vec<LayerTopology>)
        ensures
            r@ == topology_of(*config),
    {
        let r = vec![
            LayerTopology { neurons: config.data_inputs },
            LayerTopology { neurons: config.brain_neurons },
            LayerTopology { neurons: config.outputs },
        ];
        assert(r@ =~= topology_of(*config));
        r
    }

    /// The number of layers of neurons.
    pub fn layers(&self) -> (r: usize)
        ensures
            r == self.layers_spec(),
    {
        if self.topology.len() == 0 {
            0
        } else {
            self.topology.len() - 1
        }
    }

    /// The neurons of layer `layer`.
    pub fn neurons(&self, layer: usize) -> (r: usize)
        requires
            layer < self.layers_spec(),
        ensures
            r == self.topology@[layer + 1].neurons,
    {
        let n = self.topology.len();
        assert(layer + 1 < n);
        self.topology[layer + 1].neurons
    }

    /// The inputs of each neuron of layer `layer`.
    pub fn inputs(&self, layer: usize) -> (r: usize)
        requires
            layer < self.layers_spec(),
        ensures
            r == self.topology@[layer as int].neurons,
    {
        self.topology[layer].neurons
    }

    /// Where the genes of neuron `neuron` of layer `layer` start.
    fn neuron_offset(&self, layer: usize, neuron: usize) -> (r: usize)
        requires
            self.wf(),
            layer < self.layers_spec(),
            neuron < self.topology@[layer + 1].neurons,
        ensures
            r == neuron_start(self.topology@, layer as int, neuron as int),
            r + self.topology@[layer as int].neurons < self.weights@.len(),
    {
        let ghost t = self.topology@;
        proof {
            lemma_neuron_in_range(t, layer as int, neuron as int, t[layer as int].neurons as int);
        }
        let len = self.weights.len();
        let mut acc: usize = 0;
        let mut i: usize = 0;
        while i < layer
            invariant
                t == self.topology@,
                self.wf(),
                len == self.weights@.len(),
                0 <= i <= layer < t.len() - 1,
                acc == genes_before(t, i as int),
                genes_before(t, layer as int) < len,
            decreases layer - i,
        {
            proof {
                lemma_genes_before_grows(t, i + 1, layer as int);
            }
            let a = self.topology[i + 1].neurons;
            let b = self.topology[i].neurons;
            assert(a * (b + 1) == a * b + a && a * b >= 0) by (nonlinear_arith)
                requires
                    a >= 0,
                    b >= 0,
            ;
            acc = acc + a * b + a;
            i = i + 1;
        }
        let b = self.topology[layer].neurons;
        assert(neuron * (b + 1) == neuron * b + neuron && neuron * b >= 0) by (nonlinear_arith)
            requires
                neuron >= 0,
                b >= 0,
        ;
        acc + neuron * b + neuron
    }
}

impl<W: Copy> Brain<W> {
    /// The bias of neuron `neuron` of layer `layer`.
    pub fn bias(&self, layer: usize, neuron: usize) -> (r: W)
        requires
            self.wf(),
            layer < self.layers_spec(),
            neuron < self.topology@[layer + 1].neurons,
        ensures
            r == self.weights@[neuron_start(self.topology@, layer as int, neuron as int)],
    {
        let at = self.neuron_offset(layer, neuron);
        self.weights[at]
    }

    /// The weight that neuron `neuron` of layer `layer` gives its input
    /// `input`.
    pub fn weight(&self, layer: usize, neuron: usize, input: usize) -> (r: W)
        requires
            self.wf(),
            layer < self.layers_spec(),
            neuron < self.topology@[layer + 1].neurons,
            input < self.topology@[layer as int].neurons,
        ensures
            r == self.weights@[neuron_start(self.topology@, layer as int, neuron as int) + 1
                + input],
    {
        let len = self.weights.len();
        let at = self.neuron_offset(layer, neuron);
        self.weights[at + 1 + input]
    }

    /// The chromosome of this network.
    pub fn to_chromosome(&self) -> (r: Vec<W>)
        ensures
            r@ == chromosome_of(self@),
    {
        let mut r: Vec<W> = Vec::new();
        let mut i: usize = 0;
        while i < self.weights.len()
            invariant
                0 <= i <= self.weights@.len(),
                r@ == self.weights@.subrange(0, i as int),
            decreases self.weights@.len() - i,
        {
            r.push(self.weights[i]);
            i = i + 1;
        }
        assert(r@ =~= self.weights@);
        r
    }
}

/// The length of the chromosome of a network of topology `topology`, if it
/// fits in a `usize`.
pub fn gene_count(topology: &Vec<LayerTopology>) -> (r: Option<usize>)
    ensures
        match r {
            Some(n) => n == genes_for(topology@),
            None => genes_for(topology@) > usize::MAX,
        },
{
    if topology.len() < 2 {
        return Some(0);
    }
    let ghost t = topology@;
    let mut acc: usize = 0;
    let mut i: usize = 0;
    let last = topology.len() - 1;
    while i < last
        invariant
            t == topology@,
            last == t.len() - 1,
            0 <= i <= last,
            acc == genes_before(t, i as int),
        decreases last - i,
    {
        let a = topology[i + 1].neurons;
        let b = topology[i].neurons;
        assert(a * (b + 1) == a * b + a && a * b >= 0) by (nonlinear_arith)
            requires
                a >= 0,
                b >= 0,
        ;
        let next = match a.checked_mul(b) {
            None => None,
            Some(ab) => match ab.checked_add(a) {
                None => None,
                Some(g) => acc.checked_add(g),
            },
        };
        match next {
            None => {
                proof {
                    lemma_layer_overflows(t, i as int);
                }
                return None;
            },
            Some(n) => {
                acc = n;
            },
        }
        i = i + 1;
    }
    Some(acc)
}

/// Where the genes up to layer `l + 1` exceed `usize::MAX`, so do all.
proof fn lemma_layer_overflows(t: Seq<LayerTopology>, l: int)
    requires
        0 <= l < t.len() - 1,
        genes_before(t, l) + layer_genes(t, l) > usize::MAX,
    ensures
        genes_for(t) > usize::MAX,
{
    lemma_genes_before_grows(t, l + 1, t.len() - 1);
}

/// The length of the chromosome that `config` asks for, if it fits in a
/// `usize`.
pub fn chromosome_len(config: &Config) -> (r: Option<usize>)
    ensures
        match r {
            Some(n) => n == genes_for(topology_of(*config)),
            None => genes_for(topology_of(*config)) > usize::MAX,
        },
{
    let t = Brain::<u8>::network_topology(config);
    gene_count(&t)
}

/// A brain turned into its chromosome and back is the same network, with
/// the same chromosome: the chromosome has the length that the
/// configuration asks for, so `from_chromosome` accepts it.
pub proof fn lemma_chromosome_round_trip<W>(config: Config, b: Brain<W>)
    requires
        b.wf(),
        b@.0 == topology_of(config),
    ensures
        chromosome_of(b@).len() == genes_for(topology_of(config)),
        brain_from(config, chromosome_of(b@)) == b@,
        chromosome_of(brain_from(config, chromosome_of(b@))) == chromosome_of(b@),
{
}

} // verus!

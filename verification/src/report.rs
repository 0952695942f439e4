//! Rendering a chain of causally linked errors for diagnostics.

use vstd::prelude::*;

verus! {

/// The most layers a chain holds. A legitimate chain is far shorter; the
/// bound makes the walk along the causes end even if they form a cycle.
pub const MAX_CHAIN_DEPTH: usize = 32;

/// The messages of an error and of its causes, outermost first.
pub struct CauseChain {
    layers: Vec<String>,
}

impl View for CauseChain {
    type V = Seq<Seq<char>>;

    closed spec fn view(&self) -> Seq<Seq<char>> {
        self.layers.deep_view()
    }
}

impl CauseChain {
    #[verifier::type_invariant]
    spec fn bounded(&self) -> bool {
        self.layers.len() <= MAX_CHAIN_DEPTH
    }

    /// A chain without layers.
    pub fn new() -> (chain: CauseChain)
        ensures
            chain@ == Seq::<Seq<char>>::empty(),
    {
        let chain = CauseChain { layers: Vec::new() };
        assert(chain.layers.deep_view() =~= Seq::<Seq<char>>::empty());
        chain
    }

    /// The number of layers.
    pub fn len(&self) -> (n: usize)
        ensures
            n == self@.len(),
            n <= MAX_CHAIN_DEPTH,
    {
        proof {
            use_type_invariant(self);
        }
        self.layers.len()
    }

    /// The message of layer `i`, counted from the outermost.
    pub fn layer(&self, i: usize) -> (message: &String)
        requires
            i < self@.len(),
        ensures
            message@ == self@[i as int],
    {
        &self.layers[i]
    }

    /// Adds the message of the next cause, if the chain has room for it, and
    /// says whether the walk along the causes may go on. After the answer
    /// `false` the chain is full and the walk has to stop.
    pub fn record(&mut self, message: String) -> (go_on: bool)
        ensures
            old(self)@.len() < MAX_CHAIN_DEPTH ==> final(self)@ == old(self)@.push(message@),
            old(self)@.len() >= MAX_CHAIN_DEPTH ==> final(self)@ == old(self)@,
            go_on == (final(self)@.len() < MAX_CHAIN_DEPTH),
            final(self)@.len() <= MAX_CHAIN_DEPTH,
    {
        proof {
            use_type_invariant(&*self);
        }
        if self.layers.len() < MAX_CHAIN_DEPTH {
            let ghost before = self.layers.deep_view();
            let mut taken = CauseChain::new();
            core::mem::swap(self, &mut taken);
            let CauseChain { layers } = taken;
            let mut layers = layers;
            layers.push(message);
            assert(layers.deep_view() =~= before.push(message@));
            *self = CauseChain { layers };
        }
        proof {
            use_type_invariant(&*self);
        }
        self.layers.len() < MAX_CHAIN_DEPTH
    }
}

/// The text that opens every report.
pub open spec fn report_prefix() -> Seq<char> {
    "ERROR: "@
}

/// The text that opens the line of each layer.
pub open spec fn layer_prefix() -> Seq<char> {
    "\n    caused by: "@
}

/// The report of a failure: the headline, then one indented line for each
/// layer, from the outermost message to the root cause.
pub open spec fn rendered(headline: Seq<char>, layers: Seq<Seq<char>>) -> Seq<char>
    decreases layers.len(),
{
    if layers.len() == 0 {
        report_prefix() + headline
    } else {
        rendered(headline, layers.drop_last()) + layer_prefix() + layers.last()
    }
}

/// Renders `headline` and the layers of `chain` as one text.
pub fn render_chain(headline: &str, chain: &CauseChain) -> (text: String)
    ensures
        text@ == rendered(headline@, chain@),
{
    let mut text = String::from_str("ERROR: ");
    text.append(headline);
    let n = chain.len();
    let mut i: usize = 0;
    assert(chain@.take(0) =~= Seq::<Seq<char>>::empty());
    while i < n
        invariant
            i <= n,
            n == chain@.len(),
            text@ == rendered(headline@, chain@.take(i as int)),
        decreases n - i,
    {
        let layer = chain.layer(i);
        text.append("\n    caused by: ");
        text.append(layer.as_str());
        proof {
            let next = chain@.take(i + 1);
            assert(next.drop_last() =~= chain@.take(i as int));
            assert(next.last() == chain@[i as int]);
        }
        i = i + 1;
    }
    assert(chain@.take(n as int) =~= chain@);
    text
}

/// A report grows by exactly one line for each further cause.
pub proof fn lemma_rendered_push(headline: Seq<char>, layers: Seq<Seq<char>>, cause: Seq<char>)
    ensures
        rendered(headline, layers.push(cause)) == rendered(headline, layers) + layer_prefix()
            + cause,
{
    assert(layers.push(cause).drop_last() =~= layers);
}

/// Every report opens with the prefix and the headline, whatever the causes.
pub proof fn lemma_rendered_opens_with_headline(headline: Seq<char>, layers: Seq<Seq<char>>)
    ensures
        (report_prefix() + headline).is_prefix_of(rendered(headline, layers)),
    decreases layers.len(),
{
    if layers.len() > 0 {
        lemma_rendered_opens_with_headline(headline, layers.drop_last());
    }
}

/// Whether `part` stands somewhere in `whole`, unbroken.
pub open spec fn occurs_in(part: Seq<char>, whole: Seq<char>) -> bool {
    exists|k: int|
        0 <= k && k + part.len() <= whole.len() && #[trigger] whole.subrange(
            k,
            k + part.len(),
        ) == part
}

/// No cause is lost: the line of every layer stands in the report.
pub proof fn lemma_rendered_holds_each_cause(headline: Seq<char>, layers: Seq<Seq<char>>, i: int)
    requires
        0 <= i < layers.len(),
    ensures
        occurs_in(layer_prefix() + layers[i], rendered(headline, layers)),
    decreases layers.len(),
{
    let whole = rendered(headline, layers);
    let before = rendered(headline, layers.drop_last());
    let part = layer_prefix() + layers[i];
    assert(whole =~= before + (layer_prefix() + layers.last()));
    if i == layers.len() - 1 {
        let k = before.len() as int;
        assert(whole.subrange(k, k + part.len()) =~= part);
    } else {
        lemma_rendered_holds_each_cause(headline, layers.drop_last(), i);
        assert(layers.drop_last()[i] == layers[i]);
        let k = choose|k: int|
            0 <= k && k + part.len() <= before.len() && #[trigger] before.subrange(
                k,
                k + part.len(),
            ) == part;
        assert(whole.subrange(k, k + part.len()) =~= before.subrange(k, k + part.len()));
    }
}

} // verus!

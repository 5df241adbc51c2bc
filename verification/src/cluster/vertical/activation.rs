//! What a leader activates with: its configuration and the chain of the
//! configurations before it, newest first.
use vstd::prelude::*;

use crate::cluster::vertical::configuration::{ConfigurationView, VerticalClusterConfiguration};

verus! {

/// The views of a list of configurations.
pub open spec fn configuration_views(v: Seq<VerticalClusterConfiguration>) -> Seq<
    ConfigurationView,
> {
    v.map_values(|c: VerticalClusterConfiguration| c@)
}

/// A copy of a list of configurations.
pub fn clone_configurations(v: &Vec<VerticalClusterConfiguration>) -> (r: Vec<
    VerticalClusterConfiguration,
>)
    ensures
        configuration_views(r@) == configuration_views(v@),
{
    let mut r: Vec<VerticalClusterConfiguration> = Vec::new();
    let mut i: usize = 0;
    while i < v.len()
        invariant
            i <= v@.len(),
            r@.len() == i,
            forall|j: int| 0 <= j < i ==> #[trigger] r@[j]@ == v@[j]@,
        decreases v@.len() - i,
    {
        r.push(v[i].clone());
        i = i + 1;
    }
    assert(configuration_views(r@) =~= configuration_views(v@));
    r
}

pub struct PredecessorChain {
    entries: Vec<VerticalClusterConfiguration>,
}

impl View for PredecessorChain {
    type V = Seq<ConfigurationView>;

    closed spec fn view(&self) -> Seq<ConfigurationView> {
        configuration_views(self.entries@)
    }
}

impl PredecessorChain {
    pub fn new(entries: Vec<VerticalClusterConfiguration>) -> (r: PredecessorChain)
        ensures
            r@ == configuration_views(entries@),
    {
        PredecessorChain { entries }
    }

    pub fn entries(&self) -> (r: &Vec<VerticalClusterConfiguration>)
        ensures
            configuration_views(r@) == self@,
    {
        &self.entries
    }
}

impl Default for PredecessorChain {
    fn default() -> (r: PredecessorChain)
        ensures
            r@ == Seq::<ConfigurationView>::empty(),
    {
        let r = PredecessorChain { entries: Vec::new() };
        assert(r@ =~= Seq::<ConfigurationView>::empty());
        r
    }
}

impl Clone for PredecessorChain {
    fn clone(&self) -> (r: Self)
        ensures
            r@ == self@,
    {
        PredecessorChain { entries: clone_configurations(&self.entries) }
    }
}

pub struct ActivationSnapshot {
    configuration: VerticalClusterConfiguration,
    predecessor_chain: PredecessorChain,
}

pub struct ActivationView {
    pub configuration: ConfigurationView,
    pub predecessors: Seq<ConfigurationView>,
}

impl View for ActivationSnapshot {
    type V = ActivationView;

    closed spec fn view(&self) -> ActivationView {
        ActivationView {
            configuration: self.configuration@,
            predecessors: self.predecessor_chain@,
        }
    }
}

impl ActivationSnapshot {
    pub fn new(
        configuration: VerticalClusterConfiguration,
        predecessor_chain: PredecessorChain,
    ) -> (r: ActivationSnapshot)
        ensures
            r@ == (ActivationView {
                configuration: configuration@,
                predecessors: predecessor_chain@,
            }),
    {
        ActivationSnapshot { configuration, predecessor_chain }
    }

    pub fn configuration(&self) -> (r: &VerticalClusterConfiguration)
        ensures
            r@ == self@.configuration,
    {
        &self.configuration
    }

    pub fn predecessor_chain(&self) -> (r: &PredecessorChain)
        ensures
            r@ == self@.predecessors,
    {
        &self.predecessor_chain
    }
}

impl Clone for ActivationSnapshot {
    fn clone(&self) -> (r: Self)
        ensures
            r@ == self@,
    {
        ActivationSnapshot {
            configuration: self.configuration.clone(),
            predecessor_chain: self.predecessor_chain.clone(),
        }
    }
}

} // verus!

//! Device profiles: immutable, shareable descriptions of device types.
//!
//! A profile graph is an acyclic digraph of attributes (leaves), branches
//! and switches. Nodes are shared by reference and never change once built,
//! so similar profiles can share their common subgraphs.

use vstd::prelude::*;
use std::rc::Rc;
use crate::dmx::DmxMap;
use crate::effect::EffectSubsubtype;
use crate::effect::EffectSubtype;
use crate::effect::EffectType;
use crate::topo::Topo;

verus! {

/// The addresses that one device of a profile needs.
#[derive(Clone, Copy, Debug, PartialEq, Eq, Structural)]
pub enum ChannelAlloc {
    /// A contiguous run of DMX channels.
    DmxChannelCount(usize),
}

/// The value of one attribute of one device. A continuous value counts
/// millionths of the unit; a discrete value is an integer.
#[derive(Clone, Copy, Debug, PartialEq, Eq, Structural)]
pub enum AttributeValue {
    Continuous(i64),
    Discrete(i64),
}

/// A leaf of a profile graph: usually a renderable datapoint.
pub struct Attribute {
    pub name: String,
    pub nickname: String,
    pub effect: (EffectType, EffectSubtype, EffectSubsubtype),
    pub topo: Topo,
    /// Needed where the attribute renders.
    pub default: Option<AttributeValue>,
    /// Needed where the attribute renders to DMX.
    pub dmx: Option<DmxMap>,
}

/// An ordinary branch, which groups profile subgraphs.
pub struct ProfileBranch {
    pub name: String,
    pub nickname: String,
    pub children: Vec<Rc<ProfileGraph>>,
}

/// A modal branch: only one of its children renders at a time.
pub struct ProfileSwitch {
    pub name: String,
    pub nickname: String,
    pub children: Vec<Rc<ProfileGraph>>,
    /// The child that a new device selects.
    pub default_selection: usize,
}

/// A node of a profile graph.
pub enum ProfileGraph {
    ProfileGraphAttribute(Attribute),
    ProfileGraphBranch(ProfileBranch),
    ProfileGraphSwitch(ProfileSwitch),
}

/// A device type: its metadata, the channels one device needs, and the root
/// of its graph.
pub struct Profile {
    pub name: String,
    pub nickname: String,
    pub manufacturer: String,
    pub author: String,
    pub date: String,
    pub version: i64,
    pub chan_alloc: ChannelAlloc,
    pub root: Rc<ProfileGraph>,
}

/// A graph is well formed where every attribute that maps to DMX has a
/// default value and every switch selects one of its children by default.
pub open spec fn graph_valid(g: ProfileGraph) -> bool
    decreases g,
{
    match g {
        ProfileGraph::ProfileGraphAttribute(a) => a.dmx.is_some() ==> a.default.is_some(),
        ProfileGraph::ProfileGraphBranch(b) => children_valid(b.children, 0),
        ProfileGraph::ProfileGraphSwitch(s) => s.default_selection < s.children.len()
            && children_valid(s.children, 0),
    }
}

/// The children from `i` on are well formed.
pub open spec fn children_valid(c: Vec<Rc<ProfileGraph>>, i: nat) -> bool
    decreases c, c.len() - i,
{
    if i < c.len() {
        graph_valid(*c[i as int]) && children_valid(c, i + 1)
    } else {
        true
    }
}

/// Checks the children of a node from the first on.
fn validate_children(g: &Rc<ProfileGraph>, c: &Vec<Rc<ProfileGraph>>) -> (ok: bool)
    requires
        (**g matches ProfileGraph::ProfileGraphBranch(b) && b.children == *c) || (
        **g matches ProfileGraph::ProfileGraphSwitch(s) && s.children == *c),
    ensures
        ok == children_valid(*c, 0),
    decreases g, 0int,
{
    let mut i: usize = c.len();
    while i > 0
        invariant
            i <= c.len(),
            children_valid(*c, i as nat),
            (**g matches ProfileGraph::ProfileGraphBranch(b) && b.children == *c) || (
            **g matches ProfileGraph::ProfileGraphSwitch(s) && s.children == *c),
        decreases i,
    {
        i -= 1;
        proof {
            assert(**g is ProfileGraphBranch ==> (**g)->ProfileGraphBranch_0.children == *c);
            assert(**g is ProfileGraphSwitch ==> (**g)->ProfileGraphSwitch_0.children == *c);
            assert(decreases_to!(*c => c[i as int]));
        }
        if !validate(&c[i]) {
            proof {
                lemma_invalid_child(*c, 0, i as nat);
            }
            return false;
        }
    }
    true
}

/// One ill-formed child makes the children ill formed.
proof fn lemma_invalid_child(c: Vec<Rc<ProfileGraph>>, from: nat, bad: nat)
    requires
        from <= bad < c.len(),
        !graph_valid(*c[bad as int]),
    ensures
        !children_valid(c, from),
    decreases bad - from,
{
    if from < bad {
        lemma_invalid_child(c, from + 1, bad);
    }
}

/// Checks that a graph is well formed, before any device is built from it.
pub fn validate(g: &Rc<ProfileGraph>) -> (ok: bool)
    ensures
        ok == graph_valid(**g),
    decreases g, 1int,
{
    match &**g {
        ProfileGraph::ProfileGraphAttribute(a) => a.dmx.is_none() || a.default.is_some(),
        ProfileGraph::ProfileGraphBranch(b) => validate_children(g, &b.children),
        ProfileGraph::ProfileGraphSwitch(s) => s.default_selection < s.children.len()
            && validate_children(g, &s.children),
    }
}

impl Profile {
    /// The number of DMX channels that one device of this profile occupies.
    pub open spec fn channel_count(&self) -> usize {
        self.chan_alloc->DmxChannelCount_0
    }

    /// Checks that the profile's graph is well formed.
    pub fn validate(&self) -> (ok: bool)
        ensures
            ok == graph_valid(*self.root),
    {
        validate(&self.root)
    }
}

/// Every attribute of the graph has a DMX map: nothing in it is left
/// without channels.
pub open spec fn graph_maps_all(g: ProfileGraph) -> bool
    decreases g,
{
    match g {
        ProfileGraph::ProfileGraphAttribute(a) => a.dmx.is_some(),
        ProfileGraph::ProfileGraphBranch(b) => children_map_all(b.children, 0),
        ProfileGraph::ProfileGraphSwitch(s) => children_map_all(s.children, 0),
    }
}

/// Every attribute below the children from `i` on has a DMX map.
pub open spec fn children_map_all(c: Vec<Rc<ProfileGraph>>, i: nat) -> bool
    decreases c, c.len() - i,
{
    if i < c.len() {
        graph_maps_all(*c[i as int]) && children_map_all(c, i + 1)
    } else {
        true
    }
}

/// One unmapped attribute below a child leaves the children unmapped.
proof fn lemma_unmapped_child(c: Vec<Rc<ProfileGraph>>, from: nat, bad: nat)
    requires
        from <= bad < c.len(),
        !graph_maps_all(*c[bad as int]),
    ensures
        !children_map_all(c, from),
    decreases bad - from,
{
    if from < bad {
        lemma_unmapped_child(c, from + 1, bad);
    }
}

/// Checks the DMX maps below the children of a node.
fn children_all_mapped(g: &Rc<ProfileGraph>, c: &Vec<Rc<ProfileGraph>>) -> (ok: bool)
    requires
        (**g matches ProfileGraph::ProfileGraphBranch(b) && b.children == *c) || (
        **g matches ProfileGraph::ProfileGraphSwitch(s) && s.children == *c),
    ensures
        ok == children_map_all(*c, 0),
    decreases g, 0int,
{
    let mut i: usize = c.len();
    while i > 0
        invariant
            i <= c.len(),
            children_map_all(*c, i as nat),
            (**g matches ProfileGraph::ProfileGraphBranch(b) && b.children == *c) || (
            **g matches ProfileGraph::ProfileGraphSwitch(s) && s.children == *c),
        decreases i,
    {
        i -= 1;
        proof {
            assert(**g is ProfileGraphBranch ==> (**g)->ProfileGraphBranch_0.children == *c);
            assert(**g is ProfileGraphSwitch ==> (**g)->ProfileGraphSwitch_0.children == *c);
            assert(decreases_to!(*c => c[i as int]));
        }
        if !all_mapped(&c[i]) {
            proof {
                lemma_unmapped_child(*c, 0, i as nat);
            }
            return false;
        }
    }
    true
}

/// Checks that every attribute of a graph has a DMX map.
pub fn all_mapped(g: &Rc<ProfileGraph>) -> (ok: bool)
    ensures
        ok == graph_maps_all(**g),
    decreases g, 1int,
{
    match &**g {
        ProfileGraph::ProfileGraphAttribute(a) => a.dmx.is_some(),
        ProfileGraph::ProfileGraphBranch(b) => children_all_mapped(g, &b.children),
        ProfileGraph::ProfileGraphSwitch(s) => children_all_mapped(g, &s.children),
    }
}

} // verus!

//! Devices: live instances of profiles.
//!
//! A device tree mirrors the profile graph it was built from, but every node
//! of it is owned by exactly one parent, because it carries the values of
//! one device. Rendering walks the tree and writes each active endpoint's
//! bytes into the device's slice of a universe.

use vstd::prelude::*;
use std::rc::Rc;
use crate::dmx::splice;
use crate::dmx::DmxAddr;
use crate::dmx::DmxAddressOffset;
use crate::dmx::DmxMap;
use crate::dmx::DmxUniverse;
use crate::dmx::FRAME_LEN;
use crate::profile::Attribute;
use crate::profile::AttributeValue;
use crate::profile::ChannelAlloc;
use crate::profile::Profile;
use crate::profile::ProfileGraph;
use crate::profile::children_map_all;
use crate::profile::children_valid;
use crate::profile::graph_maps_all;
use crate::profile::graph_valid;
use crate::render::bipolar_byte;
use crate::render::bipolar_range_byte;
use crate::render::boolean_byte;
use crate::render::double_level;
use crate::render::indexed_byte;
use crate::render::renderDmxBooleanWithRange;
use crate::render::renderDmxDouble;
use crate::render::renderDmxFloat;
use crate::render::renderDmxFloatBipolar;
use crate::render::renderDmxFloatBipolarWithRange;
use crate::render::renderDmxFloatWithRange;
use crate::render::renderDmxIntIndexedWithRange;
use crate::render::renderDmxSpinBipolar2ChWithRange;
use crate::render::render_int_indexed_strict;
use crate::render::spin_mode;
use crate::render::spin_speed;
use crate::render::unipolar_byte;
use crate::render::unipolar_range_byte;
use crate::render::DmxAttributeRenderer;

verus! {

/// Why a render stopped.
#[derive(Clone, Copy, Debug, PartialEq, Eq, Structural)]
pub enum RenderError {
    /// An endpoint is bound to a profile node that is no attribute.
    NotAnAttribute,
    /// An endpoint has no value and its attribute has no default.
    MissingValue,
    /// An endpoint's attribute has no DMX map.
    MissingDmxMap,
    /// An endpoint's bytes do not fit into the buffer at its offset.
    OffsetOutOfRange,
    /// An endpoint's index misses the table of its strict renderer.
    IndexOutOfRange,
    /// A patch reaches beyond the end of the frame.
    PatchOutOfFrame,
    /// A device's root is no child of the tree it is rendered from.
    MissingRoot,
}

/// The bytes that one endpoint wrote.
#[derive(Clone, Copy, Debug, PartialEq, Eq, Structural)]
pub enum RenderedBytes {
    /// One byte, at the offset.
    Single(u8),
    /// Two bytes, at the offset and behind it.
    Pair(u8, u8),
}

/// A leaf of a device tree: the live value of one attribute.
pub struct DeviceEndpoint {
    /// The profile node that this endpoint instantiates. It must be an
    /// attribute.
    pub attribute: Rc<ProfileGraph>,
    /// The current value; the attribute's default applies where it is unset.
    pub value: Option<AttributeValue>,
}

/// A branch of a device tree: one instrument, a group of them, or a
/// subsystem of one.
pub struct DeviceBranch {
    /// The profile node that this branch instantiates, if any: abstract
    /// groupings have none.
    pub profile_branch: Option<Rc<ProfileGraph>>,
    pub children: Vec<DeviceTree>,
}

/// A modal branch of a device tree: only the selected child renders.
pub struct DeviceSwitch {
    pub profile_branch: Option<Rc<ProfileGraph>>,
    pub children: Vec<DeviceTree>,
    /// The index of the selected child.
    pub selection: usize,
}

/// A node of a device tree.
pub enum DeviceTree {
    DeviceTreeEndpoint(DeviceEndpoint),
    DeviceTreeBranch(DeviceBranch),
    DeviceTreeSwitch(DeviceSwitch),
}

/// A protocol address.
#[derive(Clone, Copy, Debug, PartialEq, Eq, Structural)]
pub enum Addr {
    DmxAddrType(DmxAddr),
}

/// Binds one logical device to one protocol address.
#[derive(Clone, Copy, Debug, PartialEq, Eq, Structural)]
pub struct DevicePatch {
    pub addr: Addr,
}

/// A device: a profile, display metadata, its patches, and its subtree.
pub struct Device {
    pub profile: Rc<Profile>,
    pub name: String,
    pub nickname: String,
    pub id: usize,
    pub patches: Vec<DevicePatch>,
    /// The index of the device's subtree among the children of the branch
    /// that it was patched into.
    pub root: usize,
}

/// The continuous reading of a value: a discrete value reads as zero.
pub open spec fn continuous_part(v: AttributeValue) -> int {
    match v {
        AttributeValue::Continuous(c) => c as int,
        AttributeValue::Discrete(_) => 0,
    }
}

/// The discrete reading of a value: a continuous value reads as zero.
pub open spec fn discrete_part(v: AttributeValue) -> int {
    match v {
        AttributeValue::Continuous(_) => 0,
        AttributeValue::Discrete(d) => d as int,
    }
}

/// The number of channels that a renderer writes.
pub open spec fn renderer_width(r: DmxAttributeRenderer) -> int {
    match r {
        DmxAttributeRenderer::DmxDoubleRenderer => 2,
        DmxAttributeRenderer::DmxSpinBipolar2ChWithRangeRenderer(_) => 2,
        _ => 1,
    }
}

/// The bytes that a renderer gives for a value. A continuous renderer
/// reads the value's continuous part and a discrete renderer its discrete
/// part; a boolean renderer takes every discrete value but zero for true.
pub open spec fn rendered_bytes(r: DmxAttributeRenderer, v: AttributeValue) -> RenderedBytes {
    let c = continuous_part(v);
    let d = discrete_part(v);
    match r {
        DmxAttributeRenderer::DmxFloatRenderer => RenderedBytes::Single(unipolar_byte(c) as u8),
        DmxAttributeRenderer::DmxFloatBipolarRenderer => RenderedBytes::Single(
            bipolar_byte(c) as u8,
        ),
        DmxAttributeRenderer::DmxFloatBipolarWithRangeRenderer(m) => RenderedBytes::Single(
            bipolar_range_byte(c, m) as u8,
        ),
        DmxAttributeRenderer::DmxFloatUnipolarWithRangeRenderer(m) => RenderedBytes::Single(
            unipolar_range_byte(c, m) as u8,
        ),
        DmxAttributeRenderer::DmxDoubleRenderer => RenderedBytes::Pair(
            (double_level(c) / 256) as u8,
            (double_level(c) % 256) as u8,
        ),
        DmxAttributeRenderer::DmxIntIndexedWithRangeRenderer(t) => RenderedBytes::Single(
            indexed_byte(d, t@) as u8,
        ),
        DmxAttributeRenderer::DmxIntIndexedStrictRenderer(t) => RenderedBytes::Single(
            indexed_byte(d, t@) as u8,
        ),
        DmxAttributeRenderer::DmxBooleanWithRangeRenderer(m) => RenderedBytes::Single(
            boolean_byte(d != 0, m) as u8,
        ),
        DmxAttributeRenderer::DmxSpinBipolar2ChWithRangeRenderer(m) => RenderedBytes::Pair(
            spin_mode(c, m) as u8,
            spin_speed(c) as u8,
        ),
    }
}

/// A strict renderer refuses a value whose index misses its table.
pub open spec fn renderer_refuses(r: DmxAttributeRenderer, v: AttributeValue) -> bool {
    r matches DmxAttributeRenderer::DmxIntIndexedStrictRenderer(t) && !(0 <= discrete_part(v)
        < t@.len())
}

/// The buffer after bytes have been written at an offset.
pub open spec fn place(bytes: RenderedBytes, offset: int, buf: Seq<u8>) -> Seq<u8> {
    match bytes {
        RenderedBytes::Single(b) => buf.update(offset, b),
        RenderedBytes::Pair(a, b) => buf.update(offset, a).update(offset + 1, b),
    }
}

/// The offset of a DMX map within the device's slice.
pub open spec fn map_offset(m: DmxMap) -> int {
    m.offset->DmxAddressOffsetSingle_0 as int
}

/// What an endpoint writes into a buffer of the given length, and where; or
/// the error that stops it. The attribute is resolved first, then the value
/// (the attribute's default where none is set), then the DMX map; then the
/// map's offset is held against the buffer's length, and the value against
/// the renderer.
pub open spec fn endpoint_plan(e: DeviceEndpoint, len: int) -> Result<
    (int, RenderedBytes),
    RenderError,
> {
    match *e.attribute {
        ProfileGraph::ProfileGraphAttribute(a) => {
            let v = if e.value.is_some() { e.value } else { a.default };
            if v.is_none() {
                Err(RenderError::MissingValue)
            } else if a.dmx.is_none() {
                Err(RenderError::MissingDmxMap)
            } else {
                let m = a.dmx.unwrap();
                if map_offset(m) + renderer_width(m.renderer) > len {
                    Err(RenderError::OffsetOutOfRange)
                } else if renderer_refuses(m.renderer, v.unwrap()) {
                    Err(RenderError::IndexOutOfRange)
                } else {
                    Ok((map_offset(m), rendered_bytes(m.renderer, v.unwrap())))
                }
            }
        },
        _ => Err(RenderError::NotAnAttribute),
    }
}

/// What rendering an endpoint does to a buffer: the buffer afterwards, and
/// the error that stopped it, if any. An endpoint that fails writes nothing.
pub open spec fn endpoint_outcome(e: DeviceEndpoint, buf: Seq<u8>) -> (Seq<u8>, Option<
    RenderError,
>) {
    match endpoint_plan(e, buf.len() as int) {
        Ok((offset, bytes)) => (place(bytes, offset, buf), None),
        Err(error) => (buf, Some(error)),
    }
}

/// What rendering a tree does to a buffer. A branch renders its children in
/// order and stops at the first that fails; a switch renders its selected
/// child alone, and nothing where its selection names no child.
pub open spec fn tree_outcome(t: DeviceTree, buf: Seq<u8>) -> (Seq<u8>, Option<RenderError>)
    decreases t,
{
    match t {
        DeviceTree::DeviceTreeEndpoint(e) => endpoint_outcome(e, buf),
        DeviceTree::DeviceTreeBranch(b) => children_outcome(b.children, 0, buf),
        DeviceTree::DeviceTreeSwitch(s) => if s.selection < s.children.len() {
            tree_outcome(s.children[s.selection as int], buf)
        } else {
            (buf, None)
        },
    }
}

/// What rendering the children from `i` on does to a buffer.
pub open spec fn children_outcome(c: Vec<DeviceTree>, i: nat, buf: Seq<u8>) -> (Seq<u8>, Option<
    RenderError,
>)
    decreases c, c.len() - i,
{
    if i < c.len() {
        let first = tree_outcome(c[i as int], buf);
        if first.1.is_some() {
            first
        } else {
            children_outcome(c, i + 1, first.0)
        }
    } else {
        (buf, None)
    }
}

/// The result of a render that had the given outcome.
pub open spec fn reports(r: Result<(), RenderError>, outcome: Option<RenderError>) -> bool {
    match outcome {
        None => r.is_ok(),
        Some(e) => r == Err::<(), RenderError>(e),
    }
}

impl DeviceEndpoint {
    /// The current value, if one is set.
    pub fn get_val(&self) -> (v: Option<AttributeValue>)
        ensures
            v == self.value,
    {
        self.value
    }

    /// Sets the current value.
    pub fn set_val(&mut self, val: AttributeValue)
        ensures
            final(self).value == Some(val),
            final(self).attribute == old(self).attribute,
    {
        self.value = Some(val);
    }

    /// Renders this endpoint into `buffer`: resolves its attribute, its
    /// value (the attribute's default where none is set) and its DMX map,
    /// writes the bytes of the map's renderer at the map's offset, and
    /// returns them.
    pub fn render(&self, buffer: &mut Vec<u8>) -> (r: Result<RenderedBytes, RenderError>)
        ensures
            final(buffer)@ == endpoint_outcome(*self, old(buffer)@).0,
            final(buffer)@.len() == old(buffer)@.len(),
            match r {
                Ok(bytes) => endpoint_plan(*self, old(buffer)@.len() as int) matches Ok(p) && p.1
                    == bytes,
                Err(error) => endpoint_plan(*self, old(buffer)@.len() as int) == Err::<
                    (int, RenderedBytes),
                    RenderError,
                >(error),
            },
    {
        let attribute: &Attribute = match &*self.attribute {
            ProfileGraph::ProfileGraphAttribute(a) => a,
            _ => { return Err(RenderError::NotAnAttribute); },
        };
        let n: AttributeValue = match self.value {
            Some(v) => v,
            None => match attribute.default {
                Some(d) => d,
                None => { return Err(RenderError::MissingValue); },
            },
        };
        let dmx: &DmxMap = match &attribute.dmx {
            Some(x) => x,
            None => { return Err(RenderError::MissingDmxMap); },
        };
        let offset: usize = match dmx.offset {
            DmxAddressOffset::DmxAddressOffsetSingle(i) => i,
        };
        let (nf, ni): (i64, i64) = match n {
            AttributeValue::Continuous(c) => (c, 0),
            AttributeValue::Discrete(d) => (0, d),
        };
        let two: bool = match &dmx.renderer {
            DmxAttributeRenderer::DmxDoubleRenderer => true,
            DmxAttributeRenderer::DmxSpinBipolar2ChWithRangeRenderer(_) => true,
            _ => false,
        };
        if offset >= buffer.len() || (two && offset + 1 >= buffer.len()) {
            return Err(RenderError::OffsetOutOfRange);
        }
        match &dmx.renderer {
            DmxAttributeRenderer::DmxFloatRenderer => Ok(
                RenderedBytes::Single(renderDmxFloat(nf, offset, buffer)),
            ),
            DmxAttributeRenderer::DmxFloatBipolarRenderer => Ok(
                RenderedBytes::Single(renderDmxFloatBipolar(nf, offset, buffer)),
            ),
            DmxAttributeRenderer::DmxFloatBipolarWithRangeRenderer(range) => Ok(
                RenderedBytes::Single(renderDmxFloatBipolarWithRange(nf, range, offset, buffer)),
            ),
            DmxAttributeRenderer::DmxFloatUnipolarWithRangeRenderer(range) => Ok(
                RenderedBytes::Single(renderDmxFloatWithRange(nf, range, offset, buffer)),
            ),
            DmxAttributeRenderer::DmxDoubleRenderer => {
                let (hsb, lsb) = renderDmxDouble(nf, offset, buffer);
                Ok(RenderedBytes::Pair(hsb, lsb))
            },
            DmxAttributeRenderer::DmxIntIndexedWithRangeRenderer(range) => Ok(
                RenderedBytes::Single(renderDmxIntIndexedWithRange(ni, range, offset, buffer)),
            ),
            DmxAttributeRenderer::DmxIntIndexedStrictRenderer(range) => {
                match render_int_indexed_strict(ni, range, offset, buffer) {
                    Some(b) => Ok(RenderedBytes::Single(b)),
                    None => Err(RenderError::IndexOutOfRange),
                }
            },
            DmxAttributeRenderer::DmxBooleanWithRangeRenderer(range) => Ok(
                RenderedBytes::Single(renderDmxBooleanWithRange(ni != 0, range, offset, buffer)),
            ),
            DmxAttributeRenderer::DmxSpinBipolar2ChWithRangeRenderer(range) => {
                let (mode, speed) = renderDmxSpinBipolar2ChWithRange(nf, range, offset, buffer);
                Ok(RenderedBytes::Pair(mode, speed))
            },
        }
    }
}

impl DeviceBranch {
    /// Renders every child, in order, into the same buffer, and stops at the
    /// first child that fails.
    pub fn render(&self, buffer: &mut Vec<u8>) -> (r: Result<(), RenderError>)
        ensures
            final(buffer)@ == children_outcome(self.children, 0, old(buffer)@).0,
            reports(r, children_outcome(self.children, 0, old(buffer)@).1),
            final(buffer)@.len() == old(buffer)@.len(),
        decreases self,
    {
        let mut i: usize = 0;
        while i < self.children.len()
            invariant
                i <= self.children.len(),
                buffer@.len() == old(buffer)@.len(),
                children_outcome(self.children, i as nat, buffer@) == children_outcome(
                    self.children,
                    0,
                    old(buffer)@,
                ),
            decreases self.children.len() - i,
        {
            proof {
                assert(decreases_to!(self.children => self.children[i as int]));
            }
            match self.children[i].render(buffer) {
                Ok(()) => {},
                Err(e) => { return Err(e); },
            }
            i += 1;
        }
        Ok(())
    }
}

impl DeviceSwitch {
    /// Renders the selected child alone. The other children keep their state
    /// and write nothing.
    pub fn render(&self, buffer: &mut Vec<u8>) -> (r: Result<(), RenderError>)
        ensures
            self.selection < self.children.len() ==> final(buffer)@ == tree_outcome(
                self.children[self.selection as int],
                old(buffer)@,
            ).0 && reports(r, tree_outcome(self.children[self.selection as int], old(buffer)@).1),
            self.selection >= self.children.len() ==> final(buffer)@ == old(buffer)@ && r.is_ok(),
            final(buffer)@.len() == old(buffer)@.len(),
        decreases self,
    {
        if self.selection < self.children.len() {
            proof {
                assert(decreases_to!(self.children => self.children[self.selection as int]));
            }
            self.children[self.selection].render(buffer)
        } else {
            Ok(())
        }
    }
}

impl DeviceTree {
    /// Renders this node into `buffer`, as its kind renders.
    pub fn render(&self, buffer: &mut Vec<u8>) -> (r: Result<(), RenderError>)
        ensures
            final(buffer)@ == tree_outcome(*self, old(buffer)@).0,
            reports(r, tree_outcome(*self, old(buffer)@).1),
            final(buffer)@.len() == old(buffer)@.len(),
        decreases self,
    {
        match self {
            DeviceTree::DeviceTreeEndpoint(d) => match d.render(buffer) {
                Ok(_) => Ok(()),
                Err(e) => Err(e),
            },
            DeviceTree::DeviceTreeBranch(d) => d.render(buffer),
            DeviceTree::DeviceTreeSwitch(d) => d.render(buffer),
        }
    }
}

/// The children of a branch of a profile graph.
pub open spec fn branch_children(g: Rc<ProfileGraph>) -> Vec<Rc<ProfileGraph>> {
    (*g)->ProfileGraphBranch_0.children
}

/// The children of a switch of a profile graph.
pub open spec fn switch_children(g: Rc<ProfileGraph>) -> Vec<Rc<ProfileGraph>> {
    (*g)->ProfileGraphSwitch_0.children
}

/// A device tree mirrors a profile graph: it has the graph's shape, each of
/// its endpoints is bound to the attribute it stands for and starts at that
/// attribute's default, and each switch starts at its default selection.
pub open spec fn mirrors(t: DeviceTree, g: Rc<ProfileGraph>) -> bool
    decreases t,
{
    match t {
        DeviceTree::DeviceTreeEndpoint(e) => *g is ProfileGraphAttribute && e.attribute == g
            && e.value == (*g)->ProfileGraphAttribute_0.default,
        DeviceTree::DeviceTreeBranch(b) => *g is ProfileGraphBranch && b.profile_branch == Some(g)
            && children_mirror(b.children, branch_children(g), 0),
        DeviceTree::DeviceTreeSwitch(s) => *g is ProfileGraphSwitch && s.profile_branch == Some(g)
            && s.selection == (*g)->ProfileGraphSwitch_0.default_selection && children_mirror(
            s.children,
            switch_children(g),
            0,
        ),
    }
}

/// The device children from `i` on mirror the profile children at the same
/// places, and there are as many of the one as of the other.
pub open spec fn children_mirror(dc: Vec<DeviceTree>, pc: Vec<Rc<ProfileGraph>>, i: nat) -> bool
    decreases dc, dc.len() - i,
{
    dc.len() == pc.len() && (i < dc.len() ==> mirrors(dc[i as int], pc[i as int])
        && children_mirror(dc, pc, i + 1))
}

/// Children that mirror place by place mirror as a whole.
proof fn lemma_children_mirror(dc: Vec<DeviceTree>, pc: Vec<Rc<ProfileGraph>>, i: nat)
    requires
        dc.len() == pc.len(),
        forall|k: int| i <= k < dc.len() ==> mirrors(#[trigger] dc[k], pc[k]),
    ensures
        children_mirror(dc, pc, i),
    decreases dc.len() - i,
{
    if i < dc.len() {
        lemma_children_mirror(dc, pc, i + 1);
    }
}

/// Builds the device subtrees of the children of a profile node, in order.
fn device_children_from_profile_children(g: &Rc<ProfileGraph>, pc: &Vec<Rc<ProfileGraph>>) -> (dc:
    Vec<DeviceTree>)
    requires
        (**g matches ProfileGraph::ProfileGraphBranch(b) && b.children == *pc) || (
        **g matches ProfileGraph::ProfileGraphSwitch(s) && s.children == *pc),
    ensures
        children_mirror(dc, *pc, 0),
    decreases g, 0int,
{
    let mut dc: Vec<DeviceTree> = Vec::new();
    let mut i: usize = 0;
    while i < pc.len()
        invariant
            i <= pc.len(),
            dc.len() == i,
            forall|k: int| 0 <= k < i ==> mirrors(#[trigger] dc[k], pc[k]),
            (**g matches ProfileGraph::ProfileGraphBranch(b) && b.children == *pc) || (
            **g matches ProfileGraph::ProfileGraphSwitch(s) && s.children == *pc),
        decreases pc.len() - i,
    {
        proof {
            assert(**g is ProfileGraphBranch ==> (**g)->ProfileGraphBranch_0.children == *pc);
            assert(**g is ProfileGraphSwitch ==> (**g)->ProfileGraphSwitch_0.children == *pc);
            assert(decreases_to!(*pc => pc[i as int]));
        }
        let child = device_subtree_from_profile_subtree(&pc[i]);
        dc.push(child);
        i += 1;
    }
    proof {
        lemma_children_mirror(dc, *pc, 0);
    }
    dc
}

/// Builds a fresh device tree from a profile graph, one new node for each
/// node visited. The graph is only read.
pub fn device_subtree_from_profile_subtree(root: &Rc<ProfileGraph>) -> (t: DeviceTree)
    ensures
        mirrors(t, *root),
    decreases root, 1int,
{
    match &**root {
        ProfileGraph::ProfileGraphAttribute(attr) => DeviceTree::DeviceTreeEndpoint(
            DeviceEndpoint { attribute: root.clone(), value: attr.default },
        ),
        ProfileGraph::ProfileGraphBranch(pb) => {
            let children = device_children_from_profile_children(root, &pb.children);
            DeviceTree::DeviceTreeBranch(
                DeviceBranch { profile_branch: Some(root.clone()), children },
            )
        },
        ProfileGraph::ProfileGraphSwitch(ps) => {
            let children = device_children_from_profile_children(root, &ps.children);
            DeviceTree::DeviceTreeSwitch(
                DeviceSwitch {
                    profile_branch: Some(root.clone()),
                    children,
                    selection: ps.default_selection,
                },
            )
        },
    }
}

impl DevicePatch {
    /// A patch at the given address and length in the universe of the given
    /// id. Conflicts with other patches are not looked for.
    pub fn new_dmx(addr: usize, len: usize, univ: u32) -> (p: DevicePatch)
        ensures
            p == (DevicePatch {
                addr: Addr::DmxAddrType(DmxAddr { universe: univ, address: addr, length: len }),
            }),
    {
        DevicePatch {
            addr: Addr::DmxAddrType(DmxAddr { universe: univ, address: addr, length: len }),
        }
    }

    /// The DMX address of this patch.
    pub open spec fn dmx_addr(&self) -> DmxAddr {
        self.addr->DmxAddrType_0
    }
}

/// What rendering a device's tree through its patches from `i` on does to
/// the frame of a universe. A patch into another universe, or into one that
/// a writer holds, is passed over. Each other patch renders the tree into
/// its own slice of the frame; the first that fails ends the render.
pub open spec fn patches_outcome(
    patches: Seq<DevicePatch>,
    i: nat,
    root: DeviceTree,
    univ: u32,
    borrowed: bool,
    frame: Seq<u8>,
) -> (Seq<u8>, Option<RenderError>)
    decreases patches.len() - i,
{
    if i < patches.len() {
        let a = patches[i as int].dmx_addr();
        if a.universe != univ || borrowed {
            patches_outcome(patches, i + 1, root, univ, borrowed, frame)
        } else if !a.fits() {
            (frame, Some(RenderError::PatchOutOfFrame))
        } else {
            let window = tree_outcome(
                root,
                frame.subrange(a.address as int, a.address + a.length),
            );
            let next = splice(frame, a.address as int, window.0);
            if window.1.is_some() {
                (next, window.1)
            } else {
                patches_outcome(patches, i + 1, root, univ, borrowed, next)
            }
        }
    } else {
        (frame, None)
    }
}

impl Device {
    /// Renders this device into a universe. `show` is the branch that the
    /// device was patched into. Every patch of the device into this universe
    /// renders the device's subtree into the patch's slice of the frame and
    /// nowhere else. Where a writer already holds the universe the device
    /// gives up for this pass, without an error.
    pub fn render(&self, show: &DeviceBranch, univ: &mut DmxUniverse) -> (r: Result<
        (),
        RenderError,
    >)
        ensures
            final(univ).id == old(univ).id,
            final(univ).name == old(univ).name,
            final(univ).borrowed == old(univ).borrowed,
            self.root >= show.children.len() ==> final(univ).frame@ == old(univ).frame@ && r == Err::<
                (),
                RenderError,
            >(RenderError::MissingRoot),
            self.root < show.children.len() ==> final(univ).frame@ == patches_outcome(
                self.patches@,
                0,
                show.children[self.root as int],
                old(univ).id,
                old(univ).borrowed,
                old(univ).frame@,
            ).0 && reports(
                r,
                patches_outcome(
                    self.patches@,
                    0,
                    show.children[self.root as int],
                    old(univ).id,
                    old(univ).borrowed,
                    old(univ).frame@,
                ).1,
            ),
    {
        if self.root >= show.children.len() {
            return Err(RenderError::MissingRoot);
        }
        let root: &DeviceTree = &show.children[self.root];
        let mut i: usize = 0;
        while i < self.patches.len()
            invariant
                i <= self.patches.len(),
                univ.id == old(univ).id,
                univ.name == old(univ).name,
                univ.borrowed == old(univ).borrowed,
                self.root < show.children.len(),
                *root == show.children[self.root as int],
                patches_outcome(
                    self.patches@,
                    i as nat,
                    *root,
                    univ.id,
                    univ.borrowed,
                    univ.frame@,
                ) == patches_outcome(
                    self.patches@,
                    0,
                    *root,
                    old(univ).id,
                    old(univ).borrowed,
                    old(univ).frame@,
                ),
            decreases self.patches.len() - i,
        {
            let addr: DmxAddr = match self.patches[i].addr {
                Addr::DmxAddrType(a) => a,
            };
            if addr.try_get_univ_ref(univ) {
                match addr.slice_universe(univ) {
                    None => {
                        univ.release();
                        return Err(RenderError::PatchOutOfFrame);
                    },
                    Some(w) => {
                        let mut window: Vec<u8> = w;
                        let res = root.render(&mut window);
                        addr.store_slice(univ, &window);
                        univ.release();
                        match res {
                            Ok(()) => {},
                            Err(e) => { return Err(e); },
                        }
                    },
                }
            }
            i += 1;
        }
        Ok(())
    }
}

/// Patches a new device of a profile into a universe at an address, and
/// appends the device's subtree to `device_tree_root`. The device's channels
/// must lie within the frame: where they do not, nothing is built and the
/// result is `None`.
pub fn patch(
    profile: &Rc<Profile>,
    device_tree_root: &mut DeviceBranch,
    addr: usize,
    univ: &DmxUniverse,
) -> (d: Option<Device>)
    ensures
        d.is_some() == (addr + profile.channel_count() <= FRAME_LEN),
        d.is_none() ==> *final(device_tree_root) == *old(device_tree_root),
        d matches Some(dev) ==> {
            &&& final(device_tree_root).profile_branch == old(device_tree_root).profile_branch
            &&& final(device_tree_root).children@.len() == old(device_tree_root).children@.len() + 1
            &&& final(device_tree_root).children@.drop_last() == old(device_tree_root).children@
            &&& mirrors(final(device_tree_root).children@.last(), profile.root)
            &&& dev.root == old(device_tree_root).children@.len()
            &&& dev.profile == *profile
            &&& dev.name == profile.name
            &&& dev.nickname == profile.nickname
            &&& dev.id == 0
            &&& dev.patches@ == seq![
                DevicePatch {
                    addr: Addr::DmxAddrType(
                        DmxAddr {
                            universe: univ.id,
                            address: addr,
                            length: profile.channel_count(),
                        },
                    ),
                },
            ]
        },
{
    let len: usize = match profile.chan_alloc {
        ChannelAlloc::DmxChannelCount(n) => n,
    };
    if addr > FRAME_LEN || len > FRAME_LEN - addr {
        return None;
    }
    let subtree = device_subtree_from_profile_subtree(&profile.root);
    let root: usize = device_tree_root.children.len();
    device_tree_root.children.push(subtree);
    let mut patches: Vec<DevicePatch> = Vec::new();
    patches.push(DevicePatch::new_dmx(addr, len, univ.id));
    proof {
        assert(final(device_tree_root).children@.drop_last() =~= old(device_tree_root).children@);
        assert(patches@ =~= seq![patches@[0]]);
    }
    Some(
        Device {
            profile: profile.clone(),
            name: profile.name.clone(),
            nickname: profile.nickname.clone(),
            id: 0,
            patches,
            root,
        },
    )
}

/// The channels that an endpoint writes when it renders: those of its DMX
/// map, from the map's offset on, as many as the map's renderer writes.
pub open spec fn endpoint_owns(e: DeviceEndpoint, i: int) -> bool {
    &&& *e.attribute is ProfileGraphAttribute
    &&& (*e.attribute)->ProfileGraphAttribute_0.dmx.is_some()
    &&& {
        let m = (*e.attribute)->ProfileGraphAttribute_0.dmx.unwrap();
        map_offset(m) <= i < map_offset(m) + renderer_width(m.renderer)
    }
}

/// The channels that a tree owns: those of all its endpoints, selected or
/// not.
pub open spec fn tree_owns(t: DeviceTree, i: int) -> bool
    decreases t,
{
    match t {
        DeviceTree::DeviceTreeEndpoint(e) => endpoint_owns(e, i),
        DeviceTree::DeviceTreeBranch(b) => children_own(b.children, 0, i),
        DeviceTree::DeviceTreeSwitch(s) => children_own(s.children, 0, i),
    }
}

/// One of the children from `k` on owns channel `i`.
pub open spec fn children_own(c: Vec<DeviceTree>, k: nat, i: int) -> bool
    decreases c, c.len() - k,
{
    k < c.len() && (tree_owns(c[k as int], i) || children_own(c, k + 1, i))
}

/// A channel that none of the children owns is owned by no single child.
proof fn lemma_child_owns(c: Vec<DeviceTree>, k: nat, j: nat, i: int)
    requires
        k <= j < c.len(),
        !children_own(c, k, i),
    ensures
        !tree_owns(c[j as int], i),
    decreases j - k,
{
    if k < j {
        lemma_child_owns(c, k + 1, j, i);
    }
}

/// Rendering a tree keeps the length of the buffer and leaves alone every
/// channel that the tree does not own, whether it succeeds or fails.
pub proof fn lemma_render_writes_owned_only(t: DeviceTree, buf: Seq<u8>, i: int)
    ensures
        tree_outcome(t, buf).0.len() == buf.len(),
        0 <= i < buf.len() && !tree_owns(t, i) ==> tree_outcome(t, buf).0[i] == buf[i],
    decreases t,
{
    match t {
        DeviceTree::DeviceTreeEndpoint(e) => {},
        DeviceTree::DeviceTreeBranch(b) => {
            lemma_children_write_owned_only(b.children, 0, buf, i);
        },
        DeviceTree::DeviceTreeSwitch(s) => {
            if s.selection < s.children.len() {
                lemma_render_writes_owned_only(s.children[s.selection as int], buf, i);
                if !children_own(s.children, 0, i) {
                    lemma_child_owns(s.children, 0, s.selection as nat, i);
                }
            }
        },
    }
}

/// Rendering children keeps the length of the buffer and leaves alone every
/// channel that none of them owns.
pub proof fn lemma_children_write_owned_only(c: Vec<DeviceTree>, k: nat, buf: Seq<u8>, i: int)
    ensures
        children_outcome(c, k, buf).0.len() == buf.len(),
        0 <= i < buf.len() && !children_own(c, k, i) ==> children_outcome(c, k, buf).0[i] == buf[i],
    decreases c, c.len() - k,
{
    if k < c.len() {
        lemma_render_writes_owned_only(c[k as int], buf, i);
        lemma_children_write_owned_only(c, k + 1, tree_outcome(c[k as int], buf).0, i);
    }
}

/// A switch is exclusive: rendering it changes no channel but those that
/// its selected child owns. What the other children own, and the selected
/// child does not, stays as it was.
pub proof fn lemma_switch_exclusive(s: DeviceSwitch, buf: Seq<u8>, i: int)
    requires
        0 <= i < buf.len(),
        s.selection >= s.children.len() || !tree_owns(s.children[s.selection as int], i),
    ensures
        tree_outcome(DeviceTree::DeviceTreeSwitch(s), buf).0.len() == buf.len(),
        tree_outcome(DeviceTree::DeviceTreeSwitch(s), buf).0[i] == buf[i],
{
    if s.selection < s.children.len() {
        lemma_render_writes_owned_only(s.children[s.selection as int], buf, i);
    }
}

/// The channels that a tree writes when it renders without error: those of
/// the endpoints that the render reaches, through branches and through the
/// selected children of switches.
pub open spec fn tree_writes(t: DeviceTree, i: int) -> bool
    decreases t,
{
    match t {
        DeviceTree::DeviceTreeEndpoint(e) => endpoint_owns(e, i),
        DeviceTree::DeviceTreeBranch(b) => children_write(b.children, 0, i),
        DeviceTree::DeviceTreeSwitch(s) => s.selection < s.children.len() && tree_writes(
            s.children[s.selection as int],
            i,
        ),
    }
}

/// One of the children from `k` on writes channel `i`.
pub open spec fn children_write(c: Vec<DeviceTree>, k: nat, i: int) -> bool
    decreases c, c.len() - k,
{
    k < c.len() && (tree_writes(c[k as int], i) || children_write(c, k + 1, i))
}

/// What a render does is determined by the tree and the buffer's length
/// alone: whether it fails does not depend on what the buffer holds, a
/// channel that the tree does not write keeps its byte, and a channel that a
/// successful render writes gets a byte that does not depend on what the
/// buffer held.
pub proof fn lemma_render_determined(t: DeviceTree, x: Seq<u8>, y: Seq<u8>, i: int)
    requires
        x.len() == y.len(),
    ensures
        tree_outcome(t, x).1 == tree_outcome(t, y).1,
        tree_outcome(t, x).0.len() == x.len(),
        0 <= i < x.len() && !tree_writes(t, i) ==> tree_outcome(t, x).0[i] == x[i],
        0 <= i < x.len() && tree_writes(t, i) && tree_outcome(t, x).1.is_none() ==> tree_outcome(
            t,
            x,
        ).0[i] == tree_outcome(t, y).0[i],
    decreases t,
{
    match t {
        DeviceTree::DeviceTreeEndpoint(e) => {},
        DeviceTree::DeviceTreeBranch(b) => {
            lemma_children_determined(b.children, 0, x, y, i);
        },
        DeviceTree::DeviceTreeSwitch(s) => {
            if s.selection < s.children.len() {
                lemma_render_determined(s.children[s.selection as int], x, y, i);
            }
        },
    }
}

/// What rendering children does is determined by the children and the
/// buffer's length alone.
pub proof fn lemma_children_determined(
    c: Vec<DeviceTree>,
    k: nat,
    x: Seq<u8>,
    y: Seq<u8>,
    i: int,
)
    requires
        x.len() == y.len(),
    ensures
        children_outcome(c, k, x).1 == children_outcome(c, k, y).1,
        children_outcome(c, k, x).0.len() == x.len(),
        0 <= i < x.len() && !children_write(c, k, i) ==> children_outcome(c, k, x).0[i] == x[i],
        0 <= i < x.len() && children_write(c, k, i) && children_outcome(c, k, x).1.is_none()
            ==> children_outcome(c, k, x).0[i] == children_outcome(c, k, y).0[i],
    decreases c, c.len() - k,
{
    if k < c.len() {
        lemma_render_determined(c[k as int], x, y, i);
        lemma_render_determined(c[k as int], y, x, i);
        let nx = tree_outcome(c[k as int], x).0;
        let ny = tree_outcome(c[k as int], y).0;
        lemma_children_determined(c, k + 1, nx, ny, i);
        lemma_children_determined(c, k + 1, ny, nx, i);
    }
}

/// Rendering is idempotent: a tree that has rendered without error into a
/// buffer renders into the result without changing it.
pub proof fn lemma_render_idempotent(t: DeviceTree, buf: Seq<u8>)
    requires
        tree_outcome(t, buf).1.is_none(),
    ensures
        tree_outcome(t, tree_outcome(t, buf).0) == tree_outcome(t, buf),
{
    let once = tree_outcome(t, buf).0;
    let twice = tree_outcome(t, once).0;
    lemma_render_determined(t, buf, buf, 0);
    lemma_render_determined(t, once, buf, 0);
    assert forall|i: int| 0 <= i < once.len() implies twice[i] == once[i] by {
        lemma_render_determined(t, once, buf, i);
    }
    assert(twice =~= once);
}

/// The error of a render, if any, is none of those that a well-formed
/// profile rules out: at most, some endpoint's bytes did not fit into the
/// buffer, or some index missed the table of a strict renderer.
pub open spec fn at_most_out_of_range(outcome: Option<RenderError>) -> bool {
    outcome.is_none() || outcome == Some(RenderError::OffsetOutOfRange) || outcome == Some(
        RenderError::IndexOutOfRange,
    )
}

/// A device tree is bound to a profile graph: it has the graph's shape, and
/// each of its endpoints is bound to the attribute at its place. Values and
/// selections are free.
pub open spec fn bound(t: DeviceTree, g: Rc<ProfileGraph>) -> bool
    decreases t,
{
    match t {
        DeviceTree::DeviceTreeEndpoint(e) => *g is ProfileGraphAttribute && e.attribute == g,
        DeviceTree::DeviceTreeBranch(b) => *g is ProfileGraphBranch && children_bound(
            b.children,
            branch_children(g),
            0,
        ),
        DeviceTree::DeviceTreeSwitch(s) => *g is ProfileGraphSwitch && children_bound(
            s.children,
            switch_children(g),
            0,
        ),
    }
}

/// The device children from `i` on are bound to the profile children at the
/// same places, and there are as many of the one as of the other.
pub open spec fn children_bound(dc: Vec<DeviceTree>, pc: Vec<Rc<ProfileGraph>>, i: nat) -> bool
    decreases dc, dc.len() - i,
{
    dc.len() == pc.len() && (i < dc.len() ==> bound(dc[i as int], pc[i as int]) && children_bound(
        dc,
        pc,
        i + 1,
    ))
}

/// A device tree that mirrors a profile graph is bound to it.
pub proof fn lemma_mirrors_bound(t: DeviceTree, g: Rc<ProfileGraph>)
    requires
        mirrors(t, g),
    ensures
        bound(t, g),
    decreases t,
{
    match t {
        DeviceTree::DeviceTreeEndpoint(e) => {},
        DeviceTree::DeviceTreeBranch(b) => {
            lemma_children_mirror_bound(b.children, branch_children(g), 0);
        },
        DeviceTree::DeviceTreeSwitch(s) => {
            lemma_children_mirror_bound(s.children, switch_children(g), 0);
        },
    }
}

/// Children that mirror profile children are bound to them.
pub proof fn lemma_children_mirror_bound(dc: Vec<DeviceTree>, pc: Vec<Rc<ProfileGraph>>, k: nat)
    requires
        children_mirror(dc, pc, k),
    ensures
        children_bound(dc, pc, k),
    decreases dc, dc.len() - k,
{
    if k < dc.len() {
        lemma_mirrors_bound(dc[k as int], pc[k as int]);
        lemma_children_mirror_bound(dc, pc, k + 1);
    }
}

/// Binding and well-formedness of children hold child by child.
proof fn lemma_child_bound(dc: Vec<DeviceTree>, pc: Vec<Rc<ProfileGraph>>, k: nat, j: nat)
    requires
        k <= j < dc.len(),
        children_bound(dc, pc, k),
        children_valid(pc, k),
        children_map_all(pc, k),
    ensures
        bound(dc[j as int], pc[j as int]),
        graph_valid(*pc[j as int]),
        graph_maps_all(*pc[j as int]),
    decreases j - k,
{
    if k < j {
        lemma_child_bound(dc, pc, k + 1, j);
    }
}

/// A device tree bound to a well-formed profile graph, all of whose
/// attributes have DMX maps, renders without any of the errors of a
/// malformed profile, whatever values have been set and whichever children
/// are selected: every endpoint finds its attribute, a value and a map.
/// Only a buffer too short for an endpoint's offset, or an index that
/// misses a strict renderer's table, can still stop it.
pub proof fn lemma_bound_device_renders(t: DeviceTree, g: Rc<ProfileGraph>, buf: Seq<u8>)
    requires
        bound(t, g),
        graph_valid(*g),
        graph_maps_all(*g),
    ensures
        at_most_out_of_range(tree_outcome(t, buf).1),
    decreases t,
{
    match t {
        DeviceTree::DeviceTreeEndpoint(e) => {},
        DeviceTree::DeviceTreeBranch(b) => {
            lemma_bound_children_render(b.children, branch_children(g), 0, buf);
        },
        DeviceTree::DeviceTreeSwitch(s) => {
            if s.selection < s.children.len() {
                let pc = switch_children(g);
                lemma_child_bound(s.children, pc, 0, s.selection as nat);
                lemma_bound_device_renders(
                    s.children[s.selection as int],
                    pc[s.selection as int],
                    buf,
                );
            }
        },
    }
}

/// The children of a device tree bound to a well-formed profile graph
/// render without any of the errors of a malformed profile.
pub proof fn lemma_bound_children_render(
    dc: Vec<DeviceTree>,
    pc: Vec<Rc<ProfileGraph>>,
    k: nat,
    buf: Seq<u8>,
)
    requires
        children_bound(dc, pc, k),
        children_valid(pc, k),
        children_map_all(pc, k),
    ensures
        at_most_out_of_range(children_outcome(dc, k, buf).1),
    decreases dc, dc.len() - k,
{
    if k < dc.len() {
        lemma_bound_device_renders(dc[k as int], pc[k as int], buf);
        lemma_bound_children_render(dc, pc, k + 1, tree_outcome(dc[k as int], buf).0);
    }
}

/// A device tree that was just built from a well-formed profile graph, all
/// of whose attributes have DMX maps, renders without any of the errors of
/// a malformed profile.
pub proof fn lemma_fresh_device_renders(t: DeviceTree, g: Rc<ProfileGraph>, buf: Seq<u8>)
    requires
        mirrors(t, g),
        graph_valid(*g),
        graph_maps_all(*g),
    ensures
        at_most_out_of_range(tree_outcome(t, buf).1),
{
    lemma_mirrors_bound(t, g);
    lemma_bound_device_renders(t, g, buf);
}

/// One of the patches from `k` on covers channel `i` of the universe `univ`.
pub open spec fn patches_cover(patches: Seq<DevicePatch>, k: nat, univ: u32, i: int) -> bool
    decreases patches.len() - k,
{
    k < patches.len() && ({
        let a = patches[k as int].dmx_addr();
        a.universe == univ && a.address <= i < a.address + a.length
    } || patches_cover(patches, k + 1, univ, i))
}

/// A device writes only inside its own slices of a universe: rendering it
/// keeps the length of the frame and leaves alone every channel that none
/// of its patches into that universe covers, whether the render succeeds or
/// fails.
pub proof fn lemma_device_writes_inside_patches(
    patches: Seq<DevicePatch>,
    k: nat,
    root: DeviceTree,
    univ: u32,
    borrowed: bool,
    frame: Seq<u8>,
    i: int,
)
    requires
        frame.len() == FRAME_LEN,
    ensures
        patches_outcome(patches, k, root, univ, borrowed, frame).0.len() == FRAME_LEN,
        0 <= i < FRAME_LEN && !patches_cover(patches, k, univ, i) ==> patches_outcome(
            patches,
            k,
            root,
            univ,
            borrowed,
            frame,
        ).0[i] == frame[i],
    decreases patches.len() - k,
{
    if k < patches.len() {
        let a = patches[k as int].dmx_addr();
        if a.universe != univ || borrowed {
            lemma_device_writes_inside_patches(patches, k + 1, root, univ, borrowed, frame, i);
        } else if a.fits() {
            let inside = frame.subrange(a.address as int, a.address + a.length);
            lemma_render_determined(root, inside, inside, 0);
            let next = splice(frame, a.address as int, tree_outcome(root, inside).0);
            lemma_device_writes_inside_patches(patches, k + 1, root, univ, borrowed, next, i);
        }
    }
}

} // verus!

use vstd::prelude::*;
use crate::params::CameraCaps;

verus! {

/// Target bitrate for the record branch's encoder, in bits per second.
pub const TARGET_BITRATE_BPS: u32 = 8500000;

/// The role a node plays in the capture graph.
#[derive(Clone, Copy, Debug, PartialEq, Eq)]
pub enum NodeKind {
    /// Platform video source (the camera).
    Source,
    /// Capability filter constraining resolution and framerate.
    CapsFilter,
    /// Splitter duplicating the stream to the preview and record branches.
    Splitter,
    /// Buffer queue decoupling a branch from the splitter.
    Queue,
    /// Color-space converter.
    Converter,
    /// Video encoder.
    Encoder,
    /// Bitstream parser.
    Parser,
    /// Container multiplexer.
    Muxer,
    /// Platform display sink ending the preview branch.
    DisplaySink,
    /// File sink ending the record branch.
    FileSink,
}

/// The properties a node is configured with before activation.
#[derive(Clone, Debug, PartialEq, Eq)]
pub enum NodeConfig {
    /// No properties to set.
    Plain,
    /// The capability filter's constraint, taken from the capture parameters.
    VideoCaps {
        width: i32,
        height: i32,
        framerate_numerator: i32,
        framerate_denominator: i32,
    },
    /// The encoder's target bitrate in bits per second.
    Bitrate { bits_per_second: u32 },
    /// The file sink's destination path.
    Location { path: String },
}

/// One node of the plan: what to create and how to configure it.
#[derive(Clone, Debug, PartialEq, Eq)]
pub struct NodeSpec {
    pub kind: NodeKind,
    pub config: NodeConfig,
}

/// A directed link between two nodes, as indices into the plan's node list.
#[derive(Clone, Copy, Debug, PartialEq, Eq)]
pub struct Link {
    pub from: usize,
    pub to: usize,
}

/// The declarative capture graph: the nodes to create and the links to
/// make, in construction order. The engine realizes the plan; this crate
/// decides what the plan is.
#[derive(Clone, Debug, PartialEq, Eq)]
pub struct GraphPlan {
    pub nodes: Vec<NodeSpec>,
    pub links: Vec<Link>,
}

impl GraphPlan {
    /// Every link joins two nodes of the plan.
    pub open spec fn links_in_range(self) -> bool {
        forall|k: int|
            0 <= k < self.links@.len() ==> (#[trigger] self.links@[k]).from < self.nodes@.len()
                && self.links@[k].to < self.nodes@.len()
    }

    /// Node `i` can be reached from the source (node 0) by following at
    /// most `n` links.
    pub open spec fn reaches_within(self, i: int, n: nat) -> bool
        decreases n,
    {
        i == 0 || (n > 0 && exists|k: int|
            0 <= k < self.links@.len() && (#[trigger] self.links@[k]).to == i
                && self.reaches_within(self.links@[k].from as int, (n - 1) as nat))
    }

    /// Node `i` is reachable from the source.
    pub open spec fn reachable(self, i: int) -> bool {
        exists|n: nat| self.reaches_within(i, n)
    }

    /// The activation invariant: every node added to the graph is reachable
    /// from its single source, so no node is left dangling when the graph
    /// is set to the active state.
    pub open spec fn all_reachable(self) -> bool {
        forall|i: int| 0 <= i < self.nodes@.len() ==> #[trigger] self.reachable(i)
    }

    /// A well-formed plan: nonempty, rooted at a source node, with every
    /// link joining nodes of the plan.
    pub open spec fn wf(self) -> bool {
        self.nodes@.len() > 0 && self.nodes@[0].kind == NodeKind::Source
            && self.links_in_range()
    }
}

/// Node kinds of the canonical dual-branch topology, in creation order:
/// the shared trunk (source, capability filter, splitter), then the preview
/// branch (queue, converter, display sink), then the record branch (queue,
/// converter, encoder, parser, muxer, file sink).
pub open spec fn canonical_kinds() -> Seq<NodeKind> {
    seq![
        NodeKind::Source,
        NodeKind::CapsFilter,
        NodeKind::Splitter,
        NodeKind::Queue,
        NodeKind::Converter,
        NodeKind::DisplaySink,
        NodeKind::Queue,
        NodeKind::Converter,
        NodeKind::Encoder,
        NodeKind::Parser,
        NodeKind::Muxer,
        NodeKind::FileSink,
    ]
}

/// Links of the canonical topology: the trunk in line, then each branch in
/// line from the splitter to its sink.
pub open spec fn canonical_links() -> Seq<Link> {
    seq![
        Link { from: 0, to: 1 },
        Link { from: 1, to: 2 },
        Link { from: 2, to: 3 },
        Link { from: 3, to: 4 },
        Link { from: 4, to: 5 },
        Link { from: 2, to: 6 },
        Link { from: 6, to: 7 },
        Link { from: 7, to: 8 },
        Link { from: 8, to: 9 },
        Link { from: 9, to: 10 },
        Link { from: 10, to: 11 },
    ]
}

/// The plan has exactly the canonical dual-branch shape: twelve nodes with
/// the canonical kinds, joined by the canonical links.
pub open spec fn has_canonical_topology(p: GraphPlan) -> bool {
    p.nodes@.len() == 12
        && (forall|i: int| 0 <= i < 12 ==> (#[trigger] p.nodes@[i]).kind == canonical_kinds()[i])
        && p.links@ == canonical_links()
}

/// A canonical plan is well formed and activatable: every one of its nodes
/// is reachable from the source, along the trunk and then down its branch.
pub proof fn lemma_canonical_plan_activatable(p: GraphPlan)
    requires
        has_canonical_topology(p),
    ensures
        p.wf(),
        p.all_reachable(),
{
    assert(p.links@[0] == (Link { from: 0, to: 1 }));
    assert(p.links@[1] == (Link { from: 1, to: 2 }));
    assert(p.links@[2] == (Link { from: 2, to: 3 }));
    assert(p.links@[3] == (Link { from: 3, to: 4 }));
    assert(p.links@[4] == (Link { from: 4, to: 5 }));
    assert(p.links@[5] == (Link { from: 2, to: 6 }));
    assert(p.links@[6] == (Link { from: 6, to: 7 }));
    assert(p.links@[7] == (Link { from: 7, to: 8 }));
    assert(p.links@[8] == (Link { from: 8, to: 9 }));
    assert(p.links@[9] == (Link { from: 9, to: 10 }));
    assert(p.links@[10] == (Link { from: 10, to: 11 }));
    assert(p.nodes@[0].kind == NodeKind::Source);

    assert(p.reaches_within(0, 0));
    assert(p.reaches_within(1, 1)) by {
        assert(p.links@[0].to == 1 && p.reaches_within(p.links@[0].from as int, 0));
    }
    assert(p.reaches_within(2, 2)) by {
        assert(p.links@[1].to == 2 && p.reaches_within(p.links@[1].from as int, 1));
    }
    assert(p.reaches_within(3, 3)) by {
        assert(p.links@[2].to == 3 && p.reaches_within(p.links@[2].from as int, 2));
    }
    assert(p.reaches_within(4, 4)) by {
        assert(p.links@[3].to == 4 && p.reaches_within(p.links@[3].from as int, 3));
    }
    assert(p.reaches_within(5, 5)) by {
        assert(p.links@[4].to == 5 && p.reaches_within(p.links@[4].from as int, 4));
    }
    assert(p.reaches_within(6, 3)) by {
        assert(p.links@[5].to == 6 && p.reaches_within(p.links@[5].from as int, 2));
    }
    assert(p.reaches_within(7, 4)) by {
        assert(p.links@[6].to == 7 && p.reaches_within(p.links@[6].from as int, 3));
    }
    assert(p.reaches_within(8, 5)) by {
        assert(p.links@[7].to == 8 && p.reaches_within(p.links@[7].from as int, 4));
    }
    assert(p.reaches_within(9, 6)) by {
        assert(p.links@[8].to == 9 && p.reaches_within(p.links@[8].from as int, 5));
    }
    assert(p.reaches_within(10, 7)) by {
        assert(p.links@[9].to == 10 && p.reaches_within(p.links@[9].from as int, 6));
    }
    assert(p.reaches_within(11, 8)) by {
        assert(p.links@[10].to == 11 && p.reaches_within(p.links@[10].from as int, 7));
    }

    assert forall|i: int| 0 <= i < p.nodes@.len() implies #[trigger] p.reachable(i) by {
        if i == 0 { assert(p.reaches_within(0, 0)); }
        else if i == 1 { assert(p.reaches_within(1, 1)); }
        else if i == 2 { assert(p.reaches_within(2, 2)); }
        else if i == 3 { assert(p.reaches_within(3, 3)); }
        else if i == 4 { assert(p.reaches_within(4, 4)); }
        else if i == 5 { assert(p.reaches_within(5, 5)); }
        else if i == 6 { assert(p.reaches_within(6, 3)); }
        else if i == 7 { assert(p.reaches_within(7, 4)); }
        else if i == 8 { assert(p.reaches_within(8, 5)); }
        else if i == 9 { assert(p.reaches_within(9, 6)); }
        else if i == 10 { assert(p.reaches_within(10, 7)); }
        else { assert(p.reaches_within(11, 8)); }
    }
}

/// Build the canonical plan for the given parameters and destination path
/// (the builder's declarative half): the capability filter carries the
/// requested resolution and framerate, the encoder the fixed target
/// bitrate, and the file sink the destination path.
pub fn build_plan(caps: &CameraCaps, filename: &String) -> (p: GraphPlan)
    ensures
        has_canonical_topology(p),
        p.wf(),
        p.all_reachable(),
        (p.nodes@[1].config matches NodeConfig::VideoCaps {
            width,
            height,
            framerate_numerator,
            framerate_denominator,
        } && width == caps.width && height == caps.height && framerate_numerator
            == caps.framerate_numerator && framerate_denominator == caps.framerate_denominator),
        (p.nodes@[8].config matches NodeConfig::Bitrate { bits_per_second } && bits_per_second
            == TARGET_BITRATE_BPS),
        (p.nodes@[11].config matches NodeConfig::Location { path } && path@ == filename@),
        (forall|i: int|
            0 <= i < 12 && i != 1 && i != 8 && i != 11 ==> (#[trigger] p.nodes@[i]).config
                matches NodeConfig::Plain),
{
    let filter_config = NodeConfig::VideoCaps {
        width: caps.width,
        height: caps.height,
        framerate_numerator: caps.framerate_numerator,
        framerate_denominator: caps.framerate_denominator,
    };
    let mut nodes: Vec<NodeSpec> = Vec::new();
    nodes.push(NodeSpec { kind: NodeKind::Source, config: NodeConfig::Plain });
    nodes.push(NodeSpec { kind: NodeKind::CapsFilter, config: filter_config });
    nodes.push(NodeSpec { kind: NodeKind::Splitter, config: NodeConfig::Plain });
    nodes.push(NodeSpec { kind: NodeKind::Queue, config: NodeConfig::Plain });
    nodes.push(NodeSpec { kind: NodeKind::Converter, config: NodeConfig::Plain });
    nodes.push(NodeSpec { kind: NodeKind::DisplaySink, config: NodeConfig::Plain });
    nodes.push(NodeSpec { kind: NodeKind::Queue, config: NodeConfig::Plain });
    nodes.push(NodeSpec { kind: NodeKind::Converter, config: NodeConfig::Plain });
    nodes.push(NodeSpec {
        kind: NodeKind::Encoder,
        config: NodeConfig::Bitrate { bits_per_second: TARGET_BITRATE_BPS },
    });
    nodes.push(NodeSpec { kind: NodeKind::Parser, config: NodeConfig::Plain });
    nodes.push(NodeSpec { kind: NodeKind::Muxer, config: NodeConfig::Plain });
    nodes.push(NodeSpec {
        kind: NodeKind::FileSink,
        config: NodeConfig::Location { path: filename.clone() },
    });

    let mut links: Vec<Link> = Vec::new();
    links.push(Link { from: 0, to: 1 });
    links.push(Link { from: 1, to: 2 });
    links.push(Link { from: 2, to: 3 });
    links.push(Link { from: 3, to: 4 });
    links.push(Link { from: 4, to: 5 });
    links.push(Link { from: 2, to: 6 });
    links.push(Link { from: 6, to: 7 });
    links.push(Link { from: 7, to: 8 });
    links.push(Link { from: 8, to: 9 });
    links.push(Link { from: 9, to: 10 });
    links.push(Link { from: 10, to: 11 });

    let p = GraphPlan { nodes, links };
    proof {
        assert(p.links@ =~= canonical_links());
        assert(forall|i: int| 0 <= i < 12 ==> (#[trigger] p.nodes@[i]).kind
            == canonical_kinds()[i]);
        lemma_canonical_plan_activatable(p);
    }
    p
}

/// A construction step that failed, by its position in the run: first the
/// node creations in plan order, then the links in plan order.
#[derive(Clone, Copy, Debug, PartialEq, Eq)]
pub struct BuildError {
    pub step: usize,
}

/// One builder run against the engine: the plan it realizes, how many
/// construction steps (node creations, then links) have succeeded, and
/// whether one has failed. A failure is unrecoverable for the session: the
/// run stays aborted, accepts no further step, and never becomes
/// activatable, so a partially built graph cannot be set active.
#[derive(Clone, Debug)]
pub struct GraphAssembly {
    pub plan: GraphPlan,
    pub steps_done: usize,
    pub failed: bool,
}

impl GraphAssembly {
    /// Steps a full run takes: one per node, then one per link.
    pub open spec fn total_steps(self) -> int {
        self.plan.nodes@.len() + self.plan.links@.len() as int
    }

    pub open spec fn wf(self) -> bool {
        self.steps_done <= self.total_steps() && self.total_steps() <= usize::MAX
    }

    /// Every step succeeded: the graph matches the whole plan and may be
    /// activated.
    pub open spec fn complete(self) -> bool {
        !self.failed && self.steps_done == self.total_steps()
    }

    pub fn new(plan: GraphPlan) -> (a: GraphAssembly)
        ensures
            a.plan == plan,
            a.steps_done == 0,
            !a.failed,
    {
        GraphAssembly { plan, steps_done: 0, failed: false }
    }

    /// Record the outcome of the next construction step. The step counts
    /// only if it succeeded, no step had failed before, and the run was not
    /// already over; any failure aborts the run for good.
    pub fn apply_step(&mut self, succeeded: bool) -> (r: Result<(), BuildError>)
        requires
            old(self).wf(),
        ensures
            final(self).plan == old(self).plan,
            final(self).wf(),
            (r is Ok) == (succeeded && !old(self).failed && old(self).steps_done
                < old(self).total_steps()),
            r is Ok ==> !final(self).failed && final(self).steps_done == old(self).steps_done
                + 1,
            (r matches Err(e) ==> final(self).failed && e.step == old(self).steps_done
                && final(self).steps_done == old(self).steps_done),
            old(self).failed ==> final(self).failed,
    {
        if self.failed || !succeeded || self.steps_done >= self.plan.nodes.len() + self.plan.links.len()
        {
            self.failed = true;
            Err(BuildError { step: self.steps_done })
        } else {
            self.steps_done = self.steps_done + 1;
            Ok(())
        }
    }

    /// Whether the graph may be set to the active state: only a complete,
    /// unfailed run qualifies.
    pub fn can_activate(&self) -> (b: bool)
        requires
            self.wf(),
        ensures
            b == self.complete(),
    {
        !self.failed && self.steps_done == self.plan.nodes.len() + self.plan.links.len()
    }
}

} // verus!

//! The render-graph node that voxelizes the scene into a view's volume and
//! then builds the volume's mip chain.

use crate::prepare::ViewGiVolumes;
use bevy::ecs::entity::Entity;
use vstd::prelude::*;

verus! {

/// One step of GPU work on a view's volume texture.
#[derive(Clone, Copy, Debug, PartialEq, Eq, Structural)]
pub enum GiCommand {
    /// Write coverage and colour of the scene's triangles into mip level 0.
    Voxelize,
    /// Wait until every write made so far is complete and visible.
    Barrier,
    /// Filter mip level `source` down into mip level `target`.
    Downsample { source: u32, target: u32 },
}

impl GiCommand {
    /// The mip level that the command writes, if it writes one.
    pub open spec fn spec_written_level(self) -> Option<u32> {
        match self {
            GiCommand::Voxelize => Some(0u32),
            GiCommand::Barrier => None,
            GiCommand::Downsample { target, .. } => Some(target),
        }
    }

    /// The mip level that the command reads, if it reads one.
    pub open spec fn spec_read_level(self) -> Option<u32> {
        match self {
            GiCommand::Downsample { source, .. } => Some(source),
            _ => None,
        }
    }

    /// The mip level that the command writes, if it writes one.
    #[verifier::when_used_as_spec(spec_written_level)]
    pub fn written_level(self) -> (level: Option<u32>)
        ensures
            level == self.spec_written_level(),
    {
        match self {
            GiCommand::Voxelize => Some(0),
            GiCommand::Barrier => None,
            GiCommand::Downsample { target, .. } => Some(target),
        }
    }

    /// The mip level that the command reads, if it reads one.
    #[verifier::when_used_as_spec(spec_read_level)]
    pub fn read_level(self) -> (level: Option<u32>)
        ensures
            level == self.spec_read_level(),
    {
        match self {
            GiCommand::Downsample { source, .. } => Some(source),
            _ => None,
        }
    }
}

/// Whether a barrier stands behind the command at `write` and before the
/// one at `position`.
pub open spec fn fenced_before(commands: Seq<GiCommand>, write: int, position: int) -> bool {
    exists|barrier: int|
        #![trigger commands[barrier]]
        write < barrier < position && commands[barrier] is Barrier
}

/// Whether a command before `position` writes `level`.
pub open spec fn written_before(commands: Seq<GiCommand>, level: u32, position: int) -> bool {
    exists|write: int|
        #![trigger commands[write]]
        0 <= write < position && commands[write].written_level() == Some(level)
}

/// Whether `level` is final when the command at `position` begins: an
/// earlier command has written it, and behind every earlier command that
/// has written it a barrier stands before `position`.
pub open spec fn finalized_before(commands: Seq<GiCommand>, level: u32, position: int) -> bool {
    &&& written_before(commands, level, position)
    &&& forall|write: int|
        #![trigger commands[write]]
        0 <= write < position && commands[write].written_level() == Some(level)
            ==> fenced_before(commands, write, position)
}

/// Whether the command at `position` or a later one writes `level`.
pub open spec fn written_from(commands: Seq<GiCommand>, level: u32, position: int) -> bool {
    exists|later: int|
        #![trigger commands[later]]
        position <= later < commands.len() && commands[later].written_level() == Some(level)
}

/// Whether the command at `position` reads final data only: the level it
/// reads, if any, is final when the command begins, and is written neither
/// by that command nor by a later one.
pub open spec fn reads_finalized_at(commands: Seq<GiCommand>, position: int) -> bool {
    match commands[position].read_level() {
        None => true,
        Some(level) => finalized_before(commands, level, position) && !written_from(
            commands,
            level,
            position,
        ),
    }
}

/// Whether every command of `commands`, run in order, reads final data only.
pub open spec fn mip_order_respected(commands: Seq<GiCommand>) -> bool {
    forall|position: int|
        0 <= position < commands.len() ==> #[trigger] reads_finalized_at(commands, position)
}

/// The command at `position` of the work of one frame on a texture.
pub open spec fn spec_scheduled_command(position: int) -> GiCommand {
    if position == 0 {
        GiCommand::Voxelize
    } else if position % 2 == 1 {
        GiCommand::Barrier
    } else {
        GiCommand::Downsample { source: (position / 2 - 1) as u32, target: (position / 2) as u32 }
    }
}

/// The work of one frame on a texture with `levels` mip levels: voxelize
/// into level 0, then for each further level, finest first, a barrier and
/// the filter pass that makes the level out of the one before it.
pub open spec fn spec_schedule(levels: u32) -> Seq<GiCommand> {
    Seq::new(
        if levels <= 1 {
            1nat
        } else {
            (2 * levels - 1) as nat
        },
        |position: int| spec_scheduled_command(position),
    )
}

/// The work of one frame for a view: the schedule of its texture, and
/// nothing for a view that no volume was prepared for.
pub open spec fn spec_view_commands(prepared: Option<ViewGiVolumes>) -> Seq<GiCommand> {
    match prepared {
        None => Seq::empty(),
        Some(p) => spec_schedule(p.volume_texture.mip_level_count),
    }
}

/// In the schedule of a frame, no mip level is made before the level that
/// it is made from is written, complete and visible, and no level is written
/// again once it has been read.
pub proof fn lemma_schedule_respects_mip_order(levels: u32)
    ensures
        mip_order_respected(spec_schedule(levels)),
{
    let commands = spec_schedule(levels);
    assert forall|position: int| 0 <= position < commands.len() implies #[trigger] reads_finalized_at(
        commands,
        position,
    ) by {
        if position != 0 && position % 2 == 0 {
            let source = (position / 2 - 1) as u32;
            assert(commands[position - 2].written_level() == Some(source));
            assert(commands[position - 1] is Barrier);
            assert(written_before(commands, source, position));
            assert forall|write: int|
                #![trigger commands[write]]
                0 <= write < position && commands[write].written_level() == Some(
                    source,
                ) implies fenced_before(commands, write, position) by {
                if write % 2 == 0 {
                    assert(write / 2 == position / 2 - 1);
                }
                assert(write == position - 2);
            }
            assert forall|later: int| position <= later < commands.len() implies (
            #[trigger] commands[later]).written_level() != Some(source) by {
                if later % 2 == 0 {
                    assert(later / 2 >= position / 2);
                }
            }
        }
    }
}

/// Where the node stands in its work on one view.
#[derive(Clone, Copy, Debug)]
pub enum NodeState {
    /// No view is bound.
    Idle,
    /// A view is bound and nothing has been issued for it.
    InputBound { view: Entity },
    /// The voxelize pass has been issued.
    Voxelizing { view: Entity },
    /// The filter pass that makes mip level `level` has been issued.
    Mipmapping { view: Entity, level: u32 },
    /// Nothing is left to issue for the view.
    Done,
}

/// The state after one step from `state` for a view with the prepared volume
/// `prepared`, and the commands that the step issues. A bound view without a
/// prepared volume has nothing to do; one with a volume is voxelized, and
/// then its mip levels are made one after the other.
pub open spec fn spec_step(state: NodeState, prepared: Option<ViewGiVolumes>) -> (NodeState, Seq<GiCommand>) {
    match (state, prepared) {
        (NodeState::Idle, _) => (NodeState::Idle, Seq::empty()),
        (NodeState::InputBound { view }, Some(_)) => (
            NodeState::Voxelizing { view },
            seq![GiCommand::Voxelize],
        ),
        (NodeState::Voxelizing { view }, Some(p)) => if 1 < p.volume_texture.mip_level_count {
            (
                NodeState::Mipmapping { view, level: 1 },
                seq![GiCommand::Barrier, GiCommand::Downsample { source: 0, target: 1 }],
            )
        } else {
            (NodeState::Done, Seq::empty())
        },
        (NodeState::Mipmapping { view, level }, Some(p)) => if level + 1
            < p.volume_texture.mip_level_count {
            (
                NodeState::Mipmapping { view, level: (level + 1) as u32 },
                seq![
                    GiCommand::Barrier,
                    GiCommand::Downsample { source: level, target: (level + 1) as u32 },
                ],
            )
        } else {
            (NodeState::Done, Seq::empty())
        },
        _ => (NodeState::Done, Seq::empty()),
    }
}

/// What kind of value an input slot of the node takes.
#[derive(Clone, Copy, Debug, PartialEq, Eq, Structural)]
pub enum SlotKind {
    /// An entity of the render world.
    Entity,
}

/// An input slot of the node.
#[derive(Clone, Copy, Debug)]
pub struct InputSlot {
    pub name: &'static str,
    pub kind: SlotKind,
}

/// The node of the render graph that voxelizes the scene into the volume of
/// one view and then builds the volume's mip chain. One node serves one view
/// for one frame.
#[derive(Clone, Copy, Debug)]
pub struct VoxelizePassNode {
    state: NodeState,
}

impl VoxelizePassNode {
    /// The name of the input slot that carries the view.
    pub const IN_VIEW: &'static str = "view";

    /// Where the node stands.
    pub closed spec fn spec_state(&self) -> NodeState {
        self.state
    }

    /// A node that no view is bound to.
    pub fn new() -> (node: Self)
        ensures
            node.state() == NodeState::Idle,
    {
        VoxelizePassNode { state: NodeState::Idle }
    }

    /// Where the node stands.
    #[verifier::when_used_as_spec(spec_state)]
    pub fn state(&self) -> (state: NodeState)
        ensures
            state == self.spec_state(),
    {
        self.state
    }

    /// The input slots of the node: the view, an entity.
    pub fn input(&self) -> (slots: Vec<InputSlot>)
        ensures
            slots@.len() == 1,
            slots@[0].name@ == "view"@,
            slots@[0].kind == SlotKind::Entity,
    {
        let mut slots: Vec<InputSlot> = Vec::new();
        slots.push(InputSlot { name: Self::IN_VIEW, kind: SlotKind::Entity });
        slots
    }

    /// Binds `view` to the node, whatever the node was doing.
    pub fn bind_input(&mut self, view: Entity)
        ensures
            final(self).state() == (NodeState::InputBound { view }),
    {
        self.state = NodeState::InputBound { view };
    }

    /// Takes one step of the node's work for a view whose prepared volume is
    /// `prepared`, and appends the commands of that step to `commands`.
    pub fn step(&mut self, prepared: Option<ViewGiVolumes>, commands: &mut Vec<GiCommand>)
        ensures
            final(self).state() == spec_step(old(self).state(), prepared).0,
            final(commands)@ == old(commands)@ + spec_step(old(self).state(), prepared).1,
    {
        let ghost before = commands@;
        match (self.state, prepared) {
            (NodeState::Idle, _) => {
                assert(commands@ =~= before + Seq::<GiCommand>::empty());
            },
            (NodeState::InputBound { view }, Some(_)) => {
                commands.push(GiCommand::Voxelize);
                self.state = NodeState::Voxelizing { view };
                assert(commands@ =~= before + seq![GiCommand::Voxelize]);
            },
            (NodeState::Voxelizing { view }, Some(p)) => {
                if 1 < p.volume_texture.mip_level_count {
                    commands.push(GiCommand::Barrier);
                    commands.push(GiCommand::Downsample { source: 0, target: 1 });
                    self.state = NodeState::Mipmapping { view, level: 1 };
                    assert(commands@ =~= before + seq![
                        GiCommand::Barrier,
                        GiCommand::Downsample { source: 0, target: 1 },
                    ]);
                } else {
                    self.state = NodeState::Done;
                    assert(commands@ =~= before + Seq::<GiCommand>::empty());
                }
            },
            (NodeState::Mipmapping { view, level }, Some(p)) => {
                if level < p.volume_texture.mip_level_count && level + 1
                    < p.volume_texture.mip_level_count {
                    commands.push(GiCommand::Barrier);
                    commands.push(GiCommand::Downsample { source: level, target: level + 1 });
                    self.state = NodeState::Mipmapping { view, level: level + 1 };
                    assert(commands@ =~= before + seq![
                        GiCommand::Barrier,
                        GiCommand::Downsample { source: level, target: (level + 1) as u32 },
                    ]);
                } else {
                    self.state = NodeState::Done;
                    assert(commands@ =~= before + Seq::<GiCommand>::empty());
                }
            },
            _ => {
                self.state = NodeState::Done;
                assert(commands@ =~= before + Seq::<GiCommand>::empty());
            },
        }
    }

    /// Does the node's work of one frame for `view`: binds the view and
    /// steps until nothing is left to issue. Returns the commands to record,
    /// in order: the schedule of the view's texture, and nothing for a view
    /// that no volume was prepared for.
    pub fn run(&mut self, view: Entity, prepared: Option<ViewGiVolumes>) -> (commands: Vec<GiCommand>)
        ensures
            commands@ == spec_view_commands(prepared),
            prepared is None ==> commands@.len() == 0,
            mip_order_respected(commands@),
            final(self).state() == NodeState::Done,
    {
        let mut commands: Vec<GiCommand> = Vec::new();
        self.bind_input(view);
        self.step(prepared, &mut commands);
        let volume = match prepared {
            None => {
                assert(commands@ =~= Seq::<GiCommand>::empty());
                return commands;
            },
            Some(p) => p,
        };
        let levels = volume.volume_texture.mip_level_count;
        let ghost schedule = spec_schedule(levels);
        assert(commands@ =~= schedule.take(1));
        self.step(prepared, &mut commands);
        if levels <= 1 {
            assert(commands@ =~= schedule);
            proof {
                lemma_schedule_respects_mip_order(levels);
            }
            return commands;
        }
        assert(commands@ =~= schedule.take(3));
        let mut level: u32 = 1;
        while level + 1 < levels
            invariant
                1 <= level < levels,
                prepared == Some(volume),
                levels == volume.volume_texture.mip_level_count,
                schedule == spec_schedule(levels),
                self.state() == (NodeState::Mipmapping { view, level }),
                commands@ == schedule.take(2 * level + 1),
            decreases levels - level,
        {
            self.step(prepared, &mut commands);
            level = level + 1;
            assert(commands@ =~= schedule.take(2 * level + 1));
        }
        self.step(prepared, &mut commands);
        proof {
            assert(commands@ =~= schedule);
            lemma_schedule_respects_mip_order(levels);
        }
        commands
    }
}

/// The last of the commands before `end` that writes `level`.
fn last_write(commands: &Vec<GiCommand>, level: u32, end: usize) -> (found: Option<usize>)
    requires
        end <= commands@.len(),
    ensures
        match found {
            Some(write) => write < end && commands@[write as int].written_level() == Some(level)
                && forall|k: int| write < k < end ==> (#[trigger] commands@[k]).written_level() != Some(level),
            None => forall|k: int| 0 <= k < end ==> (#[trigger] commands@[k]).written_level() != Some(level),
        },
{
    let mut position: usize = end;
    while position > 0
        invariant
            position <= end <= commands@.len(),
            forall|k: int| position <= k < end ==> (#[trigger] commands@[k]).written_level() != Some(level),
        decreases position,
    {
        position = position - 1;
        match commands[position].written_level() {
            Some(written) => {
                if written == level {
                    return Some(position);
                }
            },
            None => {},
        }
    }
    None
}

/// Whether a barrier stands behind `after` and before `before`.
fn barrier_between(commands: &Vec<GiCommand>, after: usize, before: usize) -> (found: bool)
    requires
        before <= commands@.len(),
    ensures
        found == fenced_before(commands@, after as int, before as int),
{
    if after >= before {
        return false;
    }
    let mut position: usize = after + 1;
    while position < before
        invariant
            after < position,
            before <= commands@.len(),
            forall|b: int| after < b < position ==> !((#[trigger] commands@[b]) is Barrier),
        decreases before - position,
    {
        match commands[position] {
            GiCommand::Barrier => {
                return true;
            },
            _ => {},
        }
        position = position + 1;
    }
    false
}

/// Whether the command at `from` or a later one writes `level`.
fn written_in_rest(commands: &Vec<GiCommand>, level: u32, from: usize) -> (found: bool)
    requires
        from <= commands@.len(),
    ensures
        found == written_from(commands@, level, from as int),
{
    let mut position: usize = from;
    while position < commands.len()
        invariant
            from <= position <= commands@.len(),
            forall|k: int| from <= k < position ==> (#[trigger] commands@[k]).written_level() != Some(level),
        decreases commands@.len() - position,
    {
        match commands[position].written_level() {
            Some(written) => {
                if written == level {
                    return true;
                }
            },
            None => {},
        }
        position = position + 1;
    }
    false
}

/// Goes through `commands` in the order in which they would run and says
/// whether every command reads final data only.
pub fn respects_mip_order(commands: &Vec<GiCommand>) -> (ok: bool)
    ensures
        ok == mip_order_respected(commands@),
{
    let mut position: usize = 0;
    while position < commands.len()
        invariant
            position <= commands@.len(),
            forall|p: int| 0 <= p < position ==> #[trigger] reads_finalized_at(commands@, p),
        decreases commands@.len() - position,
    {
        match commands[position].read_level() {
            Some(level) => {
                let finalized = match last_write(commands, level, position) {
                    Some(write) => {
                        let fenced = barrier_between(commands, write, position);
                        proof {
                            if fenced {
                                let barrier = choose|b: int|
                                    write < b < position && (#[trigger] commands@[b]) is Barrier;
                                assert forall|w: int|
                                    #![trigger commands@[w]]
                                    0 <= w < position && commands@[w].written_level() == Some(
                                        level,
                                    ) implies fenced_before(commands@, w, position as int) by {
                                    assert(w <= write);
                                    assert(w < barrier < position && commands@[barrier] is Barrier);
                                }
                            }
                        }
                        fenced
                    },
                    None => false,
                };
                assert(finalized == finalized_before(commands@, level, position as int));
                let rewritten = written_in_rest(commands, level, position);
                if !finalized || rewritten {
                    assert(!reads_finalized_at(commands@, position as int));
                    return false;
                }
            },
            None => {},
        }
        position = position + 1;
    }
    true
}

/// In a frame whose scene holds no volume, nothing is extracted, no view is
/// prepared, the uniform buffer stays empty, and the node issues nothing for
/// any view.
pub proof fn lemma_no_volume_no_work(views: Seq<Entity>, projections: Seq<[u32; 16]>, limit: u32)
    ensures
        crate::extract::spec_extract(Seq::empty()) is None,
        crate::prepare::spec_frame_texture(None, limit) == Ok::<
            Option<crate::texture::VolumeTextureDescriptor>,
            crate::error::GiError,
        >(None),
        crate::prepare::spec_prepared_views(None, views).len() == 0,
        crate::prepare::spec_prepared_records(None, projections, views.len(), limit).len() == 0,
        spec_view_commands(None).len() == 0,
{
}

} // verus!

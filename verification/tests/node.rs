use bevy::ecs::entity::Entity;
use voxel_gi::node::respects_mip_order;
use voxel_gi::node::GiCommand;
use voxel_gi::node::NodeState;
use voxel_gi::node::SlotKind;
use voxel_gi::node::VoxelizePassNode;
use voxel_gi::prepare::ViewGiVolumes;
use voxel_gi::texture::VolumeDimension;
use voxel_gi::texture::VolumeFormat;
use voxel_gi::texture::VolumeTextureDescriptor;
use voxel_gi::texture::VolumeUsage;

fn prepared_view(view: Entity, mip_level_count: u32) -> ViewGiVolumes {
    ViewGiVolumes {
        view,
        volume_texture: VolumeTextureDescriptor { width: 64, height: 64, depth: 192, mip_level_count, sample_count: 1, dimension: VolumeDimension::D3, format: VolumeFormat::Rgba32Float, usage: VolumeUsage { sampled: true, storage: true } },
        gpu_volume_binding_index: 0,
    }
}

fn down(source: u32, target: u32) -> GiCommand {
    GiCommand::Downsample { source, target }
}

#[test]
fn new_node_is_idle() {
    assert!(matches!(VoxelizePassNode::new().state(), NodeState::Idle));
}

#[test]
fn node_takes_the_view_as_its_only_input() {
    assert_eq!(VoxelizePassNode::IN_VIEW, "view");
    let slots = VoxelizePassNode::new().input();
    assert_eq!(slots.len(), 1);
    assert_eq!(slots[0].name, "view");
    assert_eq!(slots[0].kind, SlotKind::Entity);
}

#[test]
fn binding_a_view_moves_to_input_bound() {
    let view = Entity::from_raw(7);
    let mut node = VoxelizePassNode::new();
    node.bind_input(view);
    assert!(matches!(node.state(), NodeState::InputBound { view: v } if v == view));
}

#[test]
fn idle_node_stays_idle_and_issues_nothing() {
    let mut node = VoxelizePassNode::new();
    let mut commands = Vec::new();
    node.step(Some(prepared_view(Entity::from_raw(1), 3)), &mut commands);
    assert!(matches!(node.state(), NodeState::Idle));
    assert!(commands.is_empty());
}

#[test]
fn view_without_volume_has_nothing_to_do() {
    let mut node = VoxelizePassNode::new();
    let commands = node.run(Entity::from_raw(1), None);
    assert!(commands.is_empty());
    assert!(matches!(node.state(), NodeState::Done));
}

#[test]
fn steps_go_from_voxelize_through_the_mip_levels_to_done() {
    let view = Entity::from_raw(3);
    let prepared = Some(prepared_view(view, 3));
    let mut node = VoxelizePassNode::new();
    let mut commands = Vec::new();
    node.bind_input(view);
    node.step(prepared, &mut commands);
    assert!(matches!(node.state(), NodeState::Voxelizing { view: v } if v == view));
    assert_eq!(commands, vec![GiCommand::Voxelize]);
    node.step(prepared, &mut commands);
    assert!(matches!(node.state(), NodeState::Mipmapping { view: v, level: 1 } if v == view));
    assert_eq!(commands, vec![GiCommand::Voxelize, GiCommand::Barrier, down(0, 1)]);
    node.step(prepared, &mut commands);
    assert!(matches!(node.state(), NodeState::Mipmapping { view: v, level: 2 } if v == view));
    node.step(prepared, &mut commands);
    assert!(matches!(node.state(), NodeState::Done));
    node.step(prepared, &mut commands);
    assert!(matches!(node.state(), NodeState::Done));
    assert_eq!(
        commands,
        vec![GiCommand::Voxelize, GiCommand::Barrier, down(0, 1), GiCommand::Barrier, down(1, 2)]
    );
}

#[test]
fn run_issues_the_whole_schedule() {
    let view = Entity::from_raw(3);
    let mut node = VoxelizePassNode::new();
    let commands = node.run(view, Some(prepared_view(view, 7)));
    assert_eq!(commands.len(), 13);
    assert_eq!(commands[0], GiCommand::Voxelize);
    for level in 1..7u32 {
        assert_eq!(commands[2 * level as usize - 1], GiCommand::Barrier);
        assert_eq!(commands[2 * level as usize], down(level - 1, level));
    }
    assert!(matches!(node.state(), NodeState::Done));
    assert!(respects_mip_order(&commands));
}

#[test]
fn run_on_a_single_level_only_voxelizes() {
    let view = Entity::from_raw(3);
    assert_eq!(VoxelizePassNode::new().run(view, Some(prepared_view(view, 1))), vec![GiCommand::Voxelize]);
    assert_eq!(VoxelizePassNode::new().run(view, Some(prepared_view(view, 0))), vec![GiCommand::Voxelize]);
}

#[test]
fn losing_the_volume_midway_ends_the_work() {
    let view = Entity::from_raw(3);
    let mut node = VoxelizePassNode::new();
    let mut commands = Vec::new();
    node.bind_input(view);
    node.step(Some(prepared_view(view, 4)), &mut commands);
    node.step(None, &mut commands);
    assert!(matches!(node.state(), NodeState::Done));
    assert_eq!(commands, vec![GiCommand::Voxelize]);
}

#[test]
fn commands_say_what_they_read_and_write() {
    assert_eq!(GiCommand::Voxelize.written_level(), Some(0));
    assert_eq!(GiCommand::Voxelize.read_level(), None);
    assert_eq!(GiCommand::Barrier.written_level(), None);
    assert_eq!(GiCommand::Barrier.read_level(), None);
    assert_eq!(down(2, 3).written_level(), Some(3));
    assert_eq!(down(2, 3).read_level(), Some(2));
}

#[test]
fn order_check_accepts_every_schedule() {
    let view = Entity::from_raw(1);
    for levels in 0..=32u32 {
        let commands = VoxelizePassNode::new().run(view, Some(prepared_view(view, levels)));
        assert!(respects_mip_order(&commands));
    }
    assert!(respects_mip_order(&Vec::new()));
}

#[test]
fn order_check_rejects_a_mip_level_made_before_its_source_is_written() {
    assert!(!respects_mip_order(&vec![down(0, 1)]));
    assert!(!respects_mip_order(&vec![GiCommand::Barrier, down(0, 1)]));
    assert!(!respects_mip_order(&vec![down(0, 1), GiCommand::Voxelize, GiCommand::Barrier]));
    assert!(!respects_mip_order(&vec![
        GiCommand::Voxelize,
        GiCommand::Barrier,
        down(1, 2),
        GiCommand::Barrier,
        down(0, 1),
    ]));
}

#[test]
fn order_check_rejects_a_write_behind_the_last_barrier() {
    assert!(!respects_mip_order(&vec![GiCommand::Voxelize, GiCommand::Barrier, GiCommand::Voxelize, down(0, 1)]));
    assert!(!respects_mip_order(&vec![
        GiCommand::Voxelize,
        GiCommand::Barrier,
        down(0, 1),
        GiCommand::Barrier,
        down(2, 1),
        down(1, 2),
    ]));
    assert!(respects_mip_order(&vec![
        GiCommand::Voxelize,
        GiCommand::Barrier,
        GiCommand::Voxelize,
        GiCommand::Barrier,
        down(0, 1),
    ]));
}

#[test]
fn order_check_rejects_a_missing_barrier() {
    assert!(!respects_mip_order(&vec![GiCommand::Voxelize, down(0, 1)]));
    assert!(!respects_mip_order(&vec![GiCommand::Barrier, GiCommand::Voxelize, down(0, 1)]));
    assert!(!respects_mip_order(&vec![GiCommand::Voxelize, GiCommand::Barrier, down(0, 1), down(1, 2)]));
}

#[test]
fn order_check_rejects_a_write_to_a_level_that_is_being_read() {
    assert!(!respects_mip_order(&vec![GiCommand::Voxelize, GiCommand::Barrier, down(0, 0)]));
    assert!(!respects_mip_order(&vec![
        GiCommand::Voxelize,
        GiCommand::Barrier,
        down(0, 1),
        GiCommand::Barrier,
        GiCommand::Voxelize,
    ]));
}

#[test]
fn order_check_accepts_orders_without_hazard() {
    assert!(respects_mip_order(&vec![GiCommand::Voxelize]));
    assert!(respects_mip_order(&vec![GiCommand::Barrier, GiCommand::Barrier]));
    assert!(respects_mip_order(&vec![
        GiCommand::Voxelize,
        GiCommand::Barrier,
        GiCommand::Barrier,
        down(0, 1),
        down(0, 2),
    ]));
}

use mandelbrot_shader::pipeline::DispatchProgram;
use mandelbrot_shader::pipeline::MandelbrotNode;
use mandelbrot_shader::pipeline::MandelbrotState;
use mandelbrot_shader::pipeline::workgroup_grid;

#[test]
fn node_starts_loading() {
    let node = MandelbrotNode::default();
    assert_eq!(node.state, MandelbrotState::Loading);
}

#[test]
fn readiness_promotes_each_state_exactly_once() {
    let mut node = MandelbrotNode::default();
    node.update(false, false);
    assert_eq!(node.state, MandelbrotState::Loading);
    node.update(true, false);
    assert_eq!(node.state, MandelbrotState::Init);
    node.update(true, false);
    assert_eq!(node.state, MandelbrotState::Init);
    node.update(false, true);
    assert_eq!(node.state, MandelbrotState::Update);
    node.update(true, true);
    assert_eq!(node.state, MandelbrotState::Update);
    node.update(false, false);
    assert_eq!(node.state, MandelbrotState::Update);
}

#[test]
fn loading_waits_for_init_readiness_only() {
    let mut node = MandelbrotNode::default();
    node.update(false, true);
    assert_eq!(node.state, MandelbrotState::Loading);
    node.update(true, true);
    assert_eq!(node.state, MandelbrotState::Init);
}

#[test]
fn dispatch_follows_state() {
    let mut node = MandelbrotNode::default();
    assert!(node.run().is_none());
    node.update(true, false);
    let call = node.run().unwrap();
    assert_eq!(call.program, DispatchProgram::Init);
    assert_eq!((call.x, call.y, call.z), (160, 90, 1));
    node.update(false, true);
    let call = node.run().unwrap();
    assert_eq!(call.program, DispatchProgram::Update);
    assert_eq!((call.x, call.y, call.z), (160, 90, 1));
}

#[test]
fn grid_covers_simulation_resolution_exactly() {
    assert_eq!(workgroup_grid(1280, 720), (160, 90, 1));
}

#[test]
fn grid_rounds_up_non_divisible_sizes() {
    assert_eq!(workgroup_grid(1281, 721), (161, 91, 1));
    assert_eq!(workgroup_grid(1, 8), (1, 1, 1));
    assert_eq!(workgroup_grid(0, 0), (0, 0, 1));
}

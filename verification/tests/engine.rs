//! The audio engine's graph bookkeeping.

use cidre::av::audio::{ConnectionPoint, Engine, Node};

#[test]
fn engine_basics() {
    let engine = Engine::new();
    assert!(!engine.is_running());
    let _output_node = engine.output_node();
    let input_node = engine.input_node();
    let _en = input_node.engine().expect("engine");
}

/// A fresh engine already holds its one implicit connection: the main
/// mixer feeding the output node.
#[test]
fn fresh_engine_connects_mixer_to_output() {
    let engine = Engine::new();
    assert_eq!(engine.connection_count(), 1);
    let mixer = *engine.main_mixer_node();
    let mixer_again = *engine.main_mixer_node();
    assert_eq!(mixer, mixer_again);
    // Accessing the singletons adds nothing: the edge was there from the
    // start and stays exactly one.
    let _ = engine.output_node();
    assert_eq!(engine.connection_count(), 1);
}

#[test]
fn start_stop_pause() {
    let mut engine = Engine::new();
    assert!(engine.start().is_ok());
    assert!(engine.is_running());
    engine.pause();
    assert!(!engine.is_running());
    assert!(engine.start().is_ok());
    engine.stop();
    assert!(!engine.is_running());
}

#[test]
fn attach_is_idempotent() {
    let mut engine = Engine::new();
    let player = Node::with_id(10);
    assert!(!engine.is_attached(&player));
    engine.attach_node(&player);
    assert!(engine.is_attached(&player));
    engine.attach_node(&player);
    assert!(engine.is_attached(&player));
}

#[test]
fn connecting_breaks_the_old_input_feed() {
    let mut engine = Engine::new();
    let player = Node::with_id(10);
    let effect = Node::with_id(11);
    engine.attach_node(&player);
    engine.attach_node(&effect);

    let mixer = *engine.main_mixer_node();
    engine.connect_node_to_node(&player, &mixer, None);
    assert_eq!(engine.connection_count(), 2);

    // A second feed into the same input bus replaces the first; the
    // implicit mixer-to-output edge is untouched.
    engine.connect_node_to_node(&effect, &mixer, None);
    assert_eq!(engine.connection_count(), 2);
}

#[test]
fn detach_removes_the_nodes_connections() {
    let mut engine = Engine::new();
    let player = Node::with_id(10);
    engine.attach_node(&player);
    let mixer = *engine.main_mixer_node();
    engine.connect_node_to_node(&player, &mixer, None);
    assert_eq!(engine.connection_count(), 2);

    engine.detach_node(&player);
    assert!(!engine.is_attached(&player));
    // Only the implicit mixer-to-output edge is left.
    assert_eq!(engine.connection_count(), 1);
}

#[test]
fn fan_out_connects_each_point() {
    let mut engine = Engine::new();
    let player = Node::with_id(10);
    let fx_a = Node::with_id(11);
    let fx_b = Node::with_id(12);
    engine.attach_node(&player);
    engine.attach_node(&fx_a);
    engine.attach_node(&fx_b);

    let points = vec![
        ConnectionPoint { node_id: 11, bus: 0 },
        ConnectionPoint { node_id: 12, bus: 0 },
    ];
    engine.connect_node_to_connection_points_from_bus(&player, &points, 0, None);
    assert_eq!(engine.connection_count(), 3);

    engine.disconnect_node_output(&player);
    assert_eq!(engine.connection_count(), 1);
}

#[test]
fn disconnect_input_bus_is_selective() {
    let mut engine = Engine::new();
    let a = Node::with_id(20);
    let b = Node::with_id(21);
    engine.attach_node(&a);
    engine.attach_node(&b);
    let mixer = *engine.main_mixer_node();

    engine.connect_node_to_node_bus_to_bus(&a, &mixer, 0, 0, None);
    engine.connect_node_to_node_bus_to_bus(&b, &mixer, 0, 1, None);
    assert_eq!(engine.connection_count(), 3);

    engine.disconnect_node_input_bus(&mixer, 0);
    assert_eq!(engine.connection_count(), 2);
    // Disconnecting the mixer's inputs leaves its own feed into the
    // output node alone.
    engine.disconnect_node_input(&mixer);
    assert_eq!(engine.connection_count(), 1);
}

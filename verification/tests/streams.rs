use std::sync::Arc;

use ram::active_stream::{ActiveInputStream, ActiveOutputStream, StreamConfig};
use ram::ring_buffer_pool::RingBufferPool;
use ram::routing_table::RoutingTable;
use ram::api_models::StreamDirection;
use ram::stream_registry::{stream_infos, StreamRegistry};

// The stream records are generic over the context their callbacks run with;
// these tests hand them the pool (and routing table) such a context holds.
type InputContext = RingBufferPool;
type OutputContext = (RoutingTable, RingBufferPool);
type Registry = StreamRegistry<InputContext, OutputContext>;

fn create_test_input_stream(device_id: &str) -> Arc<ActiveInputStream<InputContext>> {
    let pool = Arc::new(RingBufferPool::new(8, 256));
    Arc::new(ActiveInputStream::new(
        &format!("input-{device_id}"),
        device_id,
        StreamConfig::default(),
        vec![],
        pool,
    ))
}

fn create_test_output_stream(device_id: &str) -> Arc<ActiveOutputStream<OutputContext>> {
    let context = Arc::new((RoutingTable::new(), RingBufferPool::new(8, 256)));
    Arc::new(ActiveOutputStream::new(
        &format!("output-{device_id}"),
        device_id,
        StreamConfig::default(),
        vec![],
        context,
    ))
}

// Callbacks per stream, 0.0 over no streams (floating point, which the
// library leaves to its callers).
fn average_callbacks(total: u64, streams: usize) -> f64 {
    if streams == 0 {
        0.0
    } else {
        total as f64 / streams as f64
    }
}

#[test]
fn active_input_stream_creation() {
    let mut pool = RingBufferPool::new(8, 256);
    let idx0 = pool.allocate().unwrap();
    let idx1 = pool.allocate().unwrap();
    let context = Arc::new(pool);

    let stream = ActiveInputStream::new("stream-1", "device-1", StreamConfig::default(), vec![idx0, idx1], context);

    assert_eq!(stream.id(), "stream-1");
    assert_eq!(stream.device_id(), "device-1");
    assert_eq!(stream.channel_count(), 2);
    assert!(!stream.is_running());
}

#[test]
fn active_input_stream_running_state() {
    let context = Arc::new(RingBufferPool::new(8, 256));

    let stream = ActiveInputStream::new("stream", "device", StreamConfig::default(), vec![], context);

    assert!(!stream.is_running());
    stream.set_running(true);
    assert!(stream.is_running());
    stream.set_running(false);
    assert!(!stream.is_running());
}

#[test]
fn active_output_stream_creation() {
    let context = Arc::new((RoutingTable::new(), RingBufferPool::new(8, 256)));

    let stream = ActiveOutputStream::new("stream-2", "device-2", StreamConfig::default(), vec![0, 1], context);

    assert_eq!(stream.id(), "stream-2");
    assert_eq!(stream.device_id(), "device-2");
    assert_eq!(stream.channel_count(), 2);
    assert!(!stream.is_running());
}

#[test]
fn active_output_stream_running_state() {
    let context = Arc::new((RoutingTable::new(), RingBufferPool::new(8, 256)));

    let stream = ActiveOutputStream::new("stream", "device", StreamConfig::default(), vec![], context);

    assert!(!stream.is_running());
    stream.set_running(true);
    assert!(stream.is_running());
}

#[test]
fn new_registry_is_empty() {
    let registry = Registry::new();
    assert!(registry.is_empty());
    assert_eq!(registry.input_count(), 0);
    assert_eq!(registry.output_count(), 0);
    assert_eq!(registry.total_count(), 0);
}

#[test]
fn register_input_stream() {
    let mut registry = Registry::new();
    let stream = create_test_input_stream("device-1");

    registry.register_input(stream);

    assert!(registry.has_input("device-1"));
    assert!(!registry.has_input("device-2"));
    assert_eq!(registry.input_count(), 1);
}

#[test]
fn get_input_stream() {
    let mut registry = Registry::new();
    let stream = create_test_input_stream("device-1");

    registry.register_input(Arc::clone(&stream));

    let retrieved = registry.get_input("device-1");
    assert!(retrieved.is_some());
    assert_eq!(retrieved.unwrap().id(), stream.id());

    assert!(registry.get_input("nonexistent").is_none());
}

#[test]
fn unregister_input_stream() {
    let mut registry = Registry::new();
    let stream = create_test_input_stream("device-1");

    registry.register_input(stream);
    assert!(registry.has_input("device-1"));

    let removed = registry.unregister_input("device-1");
    assert!(removed.is_some());
    assert!(!registry.has_input("device-1"));
    assert_eq!(registry.input_count(), 0);
}

#[test]
fn register_output_stream() {
    let mut registry = Registry::new();
    let stream = create_test_output_stream("device-1");

    registry.register_output(stream);

    assert!(registry.has_output("device-1"));
    assert_eq!(registry.output_count(), 1);
}

#[test]
fn get_output_stream() {
    let mut registry = Registry::new();
    let stream = create_test_output_stream("device-1");

    registry.register_output(Arc::clone(&stream));

    let retrieved = registry.get_output("device-1");
    assert!(retrieved.is_some());
    assert_eq!(retrieved.unwrap().id(), stream.id());
}

#[test]
fn unregister_output_stream() {
    let mut registry = Registry::new();
    let stream = create_test_output_stream("device-1");

    registry.register_output(stream);
    assert!(registry.has_output("device-1"));

    let removed = registry.unregister_output("device-1");
    assert!(removed.is_some());
    assert!(!registry.has_output("device-1"));
}

#[test]
fn multiple_streams() {
    let mut registry = Registry::new();

    registry.register_input(create_test_input_stream("input-1"));
    registry.register_input(create_test_input_stream("input-2"));
    registry.register_output(create_test_output_stream("output-1"));

    assert_eq!(registry.input_count(), 2);
    assert_eq!(registry.output_count(), 1);
    assert_eq!(registry.total_count(), 3);
    assert!(!registry.is_empty());
}

#[test]
fn device_ids() {
    let mut registry = Registry::new();

    registry.register_input(create_test_input_stream("input-a"));
    registry.register_input(create_test_input_stream("input-b"));
    registry.register_output(create_test_output_stream("output-a"));

    let input_ids = registry.input_device_ids();
    assert_eq!(input_ids.len(), 2);
    assert!(input_ids.contains(&"input-a".to_string()));
    assert!(input_ids.contains(&"input-b".to_string()));

    let output_ids = registry.output_device_ids();
    assert_eq!(output_ids.len(), 1);
    assert!(output_ids.contains(&"output-a".to_string()));
}

#[test]
fn clear_removes_all() {
    let mut registry = Registry::new();

    registry.register_input(create_test_input_stream("input-1"));
    registry.register_output(create_test_output_stream("output-1"));
    assert_eq!(registry.total_count(), 2);

    registry.clear();

    assert!(registry.is_empty());
    assert_eq!(registry.input_count(), 0);
    assert_eq!(registry.output_count(), 0);
}

#[test]
fn replace_existing_stream() {
    let mut registry = Registry::new();

    let stream1 = create_test_input_stream("device-1");
    let stream2 = create_test_input_stream("device-1");

    registry.register_input(Arc::clone(&stream1));
    assert_eq!(registry.input_count(), 1);

    registry.register_input(Arc::clone(&stream2));
    assert_eq!(registry.input_count(), 1);

    // Should have the second stream
    let retrieved = registry.get_input("device-1").unwrap();
    assert!(Arc::ptr_eq(&retrieved, &stream2));
    assert_eq!(retrieved.id(), stream2.id());
}

#[test]
fn aggregate_stats() {
    let mut registry = Registry::new();

    let stream1 = create_test_input_stream("device-1");
    stream1.stats().record_callback();
    stream1.stats().record_callback();

    let stream2 = create_test_input_stream("device-2");
    stream2.stats().record_callback();
    stream2.stats().record_underrun();

    registry.register_input(stream1);
    registry.register_input(stream2);

    let stats = registry.input_stats();
    assert_eq!(stats.stream_count, 2);
    assert_eq!(stats.total_callbacks, 3);
    assert_eq!(stats.total_underruns, 1);
    assert_eq!(stats.total_overruns, 0);
    assert!((average_callbacks(stats.total_callbacks, stats.stream_count) - 1.5).abs() < 0.001);
}

#[test]
fn aggregate_stats_empty() {
    let registry = Registry::new();

    let stats = registry.input_stats();
    assert_eq!(stats.stream_count, 0);
    assert_eq!(stats.total_callbacks, 0);
    assert!((average_callbacks(stats.total_callbacks, stats.stream_count) - 0.0).abs() < 0.001);
}

#[test]
fn unregister_returns_the_stream_and_streams_list_each_once() {
    let mut registry = Registry::new();
    let a = create_test_input_stream("device-a");
    let b = create_test_input_stream("device-b");
    registry.register_input(Arc::clone(&a));
    registry.register_input(Arc::clone(&b));
    registry.register_input(Arc::clone(&a));
    let listed = registry.input_streams();
    assert_eq!(listed.len(), 2);
    let removed = registry.unregister_input("device-a").unwrap();
    assert!(Arc::ptr_eq(&removed, &a));
    assert!(registry.unregister_input("device-a").is_none());
    assert_eq!(registry.input_count(), 1);
    let out = create_test_output_stream("device-a");
    registry.register_output(out);
    assert_eq!(registry.output_stats().stream_count, 1);
    assert_eq!(registry.total_count(), 2);
}

#[test]
fn stream_infos_list_inputs_then_outputs() {
    let mut registry = Registry::new();
    registry.register_output(create_test_output_stream("speakers"));
    registry.register_input(create_test_input_stream("mic"));
    let infos = stream_infos(&registry);
    assert_eq!(infos.len(), 2);
    assert_eq!(infos[0].device_id, "mic");
    assert_eq!(infos[0].device_name, "mic");
    assert_eq!(infos[0].direction, StreamDirection::Input);
    assert_eq!(infos[0].channels, 2);
    assert_eq!(infos[0].sample_rate, 48000);
    assert!(!infos[0].running);
    assert_eq!(infos[1].device_id, "speakers");
    assert_eq!(infos[1].direction, StreamDirection::Output);
}

#[test]
fn for_each_input() {
    let mut registry = Registry::new();

    registry.register_input(create_test_input_stream("device-1"));
    registry.register_input(create_test_input_stream("device-2"));

    let mut count = 0;
    for _stream in registry.input_streams() {
        count += 1;
    }

    assert_eq!(count, 2);
}

#[test]
fn for_each_output() {
    let mut registry = Registry::new();

    registry.register_output(create_test_output_stream("device-1"));
    registry.register_output(create_test_output_stream("device-2"));
    registry.register_output(create_test_output_stream("device-3"));

    let mut count = 0;
    for _stream in registry.output_streams() {
        count += 1;
    }

    assert_eq!(count, 3);
}

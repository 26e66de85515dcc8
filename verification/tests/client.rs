use std::cell::Cell;

use tonic::metadata::MetadataMap;
use vector_service::binary32::Binary32;
use vector_service::carrier;
use vector_service::client::{vector_dot_product, vector_norm};
use vector_service::message::{
    DotProductRequest, DotProductResponse, InvalidArgument, VectorNormRequest, VectorNormResponse,
};
use vector_service::server::VectorServiceServerImpl;

fn scalar(x: f32) -> Binary32 {
    Binary32::from_bits(x.to_bits())
}

fn float(x: Binary32) -> f32 {
    f32::from_bits(x.to_bits())
}

fn kernel(a: &[f32], b: &[f32]) -> Binary32 {
    scalar(a.iter().zip(b.iter()).map(|(x, y)| x * y).sum())
}

fn root(x: Binary32) -> Binary32 {
    scalar(float(x).sqrt())
}

/// A transport that hands the request to a server in this process.
fn dot_product_in_process(
    request: DotProductRequest<f32>,
) -> Result<DotProductResponse, InvalidArgument> {
    VectorServiceServerImpl.dot_product(request, kernel)
}

fn vector_norm_in_process(
    request: VectorNormRequest<f32>,
) -> Result<VectorNormResponse, InvalidArgument> {
    VectorServiceServerImpl.vector_norm(request, kernel, root)
}

/// The same transport, with a trace context written into call metadata on
/// the way out and read back on the way in.
fn dot_product_in_process_traced(
    request: DotProductRequest<f32>,
) -> Result<DotProductResponse, InvalidArgument> {
    let mut metadata = MetadataMap::new();
    carrier::try_set(
        &mut metadata,
        "traceparent",
        "00-0af7651916cd43dd8448eb211c80319c-b7ad6b7169203331-01".to_string(),
    );
    assert_eq!(carrier::keys(&metadata), vec!["traceparent"]);
    assert!(carrier::get(&metadata, "traceparent").is_some());
    VectorServiceServerImpl.dot_product(request, kernel)
}

#[test]
fn client_call_of_dot_product_gives_thirty_two() {
    let r = vector_dot_product(vec![1.0f32, 2.0, 3.0], vec![4.0f32, 5.0, 6.0], dot_product_in_process);
    assert_eq!(float(r.ok().unwrap()), 32.0);
}

#[test]
fn client_call_of_dot_product_with_unequal_lengths_fails() {
    let r = vector_dot_product(vec![1.0f32, 2.0, 3.0], vec![4.0f32, 5.0], dot_product_in_process);
    let failure = r.err().unwrap();
    assert!(failure.message.contains("same length"));
}

#[test]
fn client_call_of_vector_norm_gives_five() {
    let r = vector_norm(vec![3.0f32, 4.0], vector_norm_in_process);
    assert_eq!(float(r.ok().unwrap()), 5.0);
}

#[test]
fn client_builds_the_request_from_its_operands() {
    let seen = Cell::new(false);
    let r: Result<Binary32, ()> = vector_dot_product(vec![1u8, 2], vec![3u8], |request| {
        assert_eq!(request.vector1, vec![1u8, 2]);
        assert_eq!(request.vector2, vec![3u8]);
        seen.set(true);
        Ok(DotProductResponse { result: Binary32::from_bits(77) })
    });
    assert!(seen.get());
    assert_eq!(r.unwrap().to_bits(), 77);
    let seen = Cell::new(false);
    let r: Result<Binary32, ()> = vector_norm(vec![9u8, 8, 7], |request| {
        assert_eq!(request.vector, vec![9u8, 8, 7]);
        seen.set(true);
        Ok(VectorNormResponse { result: Binary32::from_bits(78) })
    });
    assert!(seen.get());
    assert_eq!(r.unwrap().to_bits(), 78);
}

#[test]
fn client_calls_the_transport_once() {
    let calls = Cell::new(0u32);
    let r: Result<Binary32, ()> = vector_dot_product(vec![1.0f32], vec![1.0f32], |request| {
        calls.set(calls.get() + 1);
        dot_product_in_process(request).map_err(|_| ())
    });
    assert!(r.is_ok());
    assert_eq!(calls.get(), 1);
}

#[test]
fn client_hands_on_the_failure_of_the_transport() {
    let r = vector_dot_product(vec![1.0f32], vec![1.0f32], |_| Err("connection refused"));
    assert_eq!(r.err().unwrap(), "connection refused");
    let r = vector_norm(vec![1.0f32], |_| Err(503u16));
    assert_eq!(r.err().unwrap(), 503);
}

#[test]
fn client_calls_get_the_results_of_their_own_operands() {
    let mut results = Vec::new();
    for i in 0..20u32 {
        let a = i as f32;
        let first = vector_dot_product(vec![a, 1.0], vec![2.0, 3.0], dot_product_in_process);
        let second = vector_dot_product(vec![a], vec![a], dot_product_in_process);
        results.push((float(first.ok().unwrap()), float(second.ok().unwrap())));
    }
    for (i, (first, second)) in results.iter().enumerate() {
        let a = i as f32;
        assert_eq!(*first, 2.0 * a + 3.0);
        assert_eq!(*second, a * a);
    }
}

#[test]
fn client_calls_repeat_their_results() {
    let first = vector_dot_product(vec![0.1f32, 0.2], vec![0.3f32, 0.4], dot_product_in_process);
    let second = vector_dot_product(vec![0.1f32, 0.2], vec![0.3f32, 0.4], dot_product_in_process);
    assert_eq!(first.ok().unwrap().to_bits(), second.ok().unwrap().to_bits());
    let first = vector_norm(vec![0.1f32, 0.2], vector_norm_in_process);
    let second = vector_norm(vec![0.1f32, 0.2], vector_norm_in_process);
    assert_eq!(first.ok().unwrap().to_bits(), second.ok().unwrap().to_bits());
}

#[test]
fn a_trace_context_changes_no_outcome() {
    let plain = vector_dot_product(vec![1.0f32, 2.0, 3.0], vec![4.0f32, 5.0, 6.0], dot_product_in_process);
    let traced = vector_dot_product(
        vec![1.0f32, 2.0, 3.0],
        vec![4.0f32, 5.0, 6.0],
        dot_product_in_process_traced,
    );
    assert_eq!(plain.ok().unwrap().to_bits(), traced.ok().unwrap().to_bits());
    let plain = vector_dot_product(vec![1.0f32, 2.0, 3.0], vec![4.0f32, 5.0], dot_product_in_process);
    let traced = vector_dot_product(
        vec![1.0f32, 2.0, 3.0],
        vec![4.0f32, 5.0],
        dot_product_in_process_traced,
    );
    assert_eq!(plain.err().unwrap().message, traced.err().unwrap().message);
}

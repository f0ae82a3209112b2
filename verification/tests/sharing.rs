use axum::body::{to_bytes, Body};
use axum::http::{Request, Response};
use axum_maintenance::{MaintenanceLayer, MaintenanceState, Routed};
use std::convert::Infallible;
use std::future::{ready, Ready};
use std::sync::Arc;
use std::task::{Context, Poll};
use tokio::sync::RwLock;
use tower_service::Service;

fn block_on<F: std::future::Future>(future: F) -> F::Output {
    tokio::runtime::Builder::new_current_thread()
        .build()
        .unwrap()
        .block_on(future)
}

struct Hello;

impl Service<Request<Body>> for Hello {
    type Response = Response<Body>;
    type Error = Infallible;
    type Future = Ready<Result<Response<Body>, Infallible>>;

    fn poll_ready(&mut self, _cx: &mut Context<'_>) -> Poll<Result<(), Infallible>> {
        Poll::Ready(Ok(()))
    }

    fn call(&mut self, _req: Request<Body>) -> Self::Future {
        ready(Ok(Response::new(Body::from("hello"))))
    }
}

#[test]
fn handles_to_one_flag_see_each_other() {
    let first = Arc::new(RwLock::new(MaintenanceState::new()));
    let second = first.clone();
    block_on(async {
        assert!(!second.read().await.status());
        first.write().await.enable();
        assert!(second.read().await.status());
        second.write().await.disable();
        assert!(!first.read().await.status());
    });
}

#[test]
fn separate_flags_are_independent() {
    let mut first = MaintenanceState::new();
    let second = MaintenanceState::new();
    first.enable();
    assert!(first.status());
    assert!(!second.status());
}

#[test]
fn toggle_through_another_handle_is_seen_by_the_next_request() {
    let state = Arc::new(RwLock::new(MaintenanceState::new()));
    let toggle = state.clone();
    let mut middleware = MaintenanceLayer::new().layer(Hello);

    block_on(async {
        let mut statuses = Vec::new();
        let mut bodies = Vec::new();
        for round in 0..3 {
            if round == 1 {
                toggle.write().await.enable();
            }
            if round == 2 {
                toggle.write().await.disable();
            }
            let routed = {
                let flag = state.read().await;
                middleware.call(&flag, Request::new(Body::empty()))
            };
            let response = match routed {
                Routed::Respond(response) => response,
                Routed::Forward(req) => middleware.inner_mut().call(req).await.unwrap(),
            };
            statuses.push(response.status().as_u16());
            let bytes = to_bytes(response.into_body(), usize::MAX).await.unwrap();
            bodies.push(String::from_utf8(bytes.to_vec()).unwrap());
        }
        assert_eq!(statuses, vec![200, 503, 200]);
        assert_eq!(bodies[0], "hello");
        assert_eq!(
            bodies[1],
            "<h1>Maintenance</h1><p>Site is under maintenance. Please try again later.</p>"
        );
        assert_eq!(bodies[2], "hello");
    });
}

#[test]
fn toggle_from_another_task_is_seen_by_the_next_request() {
    let state = Arc::new(RwLock::new(MaintenanceState::new()));
    let middleware = MaintenanceLayer::new().layer(());

    block_on(async {
        let toggle = state.clone();
        tokio::spawn(async move {
            toggle.write().await.enable();
        })
        .await
        .unwrap();
        let routed = {
            let flag = state.read().await;
            middleware.call(&flag, "GET /")
        };
        assert!(matches!(routed, Routed::Respond(_)));

        let toggle = state.clone();
        tokio::spawn(async move {
            toggle.write().await.disable();
        })
        .await
        .unwrap();
        let routed = {
            let flag = state.read().await;
            middleware.call(&flag, "GET /")
        };
        assert!(matches!(routed, Routed::Forward("GET /")));
    });
}

use futures::future::{self, FutureResult};
use futures::{Future, Poll};
use never::Never;
use std::marker::PhantomData;
use std::sync::atomic::{AtomicBool, Ordering};
use std::sync::{Arc, Mutex};
use std::time::Duration;
use tower::builder::ServiceBuilder;
use tower::layer::Layer;
use tower_limit::concurrency::ConcurrencyLimitLayer as InFlightLimitLayer;
use tower_limit::rate::RateLimitLayer;
use tower_retry::{Policy, RetryLayer};
use tower_service::Service;
use void::Void;

type BoxError = Box<dyn std::error::Error + Send + Sync + 'static>;

/// A stand-in for `tower_buffer::BufferLayer`, whose released version leaves
/// memory uninitialized and aborts under current Rust. Like the real one it
/// builds a handle that can be cloned and boxes the handler's errors; unlike
/// it, it queues nothing.
struct BufferLayer<Request> {
    bound: usize,
    _p: PhantomData<fn(Request)>,
}

impl<Request> BufferLayer<Request> {
    fn new(bound: usize) -> Self {
        BufferLayer {
            bound,
            _p: PhantomData,
        }
    }
}

struct Buffer<S, Request> {
    inner: Arc<Mutex<S>>,
    bound: usize,
    _p: PhantomData<fn(Request)>,
}

impl<S, Request> Clone for Buffer<S, Request> {
    fn clone(&self) -> Self {
        Buffer {
            inner: self.inner.clone(),
            bound: self.bound,
            _p: PhantomData,
        }
    }
}

impl<S, Request> tower_layer::Layer<S> for BufferLayer<Request>
where
    S: Service<Request>,
    S::Error: Into<BoxError>,
{
    type Service = Buffer<S, Request>;

    fn layer(&self, service: S) -> Self::Service {
        Buffer {
            inner: Arc::new(Mutex::new(service)),
            bound: self.bound,
            _p: PhantomData,
        }
    }
}

impl<S, Request> Service<Request> for Buffer<S, Request>
where
    S: Service<Request>,
    S::Error: Into<BoxError>,
{
    type Response = S::Response;
    type Error = BoxError;
    type Future = future::MapErr<S::Future, fn(S::Error) -> BoxError>;

    fn poll_ready(&mut self) -> Poll<(), Self::Error> {
        assert!(self.bound > 0);
        self.inner.lock().unwrap().poll_ready().map_err(Into::into)
    }

    fn call(&mut self, request: Request) -> Self::Future {
        self.inner.lock().unwrap().call(request).map_err(Into::into)
    }
}

/// A middleware of `tower_layer`, whose wrapping cannot fail, as a layer.
struct Middleware<L>(L);

impl<S, L: tower_layer::Layer<S>> Layer<S> for Middleware<L> {
    type Service = L::Service;
    type LayerError = Never;

    fn layer(&self, inner: S) -> Result<L::Service, Never> {
        Ok(self.0.layer(inner))
    }
}

#[test]
fn builder_make_service() {
    let answered = Arc::new(AtomicBool::new(false));
    let seen = answered.clone();
    tokio::run(future::lazy(move || {
        let mut maker = ServiceBuilder::new()
            .chain(Middleware(BufferLayer::new(5)))
            .chain(Middleware(InFlightLimitLayer::new(5)))
            .chain(Middleware(RateLimitLayer::new(5, Duration::from_secs(1))))
            .build_maker(MockMaker);

        maker.maker_mut().poll_ready().unwrap();
        maker.maker_mut().call(()).then(move |made| {
            let mut client = match maker.decorate(made) {
                Ok(client) => client,
                Err(_) => panic!("this is bad"),
            };

            client.poll_ready().unwrap();
            client
                .call(Request)
                .map(move |_| seen.store(true, Ordering::SeqCst))
                .map_err(|_| panic!("this is bad"))
        })
    }));
    assert!(answered.load(Ordering::SeqCst));
}

#[test]
fn builder_service() {
    let answered = Arc::new(AtomicBool::new(false));
    let seen = answered.clone();
    tokio::run(future::lazy(move || {
        let mut client = ServiceBuilder::new()
            .chain(Middleware(BufferLayer::new(5)))
            .chain(Middleware(InFlightLimitLayer::new(5)))
            .chain(Middleware(RateLimitLayer::new(5, Duration::from_secs(1))))
            .build_svc(MockSvc)
            .unwrap();

        client.poll_ready().unwrap();
        client
            .call(Request)
            .map(move |_| seen.store(true, Ordering::SeqCst))
            .map_err(|_| panic!("this is bad"))
    }));
    assert!(answered.load(Ordering::SeqCst));
}

#[test]
fn builder_make_service_retry() {
    let answered = Arc::new(AtomicBool::new(false));
    let seen = answered.clone();
    tokio::run(future::lazy(move || {
        let policy = MockPolicy;

        let mut maker = ServiceBuilder::new()
            .chain(Middleware(BufferLayer::new(5)))
            .chain(Middleware(RetryLayer::new(policy)))
            .chain(Middleware(InFlightLimitLayer::new(5)))
            .chain(Middleware(RateLimitLayer::new(5, Duration::from_secs(1))))
            .build_maker(MockMaker);

        maker.maker_mut().poll_ready().unwrap();
        maker.maker_mut().call(()).then(move |made| {
            let mut client = match maker.decorate(made) {
                Ok(client) => client,
                Err(_) => panic!("this is bad"),
            };

            client.poll_ready().unwrap();
            client
                .call(Request)
                .map(move |_| seen.store(true, Ordering::SeqCst))
                .map_err(|_| panic!("this is bad"))
        })
    }));
    assert!(answered.load(Ordering::SeqCst));
}

#[derive(Debug)]
struct MockMaker;
impl Service<()> for MockMaker {
    type Response = MockSvc;
    type Error = Void;
    type Future = FutureResult<Self::Response, Self::Error>;

    fn poll_ready(&mut self) -> Poll<(), Self::Error> {
        Ok(().into())
    }

    fn call(&mut self, _: ()) -> Self::Future {
        future::ok(MockSvc)
    }
}

#[derive(Debug, Clone)]
struct Request;
#[derive(Debug, Clone)]
struct Response;
#[derive(Debug)]
struct MockSvc;
impl Service<Request> for MockSvc {
    type Response = Response;
    type Error = Void;
    type Future = FutureResult<Self::Response, Self::Error>;

    fn poll_ready(&mut self) -> Poll<(), Self::Error> {
        Ok(().into())
    }

    fn call(&mut self, _: Request) -> Self::Future {
        future::ok(Response)
    }
}

#[derive(Debug, Clone)]
struct MockPolicy;

impl<E> Policy<Request, Response, E> for MockPolicy
where
    E: Into<Box<dyn std::error::Error + Send + Sync + 'static>>,
{
    type Future = FutureResult<Self, ()>;

    fn retry(&self, _req: &Request, _result: Result<&Response, &E>) -> Option<Self::Future> {
        None
    }

    fn clone_request(&self, req: &Request) -> Option<Request> {
        Some(req.clone())
    }
}

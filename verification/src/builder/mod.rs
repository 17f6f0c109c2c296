//! The builder that collects layers, and the no-op layer it starts from.

pub use self::service::{MakerError, ServiceBuilderMaker};
use crate::layer::{wraps, Chain, Layer};
use std::marker::PhantomData;
use vstd::prelude::*;

mod service;

verus! {

/// `never::Never`, a type without values: the error of a layer that cannot
/// fail. It is only named, as the error of [`Identity`]; nothing is claimed
/// of it, not even that it has no values.
#[verifier::external_type_specification]
#[verifier::external_body]
pub struct ExNever(never::Never);

/// A no-op layer: it hands the handler back as it came, and cannot fail.
#[derive(Debug)]
pub struct Identity {
    _p: (),
}

impl Identity {
    /// The value that [`Identity::new`] returns.
    pub closed spec fn spec_new() -> Identity {
        Identity { _p: () }
    }

    /// Create a new `Identity` value.
    #[verifier::when_used_as_spec(spec_new)]
    pub fn new() -> (out: Identity)
        ensures
            out == Identity::spec_new(),
    {
        Identity { _p: () }
    }
}

impl Clone for Identity {
    fn clone(&self) -> (out: Self)
        ensures
            out == *self,
    {
        Identity { _p: () }
    }
}

impl Default for Identity {
    fn default() -> (out: Self)
        ensures
            out == Identity::new(),
    {
        Identity::new()
    }
}

impl<S> Layer<S> for Identity {
    type Service = S;

    type LayerError = never::Never;

    fn layer(&self, inner: S) -> (out: Result<S, never::Never>)
        ensures
            out == Ok::<S, never::Never>(inner),
    {
        Ok(inner)
    }
}

/// Collects layers for handlers of type `S`. The view of a builder is what it
/// has collected, as one layer.
#[derive(Debug)]
pub struct ServiceBuilder<L, S> {
    layer: L,
    _pd: PhantomData<S>,
}

impl<L, S> View for ServiceBuilder<L, S> {
    type V = L;

    closed spec fn view(&self) -> L {
        self.layer
    }
}

impl<S> ServiceBuilder<Identity, S> {
    /// A builder that has collected nothing yet.
    pub fn new() -> (out: Self)
        ensures
            out@ == Identity::new(),
    {
        ServiceBuilder { layer: Identity::new(), _pd: PhantomData }
    }
}

impl<L, S> ServiceBuilder<L, S> {
    /// [`ServiceBuilder::build_svc`], given `service`, may answer `out`.
    pub open spec fn builds(&self, service: S, out: Result<L::Service, L::LayerError>) -> bool where
        L: Layer<S>,
     {
        wraps(self@, service, out)
    }

    /// Chain `layer` to the builder: it goes outside everything collected so
    /// far. No layer is applied yet.
    pub fn chain<T>(self, layer: T) -> (out: ServiceBuilder<Chain<L, T>, S>) where
        L: Layer<S>,
        T: Layer<L::Service>,

        ensures
            out@ == (Chain { inner: self@, outer: layer }),
    {
        ServiceBuilder { layer: Chain::new(self.layer, layer), _pd: PhantomData }
    }

    /// Keep the collected layers with `maker`, to wrap every handler that
    /// `maker` makes. No layer is applied yet.
    pub fn build_maker<M>(self, maker: M) -> (out: ServiceBuilderMaker<M, L, S>)
        ensures
            out.maker() == maker,
            out.stack() == self@,
    {
        ServiceBuilderMaker::new(maker, self.layer)
    }

    /// Wrap `service` with the collected layers, innermost first. The first
    /// layer that fails ends the attempt, and no handler is returned.
    pub fn build_svc(self, service: S) -> (out: Result<L::Service, L::LayerError>) where
        L: Layer<S>,

        ensures
            self.builds(service, out),
    {
        self.layer.layer(service)
    }
}

} // verus!

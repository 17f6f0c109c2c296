//! The decorator contract, and the combinator that makes one layer of two.

use vstd::prelude::*;

verus! {

/// Decorates a handler: `layer` takes the inner handler and builds the
/// handler that wraps it, or fails with the decorator's own error.
///
/// An implementation says what it builds in the `ensures` of its `layer`;
/// [`wraps`] is that statement, for any layer.
pub trait Layer<S> {
    /// The wrapping handler.
    type Service;

    /// Why the wrapping handler could not be built.
    type LayerError;

    /// Wrap `inner`, which is given up to the layer.
    fn layer(&self, inner: S) -> Result<Self::Service, Self::LayerError>;
}

/// `layer`, asked to wrap `inner`, may answer `out`.
pub open spec fn wraps<S, L: Layer<S>>(
    layer: L,
    inner: S,
    out: Result<L::Service, L::LayerError>,
) -> bool {
    call_ensures(L::layer, (&layer, inner), out)
}

/// The error of a [`Chain`]: the error of the half that failed, marked with
/// which half it was.
#[derive(Debug)]
pub enum ChainError<I, O> {
    /// The layer applied first failed; the second was never asked.
    Inner(I),
    /// The layer applied second failed on what the first had built.
    Outer(O),
}

/// Two layers as one. `inner` wraps the handler first and `outer` wraps what
/// `inner` built, so a request reaches `outer` before it reaches `inner`.
#[derive(Debug)]
pub struct Chain<Inner, Outer> {
    /// Applied first, closest to the handler.
    pub inner: Inner,
    /// Applied second, closest to the caller.
    pub outer: Outer,
}

/// `first` followed by `second`, asked to wrap `service`, may answer `out`.
/// A handler is what `second` built around something that `first` built
/// around `service`. An error is that of the one layer that failed: of
/// `first` on `service`, or of `second` on something that `first` built.
pub open spec fn chained<S, A: Layer<S>, B: Layer<A::Service>>(
    first: A,
    second: B,
    service: S,
    out: Result<B::Service, ChainError<A::LayerError, B::LayerError>>,
) -> bool {
    match out {
        Ok(svc) => exists|mid: A::Service|
            #[trigger] wraps(first, service, Ok(mid)) && wraps(second, mid, Ok(svc)),
        Err(ChainError::Inner(e)) => wraps(first, service, Err(e)),
        Err(ChainError::Outer(e)) => exists|mid: A::Service|
            #[trigger] wraps(first, service, Ok(mid)) && wraps(second, mid, Err(e)),
    }
}

impl<Inner, Outer> Chain<Inner, Outer> {
    /// Pair `inner` with `outer`. Pairing applies neither layer.
    pub fn new(inner: Inner, outer: Outer) -> (out: Self)
        ensures
            out == (Chain { inner, outer }),
    {
        Chain { inner, outer }
    }
}

impl<S, A: Layer<S>, B: Layer<A::Service>> Layer<S> for Chain<A, B> {
    type Service = B::Service;

    type LayerError = ChainError<A::LayerError, B::LayerError>;

    /// Wrap `service` with the inner layer, then the result with the outer
    /// one. The first failure ends the attempt.
    fn layer(&self, service: S) -> (out: Result<
        B::Service,
        ChainError<A::LayerError, B::LayerError>,
    >)
        ensures
            chained(self.inner, self.outer, service, out),
    {
        match self.inner.layer(service) {
            Err(e) => Err(ChainError::Inner(e)),
            Ok(mid) => {
                // `mid` is the handler in between that the contract speaks of.
                assert(wraps(self.inner, service, Ok(mid)));
                match self.outer.layer(mid) {
                    Err(e) => Err(ChainError::Outer(e)),
                    Ok(svc) => Ok(svc),
                }
            },
        }
    }
}

} // verus!

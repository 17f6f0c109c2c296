//! Wrapping every handler that a factory makes.

use crate::layer::{wraps, Layer};
use std::marker::PhantomData;
use vstd::prelude::*;

verus! {

/// Why a [`ServiceBuilderMaker`] handed out no handler.
#[derive(Debug)]
pub enum MakerError<M, L> {
    /// The factory failed; this is its error, unchanged.
    Maker(M),
    /// The factory made a handler, and a layer failed on it.
    Layer(L),
}

/// A factory of handlers of type `S`, kept with the layers that every
/// handler it makes is wrapped in.
///
/// Asking the factory is the caller's part: the factory is reached through
/// [`ServiceBuilderMaker::maker_mut`], and what it answered is handed to
/// [`ServiceBuilderMaker::decorate`].
#[derive(Debug)]
pub struct ServiceBuilderMaker<M, L, S> {
    maker: M,
    layer: L,
    _pd: PhantomData<S>,
}

impl<M, L, S> ServiceBuilderMaker<M, L, S> {
    /// The factory.
    pub closed spec fn maker(&self) -> M {
        self.maker
    }

    /// The layers, as one.
    pub closed spec fn stack(&self) -> L {
        self.layer
    }

    /// [`ServiceBuilderMaker::decorate`], given `made`, may answer `out`.
    /// A failure of the factory comes out unchanged. A handler comes out
    /// wrapped, or else the error of the layer that failed on it does.
    pub open spec fn decorated<E>(
        &self,
        made: Result<S, E>,
        out: Result<L::Service, MakerError<E, L::LayerError>>,
    ) -> bool where L: Layer<S> {
        match made {
            Err(e) => out == Err::<L::Service, MakerError<E, L::LayerError>>(MakerError::Maker(e)),
            Ok(service) => match out {
                Ok(wrapped) => wraps(self.stack(), service, Ok(wrapped)),
                Err(MakerError::Layer(e)) => wraps(self.stack(), service, Err(e)),
                Err(MakerError::Maker(_)) => false,
            },
        }
    }

    /// Keep `maker` with `layer`.
    pub fn new(maker: M, layer: L) -> (out: Self)
        ensures
            out.maker() == maker,
            out.stack() == layer,
    {
        ServiceBuilderMaker { maker, layer, _pd: PhantomData }
    }

    /// The factory, to ask it for a handler. The layers stay as they are.
    pub fn maker_mut(&mut self) -> (out: &mut M)
        ensures
            *out == old(self).maker(),
            final(self).maker() == *final(out),
            final(self).stack() == old(self).stack(),
    {
        &mut self.maker
    }

    /// Finish one production. `made` is what the factory answered: its
    /// handler is wrapped with the layers, and its error is passed on without
    /// any layer being asked. When a layer fails, the handler is dropped.
    pub fn decorate<E>(&self, made: Result<S, E>) -> (out: Result<
        L::Service,
        MakerError<E, L::LayerError>,
    >) where L: Layer<S>
        ensures
            self.decorated(made, out),
    {
        match made {
            Err(e) => Err(MakerError::Maker(e)),
            Ok(service) => match self.layer.layer(service) {
                Ok(wrapped) => Ok(wrapped),
                Err(e) => Err(MakerError::Layer(e)),
            },
        }
    }
}

} // verus!

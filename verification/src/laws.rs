//! What holds of every builder, whatever layers it has collected.

use crate::builder::{Identity, MakerError, ServiceBuilder, ServiceBuilderMaker};
use crate::layer::{wraps, Chain, ChainError, Layer};
use vstd::prelude::*;

verus! {

/// A builder that has collected nothing hands every handler back as it came:
/// building cannot fail, and what comes out is the handler that went in.
pub proof fn lemma_empty_builder_is_identity<S>(
    builder: ServiceBuilder<Identity, S>,
    service: S,
    out: Result<S, never::Never>,
)
    requires
        builder.builds(service, out),
    ensures
        out == Ok::<S, never::Never>(service),
{
}

/// Every call of `chain` puts its layer outside all that the builder had
/// collected. Where `next` is `prev.chain(layer)`: a handler that `next`
/// builds is what `layer` made of a handler that `prev` builds; an error of
/// `layer` comes back only where `prev` had built its handler; and where
/// `prev` fails, its error comes back and `layer` has no part in it.
pub proof fn lemma_chained_layer_goes_outside<S, L: Layer<S>, T: Layer<L::Service>>(
    prev: ServiceBuilder<L, S>,
    layer: T,
    next: ServiceBuilder<Chain<L, T>, S>,
    service: S,
    out: Result<T::Service, ChainError<L::LayerError, T::LayerError>>,
)
    requires
        next@ == (Chain { inner: prev@, outer: layer }),
        next.builds(service, out),
    ensures
        match out {
            Ok(svc) => exists|mid: L::Service|
                #[trigger] prev.builds(service, Ok(mid)) && wraps(layer, mid, Ok(svc)),
            Err(ChainError::Outer(e)) => exists|mid: L::Service|
                #[trigger] prev.builds(service, Ok(mid)) && wraps(layer, mid, Err(e)),
            Err(ChainError::Inner(e)) => prev.builds(service, Err(e)),
        },
{
    match out {
        Ok(svc) => {
            let mid = choose|mid: L::Service|
                #[trigger] wraps(prev@, service, Ok(mid)) && wraps(layer, mid, Ok(svc));
            assert(prev.builds(service, Ok(mid)));
        },
        Err(ChainError::Outer(e)) => {
            let mid = choose|mid: L::Service|
                #[trigger] wraps(prev@, service, Ok(mid)) && wraps(layer, mid, Err(e));
            assert(prev.builds(service, Ok(mid)));
        },
        Err(ChainError::Inner(e)) => {},
    }
}

/// The starting point adds no wrapper of its own: a builder with one layer
/// answers what that layer alone answers.
pub proof fn lemma_one_layer_alone<S, A: Layer<S>>(
    builder: ServiceBuilder<Chain<Identity, A>, S>,
    service: S,
    out: Result<A::Service, ChainError<never::Never, A::LayerError>>,
)
    requires
        builder.builds(service, out),
    ensures
        match out {
            Ok(svc) => wraps(builder@.outer, service, Ok(svc)),
            Err(ChainError::Outer(e)) => wraps(builder@.outer, service, Err(e)),
            Err(ChainError::Inner(_)) => false,
        },
{
}

/// The layer chained last is outermost. After `new().chain(a).chain(b)`, a
/// built handler is what `b` made of something that `a` made of `service`:
/// a request meets `b` first and `a` second.
pub proof fn lemma_last_chained_is_outermost<S, A: Layer<S>, B: Layer<A::Service>>(
    builder: ServiceBuilder<Chain<Chain<Identity, A>, B>, S>,
    a: A,
    b: B,
    service: S,
    svc: B::Service,
)
    requires
        builder@ == (Chain { inner: Chain { inner: Identity::new(), outer: a }, outer: b }),
        builder.builds(service, Ok(svc)),
    ensures
        exists|mid: A::Service| #[trigger] wraps(a, service, Ok(mid)) && wraps(b, mid, Ok(svc)),
{
}

/// A failed build returns the error of the one layer that failed, and
/// nothing else. After `new().chain(a).chain(b)`: the error of `b` comes
/// back only where `a` had built its handler and `b` failed on it; the error
/// of `a` comes back where `a` failed on `service`, and then `b` was never
/// asked. The starting point never fails.
pub proof fn lemma_first_failure_is_returned<S, A: Layer<S>, B: Layer<A::Service>>(
    builder: ServiceBuilder<Chain<Chain<Identity, A>, B>, S>,
    a: A,
    b: B,
    service: S,
    err: ChainError<ChainError<never::Never, A::LayerError>, B::LayerError>,
)
    requires
        builder@ == (Chain { inner: Chain { inner: Identity::new(), outer: a }, outer: b }),
        builder.builds(service, Err(err)),
    ensures
        match err {
            ChainError::Outer(e) => exists|mid: A::Service|
                #[trigger] wraps(a, service, Ok(mid)) && wraps(b, mid, Err(e)),
            ChainError::Inner(ChainError::Outer(e)) => wraps(a, service, Err(e)),
            ChainError::Inner(ChainError::Inner(_)) => false,
        },
{
}

/// Which layer fails decides which error comes back. After
/// `new().chain(a).chain(b)`: where `a` cannot build on `service`, the build
/// fails with an error of `a`; where `a` cannot fail on `service` and `b`
/// cannot build on anything that `a` builds, it fails with an error of `b`.
pub proof fn lemma_failing_layer_decides_error<S, A: Layer<S>, B: Layer<A::Service>>(
    builder: ServiceBuilder<Chain<Chain<Identity, A>, B>, S>,
    a: A,
    b: B,
    service: S,
    out: Result<B::Service, ChainError<ChainError<never::Never, A::LayerError>, B::LayerError>>,
)
    requires
        builder@ == (Chain { inner: Chain { inner: Identity::new(), outer: a }, outer: b }),
        builder.builds(service, out),
    ensures
        (forall|mid: A::Service| !wraps(a, service, Ok(mid))) ==> out matches Err(
            ChainError::Inner(ChainError::Outer(_)),
        ),
        (forall|e: A::LayerError| !wraps(a, service, Err(e))) && (forall|
            mid: A::Service,
            svc: B::Service,
        | wraps(a, service, Ok(mid)) ==> !wraps(b, mid, Ok(svc))) ==> out matches Err(
            ChainError::Outer(_),
        ),
{
    match out {
        Ok(svc) => {
            lemma_last_chained_is_outermost(builder, a, b, service, svc);
        },
        Err(err) => {
            lemma_first_failure_is_returned(builder, a, b, service, err);
        },
    }
}

/// `a`, then `b`, then `c`, asked to wrap `inner`, may answer `out`: each
/// layer wraps what the one before it built, and the first that fails ends
/// the attempt with its error.
pub open spec fn in_turn<S, A: Layer<S>, B: Layer<A::Service>, C: Layer<B::Service>>(
    a: A,
    b: B,
    c: C,
    inner: S,
    out: Result<C::Service, ChainError<A::LayerError, ChainError<B::LayerError, C::LayerError>>>,
) -> bool {
    match out {
        Ok(svc) => exists|m1: A::Service, m2: B::Service|
            #[trigger] wraps(a, inner, Ok(m1)) && #[trigger] wraps(b, m1, Ok(m2))
                && wraps(c, m2, Ok(svc)),
        Err(ChainError::Inner(e)) => wraps(a, inner, Err(e)),
        Err(ChainError::Outer(ChainError::Inner(e))) => exists|m1: A::Service|
            #[trigger] wraps(a, inner, Ok(m1)) && wraps(b, m1, Err(e)),
        Err(ChainError::Outer(ChainError::Outer(e))) => exists|m1: A::Service, m2: B::Service|
            #[trigger] wraps(a, inner, Ok(m1)) && #[trigger] wraps(b, m1, Ok(m2))
                && wraps(c, m2, Err(e)),
    }
}

/// The answer of `(a, b)` paired with `c`, with its error marked as that of
/// `a` paired with `(b, c)` would be.
pub open spec fn regrouped<T, EA, EB, EC>(
    out: Result<T, ChainError<ChainError<EA, EB>, EC>>,
) -> Result<T, ChainError<EA, ChainError<EB, EC>>> {
    match out {
        Ok(svc) => Ok(svc),
        Err(ChainError::Inner(ChainError::Inner(e))) => Err(ChainError::Inner(e)),
        Err(ChainError::Inner(ChainError::Outer(e))) => Err(
            ChainError::Outer(ChainError::Inner(e)),
        ),
        Err(ChainError::Outer(e)) => Err(ChainError::Outer(ChainError::Outer(e))),
    }
}

/// Pairing is associative: `(a, b)` paired with `c` and `a` paired with
/// `(b, c)` both apply `a`, then `b`, then `c`, and differ only in how the
/// error is marked.
pub proof fn lemma_pairing_is_associative<
    S,
    A: Layer<S>,
    B: Layer<A::Service>,
    C: Layer<B::Service>,
>(
    a: A,
    b: B,
    c: C,
    inner: S,
    left: Result<C::Service, ChainError<ChainError<A::LayerError, B::LayerError>, C::LayerError>>,
    right: Result<C::Service, ChainError<A::LayerError, ChainError<B::LayerError, C::LayerError>>>,
)
    ensures
        wraps(Chain { inner: Chain { inner: a, outer: b }, outer: c }, inner, left) ==> in_turn(
            a,
            b,
            c,
            inner,
            regrouped(left),
        ),
        wraps(Chain { inner: a, outer: Chain { inner: b, outer: c } }, inner, right) ==> in_turn(
            a,
            b,
            c,
            inner,
            right,
        ),
{
}

/// A factory wrapper wraps each handler as the builder it came from would.
/// Where `maker` is `builder.build_maker(..)`, its answers for a handler that
/// the factory made are the builder's answers for that handler, and no
/// others: the same handlers, and the same errors, marked as the layers'.
pub proof fn lemma_factory_wraps_as_builder<M, L: Layer<S>, S, E>(
    builder: ServiceBuilder<L, S>,
    maker: ServiceBuilderMaker<M, L, S>,
    service: S,
    out: Result<L::Service, MakerError<E, L::LayerError>>,
)
    requires
        maker.stack() == builder@,
    ensures
        maker.decorated(Ok(service), out) <==> match out {
            Ok(svc) => builder.builds(service, Ok(svc)),
            Err(MakerError::Layer(e)) => builder.builds(service, Err(e)),
            Err(MakerError::Maker(_)) => false,
        },
{
}

/// Where the factory failed, its error comes back unchanged, whatever the
/// layers are: none of them has a say in the answer.
pub proof fn lemma_factory_failure_is_passed_on<M, L: Layer<S>, S, E>(
    maker: ServiceBuilderMaker<M, L, S>,
    error: E,
    out: Result<L::Service, MakerError<E, L::LayerError>>,
)
    requires
        maker.decorated(Err(error), out),
    ensures
        out == Err::<L::Service, MakerError<E, L::LayerError>>(MakerError::Maker(error)),
{
}

} // verus!

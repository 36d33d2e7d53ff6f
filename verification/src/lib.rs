//! A compile-time composition layer: applications are built by folding
//! independently configured modules into an accumulating application value.
//!
//! The pieces: [`ConfigProvider`] supplies typed values from a key-value
//! configuration source, [`Module`] turns one configuration value into a live
//! module value, [`Mediate`] folds a module (or an optional module, or a
//! sequence of modules) into the application, and `Labelled` ties a module to
//! the configuration key its settings are read from.

use vstd::prelude::*;

pub mod provider;
pub mod tracing;
pub mod toggle;
pub mod util;

use crate::util::label::Labelled;

verus! {

/// A label type that can serve as a configuration key: it yields the text
/// that the key is made of, stated by `key_spec`.
pub trait LabelKey {
    /// The text of the key.
    spec fn key_spec(&self) -> Seq<char>;

    /// Borrow the key's text.
    fn key(&self) -> (r: &str)
        ensures
            r@ == self.key_spec(),
    ;
}

impl LabelKey for String {
    open spec fn key_spec(&self) -> Seq<char> {
        self@
    }

    fn key(&self) -> (r: &str) {
        self.as_str()
    }
}

impl<'s> LabelKey for &'s str {
    open spec fn key_spec(&self) -> Seq<char> {
        self@
    }

    fn key(&self) -> (r: &str) {
        *self
    }
}

/// Why a configuration value could not be produced for a key.
#[derive(Debug)]
pub enum ConfigParseErr {
    /// The key is absent from the backing store.
    NoKey,
    /// The key resolved, but the value does not fit the requested shape.
    DeserializeFail,
    /// A source-specific failure, carried as an opaque description.
    Other(String),
}

/// Supplies values of type `C` from an underlying key-value configuration
/// source. `extract` is referentially transparent with respect to the
/// provider's snapshot: what it returns for a key is a function of the
/// provider value alone, stated by `extract_spec`.
pub trait ConfigProvider<C> {
    /// What `extract` returns for a given key.
    spec fn extract_spec(&self, key: Seq<char>) -> Result<C, ConfigParseErr>;

    /// Decode the value stored under `key`.
    fn extract(&self, key: &str) -> (r: Result<C, ConfigParseErr>)
        ensures
            r == self.extract_spec(key@),
    ;
}

/// Folds a module value of type `M` into the application, producing a new
/// application value. `mediate_spec` pins the result of `mediate` exactly.
pub trait Mediate<M>: Sized {
    type Out;

    /// What mediating `module` into `self` produces.
    spec fn mediate_spec(self, module: M) -> Self::Out;

    /// Consume the application and the module, producing the new application.
    fn mediate(self, module: M) -> (r: Self::Out)
        ensures
            r == self.mediate_spec(module),
    ;
}

/// Turns one configuration value into a live module value. Initialization is
/// total: failures belong to configuration extraction, never to `initialize`.
pub trait Module: Sized {
    type Config;

    type Out;

    /// What initializing with `config` produces.
    spec fn initialize_spec(self, config: Self::Config) -> Self::Out;

    /// Consume the module descriptor and its configuration.
    fn initialize(self, config: Self::Config) -> (r: Self::Out)
        ensures
            r == self.initialize_spec(config),
    ;
}

/// An optional module is a no-op when absent.
impl<T, M> Mediate<Option<M>> for T where T: Mediate<M, Out = T> {
    type Out = T;

    open spec fn mediate_spec(self, module: Option<M>) -> T {
        match module {
            Some(m) => self.mediate_spec(m),
            None => self,
        }
    }

    fn mediate(self, module: Option<M>) -> (r: T) {
        match module {
            Some(m) => self.mediate(m),
            None => self,
        }
    }
}

/// The left-to-right fold of a sequence of modules into an application.
pub open spec fn mediate_all<T, M>(app: T, modules: Seq<M>) -> T
    where T: Mediate<M, Out = T>
    decreases modules.len(),
{
    if modules.len() == 0 {
        app
    } else {
        <T as Mediate<M>>::mediate_spec(mediate_all::<T, M>(app, modules.drop_last()), modules.last())
    }
}

/// A sequence of modules is folded in, strictly in sequence order.
impl<T, M> Mediate<Vec<M>> for T where T: Mediate<M, Out = T> {
    type Out = T;

    open spec fn mediate_spec(self, modules: Vec<M>) -> T {
        mediate_all::<T, M>(self, modules@)
    }

    fn mediate(self, modules: Vec<M>) -> (r: T) {
        let ghost all = modules@;
        let ghost app = self;
        let mut acc = self;
        let mut rest = modules;
        let ghost mut i: int = 0;
        while rest.len() > 0
            invariant
                0 <= i <= all.len(),
                rest@ == all.subrange(i, all.len() as int),
                acc == mediate_all::<T, M>(app, all.subrange(0, i)),
            decreases all.len() - i,
        {
            let m = rest.remove(0);
            proof {
                assert(all.subrange(i, all.len() as int)[0] == all[i]);
                assert(all.subrange(i, all.len() as int).remove(0)
                    =~= all.subrange(i + 1, all.len() as int));
            }
            acc = acc.mediate(m);
            proof {
                assert(all.subrange(0, i + 1).drop_last() =~= all.subrange(0, i));
                assert(all.subrange(0, i + 1).last() == all[i]);
                i = i + 1;
            }
        }
        proof {
            assert(all.subrange(0, all.len() as int) =~= all);
        }
        acc
    }
}

/// The configuration a labelled mediation hands to the module: the provider's
/// value for the key when extraction succeeds, absent on any failure.
pub open spec fn extracted_config<C, P: ConfigProvider<C>>(provider: &P, key: Seq<char>) -> Option<C> {
    match provider.extract_spec(key) {
        Ok(c) => Some(c),
        Err(_) => None,
    }
}

/// What a labelled mediation produces: the module is initialized with the
/// optional configuration extracted for its label, and the module's output is
/// in turn mediated into the application.
pub open spec fn mediate_labelled_spec<A, L, M, C, O, P>(
    app: A,
    provider: &P,
    module: Labelled<L, M>,
) -> <A as Mediate<O>>::Out
    where
        L: LabelKey,
        M: Module<Config = Option<C>, Out = O>,
        P: ConfigProvider<C>,
        A: Mediate<O>,
{
    <A as Mediate<O>>::mediate_spec(
        app,
        <M as Module>::initialize_spec(
            module.inner,
            extracted_config(provider, module.label.key_spec()),
        ),
    )
}

/// The labelled mediation step: look the module's configuration up under its
/// label, swallow any extraction failure into "no configuration," initialize
/// the module with that optional configuration, and mediate the module's
/// output into the application. No extraction failure ever reaches the
/// caller: a misconfigured entry degrades one module to its default.
pub fn mediate_labelled<A, L, M, C, O, P>(app: A, provider: &P, module: Labelled<L, M>) -> (r:
    <A as Mediate<O>>::Out)
    where
        L: LabelKey,
        M: Module<Config = Option<C>, Out = O>,
        P: ConfigProvider<C>,
        A: Mediate<O>,
    ensures
        r == mediate_labelled_spec::<A, L, M, C, O, P>(app, provider, module),
{
    let Labelled { label, inner } = module;
    let config = match provider.extract(label.key()) {
        Ok(c) => Some(c),
        Err(_) => None,
    };
    let output = inner.initialize(config);
    app.mediate(output)
}

/// Absent configuration and failed extraction are the same no-op: when the
/// provider has nothing for the module's label, the labelled mediation equals
/// initializing the module with no configuration and mediating the result.
pub proof fn lemma_mediate_labelled_absent<A, L, M, C, O, P>(
    app: A,
    provider: &P,
    module: Labelled<L, M>,
)
    where
        L: LabelKey,
        M: Module<Config = Option<C>, Out = O>,
        P: ConfigProvider<C>,
        A: Mediate<O>,
    requires
        provider.extract_spec(module.label.key_spec()) is Err,
    ensures
        mediate_labelled_spec::<A, L, M, C, O, P>(app, provider, module)
            == <A as Mediate<O>>::mediate_spec(
                app,
                <M as Module>::initialize_spec(module.inner, None),
            ),
{
}

/// Mediating an optional module is the same as mediating the module when it
/// is present, and leaves the application untouched when it is absent.
pub proof fn lemma_mediate_option_identity<T, M>(app: T, module: M)
    where T: Mediate<M, Out = T>
    ensures
        <T as Mediate<Option<M>>>::mediate_spec(app, Some(module))
            == <T as Mediate<M>>::mediate_spec(app, module),
        <T as Mediate<Option<M>>>::mediate_spec(app, None::<M>) == app,
{
}

/// Folding one more module at the end of a sequence is mediating the
/// sequence, then that module.
pub proof fn lemma_mediate_all_push<T, M>(app: T, modules: Seq<M>, module: M)
    where T: Mediate<M, Out = T>
    ensures
        mediate_all::<T, M>(app, modules.push(module))
            == <T as Mediate<M>>::mediate_spec(mediate_all::<T, M>(app, modules), module),
{
    assert(modules.push(module).drop_last() =~= modules);
}

/// Mediating a three-module sequence equals the three chained mediations,
/// in sequence order.
pub proof fn lemma_mediate_sequence_order<T, M>(app: T, modules: Vec<M>, m1: M, m2: M, m3: M)
    where T: Mediate<M, Out = T>
    requires
        modules@ == seq![m1, m2, m3],
    ensures
        <T as Mediate<Vec<M>>>::mediate_spec(app, modules)
            == app.mediate_spec(m1).mediate_spec(m2).mediate_spec(m3),
{
    let s = seq![m1, m2, m3];
    assert(s =~= seq![m1, m2].push(m3));
    assert(seq![m1, m2] =~= seq![m1].push(m2));
    assert(seq![m1] =~= Seq::<M>::empty().push(m1));
    lemma_mediate_all_push::<T, M>(app, seq![m1, m2], m3);
    lemma_mediate_all_push::<T, M>(app, seq![m1], m2);
    lemma_mediate_all_push::<T, M>(app, Seq::<M>::empty(), m1);
    assert(mediate_all::<T, M>(app, Seq::<M>::empty()) == app);
}

} // verus!

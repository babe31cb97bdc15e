//! The service core: what the gRPC service's calls run on, and its builder.

use vstd::prelude::*;

pub mod settings;

use crate::service_core::settings::CoreSettings;

verus! {

/// The service core, over a persistence layer `P` that its calls query.
#[derive(Debug)]
pub struct ExampleServiceCore<P> {
    persistence: P,
}

impl<P> View for ExampleServiceCore<P> {
    type V = P;

    /// The persistence layer that the core holds.
    closed spec fn view(&self) -> P {
        self.persistence
    }
}

impl<P: Clone> Clone for ExampleServiceCore<P> {
    /// A copy of the core, over a clone of its persistence layer.
    fn clone(&self) -> (c: Self)
        ensures
            cloned::<P>(self@, c@),
    {
        ExampleServiceCore { persistence: self.persistence.clone() }
    }
}

impl<P> ExampleServiceCore<P> {
    /// A builder of a core over `persistence`, with the default settings.
    pub fn builder(persistence: P) -> (b: Builder<P>)
        ensures
            b@ == (CoreBuilderView { persistence, settings: CoreSettings {} }),
    {
        Builder::new(persistence)
    }

    /// The persistence layer that the core's calls query.
    pub fn persistence(&self) -> (p: &P)
        ensures
            *p == self@,
    {
        &self.persistence
    }
}

/// Builds an `ExampleServiceCore`.
pub struct Builder<P> {
    persistence: P,
    settings: CoreSettings,
}

/// The abstract value of a core builder.
pub struct CoreBuilderView<P> {
    pub persistence: P,
    pub settings: CoreSettings,
}

impl<P> View for Builder<P> {
    type V = CoreBuilderView<P>;

    closed spec fn view(&self) -> CoreBuilderView<P> {
        CoreBuilderView { persistence: self.persistence, settings: self.settings }
    }
}

impl<P> Builder<P> {
    /// A builder over `persistence`, with the default settings.
    pub fn new(persistence: P) -> (b: Self)
        ensures
            b@ == (CoreBuilderView { persistence, settings: CoreSettings {} }),
    {
        Self { persistence, settings: CoreSettings::default() }
    }

    /// The same builder with `settings` in place of its settings.
    pub fn with_settings(self, settings: &CoreSettings) -> (b: Self)
        ensures
            b@ == (CoreBuilderView { persistence: self@.persistence, settings: *settings }),
    {
        Self { persistence: self.persistence, settings: settings.clone() }
    }

    /// The core, over the builder's persistence layer.
    pub fn build(self) -> (core: ExampleServiceCore<P>)
        ensures
            core@ == self@.persistence,
    {
        ExampleServiceCore { persistence: self.persistence }
    }
}

} // verus!

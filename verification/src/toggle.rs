//! A minimal module/application pair exercising the composition layer: a
//! feature toggle whose configuration is a single optional boolean, and an
//! application that accumulates the toggle's state. Absent configuration
//! defaults the toggle to off.

use vstd::prelude::*;

use crate::provider::MemoryProvider;
use crate::util::label::Labelled;
use crate::{extracted_config, ConfigProvider, LabelKey, Mediate, Module};

verus! {

/// The descriptor of the toggle module, consumed by initialization.
pub struct ToggleModule;

/// The live toggle module: its switch, as initialization decided it.
pub struct LoadedToggle {
    pub enabled: bool,
}

impl Module for ToggleModule {
    type Config = Option<bool>;

    type Out = LoadedToggle;

    open spec fn initialize_spec(self, config: Option<bool>) -> LoadedToggle {
        LoadedToggle { enabled: config.unwrap_or(false) }
    }

    fn initialize(self, config: Option<bool>) -> (r: LoadedToggle) {
        LoadedToggle { enabled: config.unwrap_or(false) }
    }
}

/// An application value holding its configuration source and the
/// accumulated toggle state.
pub struct ToggleApp {
    pub config_source: MemoryProvider,
    pub inited: bool,
}

impl ToggleApp {
    /// A fresh application: an empty configuration source, the toggle off.
    pub fn new() -> (r: ToggleApp)
        ensures
            !r.inited,
            r.config_source.entries@.len() == 0,
    {
        ToggleApp { config_source: MemoryProvider::new(), inited: false }
    }
}

/// Folding a loaded toggle in adopts its switch and keeps the
/// configuration source.
impl Mediate<LoadedToggle> for ToggleApp {
    type Out = ToggleApp;

    open spec fn mediate_spec(self, module: LoadedToggle) -> ToggleApp {
        ToggleApp { config_source: self.config_source, inited: module.enabled }
    }

    fn mediate(self, module: LoadedToggle) -> (r: ToggleApp) {
        ToggleApp { config_source: self.config_source, inited: module.enabled }
    }
}

/// The labelled case, tied to this application's own configuration source:
/// extract the toggle's configuration under the module's label, swallow any
/// failure into "no configuration," initialize, and mediate the loaded
/// toggle in.
impl<L: LabelKey> Mediate<Labelled<L, ToggleModule>> for ToggleApp {
    type Out = ToggleApp;

    open spec fn mediate_spec(self, module: Labelled<L, ToggleModule>) -> ToggleApp {
        <ToggleApp as Mediate<LoadedToggle>>::mediate_spec(
            self,
            module.inner.initialize_spec(
                extracted_config::<bool, MemoryProvider>(
                    &self.config_source,
                    module.label.key_spec(),
                ),
            ),
        )
    }

    fn mediate(self, module: Labelled<L, ToggleModule>) -> (r: ToggleApp) {
        let Labelled { label, inner } = module;
        let config = match self.config_source.extract(label.key()) {
            Ok(c) => Some(c),
            Err(_) => None,
        };
        let output = inner.initialize(config);
        self.mediate(output)
    }
}

/// Idempotent no-op: against an empty configuration store, mediating a
/// labelled toggle module equals initializing the module with no
/// configuration at all and mediating the result.
pub proof fn lemma_toggle_absent_config<L: LabelKey>(app: ToggleApp, module: Labelled<L, ToggleModule>)
    requires
        app.config_source.entries@.len() == 0,
    ensures
        <ToggleApp as Mediate<Labelled<L, ToggleModule>>>::mediate_spec(app, module)
            == <ToggleApp as Mediate<LoadedToggle>>::mediate_spec(
                app,
                module.inner.initialize_spec(None),
            ),
{
}

/// An application that accumulates integer modules by wrapping addition.
pub struct Accumulator {
    pub total: i32,
}

impl Accumulator {
    /// A fresh accumulator, starting at zero.
    pub fn new() -> (r: Accumulator)
        ensures
            r.total == 0,
    {
        Accumulator { total: 0 }
    }
}

impl Mediate<i32> for Accumulator {
    type Out = Accumulator;

    open spec fn mediate_spec(self, module: i32) -> Accumulator {
        Accumulator { total: self.total.wrapping_add(module) }
    }

    fn mediate(self, module: i32) -> (r: Accumulator) {
        Accumulator { total: self.total.wrapping_add(module) }
    }
}

} // verus!

//! The launch plan of the shell: which capability plugins are attached, in
//! which order, and when the plan is complete enough to start the run loop.
//!
//! The real plugin initialisation and the run loop belong to the windowing
//! framework and are performed by the surrounding program; what is verified
//! here is the plan it must follow: a linear construction sequence that
//! attaches the plugins in a fixed order, registers the one invokable
//! command, and may only be finished once the single-instance plugin is
//! attached, so that a second launch is intercepted before any window is
//! created.

use vstd::prelude::*;

verus! {

/// A capability plugin attached at startup.
#[derive(Clone, Copy, PartialEq, Eq, Structural, Debug)]
pub enum Plugin {
    /// OS-level URL-scheme activation.
    DeepLink,
    /// Redirects extra process launches to the running instance.
    SingleInstance,
    /// SQL access, initialised with default settings.
    Sql,
    /// The opener utility.
    Opener,
}

/// The fixed order in which the shell attaches its plugins.
pub open spec fn standard_plugin_order() -> Seq<Plugin> {
    seq![Plugin::DeepLink, Plugin::SingleInstance, Plugin::Sql, Plugin::Opener]
}

/// A launch plan under construction: the plugins attached so far, in order,
/// and whether the `greet` command has been registered.  Built by a linear
/// sequence of calls, each consuming the previous plan.
pub struct Builder {
    plugins: Vec<Plugin>,
    greet_registered: bool,
}

/// A completed launch plan: the single-instance plugin is attached and the
/// command is registered.  Only such a plan is handed to the run loop.
pub struct LaunchPlan {
    plugins: Vec<Plugin>,
}

impl Builder {
    /// The plugins attached so far, in the order they were attached.
    pub closed spec fn plugins_attached(self) -> Seq<Plugin> {
        self.plugins@
    }

    /// Whether the `greet` command has been registered.
    pub closed spec fn greet_is_registered(self) -> bool {
        self.greet_registered
    }

    /// The plan is complete enough to start the run loop: the
    /// single-instance plugin is attached, so an extra launch is
    /// intercepted before any window exists, and the command surface —
    /// exactly the `greet` command — is registered.
    pub open spec fn ready(self) -> bool {
        self.plugins_attached().contains(Plugin::SingleInstance) && self.greet_is_registered()
    }

    /// A default plan: nothing attached, nothing registered.
    pub fn new() -> (b: Builder)
        ensures
            b.plugins_attached() == Seq::<Plugin>::empty(),
            !b.greet_is_registered(),
    {
        Builder { plugins: Vec::new(), greet_registered: false }
    }

    /// Attaches one plugin after those already attached.
    pub fn plugin(self, p: Plugin) -> (b: Builder)
        ensures
            b.plugins_attached() == self.plugins_attached().push(p),
            b.greet_is_registered() == self.greet_is_registered(),
    {
        let mut plugins = self.plugins;
        plugins.push(p);
        Builder { plugins, greet_registered: self.greet_registered }
    }

    /// Registers the `greet` command, the shell's whole command surface.
    pub fn register_greet(self) -> (b: Builder)
        ensures
            b.plugins_attached() == self.plugins_attached(),
            b.greet_is_registered(),
    {
        Builder { plugins: self.plugins, greet_registered: true }
    }

    /// Finishes the plan.  Succeeds exactly when the plan is ready; an
    /// incomplete plan is handed back unchanged, never started.  A completed
    /// plan always holds the single-instance plugin.
    pub fn finish(self) -> (r: Result<LaunchPlan, Builder>)
        ensures
            self.ready() <==> r is Ok,
            r is Ok ==> r->Ok_0.plugins_attached() == self.plugins_attached(),
            r is Ok ==> r->Ok_0.plugins_attached().contains(Plugin::SingleInstance),
            r is Err ==> r->Err_0 == self,
    {
        if self.greet_registered && has_single_instance(&self.plugins) {
            Ok(LaunchPlan { plugins: self.plugins })
        } else {
            Err(self)
        }
    }
}

impl LaunchPlan {
    /// The plugins of the completed plan, in attachment order.
    pub closed spec fn plugins_attached(self) -> Seq<Plugin> {
        self.plugins@
    }

    /// The plugins to attach, for the surrounding program to walk in order.
    pub fn plugins(&self) -> (r: &Vec<Plugin>)
        ensures
            r@ == self.plugins_attached(),
    {
        &self.plugins
    }
}

/// Whether the single-instance plugin stands among the attached plugins.
fn has_single_instance(plugins: &Vec<Plugin>) -> (r: bool)
    ensures
        r == plugins@.contains(Plugin::SingleInstance),
{
    let mut i: usize = 0;
    while i < plugins.len()
        invariant
            i <= plugins@.len(),
            forall|j: int| 0 <= j < i ==> plugins@[j] != Plugin::SingleInstance,
        decreases plugins@.len() - i,
    {
        if plugins[i] == Plugin::SingleInstance {
            return true;
        }
        i = i + 1;
    }
    false
}

/// The shell's own launch plan: the four plugins in the standard order and
/// the `greet` command registered, ready to finish.
pub fn standard_plan() -> (b: Builder)
    ensures
        b.plugins_attached() == standard_plugin_order(),
        b.greet_is_registered(),
        b.ready(),
{
    let b = Builder::new()
        .plugin(Plugin::DeepLink)
        .plugin(Plugin::SingleInstance)
        .plugin(Plugin::Sql)
        .plugin(Plugin::Opener)
        .register_greet();
    proof {
        assert(b.plugins_attached() =~= standard_plugin_order());
        assert(standard_plugin_order()[1] == Plugin::SingleInstance);
    }
    b
}

} // verus!

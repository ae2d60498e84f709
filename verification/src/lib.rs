//! A verified core for a desktop application shell.
//!
//! The shell itself is a thin program: it builds an application, attaches a
//! fixed set of capability plugins, registers one invokable command, and
//! hands control to a run loop owned by the windowing framework.  Everything
//! that can be stated and proved lives here:
//!
//! * [`greeting`] — the one invokable command, `greet`, with its exact text
//!   pinned down for every input.
//! * [`bootstrap`] — the launch plan: which plugins are attached, in which
//!   order, and when the plan is complete enough to start the run loop.
//! * [`single_instance`] — the decision taken when a second process launch
//!   is detected while an instance is already running.
//!
//! The framework calls themselves (window lookup, plugin initialisation, the
//! run loop) are performed by the surrounding program, which consults these
//! verified functions for every decision it takes.

pub mod bootstrap;
pub mod greeting;
pub mod single_instance;

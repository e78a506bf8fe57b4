//! The device session: the kernel-driver flag kept for teardown, and the
//! ordered steps that configure a resolved endpoint.
use vstd::prelude::*;
use crate::descriptor::Endpoint;

verus! {

/// What the session must undo on exit.
#[derive(Debug, Clone, Copy, PartialEq, Eq, Structural)]
pub struct Session {
    /// A kernel driver owned the interface on entry, so a detach was
    /// attempted and a reattach is owed on exit, whether or not the detach
    /// succeeded.
    pub driver_detached: bool,
}

impl Session {
    /// Starts a session from the kernel-driver query: `Some(active)` when the
    /// query succeeded, `None` when it failed (treated as no driver).
    pub fn begin(kernel_driver_active: Option<bool>) -> (r: Session)
        ensures
            r.driver_detached == (kernel_driver_active == Some(true)),
    {
        match kernel_driver_active {
            Some(true) => Session { driver_detached: true },
            _ => Session { driver_detached: false },
        }
    }

    /// Whether the kernel driver must be reattached on teardown.
    pub fn must_reattach(&self) -> (r: bool)
        ensures
            r == self.driver_detached,
    {
        self.driver_detached
    }
}

/// One step of putting a resolved endpoint into use.
#[derive(Debug, Clone, Copy, PartialEq, Eq, Structural)]
pub enum ConfigStep {
    SetConfiguration(u8),
    ClaimInterface(u8),
    SetAlternateSetting(u8, u8),
}

pub open spec fn configuration_plan(e: Endpoint) -> Seq<ConfigStep> {
    seq![
        ConfigStep::SetConfiguration(e.config),
        ConfigStep::ClaimInterface(e.iface),
        ConfigStep::SetAlternateSetting(e.iface, e.setting),
    ]
}

/// The steps that configure `e`, in the order they must run; the first that
/// fails ends configuration.
pub fn configure_endpoint(e: &Endpoint) -> (r: Vec<ConfigStep>)
    ensures
        r@ == configuration_plan(*e),
{
    let mut steps: Vec<ConfigStep> = Vec::new();
    steps.push(ConfigStep::SetConfiguration(e.config));
    steps.push(ConfigStep::ClaimInterface(e.iface));
    steps.push(ConfigStep::SetAlternateSetting(e.iface, e.setting));
    assert(steps@ =~= configuration_plan(*e));
    steps
}

} // verus!

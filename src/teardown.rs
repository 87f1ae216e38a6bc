use vstd::prelude::*;

verus! {

/// One release step of a device's disposal.
#[derive(Clone, Copy, Debug, PartialEq, Eq, Structural)]
pub enum TeardownAction {
    /// Unregister the maximum-PDU-size handler from the session.
    RemovePduHandler,
    /// Unregister the connection-status handler from the device handle.
    RemoveStatusHandler,
    /// Close the cached service at this index.
    CloseService(usize),
    /// Close the device handle.
    CloseDevice,
    /// Disposal is over.
    Done,
}

/// The `k`-th step of disposing of a device that caches `n` services:
/// both handlers first, then every service in order, then the device.
pub open spec fn teardown_step(n: nat, k: nat) -> TeardownAction {
    if k == 0 {
        TeardownAction::RemovePduHandler
    } else if k == 1 {
        TeardownAction::RemoveStatusHandler
    } else if k < n + 2 {
        TeardownAction::CloseService((k - 2) as usize)
    } else if k == n + 2 {
        TeardownAction::CloseDevice
    } else {
        TeardownAction::Done
    }
}

/// Every release step of disposing of a device with `n` cached services,
/// in order.
pub open spec fn teardown_plan(n: nat) -> Seq<TeardownAction> {
    Seq::new(n + 3, |k: int| teardown_step(n, k as nat))
}

/// Disposal of a device, one best-effort release step at a time.
///
/// The caller performs `next_action` and reports with `record` whether it
/// succeeded. A failure is counted for diagnostics and never stops the
/// sequence.
pub struct Teardown {
    services: usize,
    position: usize,
    failures: usize,
}

impl Teardown {
    pub closed spec fn services(&self) -> nat {
        self.services as nat
    }

    pub closed spec fn position(&self) -> nat {
        self.position as nat
    }

    pub closed spec fn failures(&self) -> nat {
        self.failures as nat
    }

    pub closed spec fn wf(&self) -> bool {
        &&& self.services <= usize::MAX - 3
        &&& self.position <= self.services + 3
    }

    /// The disposal of a device that caches `services` services.
    pub fn new(services: usize) -> (r: Teardown)
        requires
            services <= usize::MAX - 3,
        ensures
            r.wf(),
            r.services() == services,
            r.position() == 0,
            r.failures() == 0,
    {
        Teardown { services, position: 0, failures: 0 }
    }

    /// The release step to perform now.
    pub fn next_action(&self) -> (r: TeardownAction)
        requires
            self.wf(),
        ensures
            r == teardown_step(self.services(), self.position()),
    {
        if self.position == 0 {
            TeardownAction::RemovePduHandler
        } else if self.position == 1 {
            TeardownAction::RemoveStatusHandler
        } else if self.position < self.services + 2 {
            TeardownAction::CloseService(self.position - 2)
        } else if self.position == self.services + 2 {
            TeardownAction::CloseDevice
        } else {
            TeardownAction::Done
        }
    }

    /// Records the outcome of the step just performed and moves to the next
    /// one, whatever the outcome.
    pub fn record(&mut self, ok: bool)
        requires
            old(self).wf(),
        ensures
            final(self).wf(),
            final(self).services() == old(self).services(),
            final(self).position() == if old(self).position() < old(self).services() + 3 {
                old(self).position() + 1
            } else {
                old(self).position()
            },
            final(self).failures() == if !ok && old(self).failures() < usize::MAX {
                old(self).failures() + 1
            } else {
                old(self).failures()
            },
    {
        if self.position < self.services + 3 {
            self.position = self.position + 1;
        }
        if !ok && self.failures < usize::MAX {
            self.failures = self.failures + 1;
        }
    }

    /// How many release steps have failed so far.
    pub fn failure_count(&self) -> (r: usize)
        ensures
            r == self.failures(),
    {
        self.failures
    }

    pub fn is_done(&self) -> (r: bool)
        requires
            self.wf(),
        ensures
            r == (teardown_step(self.services(), self.position()) == TeardownAction::Done),
    {
        self.position == self.services + 3
    }
}

/// Disposal releases both handlers, then every cached service in order,
/// then the device handle, and nothing else.
pub proof fn lemma_teardown_plan(n: nat)
    ensures
        teardown_plan(n).len() == n + 3,
        teardown_plan(n)[0] == TeardownAction::RemovePduHandler,
        teardown_plan(n)[1] == TeardownAction::RemoveStatusHandler,
        forall|i: int| 0 <= i < n ==> #[trigger] teardown_plan(n)[i + 2int] == TeardownAction::CloseService(
            i as usize,
        ),
        teardown_plan(n)[n + 2int] == TeardownAction::CloseDevice,
        teardown_step(n, n + 3) == TeardownAction::Done,
{
    assert forall|i: int| 0 <= i < n implies #[trigger] teardown_plan(n)[i + 2int]
        == TeardownAction::CloseService(i as usize) by {
        assert((((i + 2) as nat) - 2) as usize == i as usize);
    }
}

} // verus!

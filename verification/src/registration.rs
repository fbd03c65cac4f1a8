//! Exporting the operations to the host, all or nothing.
//!
//! The host performs each export and reports whether it worked. What is
//! decided here is which operation comes next and when to stop.

use crate::operation::export_order;
use crate::operation::Operation;
use crate::operation::OPERATION_COUNT;
use vstd::prelude::*;

verus! {

/// What to do next while the module is being initialised.
#[derive(Debug, Clone, Copy, PartialEq, Eq, Structural)]
pub enum RegistrationStep {
    /// Export this operation under its export name, then report the outcome.
    Export(Operation),
    /// Every operation is exported; initialisation succeeded.
    Finished,
    /// An export failed; initialisation as a whole must fail.
    Failed,
}

/// How far the exporting has come.
#[derive(Debug)]
pub struct Registration {
    exported: usize,
    failed: bool,
}

/// Mathematical model of a [`Registration`]: how many operations are
/// exported, and whether an export has failed.
pub struct RegistrationView {
    pub exported: nat,
    pub failed: bool,
}

impl RegistrationView {
    /// The state before anything is exported.
    pub open spec fn start() -> RegistrationView {
        RegistrationView { exported: 0, failed: false }
    }

    /// What to do next in this state.
    pub open spec fn next_step(self) -> RegistrationStep {
        if self.failed {
            RegistrationStep::Failed
        } else if self.exported < OPERATION_COUNT {
            RegistrationStep::Export(export_order()[self.exported as int])
        } else {
            RegistrationStep::Finished
        }
    }

    /// The state after the host reports on the export that `next_step` asked for.
    /// Once exporting has finished or failed, reports change nothing.
    pub open spec fn after(self, succeeded: bool) -> RegistrationView {
        if self.failed || self.exported >= OPERATION_COUNT {
            self
        } else if succeeded {
            RegistrationView { exported: self.exported + 1, failed: false }
        } else {
            RegistrationView { exported: self.exported, failed: true }
        }
    }

    /// The state after a series of reports.
    pub open spec fn after_all(self, reports: Seq<bool>) -> RegistrationView
        decreases reports.len(),
    {
        if reports.len() == 0 {
            self
        } else {
            self.after_all(reports.drop_last()).after(reports.last())
        }
    }
}

impl View for Registration {
    type V = RegistrationView;

    closed spec fn view(&self) -> RegistrationView {
        RegistrationView { exported: self.exported as nat, failed: self.failed }
    }
}

impl Registration {
    /// Never more operations are exported than there are.
    #[verifier::type_invariant]
    closed spec fn within_bounds(&self) -> bool {
        self.exported <= OPERATION_COUNT
    }

    /// The state before anything is exported.
    pub fn new() -> (registration: Registration)
        ensures
            registration@ == RegistrationView::start(),
    {
        Registration { exported: 0, failed: false }
    }

    /// What to do next: export the next operation in export order, or stop
    /// because all are exported, or stop because an export failed.
    pub fn next_step(&self) -> (step: RegistrationStep)
        ensures
            step == self@.next_step(),
    {
        proof {
            use_type_invariant(self);
        }
        if self.failed {
            RegistrationStep::Failed
        } else {
            match Operation::at_slot(self.exported) {
                Some(op) => RegistrationStep::Export(op),
                None => RegistrationStep::Finished,
            }
        }
    }

    /// Takes note of whether the export that `next_step` asked for succeeded.
    pub fn record(&mut self, succeeded: bool)
        ensures
            final(self)@ == old(self)@.after(succeeded),
    {
        proof {
            use_type_invariant(&*self);
        }
        if !self.failed && self.exported < OPERATION_COUNT {
            if succeeded {
                self.exported = self.exported + 1;
            } else {
                self.failed = true;
            }
        }
    }
}

/// Initialisation is all or nothing. It finishes exactly when each of the
/// first twelve reports is a success, it fails exactly when one of them is a
/// failure, and until then the operations exported are the export order up to
/// the first failure. Reports after the end change nothing, so nothing is
/// exported twice.
pub proof fn lemma_registration_is_all_or_nothing(reports: Seq<bool>)
    ensures
        ({
            let end = RegistrationView::start().after_all(reports);
            let seen = if reports.len() < OPERATION_COUNT {
                reports.len() as int
            } else {
                OPERATION_COUNT as int
            };
            &&& end.exported <= seen
            &&& forall|i: int| 0 <= i < end.exported ==> reports[i]
            &&& end.failed <==> exists|i: int| 0 <= i < seen && !reports[i]
            &&& end.failed ==> end.exported < seen && !reports[end.exported as int]
            &&& !end.failed ==> end.exported == seen
            &&& end.next_step() is Finished <==> reports.len() >= OPERATION_COUNT && forall|i: int|
                0 <= i < OPERATION_COUNT ==> reports[i]
        }),
    decreases reports.len(),
{
    if reports.len() > 0 {
        let earlier = reports.drop_last();
        lemma_registration_is_all_or_nothing(earlier);
        let before = RegistrationView::start().after_all(earlier);
        let end = before.after(reports.last());
        assert(forall|i: int| 0 <= i < earlier.len() ==> earlier[i] == reports[i]);
        assert(reports.last() == reports[reports.len() - 1]);
        if before.failed {
            assert(!reports[before.exported as int]);
        }
    }
}

} // verus!

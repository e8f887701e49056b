use vstd::prelude::*;
use crate::cmd::CargoTargets;
use crate::text::{decimal, decimal_of, strings};

verus! {

/// One check of the CI verification.
#[derive(Clone, Copy, Debug, PartialEq, Eq, Structural)]
pub enum Check {
    /// The copyright headers, in strict mode.
    Copyright,
    /// The formatting, in strict mode, without rewriting anything.
    Format,
    /// Clippy on the given targets, in strict mode.
    Clippy(CargoTargets),
}

/// The checks of the CI verification, in their order. In `extended` mode Clippy runs on
/// the main and on the auxiliary targets apart, so that the features of dev-dependencies
/// are not unified with the others; else it runs once on all targets, which is faster.
pub open spec fn checks_of(extended: bool) -> Seq<Check> {
    if extended {
        seq![
            Check::Copyright,
            Check::Format,
            Check::Clippy(CargoTargets::Main),
            Check::Clippy(CargoTargets::Auxiliary),
        ]
    } else {
        seq![Check::Copyright, Check::Format, Check::Clippy(CargoTargets::All)]
    }
}

/// The first line of the report of failed checks.
pub open spec fn report_head() -> Seq<char> {
    "CI verification failed:\n"@
}

/// The report of the first `n` of the failures: a first line, and one numbered line for
/// each failure.
pub open spec fn report_of(failures: Seq<Seq<char>>, n: int) -> Seq<char>
    decreases n,
{
    if n <= 0 {
        report_head()
    } else {
        report_of(failures, n - 1) + decimal_of(n as nat) + ": "@ + failures[n - 1] + "\n"@
    }
}

/// The mathematical value of a [`Ci`].
pub struct CiView {
    pub fail_fast: bool,
    pub failures: Seq<Seq<char>>,
}

/// The course of a CI verification: whether it stops at the first failure, and the
/// failures so far.
pub struct Ci {
    fail_fast: bool,
    failures: Vec<String>,
}

impl View for Ci {
    type V = CiView;

    closed spec fn view(&self) -> CiView {
        CiView { fail_fast: self.fail_fast, failures: strings(self.failures@) }
    }
}

impl Ci {
    /// Begins a CI verification. Set `fail_fast` to `false` to run the checks to the end
    /// regardless of failure.
    pub fn new(fail_fast: bool) -> (r: Ci)
        ensures
            r@ == (CiView { fail_fast, failures: Seq::empty() }),
    {
        let r = Ci { fail_fast, failures: Vec::new() };
        assert(r@.failures =~= Seq::empty());
        r
    }

    /// Returns the checks to run, in their order.
    pub fn checks(extended: bool) -> (r: Vec<Check>)
        ensures
            r@ == checks_of(extended),
    {
        let mut checks: Vec<Check> = Vec::new();
        checks.push(Check::Copyright);
        checks.push(Check::Format);
        if extended {
            checks.push(Check::Clippy(CargoTargets::Main));
            checks.push(Check::Clippy(CargoTargets::Auxiliary));
        } else {
            checks.push(Check::Clippy(CargoTargets::All));
        }
        assert(checks@ =~= checks_of(extended));
        checks
    }

    /// Takes the outcome of one check: `None` for a success, else what failed. Says whether
    /// to go on with the next check: a failure stops a verification that fails fast, and is
    /// else kept for the report.
    pub fn record(&mut self, failure: Option<String>) -> (r: Result<(), String>)
        ensures
            failure is None ==> r is Ok && final(self)@ == old(self)@,
            failure is Some && old(self)@.fail_fast ==> (r matches Err(e) && e@ == failure->0@)
                && final(self)@ == old(self)@,
            failure is Some && !old(self)@.fail_fast ==> r is Ok && final(self)@ == (CiView {
                failures: old(self)@.failures.push(failure->0@),
                ..old(self)@
            }),
    {
        match failure {
            None => Ok(()),
            Some(text) => {
                if self.fail_fast {
                    Err(text)
                } else {
                    let ghost before = self@.failures;
                    self.failures.push(text);
                    assert(self@.failures =~= before.push(text@));
                    Ok(())
                }
            },
        }
    }

    /// Ends the verification: it succeeded if no check failed, and else fails with a report
    /// that lists the failures.
    pub fn finish(self) -> (r: Result<(), String>)
        ensures
            self@.failures.len() == 0 ==> r is Ok,
            self@.failures.len() > 0 ==> (r matches Err(report) && report@ == report_of(
                self@.failures,
                self@.failures.len() as int,
            )),
    {
        if self.failures.len() == 0 {
            return Ok(());
        }
        let mut report = String::from_str("CI verification failed:\n");
        let mut i: usize = 0;
        while i < self.failures.len()
            invariant
                i <= self.failures.len(),
                report@ == report_of(self@.failures, i as int),
            decreases self.failures.len() - i,
        {
            let ghost before = report@;
            let number: u64 = i as u64 + 1;
            report.append(decimal(number).as_str());
            report.append(": ");
            report.append(self.failures[i].as_str());
            report.append("\n");
            assert(report@ =~= before + decimal_of((i + 1) as nat) + ": "@
                + self@.failures[i as int] + "\n"@);
            i += 1;
        }
        Err(report)
    }
}

} // verus!

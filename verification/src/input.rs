//! The calculator's arguments and the rule that admits them.

use crate::binary64::{
    decode, is_le_zero, lemma_positive_zero, lemma_sign_trichotomy, POSITIVE_ZERO,
};
use vstd::prelude::*;

verus! {

/// The unit in which both heights are given.
#[derive(Debug, Clone, Copy, PartialEq, Eq, Structural)]
pub enum UnitMode {
    /// Feet.
    Imperial,
    /// Meters.
    Metric,
}

/// Why a pair of heights was turned down. Each variant carries the
/// encoding of the height at fault.
#[derive(Debug, Clone, Copy, PartialEq, Eq, Structural)]
pub enum Error {
    /// The observer's height is zero or below.
    Observer(u64),
    /// The subject's height was given and is zero or below.
    Subject(u64),
}

/// One request: two heights as binary64 encodings, and their unit.
#[derive(Debug, Clone, Copy, PartialEq, Eq)]
pub struct Args {
    /// Height of the observer.
    pub observer: u64,
    /// Height of the subject; absent for the horizon itself.
    pub subject: Option<u64>,
    /// Whether the heights are in meters rather than feet.
    pub metric: bool,
}

impl Error {
    /// The encoding of the height at fault.
    pub open spec fn spec_height(self) -> u64 {
        match self {
            Error::Observer(h) => h,
            Error::Subject(h) => h,
        }
    }

    /// The encoding of the height at fault.
    #[verifier::when_used_as_spec(spec_height)]
    pub fn height(self) -> (h: u64)
        ensures
            h == self.spec_height(),
    {
        match self {
            Error::Observer(h) => h,
            Error::Subject(h) => h,
        }
    }
}

impl Args {
    /// What validation answers: the observer is looked at first, the
    /// subject only where it is present, and a height is at fault exactly
    /// when it compares as at most zero.
    pub open spec fn verdict(&self) -> Result<(), Error> {
        if decode(self.observer).le_zero() {
            Err(Error::Observer(self.observer))
        } else {
            match self.subject {
                Some(s) if decode(s).le_zero() => Err(Error::Subject(s)),
                _ => Ok(()),
            }
        }
    }

    /// The subject's height as the computation uses it: positive zero
    /// where none was given.
    pub open spec fn spec_effective_subject(&self) -> u64 {
        match self.subject {
            Some(s) => s,
            None => POSITIVE_ZERO,
        }
    }

    /// The unit that the `metric` switch selects.
    pub open spec fn spec_unit_mode(&self) -> UnitMode {
        if self.metric {
            UnitMode::Metric
        } else {
            UnitMode::Imperial
        }
    }

    /// Admits the heights or names the first one at fault.
    pub fn validate(&self) -> (r: Result<(), Error>)
        ensures
            r == self.verdict(),
    {
        if is_le_zero(self.observer) {
            return Err(Error::Observer(self.observer));
        }
        if let Some(subject) = self.subject {
            if is_le_zero(subject) {
                return Err(Error::Subject(subject));
            }
        }
        Ok(())
    }

    /// The subject's height as the computation uses it.
    #[verifier::when_used_as_spec(spec_effective_subject)]
    pub fn effective_subject(&self) -> (s: u64)
        ensures
            s == self.spec_effective_subject(),
    {
        match self.subject {
            Some(s) => s,
            None => POSITIVE_ZERO,
        }
    }

    /// The unit in which the heights are given.
    #[verifier::when_used_as_spec(spec_unit_mode)]
    pub fn unit_mode(&self) -> (m: UnitMode)
        ensures
            m == self.spec_unit_mode(),
    {
        if self.metric {
            UnitMode::Metric
        } else {
            UnitMode::Imperial
        }
    }
}

/// Where validation draws its line for the observer: a height at most zero
/// is turned down as the observer's whatever else is given, and a height
/// above zero is never the reason, so that with no subject the request is
/// admitted.
pub proof fn lemma_observer_boundary(args: Args)
    ensures
        decode(args.observer).le_zero() ==> args.verdict() == Err::<(), Error>(
            Error::Observer(args.observer),
        ),
        decode(args.observer).gt_zero() ==> !(args.verdict() matches Err(Error::Observer(_))),
        decode(args.observer).gt_zero() && args.subject is None ==> args.verdict() is Ok,
{
    lemma_sign_trichotomy(args.observer);
}

/// Where validation draws its line for a subject that is present: at most
/// zero, the request is turned down, and on the subject's account once the
/// observer has passed; above zero, the subject is never the reason, so
/// that with an observer above zero the request is admitted.
pub proof fn lemma_subject_boundary(args: Args, subject: u64)
    requires
        args.subject == Some(subject),
    ensures
        decode(subject).le_zero() ==> args.verdict() is Err,
        decode(subject).le_zero() && !decode(args.observer).le_zero() ==> args.verdict()
            == Err::<(), Error>(Error::Subject(subject)),
        decode(subject).gt_zero() ==> !(args.verdict() matches Err(Error::Subject(_))),
        decode(subject).gt_zero() && decode(args.observer).gt_zero() ==> args.verdict() is Ok,
{
    lemma_sign_trichotomy(args.observer);
    lemma_sign_trichotomy(subject);
}

/// An absent subject stands at height zero: the computation receives the
/// same heights and unit as it would for a subject given as positive zero.
pub proof fn lemma_absent_subject_is_zero(observer: u64, metric: bool)
    ensures
        (Args { observer, subject: None, metric }).spec_effective_subject() == (Args {
            observer,
            subject: Some(POSITIVE_ZERO),
            metric,
        }).spec_effective_subject(),
        (Args { observer, subject: None, metric }).spec_unit_mode() == (Args {
            observer,
            subject: Some(POSITIVE_ZERO),
            metric,
        }).spec_unit_mode(),
        decode((Args { observer, subject: None, metric }).spec_effective_subject()).scaled() == 0,
{
    lemma_positive_zero();
}

} // verus!

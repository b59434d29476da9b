//! Choosing the source encoding: which converter to probe next, and what
//! to make of the device's answer.
//!
//! The device is probed outside this library. The negotiator names the
//! encoding to probe, is told the device's reply, and after each reply
//! names the next step, until an encoding is accepted or none is left.

use vstd::prelude::*;
use crate::error::CaptureError;
use crate::format::{PixelFormat, SourceEncoding};

verus! {

/// The lower-case form of a string, as `str::to_lowercase` computes it.
pub uninterp spec fn lowercased(s: Seq<char>) -> Seq<char>;

/// `str::to_lowercase` of the standard library. The result is a function
/// of the argument alone; it is named, not described.
#[verifier::external_body]
fn to_lowercase(s: &str) -> (lower: String)
    ensures
        lower@ == lowercased(s@),
{
    s.to_lowercase()
}

/// The device's answer to a request for one pixel format.
#[derive(Clone, Copy, Debug, PartialEq, Eq, Structural)]
pub struct ProbeReply {
    /// The format that was asked for.
    pub requested: PixelFormat,
    /// The format of the configuration after the device validated it, or
    /// `None` where the device produced no configuration to validate.
    pub granted: Option<PixelFormat>,
}

impl ProbeReply {
    /// A reply is accepted when the device produced a configuration and
    /// did not put another format in place of the requested one.
    pub open spec fn accepted(self) -> bool {
        self.granted == Some(self.requested)
    }
}

/// Whether the device supports the format it was probed for.
pub fn supports_configuration(reply: &ProbeReply) -> (supported: bool)
    ensures
        supported == reply.accepted(),
{
    match reply.granted {
        Some(granted) => granted == reply.requested,
        None => false,
    }
}

/// The device's verdict on a configuration.
#[derive(Clone, Copy, Debug, PartialEq, Eq, Structural)]
pub enum ConfigurationStatus {
    /// The configuration can be used as it is.
    Valid,
    /// The device changed the configuration to one it can use.
    Adjusted,
    /// The device cannot use the configuration.
    Invalid,
}

/// How a configuration came out of validation.
#[derive(Clone, Copy, Debug, PartialEq, Eq, Structural)]
pub enum Revalidation {
    /// The device took the configuration as it was.
    Kept,
    /// The device adjusted the configuration; the adjusted one is used,
    /// and the caller is to warn about it.
    Adjusted,
}

/// What follows from validating the configuration once more after the
/// caller has constrained it: an invalid configuration ends the start-up,
/// an adjusted one is used with a warning.
pub fn revalidate(status: ConfigurationStatus) -> (r: Result<Revalidation, CaptureError>)
    ensures
        r == match status {
            ConfigurationStatus::Valid => Ok::<Revalidation, CaptureError>(Revalidation::Kept),
            ConfigurationStatus::Adjusted => Ok(Revalidation::Adjusted),
            ConfigurationStatus::Invalid => Err(CaptureError::ConfigurationInvalid),
        },
{
    match status {
        ConfigurationStatus::Valid => Ok(Revalidation::Kept),
        ConfigurationStatus::Adjusted => Ok(Revalidation::Adjusted),
        ConfigurationStatus::Invalid => Err(CaptureError::ConfigurationInvalid),
    }
}

/// The encodings that negotiation tries, most preferred first.
pub open spec fn spec_candidates() -> Seq<SourceEncoding> {
    seq![SourceEncoding::Bgr, SourceEncoding::Rgb, SourceEncoding::Yuyv]
}

/// The number of candidates.
pub const CANDIDATES: usize = 3;

/// The candidate at `index` of the order of preference.
pub fn candidate(index: usize) -> (encoding: Option<SourceEncoding>)
    ensures
        encoding == if index < spec_candidates().len() {
            Some(spec_candidates()[index as int])
        } else {
            None
        },
{
    if index == 0 {
        Some(SourceEncoding::Bgr)
    } else if index == 1 {
        Some(SourceEncoding::Rgb)
    } else if index == 2 {
        Some(SourceEncoding::Yuyv)
    } else {
        None
    }
}

/// Which candidates the caller admits.
#[derive(Clone, Copy, Debug, PartialEq, Eq, Structural)]
pub enum Preference {
    /// No encoding was named: every candidate is admitted.
    Any,
    /// A candidate was named: it alone is admitted.
    Only(SourceEncoding),
    /// A name was given that no candidate carries: none is admitted.
    Unknown,
}

impl Preference {
    /// Whether `encoding` may be negotiated under this preference.
    pub open spec fn admits(self, encoding: SourceEncoding) -> bool {
        match self {
            Preference::Any => true,
            Preference::Only(named) => named == encoding,
            Preference::Unknown => false,
        }
    }

    /// Whether `encoding` may be negotiated under this preference.
    pub fn allows(&self, encoding: SourceEncoding) -> (allowed: bool)
        ensures
            allowed == self.admits(encoding),
    {
        match self {
            Preference::Any => true,
            Preference::Only(named) => *named == encoding,
            Preference::Unknown => false,
        }
    }

    /// The candidate that carries `name`, if there is one.
    pub open spec fn candidate_named(name: Seq<char>) -> Option<SourceEncoding> {
        if name == SourceEncoding::Bgr.spec_name() {
            Some(SourceEncoding::Bgr)
        } else if name == SourceEncoding::Rgb.spec_name() {
            Some(SourceEncoding::Rgb)
        } else if name == SourceEncoding::Yuyv.spec_name() {
            Some(SourceEncoding::Yuyv)
        } else {
            None
        }
    }

    /// The preference that an optional converter name stands for. The
    /// name is compared as it is, letter for letter.
    pub open spec fn spec_for_name(name: Option<Seq<char>>) -> Preference {
        match name {
            None => Preference::Any,
            Some(name) => match Preference::candidate_named(name) {
                Some(encoding) => Preference::Only(encoding),
                None => Preference::Unknown,
            },
        }
    }

    /// The preference that an optional converter name stands for: any
    /// candidate where no name is given, the candidate of that name where
    /// there is one, and none where there is not.
    pub fn for_name(name: Option<&str>) -> (preference: Preference)
        ensures
            preference == Preference::spec_for_name(
                match name {
                    Some(name) => Some(name@),
                    None => None,
                },
            ),
    {
        let wanted: String = match name {
            Some(name) => name.to_owned(),
            None => {
                return Preference::Any;
            },
        };
        let mut index: usize = 0;
        while index < CANDIDATES
            invariant
                index <= CANDIDATES,
                name matches Some(given) && given@ == wanted@,
                forall|i: int|
                    0 <= i < index ==> wanted@ != (#[trigger] spec_candidates()[i]).spec_name(),
            decreases CANDIDATES - index,
        {
            let encoding = match candidate(index) {
                Some(encoding) => encoding,
                None => {
                    return Preference::Unknown;
                },
            };
            if encoding.name().to_owned() == wanted {
                proof {
                    // The names before this one differ from it.
                    distinct_names();
                    assert(index > 0 ==> wanted@ != spec_candidates()[0].spec_name());
                    assert(index > 1 ==> wanted@ != spec_candidates()[1].spec_name());
                }
                return Preference::Only(encoding);
            }
            index = index + 1;
        }
        // No candidate carries the name.
        assert(wanted@ != spec_candidates()[0].spec_name());
        assert(wanted@ != spec_candidates()[1].spec_name());
        assert(wanted@ != spec_candidates()[2].spec_name());
        Preference::Unknown
    }

    /// The preference that an optional converter name stands for once the
    /// name has been put in lower case.
    pub fn for_format(format: Option<&str>) -> (preference: Preference)
        ensures
            preference == Preference::spec_for_name(
                match format {
                    Some(name) => Some(lowercased(name@)),
                    None => None,
                },
            ),
    {
        match format {
            Some(name) => {
                let lower = to_lowercase(name);
                Preference::for_name(Some(lower.as_str()))
            },
            None => Preference::Any,
        }
    }
}

/// What the negotiator asks of its caller.
#[derive(Clone, Copy, Debug, PartialEq, Eq, Structural)]
pub enum NegotiationStep {
    /// Ask the device for this encoding and report its reply.
    Probe(SourceEncoding),
    /// Negotiation is over: the device delivers this encoding.
    Accept(SourceEncoding),
    /// Negotiation is over: no admitted candidate is supported.
    Fail(CaptureError),
}

/// The index of the first admitted candidate at or behind `from`.
pub open spec fn first_admitted(preference: Preference, from: int) -> Option<int>
    decreases spec_candidates().len() - from,
{
    if from < 0 || from >= spec_candidates().len() {
        None
    } else if preference.admits(spec_candidates()[from]) {
        Some(from)
    } else {
        first_admitted(preference, from + 1)
    }
}

/// The state of a negotiation: what is admitted, how many candidates have
/// been passed over, and the encoding that was accepted, if any.
#[derive(Clone, Copy, Debug, PartialEq, Eq, Structural)]
pub struct Negotiator {
    pub preference: Preference,
    pub position: usize,
    pub selected: Option<SourceEncoding>,
}

impl Negotiator {
    /// The state before the first probe.
    pub open spec fn initial(preference: Preference) -> Negotiator {
        Negotiator { preference, position: 0, selected: None }
    }

    /// The step that the state calls for: the accepted encoding once
    /// there is one, else a probe of the first admitted candidate that has
    /// not been passed over, else failure.
    pub open spec fn spec_step(self) -> NegotiationStep {
        match self.selected {
            Some(encoding) => NegotiationStep::Accept(encoding),
            None => match first_admitted(self.preference, self.position as int) {
                Some(index) => NegotiationStep::Probe(spec_candidates()[index]),
                None => NegotiationStep::Fail(CaptureError::NoSupportedFormat),
            },
        }
    }

    /// The state after the device has answered the pending probe: the
    /// probed encoding is selected where the reply was accepted and passed
    /// over where it was not. With no probe pending nothing changes.
    pub open spec fn spec_after_reply(self, accepted: bool) -> Negotiator {
        match self.selected {
            Some(_) => self,
            None => match first_admitted(self.preference, self.position as int) {
                Some(index) => if accepted {
                    Negotiator {
                        preference: self.preference,
                        position: index as usize,
                        selected: Some(spec_candidates()[index]),
                    }
                } else {
                    Negotiator {
                        preference: self.preference,
                        position: (index + 1) as usize,
                        selected: None,
                    }
                },
                None => self,
            },
        }
    }

    /// Where the negotiation ends against a device that supports exactly
    /// the encodings for which `supported` holds: the accepted encoding, or
    /// `None` for failure.
    pub open spec fn outcome(self, supported: spec_fn(SourceEncoding) -> bool) -> Option<
        SourceEncoding,
    >
        decreases
            if self.selected is Some {
                0
            } else {
                1 + spec_candidates().len() - self.position
            },
    {
        match self.spec_step() {
            NegotiationStep::Accept(encoding) => Some(encoding),
            NegotiationStep::Fail(_) => None,
            NegotiationStep::Probe(encoding) => {
                proof {
                    first_admitted_is_first(self.preference, self.position as int);
                }
                self.spec_after_reply(supported(encoding)).outcome(supported)
            },
        }
    }

    /// A negotiation for an optional converter name, which is put in
    /// lower case before it is compared.
    pub fn new(format: Option<&str>) -> (negotiator: Negotiator)
        ensures
            negotiator == Negotiator::initial(
                Preference::spec_for_name(
                    match format {
                        Some(name) => Some(lowercased(name@)),
                        None => None,
                    },
                ),
            ),
    {
        Negotiator::with_preference(Preference::for_format(format))
    }

    /// A negotiation for a preference that is already known.
    pub fn with_preference(preference: Preference) -> (negotiator: Negotiator)
        ensures
            negotiator == Negotiator::initial(preference),
    {
        Negotiator { preference, position: 0, selected: None }
    }

    /// The index of the candidate that is probed next, if one is left.
    fn pending(&self) -> (index: Option<usize>)
        ensures
            match index {
                Some(index) => first_admitted(self.preference, self.position as int) == Some(
                    index as int,
                ),
                None => first_admitted(self.preference, self.position as int) is None,
            },
    {
        let mut index: usize = self.position;
        while index < CANDIDATES
            invariant
                self.position <= index,
                first_admitted(self.preference, self.position as int) == first_admitted(
                    self.preference,
                    index as int,
                ),
            decreases CANDIDATES - index,
        {
            match candidate(index) {
                Some(encoding) => {
                    if self.preference.allows(encoding) {
                        return Some(index);
                    }
                },
                None => {},
            }
            index = index + 1;
        }
        None
    }

    /// The step that the negotiation calls for now.
    pub fn step(&self) -> (step: NegotiationStep)
        ensures
            step == self.spec_step(),
    {
        proof {
            first_admitted_is_first(self.preference, self.position as int);
        }
        match self.selected {
            Some(encoding) => NegotiationStep::Accept(encoding),
            None => match self.pending() {
                Some(index) => match candidate(index) {
                    Some(encoding) => NegotiationStep::Probe(encoding),
                    None => NegotiationStep::Fail(CaptureError::NoSupportedFormat),
                },
                None => NegotiationStep::Fail(CaptureError::NoSupportedFormat),
            },
        }
    }

    /// Takes in the device's reply to the probe that `step` asked for.
    pub fn on_reply(&mut self, reply: &ProbeReply)
        ensures
            *final(self) == old(self).spec_after_reply(reply.accepted()),
    {
        if self.selected.is_some() {
            return ;
        }
        proof {
            first_admitted_is_first(self.preference, self.position as int);
        }
        match self.pending() {
            Some(index) => {
                if supports_configuration(reply) {
                    self.position = index;
                    self.selected = candidate(index);
                } else {
                    self.position = index + 1;
                }
            },
            None => {},
        }
    }
}

/// Whether candidate `index` is both admitted and supported.
pub open spec fn eligible(
    preference: Preference,
    supported: spec_fn(SourceEncoding) -> bool,
    index: int,
) -> bool {
    &&& 0 <= index < spec_candidates().len()
    &&& preference.admits(spec_candidates()[index])
    &&& supported(spec_candidates()[index])
}

/// From any state without a selection, negotiation ends with the first
/// eligible candidate at or behind the position, and fails where there is
/// none.
pub proof fn outcome_is_first_eligible(
    negotiator: Negotiator,
    supported: spec_fn(SourceEncoding) -> bool,
)
    requires
        negotiator.selected is None,
    ensures
        match negotiator.outcome(supported) {
            Some(encoding) => exists|index: int|
                {
                    &&& negotiator.position <= index
                    &&& #[trigger] eligible(negotiator.preference, supported, index)
                    &&& spec_candidates()[index] == encoding
                    &&& forall|earlier: int|
                        negotiator.position <= earlier < index ==> !#[trigger] eligible(
                            negotiator.preference,
                            supported,
                            earlier,
                        )
                },
            None => forall|index: int|
                negotiator.position <= index ==> !#[trigger] eligible(
                    negotiator.preference,
                    supported,
                    index,
                ),
        },
    decreases spec_candidates().len() - negotiator.position,
{
    let preference = negotiator.preference;
    let position = negotiator.position as int;
    first_admitted_is_first(preference, position);
    match first_admitted(preference, position) {
        None => {},
        Some(index) => {
            let encoding = spec_candidates()[index];
            if supported(encoding) {
                // The probed candidate is accepted; none before it was admitted.
                let next = negotiator.spec_after_reply(true);
                assert(next.outcome(supported) == Some(encoding));
                assert(eligible(preference, supported, index));
            } else {
                // The probed candidate is passed over; induction covers the rest.
                let next = negotiator.spec_after_reply(false);
                outcome_is_first_eligible(next, supported);
                match next.outcome(supported) {
                    None => {},
                    Some(found) => {
                        let at = choose|at: int|
                            {
                                &&& next.position <= at
                                &&& #[trigger] eligible(preference, supported, at)
                                &&& spec_candidates()[at] == found
                                &&& forall|earlier: int|
                                    next.position <= earlier < at ==> !#[trigger] eligible(
                                        preference,
                                        supported,
                                        earlier,
                                    )
                            };
                        assert forall|earlier: int| position <= earlier < at implies !#[trigger] eligible(
                            preference,
                            supported,
                            earlier,
                        ) by {}
                    },
                }
            }
        },
    }
}

/// `first_admitted` names an admitted candidate at or behind `from` and
/// passes over no admitted one; it is `None` only where none is admitted.
pub proof fn first_admitted_is_first(preference: Preference, from: int)
    requires
        0 <= from,
    ensures
        match first_admitted(preference, from) {
            Some(index) => {
                &&& from <= index < spec_candidates().len()
                &&& preference.admits(spec_candidates()[index])
                &&& forall|earlier: int|
                    from <= earlier < index ==> !preference.admits(
                        #[trigger] spec_candidates()[earlier],
                    )
            },
            None => forall|index: int|
                from <= index < spec_candidates().len() ==> !preference.admits(
                    #[trigger] spec_candidates()[index],
                ),
        },
    decreases spec_candidates().len() - from,
{
    if from < spec_candidates().len() && !preference.admits(spec_candidates()[from]) {
        first_admitted_is_first(preference, from + 1);
    }
}

/// Against any device, a fresh negotiation ends with the first candidate
/// in the order of preference that is admitted and supported, and fails
/// exactly where no candidate is both.
pub proof fn negotiation_selects_first_supported(
    preference: Preference,
    supported: spec_fn(SourceEncoding) -> bool,
)
    ensures
        match Negotiator::initial(preference).outcome(supported) {
            Some(encoding) => exists|index: int|
                {
                    &&& #[trigger] eligible(preference, supported, index)
                    &&& spec_candidates()[index] == encoding
                    &&& forall|earlier: int|
                        0 <= earlier < index ==> !#[trigger] eligible(
                            preference,
                            supported,
                            earlier,
                        )
                },
            None => forall|index: int| !#[trigger] eligible(preference, supported, index),
        },
{
    outcome_is_first_eligible(Negotiator::initial(preference), supported);
}

/// A name that no candidate carries ends the negotiation before any
/// probe, whatever the device supports.
pub proof fn unknown_name_fails_at_once(supported: spec_fn(SourceEncoding) -> bool)
    ensures
        Negotiator::initial(Preference::Unknown).spec_step() == NegotiationStep::Fail(
            CaptureError::NoSupportedFormat,
        ),
        Negotiator::initial(Preference::Unknown).outcome(supported) is None,
{
    first_admitted_is_first(Preference::Unknown, 0);
}

/// No two candidates carry one name.
pub proof fn distinct_names()
    ensures
        SourceEncoding::Bgr.spec_name() != SourceEncoding::Rgb.spec_name(),
        SourceEncoding::Bgr.spec_name() != SourceEncoding::Yuyv.spec_name(),
        SourceEncoding::Rgb.spec_name() != SourceEncoding::Yuyv.spec_name(),
{
    reveal_strlit("bgr");
    reveal_strlit("rgb");
    reveal_strlit("yuyv");
    assert("bgr"@[0] != "rgb"@[0]);
    assert("bgr"@.len() != "yuyv"@.len());
    assert("rgb"@.len() != "yuyv"@.len());
}

} // verus!

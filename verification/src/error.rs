//! The failures of the channel and of its start-up, and how they are put
//! into words.

use vstd::prelude::*;
use vstd::string::StringExecFns;

verus! {

/// What went wrong on the channel. Where the operating system reported the
/// failure, its error number is kept as the cause.
#[derive(Clone, Copy, Debug, PartialEq, Eq, Structural)]
pub enum BusError {
    /// The device could not be opened.
    Open { errno: i32 },
    /// The readiness wait itself failed.
    Poll,
    /// No data arrived within the timeout.
    Timeout,
    /// The wait reported readiness, but not for reading.
    SpuriousReadiness,
    /// A chunk could not be read.
    Read { errno: i32 },
    /// The device did not accept a write.
    Write { errno: i32 },
    /// The handle could not be closed.
    Close { errno: i32 },
}

impl BusError {
    /// The text that describes this failure.
    pub open spec fn message_text(self) -> Seq<char> {
        match self {
            BusError::Open { .. } => "Could not access the bus"@,
            BusError::Poll => "Poll failed"@,
            BusError::Timeout => "Poll reached timeout"@,
            BusError::SpuriousReadiness => "Poll returned nothing"@,
            BusError::Read { .. } => "Could not read from poll"@,
            BusError::Write { .. } => "Could not write to the bus"@,
            BusError::Close { .. } => "Could not close the bus"@,
        }
    }

    /// The error number of the operating system that caused this failure, if
    /// there is one.
    pub open spec fn cause(self) -> Option<i32> {
        match self {
            BusError::Open { errno } => Some(errno),
            BusError::Read { errno } => Some(errno),
            BusError::Write { errno } => Some(errno),
            BusError::Close { errno } => Some(errno),
            BusError::Poll => None,
            BusError::Timeout => None,
            BusError::SpuriousReadiness => None,
        }
    }

    /// Describes the failure in words.
    pub fn message(&self) -> (text: &'static str)
        ensures
            text@ == self.message_text(),
    {
        match self {
            BusError::Open { .. } => "Could not access the bus",
            BusError::Poll => "Poll failed",
            BusError::Timeout => "Poll reached timeout",
            BusError::SpuriousReadiness => "Poll returned nothing",
            BusError::Read { .. } => "Could not read from poll",
            BusError::Write { .. } => "Could not write to the bus",
            BusError::Close { .. } => "Could not close the bus",
        }
    }

    /// The error number behind the failure, where the operating system gave
    /// one.
    pub fn errno(&self) -> (cause: Option<i32>)
        ensures
            cause == self.cause(),
    {
        match self {
            BusError::Open { errno } => Some(*errno),
            BusError::Read { errno } => Some(*errno),
            BusError::Write { errno } => Some(*errno),
            BusError::Close { errno } => Some(*errno),
            BusError::Poll => None,
            BusError::Timeout => None,
            BusError::SpuriousReadiness => None,
        }
    }
}

/// The words of `nix::errno::Errno` for an error number of the operating
/// system: `Errno::from_raw` picks the error that the number stands for on
/// the platform at hand, and its `Display` names and describes it. Nothing is
/// claimed of the text.
#[verifier::external_body]
fn os_error_text(errno: i32) -> (text: String) {
    nix::errno::Errno::from_raw(errno).to_string()
}

/// A step of the start-up.
#[derive(Clone, Copy, Debug, PartialEq, Eq, Structural)]
pub enum Stage {
    /// Opening the device.
    Open,
    /// Writing the probe.
    Write,
    /// Reading the answer to the probe.
    Read,
}

impl Stage {
    /// The text that says that this step failed.
    pub open spec fn context_text(self) -> Seq<char> {
        match self {
            Stage::Open => "Could not create access to the bus"@,
            Stage::Write => "Could not write to the bus"@,
            Stage::Read => "Could not read result from list call"@,
        }
    }

    /// Says in words that this step failed.
    pub fn context(&self) -> (text: &'static str)
        ensures
            text@ == self.context_text(),
    {
        match self {
            Stage::Open => "Could not create access to the bus",
            Stage::Write => "Could not write to the bus",
            Stage::Read => "Could not read result from list call",
        }
    }
}

/// A failed start-up: the step that failed, and why.
#[derive(Clone, Copy, Debug, PartialEq, Eq, Structural)]
pub struct BootError {
    pub stage: Stage,
    pub cause: BusError,
}

impl BootError {
    /// The causal chain of this failure in words, the outermost layer first:
    /// the step that failed, then the failure of the channel, then `os_text`
    /// where the operating system stands behind the failure. The probe is
    /// written straight to the handle, so a failed write has no layer of the
    /// channel of its own.
    pub open spec fn chain_text(self, os_text: Seq<char>) -> Seq<Seq<char>> {
        let layers = match self.stage {
            Stage::Write => seq![self.stage.context_text()],
            _ => seq![self.stage.context_text(), self.cause.message_text()],
        };
        match self.cause.cause() {
            Some(_) => layers.push(os_text),
            None => layers,
        }
    }

    /// Puts the causal chain of this failure into words, the outermost layer
    /// first. `os_text` is the operating system's description of the error
    /// number behind the failure; it ends the chain where there is such a
    /// number and is left out where there is none.
    pub fn chain(&self, os_text: &str) -> (lines: Vec<String>)
        ensures
            lines.deep_view() == self.chain_text(os_text@),
    {
        let mut lines: Vec<String> = Vec::new();
        lines.push(String::from_str(self.stage.context()));
        match self.stage {
            Stage::Write => {},
            _ => {
                lines.push(String::from_str(self.cause.message()));
            },
        }
        match self.cause.errno() {
            Some(_) => {
                lines.push(String::from_str(os_text));
            },
            None => {},
        }
        assert(lines.deep_view() =~= self.chain_text(os_text@));
        lines
    }

    /// Puts the causal chain of this failure into words, the outermost layer
    /// first, and ends it with the operating system's own words for the error
    /// number where the failure has one. The chain is that of [`Self::chain`]
    /// for those words, whatever they are.
    pub fn describe(&self) -> (lines: Vec<String>)
        ensures
            exists|os_text: Seq<char>| lines.deep_view() == self.chain_text(os_text),
    {
        match self.cause.errno() {
            Some(errno) => {
                let text = os_error_text(errno);
                self.chain(text.as_str())
            },
            None => self.chain(""),
        }
    }
}

/// The lines that name the causes of a failure, one for each cause.
pub open spec fn cause_lines(causes: Seq<Seq<char>>) -> Seq<char>
    decreases causes.len(),
{
    if causes.len() == 0 {
        Seq::empty()
    } else {
        cause_lines(causes.drop_last()) + "\t- "@ + causes.last() + "\n"@
    }
}

/// The report of a failure with the causal chain `chain`: the outermost
/// layer as the reason, then each cause beneath it on a line of its own. An
/// empty chain gives a report without reason and causes.
pub open spec fn report_text(chain: Seq<Seq<char>>) -> Seq<char> {
    if chain.len() > 0 {
        "An error has occurred; Reason:\n\t"@ + chain.first() + "\n\nStacktrace:\n"@
            + cause_lines(chain.skip(1))
    } else {
        "An error has occurred; Reason:\n\t"@ + "\n\nStacktrace:\n"@
    }
}

/// Writes the report of a failure that ends the process: the reason, which is
/// the first layer of `chain`, and then every further layer as a cause.
pub fn exit_report(chain: &Vec<String>) -> (text: String)
    ensures
        text@ == report_text(chain.deep_view()),
{
    let ghost layers = chain.deep_view();
    let mut text = String::from_str("An error has occurred; Reason:\n\t");
    if chain.len() == 0 {
        text.append("\n\nStacktrace:\n");
        return text;
    }
    text.append(chain[0].as_str());
    text.append("\n\nStacktrace:\n");
    let ghost head = text@;
    let mut i: usize = 1;
    assert(layers.skip(1).take(0) =~= Seq::empty());
    while i < chain.len()
        invariant
            1 <= i <= chain.len(),
            layers == chain.deep_view(),
            text@ == head + cause_lines(layers.skip(1).take(i - 1)),
        decreases chain.len() - i,
    {
        proof {
            let before = layers.skip(1).take(i - 1);
            let after = layers.skip(1).take(i as int);
            assert(after.drop_last() =~= before);
            assert(after.last() == chain[i as int]@);
        }
        text.append("\t- ");
        text.append(chain[i].as_str());
        text.append("\n");
        i += 1;
    }
    assert(layers.skip(1).take(i - 1) =~= layers.skip(1));
    text
}

} // verus!

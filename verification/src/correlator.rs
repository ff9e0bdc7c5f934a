//! Backend errors, and the step of the handshake that each one sends the
//! session back to.

use crate::errors::DecodeFailure;
use crate::family::check_class;
use crate::family::spec_class_failure;
use crate::family::Class;
use crate::raw::RawTaggedObject;
use vstd::prelude::*;

verus! {

/// A step of the handshake that an operator can be asked to repeat.
#[derive(Debug, Clone, Copy, PartialEq, Eq, Hash, Structural)]
pub enum HandshakeStep {
    /// The collection of the phone number.
    PhoneNumber,
    /// The collection of the authentication code.
    Code,
}

/// What a backend error means for the handshake.
#[derive(Debug, Clone, Copy, PartialEq, Eq, Hash, Structural)]
pub enum ErrorSignal {
    /// The error rejects what the operator entered at a step: the step is
    /// entered again.
    Recoverable(HandshakeStep),
    /// The backend limits the rate of requests: the caller should wait and
    /// retry. No step of the handshake is entered again.
    RateLimited,
    /// Code 400 with a message for which nothing is known to help: shown to
    /// the operator as it came, not retried.
    Unhandled,
    /// Any other code: shown to the operator as it came, not retried.
    Unclassified,
}

/// The code that stands for an error object without a code.
pub const NO_CODE: i32 = -1;

/// One row of the table that maps errors to signals.
#[derive(Debug, Clone, Copy)]
pub struct CorrelationRule {
    /// The code that the row is for.
    pub code: i32,
    /// The message that the row is for, letter for letter, or `None` where
    /// the code decides whatever the message is.
    pub message: Option<&'static str>,
    /// The signal that the row gives.
    pub signal: ErrorSignal,
}

impl View for CorrelationRule {
    type V = (i32, Option<Seq<char>>, ErrorSignal);

    open spec fn view(&self) -> (i32, Option<Seq<char>>, ErrorSignal) {
        (
            self.code,
            match self.message {
                Some(message) => Some(message@),
                None => None,
            },
            self.signal,
        )
    }
}

/// The table: code 8 rejects the phone number, whatever the message; under
/// code 400 three messages are known; code 429 limits the rate.
pub open spec fn spec_rules() -> Seq<(i32, Option<Seq<char>>, ErrorSignal)> {
    seq![
        (8i32, None, ErrorSignal::Recoverable(HandshakeStep::PhoneNumber)),
        (400i32, Some("PHONE_NUMBER_INVALID"@), ErrorSignal::Recoverable(HandshakeStep::PhoneNumber)),
        (400i32, Some("PHONE_CODE_INVALID"@), ErrorSignal::Recoverable(HandshakeStep::Code)),
        (400i32, Some("PHONE_CODE_EMPTY"@), ErrorSignal::Recoverable(HandshakeStep::Code)),
        (429i32, None, ErrorSignal::RateLimited),
    ]
}

/// Whether the row `rule` is for an error with code `code` and message
/// `message`.
pub open spec fn spec_applies(rule: (i32, Option<Seq<char>>, ErrorSignal), code: i32, message: Seq<char>)
    -> bool {
    rule.0 == code && (rule.1 is None || rule.1 == Some(message))
}

/// The signal of the first row of `rules`, from row `from` on, that is for
/// the error.
pub open spec fn spec_first_rule(
    rules: Seq<(i32, Option<Seq<char>>, ErrorSignal)>,
    from: int,
    code: i32,
    message: Seq<char>,
) -> Option<ErrorSignal>
    decreases rules.len() - from,
{
    if from < 0 || from >= rules.len() {
        None
    } else if spec_applies(rules[from], code, message) {
        Some(rules[from].2)
    } else {
        spec_first_rule(rules, from + 1, code, message)
    }
}

/// The signal for an error that no row of the table is for: under code 400
/// the error is unhandled, under any other code unclassified.
pub open spec fn spec_unmapped(code: i32) -> ErrorSignal {
    if code == 400 {
        ErrorSignal::Unhandled
    } else {
        ErrorSignal::Unclassified
    }
}

/// The signal for an error with code `code` and message `message`: that of
/// the first row of the table that is for it, if there is one.
pub open spec fn spec_correlate(code: i32, message: Seq<char>) -> ErrorSignal {
    match spec_first_rule(spec_rules(), 0, code, message) {
        Some(signal) => signal,
        None => spec_unmapped(code),
    }
}

/// The table that maps errors to signals, first row first.
pub fn rules() -> (r: Vec<CorrelationRule>)
    ensures
        r@.map_values(|rule: CorrelationRule| rule@) == spec_rules(),
{
    let mut table: Vec<CorrelationRule> = Vec::new();
    table.push(
        CorrelationRule {
            code: 8,
            message: None,
            signal: ErrorSignal::Recoverable(HandshakeStep::PhoneNumber),
        },
    );
    table.push(
        CorrelationRule {
            code: 400,
            message: Some("PHONE_NUMBER_INVALID"),
            signal: ErrorSignal::Recoverable(HandshakeStep::PhoneNumber),
        },
    );
    table.push(
        CorrelationRule {
            code: 400,
            message: Some("PHONE_CODE_INVALID"),
            signal: ErrorSignal::Recoverable(HandshakeStep::Code),
        },
    );
    table.push(
        CorrelationRule {
            code: 400,
            message: Some("PHONE_CODE_EMPTY"),
            signal: ErrorSignal::Recoverable(HandshakeStep::Code),
        },
    );
    table.push(CorrelationRule { code: 429, message: None, signal: ErrorSignal::RateLimited });
    assert(table@.map_values(|rule: CorrelationRule| rule@) =~= spec_rules());
    table
}

/// Judges one error against a table: gives the signal of the first row
/// that is for it, or `None` where no row is.
pub fn first_rule(table: &Vec<CorrelationRule>, code: i32, message: &str) -> (r: Option<ErrorSignal>)
    ensures
        r == spec_first_rule(table@.map_values(|rule: CorrelationRule| rule@), 0, code, message@),
{
    let ghost rows = table@.map_values(|rule: CorrelationRule| rule@);
    let mut i: usize = 0;
    while i < table.len()
        invariant
            i <= table.len(),
            rows == table@.map_values(|rule: CorrelationRule| rule@),
            spec_first_rule(rows, 0, code, message@) == spec_first_rule(
                rows,
                i as int,
                code,
                message@,
            ),
        decreases table.len() - i,
    {
        let rule = &table[i];
        assert(rows[i as int] == rule@);
        let applies = rule.code == code && match rule.message {
            Some(expected) => *expected == *message,
            None => true,
        };
        if applies {
            return Some(rule.signal);
        }
        i = i + 1;
    }
    None
}

/// Judges one backend error by its code and message alone. Nothing is
/// remembered from one error to the next.
pub fn correlate(code: i32, message: &str) -> (r: ErrorSignal)
    ensures
        r == spec_correlate(code, message@),
{
    let table = rules();
    match first_rule(&table, code, message) {
        Some(signal) => signal,
        None => if code == 400 {
            ErrorSignal::Unhandled
        } else {
            ErrorSignal::Unclassified
        },
    }
}

/// What the table comes to, row by row: code 8 gives the phone number,
/// whatever the message; code 400 gives the phone number for
/// `PHONE_NUMBER_INVALID`, the code for `PHONE_CODE_INVALID` and
/// `PHONE_CODE_EMPTY`, and is unhandled for any other message; code 429
/// limits the rate, whatever the message; any other code is unclassified.
pub proof fn lemma_correlation_table(code: i32, message: Seq<char>)
    ensures
        spec_correlate(code, message) == if code == 8 {
            ErrorSignal::Recoverable(HandshakeStep::PhoneNumber)
        } else if code == 400 {
            if message == "PHONE_NUMBER_INVALID"@ {
                ErrorSignal::Recoverable(HandshakeStep::PhoneNumber)
            } else if message == "PHONE_CODE_INVALID"@ || message == "PHONE_CODE_EMPTY"@ {
                ErrorSignal::Recoverable(HandshakeStep::Code)
            } else {
                ErrorSignal::Unhandled
            }
        } else if code == 429 {
            ErrorSignal::RateLimited
        } else {
            ErrorSignal::Unclassified
        },
{
    reveal_with_fuel(spec_first_rule, 6);
}

/// The signal depends on the code and the message of the one error and on
/// nothing else; only code 8 and code 400 ever send the session back to a
/// step, and code 429 never does.
pub proof fn lemma_correlation_is_stateless(code: i32, first: Seq<char>, second: Seq<char>)
    ensures
        first == second ==> spec_correlate(code, first) == spec_correlate(code, second),
        code == 8 || code == 429 ==> spec_correlate(code, first) == spec_correlate(code, second),
        spec_correlate(code, first) is Recoverable ==> code == 8 || code == 400,
        spec_correlate(code, first) == ErrorSignal::RateLimited <==> code == 429,
{
    lemma_correlation_table(code, first);
    lemma_correlation_table(code, second);
}

/// A backend error, decoded from an object tagged `error`.
#[derive(Debug)]
pub struct TGError {
    origin: RawTaggedObject,
}

impl View for TGError {
    type V = RawTaggedObject;

    /// The object that the error was decoded from.
    closed spec fn view(&self) -> RawTaggedObject {
        self.origin
    }
}

impl TGError {
    #[verifier::type_invariant]
    spec fn well_formed(self) -> bool {
        Self::spec_failure(self.origin) is None
    }

    /// Why `raw` does not decode as an error, or `None` where it does. No
    /// field of an error must be there.
    pub open spec fn spec_failure(raw: RawTaggedObject) -> Option<DecodeFailure> {
        spec_class_failure(raw.tag@, Class::Error)
    }

    /// The code of the error: the field `code`, or -1 where there is none.
    pub open spec fn spec_code(self) -> i32 {
        match self@.spec_int("code"@) {
            Some(code) => code,
            None => NO_CODE,
        }
    }

    /// The message of the error: the field `message`, or the word `None`
    /// where there is none.
    pub open spec fn spec_message(self) -> Seq<char> {
        match self@.spec_text("message"@) {
            Some(message) => message,
            None => "None"@,
        }
    }

    /// Decodes a tagged object as a backend error. Succeeds exactly where
    /// the tag is `error`.
    pub fn decode(raw: RawTaggedObject) -> (r: Result<TGError, DecodeFailure>)
        ensures
            match r {
                Ok(error) => error@ == raw && Self::spec_failure(raw) is None,
                Err(e) => Self::spec_failure(raw) == Some(e),
            },
    {
        if let Some(e) = check_class(raw.tag.as_str(), Class::Error) {
            return Err(e);
        }
        Ok(TGError { origin: raw })
    }

    /// The code of the error, or -1 where the backend sent none.
    pub fn code(&self) -> (r: i32)
        ensures
            r == self.spec_code(),
    {
        match self.origin.get_int("code") {
            Some(code) => code,
            None => NO_CODE,
        }
    }

    /// The message of the error, or the word `None` where the backend sent
    /// none.
    pub fn message(&self) -> (r: &str)
        ensures
            r@ == self.spec_message(),
    {
        match self.origin.get_text("message") {
            Some(message) => message.as_str(),
            None => "None",
        }
    }

    /// What the error means for the handshake.
    pub fn signal(&self) -> (r: ErrorSignal)
        ensures
            r == spec_correlate(self.spec_code(), self.spec_message()),
    {
        correlate(self.code(), self.message())
    }
}

} // verus!

//! The recovery resolver: what becomes of an outcome that holds no value.

use vstd::prelude::*;
use vstd::string::*;
use crate::groq_client::{
    BackendError, GroqClient, HttpRequest, message_model, message_models, schema_name_of,
    structured_body, COMPLETIONS_PATH, DEFAULT_BASE_URL, JSON_CONTENT_TYPE,
};
use crate::json::{JsonModel, json_model};
use crate::groq_client::models::KIMI_K2;
use crate::text::{debug_form, debug_form_of};

verus! {

/// The environment variable that supplies the API key.
pub const API_KEY_VARIABLE: &'static str = "GROQ_API";

/// The instruction that opens every recovery request.
pub const SYSTEM_INSTRUCTION: &'static str =
    "You are an AI error recovery assistant. When given an error message and program context, your task is to infer the most likely intended response or output. Do not explain the error—directly provide the corrected or plausible output as if the error had not occurred.";

/// Why recovery gave no value.
#[derive(Debug)]
pub enum RecoveryError {
    /// No API key is configured: nothing was sent.
    MissingApiKey,
    /// The backend was asked and gave no usable answer.
    Backend(BackendError),
}

impl RecoveryError {
    /// The diagnostic text of this error.
    pub open spec fn message_text(self) -> Seq<char> {
        match self {
            RecoveryError::MissingApiKey => API_KEY_VARIABLE@ + " environment variable not set"@,
            RecoveryError::Backend(error) => error.message_text(),
        }
    }

    pub fn message(&self) -> (text: String)
        ensures
            text@ == self.message_text(),
    {
        match self {
            RecoveryError::MissingApiKey => String::from_str(API_KEY_VARIABLE).concat(
                " environment variable not set",
            ),
            RecoveryError::Backend(error) => error.message(),
        }
    }
}

/// What the caller receives when recovery fails.
#[derive(Debug, Clone, Copy, PartialEq, Eq, Structural)]
pub enum Policy {
    /// The original outcome, unchanged.
    KeepOriginal,
    /// Nothing: the failure ends the calling flow.
    Abort,
}

/// The states of one resolution. An outcome enters at `Returned` or at
/// `AwaitingRecovery`; all states but `AwaitingRecovery` are terminal.
#[derive(Debug)]
pub enum Resolution<O> {
    /// The outcome held a value and is handed back as it is.
    Returned(O),
    /// The outcome held no value: recovery is to be attempted, once.
    AwaitingRecovery(O),
    /// Recovery gave a value, wrapped in the shape of the original outcome.
    Recovered(O),
    /// Recovery failed and the original outcome is handed back.
    Unrecovered(O, RecoveryError),
    /// Recovery failed and the calling flow is to end; the original outcome
    /// is kept for diagnostics.
    Aborted(O, RecoveryError),
}

impl<O> Resolution<O> {
    /// No backend call follows from this state.
    pub open spec fn is_terminal(self) -> bool {
        !(self is AwaitingRecovery)
    }

    /// The outcome that the caller receives in this state, if any.
    pub open spec fn delivered(self) -> Option<O> {
        match self {
            Resolution::Returned(outcome) => Some(outcome),
            Resolution::Recovered(outcome) => Some(outcome),
            Resolution::Unrecovered(original, _) => Some(original),
            Resolution::AwaitingRecovery(_) => None,
            Resolution::Aborted(_, _) => None,
        }
    }

    /// The outcome that the caller receives, if the resolution has ended
    /// with one.
    pub fn into_outcome(self) -> (outcome: Option<O>)
        ensures
            outcome == self.delivered(),
    {
        match self {
            Resolution::Returned(outcome) => Some(outcome),
            Resolution::Recovered(outcome) => Some(outcome),
            Resolution::Unrecovered(original, _) => Some(original),
            Resolution::AwaitingRecovery(_) => None,
            Resolution::Aborted(_, _) => None,
        }
    }
}

/// The state in which an outcome enters resolution: with a value it is
/// returned as it is, and without one it awaits recovery.
pub open spec fn entered<O>(outcome: O, has_value: bool) -> Resolution<O> {
    if has_value {
        Resolution::Returned(outcome)
    } else {
        Resolution::AwaitingRecovery(outcome)
    }
}

/// The state in which resolution ends once the one recovery attempt is over.
/// `recovered` is what the attempt gave, a value already wrapped in the
/// shape of the original outcome. An outcome that holds a value is returned
/// as it is, whatever the attempt gave.
pub open spec fn concluded<O>(
    original: O,
    has_value: bool,
    recovered: Result<O, RecoveryError>,
    policy: Policy,
) -> Resolution<O> {
    if has_value {
        Resolution::Returned(original)
    } else {
        match recovered {
            Ok(outcome) => Resolution::Recovered(outcome),
            Err(error) => match policy {
                Policy::KeepOriginal => Resolution::Unrecovered(original, error),
                Policy::Abort => Resolution::Aborted(original, error),
            },
        }
    }
}

/// An outcome that holds a value of type `T` or none, in one of two shapes:
/// a `Result`, which without a value holds a reason, and an `Option`.
pub trait UnwrapOrAi<T>: Sized {
    /// The value that the outcome holds, if any.
    spec fn held(&self) -> Option<T>;

    /// The outcome of this shape that holds `value`.
    spec fn rewrapped(value: T) -> Self;

    fn has_value(&self) -> (present: bool)
        ensures
            present == (self.held() is Some),
    ;

    /// The value held, or `fallback` where none is.
    fn into_value_or(self, fallback: T) -> (value: T)
        ensures
            value == (match self.held() {
                Some(own) => own,
                None => fallback,
            }),
    ;

    /// Enters resolution: an outcome with a value is returned as it is, and
    /// any other awaits recovery.
    fn unwrap_or_ai_impl(self) -> (state: Resolution<Self>)
        ensures
            state == entered(self, self.held() is Some),
    ;

    /// Ends resolution with the result of the one recovery attempt: a
    /// recovered value takes the shape of the original outcome, and a failed
    /// recovery is handled as `policy` says. An outcome that holds a value
    /// is returned as it is, whatever recovery gave.
    fn recover(self, recovery: Result<T, RecoveryError>, policy: Policy) -> (state: Resolution<
        Self,
    >)
        ensures
            state == concluded(
                self,
                self.held() is Some,
                match recovery {
                    Ok(value) => Ok(Self::rewrapped(value)),
                    Err(error) => Err(error),
                },
                policy,
            ),
            recovery matches Ok(value) ==> Self::rewrapped(value).held() == Some(value),
    ;
}

impl<T, E> UnwrapOrAi<T> for Result<T, E> {
    open spec fn held(&self) -> Option<T> {
        match *self {
            Ok(value) => Some(value),
            Err(_) => None,
        }
    }

    open spec fn rewrapped(value: T) -> Self {
        Ok(value)
    }

    fn has_value(&self) -> (present: bool) {
        self.is_ok()
    }

    fn into_value_or(self, fallback: T) -> (value: T) {
        match self {
            Ok(own) => own,
            Err(_) => fallback,
        }
    }

    fn unwrap_or_ai_impl(self) -> (state: Resolution<Self>) {
        match self {
            Ok(value) => Resolution::Returned(Ok(value)),
            Err(reason) => Resolution::AwaitingRecovery(Err(reason)),
        }
    }

    fn recover(self, recovery: Result<T, RecoveryError>, policy: Policy) -> (state: Resolution<
        Self,
    >) {
        match self {
            Ok(own) => Resolution::Returned(Ok(own)),
            Err(reason) => match recovery {
                Ok(value) => Resolution::Recovered(Ok(value)),
                Err(error) => match policy {
                    Policy::KeepOriginal => Resolution::Unrecovered(Err(reason), error),
                    Policy::Abort => Resolution::Aborted(Err(reason), error),
                },
            },
        }
    }
}

impl<T> UnwrapOrAi<T> for Option<T> {
    open spec fn held(&self) -> Option<T> {
        *self
    }

    open spec fn rewrapped(value: T) -> Self {
        Some(value)
    }

    fn has_value(&self) -> (present: bool) {
        self.is_some()
    }

    fn into_value_or(self, fallback: T) -> (value: T) {
        match self {
            Some(own) => own,
            None => fallback,
        }
    }

    fn unwrap_or_ai_impl(self) -> (state: Resolution<Self>) {
        match self {
            Some(value) => Resolution::Returned(Some(value)),
            None => Resolution::AwaitingRecovery(None),
        }
    }

    fn recover(self, recovery: Result<T, RecoveryError>, policy: Policy) -> (state: Resolution<
        Self,
    >) {
        match self {
            Some(own) => Resolution::Returned(Some(own)),
            None => match recovery {
                Ok(value) => Resolution::Recovered(Some(value)),
                Err(error) => match policy {
                    Policy::KeepOriginal => Resolution::Unrecovered(None, error),
                    Policy::Abort => Resolution::Aborted(None, error),
                },
            },
        }
    }
}

/// An outcome that holds a value enters resolution in a terminal state that
/// delivers this very outcome, so that no recovery is attempted for it; and
/// were the result of a recovery handed in all the same, the outcome would
/// still be returned as it is.
pub proof fn lemma_success_is_returned<O>(
    outcome: O,
    recovered: Result<O, RecoveryError>,
    policy: Policy,
)
    ensures
        entered(outcome, true).is_terminal(),
        entered(outcome, true).delivered() == Some(outcome),
        concluded(outcome, true, recovered, policy) == entered(outcome, true),
{
}

/// An outcome without a value awaits recovery, and whatever the one attempt
/// gives, resolution then ends: no state is entered twice.
pub proof fn lemma_one_attempt_ends_resolution<O>(
    original: O,
    recovered: Result<O, RecoveryError>,
    policy: Policy,
)
    ensures
        !entered(original, false).is_terminal(),
        entered(original, false).delivered() is None,
        concluded(original, false, recovered, policy).is_terminal(),
{
}

/// A failed `Result` for which recovery gives a value ends as the success
/// that holds this value, under either policy.
pub proof fn lemma_failed_result_recovers_into_success<T, E>(reason: E, value: T, policy: Policy)
    ensures
        concluded(
            Err::<T, E>(reason),
            false,
            Ok(<Result<T, E> as UnwrapOrAi<T>>::rewrapped(value)),
            policy,
        ).delivered() == Some(Ok::<T, E>(value)),
{
}

/// An absent `Option` for which recovery gives a value ends as the present
/// option that holds this value, under either policy.
pub proof fn lemma_absent_option_recovers_into_present<T>(value: T, policy: Policy)
    ensures
        concluded(
            None::<T>,
            false,
            Ok(<Option<T> as UnwrapOrAi<T>>::rewrapped(value)),
            policy,
        ).delivered() == Some(Some(value)),
{
}

/// Where recovery fails, the caller receives the original outcome unchanged
/// under `KeepOriginal` and nothing under `Abort`; the original outcome and
/// the error of the attempt are kept in the final state either way.
pub proof fn lemma_failed_recovery_follows_policy<O>(original: O, error: RecoveryError)
    ensures
        concluded(original, false, Err(error), Policy::KeepOriginal) == Resolution::Unrecovered(
            original,
            error,
        ),
        concluded(original, false, Err(error), Policy::KeepOriginal).delivered() == Some(original),
        concluded(original, false, Err(error), Policy::Abort) == Resolution::Aborted(
            original,
            error,
        ),
        concluded(original, false, Err(error), Policy::Abort).delivered() is None,
{
}

/// The two messages of a recovery request: the system instruction, then the
/// prompt as the user's message.
pub open spec fn recovery_messages(prompt: Seq<char>) -> Seq<JsonModel> {
    seq![message_model("system"@, SYSTEM_INSTRUCTION@), message_model("user"@, prompt)]
}

/// `request` is the recovery request made with the API key `key` for a
/// prompt, the path of the expected type and the schema of that type.
pub open spec fn is_recovery_request(
    request: HttpRequest,
    key: Seq<char>,
    prompt: Seq<char>,
    type_path: Seq<char>,
    schema: JsonModel,
) -> bool {
    &&& request.url@ == DEFAULT_BASE_URL@ + COMPLETIONS_PATH@
    &&& request.authorization@ == "Bearer "@ + key
    &&& request.content_type@ == JSON_CONTENT_TYPE@
    &&& json_model(request.body) == structured_body(
        KIMI_K2@,
        recovery_messages(prompt),
        schema_name_of(type_path),
        schema,
    )
}

/// The recovery request for a value of the type at `type_path`, or the
/// configuration error where no API key is given: then nothing is to be
/// sent.
pub fn call_ai_for_type(
    api_key: Option<String>,
    prompt: &str,
    type_path: &str,
    schema: serde_json::Value,
) -> (planned: Result<HttpRequest, RecoveryError>)
    ensures
        api_key is None ==> planned matches Err(RecoveryError::MissingApiKey),
        api_key matches Some(key) ==> planned matches Ok(request) && is_recovery_request(
            request,
            key@,
            prompt@,
            type_path@,
            json_model(schema),
        ),
{
    match api_key {
        None => Err(RecoveryError::MissingApiKey),
        Some(key) => {
            let client = GroqClient::new(key);
            let mut messages: Vec<(&str, &str)> = Vec::new();
            messages.push(("system", SYSTEM_INSTRUCTION));
            messages.push(("user", prompt));
            proof {
                assert(message_models(messages@) =~= recovery_messages(prompt@));
            }
            Ok(client.chat_completion_typed(KIMI_K2, messages, type_path, schema))
        },
    }
}

/// The result of a recovery attempt whose exchange with the backend ended
/// as `answer` says.
pub fn recovery_result<T>(answer: Result<T, BackendError>) -> (recovery: Result<T, RecoveryError>)
    ensures
        recovery == (match answer {
            Ok(value) => Ok::<T, RecoveryError>(value),
            Err(error) => Err::<T, RecoveryError>(RecoveryError::Backend(error)),
        }),
{
    match answer {
        Ok(value) => Ok(value),
        Err(error) => Err(RecoveryError::Backend(error)),
    }
}

pub const PROMPT_OPENING: &'static str = "The following function call failed: ";

pub const PROMPT_NAME_LABEL: &'static str = ")\n                Function name: ";

pub const PROMPT_PARAMETERS_LABEL: &'static str = "\n                Parameters: ";

pub const PROMPT_SOURCE_LABEL: &'static str = "\n                Source code: ";

pub const PROMPT_CALL_CLOSING: &'static str =
    "\n                \n                This function should return the appropriate type. Generate a reasonable response as valid JSON.";

pub const PROMPT_EXPRESSION_CLOSING: &'static str =
    "\n                \n                Generate a reasonable response as valid JSON that matches the expected return type.";

/// The recovery prompt for a failed call of a function by name: the call,
/// the function's name, the arguments in their quoted form, and the text
/// captured for the function.
pub open spec fn call_prompt_text(
    function: Seq<char>,
    arguments: Seq<char>,
    quoted_arguments: Seq<char>,
    source: Seq<char>,
) -> Seq<char> {
    PROMPT_OPENING@ + function + "("@ + arguments + PROMPT_NAME_LABEL@ + function
        + PROMPT_PARAMETERS_LABEL@ + quoted_arguments + PROMPT_SOURCE_LABEL@ + source
        + PROMPT_CALL_CLOSING@
}

/// The recovery prompt for a failed expression of any other form.
pub open spec fn expression_prompt_text(expression: Seq<char>) -> Seq<char> {
    PROMPT_OPENING@ + expression + PROMPT_EXPRESSION_CLOSING@
}

/// The recovery prompt for a failed call `function(arguments)`, where
/// `quoted_arguments` is the quoted form of the arguments and `source` the
/// text captured for the function.
pub fn call_prompt_with(
    function: &str,
    arguments: &str,
    quoted_arguments: &str,
    source: &str,
) -> (prompt: String)
    ensures
        prompt@ == call_prompt_text(function@, arguments@, quoted_arguments@, source@),
{
    String::from_str(PROMPT_OPENING).concat(function).concat("(").concat(arguments).concat(
        PROMPT_NAME_LABEL,
    ).concat(function).concat(PROMPT_PARAMETERS_LABEL).concat(quoted_arguments).concat(
        PROMPT_SOURCE_LABEL,
    ).concat(source).concat(PROMPT_CALL_CLOSING)
}

/// The recovery prompt for a failed call `function(arguments)`, where
/// `source` is the text captured for the function. The arguments are quoted
/// as `Debug` prints a text.
pub fn call_prompt(function: &str, arguments: &str, source: &str) -> (prompt: String)
    ensures
        prompt@ == call_prompt_text(function@, arguments@, debug_form_of(arguments@), source@),
{
    let quoted = debug_form(arguments);
    call_prompt_with(function, arguments, quoted.as_str(), source)
}

/// The recovery prompt for a failed expression, given as written.
pub fn expression_prompt(expression: &str) -> (prompt: String)
    ensures
        prompt@ == expression_prompt_text(expression@),
{
    String::from_str(PROMPT_OPENING).concat(expression).concat(PROMPT_EXPRESSION_CLOSING)
}

} // verus!

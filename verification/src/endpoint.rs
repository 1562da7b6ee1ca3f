//! Command dispatch: from the command name of an invocation to the endpoint
//! that serves it.

use vstd::prelude::*;
use crate::error::BridgeError;
use crate::error::ErrorKind;
use crate::error::ErrorView;
use crate::text::contains;
use crate::text::lemma_contains_middle;
use crate::text::same_text;

verus! {

/// The command that runs queries and mutations.
pub const QUERY_COMMAND: &'static str = "graphql";

/// The command that starts a subscription.
pub const SUBSCRIPTION_COMMAND: &'static str = "subscriptions";

/// The endpoints of the bridge.
#[derive(Clone, Copy, Debug, PartialEq, Eq, Structural)]
pub enum Endpoint {
    /// Executes a query or mutation, single or batched, and answers with its
    /// serialized result.
    Query,
    /// Starts a subscription and relays its results as events.
    Subscription,
}

/// The endpoint that `command` names, if any.
pub open spec fn endpoint_of(command: Seq<char>) -> Option<Endpoint> {
    if command == QUERY_COMMAND@ {
        Some(Endpoint::Query)
    } else if command == SUBSCRIPTION_COMMAND@ {
        Some(Endpoint::Subscription)
    } else {
        None
    }
}

/// The message that rejects `command`: it quotes the command and lists the
/// commands that would have been served.
pub open spec fn invalid_endpoint_message(command: Seq<char>) -> Seq<char> {
    "Invalid endpoint \""@ + command + "\". Valid endpoints are: \""@ + QUERY_COMMAND@ + "\", \""@
        + SUBSCRIPTION_COMMAND@ + "\"."@
}

impl Endpoint {
    /// The command that names this endpoint.
    pub fn command(self) -> (name: &'static str)
        ensures
            endpoint_of(name@) == Some(self),
    {
        match self {
            Endpoint::Query => QUERY_COMMAND,
            Endpoint::Subscription => {
                proof {
                    lemma_commands_differ();
                }
                SUBSCRIPTION_COMMAND
            },
        }
    }
}

/// The two command names are different texts.
pub proof fn lemma_commands_differ()
    ensures
        QUERY_COMMAND@ != SUBSCRIPTION_COMMAND@,
{
    reveal_strlit("graphql");
    reveal_strlit("subscriptions");
    assert(QUERY_COMMAND@.len() == 7);
    assert(SUBSCRIPTION_COMMAND@.len() == 13);
}

/// The rejection of a command that names no endpoint.
pub fn invalid_endpoint(command: &str) -> (e: BridgeError)
    ensures
        e@ == (ErrorView {
            kind: ErrorKind::InvalidEndpoint,
            message: invalid_endpoint_message(command@),
        }),
{
    let mut message = String::from_str("Invalid endpoint \"");
    message.append(command);
    message.append("\". Valid endpoints are: \"");
    message.append(QUERY_COMMAND);
    message.append("\", \"");
    message.append(SUBSCRIPTION_COMMAND);
    message.append("\".");
    BridgeError::new(ErrorKind::InvalidEndpoint, message)
}

/// Routes an invocation by its command name: to the endpoint that the name
/// stands for, or to a rejection that names the command and the valid ones.
pub fn dispatch(command: &str) -> (routed: Result<Endpoint, BridgeError>)
    ensures
        match endpoint_of(command@) {
            Some(endpoint) => routed == Ok::<Endpoint, BridgeError>(endpoint),
            None => routed matches Err(e) && e@ == (ErrorView {
                kind: ErrorKind::InvalidEndpoint,
                message: invalid_endpoint_message(command@),
            }),
        },
{
    if same_text(command, QUERY_COMMAND) {
        Ok(Endpoint::Query)
    } else if same_text(command, SUBSCRIPTION_COMMAND) {
        Ok(Endpoint::Subscription)
    } else {
        Err(invalid_endpoint(command))
    }
}

/// The rejection of an unknown command contains the command itself and the
/// names of both endpoints.
pub proof fn lemma_invalid_endpoint_message_names(command: Seq<char>)
    ensures
        contains(invalid_endpoint_message(command), command),
        contains(invalid_endpoint_message(command), QUERY_COMMAND@),
        contains(invalid_endpoint_message(command), SUBSCRIPTION_COMMAND@),
{
    let a = "Invalid endpoint \""@;
    let b = "\". Valid endpoints are: \""@;
    let c = "\", \""@;
    let d = "\"."@;
    let q = QUERY_COMMAND@;
    let s = SUBSCRIPTION_COMMAND@;
    let whole = invalid_endpoint_message(command);
    assert(whole =~= a + command + (b + q + c + s + d));
    lemma_contains_middle(a, command, b + q + c + s + d);
    assert(whole =~= (a + command + b) + q + (c + s + d));
    lemma_contains_middle(a + command + b, q, c + s + d);
    assert(whole =~= (a + command + b + q + c) + s + d);
    lemma_contains_middle(a + command + b + q + c, s, d);
}

} // verus!

//! Establishing the session: credentials taken as they are, or the
//! authorization handshake driven one round at a time.

use crate::config::Config;
use crate::errors::SocialError;
use vstd::prelude::*;
use vstd::string::StringExecFns;

verus! {

/// A key and its secret.
#[derive(Debug)]
pub struct KeyPair {
    pub key: String,
    pub secret: String,
}

/// The session token: the application's consumer pair and the account's access pair.
#[derive(Debug)]
pub struct Token {
    pub consumer: KeyPair,
    pub access: KeyPair,
}

impl KeyPair {
    /// A copy of this pair.
    pub fn duplicate(&self) -> (r: KeyPair)
        ensures
            r == *self,
    {
        KeyPair { key: self.key.clone(), secret: self.secret.clone() }
    }
}

impl Token {
    /// A copy of this token.
    pub fn duplicate(&self) -> (r: Token)
        ensures
            r == *self,
    {
        Token { consumer: self.consumer.duplicate(), access: self.access.duplicate() }
    }
}

/// Where the handshake stands.
#[derive(Debug)]
pub enum HandshakeStage {
    /// A temporary request token is to be asked for.
    RequestingToken,
    /// The operator is to open the authorization page and type the PIN.
    AwaitingPin { request: KeyPair },
    /// The PIN is to be exchanged for an access token.
    Exchanging { request: KeyPair, pin: String },
    /// The access token is to be checked against the service.
    Verifying { token: Token },
    /// The handshake succeeded.
    Authorized { token: Token },
    /// A round failed; the handshake is over.
    Failed,
}

/// The interactive authorization handshake for a consumer pair.
#[derive(Debug)]
pub struct Handshake {
    pub consumer: KeyPair,
    pub stage: HandshakeStage,
}

/// What the last round of the handshake brought back.
#[derive(Debug)]
pub enum HandshakeEvent {
    /// The service issued a temporary request token.
    RequestTokenIssued(KeyPair),
    /// The operator typed a PIN.
    PinEntered(String),
    /// The service exchanged the PIN for an access token.
    AccessTokenIssued(Token),
    /// The service accepted the access token.
    TokenVerified,
    /// The round could not be completed.
    RoundFailed,
}

/// The outside work that the handshake asks for next.
#[derive(Debug)]
pub enum HandshakeAction {
    /// Ask the service for a request token for this consumer pair.
    RequestToken(KeyPair),
    /// Show the operator the authorization page of this request token and read the PIN.
    AskForPin(KeyPair),
    /// Exchange the PIN for an access token.
    ExchangePin { consumer: KeyPair, request: KeyPair, pin: String },
    /// Check the token against the service.
    VerifyToken(Token),
    /// Nothing is left to do; this is the handshake's result.
    Finish(Result<Token, SocialError>),
}

/// The outcome of resolving the configuration into a session.
#[derive(Debug)]
pub enum Authorization {
    /// All four credentials were given: the token, with no call to the service.
    Ready(Token),
    /// Only the consumer pair was given: the handshake, not yet started.
    Handshake(Handshake),
}

pub open spec fn handshake_start(consumer: KeyPair) -> Handshake {
    Handshake { consumer, stage: HandshakeStage::RequestingToken }
}

/// The handshake after one event. A round succeeds only on its own reply: a
/// failure, or a reply that belongs to another round, ends the handshake as
/// failed. A finished handshake stays as it is.
pub open spec fn handshake_next(h: Handshake, e: HandshakeEvent) -> Handshake {
    let failed = Handshake { consumer: h.consumer, stage: HandshakeStage::Failed };
    match h.stage {
        HandshakeStage::Authorized { .. } => h,
        HandshakeStage::Failed => h,
        HandshakeStage::RequestingToken => match e {
            HandshakeEvent::RequestTokenIssued(request) => Handshake {
                consumer: h.consumer,
                stage: HandshakeStage::AwaitingPin { request },
            },
            _ => failed,
        },
        HandshakeStage::AwaitingPin { request } => match e {
            HandshakeEvent::PinEntered(pin) => Handshake {
                consumer: h.consumer,
                stage: HandshakeStage::Exchanging { request, pin },
            },
            _ => failed,
        },
        HandshakeStage::Exchanging { .. } => match e {
            HandshakeEvent::AccessTokenIssued(token) => Handshake {
                consumer: h.consumer,
                stage: HandshakeStage::Verifying { token },
            },
            _ => failed,
        },
        HandshakeStage::Verifying { token } => match e {
            HandshakeEvent::TokenVerified => Handshake {
                consumer: h.consumer,
                stage: HandshakeStage::Authorized { token },
            },
            _ => failed,
        },
    }
}

/// The outside work that a handshake in this state asks for.
pub open spec fn handshake_action(h: Handshake) -> HandshakeAction {
    match h.stage {
        HandshakeStage::RequestingToken => HandshakeAction::RequestToken(h.consumer),
        HandshakeStage::AwaitingPin { request } => HandshakeAction::AskForPin(request),
        HandshakeStage::Exchanging { request, pin } => HandshakeAction::ExchangePin {
            consumer: h.consumer,
            request,
            pin,
        },
        HandshakeStage::Verifying { token } => HandshakeAction::VerifyToken(token),
        HandshakeStage::Authorized { token } => HandshakeAction::Finish(Ok(token)),
        HandshakeStage::Failed => HandshakeAction::Finish(Err(SocialError::AuthorizationError)),
    }
}

/// The handshake after a sequence of events, taken in order.
pub open spec fn handshake_run(h: Handshake, events: Seq<HandshakeEvent>) -> Handshake
    decreases events.len(),
{
    if events.len() == 0 {
        h
    } else {
        handshake_run(handshake_next(h, events[0]), events.drop_first())
    }
}

impl Handshake {
    /// A handshake for this consumer pair whose first round is still to come.
    pub fn start(consumer: KeyPair) -> (r: Handshake)
        ensures
            r == handshake_start(consumer),
    {
        Handshake { consumer, stage: HandshakeStage::RequestingToken }
    }

    /// The outside work that this state asks for.
    pub fn action(&self) -> (r: HandshakeAction)
        ensures
            r == handshake_action(*self),
    {
        match &self.stage {
            HandshakeStage::RequestingToken => HandshakeAction::RequestToken(self.consumer.duplicate()),
            HandshakeStage::AwaitingPin { request } => HandshakeAction::AskForPin(request.duplicate()),
            HandshakeStage::Exchanging { request, pin } => HandshakeAction::ExchangePin {
                consumer: self.consumer.duplicate(),
                request: request.duplicate(),
                pin: pin.clone(),
            },
            HandshakeStage::Verifying { token } => HandshakeAction::VerifyToken(token.duplicate()),
            HandshakeStage::Authorized { token } => HandshakeAction::Finish(Ok(token.duplicate())),
            HandshakeStage::Failed => HandshakeAction::Finish(Err(SocialError::AuthorizationError)),
        }
    }

    /// Takes in what the last round brought back.
    pub fn step(self, e: HandshakeEvent) -> (r: Handshake)
        ensures
            r == handshake_next(self, e),
    {
        let Handshake { consumer, stage } = self;
        match stage {
            HandshakeStage::Authorized { token } => Handshake {
                consumer,
                stage: HandshakeStage::Authorized { token },
            },
            HandshakeStage::Failed => Handshake { consumer, stage: HandshakeStage::Failed },
            HandshakeStage::RequestingToken => match e {
                HandshakeEvent::RequestTokenIssued(request) => Handshake {
                    consumer,
                    stage: HandshakeStage::AwaitingPin { request },
                },
                _ => Handshake { consumer, stage: HandshakeStage::Failed },
            },
            HandshakeStage::AwaitingPin { request } => match e {
                HandshakeEvent::PinEntered(pin) => Handshake {
                    consumer,
                    stage: HandshakeStage::Exchanging { request, pin },
                },
                _ => Handshake { consumer, stage: HandshakeStage::Failed },
            },
            HandshakeStage::Exchanging { .. } => match e {
                HandshakeEvent::AccessTokenIssued(token) => Handshake {
                    consumer,
                    stage: HandshakeStage::Verifying { token },
                },
                _ => Handshake { consumer, stage: HandshakeStage::Failed },
            },
            HandshakeStage::Verifying { token } => match e {
                HandshakeEvent::TokenVerified => Handshake {
                    consumer,
                    stage: HandshakeStage::Authorized { token },
                },
                _ => Handshake { consumer, stage: HandshakeStage::Failed },
            },
        }
    }
}

/// How many successful rounds a handshake in this stage still needs.
pub open spec fn rounds_left(stage: HandshakeStage) -> nat {
    match stage {
        HandshakeStage::RequestingToken => 4,
        HandshakeStage::AwaitingPin { .. } => 3,
        HandshakeStage::Exchanging { .. } => 2,
        HandshakeStage::Verifying { .. } => 1,
        HandshakeStage::Authorized { .. } => 0,
        HandshakeStage::Failed => 0,
    }
}

proof fn lemma_failed_stays(h: Handshake, events: Seq<HandshakeEvent>)
    requires
        h.stage is Failed,
    ensures
        handshake_run(h, events) == h,
    decreases events.len(),
{
    if events.len() > 0 {
        lemma_failed_stays(handshake_next(h, events[0]), events.drop_first());
    }
}

proof fn lemma_authorized_stays(h: Handshake, events: Seq<HandshakeEvent>)
    requires
        h.stage is Authorized,
    ensures
        handshake_run(h, events) == h,
    decreases events.len(),
{
    if events.len() > 0 {
        lemma_authorized_stays(handshake_next(h, events[0]), events.drop_first());
    }
}

proof fn lemma_failure_within_rounds(h: Handshake, events: Seq<HandshakeEvent>, k: int)
    requires
        0 <= k < events.len(),
        events[k] is RoundFailed,
        h.stage is Failed || k < rounds_left(h.stage),
    ensures
        handshake_run(h, events).stage is Failed,
    decreases k,
{
    let n = handshake_next(h, events[0]);
    if h.stage is Failed {
        lemma_failed_stays(h, events);
    } else if k == 0 {
        lemma_failed_stays(n, events.drop_first());
    } else {
        lemma_failure_within_rounds(n, events.drop_first(), k - 1);
    }
}

/// If any of the four rounds of a handshake fails, the handshake ends as
/// failed and reports an authorization error, whatever follows.
pub proof fn lemma_failed_round_fails_handshake(
    consumer: KeyPair,
    events: Seq<HandshakeEvent>,
    k: int,
)
    requires
        0 <= k < 4,
        k < events.len(),
        events[k] is RoundFailed,
    ensures
        handshake_run(handshake_start(consumer), events).stage is Failed,
        handshake_action(handshake_run(handshake_start(consumer), events)) == HandshakeAction::Finish(
            Err(SocialError::AuthorizationError),
        ),
{
    lemma_failure_within_rounds(handshake_start(consumer), events, k);
}

/// When the four rounds succeed in order, the handshake ends authorized with
/// the access token that the exchange issued, whatever follows.
pub proof fn lemma_four_rounds_authorize(
    consumer: KeyPair,
    request: KeyPair,
    pin: String,
    token: Token,
    rest: Seq<HandshakeEvent>,
)
    ensures
        ({
            let events = seq![
                HandshakeEvent::RequestTokenIssued(request),
                HandshakeEvent::PinEntered(pin),
                HandshakeEvent::AccessTokenIssued(token),
                HandshakeEvent::TokenVerified,
            ] + rest;
            handshake_action(handshake_run(handshake_start(consumer), events))
                == HandshakeAction::Finish(Ok::<Token, SocialError>(token))
        }),
{
    let events = seq![
        HandshakeEvent::RequestTokenIssued(request),
        HandshakeEvent::PinEntered(pin),
        HandshakeEvent::AccessTokenIssued(token),
        HandshakeEvent::TokenVerified,
    ] + rest;
    let h0 = handshake_start(consumer);
    let h1 = handshake_next(h0, events[0]);
    let h2 = handshake_next(h1, events[1]);
    let h3 = handshake_next(h2, events[2]);
    let h4 = handshake_next(h3, events[3]);
    assert(h4.stage == HandshakeStage::Authorized { token });
    let e1 = events.drop_first();
    let e2 = e1.drop_first();
    let e3 = e2.drop_first();
    let e4 = e3.drop_first();
    assert(e4 =~= rest);
    lemma_authorized_stays(h4, rest);
    assert(handshake_run(h3, e3) == handshake_run(h4, e4));
    assert(handshake_run(h2, e2) == handshake_run(h3, e3));
    assert(handshake_run(h1, e1) == handshake_run(h2, e2));
    assert(handshake_run(h0, events) == handshake_run(h1, e1));
}

/// `r` reports that the configuration field named `field` is absent.
pub open spec fn is_missing(r: Result<Authorization, SocialError>, field: Seq<char>) -> bool {
    r matches Err(SocialError::MissingConfigurationError(f)) && f@ == field
}

/// The consumer pair of a configuration that holds one.
pub open spec fn consumer_of(c: Config) -> KeyPair {
    KeyPair { key: c.consumer_key->0, secret: c.consumer_secret->0 }
}

/// The access pair of a configuration that holds one.
pub open spec fn access_of(c: Config) -> KeyPair {
    KeyPair { key: c.access_token->0, secret: c.access_token_secret->0 }
}

fn missing(field: &str) -> (r: SocialError)
    ensures
        r matches SocialError::MissingConfigurationError(f) && f@ == field@,
{
    SocialError::MissingConfigurationError(String::from_str(field))
}

/// Resolves the configuration into a session. The consumer pair is required
/// and is checked first, key before secret, before anything else is done. With
/// both access credentials the token is built from the given strings as they
/// are; with neither, the handshake for the consumer pair is handed back, to
/// be driven round by round. One access credential without the other is
/// reported as missing.
pub fn authorize(config: &Config) -> (r: Result<Authorization, SocialError>)
    ensures
        config.consumer_key is None ==> is_missing(r, "consumer_key"@),
        config.consumer_key is Some && config.consumer_secret is None ==> is_missing(
            r,
            "consumer_secret"@,
        ),
        config.consumer_key is Some && config.consumer_secret is Some ==> {
            &&& config.access_token is None && config.access_token_secret is None ==> r == Ok::<
                Authorization,
                SocialError,
            >(Authorization::Handshake(handshake_start(consumer_of(*config))))
            &&& config.access_token is Some && config.access_token_secret is Some ==> r == Ok::<
                Authorization,
                SocialError,
            >(Authorization::Ready(Token { consumer: consumer_of(*config), access: access_of(*config) }))
            &&& config.access_token is None && config.access_token_secret is Some ==> is_missing(
                r,
                "access_token"@,
            )
            &&& config.access_token is Some && config.access_token_secret is None ==> is_missing(
                r,
                "access_token_secret"@,
            )
        },
{
    let consumer_key = match &config.consumer_key {
        Some(value) => value.clone(),
        None => return Err(missing("consumer_key")),
    };
    let consumer_secret = match &config.consumer_secret {
        Some(value) => value.clone(),
        None => return Err(missing("consumer_secret")),
    };
    let consumer = KeyPair { key: consumer_key, secret: consumer_secret };
    match (&config.access_token, &config.access_token_secret) {
        (None, None) => Ok(Authorization::Handshake(Handshake::start(consumer))),
        (Some(key), Some(secret)) => Ok(
            Authorization::Ready(
                Token { consumer, access: KeyPair { key: key.clone(), secret: secret.clone() } },
            ),
        ),
        (None, Some(_)) => Err(missing("access_token")),
        (Some(_), None) => Err(missing("access_token_secret")),
    }
}

} // verus!

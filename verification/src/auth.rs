//! The decisions of SSH user authentication.
//!
//! Public-key authentication comes first. If the server refuses it and
//! offers `password`, the configured password (or one the user types) is
//! tried once. If `keyboard-interactive` remains offered, the server's
//! prompts are answered until it accepts or refuses. The network exchanges,
//! prompts and key loading are performed by the caller, which feeds each
//! reply back as an event and performs the returned action.

use vstd::prelude::*;
use russh::MethodSet;
use crate::error::AnonError;
use crate::methods::{
    AuthMethod, clone_method_set, empty_method_set, format_methods, method_set_contents,
    methods_contain, methods_text,
};

verus! {

/// The server's answer to a public-key or password attempt.
pub enum AuthReply {
    Success,
    Failure { remaining_methods: MethodSet, partial_success: bool },
}

/// One prompt of a keyboard-interactive request.
pub struct KeyboardPrompt {
    pub prompt: String,
    pub echo: bool,
}

/// The server's answer during keyboard-interactive authentication.
pub enum KeyboardReply {
    Success,
    Failure { remaining_methods: MethodSet, partial_success: bool },
    InfoRequest { name: String, instructions: String, prompts: Vec<KeyboardPrompt> },
}

/// What the caller learned since the last action.
pub enum AuthEvent {
    PublicKeyReply(AuthReply),
    PasswordEntered(String),
    PasswordReply(AuthReply),
    KeyboardReply(KeyboardReply),
}

/// How to obtain the answer to one keyboard-interactive prompt.
pub enum Answer {
    /// Send this text (the configured password).
    Given(String),
    /// Show the prompt, read a line with echo, drop its line ending.
    ReadEchoed(String),
    /// Read a secret without echo after showing the prompt.
    ReadHidden(String),
}

/// What the caller must do next.
pub enum AuthAction {
    /// Ask the user for the SSH password; feed it back as `PasswordEntered`.
    PromptPassword,
    /// Attempt password authentication with this password.
    SendPassword(String),
    /// Start keyboard-interactive authentication.
    StartKeyboardInteractive,
    /// Show each notice on its own line, obtain the answers in order and
    /// send them back.
    Respond { notices: Vec<String>, answers: Vec<Answer> },
    /// The user is authenticated.
    Succeeded,
    /// Authentication failed.
    Failed(AnonError),
}

/// Where the exchange stands.
#[derive(PartialEq, Eq, Structural, Clone, Copy)]
pub enum AuthPhase {
    AwaitPublicKey,
    AwaitPasswordEntry,
    AwaitPassword,
    AwaitKeyboard,
    Finished,
}

/// The state of one authentication exchange.
pub struct Authenticator {
    pub configured_password: Option<String>,
    pub phase: AuthPhase,
}

/// The methods that remain after a reply: none after a success.
pub open spec fn remaining_of(r: AuthReply) -> Seq<AuthMethod> {
    match r {
        AuthReply::Success => Seq::empty(),
        AuthReply::Failure { remaining_methods, .. } => method_set_contents(remaining_methods),
    }
}

/// The methods that the server still offers after `result`.
pub fn auth_remaining(result: &AuthReply) -> (m: MethodSet)
    ensures
        method_set_contents(m) == remaining_of(*result),
{
    match result {
        AuthReply::Success => empty_method_set(),
        AuthReply::Failure { remaining_methods, .. } => clone_method_set(remaining_methods),
    }
}

/// Whether `event` is what the exchange waits for in `phase`.
pub open spec fn expects(phase: AuthPhase, event: AuthEvent) -> bool {
    match event {
        AuthEvent::PublicKeyReply(_) => phase == AuthPhase::AwaitPublicKey,
        AuthEvent::PasswordEntered(_) => phase == AuthPhase::AwaitPasswordEntry,
        AuthEvent::PasswordReply(_) => phase == AuthPhase::AwaitPassword,
        AuthEvent::KeyboardReply(_) => phase == AuthPhase::AwaitKeyboard,
    }
}

/// The notices shown before the prompts: the request's name and its
/// instructions, each only when non-empty.
pub open spec fn notices_of(name: Seq<char>, instructions: Seq<char>) -> Seq<Seq<char>> {
    (if name.len() > 0 {
        seq![name]
    } else {
        Seq::empty()
    }) + (if instructions.len() > 0 {
        seq![instructions]
    } else {
        Seq::empty()
    })
}

/// The configured password answers a request only when it consists of
/// exactly one prompt whose input is not echoed.
pub open spec fn answers_with_password(
    configured: Option<String>,
    prompts: Seq<KeyboardPrompt>,
) -> bool {
    configured is Some && prompts.len() == 1 && !prompts[0].echo
}

/// Whether `a` is how prompt `p` is answered.
pub open spec fn answer_for(
    a: Answer,
    p: KeyboardPrompt,
    configured: Option<String>,
    use_configured: bool,
) -> bool {
    if use_configured {
        a matches Answer::Given(s) && s@ == configured.unwrap()@
    } else if p.echo {
        a matches Answer::ReadEchoed(t) && t@ == p.prompt@
    } else {
        a matches Answer::ReadHidden(t) && t@ == p.prompt@
    }
}

/// The action once the server has named the methods that remain and
/// password authentication is no longer an option.
pub open spec fn keyboard_or_fail(ms: Seq<AuthMethod>, action: AuthAction, phase: AuthPhase) -> bool {
    if ms.contains(AuthMethod::KeyboardInteractive) {
        action matches AuthAction::StartKeyboardInteractive && phase == AuthPhase::AwaitKeyboard
    } else {
        &&& action matches AuthAction::Failed(AnonError::AuthenticationFailed(m))
        &&& m@ == methods_text(ms)
        &&& phase == AuthPhase::Finished
    }
}

/// The transition of the exchange for one event.
pub open spec fn auth_step(
    configured: Option<String>,
    event: AuthEvent,
    action: AuthAction,
    phase: AuthPhase,
) -> bool {
    match event {
        AuthEvent::PublicKeyReply(AuthReply::Success) => action matches AuthAction::Succeeded
            && phase == AuthPhase::Finished,
        AuthEvent::PublicKeyReply(AuthReply::Failure { remaining_methods, .. }) => {
            let ms = method_set_contents(remaining_methods);
            if ms.contains(AuthMethod::Password) {
                match configured {
                    Some(p) => action matches AuthAction::SendPassword(s) && s@ == p@ && phase
                        == AuthPhase::AwaitPassword,
                    None => action matches AuthAction::PromptPassword && phase
                        == AuthPhase::AwaitPasswordEntry,
                }
            } else {
                keyboard_or_fail(ms, action, phase)
            }
        },
        AuthEvent::PasswordEntered(p) => action matches AuthAction::SendPassword(s) && s@ == p@
            && phase == AuthPhase::AwaitPassword,
        AuthEvent::PasswordReply(AuthReply::Success) => action matches AuthAction::Succeeded
            && phase == AuthPhase::Finished,
        AuthEvent::PasswordReply(AuthReply::Failure { remaining_methods, .. }) => keyboard_or_fail(
            method_set_contents(remaining_methods),
            action,
            phase,
        ),
        AuthEvent::KeyboardReply(KeyboardReply::Success) => action matches AuthAction::Succeeded
            && phase == AuthPhase::Finished,
        AuthEvent::KeyboardReply(KeyboardReply::Failure { remaining_methods, partial_success }) => {
            &&& action matches AuthAction::Failed(
                AnonError::KeyboardInteractiveFailed(m, partial),
            )
            &&& m@ == methods_text(method_set_contents(remaining_methods))
            &&& partial == partial_success
            &&& phase == AuthPhase::Finished
        },
        AuthEvent::KeyboardReply(KeyboardReply::InfoRequest { name, instructions, prompts }) => {
            let use_configured = answers_with_password(configured, prompts@);
            &&& action matches AuthAction::Respond { notices, answers }
            &&& notices@.map_values(|n: String| n@) == notices_of(name@, instructions@)
            &&& answers@.len() == prompts@.len()
            &&& forall|i: int|
                0 <= i < prompts@.len() ==> answer_for(
                    #[trigger] answers@[i],
                    prompts@[i],
                    configured,
                    use_configured,
                )
            &&& phase == AuthPhase::AwaitKeyboard
        },
    }
}

fn keyboard_or_fail_action(remaining: &MethodSet) -> (r: (AuthAction, AuthPhase))
    ensures
        keyboard_or_fail(method_set_contents(*remaining), r.0, r.1),
{
    if methods_contain(remaining, AuthMethod::KeyboardInteractive) {
        (AuthAction::StartKeyboardInteractive, AuthPhase::AwaitKeyboard)
    } else {
        (
            AuthAction::Failed(AnonError::AuthenticationFailed(format_methods(remaining))),
            AuthPhase::Finished,
        )
    }
}

fn copy_string(s: &String) -> (c: String)
    ensures
        c@ == s@,
{
    s.clone()
}

impl Authenticator {
    /// A new exchange, waiting for the outcome of public-key authentication.
    pub fn new(configured_password: Option<String>) -> (a: Self)
        ensures
            a.configured_password == configured_password,
            a.phase == AuthPhase::AwaitPublicKey,
    {
        Authenticator { configured_password, phase: AuthPhase::AwaitPublicKey }
    }

    fn answers(&self, prompts: &Vec<KeyboardPrompt>) -> (answers: Vec<Answer>)
        ensures
            answers@.len() == prompts@.len(),
            forall|i: int|
                0 <= i < prompts@.len() ==> answer_for(
                    #[trigger] answers@[i],
                    prompts@[i],
                    self.configured_password,
                    answers_with_password(self.configured_password, prompts@),
                ),
    {
        let use_configured = self.configured_password.is_some() && prompts.len() == 1
            && !prompts[0].echo;
        let ghost configured = self.configured_password;
        let mut answers: Vec<Answer> = Vec::new();
        let mut i: usize = 0;
        while i < prompts.len()
            invariant
                i <= prompts@.len(),
                answers@.len() == i,
                configured == self.configured_password,
                use_configured == answers_with_password(configured, prompts@),
                forall|k: int|
                    0 <= k < i ==> answer_for(
                        #[trigger] answers@[k],
                        prompts@[k],
                        configured,
                        use_configured,
                    ),
            decreases prompts.len() - i,
        {
            let answer = if use_configured {
                match &self.configured_password {
                    Some(p) => Answer::Given(copy_string(p)),
                    None => Answer::Given(String::new()),
                }
            } else if prompts[i].echo {
                Answer::ReadEchoed(copy_string(&prompts[i].prompt))
            } else {
                Answer::ReadHidden(copy_string(&prompts[i].prompt))
            };
            answers.push(answer);
            i = i + 1;
        }
        answers
    }

    /// Advances the exchange by one event and returns what to do next.
    pub fn step(&mut self, event: AuthEvent) -> (action: AuthAction)
        requires
            expects(old(self).phase, event),
        ensures
            final(self).configured_password == old(self).configured_password,
            auth_step(old(self).configured_password, event, action, final(self).phase),
    {
        let ghost ev = event;
        match event {
            AuthEvent::PublicKeyReply(reply) => {
                if let AuthReply::Success = reply {
                    self.phase = AuthPhase::Finished;
                    return AuthAction::Succeeded;
                }
                let remaining = auth_remaining(&reply);
                if methods_contain(&remaining, AuthMethod::Password) {
                    match &self.configured_password {
                        Some(p) => {
                            self.phase = AuthPhase::AwaitPassword;
                            AuthAction::SendPassword(copy_string(p))
                        },
                        None => {
                            self.phase = AuthPhase::AwaitPasswordEntry;
                            AuthAction::PromptPassword
                        },
                    }
                } else {
                    let (action, phase) = keyboard_or_fail_action(&remaining);
                    self.phase = phase;
                    action
                }
            },
            AuthEvent::PasswordEntered(password) => {
                self.phase = AuthPhase::AwaitPassword;
                AuthAction::SendPassword(password)
            },
            AuthEvent::PasswordReply(reply) => {
                if let AuthReply::Success = reply {
                    self.phase = AuthPhase::Finished;
                    return AuthAction::Succeeded;
                }
                let remaining = auth_remaining(&reply);
                let (action, phase) = keyboard_or_fail_action(&remaining);
                self.phase = phase;
                action
            },
            AuthEvent::KeyboardReply(reply) => match reply {
                KeyboardReply::Success => {
                    self.phase = AuthPhase::Finished;
                    AuthAction::Succeeded
                },
                KeyboardReply::Failure { remaining_methods, partial_success } => {
                    self.phase = AuthPhase::Finished;
                    AuthAction::Failed(
                        AnonError::KeyboardInteractiveFailed(
                            format_methods(&remaining_methods),
                            partial_success,
                        ),
                    )
                },
                KeyboardReply::InfoRequest { name, instructions, prompts } => {
                    let ghost name_view = name@;
                    let ghost instructions_view = instructions@;
                    let mut notices: Vec<String> = Vec::new();
                    if name.unicode_len() > 0 {
                        notices.push(name);
                    }
                    let ghost after_name = notices@.map_values(|n: String| n@);
                    assert(after_name =~= notices_of(name_view, Seq::empty()));
                    if instructions.unicode_len() > 0 {
                        notices.push(instructions);
                    }
                    assert(notices@.map_values(|n: String| n@) =~= notices_of(
                        name_view,
                        instructions_view,
                    ));
                    let answers = self.answers(&prompts);
                    self.phase = AuthPhase::AwaitKeyboard;
                    AuthAction::Respond { notices, answers }
                },
            },
        }
    }
}

/// A finished exchange waits for nothing more.
pub proof fn lemma_finished_is_final(event: AuthEvent)
    ensures
        !expects(AuthPhase::Finished, event),
{
}

/// Once a password has been sent, no password is sent or asked for again:
/// the exchange only moves on to keyboard-interactive or ends.
pub proof fn lemma_password_sent_once(
    configured: Option<String>,
    phase: AuthPhase,
    event: AuthEvent,
    action: AuthAction,
    next: AuthPhase,
)
    requires
        phase == AuthPhase::AwaitPassword || phase == AuthPhase::AwaitKeyboard,
        expects(phase, event),
        auth_step(configured, event, action, next),
    ensures
        !(action is SendPassword),
        !(action is PromptPassword),
        next == AuthPhase::AwaitKeyboard || next == AuthPhase::Finished,
{
}

/// A password is only sent or asked for after the server refused the public
/// key and offered password authentication.
pub proof fn lemma_password_only_when_offered(
    configured: Option<String>,
    reply: AuthReply,
    action: AuthAction,
    next: AuthPhase,
)
    requires
        auth_step(configured, AuthEvent::PublicKeyReply(reply), action, next),
        action is SendPassword || action is PromptPassword,
    ensures
        reply is Failure,
        remaining_of(reply).contains(AuthMethod::Password),
{
}

/// Keyboard-interactive authentication starts only when the server offers
/// it, and a failure names exactly the methods the server still offers.
pub proof fn lemma_keyboard_only_when_offered(
    configured: Option<String>,
    event: AuthEvent,
    action: AuthAction,
    next: AuthPhase,
)
    requires
        event is PublicKeyReply || event is PasswordReply,
        auth_step(configured, event, action, next),
        !(action is SendPassword),
        !(action is PromptPassword),
        !(action is Succeeded),
    ensures
        ({
            let ms = match event {
                AuthEvent::PublicKeyReply(r) => remaining_of(r),
                AuthEvent::PasswordReply(r) => remaining_of(r),
                _ => Seq::empty(),
            };
            &&& (action is StartKeyboardInteractive <==> ms.contains(AuthMethod::KeyboardInteractive))
            &&& (action matches AuthAction::Failed(AnonError::AuthenticationFailed(m)) ==> m@
                == methods_text(ms))
        }),
{
}

/// A password that the server offers after refusing the public key is
/// always used: the configured one is sent as it is, and without one the
/// user is asked for it. Only afterwards can keyboard-interactive or a
/// failure follow.
pub proof fn lemma_offered_password_is_used(
    configured: Option<String>,
    remaining_methods: MethodSet,
    partial_success: bool,
    action: AuthAction,
    next: AuthPhase,
)
    requires
        method_set_contents(remaining_methods).contains(AuthMethod::Password),
        auth_step(
            configured,
            AuthEvent::PublicKeyReply(AuthReply::Failure { remaining_methods, partial_success }),
            action,
            next,
        ),
    ensures
        configured is None ==> action is PromptPassword && next == AuthPhase::AwaitPasswordEntry,
        configured matches Some(p) ==> (action matches AuthAction::SendPassword(s) && s@ == p@
            && next == AuthPhase::AwaitPassword),
        !(action is Failed),
        !(action is StartKeyboardInteractive),
{
}

/// A success reply of any kind ends the exchange successfully.
pub proof fn lemma_success_ends_authentication(
    configured: Option<String>,
    event: AuthEvent,
    action: AuthAction,
    next: AuthPhase,
)
    requires
        event matches AuthEvent::PublicKeyReply(AuthReply::Success) || event matches AuthEvent::PasswordReply(AuthReply::Success)
            || event matches AuthEvent::KeyboardReply(KeyboardReply::Success),
        auth_step(configured, event, action, next),
    ensures
        action is Succeeded,
        next == AuthPhase::Finished,
{
}

/// Every keyboard-interactive prompt gets exactly one answer, in order;
/// the configured password is handed out only for a request with a single
/// prompt whose input is not echoed, and an echoed prompt is always read
/// with echo.
pub proof fn lemma_keyboard_answers(
    configured: Option<String>,
    name: String,
    instructions: String,
    prompts: Vec<KeyboardPrompt>,
    action: AuthAction,
    next: AuthPhase,
)
    requires
        auth_step(
            configured,
            AuthEvent::KeyboardReply(KeyboardReply::InfoRequest { name, instructions, prompts }),
            action,
            next,
        ),
    ensures
        action matches AuthAction::Respond { answers, .. } && answers@.len() == prompts@.len() && (
        forall|i: int|
            0 <= i < prompts@.len() ==> {
                &&& (#[trigger] answers@[i] is Given ==> configured is Some && prompts@.len() == 1
                    && !prompts@[0].echo)
                &&& (prompts@[i].echo ==> (answers@[i] matches Answer::ReadEchoed(t) && t@
                    == prompts@[i].prompt@))
                &&& (configured is None ==> !(answers@[i] is Given))
            }),
        next == AuthPhase::AwaitKeyboard,
{
}

} // verus!

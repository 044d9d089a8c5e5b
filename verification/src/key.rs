//! Choosing the client's authentication key: a fresh Ed25519 key by
//! default, otherwise the key file given by the user, asking for its
//! passphrase only when the file turns out to be encrypted.

use vstd::prelude::*;
use vstd::string::*;

verus! {

/// What happened since the last action.
pub enum KeyEvent {
    /// Nothing yet: the choice begins.
    Start,
    /// The key file was read and decoded.
    Loaded,
    /// The key file is encrypted and needs a passphrase.
    Encrypted,
    /// Reading or decoding the key file failed for another reason.
    LoadFailed,
    /// The user typed this passphrase.
    PassphraseEntered(String),
}

/// Why the key could not be obtained.
#[derive(PartialEq, Eq, Structural, Clone, Copy, Debug)]
pub enum KeyFailure {
    /// The key file could not be read or decoded.
    Read,
    /// The encrypted key file could not be decrypted with the passphrase.
    Decrypt,
}

/// What the caller must do next.
pub enum KeyAction {
    /// Generate a fresh in-memory Ed25519 key and use it.
    GenerateEd25519,
    /// Read the key file, with this passphrase if any.
    Load { passphrase: Option<String> },
    /// Ask the user for the key file's passphrase.
    PromptPassphrase,
    /// Use the key that was just loaded.
    UseLoaded,
    /// Give up.
    Fail(KeyFailure),
}

/// Where the choice stands.
#[derive(PartialEq, Eq, Structural, Clone, Copy, Debug)]
pub enum KeyPhase {
    Begin,
    AwaitPlainLoad,
    AwaitPassphrase,
    AwaitDecryptingLoad,
    Done,
}

/// The state of choosing the key.
pub struct KeyLoader {
    pub has_path: bool,
    pub phase: KeyPhase,
}

/// Whether `event` is what the choice waits for in `phase`.
pub open spec fn key_expects(phase: KeyPhase, event: KeyEvent) -> bool {
    match phase {
        KeyPhase::Begin => event is Start,
        KeyPhase::AwaitPlainLoad => event is Loaded || event is Encrypted || event is LoadFailed,
        KeyPhase::AwaitPassphrase => event is PassphraseEntered,
        KeyPhase::AwaitDecryptingLoad => event is Loaded || event is Encrypted || event
            is LoadFailed,
        KeyPhase::Done => false,
    }
}

/// The transition for one event.
pub open spec fn key_step(
    has_path: bool,
    phase: KeyPhase,
    event: KeyEvent,
    action: KeyAction,
    next: KeyPhase,
) -> bool {
    match phase {
        KeyPhase::Begin => if has_path {
            action matches KeyAction::Load { passphrase: None } && next == KeyPhase::AwaitPlainLoad
        } else {
            action is GenerateEd25519 && next == KeyPhase::Done
        },
        KeyPhase::AwaitPlainLoad => match event {
            KeyEvent::Loaded => action is UseLoaded && next == KeyPhase::Done,
            KeyEvent::Encrypted => action is PromptPassphrase && next == KeyPhase::AwaitPassphrase,
            _ => action == KeyAction::Fail(KeyFailure::Read) && next == KeyPhase::Done,
        },
        KeyPhase::AwaitPassphrase => match event {
            KeyEvent::PassphraseEntered(p) => action matches KeyAction::Load {
                passphrase: Some(q),
            } && q@ == p@ && next == KeyPhase::AwaitDecryptingLoad,
            _ => false,
        },
        KeyPhase::AwaitDecryptingLoad => match event {
            KeyEvent::Loaded => action is UseLoaded && next == KeyPhase::Done,
            _ => action == KeyAction::Fail(KeyFailure::Decrypt) && next == KeyPhase::Done,
        },
        KeyPhase::Done => false,
    }
}

impl KeyLoader {
    /// A new choice; `has_path` tells whether the user named a key file.
    pub fn new(has_path: bool) -> (k: Self)
        ensures
            k.has_path == has_path,
            k.phase == KeyPhase::Begin,
    {
        KeyLoader { has_path, phase: KeyPhase::Begin }
    }

    /// Advances the choice by one event.
    pub fn step(&mut self, event: KeyEvent) -> (action: KeyAction)
        requires
            key_expects(old(self).phase, event),
        ensures
            final(self).has_path == old(self).has_path,
            key_step(old(self).has_path, old(self).phase, event, action, final(self).phase),
    {
        match self.phase {
            KeyPhase::Begin => {
                if self.has_path {
                    self.phase = KeyPhase::AwaitPlainLoad;
                    KeyAction::Load { passphrase: None }
                } else {
                    self.phase = KeyPhase::Done;
                    KeyAction::GenerateEd25519
                }
            },
            KeyPhase::AwaitPlainLoad => {
                self.phase = match event {
                    KeyEvent::Encrypted => KeyPhase::AwaitPassphrase,
                    _ => KeyPhase::Done,
                };
                match event {
                    KeyEvent::Loaded => KeyAction::UseLoaded,
                    KeyEvent::Encrypted => KeyAction::PromptPassphrase,
                    _ => KeyAction::Fail(KeyFailure::Read),
                }
            },
            KeyPhase::AwaitPassphrase => {
                self.phase = KeyPhase::AwaitDecryptingLoad;
                match event {
                    KeyEvent::PassphraseEntered(p) => KeyAction::Load { passphrase: Some(p) },
                    _ => KeyAction::Fail(KeyFailure::Decrypt),
                }
            },
            KeyPhase::AwaitDecryptingLoad => {
                self.phase = KeyPhase::Done;
                match event {
                    KeyEvent::Loaded => KeyAction::UseLoaded,
                    _ => KeyAction::Fail(KeyFailure::Decrypt),
                }
            },
            KeyPhase::Done => KeyAction::Fail(KeyFailure::Read),
        }
    }
}

impl KeyFailure {
    /// The context given to the underlying error, naming the key file.
    pub fn context(&self, path: &str) -> (m: String)
        ensures
            m@ == match *self {
                KeyFailure::Read => "read private key "@ + path@,
                KeyFailure::Decrypt => "decrypt private key "@ + path@,
            },
    {
        let mut m = match self {
            KeyFailure::Read => String::from_str("read private key "),
            KeyFailure::Decrypt => String::from_str("decrypt private key "),
        };
        m.append(path);
        m
    }
}

/// Without a key file no file is read and no passphrase is asked: a fresh
/// key is generated at once.
pub proof fn lemma_default_key_is_ephemeral(event: KeyEvent, action: KeyAction, next: KeyPhase)
    requires
        key_expects(KeyPhase::Begin, event),
        key_step(false, KeyPhase::Begin, event, action, next),
    ensures
        action is GenerateEd25519,
        next == KeyPhase::Done,
{
}

/// The passphrase is asked for only after the key file was found to be
/// encrypted, and at most once: after it, the choice only loads or ends.
pub proof fn lemma_passphrase_asked_once(
    has_path: bool,
    phase: KeyPhase,
    event: KeyEvent,
    action: KeyAction,
    next: KeyPhase,
)
    requires
        key_expects(phase, event),
        key_step(has_path, phase, event, action, next),
    ensures
        action is PromptPassphrase ==> phase == KeyPhase::AwaitPlainLoad && event is Encrypted,
        phase == KeyPhase::AwaitPassphrase || phase == KeyPhase::AwaitDecryptingLoad ==> !(
        action is PromptPassphrase) && next != KeyPhase::AwaitPlainLoad && next
            != KeyPhase::AwaitPassphrase,
{
}

/// A key that loaded is used: whether it was read in plain or decrypted
/// with the passphrase, a `Loaded` event never ends in a failure.
pub proof fn lemma_loaded_key_is_used(
    has_path: bool,
    phase: KeyPhase,
    action: KeyAction,
    next: KeyPhase,
)
    requires
        key_expects(phase, KeyEvent::Loaded),
        key_step(has_path, phase, KeyEvent::Loaded, action, next),
    ensures
        action is UseLoaded,
        next == KeyPhase::Done,
{
}

/// The passphrase that the user typed is the one the key file is read
/// with.
pub proof fn lemma_passphrase_is_passed_on(
    has_path: bool,
    p: String,
    action: KeyAction,
    next: KeyPhase,
)
    requires
        key_step(has_path, KeyPhase::AwaitPassphrase, KeyEvent::PassphraseEntered(p), action, next),
    ensures
        action matches KeyAction::Load { passphrase: Some(q) } && q@ == p@,
{
}

/// An encrypted key file leads to exactly one passphrase prompt; any other
/// failure to read the file ends the choice with a read failure.
pub proof fn lemma_plain_load_outcomes(has_path: bool, event: KeyEvent, action: KeyAction, next: KeyPhase)
    requires
        key_expects(KeyPhase::AwaitPlainLoad, event),
        key_step(has_path, KeyPhase::AwaitPlainLoad, event, action, next),
    ensures
        event is Encrypted ==> action is PromptPassphrase && next == KeyPhase::AwaitPassphrase,
        event is LoadFailed ==> action == KeyAction::Fail(KeyFailure::Read) && next == KeyPhase::Done,
{
}

} // verus!

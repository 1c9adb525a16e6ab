//! The part a peer plays in a session.

use std::str::FromStr;
use vstd::prelude::*;

verus! {

/// The part a peer plays, fixed for the whole session.
///
/// The initiator dials the other peer through the relay and drives the
/// measurement. The responder reserves a slot at the relay and waits.
#[derive(Clone, Copy, Debug, PartialEq, Eq, Structural)]
pub enum SessionRole {
    Initiator,
    Responder,
}

/// The word that selects the initiator.
pub open spec fn dial_word() -> Seq<char> {
    "dial"@
}

/// The word that selects the responder.
pub open spec fn listen_word() -> Seq<char> {
    "listen"@
}

/// What a word that selects no role is answered with.
pub open spec fn role_refusal() -> Seq<char> {
    "Expected either 'dial' or 'listen'"@
}

/// The role that a word selects, if it selects one.
pub open spec fn role_of_word(word: Seq<char>) -> Option<SessionRole> {
    if word == dial_word() {
        Some(SessionRole::Initiator)
    } else if word == listen_word() {
        Some(SessionRole::Responder)
    } else {
        None
    }
}

/// The two words differ, so no word selects both roles.
pub proof fn lemma_role_words_differ()
    ensures
        dial_word() != listen_word(),
        role_of_word(dial_word()) == Some(SessionRole::Initiator),
        role_of_word(listen_word()) == Some(SessionRole::Responder),
{
    reveal_strlit("dial");
    reveal_strlit("listen");
    assert(dial_word().len() == 4);
    assert(listen_word().len() == 6);
}

impl SessionRole {
    /// Reads a role from the word that names it on the command line.
    pub fn parse(word: &str) -> (r: Result<SessionRole, String>)
        ensures
            match role_of_word(word@) {
                Some(role) => r == Ok::<SessionRole, String>(role),
                None => r is Err && r->Err_0@ == role_refusal(),
            },
    {
        let given = word.to_owned();
        if given == "dial".to_owned() {
            Ok(SessionRole::Initiator)
        } else if given == "listen".to_owned() {
            Ok(SessionRole::Responder)
        } else {
            Err("Expected either 'dial' or 'listen'".to_owned())
        }
    }

    /// The word that names this role.
    pub fn word(&self) -> (word: &'static str)
        ensures
            role_of_word(word@) == Some(*self),
    {
        proof {
            lemma_role_words_differ();
        }
        match self {
            SessionRole::Initiator => "dial",
            SessionRole::Responder => "listen",
        }
    }
}

impl FromStr for SessionRole {
    type Err = String;

    fn from_str(word: &str) -> (r: Result<SessionRole, String>)
        ensures
            match role_of_word(word@) {
                Some(role) => r == Ok::<SessionRole, String>(role),
                None => r is Err && r->Err_0@ == role_refusal(),
            },
    {
        SessionRole::parse(word)
    }
}

} // verus!

use vstd::prelude::*;
use crate::text::{decimal_of, push_decimal, push_text};

verus! {

/// The port the server listens on remotely and the tunnel serves locally.
pub const SERVER_PORT: u16 = 8765;

/// What `serde_json::to_string` writes for a string with these characters:
/// the quoted, escaped JSON string.
pub uninterp spec fn json_string_of(s: Seq<char>) -> Seq<char>;

#[verifier::external_type_specification]
#[verifier::external_body]
pub struct ExJsonError(serde_json::Error);

/// Relies on `serde_json::to_string` applied to a string slice: the JSON
/// string for those characters, a function of them alone. A string slice is
/// written into a `Vec<u8>`, whose writes do not fail, so the result is `Ok`.
#[verifier::external_body]
fn json_string(s: &str) -> (r: Result<String, serde_json::Error>)
    ensures
        r is Ok,
        r matches Ok(t) ==> t@ == json_string_of(s@),
{
    serde_json::to_string(s)
}

/// The session record, given the host already as a JSON string: an object
/// with exactly the members `host` and `port`, in that order.
pub open spec fn record_spec(quoted_host: Seq<char>, port: nat) -> Seq<char> {
    "{\"host\":"@ + quoted_host + ",\"port\":"@ + decimal_of(port) + "}"@
}

/// The session directory under the home directory `home`.
pub open spec fn session_dir_spec(home: Seq<char>) -> Seq<char> {
    home + "/.socratic-shell/theoldswitcheroo"@
}

/// The session record's path under the home directory `home`.
pub open spec fn session_file_spec(home: Seq<char>) -> Seq<char> {
    session_dir_spec(home) + "/session.json"@
}

/// The session record for a host already written as a JSON string.
pub fn record_from_quoted(quoted_host: &str, port: u16) -> (r: String)
    ensures
        r@ == record_spec(quoted_host@, port as nat),
{
    let mut r = String::from_str("{\"host\":");
    push_text(&mut r, quoted_host);
    push_text(&mut r, ",\"port\":");
    push_decimal(&mut r, port);
    push_text(&mut r, "}");
    r
}

/// The session record for `host` and `port`, the host written as a JSON
/// string.
pub fn session_record(host: &str, port: u16) -> (r: String)
    ensures
        r@ == record_spec(json_string_of(host@), port as nat),
{
    match json_string(host) {
        Ok(q) => record_from_quoted(q.as_str(), port),
        Err(_) => String::new(),
    }
}

/// The session directory under the home directory `home`.
pub fn session_dir(home: &str) -> (r: String)
    ensures
        r@ == session_dir_spec(home@),
{
    let mut r = String::from_str(home);
    push_text(&mut r, "/.socratic-shell/theoldswitcheroo");
    r
}

/// The session record's path under the home directory `home`.
pub fn session_file(home: &str) -> (r: String)
    ensures
        r@ == session_file_spec(home@),
{
    let mut r = session_dir(home);
    push_text(&mut r, "/session.json");
    r
}

/// What a cleanup does with the session record.
#[derive(Clone, Copy, Debug, PartialEq, Eq, Structural)]
pub enum CleanupAction {
    /// Delete the record and confirm that the remote server is going away.
    RemoveAndConfirm,
    /// Nothing to delete; not an error.
    Nothing,
}

/// The cleanup decision: remove the record if it is there, do nothing if not.
pub fn cleanup_action(record_present: bool) -> (r: CleanupAction)
    ensures
        r == (if record_present { CleanupAction::RemoveAndConfirm } else { CleanupAction::Nothing }),
{
    if record_present {
        CleanupAction::RemoveAndConfirm
    } else {
        CleanupAction::Nothing
    }
}

/// The record file's contents after writing `record`: exactly that record.
pub open spec fn after_write(file: Option<Seq<char>>, record: Seq<char>) -> Option<Seq<char>> {
    Some(record)
}

/// The record file after a cleanup that took `action`.
pub open spec fn after_cleanup(file: Option<Seq<char>>, action: CleanupAction) -> Option<Seq<char>> {
    match action {
        CleanupAction::RemoveAndConfirm => None,
        CleanupAction::Nothing => file,
    }
}

/// A written record holds the host and port passed; a cleanup removes it, and
/// a cleanup of an absent record does nothing and leaves it absent, so either
/// path may run it any number of times.
pub proof fn lemma_session_lifecycle(file: Option<Seq<char>>, quoted_host: Seq<char>, port: u16)
    ensures
        after_write(file, record_spec(quoted_host, port as nat)) == Some(record_spec(quoted_host, port as nat)),
        after_cleanup(
            after_write(file, record_spec(quoted_host, port as nat)),
            if after_write(file, record_spec(quoted_host, port as nat)) is Some {
                CleanupAction::RemoveAndConfirm
            } else {
                CleanupAction::Nothing
            },
        ) is None,
        after_cleanup(None, CleanupAction::Nothing) is None,
        after_cleanup(file, if file is Some { CleanupAction::RemoveAndConfirm } else { CleanupAction::Nothing }) is None,
{
}

} // verus!

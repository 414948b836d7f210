use vstd::prelude::*;

verus! {

/// Why the active workspace could not be told.
#[derive(Clone, Copy, Debug, PartialEq, Eq, Structural)]
pub enum ProbeError {
    /// The query could not be started.
    Unavailable,
    /// The query ended with a failure status.
    Failed,
    /// The query's output is no JSON document.
    Unparsable,
}

/// The name of the special workspace that games run on.
pub open spec fn game_workspace() -> Seq<char> {
    "special:steam"@
}

/// For a JSON document, the string under "workspace"/"name" if there is one;
/// none when the output is no JSON document.
pub uninterp spec fn workspace_name_in(out: Seq<u8>) -> Option<Option<Seq<char>>>;

pub open spec fn name_view(o: Option<String>) -> Option<Seq<char>> {
    match o {
        Some(s) => Some(s@),
        None => None,
    }
}

/// What a finished query tells of the workspace.
pub open spec fn detect_spec(exit_success: bool, out: Seq<u8>) -> Result<bool, ProbeError> {
    if !exit_success {
        Err(ProbeError::Failed)
    } else {
        match workspace_name_in(out) {
            None => Err(ProbeError::Unparsable),
            Some(name) => Ok(name == Some(game_workspace())),
        }
    }
}

/// Relies on serde_json::from_slice into a Value, then Value::pointer and
/// Value::as_str for the workspace's name.
#[verifier::external_body]
fn read_workspace_name(out: &[u8]) -> (r: Option<Option<String>>)
    ensures
        match r {
            None => workspace_name_in(out@) is None,
            Some(o) => workspace_name_in(out@) == Some(name_view(o)),
        },
{
    let v: serde_json::Value = serde_json::from_slice(out).ok()?;
    Some(v.pointer("/workspace/name").and_then(serde_json::Value::as_str).map(String::from))
}

/// Tells from a finished workspace query whether the active workspace is the
/// game one. A missing name is not the game workspace.
pub fn detect(exit_success: bool, out: &[u8]) -> (r: Result<bool, ProbeError>)
    ensures
        r == detect_spec(exit_success, out@),
{
    if !exit_success {
        return Err(ProbeError::Failed);
    }
    match read_workspace_name(out) {
        None => Err(ProbeError::Unparsable),
        Some(None) => Ok(false),
        Some(Some(name)) => {
            let sentinel = "special:steam".to_owned();
            Ok(name == sentinel)
        },
    }
}

} // verus!

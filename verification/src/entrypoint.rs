//! The WHIP/WHEP entrypoint's decisions: parameter validation and the
//! session path handed back to a created session. The HTTP plumbing around
//! them lives with the runtime.

use vstd::prelude::*;
use vstd::string::StringExecFns;
use crate::utils::{uuid_text, Uuid};

verus! {

/// The query parameters a WHIP/WHEP request may carry.
#[derive(Clone, Debug)]
pub struct EntrypointParrams {
    pub app: Option<String>,
    pub stream: Option<String>,
    pub token: Option<String>,
    pub session_id: Option<String>,
}

/// Whether an optional name was given and is non-empty.
pub open spec fn name_given(o: Option<Seq<char>>) -> bool {
    o matches Some(s) && s.len() > 0
}

/// The view of the optional parameter texts.
pub open spec fn opt_string_view(o: Option<String>) -> Option<Seq<char>> {
    match o {
        Some(s) => Some(s@),
        None => None,
    }
}

impl EntrypointParrams {
    /// Whether the request names both an app and a stream: a request that
    /// does not is refused before any session work.
    pub fn names_given(&self) -> (r: bool)
        ensures
            r == (name_given(opt_string_view(self.app)) && name_given(
                opt_string_view(self.stream),
            )),
    {
        let app_ok = match &self.app {
            Some(a) => !a.as_str().is_empty(),
            None => false,
        };
        let stream_ok = match &self.stream {
            Some(s) => !s.as_str().is_empty(),
            None => false,
        };
        app_ok && stream_ok
    }
}

/// The location a freshly created session is reachable under:
/// `path?app=…&stream=…&session_id=…`.
pub fn session_path(path: &str, app: &str, stream: &str, session_id: Uuid) -> (r: String)
    ensures
        r@ == path@ + "?app="@ + app@ + "&stream="@ + stream@ + "&session_id="@ + uuid_text(
            session_id.spec_value(),
        ),
{
    let mut out = path.to_owned();
    out.append("?app=");
    out.append(app);
    out.append("&stream=");
    out.append(stream);
    out.append("&session_id=");
    let id_text = session_id.to_string();
    out.append(id_text.as_str());
    proof {
        assert(out@ =~= path@ + "?app="@ + app@ + "&stream="@ + stream@ + "&session_id="@
            + uuid_text(session_id.spec_value()));
    }
    out
}

} // verus!

//! Interactive sessions: the arguments of the session manager plugin.
use vstd::prelude::*;
use crate::text::{concat, views};

verus! {

/// The session service endpoint of a region: `https://ssm.{region}.amazonaws.com/`.
pub open spec fn ssm_endpoint_text(region: Seq<char>) -> Seq<char> {
    "https://ssm."@ + region + ".amazonaws.com/"@
}

/// The arguments of the session manager plugin for a started session: the
/// session as JSON, the region, the operation, and the region's endpoint.
pub fn session_plugin_arguments(session_json: &String, region: &String) -> (r: Vec<String>)
    ensures
        views(r@) == seq![session_json@, region@, "StartSession"@, ssm_endpoint_text(region@)],
{
    let mut endpoint = concat("https://ssm.", region.as_str());
    endpoint.append(".amazonaws.com/");
    let r = vec![
        session_json.clone(),
        region.clone(),
        String::from_str("StartSession"),
        endpoint,
    ];
    assert(views(r@) =~= seq![session_json@, region@, "StartSession"@, ssm_endpoint_text(region@)]);
    r
}

} // verus!

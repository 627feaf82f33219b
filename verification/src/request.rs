use vstd::prelude::*;

use crate::text::json_escape;
use crate::text::json_escape_string;
use vstd::string::StringExecFns;

verus! {

/// The claim call's JSON body: the activity id under the act_id key.
pub struct SignRequest {
    pub act_id: String,
}

/// The JSON text of a claim request body for the given activity id.
pub open spec fn spec_sign_request_body(act_id: Seq<char>) -> Seq<char> {
    "{\"act_id\":\""@ + json_escape(act_id) + "\"}"@
}

impl SignRequest {
    /// Serializes the request as the JSON text of the claim call's body.
    pub fn to_json(&self) -> (r: String)
        ensures
            r@ == spec_sign_request_body(self.act_id@),
    {
        let mut s = String::from_str("{\"act_id\":\"");
        let e = json_escape_string(self.act_id.as_str());
        s.append(e.as_str());
        s.append("\"}");
        s
    }
}

} // verus!

use vstd::prelude::*;

use crate::text::i32_dec_string;
use crate::text::idec;
use vstd::string::StringExecFns;

verus! {

/// Return code with which the portal answers a claim that was already made
/// today; it signals an idempotent success, not an error.
pub const ALREADY_SIGNED_RETCODE: i32 = -5003;

/// Payload of a status-check response.
pub struct SignData {
    pub is_sign: Option<bool>,
}

/// Envelope of every check-in service response. The portal omits fields on
/// some error responses, so each one is optional and carries a documented
/// default.
pub struct SignResponse {
    pub retcode: Option<i32>,
    pub message: Option<String>,
    pub data: Option<SignData>,
}

/// The response's return code; an absent field counts as zero.
pub open spec fn spec_return_code(r: SignResponse) -> int {
    match r.retcode {
        Some(c) => c as int,
        None => 0,
    }
}

/// Whether a status-check response reports the day as already signed; an
/// absent data field or flag counts as not signed.
pub open spec fn spec_is_signed(r: SignResponse) -> bool {
    match r.data {
        Some(d) => match d.is_sign {
            Some(b) => b,
            None => false,
        },
        None => false,
    }
}

/// The error text of a response with a nonzero return code: its message, or,
/// when the message is absent, a synthesized line naming the code.
pub open spec fn spec_error_text(r: SignResponse) -> Seq<char> {
    match r.message {
        Some(m) => m@,
        None => "Return code is "@ + idec(spec_return_code(r)),
    }
}

/// Whether a claim response counts as accepted: return code zero, or the
/// already-signed sentinel.
pub open spec fn spec_claim_accepted(r: SignResponse) -> bool {
    spec_return_code(r) == 0 || spec_return_code(r) == ALREADY_SIGNED_RETCODE
}

/// The response's return code as a value, applying the default of zero.
pub fn return_code(r: &SignResponse) -> (c: i32)
    ensures
        c as int == spec_return_code(*r),
{
    match r.retcode {
        Some(c) => c,
        None => 0,
    }
}

fn error_text(r: &SignResponse) -> (e: String)
    ensures
        e@ == spec_error_text(*r),
{
    match &r.message {
        Some(m) => m.clone(),
        None => {
            let mut s = String::from_str("Return code is ");
            let code = i32_dec_string(return_code(r));
            s.append(code.as_str());
            s
        },
    }
}

/// Decodes a status-check response. A zero return code yields the signed
/// flag (with its defaulting); any other code yields the response's error
/// text.
pub fn decode_status(r: &SignResponse) -> (out: Result<bool, String>)
    ensures
        out is Ok <==> spec_return_code(*r) == 0,
        spec_return_code(*r) == 0 ==> out == Ok::<bool, String>(spec_is_signed(*r)),
        out matches Err(e) ==> e@ == spec_error_text(*r),
{
    let code = return_code(r);
    if code != 0 {
        Err(error_text(r))
    } else {
        let signed = match &r.data {
            Some(d) => match d.is_sign {
                Some(b) => b,
                None => false,
            },
            None => false,
        };
        Ok(signed)
    }
}

/// Decodes a claim response against a caller-chosen idempotent-success
/// sentinel. The portal's observed sentinel is `ALREADY_SIGNED_RETCODE`, but
/// its exact semantics are undocumented by the remote service, so it stays
/// overridable; no other nonzero code is assumed to share its meaning.
pub fn decode_claim_with(r: &SignResponse, sentinel: i32) -> (out: Result<(), String>)
    ensures
        out is Ok <==> (spec_return_code(*r) == 0 || spec_return_code(*r) == sentinel as int),
        out matches Err(e) ==> e@ == spec_error_text(*r),
{
    let code = return_code(r);
    if code == sentinel {
        Ok(())
    } else if code != 0 {
        Err(error_text(r))
    } else {
        Ok(())
    }
}

/// Decodes a claim response. A zero return code, or the already-signed
/// sentinel, counts as an accepted claim; any other code yields the
/// response's error text.
pub fn decode_claim(r: &SignResponse) -> (out: Result<(), String>)
    ensures
        out is Ok <==> spec_claim_accepted(*r),
        out matches Err(e) ==> e@ == spec_error_text(*r),
{
    decode_claim_with(r, ALREADY_SIGNED_RETCODE)
}

} // verus!

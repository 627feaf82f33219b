use vstd::prelude::*;

use vstd::string::StringExecFns;

verus! {

/// One account: its display name and its session cookies as key/value
/// pairs. Keys are expected to be unique; their order does not matter to the
/// portal. Cookie validity is not checked here: a stale cookie surfaces as
/// an authentication error from the remote service.
pub struct Account {
    pub name: String,
    pub cookies: Vec<(String, String)>,
}

/// A whole run's configuration: the accounts in order, and the optional
/// health-check base URL. Built once at startup and read-only afterwards.
pub struct Config {
    pub accounts: Vec<Account>,
    pub healthcheck: Option<String>,
}

/// One cookie as it appears in the Cookie header value.
pub open spec fn cookie_pair(k: Seq<char>, v: Seq<char>) -> Seq<char> {
    k + "="@ + v
}

/// The full Cookie header value: every pair, joined with "; ".
pub open spec fn cookie_line(cs: Seq<(String, String)>) -> Seq<char>
    decreases cs.len(),
{
    if cs.len() == 0 {
        Seq::<char>::empty()
    } else if cs.len() == 1 {
        cookie_pair(cs[0].0@, cs[0].1@)
    } else {
        cookie_line(cs.drop_last()) + "; "@ + cookie_pair(cs.last().0@, cs.last().1@)
    }
}

/// Serializes an account's cookies into the single Cookie header value.
pub fn cookie_header(cookies: &Vec<(String, String)>) -> (r: String)
    ensures
        r@ == cookie_line(cookies@),
{
    let mut r = String::new();
    proof {
        assert(cookies@.subrange(0, 0) =~= Seq::<(String, String)>::empty());
    }
    let mut i: usize = 0;
    while i < cookies.len()
        invariant
            0 <= i <= cookies@.len(),
            r@ == cookie_line(cookies@.subrange(0, i as int)),
        decreases cookies@.len() - i,
    {
        if i > 0 {
            r.append("; ");
        }
        let pair = &cookies[i];
        r.append(pair.0.as_str());
        r.append("=");
        r.append(pair.1.as_str());
        proof {
            assert(cookies@.subrange(0, i + 1 as int).drop_last() =~= cookies@.subrange(
                0,
                i as int,
            ));
            assert(cookies@.subrange(0, i + 1 as int).last() == cookies@[i as int]);
        }
        i = i + 1;
    }
    proof {
        assert(cookies@.subrange(0, cookies@.len() as int) =~= cookies@);
    }
    r
}

} // verus!

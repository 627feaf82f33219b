use vstd::prelude::*;

use crate::config::cookie_header;
use crate::config::cookie_line;
use crate::config::Account;
use crate::registry::Game;
use vstd::string::StringExecFns;

verus! {

/// The fixed headers sent with every call to the portal, matching the shape
/// of a request from its own web client.
pub open spec fn spec_fixed_headers() -> Seq<(Seq<char>, Seq<char>)> {
    seq![
        ("Accept"@, "application/json, text/plain, */*"@),
        ("Accept-Language"@, "en-US,en;q=0.5"@),
        ("Origin"@, "https://act.hoyolab.com"@),
        ("Referer"@, "https://act.hoyolab.com"@),
        ("Content-Type"@, "application/json;charset=utf-8"@),
        (
            "User-Agent"@,
            "Mozilla/5.0 (Windows NT 10.0; Win64; x64) AppleWebKit/537.36 (KHTML, like Gecko) Chrome/116.0.0.0 Safari/537.36"@,
        ),
        ("x-rpc-app_version"@, "2.34.1"@),
        ("x-rpc-client_type"@, "4"@),
    ]
}

/// Every header of one request: the fixed set, then the game-specific
/// signing header when the game's registry entry carries one, then the
/// account's cookies serialized into the one Cookie header.
pub open spec fn spec_request_headers(game: Game, cookies: Seq<(String, String)>) -> Seq<
    (Seq<char>, Seq<char>),
> {
    let fixed = spec_fixed_headers();
    let with_game = match game.rpc_sign_game {
        Some(g) => fixed.push(("x-rpc-signgame"@, g@)),
        None => fixed,
    };
    with_game.push(("Cookie"@, cookie_line(cookies)))
}

/// Whether a built header list renders, name for name and value for value,
/// a given specification-level header sequence.
pub open spec fn headers_match(r: Seq<(String, String)>, hs: Seq<(Seq<char>, Seq<char>)>) -> bool {
    &&& r.len() == hs.len()
    &&& forall|i: int|
        0 <= i < r.len() ==> (#[trigger] r[i]).0@ == hs[i].0 && r[i].1@ == hs[i].1
}

/// Builds the full header list for one request by one account to one game's
/// endpoints.
pub fn request_headers(account: &Account, game: &Game) -> (r: Vec<(String, String)>)
    ensures
        headers_match(r@, spec_request_headers(*game, account.cookies@)),
{
    let mut r: Vec<(String, String)> = Vec::new();
    r.push((String::from_str("Accept"), String::from_str("application/json, text/plain, */*")));
    r.push((String::from_str("Accept-Language"), String::from_str("en-US,en;q=0.5")));
    r.push((String::from_str("Origin"), String::from_str("https://act.hoyolab.com")));
    r.push((String::from_str("Referer"), String::from_str("https://act.hoyolab.com")));
    r.push(
        (String::from_str("Content-Type"), String::from_str("application/json;charset=utf-8")),
    );
    r.push(
        (
            String::from_str("User-Agent"),
            String::from_str(
                "Mozilla/5.0 (Windows NT 10.0; Win64; x64) AppleWebKit/537.36 (KHTML, like Gecko) Chrome/116.0.0.0 Safari/537.36",
            ),
        ),
    );
    r.push((String::from_str("x-rpc-app_version"), String::from_str("2.34.1")));
    r.push((String::from_str("x-rpc-client_type"), String::from_str("4")));
    match &game.rpc_sign_game {
        Some(g) => {
            r.push((String::from_str("x-rpc-signgame"), g.clone()));
        },
        None => {},
    }
    let c = cookie_header(&account.cookies);
    r.push((String::from_str("Cookie"), c));
    r
}

} // verus!

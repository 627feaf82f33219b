use vstd::prelude::*;

use vstd::string::StringExecFns;

verus! {

/// One supported game: its display name, the activity id of its daily-reward
/// campaign, its status-check and claim endpoints, and the optional value of
/// the game-specific signing header. Immutable once built.
pub struct Game {
    pub name: String,
    pub act_id: String,
    pub url_get_status: String,
    pub url_sign: String,
    pub rpc_sign_game: Option<String>,
}

/// The closed registry of supported games, in the order in which every run
/// attempts them. New games are added here, as data, without touching any
/// logic.
pub fn games() -> (r: Vec<Game>)
    ensures
        r@.len() == 3,
        r@[0].name@ == "Genshin Impact"@,
        r@[0].act_id@ == "e202102251931481"@,
        r@[0].url_get_status@ == "https://sg-hk4e-api.hoyolab.com/event/sol/info"@,
        r@[0].url_sign@ == "https://sg-hk4e-api.hoyolab.com/event/sol/sign"@,
        r@[0].rpc_sign_game is None,
        r@[1].name@ == "Honkai Star Rail"@,
        r@[1].act_id@ == "e202303301540311"@,
        r@[1].url_get_status@ == "https://sg-public-api.hoyolab.com/event/luna/os/info"@,
        r@[1].url_sign@ == "https://sg-public-api.hoyolab.com/event/luna/os/sign"@,
        r@[1].rpc_sign_game is None,
        r@[2].name@ == "Zenless Zone Zero"@,
        r@[2].act_id@ == "e202406031448091"@,
        r@[2].url_get_status@ == "https://sg-public-api.hoyolab.com/event/luna/zzz/os/info"@,
        r@[2].url_sign@ == "https://sg-public-api.hoyolab.com/event/luna/zzz/os/sign"@,
        (r@[2].rpc_sign_game matches Some(g) && g@ == "zzz"@),
{
    let mut r: Vec<Game> = Vec::new();
    r.push(
        Game {
            name: String::from_str("Genshin Impact"),
            act_id: String::from_str("e202102251931481"),
            url_get_status: String::from_str("https://sg-hk4e-api.hoyolab.com/event/sol/info"),
            url_sign: String::from_str("https://sg-hk4e-api.hoyolab.com/event/sol/sign"),
            rpc_sign_game: None,
        },
    );
    r.push(
        Game {
            name: String::from_str("Honkai Star Rail"),
            act_id: String::from_str("e202303301540311"),
            url_get_status: String::from_str("https://sg-public-api.hoyolab.com/event/luna/os/info"),
            url_sign: String::from_str("https://sg-public-api.hoyolab.com/event/luna/os/sign"),
            rpc_sign_game: None,
        },
    );
    r.push(
        Game {
            name: String::from_str("Zenless Zone Zero"),
            act_id: String::from_str("e202406031448091"),
            url_get_status: String::from_str(
                "https://sg-public-api.hoyolab.com/event/luna/zzz/os/info",
            ),
            url_sign: String::from_str("https://sg-public-api.hoyolab.com/event/luna/zzz/os/sign"),
            rpc_sign_game: Some(String::from_str("zzz")),
        },
    );
    r
}

} // verus!

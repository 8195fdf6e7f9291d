use vstd::prelude::*;

verus! {

/// The games served by the Warehouse update server.
#[derive(Clone, Copy, Debug, PartialEq, Eq, Structural)]
pub enum WHGames {
    FOC,
    WFC,
    ROTDS,
    ROTF,
    GRID,
    GH3,
}

/// Where the update files of Transformers: Fall of Cybertron are published.
pub open spec fn foc_base_url() -> Seq<char> {
    "https://aiwarehouse.fra1.cdn.digitaloceanspaces.com/wh/foc"@
}

/// The base URL of the update server of `game`.
///
/// Only Fall of Cybertron has a server so far; the other games are not
/// supported yet and must not be asked for.
pub fn update_base_url(game: WHGames) -> (url: String)
    requires
        game is FOC,
    ensures
        url@ == foc_base_url(),
{
    match game {
        WHGames::FOC => String::from_str("https://aiwarehouse.fra1.cdn.digitaloceanspaces.com/wh/foc"),
        _ => String::new(),
    }
}

} // verus!

use vstd::prelude::*;

verus! {

/// Global settings of the game.
pub struct Config {
    /// Directory, relative to the working directory, that holds the game's assets.
    pub asset_dir: String,
}

impl Default for Config {
    /// The game's assets live in `assets`.
    fn default() -> (config: Config)
        ensures
            config.asset_dir@ == "assets"@,
    {
        let asset_dir = String::from_str("assets");
        proof {
            reveal_strlit("assets");
        }
        Config { asset_dir }
    }
}

} // verus!

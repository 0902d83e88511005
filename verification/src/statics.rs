//! What the relay is configured with when it starts.

use vstd::prelude::*;

verus! {

/// The file that holds the relay's own service credential.
pub const TOTIFY_BOT_DATA_FILE: &'static str = "../../totify_bot_data.toml";

/// The file that holds the registry.
pub const TELEDATA_FILE: &'static str = "../../myconfig.json";

/// The relay's own service credential.
#[derive(Clone, Debug, PartialEq, Eq)]
pub struct BotData {
    pub token: String,
}

/// The configuration file: one table `bot` that holds the credential.
#[derive(Clone, Debug, PartialEq, Eq)]
pub struct BotConfig {
    pub bot: BotData,
}

/// What came of reading the configuration file.
#[derive(Clone, Debug, PartialEq, Eq)]
pub enum ConfigRead {
    /// The file could not be read.
    Unreadable,
    /// The name of the file does not end in a format that is understood.
    UnsupportedFormat,
    /// The file was read, and does not hold a configuration.
    Malformed,
    /// The file holds this configuration.
    Parsed(BotConfig),
}

/// Why the relay has no configuration. Each of these ends the process
/// before it serves anything.
#[derive(Clone, Copy, Debug, PartialEq, Eq, Structural)]
pub enum ConfigError {
    Unreadable,
    UnsupportedFormat,
    Malformed,
}

/// The service credential that the configuration file holds, or the reason
/// why there is none.
pub fn load_bot_data(read: ConfigRead) -> (loaded: Result<BotData, ConfigError>)
    ensures
        loaded == (match read {
            ConfigRead::Unreadable => Err::<BotData, ConfigError>(ConfigError::Unreadable),
            ConfigRead::UnsupportedFormat => Err::<BotData, ConfigError>(
                ConfigError::UnsupportedFormat,
            ),
            ConfigRead::Malformed => Err::<BotData, ConfigError>(ConfigError::Malformed),
            ConfigRead::Parsed(config) => Ok::<BotData, ConfigError>(config.bot),
        }),
{
    match read {
        ConfigRead::Unreadable => Err(ConfigError::Unreadable),
        ConfigRead::UnsupportedFormat => Err(ConfigError::UnsupportedFormat),
        ConfigRead::Malformed => Err(ConfigError::Malformed),
        ConfigRead::Parsed(config) => Ok(config.bot),
    }
}

} // verus!

use vstd::prelude::*;

verus! {

/// Where the database lives.
pub struct DatabaseSettings {
    pub url: String,
    pub test_url: String,
}

/// Where the session store lives.
pub struct RedisSettings {
    pub uri: String,
}

/// The shared secret that signs tokens.
pub struct JwtSettings {
    pub secret: String,
}

/// Process-wide configuration, built once at startup and handed to each
/// component.
pub struct Settings {
    pub database: DatabaseSettings,
    pub redis: RedisSettings,
    pub jwt: JwtSettings,
}

} // verus!

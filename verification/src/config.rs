use vstd::prelude::*;

verus! {

/// Where the HTTP server listens.
#[derive(Debug, Clone)]
pub struct ServerConfig {
    pub host: String,
    pub port: u16,
}

/// How the mail provider client authenticates.
#[derive(Debug, Clone)]
pub struct GmailConfig {
    pub service_account_path: String,
}

/// The whole process configuration. Loading it from the environment is I/O
/// and lives outside the library; the values themselves are plain data.
#[derive(Debug, Clone)]
pub struct Settings {
    pub server: ServerConfig,
    pub gmail: GmailConfig,
}

} // verus!

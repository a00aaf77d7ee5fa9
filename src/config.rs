use vstd::prelude::*;
use vstd::string::*;
use crate::cookie::Environment;

verus! {

/// The value of `ENVIRONMENT` that selects the development deployment.
pub const ENV_ENVIRONMENT_DEVELOPMENT: &'static str = "DEV";

/// The value of `ENVIRONMENT` when it is not set.
pub const ENV_ENVIRONMENT_PRODUCTION: &'static str = "PROD";

/// The server's settings, as read from its environment at start-up.
#[derive(Debug)]
pub struct Config {
    pub database_url: String,
    pub jwt_secret: String,
    pub jwt_expires_in: String,
    pub jwt_max_age: i32,
    pub redis_host_name: String,
    pub redis_port: usize,
    pub redis_is_tls: bool,
    pub web_app_port: String,
    pub web_app_port_ssl: String,
    pub web_app_host: String,
    pub web_app_mode_tls: bool,
    pub web_app_environment: String,
    pub minio_bucket_name: String,
    pub minio_access_key: String,
    pub minio_secret_key: String,
    pub minio_host_url: String,
    pub minio_bucket_region: String,
}

/// The deployment that an `ENVIRONMENT` value names: `DEV` is
/// development, anything else production.
pub open spec fn environment_of(name: Seq<char>) -> Environment {
    if name == ENV_ENVIRONMENT_DEVELOPMENT@ {
        Environment::Development
    } else {
        Environment::Production
    }
}

impl Environment {
    /// Reads an `ENVIRONMENT` value.
    pub fn from_name(name: &str) -> (r: Environment)
        ensures
            r == environment_of(name@),
    {
        if String::from_str(name) == String::from_str(ENV_ENVIRONMENT_DEVELOPMENT) {
            Environment::Development
        } else {
            Environment::Production
        }
    }
}

impl Config {
    /// The deployment this configuration is for.
    pub fn environment(&self) -> (r: Environment)
        ensures
            r == environment_of(self.web_app_environment@),
    {
        Environment::from_name(self.web_app_environment.as_str())
    }
}

} // verus!

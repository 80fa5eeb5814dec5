use crate::envs::{self, get_env};
use vstd::prelude::*;

verus! {

/// Where the object store is and how it is entered.
#[allow(non_snake_case)]
#[derive(Debug)]
pub struct OssConfig {
    pub OSS_ACCESS_KEY_ID: String,
    pub OSS_ACCESS_KEY_SECRET: String,
    pub OSS_BUCKET_NAME: String,
    pub OSS_ENDPOINT: String,
    pub OSS_REGION: String,
    pub OSS_PUBLIC_BASE: String,
}

/// The values of the environment variables that hold the configuration,
/// each `None` where the variable is not set.
#[derive(Debug)]
pub struct OssEnv {
    pub access_key_id: Option<String>,
    pub access_key_secret: Option<String>,
    pub bucket_name: Option<String>,
    pub region: Option<String>,
    pub endpoint: Option<String>,
    pub public_base: Option<String>,
}

impl OssEnv {
    /// The name of the first variable, in the order in which they are
    /// read, that is not set.
    pub open spec fn first_missing(&self) -> Option<Seq<char>> {
        if self.access_key_id is None {
            Some("OSS_ACCESS_KEY_ID"@)
        } else if self.access_key_secret is None {
            Some("OSS_ACCESS_KEY_SECRET"@)
        } else if self.bucket_name is None {
            Some("OSS_BUCKET_NAME"@)
        } else if self.region is None {
            Some("OSS_REGION"@)
        } else if self.endpoint is None {
            Some("OSS_ENDPOINT"@)
        } else if self.public_base is None {
            Some("OSS_PUBLIC_BASE"@)
        } else {
            None
        }
    }
}

impl OssConfig {
    /// The configuration that the variables hold: every one of them is
    /// required, and the first that is not set is reported.
    pub fn load_from_env(env: OssEnv) -> (r: envs::Result<OssConfig>)
        ensures
            match r {
                Ok(config) => {
                    &&& env.first_missing() is None
                    &&& env.access_key_id == Some(config.OSS_ACCESS_KEY_ID)
                    &&& env.access_key_secret == Some(config.OSS_ACCESS_KEY_SECRET)
                    &&& env.bucket_name == Some(config.OSS_BUCKET_NAME)
                    &&& env.region == Some(config.OSS_REGION)
                    &&& env.endpoint == Some(config.OSS_ENDPOINT)
                    &&& env.public_base == Some(config.OSS_PUBLIC_BASE)
                },
                Err(e) => env.first_missing() matches Some(name) && e@
                    == envs::ErrorView::MissingEnv(name),
            },
    {
        let key_id = match get_env("OSS_ACCESS_KEY_ID", env.access_key_id) {
            Ok(v) => v,
            Err(e) => { return Err(e); },
        };
        let key_secret = match get_env("OSS_ACCESS_KEY_SECRET", env.access_key_secret) {
            Ok(v) => v,
            Err(e) => { return Err(e); },
        };
        let bucket_name = match get_env("OSS_BUCKET_NAME", env.bucket_name) {
            Ok(v) => v,
            Err(e) => { return Err(e); },
        };
        let region = match get_env("OSS_REGION", env.region) {
            Ok(v) => v,
            Err(e) => { return Err(e); },
        };
        let endpoint = match get_env("OSS_ENDPOINT", env.endpoint) {
            Ok(v) => v,
            Err(e) => { return Err(e); },
        };
        let public_base = match get_env("OSS_PUBLIC_BASE", env.public_base) {
            Ok(v) => v,
            Err(e) => { return Err(e); },
        };
        Ok(
            OssConfig {
                OSS_ACCESS_KEY_ID: key_id,
                OSS_ACCESS_KEY_SECRET: key_secret,
                OSS_BUCKET_NAME: bucket_name,
                OSS_ENDPOINT: endpoint,
                OSS_REGION: region,
                OSS_PUBLIC_BASE: public_base,
            },
        )
    }
}

} // verus!

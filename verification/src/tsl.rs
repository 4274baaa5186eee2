//! TLS settings and network constants.

use vstd::prelude::*;

verus! {

/// Port number representing that the OS will choose one randomly from the
/// available ports.
///
/// It's the port number `0`.
pub const FREE_PORT: u16 = 0;

/// Paths of the TLS certificate and key. Each path is held as its UTF-8 text;
/// an absent path is `None`.
#[derive(PartialEq, Eq, Debug, Clone)]
pub struct Tsl {
    /// Path to the SSL certificate file.
    pub ssl_cert_path: Option<String>,
    /// Path to the SSL key file.
    pub ssl_key_path: Option<String>,
}

impl Tsl {
    /// The certificate path taken when a configuration does not give one: the
    /// empty path.
    pub fn default_ssl_cert_path() -> (r: Option<String>)
        ensures
            r matches Some(p) && p@ == Seq::<char>::empty(),
    {
        Some(String::new())
    }

    /// The key path taken when a configuration does not give one: the empty
    /// path.
    pub fn default_ssl_key_path() -> (r: Option<String>)
        ensures
            r matches Some(p) && p@ == Seq::<char>::empty(),
    {
        Some(String::new())
    }
}

impl Default for Tsl {
    fn default() -> (r: Self)
        ensures
            r.ssl_cert_path is None,
            r.ssl_key_path is None,
    {
        Self { ssl_cert_path: None, ssl_key_path: None }
    }
}

} // verus!

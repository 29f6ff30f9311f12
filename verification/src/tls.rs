//! Certificates for direct mTLS connections between the app and agents.

use vstd::prelude::*;

verus! {

/// A PEM-encoded certificate and private key pair.
pub struct CertBundle {
    pub cert_pem: String,
    pub key_pem: String,
}

/// The files a named bundle is stored in: `{name}.crt` and `{name}.key`.
pub fn bundle_file_names(name: &str) -> (r: (String, String))
    ensures
        r.0@ == name@ + ".crt"@,
        r.1@ == name@ + ".key"@,
{
    let mut c = name.to_owned();
    c.append(".crt");
    let mut k = name.to_owned();
    k.append(".key");
    (c, k)
}

} // verus!

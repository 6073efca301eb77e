//! TLS settings of a host: certificate, private key, optional CA certificate
//! and whether clients must authenticate.
use vstd::prelude::*;

use crate::errors::{ConfigError, VetisError};
use crate::model::opt_bytes;

verus! {

broadcast use vstd::string::group_string_axioms;

/// The abstract content of a TLS configuration (and of its builder).
pub struct SecurityView {
    pub cert: Seq<u8>,
    pub key: Seq<u8>,
    pub ca_cert: Option<Seq<u8>>,
    pub client_auth: bool,
}

/// Collects the TLS material of a host before it is checked.
#[derive(Clone)]
pub struct SecurityConfigBuilder {
    cert: Vec<u8>,
    key: Vec<u8>,
    ca_cert: Option<Vec<u8>>,
    client_auth: bool,
}

impl View for SecurityConfigBuilder {
    type V = SecurityView;

    closed spec fn view(&self) -> SecurityView {
        SecurityView {
            cert: self.cert@,
            key: self.key@,
            ca_cert: opt_bytes(self.ca_cert),
            client_auth: self.client_auth,
        }
    }
}

impl SecurityConfigBuilder {
    /// Sets the DER certificate.
    pub fn cert_from_bytes(self, cert: Vec<u8>) -> (r: Self)
        ensures
            r@ == (SecurityView { cert: cert@, ..self@ }),
    {
        SecurityConfigBuilder { cert, ..self }
    }

    /// Sets the DER private key.
    pub fn key_from_bytes(self, key: Vec<u8>) -> (r: Self)
        ensures
            r@ == (SecurityView { key: key@, ..self@ }),
    {
        SecurityConfigBuilder { key, ..self }
    }

    /// Sets the certificate of the authority that signs client certificates.
    pub fn ca_cert_from_bytes(self, ca_cert: Vec<u8>) -> (r: Self)
        ensures
            r@ == (SecurityView { ca_cert: Some(ca_cert@), ..self@ }),
    {
        SecurityConfigBuilder { ca_cert: Some(ca_cert), ..self }
    }

    /// Sets the certificate read from a file; when the file could not be read, the
    /// certificate stays as it was.
    pub fn cert_from_read(self, read: Option<Vec<u8>>) -> (r: Self)
        ensures
            r@ == match read {
                Some(c) => SecurityView { cert: c@, ..self@ },
                None => self@,
            },
    {
        match read {
            Some(c) => self.cert_from_bytes(c),
            None => self,
        }
    }

    /// Sets the key read from a file; when the file could not be read, the key stays as it
    /// was.
    pub fn key_from_read(self, read: Option<Vec<u8>>) -> (r: Self)
        ensures
            r@ == match read {
                Some(k) => SecurityView { key: k@, ..self@ },
                None => self@,
            },
    {
        match read {
            Some(k) => self.key_from_bytes(k),
            None => self,
        }
    }

    /// Sets the CA certificate read from a file; when the file could not be read, the CA
    /// certificate stays as it was.
    pub fn ca_cert_from_read(self, read: Option<Vec<u8>>) -> (r: Self)
        ensures
            r@ == match read {
                Some(c) => SecurityView { ca_cert: Some(c@), ..self@ },
                None => self@,
            },
    {
        match read {
            Some(c) => self.ca_cert_from_bytes(c),
            None => self,
        }
    }

    /// Sets whether clients must present a certificate.
    pub fn client_auth(self, client_auth: bool) -> (r: Self)
        ensures
            r@ == (SecurityView { client_auth, ..self@ }),
    {
        SecurityConfigBuilder { client_auth, ..self }
    }

    /// Checks that a certificate and a key were given.
    pub fn build(self) -> (r: Result<SecurityConfig, VetisError>)
        ensures
            self@.cert.len() == 0 ==> (r matches Err(VetisError::Config(ConfigError::Security(m)))
                && m@ == "Missing certificate"@),
            self@.cert.len() != 0 && self@.key.len() == 0 ==> (r matches Err(
                VetisError::Config(ConfigError::Security(m)),
            ) && m@ == "Missing key"@),
            self@.cert.len() != 0 && self@.key.len() != 0 ==> (r matches Ok(c) && c@ == self@),
    {
        if self.cert.len() == 0 {
            return Err(VetisError::Config(ConfigError::Security("Missing certificate".to_string())));
        }
        if self.key.len() == 0 {
            return Err(VetisError::Config(ConfigError::Security("Missing key".to_string())));
        }
        Ok(SecurityConfig {
            cert: self.cert,
            key: self.key,
            ca_cert: self.ca_cert,
            client_auth: self.client_auth,
        })
    }
}

/// Checked TLS settings of a host.
pub struct SecurityConfig {
    cert: Vec<u8>,
    key: Vec<u8>,
    ca_cert: Option<Vec<u8>>,
    client_auth: bool,
}

impl View for SecurityConfig {
    type V = SecurityView;

    closed spec fn view(&self) -> SecurityView {
        SecurityView {
            cert: self.cert@,
            key: self.key@,
            ca_cert: opt_bytes(self.ca_cert),
            client_auth: self.client_auth,
        }
    }
}

impl Clone for SecurityConfig {
    fn clone(&self) -> (r: Self)
        ensures
            r@ == self@,
    {
        proof {
            use_type_invariant(self);
        }
        let ca_cert = match &self.ca_cert {
            Some(c) => Some(c.clone()),
            None => None,
        };
        SecurityConfig {
            cert: self.cert.clone(),
            key: self.key.clone(),
            ca_cert,
            client_auth: self.client_auth,
        }
    }
}

impl SecurityConfig {
    /// Every checked configuration holds a certificate and a key.
    #[verifier::type_invariant]
    spec fn well_formed(&self) -> bool {
        self.cert@.len() != 0 && self.key@.len() != 0
    }

    /// A builder with no certificate, no key, no CA certificate and no client authentication.
    pub fn builder() -> (r: SecurityConfigBuilder)
        ensures
            r@ == (SecurityView {
                cert: Seq::empty(),
                key: Seq::empty(),
                ca_cert: None,
                client_auth: false,
            }),
    {
        let r = SecurityConfigBuilder {
            cert: Vec::new(),
            key: Vec::new(),
            ca_cert: None,
            client_auth: false,
        };
        assert(r@.cert =~= Seq::empty());
        r
    }

    /// The certificate, never empty.
    pub fn cert(&self) -> (r: &Vec<u8>)
        ensures
            r@ == self@.cert,
            r@.len() > 0,
    {
        proof {
            use_type_invariant(self);
        }
        &self.cert
    }

    /// The private key, never empty.
    pub fn key(&self) -> (r: &Vec<u8>)
        ensures
            r@ == self@.key,
            r@.len() > 0,
    {
        proof {
            use_type_invariant(self);
        }
        &self.key
    }

    pub fn ca_cert(&self) -> (r: &Option<Vec<u8>>)
        ensures
            opt_bytes(*r) == self@.ca_cert,
    {
        &self.ca_cert
    }

    pub fn client_auth(&self) -> (r: bool)
        ensures
            r == self@.client_auth,
    {
        self.client_auth
    }
}

/// The file locations from which a host's TLS settings are read.
#[derive(Clone)]
pub struct SecurityConfigFromFile {
    pub cert_from_file: String,
    pub key_from_file: String,
    pub ca_cert_from_file: Option<String>,
    pub client_auth: Option<bool>,
}

/// The TLS settings described by `files`, given what reading its files gave (`None` for a
/// file that could not be read): the certificate and key are required, the CA certificate
/// is read only when named, and client authentication is set only when given.
pub open spec fn from_files_view(
    files: SecurityConfigFromFile,
    cert: Option<Seq<u8>>,
    key: Option<Seq<u8>>,
    ca_cert: Option<Seq<u8>>,
) -> SecurityView {
    SecurityView {
        cert: match cert {
            Some(c) => c,
            None => Seq::empty(),
        },
        key: match key {
            Some(k) => k,
            None => Seq::empty(),
        },
        ca_cert: if files.ca_cert_from_file is Some {
            ca_cert
        } else {
            None
        },
        client_auth: match files.client_auth {
            Some(b) => b,
            None => false,
        },
    }
}

impl SecurityConfigFromFile {
    /// Builds the TLS settings from the contents read from the named files (`None` for a
    /// file that could not be read, or that is not named).
    pub fn into_config(
        &self,
        cert: Option<Vec<u8>>,
        key: Option<Vec<u8>>,
        ca_cert: Option<Vec<u8>>,
    ) -> (r: Result<SecurityConfig, VetisError>)
        ensures
            ({
                let v = from_files_view(*self, opt_bytes(cert), opt_bytes(key), opt_bytes(ca_cert));
                &&& v.cert.len() == 0 ==> (r matches Err(VetisError::Config(ConfigError::Security(m)))
                    && m@ == "Missing certificate"@)
                &&& v.cert.len() != 0 && v.key.len() == 0 ==> (r matches Err(
                    VetisError::Config(ConfigError::Security(m)),
                ) && m@ == "Missing key"@)
                &&& v.cert.len() != 0 && v.key.len() != 0 ==> (r matches Ok(c) && c@ == v)
            }),
    {
        let mut builder = SecurityConfig::builder().cert_from_read(cert).key_from_read(key);
        if self.ca_cert_from_file.is_some() {
            builder = builder.ca_cert_from_read(ca_cert);
        }
        if let Some(client_auth) = self.client_auth {
            builder = builder.client_auth(client_auth);
        }
        let ghost v = from_files_view(*self, opt_bytes(cert), opt_bytes(key), opt_bytes(ca_cert));
        assert(builder@.cert =~= v.cert);
        assert(builder@.key =~= v.key);
        assert(builder@ == v);
        builder.build()
    }
}

} // verus!

//! The command-line surface as plain data: the chosen action, the broker
//! connection options, and how the security options become client
//! configuration entries.
//!
//! Argument parsing itself happens outside the crate; it hands over a value
//! of `Args` and takes the configuration entries back as plain pairs.

use vstd::prelude::*;
use vstd::string::StringExecFns;
use crate::text::str_eq;

verus! {

/// The transport security modes the broker client understands.
#[derive(Debug, Clone, Copy, PartialEq, Eq, Structural)]
pub enum SecurityProtocol {
    Plaintext,
    Ssl,
    SaslPlaintext,
    SaslSsl,
}

/// The exact name under which the broker client knows each protocol.
pub open spec fn protocol_name(p: SecurityProtocol) -> Seq<char> {
    match p {
        SecurityProtocol::Plaintext => "PLAINTEXT"@,
        SecurityProtocol::Ssl => "SSL"@,
        SecurityProtocol::SaslPlaintext => "SASL_PLAINTEXT"@,
        SecurityProtocol::SaslSsl => "SASL_SSL"@,
    }
}

impl Default for SecurityProtocol {
    /// Plain transport unless asked otherwise.
    fn default() -> (r: Self)
        ensures
            r == SecurityProtocol::Plaintext,
    {
        SecurityProtocol::Plaintext
    }
}

impl SecurityProtocol {
    /// Reads a protocol from its name; any other string is rejected with a
    /// message naming it.
    pub fn from_str(s: &str) -> (r: Result<SecurityProtocol, String>)
        ensures
            match r {
                Ok(p) => s@ == protocol_name(p),
                Err(e) => s@ != "PLAINTEXT"@ && s@ != "SSL"@ && s@ != "SASL_PLAINTEXT"@ && s@
                    != "SASL_SSL"@ && e@ == "Invalid security protocol: "@ + s@,
            },
    {
        if str_eq(s, "PLAINTEXT") {
            Ok(SecurityProtocol::Plaintext)
        } else if str_eq(s, "SSL") {
            Ok(SecurityProtocol::Ssl)
        } else if str_eq(s, "SASL_PLAINTEXT") {
            Ok(SecurityProtocol::SaslPlaintext)
        } else if str_eq(s, "SASL_SSL") {
            Ok(SecurityProtocol::SaslSsl)
        } else {
            let mut msg = String::new();
            msg.append("Invalid security protocol: ");
            msg.append(s);
            Err(msg)
        }
    }

    /// Writes the protocol back under its name.
    pub fn to_string(&self) -> (r: String)
        ensures
            r@ == protocol_name(*self),
    {
        match self {
            SecurityProtocol::Plaintext => "PLAINTEXT".to_owned(),
            SecurityProtocol::Ssl => "SSL".to_owned(),
            SecurityProtocol::SaslPlaintext => "SASL_PLAINTEXT".to_owned(),
            SecurityProtocol::SaslSsl => "SASL_SSL".to_owned(),
        }
    }
}

/// Options for the listening action.
#[derive(Debug, Clone)]
pub struct ListenFlags {
    pub group_id: Option<String>,
    pub topic: String,
    /// Try to parse the payload as JSON and pretty-print it.
    pub json: bool,
}

/// Options for the producing action: the payload file, the topic, an
/// optional message key, and how many times to send.
#[derive(Debug, Clone)]
pub struct ProduceFlags {
    pub file: String,
    pub topic: String,
    /// The key to use for the message.
    pub key: Option<String>,
    /// How many attempts to dispatch; one if unspecified.
    pub iterations: Option<usize>,
}

/// Which of the two actions was asked for.
#[derive(Debug, Clone)]
pub enum Action {
    Listen(ListenFlags),
    Produce(ProduceFlags),
}

/// Everything the command line said: the action and the global broker
/// connection options.
#[derive(Debug, Clone)]
pub struct Args {
    pub action: Action,
    /// The log level for the broker client.
    pub kafka_log_level: u8,
    pub brokers: Vec<String>,
    pub security_protocol: Option<SecurityProtocol>,
    pub sasl_username: Option<String>,
    pub sasl_password: Option<String>,
    pub sasl_mechanism: Option<String>,
}

/// The character-level contents of a list of configuration entries.
pub open spec fn pairs_view(v: Seq<(String, String)>) -> Seq<(Seq<char>, Seq<char>)> {
    v.map_values(|p: (String, String)| (p.0@, p.1@))
}

/// The client configuration entries that a set of arguments asks for: one
/// entry per security option that was given, in a fixed order.
pub open spec fn args_entries(a: Args) -> Seq<(Seq<char>, Seq<char>)> {
    let m0 = Seq::<(Seq<char>, Seq<char>)>::empty();
    let m1 = match a.sasl_username {
        Some(u) => m0.push(("sasl.username"@, u@)),
        None => m0,
    };
    let m2 = match a.sasl_password {
        Some(p) => m1.push(("sasl.password"@, p@)),
        None => m1,
    };
    let m3 = match a.sasl_mechanism {
        Some(m) => m2.push(("sasl.mechanism"@, m@)),
        None => m2,
    };
    match a.security_protocol {
        Some(p) => m3.push(("security.protocol"@, protocol_name(p))),
        None => m3,
    }
}

impl Args {
    /// Collects the security options that were given as client configuration
    /// entries, under the keys the broker client expects. Keys are distinct,
    /// so the list is a map.
    pub fn to_map(&self) -> (r: Vec<(String, String)>)
        ensures
            pairs_view(r@) =~= args_entries(*self),
    {
        let mut map: Vec<(String, String)> = Vec::new();

        if let Some(username) = &self.sasl_username {
            let mut k = String::new();
            k.append("sasl.username");
            map.push((k, username.clone()));
        }
        if let Some(password) = &self.sasl_password {
            let mut k = String::new();
            k.append("sasl.password");
            map.push((k, password.clone()));
        }
        if let Some(mechanism) = &self.sasl_mechanism {
            let mut k = String::new();
            k.append("sasl.mechanism");
            map.push((k, mechanism.clone()));
        }
        if let Some(security_protocol) = &self.security_protocol {
            let mut k = String::new();
            k.append("security.protocol");
            map.push((k, security_protocol.to_string()));
        }

        map
    }
}

} // verus!

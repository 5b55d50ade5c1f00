//! Persisted broker connection configuration as plain data: three groups of
//! key/value entries. Loading and storing the file, and handing the entries
//! to the broker client, happen outside the crate.

use vstd::prelude::*;
use vstd::string::StringExecFns;
use crate::cli::pairs_view;
use crate::text::join_commas;
use crate::text::join_with_commas;

verus! {

/// The default configuration file name.
pub fn config_file() -> (r: &'static str)
    ensures
        r@ == "rdkafka-config.yml"@,
{
    "rdkafka-config.yml"
}

/// Connection, producer and consumer configuration entries, each a list of
/// key/value pairs with distinct keys.
#[derive(Debug, Clone)]
pub struct Config {
    pub connection: Vec<(String, String)>,
    pub producer: Vec<(String, String)>,
    pub consumer: Vec<(String, String)>,
}

impl Config {
    /// A fresh configuration for the given brokers: the connection group
    /// holds exactly one entry, the broker list joined with commas under
    /// `bootstrap.servers`; the other groups start empty.
    pub fn new(brokers: Vec<String>) -> (r: Config)
        ensures
            pairs_view(r.connection@) =~= seq![
                ("bootstrap.servers"@, join_commas(brokers@.map_values(|s: String| s@))),
            ],
            r.producer@ =~= Seq::<(String, String)>::empty(),
            r.consumer@ =~= Seq::<(String, String)>::empty(),
    {
        let producer: Vec<(String, String)> = Vec::new();
        let consumer: Vec<(String, String)> = Vec::new();
        let mut connection: Vec<(String, String)> = Vec::new();

        let mut k = String::new();
        k.append("bootstrap.servers");
        let joined = join_with_commas(&brokers);
        connection.push((k, joined));

        Config { producer, consumer, connection }
    }
}

} // verus!

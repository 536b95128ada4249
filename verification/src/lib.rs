//! A high-availability controller for clusters of replicated database
//! instances: one writable primary and any number of read replicas per
//! cluster. The controller probes every registered node, corroborates a
//! suspected outage with a quorum of peers, elects and promotes the
//! most-caught-up replica when a primary's database is confirmed down,
//! reconciles what the deposed primary held that never replicated, and
//! publishes a per-cluster read/write routing table.

use vstd::prelude::*;
use rand::Rng;

pub mod ha;
pub mod readvalue;
pub mod storage;
pub mod strutil;
pub mod webroute;

verus! {

/// Command-line choices: the listening port and address.
pub struct Opt {
    pub port: Option<String>,
    pub listen: Option<String>,
}

/// The resolved listener configuration.
#[derive(Debug, Clone)]
pub struct Config {
    pub port: usize,
    pub listen: String,
}

impl Config {
    /// Fills the defaults in: port 8099, address 127.0.0.1.
    pub fn new(args: Opt) -> (r: Result<Config, &'static str>)
        requires
            match args.port {
                Some(p) => crate::strutil::spec_all_digits(p@) && crate::strutil::spec_dec_val(p@)
                    <= usize::MAX,
                None => true,
            },
        ensures
            r is Ok,
            r->Ok_0.port == match args.port {
                Some(p) => crate::strutil::spec_dec_val(p@),
                None => 8099int,
            },
            r->Ok_0.listen@ == match args.listen {
                Some(l) => l@,
                None => "127.0.0.1"@,
            },
    {
        let mut port: usize = 8099;
        let mut listen: String = "127.0.0.1".to_owned();
        match args.port {
            None => {},
            Some(t) => {
                proof {
                    crate::strutil::lemma_dec_val_nonneg(t@);
                }
                match crate::strutil::parse_usize(t.as_str()) {
                    Some(p) => {
                        port = p;
                    },
                    None => {
                        return Err("the port is not a number");
                    },
                }
            },
        }
        match args.listen {
            None => {},
            Some(t) => {
                listen = t;
            },
        }
        Ok(Config { port, listen })
    }
}

/// Relies on std::time::SystemTime::now, read as whole milliseconds since
/// the Unix epoch; 0 when the clock stands before the epoch. Nothing is
/// promised of the value: contracts treat the time as arbitrary.
#[verifier::external_body]
pub fn timestamp() -> (r: i64) {
    match std::time::SystemTime::now().duration_since(std::time::UNIX_EPOCH) {
        Ok(d) => d.as_millis() as i64,
        Err(_) => 0,
    }
}

/// Relies on rand's thread_rng sampled through the Alphanumeric
/// distribution: exactly 32 characters are taken, each an ASCII letter or
/// digit. Only the length is promised; the characters are random.
#[verifier::external_body]
pub fn rand_string() -> (r: String)
    ensures
        r@.len() == 32,
{
    rand::thread_rng().sample_iter(&rand::distributions::Alphanumeric).take(32).map(
        char::from,
    ).collect()
}

} // verus!

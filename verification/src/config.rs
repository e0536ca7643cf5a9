//! The persisted device configuration and its store.
//!
//! The configuration is serialized into a fixed 64-byte record at offset
//! zero of the non-volatile memory, behind a version tag, so that the
//! same bytes stay valid whether they are read back from storage or
//! exchanged over a channel. Loading defends against erased or corrupt
//! memory by falling back to a fresh default record; only a failed
//! device read is surfaced as an error, since a blank device must
//! default cleanly while an unreadable one must not be guessed at.

use vstd::prelude::*;
use crate::flash::{Flash, ERASE_GRANULE};
use crate::parse::{
    lemma_parse_uint_bounded, parse_ipv4, parse_net_id, parse_session_key, parse_uint,
    spec_parse_ipv4, spec_parse_net_id, spec_parse_skey, spec_parse_uint,
};

verus! {

/// Length in bytes of the stored configuration record.
pub const STORED_LEN: usize = 64;

/// Send interval a fresh configuration starts with: one hour.
pub const DEFAULT_SEND_FREQUENCY_MS: u32 = 60 * 60 * 1000;

/// Network server port a fresh configuration starts with.
pub const DEFAULT_NETWORK_SERVER_PORT: u16 = 1694;

/// Network identifier a fresh configuration starts with.
pub const DEFAULT_NET_ID: u32 = 0x13;

/// The version tag of a stored record: one supported schema value, and
/// the all-bits-one sentinel that erased memory shows. Any other code is
/// treated as absent or corrupt, not as a distinct version.
#[derive(Clone, Copy, Debug, PartialEq, Eq, Structural)]
pub enum Version {
    V1,
    /// Represents erased storage.
    Invalid,
}

impl Version {
    /// The 32-bit code under which this tag is stored.
    pub open spec fn spec_code(self) -> u32 {
        match self {
            Version::V1 => 1,
            Version::Invalid => 0xffff_ffff,
        }
    }

    /// The 32-bit code under which this tag is stored.
    pub fn code(&self) -> (c: u32)
        ensures
            c == self.spec_code(),
    {
        match self {
            Version::V1 => 1,
            Version::Invalid => 0xffff_ffff,
        }
    }
}

/// An IPv4 address as its four octets.
pub type Ipv4Addr = [u8; 4];

/// The persisted configuration record.
#[derive(Clone, Debug, PartialEq)]
pub struct Config {
    pub version: Version,
    pub net_id: u32,
    /// Network session key, absent until provisioned.
    pub nwkskey: Option<u128>,
    /// Application session key, absent until provisioned.
    pub appskey: Option<u128>,
    /// Device long-form identifier, absent until provisioned.
    pub iccid: Option<u64>,
    /// Interval between duty cycles, in milliseconds.
    pub send_frequency_ms: u32,
    /// Network server IPv4 address, absent until provisioned.
    pub network_server_host: Option<Ipv4Addr>,
    pub network_server_port: u16,
}

/// How the configuration store can fail.
#[derive(Clone, Copy, Debug, PartialEq, Eq, Structural)]
pub enum ConfigError {
    /// The storage device refused the read; no safe default state could
    /// be confirmed.
    CannotLoad,
    /// Serialization, erasure or the write failed; the stored record may
    /// be left erased and must be treated as indeterminate.
    CannotSave,
}

/// The plain values of one stored record, in storage order: version
/// code, network id, the two session keys, the device identifier, the
/// send interval, the server address and the server port.
pub type StoredRecord = (u32, u32, Option<u128>, Option<u128>, Option<u64>, u32, Option<
    Ipv4Addr,
>, u16);

/// The bytes that the postcard wire format gives to one record's plain
/// values. A function of the values alone; its varint detail is not
/// restated here.
pub uninterp spec fn record_bytes(
    version: u32,
    net_id: u32,
    nwkskey: Option<u128>,
    appskey: Option<u128>,
    iccid: Option<u64>,
    send_frequency_ms: u32,
    host: Option<Ipv4Addr>,
    port: u16,
) -> Seq<u8>;

/// The record, if any, that the postcard wire format reads out of a byte
/// string. A function of the bytes alone.
pub uninterp spec fn parsed_record(bytes: Seq<u8>) -> Option<StoredRecord>;

impl Config {
    /// The stored-record values of this configuration.
    pub open spec fn spec_record(self) -> StoredRecord {
        (
            self.version.spec_code(),
            self.net_id,
            self.nwkskey,
            self.appskey,
            self.iccid,
            self.send_frequency_ms,
            self.network_server_host,
            self.network_server_port,
        )
    }

    /// The bytes this configuration serializes to.
    pub open spec fn spec_stored_bytes(self) -> Seq<u8> {
        record_bytes(
            self.version.spec_code(),
            self.net_id,
            self.nwkskey,
            self.appskey,
            self.iccid,
            self.send_frequency_ms,
            self.network_server_host,
            self.network_server_port,
        )
    }

    /// The safe defaults a device starts from: supported version, the
    /// default network id, a one-hour send interval, the default server
    /// port, and every provisionable field absent.
    pub open spec fn spec_default() -> Config {
        Config {
            version: Version::V1,
            net_id: DEFAULT_NET_ID,
            nwkskey: None,
            appskey: None,
            iccid: None,
            send_frequency_ms: DEFAULT_SEND_FREQUENCY_MS,
            network_server_host: None,
            network_server_port: DEFAULT_NETWORK_SERVER_PORT,
        }
    }

    /// A configuration may transmit only when the network session key,
    /// the application session key, the device identifier and the server
    /// address are all present.
    pub open spec fn spec_is_complete(self) -> bool {
        self.nwkskey is Some && self.appskey is Some && self.iccid is Some
            && self.network_server_host is Some
    }

    /// A fresh configuration with the documented defaults.
    pub fn new() -> (c: Config)
        ensures
            c == Config::spec_default(),
    {
        Config {
            version: Version::V1,
            net_id: DEFAULT_NET_ID,
            nwkskey: None,
            appskey: None,
            iccid: None,
            send_frequency_ms: DEFAULT_SEND_FREQUENCY_MS,
            network_server_host: None,
            network_server_port: DEFAULT_NETWORK_SERVER_PORT,
        }
    }

    /// Whether the node holds everything it needs to transmit.
    pub fn is_complete(&self) -> (b: bool)
        ensures
            b == self.spec_is_complete(),
    {
        self.nwkskey.is_some() && self.appskey.is_some() && self.iccid.is_some()
            && self.network_server_host.is_some()
    }
}

impl Default for Config {
    /// The same defaults as `Config::new`.
    fn default() -> (c: Config)
        ensures
            c == Config::spec_default(),
    {
        Config::new()
    }
}

/// A stored byte string zero-padded to the fixed record length.
pub open spec fn spec_padded(s: Seq<u8>) -> Seq<u8>
    recommends
        s.len() <= STORED_LEN,
{
    s + Seq::new((STORED_LEN - s.len()) as nat, |i: int| 0u8)
}

/// Relies on postcard's `to_slice`: serializing these primitive, option
/// and array values cannot fail except for a full output buffer, the
/// bytes written are a function of the values alone, and a value reads
/// back from its own encoding with trailing bytes ignored.
#[verifier::external_body]
fn encode_record(
    version: u32,
    net_id: u32,
    nwkskey: Option<u128>,
    appskey: Option<u128>,
    iccid: Option<u64>,
    send_frequency_ms: u32,
    host: Option<Ipv4Addr>,
    port: u16,
) -> (r: Option<Vec<u8>>)
    ensures
        r is Some <==> record_bytes(
            version,
            net_id,
            nwkskey,
            appskey,
            iccid,
            send_frequency_ms,
            host,
            port,
        ).len() <= STORED_LEN,
        r is Some ==> r->Some_0@ == spec_padded(
            record_bytes(version, net_id, nwkskey, appskey, iccid, send_frequency_ms, host, port),
        ),
        r is Some ==> parsed_record(r->Some_0@) == Some(
            (version, net_id, nwkskey, appskey, iccid, send_frequency_ms, host, port),
        ),
{
    let mut buf = [0_u8; 64];
    let value = (version, net_id, nwkskey, appskey, iccid, send_frequency_ms, host, port);
    match postcard::to_slice(&value, &mut buf) {
        Ok(_) => Some(buf.to_vec()),
        Err(_) => None,
    }
}

/// Relies on postcard's `from_bytes`: deserialization is a function of
/// the input bytes alone, and unused trailing bytes are ignored.
#[verifier::external_body]
fn decode_record(bytes: &[u8]) -> (r: Option<StoredRecord>)
    ensures
        r == parsed_record(bytes@),
{
    postcard::from_bytes::<StoredRecord>(bytes).ok()
}

/// The configuration that a decoded record loads as: the record itself
/// when it carries the supported version code, and the defaults when the
/// record is absent, corrupt, or tagged with the erased sentinel.
pub open spec fn spec_from_stored(rec: Option<StoredRecord>) -> Config {
    match rec {
        Some(t) => if t.0 == 1 {
            Config {
                version: Version::V1,
                net_id: t.1,
                nwkskey: t.2,
                appskey: t.3,
                iccid: t.4,
                send_frequency_ms: t.5,
                network_server_host: t.6,
                network_server_port: t.7,
            }
        } else {
            Config::spec_default()
        },
        None => Config::spec_default(),
    }
}

impl Config {
    /// The configuration a decoded stored record yields, defaults
    /// standing in for anything unusable.
    pub fn from_stored(rec: Option<StoredRecord>) -> (c: Config)
        ensures
            c == spec_from_stored(rec),
    {
        match rec {
            Some((version, net_id, nwkskey, appskey, iccid, send_frequency_ms, host, port)) => {
                if version == 1 {
                    Config {
                        version: Version::V1,
                        net_id,
                        nwkskey,
                        appskey,
                        iccid,
                        send_frequency_ms,
                        network_server_host: host,
                        network_server_port: port,
                    }
                } else {
                    Config::new()
                }
            },
            None => Config::new(),
        }
    }

    /// Read the record block from storage and decode it. A failed device
    /// read is the one surfaced error; an unusable record silently loads
    /// as the defaults instead.
    pub fn load(flash: &Flash) -> (r: Result<Config, ConfigError>)
        ensures
            r is Ok <==> flash@.len() >= STORED_LEN,
            flash@.len() < STORED_LEN ==> r == Err::<Config, ConfigError>(ConfigError::CannotLoad),
            flash@.len() >= STORED_LEN ==> r == Ok::<Config, ConfigError>(
                spec_from_stored(parsed_record(flash@.subrange(0, STORED_LEN as int))),
            ),
    {
        match flash.try_read(0, STORED_LEN) {
            Err(_) => Err(ConfigError::CannotLoad),
            Ok(buf) => {
                let rec = decode_record(buf.as_slice());
                Ok(Config::from_stored(rec))
            },
        }
    }

    /// Serialize this configuration and store it: erase the containing
    /// granule, then write the fixed-size record at offset zero. A
    /// record too large for the block fails before storage is touched;
    /// in this store the erase and the write themselves refuse only a
    /// device smaller than one granule, and a refused operation leaves
    /// the contents untouched.
    pub fn save(&self, flash: &mut Flash) -> (r: Result<(), ConfigError>)
        ensures
            r is Ok <==> (self.spec_stored_bytes().len() <= STORED_LEN && old(flash)@.len()
                >= ERASE_GRANULE),
            r is Err ==> r == Err::<(), ConfigError>(ConfigError::CannotSave),
            r is Err ==> *final(flash) == *old(flash),
            r is Ok ==> final(flash)@.len() == old(flash)@.len(),
            r is Ok ==> final(flash)@.subrange(0, STORED_LEN as int) == spec_padded(
                self.spec_stored_bytes(),
            ),
            r is Ok ==> parsed_record(final(flash)@.subrange(0, STORED_LEN as int)) == Some(
                self.spec_record(),
            ),
            r is Ok ==> forall|i: int|
                STORED_LEN <= i < ERASE_GRANULE ==> final(flash)@[i] == 0xffu8,
            r is Ok ==> forall|i: int|
                ERASE_GRANULE <= i < old(flash)@.len() ==> final(flash)@[i] == old(flash)@[i],
    {
        let encoded = encode_record(
            self.version.code(),
            self.net_id,
            self.nwkskey,
            self.appskey,
            self.iccid,
            self.send_frequency_ms,
            self.network_server_host,
            self.network_server_port,
        );
        match encoded {
            None => Err(ConfigError::CannotSave),
            Some(buf) => {
                if flash.try_erase(0, ERASE_GRANULE).is_err() {
                    return Err(ConfigError::CannotSave);
                }
                if flash.try_write(0, buf.as_slice()).is_err() {
                    return Err(ConfigError::CannotSave);
                }
                proof {
                    lemma_erased_write_lands(old(flash)@, flash@, buf@);
                }
                assert(flash@.subrange(0, STORED_LEN as int) =~= buf@);
                Ok(())
            },
        }
    }
}

impl Config {
    /// Apply a console `set-net-id` mutation: a hexadecimal network
    /// identifier, leading `0x` prefixes tolerated. A rejected input
    /// leaves the configuration unchanged.
    pub fn set_net_id(&mut self, arg: &str) -> (ok: bool)
        ensures
            ok == (spec_parse_net_id(arg@) is Some),
            ok ==> *final(self) == (Config {
                net_id: spec_parse_net_id(arg@)->Some_0,
                ..*old(self)
            }),
            !ok ==> *final(self) == *old(self),
    {
        match parse_net_id(arg) {
            Some(v) => {
                self.net_id = v;
                true
            },
            None => false,
        }
    }

    /// Apply a console `set-nwkskey` mutation: exactly 32 hexadecimal
    /// characters, else rejected with the configuration unchanged.
    pub fn set_nwk_skey(&mut self, arg: &str) -> (ok: bool)
        ensures
            ok == (spec_parse_skey(arg@) is Some),
            ok ==> *final(self) == (Config {
                nwkskey: Some(spec_parse_skey(arg@)->Some_0),
                ..*old(self)
            }),
            !ok ==> *final(self) == *old(self),
    {
        match parse_session_key(arg) {
            Some(v) => {
                self.nwkskey = Some(v);
                true
            },
            None => false,
        }
    }

    /// Apply a console `set-appskey` mutation: exactly 32 hexadecimal
    /// characters, else rejected with the configuration unchanged.
    pub fn set_app_skey(&mut self, arg: &str) -> (ok: bool)
        ensures
            ok == (spec_parse_skey(arg@) is Some),
            ok ==> *final(self) == (Config {
                appskey: Some(spec_parse_skey(arg@)->Some_0),
                ..*old(self)
            }),
            !ok ==> *final(self) == *old(self),
    {
        match parse_session_key(arg) {
            Some(v) => {
                self.appskey = Some(v);
                true
            },
            None => false,
        }
    }

    /// Apply a console `set-iccid` mutation: a decimal number that fits
    /// an unsigned 64-bit value, else rejected with the configuration
    /// unchanged.
    pub fn set_iccid(&mut self, arg: &str) -> (ok: bool)
        ensures
            ok == (spec_parse_uint(arg@, 10, u64::MAX as u128) is Some),
            ok ==> *final(self) == (Config {
                iccid: Some(spec_parse_uint(arg@, 10, u64::MAX as u128)->Some_0 as u64),
                ..*old(self)
            }),
            !ok ==> *final(self) == *old(self),
    {
        match parse_uint(arg, 10, u64::MAX as u128) {
            Some(v) => {
                proof {
                    lemma_parse_uint_bounded(arg@, 10, u64::MAX as u128);
                }
                self.iccid = Some(v as u64);
                true
            },
            None => false,
        }
    }

    /// Apply a console `set-send-freq` mutation: a decimal number of
    /// milliseconds that fits an unsigned 32-bit value, else rejected
    /// with the configuration unchanged.
    pub fn set_send_freq_ms(&mut self, arg: &str) -> (ok: bool)
        ensures
            ok == (spec_parse_uint(arg@, 10, u32::MAX as u128) is Some),
            ok ==> *final(self) == (Config {
                send_frequency_ms: spec_parse_uint(arg@, 10, u32::MAX as u128)->Some_0 as u32,
                ..*old(self)
            }),
            !ok ==> *final(self) == *old(self),
    {
        match parse_uint(arg, 10, u32::MAX as u128) {
            Some(v) => {
                proof {
                    lemma_parse_uint_bounded(arg@, 10, u32::MAX as u128);
                }
                self.send_frequency_ms = v as u32;
                true
            },
            None => false,
        }
    }

    /// Apply a console `set-network-host` mutation: four dot-separated
    /// octets, each between 0 and 255, else rejected with the
    /// configuration unchanged.
    pub fn set_network_server_host(&mut self, arg: &str) -> (ok: bool)
        ensures
            ok == (spec_parse_ipv4(arg@) is Some),
            ok ==> *final(self) == (Config {
                network_server_host: Some(spec_parse_ipv4(arg@)->Some_0),
                ..*old(self)
            }),
            !ok ==> *final(self) == *old(self),
    {
        match parse_ipv4(arg) {
            Some(v) => {
                self.network_server_host = Some(v);
                true
            },
            None => false,
        }
    }

    /// Apply a console `set-network-port` mutation: a decimal number
    /// that fits an unsigned 16-bit value, else rejected with the
    /// configuration unchanged.
    pub fn set_network_server_port(&mut self, arg: &str) -> (ok: bool)
        ensures
            ok == (spec_parse_uint(arg@, 10, u16::MAX as u128) is Some),
            ok ==> *final(self) == (Config {
                network_server_port: spec_parse_uint(arg@, 10, u16::MAX as u128)->Some_0 as u16,
                ..*old(self)
            }),
            !ok ==> *final(self) == *old(self),
    {
        match parse_uint(arg, 10, u16::MAX as u128) {
            Some(v) => {
                proof {
                    lemma_parse_uint_bounded(arg@, 10, u16::MAX as u128);
                }
                self.network_server_port = v as u16;
                true
            },
            None => false,
        }
    }
}

/// After erasing to all-ones, an AND-semantics write lands verbatim.
proof fn lemma_erased_write_lands(before: Seq<u8>, after: Seq<u8>, data: Seq<u8>)
    requires
        data.len() <= after.len(),
        forall|i: int| 0 <= i < data.len() ==> after[i] == (0xffu8 & data[i]),
    ensures
        forall|i: int| 0 <= i < data.len() ==> after[i] == data[i],
{
    assert forall|i: int| 0 <= i < data.len() implies after[i] == data[i] by {
        let b = data[i];
        assert(0xffu8 & b == b) by (bit_vector);
    }
}

/// Round trip: a configuration whose version tag is the supported one is
/// reconstructed field-for-field from its own stored record.
pub proof fn lemma_record_round_trip(c: Config)
    requires
        c.version == Version::V1,
    ensures
        spec_from_stored(Some(c.spec_record())) == c,
{
}

/// Defaulting: a stored record that is absent, corrupt, or tagged with
/// the erased sentinel loads as the default configuration, which is not
/// complete and carries the documented one-hour interval and default
/// port.
pub proof fn lemma_load_defaults(rec: Option<StoredRecord>)
    requires
        rec is None || (rec->Some_0).0 != 1,
    ensures
        spec_from_stored(rec) == Config::spec_default(),
        !spec_from_stored(rec).spec_is_complete(),
        spec_from_stored(rec).send_frequency_ms == DEFAULT_SEND_FREQUENCY_MS,
        spec_from_stored(rec).network_server_port == DEFAULT_NETWORK_SERVER_PORT,
{
}

/// Completeness looks at exactly the four provisionable fields: two
/// configurations that agree on them agree on completeness, whatever
/// their other fields hold.
pub proof fn lemma_is_complete_independent(a: Config, b: Config)
    requires
        a.nwkskey == b.nwkskey,
        a.appskey == b.appskey,
        a.iccid == b.iccid,
        a.network_server_host == b.network_server_host,
    ensures
        a.spec_is_complete() == b.spec_is_complete(),
{
}

} // verus!

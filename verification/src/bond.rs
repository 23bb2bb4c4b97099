//! A volume's client configuration, its validation, and the sequence that
//! starts the volume's `cfs-client`.
use vstd::prelude::*;
use vstd::string::*;
use crate::utils::{gen_log_path, gen_mount_path, log_path, mount_path};

verus! {

/// The configuration file of `cfs-client`; every field is optional but
/// `profPort`.
#[allow(non_snake_case)]
pub struct ClientConfig {
    pub mountPoint: Option<String>,
    pub volName: Option<String>,
    pub owner: Option<String>,
    pub masterAddr: Option<String>,
    pub logDir: Option<String>,
    pub logLevel: Option<String>,
    pub profPort: String,
    pub exporterPort: Option<String>,
    pub consulAddr: Option<String>,
    pub lookupValid: Option<String>,
    pub attrValid: Option<String>,
    pub icacheTimeout: Option<String>,
    pub enSyncWrite: Option<String>,
    pub autoInvalData: Option<String>,
    pub ronly: Option<bool>,
    pub writecache: Option<bool>,
    pub keepcache: Option<bool>,
    pub token: Option<String>,
    pub readRate: Option<u32>,
    pub writeRate: Option<u32>,
    pub followerRead: Option<bool>,
    pub accessKey: Option<String>,
    pub secretKey: Option<String>,
    pub disableDcache: Option<bool>,
    pub subdir: Option<String>,
    pub fsyncOnClose: Option<bool>,
    pub maxcpus: Option<u32>,
    pub enableXattr: Option<bool>,
    pub enableBcache: Option<bool>,
}

/// The texts of an optional string.
pub open spec fn opt_view(o: Option<String>) -> Option<Seq<char>> {
    match o {
        Some(s) => Some(s@),
        None => None,
    }
}

impl Default for ClientConfig {
    fn default() -> (res: Self)
        ensures
            res.mountPoint is None && res.volName is None && res.owner is None,
            res.masterAddr is None && res.logDir is None && res.logLevel is None,
            res.profPort@ == Seq::<char>::empty(),
            res.exporterPort is None && res.consulAddr is None && res.lookupValid is None,
            res.attrValid is None && res.icacheTimeout is None && res.enSyncWrite is None,
            res.autoInvalData is None && res.ronly is None && res.writecache is None,
            res.keepcache is None && res.token is None && res.readRate is None,
            res.writeRate is None && res.followerRead is None && res.accessKey is None,
            res.secretKey is None && res.disableDcache is None && res.subdir is None,
            res.fsyncOnClose is None && res.maxcpus is None && res.enableXattr is None,
            res.enableBcache is None,
    {
        ClientConfig {
            mountPoint: None,
            volName: None,
            owner: None,
            masterAddr: None,
            logDir: None,
            logLevel: None,
            profPort: String::new(),
            exporterPort: None,
            consulAddr: None,
            lookupValid: None,
            attrValid: None,
            icacheTimeout: None,
            enSyncWrite: None,
            autoInvalData: None,
            ronly: None,
            writecache: None,
            keepcache: None,
            token: None,
            readRate: None,
            writeRate: None,
            followerRead: None,
            accessKey: None,
            secretKey: None,
            disableDcache: None,
            subdir: None,
            fsyncOnClose: None,
            maxcpus: None,
            enableXattr: None,
            enableBcache: None,
        }
    }
}

/// `after` holds every setting of `before` but the four that `setup` derives
/// (`mountPoint`, `logDir`, `logLevel`, `owner`).
pub open spec fn keeps_user_settings(before: ClientConfig, after: ClientConfig) -> bool {
    &&& after.volName == before.volName
    &&& after.masterAddr == before.masterAddr
    &&& after.profPort == before.profPort
    &&& after.exporterPort == before.exporterPort
    &&& after.consulAddr == before.consulAddr
    &&& after.lookupValid == before.lookupValid
    &&& after.attrValid == before.attrValid
    &&& after.icacheTimeout == before.icacheTimeout
    &&& after.enSyncWrite == before.enSyncWrite
    &&& after.autoInvalData == before.autoInvalData
    &&& after.ronly == before.ronly
    &&& after.writecache == before.writecache
    &&& after.keepcache == before.keepcache
    &&& after.token == before.token
    &&& after.readRate == before.readRate
    &&& after.writeRate == before.writeRate
    &&& after.followerRead == before.followerRead
    &&& after.accessKey == before.accessKey
    &&& after.secretKey == before.secretKey
    &&& after.disableDcache == before.disableDcache
    &&& after.subdir == before.subdir
    &&& after.fsyncOnClose == before.fsyncOnClose
    &&& after.maxcpus == before.maxcpus
    &&& after.enableXattr == before.enableXattr
    &&& after.enableBcache == before.enableBcache
}

/// `value` when it is there, else `default`.
pub open spec fn or_default(value: Option<String>, default: Seq<char>) -> Seq<char> {
    match value {
        Some(s) => s@,
        None => default,
    }
}

/// `bond` is what `Bond::setup` makes of `config`: the volume is the
/// configuration's volume name, the mount point and the log directory follow
/// from it, the log level defaults to `info`, the owner to `cfs`, and every
/// other setting is kept.
pub open spec fn set_up(config: ClientConfig, bond: Bond) -> bool {
    let v = config.volName->0@;
    let c = bond.client_config();
    &&& bond.volume() == v
    &&& opt_view(c.mountPoint) == Some(mount_path(v))
    &&& opt_view(c.logDir) == Some(log_path(v))
    &&& opt_view(c.logLevel) == Some(or_default(config.logLevel, "info"@))
    &&& opt_view(c.owner) == Some(or_default(config.owner, "cfs"@))
    &&& keeps_user_settings(config, c)
}

/// A validated configuration of a volume, ready to start its client.
pub struct Bond {
    config: ClientConfig,
    volume_name: String,
}

impl Bond {
    /// The volume's name.
    pub closed spec fn volume(self) -> Seq<char> {
        self.volume_name@
    }

    /// The configuration that is written for the client.
    pub closed spec fn client_config(self) -> ClientConfig {
        self.config
    }

    pub fn volume_name(&self) -> (res: &str)
        ensures
            res@ == self.volume(),
    {
        self.volume_name.as_str()
    }

    pub fn config(&self) -> (res: &ClientConfig)
        ensures
            *res == self.client_config(),
    {
        &self.config
    }

    /// Validates `config` and completes it: the volume name and the master
    /// addresses are required; the mount point and the log directory are set
    /// from the volume name; the log level defaults to `info` and the owner to
    /// `cfs`.
    pub fn setup(config: ClientConfig) -> (res: Result<Bond, String>)
        ensures
            config.volName is None ==> (res matches Err(e) && e@ == "volName missing"@),
            config.volName is Some && config.masterAddr is None ==> (res matches Err(e) && e@
                == "masterAddr missing"@),
            config.volName is Some && config.masterAddr is Some ==> (res matches Ok(bond)
                && set_up(config, bond)),
    {
        let mut config = config;
        if config.volName.is_none() {
            return Err("volName missing".to_owned());
        }
        if config.masterAddr.is_none() {
            return Err("masterAddr missing".to_owned());
        }
        let volume_name = match &config.volName {
            Some(v) => v.clone(),
            None => String::new(),
        };
        config.mountPoint = Some(gen_mount_path(volume_name.as_str()));
        config.logDir = Some(gen_log_path(volume_name.as_str()));
        if config.logLevel.is_none() {
            config.logLevel = Some("info".to_owned());
        }
        if config.owner.is_none() {
            config.owner = Some("cfs".to_owned());
        }
        Ok(Bond { config, volume_name })
    }
}

} // verus!

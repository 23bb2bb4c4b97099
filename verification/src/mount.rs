//! The `mount` front end, which keeps its files under `/cfs/client`: its client
//! configuration, in which the master addresses are a plain string, its
//! validation, and its answers.
use vstd::prelude::*;
use vstd::string::*;
use crate::bond::{opt_view, or_default};
use crate::io::strings_view;
use crate::text::concat_str;
use crate::launch::{
    config_file_first, launch_first, ConfigFileNext, ConfigFileWrite, Launch, LaunchNext, LaunchPlan,
    LaunchPlanView,
};
use crate::CFS_CLIENT_FILE;

verus! {

/// The configuration file of `cfs-client` as the `mount` front end reads it.
#[allow(non_snake_case)]
pub struct ClientConfig {
    pub mountPoint: Option<String>,
    pub volName: Option<String>,
    pub owner: Option<String>,
    pub masterAddr: String,
    pub logDir: Option<String>,
    pub logLevel: Option<String>,
    pub profPort: Option<String>,
    pub exporterPort: Option<String>,
    pub consulAddr: Option<String>,
    pub lookupValid: Option<String>,
    pub attrValid: Option<String>,
    pub icacheTimeout: Option<String>,
    pub enSyncWrite: Option<String>,
    pub autoInvalData: Option<String>,
    pub ronly: Option<bool>,
    pub writecache: Option<bool>,
    pub keepcache: Option<bool>,
    pub token: Option<String>,
    pub readRate: Option<u32>,
    pub writeRate: Option<u32>,
    pub followerRead: Option<bool>,
    pub accessKey: Option<String>,
    pub secretKey: Option<String>,
    pub disableDcache: Option<bool>,
    pub subdir: Option<String>,
    pub fsyncOnClose: Option<bool>,
    pub maxcpus: Option<u32>,
    pub enableXattr: Option<bool>,
    pub enableBcache: Option<bool>,
}

impl Default for ClientConfig {
    fn default() -> (res: Self)
        ensures
            res.mountPoint is None,
            res.volName is None,
            res.owner is None,
            res.masterAddr@ == Seq::<char>::empty(),
            res.logDir is None,
            res.logLevel is None,
            res.profPort is None,
            res.exporterPort is None,
            res.consulAddr is None,
            res.lookupValid is None,
            res.attrValid is None,
            res.icacheTimeout is None,
            res.enSyncWrite is None,
            res.autoInvalData is None,
            res.ronly is None,
            res.writecache is None,
            res.keepcache is None,
            res.token is None,
            res.readRate is None,
            res.writeRate is None,
            res.followerRead is None,
            res.accessKey is None,
            res.secretKey is None,
            res.disableDcache is None,
            res.subdir is None,
            res.fsyncOnClose is None,
            res.maxcpus is None,
            res.enableXattr is None,
            res.enableBcache is None,
    {
        ClientConfig {
            mountPoint: None,
            volName: None,
            owner: None,
            masterAddr: String::new(),
            logDir: None,
            logLevel: None,
            profPort: None,
            exporterPort: None,
            consulAddr: None,
            lookupValid: None,
            attrValid: None,
            icacheTimeout: None,
            enSyncWrite: None,
            autoInvalData: None,
            ronly: None,
            writecache: None,
            keepcache: None,
            token: None,
            readRate: None,
            writeRate: None,
            followerRead: None,
            accessKey: None,
            secretKey: None,
            disableDcache: None,
            subdir: None,
            fsyncOnClose: None,
            maxcpus: None,
            enableXattr: None,
            enableBcache: None,
        }
    }
}

/// `after` holds every setting of `before` but the four that `setup` derives.
pub open spec fn keeps_user_settings(before: ClientConfig, after: ClientConfig) -> bool {
    &&& after.volName == before.volName
    &&& after.masterAddr == before.masterAddr
    &&& after.profPort == before.profPort
    &&& after.exporterPort == before.exporterPort
    &&& after.consulAddr == before.consulAddr
    &&& after.lookupValid == before.lookupValid
    &&& after.attrValid == before.attrValid
    &&& after.icacheTimeout == before.icacheTimeout
    &&& after.enSyncWrite == before.enSyncWrite
    &&& after.autoInvalData == before.autoInvalData
    &&& after.ronly == before.ronly
    &&& after.writecache == before.writecache
    &&& after.keepcache == before.keepcache
    &&& after.token == before.token
    &&& after.readRate == before.readRate
    &&& after.writeRate == before.writeRate
    &&& after.followerRead == before.followerRead
    &&& after.accessKey == before.accessKey
    &&& after.secretKey == before.secretKey
    &&& after.disableDcache == before.disableDcache
    &&& after.subdir == before.subdir
    &&& after.fsyncOnClose == before.fsyncOnClose
    &&& after.maxcpus == before.maxcpus
    &&& after.enableXattr == before.enableXattr
    &&& after.enableBcache == before.enableBcache
}

/// `/cfs/client/{volume}`: the log directory of this front end.
pub open spec fn client_log_path(volume: Seq<char>) -> Seq<char> {
    "/cfs/client/"@ + volume
}

/// `/cfs/client/{volume}/config.json`: the configuration file of this front end.
pub open spec fn client_config_file(volume: Seq<char>) -> Seq<char> {
    "/cfs/client/"@ + volume + "/config.json"@
}

/// `/cfs/mount/{volume}`.
pub open spec fn client_mount_path(volume: Seq<char>) -> Seq<char> {
    "/cfs/mount/"@ + volume
}

/// A validated configuration of a volume.
pub struct Bond {
    config: ClientConfig,
    log_path: String,
    config_file: String,
    mount_file_path: String,
}

/// `bond` is what `Bond::setup` makes of `config`.
pub open spec fn set_up(config: ClientConfig, bond: Bond) -> bool {
    let v = config.volName->0@;
    let c = bond.client_config();
    &&& bond.log_path() == client_log_path(v)
    &&& bond.config_file() == client_config_file(v)
    &&& bond.mount_file_path() == client_mount_path(v)
    &&& opt_view(c.mountPoint) == Some(client_mount_path(v))
    &&& opt_view(c.logDir) == Some(client_log_path(v))
    &&& opt_view(c.logLevel) == Some(or_default(config.logLevel, "info"@))
    &&& opt_view(c.owner) == Some(or_default(config.owner, "cfs"@))
    &&& keeps_user_settings(config, c)
}

/// How this front end starts the client of `bond`: it makes the mount point,
/// runs `cfs-client -f -c <config>` itself, and a count of `0` means the
/// client is gone.
pub open spec fn launch_plan(bond: Bond) -> LaunchPlanView {
    LaunchPlanView {
        config_file: bond.config_file(),
        log_path: bond.log_path(),
        mount_path: Some(bond.mount_file_path()),
        program: CFS_CLIENT_FILE@,
        args: seq!["-f"@, "-c"@, bond.config_file()],
        shell: "/cfs/client/cfs-client -f -c "@ + bond.config_file(),
        absent: "0"@,
        config_json: None,
    }
}

impl Bond {
    pub closed spec fn client_config(self) -> ClientConfig {
        self.config
    }

    pub closed spec fn log_path(self) -> Seq<char> {
        self.log_path@
    }

    pub closed spec fn config_file(self) -> Seq<char> {
        self.config_file@
    }

    pub closed spec fn mount_file_path(self) -> Seq<char> {
        self.mount_file_path@
    }

    pub fn config(&self) -> (res: &ClientConfig)
        ensures
            *res == self.client_config(),
    {
        &self.config
    }

    /// Validates `config` and completes it: the volume name and the master
    /// addresses are required; the mount point and the log directory are set
    /// from the volume name; the log level defaults to `info` and the owner to
    /// `cfs`.
    pub fn setup(config: ClientConfig) -> (res: Result<Bond, String>)
        ensures
            config.volName is None ==> (res matches Err(e) && e@ == "volName missing"@),
            config.volName is Some && config.masterAddr@.len() == 0 ==> (res matches Err(e) && e@
                == "masterAddr missing"@),
            config.volName is Some && config.masterAddr@.len() != 0 ==> (res matches Ok(bond)
                && set_up(config, bond)),
    {
        let mut config = config;
        if config.volName.is_none() {
            return Err("volName missing".to_owned());
        }
        if config.masterAddr.as_str().is_empty() {
            return Err("masterAddr missing".to_owned());
        }
        let volume_name = match &config.volName {
            Some(v) => v.clone(),
            None => String::new(),
        };
        let mount_file_path = concat_str("/cfs/mount/", volume_name.as_str());
        config.mountPoint = Some(mount_file_path.clone());
        let log_path = concat_str("/cfs/client/", volume_name.as_str());
        config.logDir = Some(log_path.clone());
        let mut config_file = concat_str("/cfs/client/", volume_name.as_str());
        config_file.append("/config.json");
        if config.logLevel.is_none() {
            config.logLevel = Some("info".to_owned());
        }
        if config.owner.is_none() {
            config.owner = Some("cfs".to_owned());
        }
        Ok(Bond { config, log_path, config_file, mount_file_path })
    }

    fn plan(&self) -> (res: LaunchPlan)
        ensures
            res@ == launch_plan(*self),
    {
        let mut args: Vec<String> = Vec::new();
        args.push("-f".to_owned());
        args.push("-c".to_owned());
        args.push(self.config_file.clone());
        proof {
            assert(strings_view(args@) =~= seq!["-f"@, "-c"@, self.config_file@]);
        }
        LaunchPlan {
            config_file: self.config_file.clone(),
            log_path: self.log_path.clone(),
            mount_path: Some(self.mount_file_path.clone()),
            program: CFS_CLIENT_FILE.to_owned(),
            args,
            shell: concat_str("/cfs/client/cfs-client -f -c ", self.config_file.as_str()),
            absent: "0".to_owned(),
            config_json: None,
        }
    }

    /// Writes this volume's configuration file, making its directory first.
    pub fn write_config_file(&self) -> (res: (ConfigFileWrite, ConfigFileNext))
        ensures
            res.0.plan() == launch_plan(*self),
            (res.0.phase(), res.1@) == config_file_first(launch_plan(*self)),
    {
        ConfigFileWrite::begin(self.plan())
    }

    /// Starts the client of this volume along [`launch_plan`].
    pub fn startup(&self) -> (res: (Launch, LaunchNext))
        ensures
            res.0.plan() == launch_plan(*self),
            (res.0.phase(), res.1@) == launch_first(launch_plan(*self)),
    {
        Launch::begin(self.plan())
    }
}

/// The `mount` route before the start-up: the body must be there and parse,
/// and the configuration must pass `Bond::setup`.
pub fn mount_setup(body: Option<Result<ClientConfig, String>>) -> (res: Result<Bond, String>)
    ensures
        body is None ==> (res matches Err(e) && e@ == "body is empty"@),
        body matches Some(Err(parse_error)) ==> (res matches Err(e) && e@ == "parse body fail: "@ + parse_error@),
        body matches Some(Ok(config)) ==> {
            &&& config.volName is None ==> (res matches Err(e) && e@ == "fail: parse param, volName missing"@)
            &&& config.volName is Some && config.masterAddr@.len() == 0 ==> (res matches Err(e) && e@ == "fail: parse param, masterAddr missing"@)
            &&& config.volName is Some && config.masterAddr@.len() != 0 ==> (res matches Ok(bond) && set_up(config, bond))
        },
{
    proof {
        reveal_strlit("fail: parse param, ");
        reveal_strlit("volName missing");
        reveal_strlit("masterAddr missing");
        reveal_strlit("fail: parse param, volName missing");
        reveal_strlit("fail: parse param, masterAddr missing");
    }
    match body {
        None => Err("body is empty".to_owned()),
        Some(Err(parse_error)) => Err(concat_str("parse body fail: ", parse_error.as_str())),
        Some(Ok(config)) => match Bond::setup(config) {
            Ok(bond) => Ok(bond),
            Err(e) => Err(concat_str("fail: parse param, ", e.as_str())),
        },
    }
}

/// The answer of a start route for the outcome of the start-up.
pub open spec fn start_answer(outcome: Result<Seq<char>, Seq<char>>) -> Seq<char> {
    match outcome {
        Ok(answer) => answer,
        Err(e) => "fail: start client fail, "@ + e,
    }
}

pub fn mount_response(outcome: Result<String, String>) -> (res: String)
    ensures
        res@ == start_answer(
            match outcome {
                Ok(s) => Ok(s@),
                Err(e) => Err(e@),
            },
        ),
{
    match outcome {
        Ok(answer) => answer,
        Err(e) => concat_str("fail: start client fail, ", e.as_str()),
    }
}

} // verus!

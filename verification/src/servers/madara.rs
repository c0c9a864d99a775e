//! Configuration and command building for the sequencer node service.
//!
//! The builder collects the command-line arguments and environment variables
//! the node is started with; what exactly a configuration turns into is
//! verified here.  A later environment binding of the same name overrides an
//! earlier one, as an insertion into a map would.

use vstd::prelude::*;

use crate::decimal::dec_str;
use crate::decimal::u16_to_string;
use crate::decimal::u64_to_string;
use crate::servers::anvil::opt_str_view;
use crate::servers::server::ServerError;
use crate::text::pairs_view;
use crate::text::strings_view;

verus! {

/// A failure while managing the sequencer node service.
#[derive(Clone, Debug, PartialEq, Eq)]
pub enum MadaraError {
    /// The node binary was not found; carries the reported cause.
    BinaryNotFound(String),
    /// The underlying server process failed.
    Server(ServerError),
    /// A required configuration item is absent; carries the complaint.
    MissingConfig(String),
    /// A configuration item is unusable; carries the complaint.
    InvalidConfig(String),
    /// Connecting to the running node failed; carries the cause.
    ConnectionFailed(String),
    /// A file-system operation failed; carries the reported cause.
    FileSystem(String),
}

/// Configuration of the sequencer node service.
#[derive(Clone, Debug, PartialEq, Eq)]
pub struct MadaraConfig {
    pub name: String,
    pub database_path: String,
    pub rpc_port: u16,
    pub gateway_port: u16,
    pub rpc_cors: String,
    pub rpc_external: bool,
    pub rpc_admin: bool,
    pub sequencer: bool,
    pub chain_config_path: Option<String>,
    pub feeder_gateway_enable: bool,
    pub gateway_enable: bool,
    pub gateway_external: bool,
    pub l1_endpoint: String,
    pub strk_gas_price: u64,
    pub strk_blob_gas_price: u64,
    pub gas_price: u64,
    pub blob_gas_price: u64,
    pub binary_path: Option<String>,
    pub environment_vars: Vec<(String, String)>,
    pub additional_args: Vec<String>,
    pub release_mode: bool,
}

impl Default for MadaraConfig {
    fn default() -> (r: MadaraConfig)
        ensures
            r.name@ == "madara"@,
            r.database_path@ == "../madara-db"@,
            r.rpc_port == 9944,
            r.gateway_port == 8080,
            r.rpc_cors@ == "*"@,
            r.rpc_external,
            r.rpc_admin,
            r.sequencer,
            opt_str_view(r.chain_config_path) == Some("../configs/presets/devnet.yaml"@),
            r.feeder_gateway_enable,
            r.gateway_enable,
            r.gateway_external,
            r.l1_endpoint@ == "http://127.0.0.1:8545"@,
            r.strk_gas_price == 0,
            r.strk_blob_gas_price == 0,
            r.gas_price == 0,
            r.blob_gas_price == 0,
            opt_str_view(r.binary_path) == Some("../target/release/madara"@),
            r.environment_vars@.len() == 0,
            r.additional_args@.len() == 0,
            !r.release_mode,
    {
        MadaraConfig {
            name: "madara".to_owned(),
            database_path: "../madara-db".to_owned(),
            rpc_port: 9944,
            gateway_port: 8080,
            rpc_cors: "*".to_owned(),
            rpc_external: true,
            rpc_admin: true,
            sequencer: true,
            chain_config_path: Some("../configs/presets/devnet.yaml".to_owned()),
            feeder_gateway_enable: true,
            gateway_enable: true,
            gateway_external: true,
            l1_endpoint: "http://127.0.0.1:8545".to_owned(),
            strk_gas_price: 0,
            strk_blob_gas_price: 0,
            gas_price: 0,
            blob_gas_price: 0,
            binary_path: Some("../target/release/madara".to_owned()),
            environment_vars: Vec::new(),
            additional_args: Vec::new(),
            release_mode: false,
        }
    }
}

/// The fixed part of the argument list a configuration turns into.
pub open spec fn spec_config_core_args(c: MadaraConfig) -> Seq<Seq<char>> {
    seq![
        "--name"@,
        c.name@,
        "--base-path"@,
        c.database_path@,
        "--rpc-port"@,
        dec_str(c.rpc_port as int),
        "--rpc-cors"@,
        c.rpc_cors@,
        "--gateway-port"@,
        dec_str(c.gateway_port as int),
        "--no-l1-sync"@,
        "--strk-gas-price"@,
        dec_str(c.strk_gas_price as int),
        "--strk-blob-gas-price"@,
        dec_str(c.strk_blob_gas_price as int),
        "--gas-price"@,
        dec_str(c.gas_price as int),
        "--blob-gas-price"@,
        dec_str(c.blob_gas_price as int),
    ]
}

/// The optional flags a configuration turns into, in their fixed order.
pub open spec fn spec_config_flags(c: MadaraConfig) -> Seq<Seq<char>> {
    (if c.rpc_external {
        seq!["--rpc-external"@]
    } else {
        Seq::empty()
    }) + (if c.rpc_admin {
        seq!["--rpc-admin"@]
    } else {
        Seq::empty()
    }) + (if c.sequencer {
        seq!["--sequencer"@]
    } else {
        Seq::empty()
    }) + (if c.feeder_gateway_enable {
        seq!["--feeder-gateway-enable"@]
    } else {
        Seq::empty()
    }) + (if c.gateway_enable {
        seq!["--gateway-enable"@]
    } else {
        Seq::empty()
    }) + (if c.gateway_external {
        seq!["--gateway-external"@]
    } else {
        Seq::empty()
    }) + (match opt_str_view(c.chain_config_path) {
        Some(p) => seq!["--chain-config-path"@, p],
        None => Seq::empty(),
    })
}

/// The whole argument list a configuration turns into.
pub open spec fn spec_config_args(c: MadaraConfig) -> Seq<Seq<char>> {
    spec_config_core_args(c) + spec_config_flags(c) + strings_view(c.additional_args@)
}

/// Builder for the sequencer node's command line.
pub struct MadaraCMDBuilder {
    pub args: Vec<String>,
    pub env: Vec<(String, String)>,
}

impl MadaraCMDBuilder {
    pub fn new() -> (r: MadaraCMDBuilder)
        ensures
            r.args@.len() == 0,
            r.env@.len() == 0,
    {
        MadaraCMDBuilder { args: Vec::new(), env: Vec::new() }
    }

    /// A builder holding exactly the arguments and environment of the given
    /// configuration.
    pub fn with_config(config: &MadaraConfig) -> (r: MadaraCMDBuilder)
        ensures
            strings_view(r.args@) == spec_config_args(*config),
            pairs_view(r.env@) == pairs_view(config.environment_vars@),
    {
        let mut builder = MadaraCMDBuilder::new();
        builder.build_from_config(config);
        proof {
            assert(strings_view(builder.args@) =~~= spec_config_args(*config));
            assert(pairs_view(builder.env@) =~~= pairs_view(config.environment_vars@));
        }
        builder
    }

    /// Appends the given configuration's arguments and environment.
    #[verifier::rlimit(100)]
    pub fn build_from_config(&mut self, config: &MadaraConfig)
        ensures
            strings_view(final(self).args@) == strings_view(old(self).args@) + spec_config_args(
                *config,
            ),
            pairs_view(final(self).env@) == pairs_view(old(self).env@) + pairs_view(
                config.environment_vars@,
            ),
    {
        let ghost args0 = strings_view(self.args@);
        self.add_arg("--name", config.name.as_str());
        self.add_arg("--base-path", config.database_path.as_str());
        let rpc_port = u16_to_string(config.rpc_port);
        self.add_arg("--rpc-port", rpc_port.as_str());
        self.add_arg("--rpc-cors", config.rpc_cors.as_str());
        let gateway_port = u16_to_string(config.gateway_port);
        self.add_arg("--gateway-port", gateway_port.as_str());
        self.add_flag("--no-l1-sync");
        let strk_gas_price = u64_to_string(config.strk_gas_price);
        self.add_arg("--strk-gas-price", strk_gas_price.as_str());
        let strk_blob_gas_price = u64_to_string(config.strk_blob_gas_price);
        self.add_arg("--strk-blob-gas-price", strk_blob_gas_price.as_str());
        let gas_price = u64_to_string(config.gas_price);
        self.add_arg("--gas-price", gas_price.as_str());
        let blob_gas_price = u64_to_string(config.blob_gas_price);
        self.add_arg("--blob-gas-price", blob_gas_price.as_str());
        proof {
            assert(strings_view(self.args@) =~~= args0 + spec_config_core_args(*config));
        }
        if config.rpc_external {
            self.add_flag("--rpc-external");
        }
        if config.rpc_admin {
            self.add_flag("--rpc-admin");
        }
        if config.sequencer {
            self.add_flag("--sequencer");
        }
        if config.feeder_gateway_enable {
            self.add_flag("--feeder-gateway-enable");
        }
        if config.gateway_enable {
            self.add_flag("--gateway-enable");
        }
        if config.gateway_external {
            self.add_flag("--gateway-external");
        }
        match &config.chain_config_path {
            Some(p) => {
                self.add_arg("--chain-config-path", p.as_str());
            },
            None => {},
        }
        proof {
            assert(strings_view(self.args@) =~~= args0 + spec_config_core_args(*config)
                + spec_config_flags(*config));
        }
        let ghost args1 = strings_view(self.args@);
        let mut i: usize = 0;
        while i < config.additional_args.len()
            invariant
                i <= config.additional_args@.len(),
                strings_view(self.args@) == args1 + strings_view(
                    config.additional_args@,
                ).take(i as int),
                pairs_view(self.env@) == pairs_view(old(self).env@),
            decreases config.additional_args@.len() - i,
        {
            let ghost args_before = self.args@;
            let x = config.additional_args[i].clone();
            self.args.push(x);
            i = i + 1;
            proof {
                crate::text::lemma_strings_view_push(args_before, x);
                let av = strings_view(config.additional_args@);
                assert(x@ == av[i - 1]);
                assert(av.take(i as int) =~= av.take(i - 1).push(av[i - 1]));
                assert(strings_view(self.args@) =~~= args1 + av.take(i as int));
            }
        }
        let mut j: usize = 0;
        while j < config.environment_vars.len()
            invariant
                j <= config.environment_vars@.len(),
                strings_view(self.args@) == args1 + strings_view(config.additional_args@).take(
                    config.additional_args@.len() as int,
                ),
                pairs_view(self.env@) == pairs_view(old(self).env@) + pairs_view(
                    config.environment_vars@,
                ).take(j as int),
            decreases config.environment_vars@.len() - j,
        {
            let ghost env_before = self.env@;
            let pair = (
                config.environment_vars[j].0.clone(),
                config.environment_vars[j].1.clone(),
            );
            self.env.push(pair);
            j = j + 1;
            proof {
                crate::text::lemma_pairs_view_push(env_before, pair);
                let ev = pairs_view(config.environment_vars@);
                assert((pair.0@, pair.1@) == ev[j - 1]);
                assert(ev.take(j as int) =~= ev.take(j - 1).push(ev[j - 1]));
                assert(pairs_view(self.env@) =~~= pairs_view(old(self).env@) + ev.take(j as int));
            }
        }
        proof {
            assert(strings_view(config.additional_args@).take(
                config.additional_args@.len() as int,
            ) =~= strings_view(config.additional_args@));
            assert(pairs_view(config.environment_vars@).take(
                config.environment_vars@.len() as int,
            ) =~= pairs_view(config.environment_vars@));
            assert(strings_view(self.args@) =~~= strings_view(old(self).args@) + spec_config_args(
                *config,
            ));
        }
    }

    /// Appends a key-value argument pair.
    pub fn add_arg(&mut self, key: &str, value: &str)
        ensures
            strings_view(final(self).args@) == strings_view(old(self).args@) + seq![key@, value@],
            final(self).env == old(self).env,
    {
        self.args.push(key.to_owned());
        self.args.push(value.to_owned());
        proof {
            assert(strings_view(self.args@) =~~= strings_view(old(self).args@) + seq![
                key@,
                value@,
            ]);
        }
    }

    /// Appends a lone flag.
    pub fn add_flag(&mut self, flag: &str)
        ensures
            strings_view(final(self).args@) == strings_view(old(self).args@) + seq![flag@],
            final(self).env == old(self).env,
    {
        self.args.push(flag.to_owned());
        proof {
            assert(strings_view(self.args@) =~~= strings_view(old(self).args@) + seq![flag@]);
        }
    }

    /// Appends an environment binding; a binding appended later overrides an
    /// earlier one of the same name.
    pub fn add_env(&mut self, key: &str, value: &str)
        ensures
            pairs_view(final(self).env@) == pairs_view(old(self).env@).push((key@, value@)),
            final(self).args == old(self).args,
    {
        self.env.push((key.to_owned(), value.to_owned()));
        proof {
            assert(pairs_view(self.env@) =~~= pairs_view(old(self).env@).push((key@, value@)));
        }
    }

    /// Builds the final command.
    pub fn build(&self) -> (r: MadaraCMD)
        ensures
            strings_view(r.args@) == strings_view(self.args@),
            pairs_view(r.env@) == pairs_view(self.env@),
    {
        MadaraCMD { args: clone_strings(&self.args), env: clone_pairs(&self.env) }
    }
}

/// The command line the sequencer node is started with.
#[derive(Clone, Debug, PartialEq, Eq)]
pub struct MadaraCMD {
    pub args: Vec<String>,
    pub env: Vec<(String, String)>,
}

impl MadaraCMD {
    pub fn new(args: Vec<String>, env: Vec<(String, String)>) -> (r: MadaraCMD)
        ensures
            r.args == args,
            r.env == env,
    {
        MadaraCMD { args, env }
    }

    pub fn from_config(config: &MadaraConfig) -> (r: MadaraCMD)
        ensures
            strings_view(r.args@) == spec_config_args(*config),
            pairs_view(r.env@) == pairs_view(config.environment_vars@),
    {
        MadaraCMDBuilder::with_config(config).build()
    }
}

/// Clones a list of strings, keeping its text.
pub fn clone_strings(v: &Vec<String>) -> (r: Vec<String>)
    ensures
        strings_view(r@) == strings_view(v@),
{
    let mut r: Vec<String> = Vec::new();
    let mut i: usize = 0;
    while i < v.len()
        invariant
            i <= v@.len(),
            strings_view(r@) == strings_view(v@).take(i as int),
        decreases v@.len() - i,
    {
        let ghost r_before = r@;
        let x = v[i].clone();
        r.push(x);
        i = i + 1;
        proof {
            crate::text::lemma_strings_view_push(r_before, x);
            let sv = strings_view(v@);
            assert(x@ == sv[i - 1]);
            assert(sv.take(i as int) =~= sv.take(i - 1).push(sv[i - 1]));
            assert(strings_view(r@) =~~= sv.take(i as int));
        }
    }
    proof {
        assert(strings_view(v@).take(v@.len() as int) =~= strings_view(v@));
    }
    r
}

/// Clones a list of key-value pairs, keeping its text.
pub fn clone_pairs(v: &Vec<(String, String)>) -> (r: Vec<(String, String)>)
    ensures
        pairs_view(r@) == pairs_view(v@),
{
    let mut r: Vec<(String, String)> = Vec::new();
    let mut i: usize = 0;
    while i < v.len()
        invariant
            i <= v@.len(),
            pairs_view(r@) == pairs_view(v@).take(i as int),
        decreases v@.len() - i,
    {
        let ghost r_before = r@;
        let x = (v[i].0.clone(), v[i].1.clone());
        r.push(x);
        i = i + 1;
        proof {
            crate::text::lemma_pairs_view_push(r_before, x);
            let pv = pairs_view(v@);
            assert((x.0@, x.1@) == pv[i - 1]);
            assert(pv.take(i as int) =~= pv.take(i - 1).push(pv[i - 1]));
            assert(pairs_view(r@) =~~= pv.take(i as int));
        }
    }
    proof {
        assert(pairs_view(v@).take(v@.len() as int) =~= pairs_view(v@));
    }
    r
}

impl MadaraConfig {
    /// Checks the configuration's own consistency: a settlement-layer
    /// endpoint must be given and the two ports must differ.  (Whether the
    /// configured paths exist on disk is the embedding program's check.)
    pub fn validate_config(&self) -> (r: Result<(), MadaraError>)
        ensures
            self.l1_endpoint@.len() == 0 ==> (r matches Err(e) && (e matches
            MadaraError::MissingConfig(m) && m@ == "l1_endpoint is required"@)),
            self.l1_endpoint@.len() > 0 && self.rpc_port == self.gateway_port ==> (r matches Err(e)
                && (e matches MadaraError::InvalidConfig(m) && m@
                == "RPC port and Gateway port cannot be the same"@)),
            r is Ok <==> (self.l1_endpoint@.len() > 0 && self.rpc_port != self.gateway_port),
    {
        if self.l1_endpoint.as_str().is_empty() {
            return Err(MadaraError::MissingConfig("l1_endpoint is required".to_owned()));
        }
        if self.rpc_port == self.gateway_port {
            return Err(
                MadaraError::InvalidConfig("RPC port and Gateway port cannot be the same".to_owned()),
            );
        }
        Ok(())
    }
}

} // verus!

//! Configuration and command building for the local cloud-stack service.

use vstd::prelude::*;

use crate::decimal::dec_str;
use crate::servers::anvil::opt_str_view;
use crate::servers::docker::DockerError;
use crate::text::kv_eq_string;
use crate::text::pairs_view;
use crate::text::port_pair_string;
use crate::text::push_str_arg;
use crate::text::strings_view;

verus! {

/// A failure while managing the local cloud-stack service.
#[derive(Clone, Debug, PartialEq, Eq)]
pub enum LocalstackError {
    /// The container runtime failed.
    Docker(DockerError),
    /// A container of this service already runs on the port.
    AlreadyRunning(u16),
    /// The port is already in use.
    PortInUse(u16),
}

/// Configuration of the local cloud-stack service.
#[derive(Clone, Debug, PartialEq, Eq)]
pub struct LocalstackConfig {
    pub port: u16,
    pub image: String,
    pub container_name: String,
    pub aws_prefix: Option<String>,
    pub environment_vars: Vec<(String, String)>,
}

impl Default for LocalstackConfig {
    fn default() -> (r: LocalstackConfig)
        ensures
            r.port == 4566,
            r.image@
                == "localstack/localstack@sha256:763947722c6c8d33d5fbf7e8d52b4bddec5be35274a0998fdc6176d733375314"@,
            r.container_name@ == "localstack-service"@,
            r.aws_prefix is None,
            pairs_view(r.environment_vars@) =~~= seq![
                ("DEBUG"@, "1"@),
                ("SERVICES"@, "s3,dynamodb,lambda,sqs,sns"@),
            ],
    {
        let mut environment_vars: Vec<(String, String)> = Vec::new();
        environment_vars.push(("DEBUG".to_owned(), "1".to_owned()));
        environment_vars.push(("SERVICES".to_owned(), "s3,dynamodb,lambda,sqs,sns".to_owned()));
        proof {
            assert(pairs_view(environment_vars@) =~~= seq![
                ("DEBUG"@, "1"@),
                ("SERVICES"@, "s3,dynamodb,lambda,sqs,sns"@),
            ]);
        }
        LocalstackConfig {
            port: 4566,
            image:
                "localstack/localstack@sha256:763947722c6c8d33d5fbf7e8d52b4bddec5be35274a0998fdc6176d733375314".to_owned(),
            container_name: "localstack-service".to_owned(),
            aws_prefix: None,
            environment_vars,
        }
    }
}

/// The environment flags (`-e key=value`) for a list of variables.
pub open spec fn spec_env_flags(env: Seq<(Seq<char>, Seq<char>)>) -> Seq<Seq<char>>
    decreases env.len(),
{
    if env.len() == 0 {
        Seq::empty()
    } else {
        spec_env_flags(env.drop_last()) + seq!["-e"@, env.last().0 + "="@ + env.last().1]
    }
}

/// The container-runtime argument list the service is started with.
pub open spec fn spec_localstack_docker_args(
    port: u16,
    image: Seq<char>,
    container_name: Seq<char>,
    aws_prefix: Option<Seq<char>>,
    env: Seq<(Seq<char>, Seq<char>)>,
) -> Seq<Seq<char>> {
    seq!["run"@, "--rm"@, "--name"@, container_name, "-p"@, dec_str(port as int) + ":"@ + dec_str(
        port as int,
    )] + spec_env_flags(env) + (match aws_prefix {
        Some(p) => seq!["-e"@, "AWS_PREFIX="@ + p],
        None => Seq::empty(),
    }) + seq![image]
}

impl LocalstackConfig {
    /// Builds the container-runtime argument list for the service.
    pub fn build_docker_command(&self) -> (args: Vec<String>)
        ensures
            strings_view(args@) == spec_localstack_docker_args(
                self.port,
                self.image@,
                self.container_name@,
                opt_str_view(self.aws_prefix),
                pairs_view(self.environment_vars@),
            ),
    {
        let mut args: Vec<String> = Vec::new();
        args.push("run".to_owned());
        args.push("--rm".to_owned());
        args.push("--name".to_owned());
        args.push(self.container_name.clone());
        args.push("-p".to_owned());
        args.push(port_pair_string(self.port, self.port));
        let ghost head = strings_view(args@);
        let mut i: usize = 0;
        while i < self.environment_vars.len()
            invariant
                i <= self.environment_vars@.len(),
                strings_view(args@) == head + spec_env_flags(
                    pairs_view(self.environment_vars@).take(i as int),
                ),
            decreases self.environment_vars@.len() - i,
        {
            let ghost args_before = args@;
            let e_flag = "-e".to_owned();
            let kv = kv_eq_string(&self.environment_vars[i].0, &self.environment_vars[i].1);
            args.push(e_flag);
            let ghost args_mid = args@;
            args.push(kv);
            i = i + 1;
            proof {
                crate::text::lemma_strings_view_push(args_before, e_flag);
                crate::text::lemma_strings_view_push(args_mid, kv);
                let pv = pairs_view(self.environment_vars@);
                assert(pv.take(i as int).drop_last() =~= pv.take(i - 1));
                assert(pv.take(i as int).last() == pv[i - 1]);
                assert(spec_env_flags(pv.take(i as int)) == spec_env_flags(pv.take(i - 1))
                    + seq!["-e"@, pv[i - 1].0 + "="@ + pv[i - 1].1]);
                assert(strings_view(args@) =~~= head + spec_env_flags(pv.take(i as int)));
            }
        }
        proof {
            assert(pairs_view(self.environment_vars@).take(
                self.environment_vars@.len() as int,
            ) =~= pairs_view(self.environment_vars@));
        }
        let ghost mid = strings_view(args@);
        match &self.aws_prefix {
            Some(p) => {
                push_str_arg(&mut args, "-e".to_owned());
                let mut flag = "AWS_PREFIX=".to_owned();
                flag.append(p.as_str());
                proof {
                    assert(flag@ =~= "AWS_PREFIX="@ + p@);
                }
                push_str_arg(&mut args, flag);
            },
            None => {},
        }
        push_str_arg(&mut args, self.image.clone());
        proof {
            assert(strings_view(args@) =~~= spec_localstack_docker_args(
                self.port,
                self.image@,
                self.container_name@,
                opt_str_view(self.aws_prefix),
                pairs_view(self.environment_vars@),
            ));
        }
        args
    }
}

} // verus!

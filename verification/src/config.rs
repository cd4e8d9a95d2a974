//! Host-side configuration for spawning a plugin and talking to it.

use std::time::Duration;
use vstd::prelude::*;
use vstd::string::*;

verus! {

/// The duration of `ms` milliseconds, as `Duration::from_millis` builds it.
pub uninterp spec fn duration_from_millis(ms: u64) -> Duration;

/// The duration of `secs` seconds, as `Duration::from_secs` builds it.
pub uninterp spec fn duration_from_secs(secs: u64) -> Duration;

/// Calls `Duration::from_millis`; its result is named
/// [`duration_from_millis`], a function of the argument alone.
#[verifier::external_body]
fn millis(ms: u64) -> (res: Duration)
    ensures
        res == duration_from_millis(ms),
{
    Duration::from_millis(ms)
}

/// Calls `Duration::from_secs`; its result is named [`duration_from_secs`],
/// a function of the argument alone.
#[verifier::external_body]
fn secs(s: u64) -> (res: Duration)
    ensures
        res == duration_from_secs(s),
{
    Duration::from_secs(s)
}

/// The mathematical value of a [`HostConfig`].
pub struct HostConfigView {
    pub plugin_path: Seq<char>,
    pub plugin_args: Seq<Seq<char>>,
    pub connect_retries: u32,
    pub connect_retry_delay: Duration,
    pub poll_interval: Duration,
    pub rpc_timeout: Duration,
}

/// The configuration [`HostConfig::new`] gives for the plugin binary at
/// `plugin_path`.
pub open spec fn initial_config(plugin_path: Seq<char>) -> HostConfigView {
    HostConfigView {
        plugin_path,
        plugin_args: Seq::empty(),
        connect_retries: 5,
        connect_retry_delay: duration_from_millis(500),
        poll_interval: duration_from_secs(1),
        rpc_timeout: duration_from_secs(30),
    }
}

/// One call of a `with_*` builder of [`HostConfig`], with its argument.
pub enum ConfigChange {
    Args(Seq<Seq<char>>),
    ConnectRetries(u32),
    ConnectRetryDelay(Duration),
    PollInterval(Duration),
    RpcTimeout(Duration),
}

impl HostConfigView {
    /// The configuration after one builder call.
    pub open spec fn changed(self, change: ConfigChange) -> HostConfigView {
        match change {
            ConfigChange::Args(args) => HostConfigView { plugin_args: args, ..self },
            ConfigChange::ConnectRetries(r) => HostConfigView { connect_retries: r, ..self },
            ConfigChange::ConnectRetryDelay(d) => HostConfigView { connect_retry_delay: d, ..self },
            ConfigChange::PollInterval(d) => HostConfigView { poll_interval: d, ..self },
            ConfigChange::RpcTimeout(d) => HostConfigView { rpc_timeout: d, ..self },
        }
    }

    /// The configuration after a sequence of builder calls, in order.
    pub open spec fn changed_by_all(self, changes: Seq<ConfigChange>) -> HostConfigView
        decreases changes.len(),
    {
        if changes.len() == 0 {
            self
        } else {
            self.changed_by_all(changes.drop_last()).changed(changes.last())
        }
    }
}

/// `with_args` sets the arguments rather than adding to them: afterwards
/// the arguments are exactly the ones given, whatever they were before, so
/// a second call undoes the first; every other field is kept.
pub proof fn lemma_with_args_sets(
    config: HostConfigView,
    first: Seq<Seq<char>>,
    second: Seq<Seq<char>>,
)
    ensures
        config.changed(ConfigChange::Args(first)).plugin_args == first,
        config.changed(ConfigChange::Args(first)).changed(ConfigChange::Args(second))
            == config.changed(ConfigChange::Args(second)),
        config.changed(ConfigChange::Args(first)).plugin_path == config.plugin_path,
        config.changed(ConfigChange::Args(first)).connect_retries == config.connect_retries,
        config.changed(ConfigChange::Args(first)).connect_retry_delay
            == config.connect_retry_delay,
        config.changed(ConfigChange::Args(first)).poll_interval == config.poll_interval,
        config.changed(ConfigChange::Args(first)).rpc_timeout == config.rpc_timeout,
{
}

/// No builder changes the plugin path: after `HostConfig::new(p)` and any
/// sequence of `with_*` calls, the path is still `p`.
pub proof fn lemma_builders_keep_plugin_path(plugin_path: Seq<char>, changes: Seq<ConfigChange>)
    ensures
        initial_config(plugin_path).changed_by_all(changes).plugin_path == plugin_path,
    decreases changes.len(),
{
    if changes.len() > 0 {
        lemma_builders_keep_plugin_path(plugin_path, changes.drop_last());
    }
}

/// Configuration for spawning a plugin process and talking to it over
/// JSON-RPC/TCP.
///
/// The defaults give the plugin five connection attempts, 500 ms apart,
/// while its TCP listener comes up after spawn.
#[derive(Debug)]
pub struct HostConfig {
    plugin_path: String,
    plugin_args: Vec<String>,
    connect_retries: u32,
    connect_retry_delay: Duration,
    poll_interval: Duration,
    rpc_timeout: Duration,
}

impl View for HostConfig {
    type V = HostConfigView;

    closed spec fn view(&self) -> HostConfigView {
        HostConfigView {
            plugin_path: self.plugin_path@,
            plugin_args: self.plugin_args@.map_values(|a: String| a@),
            connect_retries: self.connect_retries,
            connect_retry_delay: self.connect_retry_delay,
            poll_interval: self.poll_interval,
            rpc_timeout: self.rpc_timeout,
        }
    }
}

impl Clone for HostConfig {
    fn clone(&self) -> (res: Self)
        ensures
            res@ == self@,
    {
        let args = self.plugin_args.clone();
        proof {
            assert forall|i: int| 0 <= i < args@.len() implies args@[i]@ == self.plugin_args@[i]@ by {
                assert(cloned::<String>(self.plugin_args[i], args[i]));
            }
            assert(args@.map_values(|a: String| a@) =~= self.plugin_args@.map_values(
                |a: String| a@,
            ));
        }
        HostConfig {
            plugin_path: self.plugin_path.clone(),
            plugin_args: args,
            connect_retries: self.connect_retries,
            connect_retry_delay: self.connect_retry_delay,
            poll_interval: self.poll_interval,
            rpc_timeout: self.rpc_timeout,
        }
    }
}

impl HostConfig {
    /// A configuration for the plugin binary at `plugin_path`: no
    /// arguments, 5 connection retries 500 ms apart, a poll interval of 1 s
    /// and an RPC timeout of 30 s.
    pub fn new(plugin_path: &str) -> (res: Self)
        ensures
            res@ == initial_config(plugin_path@),
    {
        let res = HostConfig {
            plugin_path: String::from_str(plugin_path),
            plugin_args: Vec::new(),
            connect_retries: 5,
            connect_retry_delay: millis(500),
            poll_interval: secs(1),
            rpc_timeout: secs(30),
        };
        assert(res@.plugin_args =~= Seq::<Seq<char>>::empty());
        res
    }

    /// Sets the arguments passed to the plugin binary on spawn.
    pub fn with_args(self, args: &[&str]) -> (res: Self)
        ensures
            res@ == self@.changed(ConfigChange::Args(args@.map_values(|a: &str| a@))),
            res@.plugin_args == args@.map_values(|a: &str| a@),
            res@.plugin_path == self@.plugin_path,
            res@.connect_retries == self@.connect_retries,
            res@.connect_retry_delay == self@.connect_retry_delay,
            res@.poll_interval == self@.poll_interval,
            res@.rpc_timeout == self@.rpc_timeout,
    {
        let mut owned: Vec<String> = Vec::new();
        let mut i: usize = 0;
        while i < args.len()
            invariant
                i <= args@.len(),
                owned@.len() == i,
                owned@.map_values(|a: String| a@) =~= args@.take(i as int).map_values(
                    |a: &str| a@,
                ),
            decreases args@.len() - i,
        {
            let ghost before = owned@;
            let arg = String::from_str(args[i]);
            owned.push(arg);
            proof {
                assert(args@.take(i + 1) =~= args@.take(i as int).push(args@[i as int]));
                assert(owned@ =~= before.push(arg));
                assert(owned@.map_values(|a: String| a@) =~= before.map_values(|a: String| a@).push(
                    arg@,
                ));
            }
            i = i + 1;
        }
        proof {
            assert(args@.take(args@.len() as int) =~= args@);
        }
        HostConfig { plugin_args: owned, ..self }
    }

    /// Sets how many times to retry connecting to the plugin's TCP
    /// listener after spawning it.
    pub fn with_connect_retries(self, retries: u32) -> (res: Self)
        ensures
            res@ == self@.changed(ConfigChange::ConnectRetries(retries)),
    {
        HostConfig { connect_retries: retries, ..self }
    }

    /// Sets the delay between connection retry attempts.
    pub fn with_connect_retry_delay(self, delay: Duration) -> (res: Self)
        ensures
            res@ == self@.changed(ConfigChange::ConnectRetryDelay(delay)),
    {
        HostConfig { connect_retry_delay: delay, ..self }
    }

    /// Sets how often to poll the plugin for job status.
    pub fn with_poll_interval(self, interval: Duration) -> (res: Self)
        ensures
            res@ == self@.changed(ConfigChange::PollInterval(interval)),
    {
        HostConfig { poll_interval: interval, ..self }
    }

    /// Sets the timeout for a single JSON-RPC round trip.
    pub fn with_rpc_timeout(self, timeout: Duration) -> (res: Self)
        ensures
            res@ == self@.changed(ConfigChange::RpcTimeout(timeout)),
    {
        HostConfig { rpc_timeout: timeout, ..self }
    }

    /// The path to the plugin binary.
    pub fn plugin_path(&self) -> (res: &str)
        ensures
            res@ == self@.plugin_path,
    {
        self.plugin_path.as_str()
    }

    /// The arguments passed to the plugin binary on spawn.
    pub fn plugin_args(&self) -> (res: &[String])
        ensures
            res@.map_values(|a: String| a@) == self@.plugin_args,
    {
        self.plugin_args.as_slice()
    }

    /// How many times to retry connecting to the plugin's TCP listener.
    pub fn connect_retries(&self) -> (res: u32)
        ensures
            res == self@.connect_retries,
    {
        self.connect_retries
    }

    /// The delay between connection retry attempts.
    pub fn connect_retry_delay(&self) -> (res: Duration)
        ensures
            res == self@.connect_retry_delay,
    {
        self.connect_retry_delay
    }

    /// How often to poll the plugin for job status.
    pub fn poll_interval(&self) -> (res: Duration)
        ensures
            res == self@.poll_interval,
    {
        self.poll_interval
    }

    /// The timeout for a single JSON-RPC round trip.
    pub fn rpc_timeout(&self) -> (res: Duration)
        ensures
            res == self@.rpc_timeout,
    {
        self.rpc_timeout
    }
}

} // verus!

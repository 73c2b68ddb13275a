use vstd::prelude::*;

use crate::bounded::{
    bounded100, bounded20, bounded30, byte_len, clone30, entries, entry_slice, eq30, new_entries, push_entry,
    text100, text20, text30,
};
use vstd::std_specs::cmp::PartialEqSpec;

verus! {

/// Construction of a bounded value failed because the input exceeds the
/// fixed capacity.
#[derive(Debug, Clone, Copy, PartialEq, Eq, Structural)]
pub struct CapacityError;

/// Most configuration entries that one start-up event carries.
pub const MAX_CONFIGURATION: usize = 20;

/// Version of the telemetry protocol.
#[derive(Debug, Clone, Copy, PartialEq, Eq, Structural)]
pub enum ApiVersion {
    V1,
    V2,
}

/// The wire text of a protocol version.
pub open spec fn api_version_text(v: ApiVersion) -> Seq<char> {
    match v {
        ApiVersion::V1 => "v1"@,
        ApiVersion::V2 => "v2"@,
    }
}

impl ApiVersion {
    pub fn to_str(&self) -> (r: &'static str)
        ensures
            r@ == api_version_text(*self),
    {
        match self {
            ApiVersion::V1 => "v1",
            ApiVersion::V2 => "v2",
        }
    }
}

/// Where a configuration value came from.
#[derive(Debug, Clone, Copy, PartialEq, Eq, Structural, Hash)]
pub enum ConfigurationOrigin {
    EnvVar,
    Code,
    DdConfig,
    RemoteConfig,
    Default,
}

/// The wire text of an origin: the variant's own name.
pub open spec fn origin_text(o: ConfigurationOrigin) -> Seq<char> {
    match o {
        ConfigurationOrigin::EnvVar => "EnvVar"@,
        ConfigurationOrigin::Code => "Code"@,
        ConfigurationOrigin::DdConfig => "DdConfig"@,
        ConfigurationOrigin::RemoteConfig => "RemoteConfig"@,
        ConfigurationOrigin::Default => "Default"@,
    }
}

impl ConfigurationOrigin {
    pub fn to_str(&self) -> (r: &'static str)
        ensures
            r@ == origin_text(*self),
    {
        match self {
            ConfigurationOrigin::EnvVar => "EnvVar",
            ConfigurationOrigin::Code => "Code",
            ConfigurationOrigin::DdConfig => "DdConfig",
            ConfigurationOrigin::RemoteConfig => "RemoteConfig",
            ConfigurationOrigin::Default => "Default",
        }
    }
}

/// One reported configuration setting.
#[derive(Debug, Hash)]
pub struct Configuration {
    pub name: heapless::String<30>,
    pub value: heapless::String<30>,
    pub origin: ConfigurationOrigin,
}

/// Two configuration entries are the same setting when name, value and
/// origin agree.
pub open spec fn same_configuration(a: Configuration, b: Configuration) -> bool {
    text30(a.name) == text30(b.name) && text30(a.value) == text30(b.value) && a.origin == b.origin
}

impl PartialEq for Configuration {
    fn eq(&self, o: &Self) -> (r: bool) {
        eq30(&self.name, &o.name) && eq30(&self.value, &o.value) && self.origin == o.origin
    }
}

impl vstd::std_specs::cmp::PartialEqSpecImpl for Configuration {
    open spec fn obeys_eq_spec() -> bool {
        true
    }

    open spec fn eq_spec(&self, o: &Self) -> bool {
        same_configuration(*self, *o)
    }
}

impl Eq for Configuration {
}

impl Clone for Configuration {
    fn clone(&self) -> (r: Self)
        ensures
            same_configuration(r, *self),
    {
        Configuration { name: clone30(&self.name), value: clone30(&self.value), origin: self.origin }
    }
}

impl Configuration {
    /// Builds an entry from its three parts, failing when a text does not
    /// fit its capacity.
    pub fn try_new(name: &str, value: &str, origin: ConfigurationOrigin) -> (r: Result<
        Configuration,
        CapacityError,
    >)
        ensures
            r is Ok <==> byte_len(name@) <= 30 && byte_len(value@) <= 30,
            r is Ok ==> text30(r->Ok_0.name) == name@ && text30(r->Ok_0.value) == value@
                && r->Ok_0.origin == origin,
    {
        let name = match bounded30(name) {
            Ok(n) => n,
            Err(()) => return Err(CapacityError),
        };
        let value = match bounded30(value) {
            Ok(v) => v,
            Err(()) => return Err(CapacityError),
        };
        Ok(Configuration { name, value, origin })
    }
}

/// Payload of the event sent when the application starts.
#[derive(Debug)]
pub struct AppStarted {
    pub configuration: heapless::Vec<Configuration, 20>,
}

impl View for AppStarted {
    type V = Seq<Configuration>;

    open spec fn view(&self) -> Seq<Configuration> {
        entries(self.configuration)
    }
}

impl AppStarted {
    /// An event with no configuration entries.
    pub fn empty() -> (r: AppStarted)
        ensures
            r@ == Seq::<Configuration>::empty(),
    {
        AppStarted { configuration: new_entries() }
    }

    /// Takes the given entries, in order, if there are at most
    /// `MAX_CONFIGURATION` of them.
    pub fn try_new(configuration: Vec<Configuration>) -> (r: Result<AppStarted, CapacityError>)
        ensures
            r is Ok <==> configuration@.len() <= MAX_CONFIGURATION,
            r is Ok ==> r->Ok_0@ == configuration@,
    {
        if configuration.len() > MAX_CONFIGURATION {
            return Err(CapacityError);
        }
        let mut started = AppStarted::empty();
        let mut rest = configuration;
        let ghost all = configuration@;
        let n = rest.len();
        let mut i: usize = 0;
        while i < n
            invariant
                n == all.len() <= MAX_CONFIGURATION,
                i <= n,
                rest@ == all.subrange(i as int, n as int),
                started@ == all.take(i as int),
            decreases n - i,
        {
            let c = rest.remove(0);
            let _pushed = push_entry(&mut started.configuration, c);
            assert(all.take(i + 1) == all.take(i as int).push(all[i as int]));
            assert(rest@ =~= all.subrange(i + 1, n as int));
            i = i + 1;
        }
        assert(all.take(n as int) == all);
        Ok(started)
    }

    /// Appends an entry; when the list is full it is handed back.
    pub fn push(&mut self, c: Configuration) -> (r: Result<(), Configuration>)
        ensures
            r is Ok <==> old(self)@.len() < MAX_CONFIGURATION,
            r is Ok ==> final(self)@ == old(self)@.push(c),
            r is Err ==> final(self)@ == old(self)@ && r->Err_0 == c,
    {
        push_entry(&mut self.configuration, c)
    }

    /// The entries, in insertion order.
    pub fn configuration(&self) -> (r: &[Configuration])
        ensures
            r@ == self@,
            r@.len() <= MAX_CONFIGURATION,
    {
        entry_slice(&self.configuration)
    }
}

/// What an event reports.
#[derive(Debug)]
pub enum Payload {
    AppStarted(AppStarted),
    AppHeartbeat,
}

/// Description of the running application.
#[derive(Debug)]
pub struct Application {
    pub service_name: heapless::String<20>,
    pub service_version: Option<heapless::String<20>>,
    pub env: Option<heapless::String<30>>,
    pub language_name: heapless::String<30>,
    pub language_version: heapless::String<30>,
    pub tracer_version: heapless::String<30>,
    pub runtime_name: Option<heapless::String<30>>,
    pub runtime_version: Option<heapless::String<30>>,
    pub runtime_patches: Option<heapless::String<30>>,
}

/// Description of the device the application runs on.
#[derive(Debug)]
pub struct Host {
    pub hostname: heapless::String<100>,
    pub container_id: Option<heapless::String<100>>,
    pub os: Option<heapless::String<100>>,
    pub os_version: Option<heapless::String<100>>,
    pub kernel_name: Option<heapless::String<100>>,
    pub kernel_release: Option<heapless::String<30>>,
    pub kernel_version: Option<heapless::String<30>>,
}

/// One telemetry event: the protocol fields, the device description and
/// the payload.
#[derive(Debug)]
pub struct Telemetry<'a> {
    pub api_version: ApiVersion,
    pub tracer_time: u64,
    pub runtime_id: &'a str,
    pub seq_id: u64,
    pub application: &'a Application,
    pub host: &'a Host,
    pub payload: &'a Payload,
}

/// `o` is absent, or its text fits in `n` bytes.
pub open spec fn optional_fits(o: Option<&str>, n: nat) -> bool {
    match o {
        Some(s) => byte_len(s@) <= n,
        None => true,
    }
}

/// The text of an optional string, if any.
pub open spec fn optional_view(o: Option<&str>) -> Option<Seq<char>> {
    match o {
        Some(s) => Some(s@),
        None => None,
    }
}

/// The text of an optional `String<20>`, if any.
pub open spec fn optional_text20(o: Option<heapless::String<20>>) -> Option<Seq<char>> {
    match o {
        Some(s) => Some(text20(s)),
        None => None,
    }
}

/// Bounds an optional text to 20 bytes, failing when it does not fit.
pub fn optional20(o: Option<&str>) -> (r: Result<Option<heapless::String<20>>, CapacityError>)
    ensures
        r is Ok <==> optional_fits(o, 20),
        r is Ok ==> optional_text20(r->Ok_0) == optional_view(o),
{
    match o {
        Some(s) => match bounded20(s) {
            Ok(b) => Ok(Some(b)),
            Err(()) => Err(CapacityError),
        },
        None => Ok(None),
    }
}

/// Bounds a text to 20 bytes, failing when it does not fit.
pub fn required20(s: &str) -> (r: Result<heapless::String<20>, CapacityError>)
    ensures
        r is Ok <==> byte_len(s@) <= 20,
        r is Ok ==> text20(r->Ok_0) == s@,
{
    match bounded20(s) {
        Ok(b) => Ok(b),
        Err(()) => Err(CapacityError),
    }
}

/// The text of an optional `String<30>`, if any.
pub open spec fn optional_text30(o: Option<heapless::String<30>>) -> Option<Seq<char>> {
    match o {
        Some(s) => Some(text30(s)),
        None => None,
    }
}

/// Bounds an optional text to 30 bytes, failing when it does not fit.
pub fn optional30(o: Option<&str>) -> (r: Result<Option<heapless::String<30>>, CapacityError>)
    ensures
        r is Ok <==> optional_fits(o, 30),
        r is Ok ==> optional_text30(r->Ok_0) == optional_view(o),
{
    match o {
        Some(s) => match bounded30(s) {
            Ok(b) => Ok(Some(b)),
            Err(()) => Err(CapacityError),
        },
        None => Ok(None),
    }
}

/// Bounds a text to 30 bytes, failing when it does not fit.
pub fn required30(s: &str) -> (r: Result<heapless::String<30>, CapacityError>)
    ensures
        r is Ok <==> byte_len(s@) <= 30,
        r is Ok ==> text30(r->Ok_0) == s@,
{
    match bounded30(s) {
        Ok(b) => Ok(b),
        Err(()) => Err(CapacityError),
    }
}

/// The text of an optional `String<100>`, if any.
pub open spec fn optional_text100(o: Option<heapless::String<100>>) -> Option<Seq<char>> {
    match o {
        Some(s) => Some(text100(s)),
        None => None,
    }
}

/// Bounds an optional text to 100 bytes, failing when it does not fit.
pub fn optional100(o: Option<&str>) -> (r: Result<Option<heapless::String<100>>, CapacityError>)
    ensures
        r is Ok <==> optional_fits(o, 100),
        r is Ok ==> optional_text100(r->Ok_0) == optional_view(o),
{
    match o {
        Some(s) => match bounded100(s) {
            Ok(b) => Ok(Some(b)),
            Err(()) => Err(CapacityError),
        },
        None => Ok(None),
    }
}

/// Bounds a text to 100 bytes, failing when it does not fit.
pub fn required100(s: &str) -> (r: Result<heapless::String<100>, CapacityError>)
    ensures
        r is Ok <==> byte_len(s@) <= 100,
        r is Ok ==> text100(r->Ok_0) == s@,
{
    match bounded100(s) {
        Ok(b) => Ok(b),
        Err(()) => Err(CapacityError),
    }
}

impl Application {
    /// Builds a description from plain texts; fails, without truncating,
    /// when any text exceeds its capacity.
    pub fn try_new(
        service_name: &str,
        service_version: Option<&str>,
        env: Option<&str>,
        language_name: &str,
        language_version: &str,
        tracer_version: &str,
        runtime_name: Option<&str>,
        runtime_version: Option<&str>,
        runtime_patches: Option<&str>,
    ) -> (r: Result<Application, CapacityError>)
        ensures
            r is Ok <==> {
                &&& byte_len(service_name@) <= 20
                &&& optional_fits(service_version, 20)
                &&& optional_fits(env, 30)
                &&& byte_len(language_name@) <= 30
                &&& byte_len(language_version@) <= 30
                &&& byte_len(tracer_version@) <= 30
                &&& optional_fits(runtime_name, 30)
                &&& optional_fits(runtime_version, 30)
                &&& optional_fits(runtime_patches, 30)
            },
            r is Ok ==> {
                let a = r->Ok_0;
                &&& text20(a.service_name) == service_name@
                &&& optional_text20(a.service_version) == optional_view(service_version)
                &&& optional_text30(a.env) == optional_view(env)
                &&& text30(a.language_name) == language_name@
                &&& text30(a.language_version) == language_version@
                &&& text30(a.tracer_version) == tracer_version@
                &&& optional_text30(a.runtime_name) == optional_view(runtime_name)
                &&& optional_text30(a.runtime_version) == optional_view(runtime_version)
                &&& optional_text30(a.runtime_patches) == optional_view(runtime_patches)
            },
    {
        Ok(Application {
            service_name: required20(service_name)?,
            service_version: optional20(service_version)?,
            env: optional30(env)?,
            language_name: required30(language_name)?,
            language_version: required30(language_version)?,
            tracer_version: required30(tracer_version)?,
            runtime_name: optional30(runtime_name)?,
            runtime_version: optional30(runtime_version)?,
            runtime_patches: optional30(runtime_patches)?,
        })
    }
}

impl Host {
    /// Builds a description from plain texts; fails, without truncating,
    /// when any text exceeds its capacity.
    pub fn try_new(
        hostname: &str,
        container_id: Option<&str>,
        os: Option<&str>,
        os_version: Option<&str>,
        kernel_name: Option<&str>,
        kernel_release: Option<&str>,
        kernel_version: Option<&str>,
    ) -> (r: Result<Host, CapacityError>)
        ensures
            r is Ok <==> {
                &&& byte_len(hostname@) <= 100
                &&& optional_fits(container_id, 100)
                &&& optional_fits(os, 100)
                &&& optional_fits(os_version, 100)
                &&& optional_fits(kernel_name, 100)
                &&& optional_fits(kernel_release, 30)
                &&& optional_fits(kernel_version, 30)
            },
            r is Ok ==> {
                let h = r->Ok_0;
                &&& text100(h.hostname) == hostname@
                &&& optional_text100(h.container_id) == optional_view(container_id)
                &&& optional_text100(h.os) == optional_view(os)
                &&& optional_text100(h.os_version) == optional_view(os_version)
                &&& optional_text100(h.kernel_name) == optional_view(kernel_name)
                &&& optional_text30(h.kernel_release) == optional_view(kernel_release)
                &&& optional_text30(h.kernel_version) == optional_view(kernel_version)
            },
    {
        Ok(Host {
            hostname: required100(hostname)?,
            container_id: optional100(container_id)?,
            os: optional100(os)?,
            os_version: optional100(os_version)?,
            kernel_name: optional100(kernel_name)?,
            kernel_release: optional30(kernel_release)?,
            kernel_version: optional30(kernel_version)?,
        })
    }
}

impl<'a> Telemetry<'a> {
    /// Assembles an event; it cannot fail, since every text it holds was
    /// bounded when it was built.
    pub fn new(
        api_version: ApiVersion,
        tracer_time: u64,
        seq_id: u64,
        runtime_id: &'a str,
        application: &'a Application,
        host: &'a Host,
        payload: &'a Payload,
    ) -> (r: Telemetry<'a>)
        ensures
            r.api_version == api_version,
            r.tracer_time == tracer_time,
            r.seq_id == seq_id,
            r.runtime_id == runtime_id,
            r.application == application,
            r.host == host,
            r.payload == payload,
    {
        Telemetry { api_version, tracer_time, runtime_id, seq_id, application, host, payload }
    }
}

/// Entries built from the same name, value and origin are equal, whatever
/// order they were built in.
pub proof fn lemma_configuration_equal(a: Configuration, b: Configuration)
    requires
        text30(a.name) == text30(b.name),
        text30(a.value) == text30(b.value),
        a.origin == b.origin,
    ensures
        a.eq_spec(&b),
        b.eq_spec(&a),
{
}

} // verus!

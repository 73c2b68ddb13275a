use vstd::prelude::*;
use vstd::string::*;

use crate::bounded::{str100, str20, str30, text100, text20, text30};
use crate::json::{
    array_text, decimal, json_array, json_object, json_string, member, member_text,
    number_literal, object_text, string_literal, texts,
};
use crate::telemetry::{
    api_version_text, optional_text100, optional_text20, optional_text30, optional_view,
    origin_text, ApiVersion, AppStarted, Application, Configuration, Host, Payload, Telemetry,
};

verus! {

/// The members written for a sequence of `(key, value)` fields.
pub open spec fn fields_text(fs: Seq<(Seq<char>, Seq<char>)>) -> Seq<Seq<char>> {
    fs.map_values(|f: (Seq<char>, Seq<char>)| member(f.0, f.1))
}

/// A JSON object holding the given fields, in order.
pub open spec fn object(fs: Seq<(Seq<char>, Seq<char>)>) -> Seq<char> {
    json_object(fields_text(fs))
}

/// A field whose value is the string `value`.
pub open spec fn text_field(key: Seq<char>, value: Seq<char>) -> Seq<(Seq<char>, Seq<char>)> {
    seq![(key, json_string(value))]
}

/// A field whose value is an optional string: absent values write no field.
pub open spec fn optional_field(key: Seq<char>, o: Option<Seq<char>>) -> Seq<(Seq<char>, Seq<char>)> {
    match o {
        Some(s) => text_field(key, s),
        None => Seq::empty(),
    }
}

/// Fields of an application description, in declaration order.
pub open spec fn application_fields(a: Application) -> Seq<(Seq<char>, Seq<char>)> {
    text_field("service_name"@, text20(a.service_name))
        + optional_field("service_version"@, optional_text20(a.service_version))
        + optional_field("env"@, optional_text30(a.env))
        + text_field("language_name"@, text30(a.language_name))
        + text_field("language_version"@, text30(a.language_version))
        + text_field("tracer_version"@, text30(a.tracer_version))
        + optional_field("runtime_name"@, optional_text30(a.runtime_name))
        + optional_field("runtime_version"@, optional_text30(a.runtime_version))
        + optional_field("runtime_patches"@, optional_text30(a.runtime_patches))
}

/// Fields of a host description, in declaration order.
pub open spec fn host_fields(h: Host) -> Seq<(Seq<char>, Seq<char>)> {
    text_field("hostname"@, text100(h.hostname))
        + optional_field("container_id"@, optional_text100(h.container_id))
        + optional_field("os"@, optional_text100(h.os))
        + optional_field("os_version"@, optional_text100(h.os_version))
        + optional_field("kernel_name"@, optional_text100(h.kernel_name))
        + optional_field("kernel_release"@, optional_text30(h.kernel_release))
        + optional_field("kernel_version"@, optional_text30(h.kernel_version))
}

/// JSON text of one configuration entry.
pub open spec fn configuration_json(c: Configuration) -> Seq<char> {
    object(
        text_field("name"@, text30(c.name)) + text_field("value"@, text30(c.value)) + text_field(
            "origin"@,
            origin_text(c.origin),
        ),
    )
}

/// JSON array of configuration entries, in order.
pub open spec fn configuration_list_json(cs: Seq<Configuration>) -> Seq<char> {
    json_array(cs.map_values(|c: Configuration| configuration_json(c)))
}

/// The `request_type` text of a payload: its variant name in kebab case.
pub open spec fn request_type_text(p: Payload) -> Seq<char> {
    match p {
        Payload::AppStarted(_) => "app-started"@,
        Payload::AppHeartbeat => "app-heartbeat"@,
    }
}

/// Payload fields of a start-up event with the given entries: the
/// discriminator, then the nested payload object.
pub open spec fn started_fields(cs: Seq<Configuration>) -> Seq<(Seq<char>, Seq<char>)> {
    seq![
        ("request_type"@, json_string("app-started"@)),
        ("payload"@, object(seq![("configuration"@, configuration_list_json(cs))])),
    ]
}

/// Payload fields of a heartbeat: the discriminator alone.
pub open spec fn heartbeat_fields() -> Seq<(Seq<char>, Seq<char>)> {
    seq![("request_type"@, json_string("app-heartbeat"@))]
}

/// The flattened payload fields of an event.
pub open spec fn payload_fields(p: Payload) -> Seq<(Seq<char>, Seq<char>)> {
    match p {
        Payload::AppStarted(a) => started_fields(a@),
        Payload::AppHeartbeat => heartbeat_fields(),
    }
}

/// The protocol fields of an event, with the nested application and host
/// objects.
pub open spec fn header_fields(
    api_version: ApiVersion,
    tracer_time: u64,
    runtime_id: Seq<char>,
    seq_id: u64,
    application: Application,
    host: Host,
) -> Seq<(Seq<char>, Seq<char>)> {
    seq![
        ("api_version"@, json_string(api_version_text(api_version))),
        ("tracer_time"@, decimal(tracer_time as nat)),
        ("runtime_id"@, json_string(runtime_id)),
        ("seq_id"@, decimal(seq_id as nat)),
        ("application"@, object(application_fields(application))),
        ("host"@, object(host_fields(host))),
    ]
}

/// Top-level fields of an event.
pub open spec fn telemetry_fields<'a>(t: Telemetry<'a>) -> Seq<(Seq<char>, Seq<char>)> {
    header_fields(
        t.api_version,
        t.tracer_time,
        t.runtime_id@,
        t.seq_id,
        *t.application,
        *t.host,
    ) + payload_fields(*t.payload)
}

/// The JSON text of an event.
pub open spec fn telemetry_json<'a>(t: Telemetry<'a>) -> Seq<char> {
    object(telemetry_fields(t))
}

/// Writing two field lists one after the other writes their members in turn.
pub broadcast proof fn lemma_fields_text_concat(
    a: Seq<(Seq<char>, Seq<char>)>,
    b: Seq<(Seq<char>, Seq<char>)>,
)
    ensures
        #[trigger] fields_text(a + b) == fields_text(a) + fields_text(b),
{
    assert(fields_text(a + b) =~= fields_text(a) + fields_text(b));
}

fn push_field(members: &mut Vec<String>, key: &str, value: String)
    ensures
        texts(final(members)@) == texts(old(members)@) + fields_text(seq![(key@, value@)]),
{
    let m = member_text(key, value);
    members.push(m);
    assert(texts(members@) =~= texts(old(members)@) + fields_text(seq![(key@, value@)]));
}

fn push_text_field(members: &mut Vec<String>, key: &str, value: &str)
    ensures
        texts(final(members)@) == texts(old(members)@) + fields_text(text_field(key@, value@)),
{
    push_field(members, key, string_literal(value));
}

fn push_optional_field(members: &mut Vec<String>, key: &str, o: Option<&str>)
    ensures
        texts(final(members)@) == texts(old(members)@) + fields_text(
            optional_field(key@, optional_view(o)),
        ),
{
    match o {
        Some(s) => push_text_field(members, key, s),
        None => {
            assert(texts(members@) =~= texts(members@) + fields_text(
                optional_field(key@, optional_view(o)),
            ));
        },
    }
}

fn optional_str20(o: &Option<heapless::String<20>>) -> (r: Option<&str>)
    ensures
        optional_view(r) == optional_text20(*o),
{
    match o {
        Some(t) => Some(str20(t)),
        None => None,
    }
}

fn optional_str30(o: &Option<heapless::String<30>>) -> (r: Option<&str>)
    ensures
        optional_view(r) == optional_text30(*o),
{
    match o {
        Some(t) => Some(str30(t)),
        None => None,
    }
}

fn optional_str100(o: &Option<heapless::String<100>>) -> (r: Option<&str>)
    ensures
        optional_view(r) == optional_text100(*o),
{
    match o {
        Some(t) => Some(str100(t)),
        None => None,
    }
}

/// Writes an application description as a JSON object.
pub fn application_text(a: &Application) -> (r: String)
    ensures
        r@ == object(application_fields(*a)),
{
    broadcast use lemma_fields_text_concat;

    let mut m: Vec<String> = Vec::new();
    push_text_field(&mut m, "service_name", str20(&a.service_name));
    push_optional_field(&mut m, "service_version", optional_str20(&a.service_version));
    push_optional_field(&mut m, "env", optional_str30(&a.env));
    push_text_field(&mut m, "language_name", str30(&a.language_name));
    push_text_field(&mut m, "language_version", str30(&a.language_version));
    push_text_field(&mut m, "tracer_version", str30(&a.tracer_version));
    push_optional_field(&mut m, "runtime_name", optional_str30(&a.runtime_name));
    push_optional_field(&mut m, "runtime_version", optional_str30(&a.runtime_version));
    push_optional_field(&mut m, "runtime_patches", optional_str30(&a.runtime_patches));
    assert(texts(m@) =~= fields_text(application_fields(*a)));
    object_text(&m)
}

/// Writes a host description as a JSON object.
pub fn host_text(h: &Host) -> (r: String)
    ensures
        r@ == object(host_fields(*h)),
{
    broadcast use lemma_fields_text_concat;

    let mut m: Vec<String> = Vec::new();
    push_text_field(&mut m, "hostname", str100(&h.hostname));
    push_optional_field(&mut m, "container_id", optional_str100(&h.container_id));
    push_optional_field(&mut m, "os", optional_str100(&h.os));
    push_optional_field(&mut m, "os_version", optional_str100(&h.os_version));
    push_optional_field(&mut m, "kernel_name", optional_str100(&h.kernel_name));
    push_optional_field(&mut m, "kernel_release", optional_str30(&h.kernel_release));
    push_optional_field(&mut m, "kernel_version", optional_str30(&h.kernel_version));
    assert(texts(m@) =~= fields_text(host_fields(*h)));
    object_text(&m)
}

/// Writes one configuration entry as a JSON object.
pub fn configuration_text(c: &Configuration) -> (r: String)
    ensures
        r@ == configuration_json(*c),
{
    broadcast use lemma_fields_text_concat;

    let mut m: Vec<String> = Vec::new();
    push_text_field(&mut m, "name", str30(&c.name));
    push_text_field(&mut m, "value", str30(&c.value));
    push_text_field(&mut m, "origin", c.origin.to_str());
    assert(texts(m@) =~= fields_text(
        text_field("name"@, text30(c.name)) + text_field("value"@, text30(c.value)) + text_field(
            "origin"@,
            origin_text(c.origin),
        ),
    ));
    object_text(&m)
}

/// Writes configuration entries as a JSON array, in order.
pub fn configuration_list_text(cs: &[Configuration]) -> (r: String)
    ensures
        r@ == configuration_list_json(cs@),
{
    let mut items: Vec<String> = Vec::new();
    let mut i: usize = 0;
    while i < cs.len()
        invariant
            i <= cs@.len(),
            texts(items@) == cs@.take(i as int).map_values(|c: Configuration| configuration_json(c)),
        decreases cs@.len() - i,
    {
        let t = configuration_text(&cs[i]);
        let ghost prev = texts(items@);
        let ghost tv = t@;
        items.push(t);
        assert(texts(items@) =~= prev.push(tv));
        assert(cs@.take(i + 1) =~= cs@.take(i as int).push(cs@[i as int]));
        assert(texts(items@) =~= cs@.take(i + 1).map_values(
            |c: Configuration| configuration_json(c),
        ));
        i = i + 1;
    }
    assert(cs@.take(cs@.len() as int) == cs@);
    array_text(&items)
}

fn push_payload_fields(members: &mut Vec<String>, p: &Payload)
    ensures
        texts(final(members)@) == texts(old(members)@) + fields_text(payload_fields(*p)),
{
    broadcast use lemma_fields_text_concat;

    match p {
        Payload::AppStarted(a) => {
            let ghost before = texts(members@);
            push_text_field(members, "request_type", "app-started");
            let mut inner: Vec<String> = Vec::new();
            push_field(&mut inner, "configuration", configuration_list_text(a.configuration()));
            push_field(members, "payload", object_text(&inner));
            assert(texts(members@) =~= before + fields_text(payload_fields(*p)));
        },
        Payload::AppHeartbeat => {
            push_text_field(members, "request_type", "app-heartbeat");
        },
    }
}

impl<'a> Telemetry<'a> {
    /// Writes the event as one JSON object: the protocol fields, the nested
    /// application and host objects, then the flattened payload fields.
    pub fn serialize(&self) -> (r: String)
        ensures
            r@ == telemetry_json(*self),
    {
        broadcast use lemma_fields_text_concat;

        let mut m: Vec<String> = Vec::new();
        push_text_field(&mut m, "api_version", self.api_version.to_str());
        push_field(&mut m, "tracer_time", number_literal(self.tracer_time));
        push_text_field(&mut m, "runtime_id", self.runtime_id);
        push_field(&mut m, "seq_id", number_literal(self.seq_id));
        push_field(&mut m, "application", application_text(self.application));
        push_field(&mut m, "host", host_text(self.host));
        push_payload_fields(&mut m, self.payload);
        assert(texts(m@) =~= fields_text(telemetry_fields(*self)));
        object_text(&m)
    }
}

/// A heartbeat event writes no `payload` field: its only payload field is
/// the discriminator `request_type`, with the text `app-heartbeat`.
pub proof fn lemma_heartbeat_omits_payload<'a>(t: Telemetry<'a>)
    requires
        *t.payload is AppHeartbeat,
    ensures
        forall|i: int| 0 <= i < telemetry_fields(t).len() ==> telemetry_fields(t)[i].0 != "payload"@,
        telemetry_fields(t).last() == ("request_type"@, json_string("app-heartbeat"@)),
{
    let fs = telemetry_fields(t);
    let h = header_fields(
        t.api_version,
        t.tracer_time,
        t.runtime_id@,
        t.seq_id,
        *t.application,
        *t.host,
    );
    assert(fs == h + heartbeat_fields());
    reveal_strlit("payload");
    reveal_strlit("api_version");
    reveal_strlit("tracer_time");
    reveal_strlit("runtime_id");
    reveal_strlit("seq_id");
    reveal_strlit("application");
    reveal_strlit("host");
    reveal_strlit("request_type");
    assert forall|i: int| 0 <= i < fs.len() implies fs[i].0 != "payload"@ by {
        if i < 6 {
            assert(fs[i] == h[i]);
        } else {
            assert(fs[i] == heartbeat_fields()[0]);
        }
        assert(fs[i].0.len() != "payload"@.len());
    }
}

/// The discriminator comes first among the payload fields and carries the
/// payload's variant name in kebab case.
pub proof fn lemma_request_type(p: Payload)
    ensures
        payload_fields(p)[0] == ("request_type"@, json_string(request_type_text(p))),
        p is AppStarted ==> request_type_text(p) == "app-started"@,
        p is AppHeartbeat ==> request_type_text(p) == "app-heartbeat"@,
{
}

/// A start-up event writes `request_type` as `app-started`, followed by a
/// `payload` object whose `configuration` array holds exactly the event's
/// entries, in insertion order.
pub proof fn lemma_app_started_lists_configuration<'a>(t: Telemetry<'a>, a: AppStarted)
    requires
        *t.payload == Payload::AppStarted(a),
    ensures
        telemetry_fields(t).len() == 8,
        telemetry_fields(t)[6] == ("request_type"@, json_string("app-started"@)),
        telemetry_fields(t)[7] == ("payload"@, object(
            seq![
                ("configuration"@, json_array(
                    Seq::new(a@.len(), |i: int| configuration_json(a@[i])),
                )),
            ],
        )),
{
    assert(a@.map_values(|c: Configuration| configuration_json(c)) =~= Seq::new(
        a@.len(),
        |i: int| configuration_json(a@[i]),
    ));
}

/// Every configuration entry writes its origin as the variant's own name.
pub proof fn lemma_origin_written_as_declared(c: Configuration)
    ensures
        configuration_json(c) == object(
            seq![
                ("name"@, json_string(text30(c.name))),
                ("value"@, json_string(text30(c.value))),
                ("origin"@, json_string(origin_text(c.origin))),
            ],
        ),
{
    assert(text_field("name"@, text30(c.name)) + text_field("value"@, text30(c.value)) + text_field(
        "origin"@,
        origin_text(c.origin),
    ) =~= seq![
        ("name"@, json_string(text30(c.name))),
        ("value"@, json_string(text30(c.value))),
        ("origin"@, json_string(origin_text(c.origin))),
    ]);
}

} // verus!

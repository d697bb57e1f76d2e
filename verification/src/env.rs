//! The relay's configuration, read from the process environment.
//!
//! The caller hands over the environment as `(name, value)` pairs (the
//! variables whose name and value are valid Unicode); a variable is set when
//! some pair carries its name, and the first such pair gives its value.
use vstd::prelude::*;
use vstd::utf8::encode_utf8;
use std::collections::HashMap;
use rdkafka::config::ClientConfig;
use crate::decimal::{parse_unsigned, parse_usize};
use crate::kafka::client::{
    kafka_client_settings, new_client_config, no_settings, pairs_view, set_client_config,
};

verus! {

/// The value of the first pair named `name`.
pub open spec fn env_lookup(env: Seq<(Seq<char>, Seq<char>)>, name: Seq<char>) -> Option<Seq<char>>
    decreases env.len(),
{
    if env.len() == 0 {
        None
    } else if env[0].0 == name {
        Some(env[0].1)
    } else {
        env_lookup(env.drop_first(), name)
    }
}

/// Why the configuration could not be read.
pub enum ConfigError {
    /// A required variable is not set (its name).
    MissingVar(String),
    /// A variable does not hold a number (its name).
    InvalidNumber(String),
    /// The URL map is not a JSON5 object of strings (the text).
    InvalidUrlMap(String),
    /// The request key names no URL of the map (the key).
    UnknownRequestKey(String),
}

/// [`ConfigError`] as text.
pub enum ConfigFault {
    MissingVar(Seq<char>),
    InvalidNumber(Seq<char>),
    InvalidUrlMap(Seq<char>),
    UnknownRequestKey(Seq<char>),
}

impl View for ConfigError {
    type V = ConfigFault;

    open spec fn view(&self) -> ConfigFault {
        match self {
            ConfigError::MissingVar(s) => ConfigFault::MissingVar(s@),
            ConfigError::InvalidNumber(s) => ConfigFault::InvalidNumber(s@),
            ConfigError::InvalidUrlMap(s) => ConfigFault::InvalidUrlMap(s@),
            ConfigError::UnknownRequestKey(s) => ConfigFault::UnknownRequestKey(s@),
        }
    }
}

impl ConfigError {
    /// The text that the configuration loader panics with, as `expect` gets it.
    pub fn message(&self) -> (res: &String)
        ensures
            match self@ {
                ConfigFault::MissingVar(s) => res@ == s,
                ConfigFault::InvalidNumber(s) => res@ == s,
                ConfigFault::InvalidUrlMap(s) => res@ == s,
                ConfigFault::UnknownRequestKey(s) => res@ == s,
            },
    {
        match self {
            ConfigError::MissingVar(s) => s,
            ConfigError::InvalidNumber(s) => s,
            ConfigError::InvalidUrlMap(s) => s,
            ConfigError::UnknownRequestKey(s) => s,
        }
    }
}

/// A required variable: its value, or the error that names it.
pub open spec fn spec_required(env: Seq<(Seq<char>, Seq<char>)>, name: Seq<char>) -> Result<Seq<char>, ConfigFault> {
    match env_lookup(env, name) {
        Some(v) => Ok(v),
        None => Err(ConfigFault::MissingVar(name)),
    }
}

/// Where the relay sends its records.
pub struct KafkaEnvConfig {
    pub topic: String,
    pub queue_size: usize,
}

/// The WebSocket subscription: the URL to connect to and the request to send.
pub struct RequestEnvConfig {
    pub url: String,
    pub body: String,
}

/// `KAFKA_TOPIC` and `KAFKA_QUEUE_SIZE` (a `usize`), in that order.
pub open spec fn spec_kafka_env_config(env: Seq<(Seq<char>, Seq<char>)>) -> Result<(Seq<char>, nat), ConfigFault> {
    match spec_required(env, "KAFKA_TOPIC"@) {
        Err(e) => Err(e),
        Ok(topic) => match spec_required(env, "KAFKA_QUEUE_SIZE"@) {
            Err(e) => Err(e),
            Ok(text) => match parse_unsigned(encode_utf8(text), usize::MAX as nat) {
                Some(n) => Ok((topic, n)),
                None => Err(ConfigFault::InvalidNumber("KAFKA_QUEUE_SIZE"@)),
            },
        },
    }
}

/// What a JSON5 text gives when read as an object whose values are all strings
/// (a later duplicate key replacing an earlier one), or `None` when it is not one.
pub uninterp spec fn json5_string_map(text: Seq<char>) -> Option<Map<Seq<char>, Seq<char>>>;

/// The pairs hold exactly the entries of the map.
pub open spec fn pairs_match_map(pairs: Seq<(Seq<char>, Seq<char>)>, m: Map<Seq<char>, Seq<char>>) -> bool {
    &&& forall|i: int| 0 <= i < pairs.len() ==> m.contains_key(#[trigger] pairs[i].0) && m[pairs[i].0] == pairs[i].1
    &&& forall|k: Seq<char>| #[trigger] m.contains_key(k) ==> exists|i: int| 0 <= i < pairs.len() && pairs[i].0 == k
}

/// Reads a JSON5 object of strings, handing its entries out as pairs.
///
/// Calls `json5::from_str` into a `HashMap<String, String>` and hands out the
/// entries of the map. The map is named: it depends on the text alone. The
/// order of the pairs is the map's walk order, which is left unsaid.
#[verifier::external_body]
fn parse_string_map(text: &str) -> (res: Option<Vec<(String, String)>>)
    ensures
        res is Some <==> json5_string_map(text@) is Some,
        res matches Some(pairs) ==> pairs_match_map(pairs_view(pairs@), json5_string_map(text@).unwrap()),
{
    match json5::from_str::<HashMap<String, String>>(text) {
        Ok(map) => Some(map.into_iter().collect()),
        Err(_) => None,
    }
}

/// `REQUEST_BODY`, `REQUEST_URLS` and `REQUEST_KEY`, in that order; the URL is
/// the entry under the key in the JSON5 map of URLs. Result: `(url, body)`.
pub open spec fn spec_request_env_config(env: Seq<(Seq<char>, Seq<char>)>) -> Result<(Seq<char>, Seq<char>), ConfigFault> {
    match spec_required(env, "REQUEST_BODY"@) {
        Err(e) => Err(e),
        Ok(body) => match spec_required(env, "REQUEST_URLS"@) {
            Err(e) => Err(e),
            Ok(urls) => match spec_required(env, "REQUEST_KEY"@) {
                Err(e) => Err(e),
                Ok(key) => match json5_string_map(urls) {
                    None => Err(ConfigFault::InvalidUrlMap(urls)),
                    Some(m) => if m.contains_key(key) {
                        Ok((m[key], body))
                    } else {
                        Err(ConfigFault::UnknownRequestKey(key))
                    },
                },
            },
        },
    }
}

/// The Kafka settings that must be set: (setting, variable).
pub open spec fn required_kafka_sources() -> Seq<(Seq<char>, Seq<char>)> {
    seq![
        ("bootstrap.servers"@, "KAFKA_BOOTSTRAP_SERVERS"@),
        ("statistics.interval.ms"@, "KAFKA_STATISTICS_INTERVAL_MS"@),
    ]
}

/// The Kafka settings that are copied when set: (setting, variable).
pub open spec fn optional_kafka_sources() -> Seq<(Seq<char>, Seq<char>)> {
    seq![
        ("security.protocol"@, "KAFKA_SECURITY_PROTOCOL"@),
        ("sasl.mechanisms"@, "KAFKA_SASL_MECHANISMS"@),
        ("sasl.username"@, "KAFKA_SASL_USERNAME"@),
        ("sasl.password"@, "KAFKA_SASL_PASSWORD"@),
        ("broker.address.family"@, "KAFKA_BROKER_ADDRESS_FAMILY"@),
    ]
}

/// Copies each required setting in order; the first unset variable is the error.
pub open spec fn apply_required(
    env: Seq<(Seq<char>, Seq<char>)>,
    sources: Seq<(Seq<char>, Seq<char>)>,
    settings: Map<Seq<char>, Seq<char>>,
) -> Result<Map<Seq<char>, Seq<char>>, ConfigFault>
    decreases sources.len(),
{
    if sources.len() == 0 {
        Ok(settings)
    } else {
        match env_lookup(env, sources[0].1) {
            None => Err(ConfigFault::MissingVar(sources[0].1)),
            Some(v) => apply_required(env, sources.drop_first(), settings.insert(sources[0].0, v)),
        }
    }
}

/// Copies each optional setting whose variable is set.
pub open spec fn apply_optional(
    env: Seq<(Seq<char>, Seq<char>)>,
    sources: Seq<(Seq<char>, Seq<char>)>,
    settings: Map<Seq<char>, Seq<char>>,
) -> Map<Seq<char>, Seq<char>>
    decreases sources.len(),
{
    if sources.len() == 0 {
        settings
    } else {
        let next = match env_lookup(env, sources[0].1) {
            Some(v) => settings.insert(sources[0].0, v),
            None => settings,
        };
        apply_optional(env, sources.drop_first(), next)
    }
}

/// The Kafka client settings: the required ones, then the optional ones that are set.
pub open spec fn spec_kafka_settings(env: Seq<(Seq<char>, Seq<char>)>) -> Result<Map<Seq<char>, Seq<char>>, ConfigFault> {
    match apply_required(env, required_kafka_sources(), no_settings()) {
        Err(e) => Err(e),
        Ok(m) => Ok(apply_optional(env, optional_kafka_sources(), m)),
    }
}


/// The topic and queue size come from `KAFKA_TOPIC` and `KAFKA_QUEUE_SIZE`
/// (read as a `usize`), and the request from `REQUEST_BODY` and the entry of
/// the `REQUEST_URLS` map under `REQUEST_KEY`; each is read exactly when those
/// variables are set and well formed.
pub proof fn lemma_env_configs_follow_variables(env: Seq<(Seq<char>, Seq<char>)>)
    ensures
        spec_kafka_env_config(env) is Ok <==> (env_lookup(env, "KAFKA_TOPIC"@) is Some && match env_lookup(
            env,
            "KAFKA_QUEUE_SIZE"@,
        ) {
            Some(t) => parse_unsigned(encode_utf8(t), usize::MAX as nat) is Some,
            None => false,
        }),
        spec_kafka_env_config(env) matches Ok((topic, size)) ==> {
            &&& env_lookup(env, "KAFKA_TOPIC"@) == Some(topic)
            &&& match env_lookup(env, "KAFKA_QUEUE_SIZE"@) {
                Some(t) => parse_unsigned(encode_utf8(t), usize::MAX as nat) == Some(size),
                None => false,
            }
        },
        spec_request_env_config(env) is Ok <==> (env_lookup(env, "REQUEST_BODY"@) is Some && match (
            env_lookup(env, "REQUEST_KEY"@),
            env_lookup(env, "REQUEST_URLS"@),
        ) {
            (Some(k), Some(u)) => match json5_string_map(u) {
                Some(m) => m.contains_key(k),
                None => false,
            },
            _ => false,
        }),
        spec_request_env_config(env) matches Ok((url, body)) ==> {
            &&& env_lookup(env, "REQUEST_BODY"@) == Some(body)
            &&& match (env_lookup(env, "REQUEST_KEY"@), env_lookup(env, "REQUEST_URLS"@)) {
                (Some(k), Some(u)) => match json5_string_map(u) {
                    Some(m) => m.contains_key(k) && m[k] == url,
                    None => false,
                },
                _ => false,
            }
        },
{
}

/// The map has `setting` exactly when `var` is set, with that variable's value.
pub open spec fn setting_follows(
    m: Map<Seq<char>, Seq<char>>,
    setting: Seq<char>,
    env: Seq<(Seq<char>, Seq<char>)>,
    var: Seq<char>,
) -> bool {
    &&& m.contains_key(setting) == (env_lookup(env, var) is Some)
    &&& m.contains_key(setting) ==> Some(m[setting]) == env_lookup(env, var)
}

proof fn lemma_apply_optional_unnamed(
    env: Seq<(Seq<char>, Seq<char>)>,
    sources: Seq<(Seq<char>, Seq<char>)>,
    m: Map<Seq<char>, Seq<char>>,
    k: Seq<char>,
)
    requires
        forall|i: int| 0 <= i < sources.len() ==> sources[i].0 != k,
    ensures
        apply_optional(env, sources, m).contains_key(k) == m.contains_key(k),
        m.contains_key(k) ==> apply_optional(env, sources, m)[k] == m[k],
    decreases sources.len(),
{
    if sources.len() > 0 {
        let next = match env_lookup(env, sources[0].1) {
            Some(v) => m.insert(sources[0].0, v),
            None => m,
        };
        assert(sources[0].0 != k);
        assert forall|i: int| 0 <= i < sources.drop_first().len() implies sources.drop_first()[i].0 != k by {
            assert(sources.drop_first()[i] == sources[i + 1]);
        }
        lemma_apply_optional_unnamed(env, sources.drop_first(), next, k);
    }
}

proof fn lemma_apply_optional_named(
    env: Seq<(Seq<char>, Seq<char>)>,
    sources: Seq<(Seq<char>, Seq<char>)>,
    m: Map<Seq<char>, Seq<char>>,
    k: Seq<char>,
    j: int,
)
    requires
        0 <= j < sources.len(),
        sources[j].0 == k,
        forall|i: int| 0 <= i < sources.len() && i != j ==> sources[i].0 != k,
        !m.contains_key(k),
    ensures
        setting_follows(apply_optional(env, sources, m), k, env, sources[j].1),
    decreases sources.len(),
{
    let next = match env_lookup(env, sources[0].1) {
        Some(v) => m.insert(sources[0].0, v),
        None => m,
    };
    let rest = sources.drop_first();
    assert(apply_optional(env, sources, m) == apply_optional(env, rest, next));
    if j == 0 {
        assert forall|i: int| 0 <= i < rest.len() implies rest[i].0 != k by {
            assert(rest[i] == sources[i + 1]);
        }
        lemma_apply_optional_unnamed(env, rest, next, k);
    } else {
        assert(sources[0].0 != k);
        assert(rest[j - 1] == sources[j]);
        assert forall|i: int| 0 <= i < rest.len() && i != j - 1 implies rest[i].0 != k by {
            assert(rest[i] == sources[i + 1]);
        }
        lemma_apply_optional_named(env, rest, next, k, j - 1);
    }
}

proof fn lemma_apply_optional_keys(
    env: Seq<(Seq<char>, Seq<char>)>,
    sources: Seq<(Seq<char>, Seq<char>)>,
    m: Map<Seq<char>, Seq<char>>,
    k: Seq<char>,
)
    ensures
        apply_optional(env, sources, m).contains_key(k) ==> m.contains_key(k) || exists|i: int|
            0 <= i < sources.len() && sources[i].0 == k,
    decreases sources.len(),
{
    if sources.len() > 0 {
        let next = match env_lookup(env, sources[0].1) {
            Some(v) => m.insert(sources[0].0, v),
            None => m,
        };
        lemma_apply_optional_keys(env, sources.drop_first(), next, k);
        if apply_optional(env, sources, m).contains_key(k) && !m.contains_key(k) && sources[0].0 != k {
            let i = choose|i: int| 0 <= i < sources.drop_first().len() && sources.drop_first()[i].0 == k;
            assert(sources[i + 1].0 == k);
        }
    }
}

/// The Kafka client settings follow their variables: the configuration can be
/// built exactly when `KAFKA_BOOTSTRAP_SERVERS` and `KAFKA_STATISTICS_INTERVAL_MS`
/// are set; then `bootstrap.servers` and `statistics.interval.ms` hold their
/// values, and each optional setting (`security.protocol`, `sasl.mechanisms`,
/// `sasl.username`, `sasl.password`, `broker.address.family`) is present exactly
/// when its own variable (`KAFKA_SECURITY_PROTOCOL`, `KAFKA_SASL_MECHANISMS`,
/// `KAFKA_SASL_USERNAME`, `KAFKA_SASL_PASSWORD`, `KAFKA_BROKER_ADDRESS_FAMILY`)
/// is set, with its value; no other setting is present.
pub proof fn lemma_kafka_settings_follow_variables(env: Seq<(Seq<char>, Seq<char>)>)
    ensures
        spec_kafka_settings(env) is Ok <==> (env_lookup(env, "KAFKA_BOOTSTRAP_SERVERS"@) is Some
            && env_lookup(env, "KAFKA_STATISTICS_INTERVAL_MS"@) is Some),
        env_lookup(env, "KAFKA_BOOTSTRAP_SERVERS"@) is None ==> spec_kafka_settings(env) == Err::<
            Map<Seq<char>, Seq<char>>,
            ConfigFault,
        >(ConfigFault::MissingVar("KAFKA_BOOTSTRAP_SERVERS"@)),
        env_lookup(env, "KAFKA_BOOTSTRAP_SERVERS"@) is Some && env_lookup(env, "KAFKA_STATISTICS_INTERVAL_MS"@) is None
            ==> spec_kafka_settings(env) == Err::<Map<Seq<char>, Seq<char>>, ConfigFault>(
            ConfigFault::MissingVar("KAFKA_STATISTICS_INTERVAL_MS"@),
        ),
        spec_kafka_settings(env) matches Ok(m) ==> {
            &&& setting_follows(m, "bootstrap.servers"@, env, "KAFKA_BOOTSTRAP_SERVERS"@)
            &&& setting_follows(m, "statistics.interval.ms"@, env, "KAFKA_STATISTICS_INTERVAL_MS"@)
            &&& setting_follows(m, "security.protocol"@, env, "KAFKA_SECURITY_PROTOCOL"@)
            &&& setting_follows(m, "sasl.mechanisms"@, env, "KAFKA_SASL_MECHANISMS"@)
            &&& setting_follows(m, "sasl.username"@, env, "KAFKA_SASL_USERNAME"@)
            &&& setting_follows(m, "sasl.password"@, env, "KAFKA_SASL_PASSWORD"@)
            &&& setting_follows(m, "broker.address.family"@, env, "KAFKA_BROKER_ADDRESS_FAMILY"@)
            &&& forall|k: Seq<char>| #[trigger] m.contains_key(k) ==> k == "bootstrap.servers"@ || k
                == "statistics.interval.ms"@ || k == "security.protocol"@ || k == "sasl.mechanisms"@
                || k == "sasl.username"@ || k == "sasl.password"@ || k == "broker.address.family"@
        },
{
    reveal_strlit("bootstrap.servers");
    reveal_strlit("statistics.interval.ms");
    reveal_strlit("security.protocol");
    reveal_strlit("sasl.mechanisms");
    reveal_strlit("sasl.username");
    reveal_strlit("sasl.password");
    reveal_strlit("broker.address.family");
    let req = required_kafka_sources();
    let opt = optional_kafka_sources();
    let bs = "bootstrap.servers"@;
    let si = "statistics.interval.ms"@;
    // the required settings
    let rest1 = req.drop_first();
    assert(rest1 =~= seq![("statistics.interval.ms"@, "KAFKA_STATISTICS_INTERVAL_MS"@)]);
    assert(rest1.drop_first() =~= Seq::<(Seq<char>, Seq<char>)>::empty());
    let v1 = env_lookup(env, "KAFKA_BOOTSTRAP_SERVERS"@);
    let v2 = env_lookup(env, "KAFKA_STATISTICS_INTERVAL_MS"@);
    if v1 is Some && v2 is Some {
        let m0 = no_settings().insert(bs, v1.unwrap()).insert(si, v2.unwrap());
        assert(apply_required(env, req, no_settings()) == apply_required(env, rest1, no_settings().insert(bs, v1.unwrap())));
        assert(rest1[0] == ("statistics.interval.ms"@, "KAFKA_STATISTICS_INTERVAL_MS"@));
        assert(apply_required(env, rest1, no_settings().insert(bs, v1.unwrap())) == apply_required(env, rest1.drop_first(), m0));
        assert(apply_required(env, rest1.drop_first(), m0) == Ok::<Map<Seq<char>, Seq<char>>, ConfigFault>(m0));
        let m = apply_optional(env, opt, m0);
        assert(spec_kafka_settings(env) == Ok::<Map<Seq<char>, Seq<char>>, ConfigFault>(m));
        assert(bs.len() == 17 && si.len() == 22);
        assert(bs[0] == 'b');
        assert(bs != si);
        let sp = "security.protocol"@;
        let sm = "sasl.mechanisms"@;
        let su = "sasl.username"@;
        let sw = "sasl.password"@;
        let ba = "broker.address.family"@;
        assert(sp.len() == 17 && sp[0] == 's' && sm.len() == 15 && su.len() == 13 && su[5] == 'u');
        assert(sw.len() == 13 && sw[5] == 'p' && ba.len() == 21);
        assert(opt[0].0 == sp && opt[1].0 == sm && opt[2].0 == su && opt[3].0 == sw && opt[4].0 == ba);
        assert(sp != bs && su != sw);
        assert forall|i: int| 0 <= i < opt.len() implies opt[i].0 != bs && opt[i].0 != si by {
            if i == 0 {} else if i == 1 {} else if i == 2 {} else if i == 3 {} else {}
        }
        lemma_apply_optional_unnamed(env, opt, m0, bs);
        lemma_apply_optional_unnamed(env, opt, m0, si);
        assert forall|j: int| 0 <= j < opt.len() implies setting_follows(m, #[trigger] opt[j].0, env, opt[j].1) by {
            assert forall|i: int| 0 <= i < opt.len() && i != j implies opt[i].0 != opt[j].0 by {
                if i == 0 {} else if i == 1 {} else if i == 2 {} else if i == 3 {} else {}
                if j == 0 {} else if j == 1 {} else if j == 2 {} else if j == 3 {} else {}
            }
            assert(!m0.contains_key(opt[j].0));
            lemma_apply_optional_named(env, opt, m0, opt[j].0, j);
        }
        assert(setting_follows(m, opt[0].0, env, opt[0].1));
        assert(setting_follows(m, opt[1].0, env, opt[1].1));
        assert(setting_follows(m, opt[2].0, env, opt[2].1));
        assert(setting_follows(m, opt[3].0, env, opt[3].1));
        assert(setting_follows(m, opt[4].0, env, opt[4].1));
        assert forall|k: Seq<char>| #[trigger] m.contains_key(k) implies k == "bootstrap.servers"@ || k
            == "statistics.interval.ms"@ || k == "security.protocol"@ || k == "sasl.mechanisms"@
            || k == "sasl.username"@ || k == "sasl.password"@ || k == "broker.address.family"@ by {
            lemma_apply_optional_keys(env, opt, m0, k);
            if !m0.contains_key(k) {
                let i = choose|i: int| 0 <= i < opt.len() && opt[i].0 == k;
                assert(0 <= i < 5);
            }
        }
    } else if v1 is Some {
        assert(apply_required(env, req, no_settings()) == apply_required(env, rest1, no_settings().insert(bs, v1.unwrap())));
    }
}

/// The value of the first pair named `name`.
pub fn optional_env_value(vars: &Vec<(String, String)>, name: &str) -> (res: Option<String>)
    ensures
        match env_lookup(pairs_view(vars@), name@) {
            Some(v) => res matches Some(s) && s@ == v,
            None => res is None,
        },
{
    let ghost env = pairs_view(vars@);
    let wanted = name.to_owned();
    let mut i: usize = 0;
    assert(env.skip(0) =~= env);
    while i < vars.len()
        invariant
            i <= vars.len(),
            env == pairs_view(vars@),
            wanted@ == name@,
            env_lookup(env, name@) == env_lookup(env.skip(i as int), name@),
        decreases vars.len() - i,
    {
        assert(env.skip(i as int)[0] == env[i as int]);
        if vars[i].0 == wanted {
            return Some(vars[i].1.clone());
        }
        assert(env.skip(i as int).drop_first() =~= env.skip(i + 1));
        i = i + 1;
    }
    None
}

/// The value of a variable that must be set.
pub fn required_env_value(vars: &Vec<(String, String)>, name: &str) -> (res: Result<String, ConfigError>)
    ensures
        match spec_required(pairs_view(vars@), name@) {
            Ok(v) => res matches Ok(s) && s@ == v,
            Err(e) => res matches Err(err) && err@ == e,
        },
{
    match optional_env_value(vars, name) {
        Some(v) => Ok(v),
        None => Err(ConfigError::MissingVar(name.to_owned())),
    }
}

/// Reads `KAFKA_TOPIC` and `KAFKA_QUEUE_SIZE`.
pub fn build_kafka_env_config(vars: &Vec<(String, String)>) -> (res: Result<KafkaEnvConfig, ConfigError>)
    ensures
        match spec_kafka_env_config(pairs_view(vars@)) {
            Ok((topic, size)) => res matches Ok(c) && c.topic@ == topic && c.queue_size == size,
            Err(e) => res matches Err(err) && err@ == e,
        },
{
    let topic = required_env_value(vars, "KAFKA_TOPIC")?;
    let text = required_env_value(vars, "KAFKA_QUEUE_SIZE")?;
    match parse_usize(text.as_str().as_bytes()) {
        Some(queue_size) => Ok(KafkaEnvConfig { topic, queue_size }),
        None => Err(ConfigError::InvalidNumber("KAFKA_QUEUE_SIZE".to_owned())),
    }
}

proof fn lemma_lookup_pairs(pairs: Seq<(Seq<char>, Seq<char>)>, m: Map<Seq<char>, Seq<char>>, key: Seq<char>)
    requires
        pairs_match_map(pairs, m),
    ensures
        env_lookup(pairs, key) == (if m.contains_key(key) { Some(m[key]) } else { None::<Seq<char>> }),
{
    lemma_lookup_found(pairs, key);
    if m.contains_key(key) {
        let i = choose|i: int| 0 <= i < pairs.len() && pairs[i].0 == key;
        assert(pairs[i].0 == key);
    }
    if env_lookup(pairs, key) is Some {
        let v = env_lookup(pairs, key).unwrap();
        let i = choose|i: int| 0 <= i < pairs.len() && pairs[i] == (key, v);
        assert(m.contains_key(pairs[i].0) && m[pairs[i].0] == pairs[i].1);
    }
}

proof fn lemma_lookup_found(pairs: Seq<(Seq<char>, Seq<char>)>, key: Seq<char>)
    ensures
        env_lookup(pairs, key) matches Some(v) ==> exists|i: int| 0 <= i < pairs.len() && pairs[i] == (key, v),
        env_lookup(pairs, key) is None ==> forall|i: int| 0 <= i < pairs.len() ==> pairs[i].0 != key,
    decreases pairs.len(),
{
    if pairs.len() > 0 {
        lemma_lookup_found(pairs.drop_first(), key);
        if env_lookup(pairs, key) is None {
            assert forall|i: int| 0 <= i < pairs.len() implies pairs[i].0 != key by {
                if i > 0 {
                    assert(pairs[i] == pairs.drop_first()[i - 1]);
                }
            }
        }
        if env_lookup(pairs, key) is Some {
            let v = env_lookup(pairs, key).unwrap();
            if pairs[0].0 != key {
                let j = choose|j: int| 0 <= j < pairs.len() - 1 && pairs.drop_first()[j] == (key, v);
                assert(pairs[j + 1] == (key, v));
            }
        }
    }
}

/// Reads `REQUEST_BODY`, `REQUEST_URLS` and `REQUEST_KEY`; the URL is the one
/// that the map of URLs gives under the key.
pub fn build_request_env_config(vars: &Vec<(String, String)>) -> (res: Result<RequestEnvConfig, ConfigError>)
    ensures
        match spec_request_env_config(pairs_view(vars@)) {
            Ok((url, body)) => res matches Ok(c) && c.url@ == url && c.body@ == body,
            Err(e) => res matches Err(err) && err@ == e,
        },
{
    let body = required_env_value(vars, "REQUEST_BODY")?;
    let urls = required_env_value(vars, "REQUEST_URLS")?;
    let key = required_env_value(vars, "REQUEST_KEY")?;
    let url_map = match parse_string_map(urls.as_str()) {
        Some(pairs) => pairs,
        None => return Err(ConfigError::InvalidUrlMap(urls)),
    };
    proof {
        lemma_lookup_pairs(pairs_view(url_map@), json5_string_map(urls@).unwrap(), key@);
    }
    match optional_env_value(&url_map, key.as_str()) {
        Some(url) => Ok(RequestEnvConfig { url, body }),
        None => Err(ConfigError::UnknownRequestKey(key)),
    }
}

/// The pairs of texts, as text.
pub open spec fn sources_view(pairs: Seq<(&str, &str)>) -> Seq<(Seq<char>, Seq<char>)> {
    pairs.map_values(|p: (&str, &str)| (p.0@, p.1@))
}

fn required_kafka_table() -> (res: Vec<(&'static str, &'static str)>)
    ensures
        sources_view(res@) == required_kafka_sources(),
{
    let res = vec![
        ("bootstrap.servers", "KAFKA_BOOTSTRAP_SERVERS"),
        ("statistics.interval.ms", "KAFKA_STATISTICS_INTERVAL_MS"),
    ];
    assert(sources_view(res@) =~= required_kafka_sources());
    res
}

fn optional_kafka_table() -> (res: Vec<(&'static str, &'static str)>)
    ensures
        sources_view(res@) == optional_kafka_sources(),
{
    let res = vec![
        ("security.protocol", "KAFKA_SECURITY_PROTOCOL"),
        ("sasl.mechanisms", "KAFKA_SASL_MECHANISMS"),
        ("sasl.username", "KAFKA_SASL_USERNAME"),
        ("sasl.password", "KAFKA_SASL_PASSWORD"),
        ("broker.address.family", "KAFKA_BROKER_ADDRESS_FAMILY"),
    ];
    assert(sources_view(res@) =~= optional_kafka_sources());
    res
}

/// Builds the Kafka client configuration: the required settings (bootstrap
/// servers, statistics interval) and the optional ones whose variables are set.
pub fn build_kafka_config(vars: &Vec<(String, String)>) -> (res: Result<ClientConfig, ConfigError>)
    ensures
        match spec_kafka_settings(pairs_view(vars@)) {
            Ok(m) => res matches Ok(c) && kafka_client_settings(c) == m,
            Err(e) => res matches Err(err) && err@ == e,
        },
{
    let ghost env = pairs_view(vars@);
    let mut kafka_config = new_client_config();
    let required = required_kafka_table();
    let ghost req = sources_view(required@);
    let mut i: usize = 0;
    assert(req.skip(0) =~= req);
    while i < required.len()
        invariant
            i <= required.len(),
            env == pairs_view(vars@),
            req == sources_view(required@),
            req == required_kafka_sources(),
            apply_required(env, req, no_settings()) == apply_required(
                env,
                req.skip(i as int),
                kafka_client_settings(kafka_config),
            ),
        decreases required.len() - i,
    {
        let (config_name, env_name) = required[i];
        assert(req.skip(i as int)[0] == (config_name@, env_name@));
        assert(req.skip(i as int).drop_first() =~= req.skip(i + 1));
        assert(req.skip(i as int).len() > 0);
        let value = match required_env_value(vars, env_name) {
            Ok(v) => v,
            Err(e) => {
                assert(apply_required(env, req.skip(i as int), kafka_client_settings(kafka_config))
                    == Err::<Map<Seq<char>, Seq<char>>, ConfigFault>(ConfigFault::MissingVar(env_name@)));
                return Err(e);
            },
        };
        set_client_config(&mut kafka_config, config_name.to_owned(), value);
        i = i + 1;
    }
    assert(req.skip(i as int) =~= Seq::<(Seq<char>, Seq<char>)>::empty());
    let optional = optional_kafka_table();
    let ghost opt = sources_view(optional@);
    let ghost base = kafka_client_settings(kafka_config);
    let mut j: usize = 0;
    assert(opt.skip(0) =~= opt);
    while j < optional.len()
        invariant
            j <= optional.len(),
            env == pairs_view(vars@),
            opt == sources_view(optional@),
            opt == optional_kafka_sources(),
            apply_optional(env, opt, base) == apply_optional(
                env,
                opt.skip(j as int),
                kafka_client_settings(kafka_config),
            ),
        decreases optional.len() - j,
    {
        let (config_name, env_name) = optional[j];
        assert(opt.skip(j as int)[0] == (config_name@, env_name@));
        assert(opt.skip(j as int).drop_first() =~= opt.skip(j + 1));
        if let Some(value) = optional_env_value(vars, env_name) {
            set_client_config(&mut kafka_config, config_name.to_owned(), value);
        }
        j = j + 1;
    }
    assert(opt.skip(j as int) =~= Seq::<(Seq<char>, Seq<char>)>::empty());
    Ok(kafka_config)
}

/// The text of `PROMETHEUS_ADDRESS`, when it is set.
pub fn prometheus_address_text(vars: &Vec<(String, String)>) -> (res: Option<String>)
    ensures
        match env_lookup(pairs_view(vars@), "PROMETHEUS_ADDRESS"@) {
            Some(v) => res matches Some(s) && s@ == v,
            None => res is None,
        },
{
    optional_env_value(vars, "PROMETHEUS_ADDRESS")
}

/// The whole configuration of the WebSocket relay.
pub struct EnvConfig {
    pub kafka: KafkaEnvConfig,
    pub request: RequestEnvConfig,
    pub kafka_config: ClientConfig,
    /// The metrics listen address as text; the caller parses it as a socket address.
    pub prometheus_address: Option<String>,
}

/// The first error met while reading the configuration: the Kafka topic and
/// queue size, then the request, then the Kafka client settings.
pub open spec fn spec_env_config_error(env: Seq<(Seq<char>, Seq<char>)>) -> Option<ConfigFault> {
    match spec_kafka_env_config(env) {
        Err(e) => Some(e),
        Ok(_) => match spec_request_env_config(env) {
            Err(e) => Some(e),
            Ok(_) => match spec_kafka_settings(env) {
                Err(e) => Some(e),
                Ok(_) => None,
            },
        },
    }
}

impl EnvConfig {
    /// Reads the whole configuration from the environment's variables.
    pub fn load(vars: &Vec<(String, String)>) -> (res: Result<EnvConfig, ConfigError>)
        ensures
            match spec_env_config_error(pairs_view(vars@)) {
                Some(e) => res matches Err(err) && err@ == e,
                None => res matches Ok(c) && {
                    &&& spec_kafka_env_config(pairs_view(vars@)) == Ok::<(Seq<char>, nat), ConfigFault>((c.kafka.topic@, c.kafka.queue_size as nat))
                    &&& spec_request_env_config(pairs_view(vars@)) == Ok::<(Seq<char>, Seq<char>), ConfigFault>((c.request.url@, c.request.body@))
                    &&& spec_kafka_settings(pairs_view(vars@)) == Ok::<Map<Seq<char>, Seq<char>>, ConfigFault>(kafka_client_settings(c.kafka_config))
                    &&& match env_lookup(pairs_view(vars@), "PROMETHEUS_ADDRESS"@) {
                        Some(v) => c.prometheus_address matches Some(s) && s@ == v,
                        None => c.prometheus_address is None,
                    }
                },
            },
    {
        let kafka = build_kafka_env_config(vars)?;
        let request = build_request_env_config(vars)?;
        let kafka_config = build_kafka_config(vars)?;
        let prometheus_address = prometheus_address_text(vars);
        Ok(EnvConfig { kafka, request, kafka_config, prometheus_address })
    }
}

} // verus!

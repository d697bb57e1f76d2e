//! The Kafka client configuration of `rdkafka`, seen as the map of settings
//! that it carries.
use vstd::prelude::*;
use rdkafka::config::ClientConfig;

verus! {

#[verifier::external_type_specification]
#[verifier::external_body]
pub struct ExClientConfig(ClientConfig);

/// The settings (name to value) that a client configuration holds.
pub uninterp spec fn kafka_client_settings(config: ClientConfig) -> Map<Seq<char>, Seq<char>>;

/// The empty map of settings.
pub open spec fn no_settings() -> Map<Seq<char>, Seq<char>> {
    Map::empty()
}

/// A configuration with no settings.
///
/// Calls `ClientConfig::new`, whose source starts from an empty map of
/// settings (the log level it also reads is not part of the settings).
#[verifier::external_body]
pub fn new_client_config() -> (res: ClientConfig)
    ensures
        kafka_client_settings(res) == no_settings(),
{
    ClientConfig::new()
}

/// Sets one setting, replacing any earlier value under the same name.
///
/// Calls `ClientConfig::set`, whose source inserts the pair into its map.
#[verifier::external_body]
pub fn set_client_config(config: &mut ClientConfig, name: String, value: String)
    ensures
        kafka_client_settings(*final(config)) == kafka_client_settings(*old(config)).insert(
            name@,
            value@,
        ),
{
    config.set(name, value);
}

/// The settings after applying `overrides` in order, each replacing any
/// earlier value under its name.
pub open spec fn apply_overrides(
    settings: Map<Seq<char>, Seq<char>>,
    overrides: Seq<(Seq<char>, Seq<char>)>,
) -> Map<Seq<char>, Seq<char>>
    decreases overrides.len(),
{
    if overrides.len() == 0 {
        settings
    } else {
        apply_overrides(settings.insert(overrides[0].0, overrides[0].1), overrides.drop_first())
    }
}

/// `j` is the last pair of `overrides` that names `name`.
pub open spec fn is_last_named(overrides: Seq<(Seq<char>, Seq<char>)>, name: Seq<char>, j: int) -> bool {
    &&& 0 <= j < overrides.len()
    &&& overrides[j].0 == name
    &&& forall|i: int| j < i < overrides.len() ==> overrides[i].0 != name
}

/// Merging a section: a setting that the section names ends with the value of
/// its last pair there; every other setting keeps its value (or its absence).
pub proof fn lemma_overrides_last_wins(
    settings: Map<Seq<char>, Seq<char>>,
    overrides: Seq<(Seq<char>, Seq<char>)>,
    name: Seq<char>,
)
    ensures
        (forall|i: int| 0 <= i < overrides.len() ==> overrides[i].0 != name) ==> {
            &&& apply_overrides(settings, overrides).contains_key(name) == settings.contains_key(name)
            &&& settings.contains_key(name) ==> apply_overrides(settings, overrides)[name] == settings[name]
        },
        forall|j: int| #[trigger] is_last_named(overrides, name, j) ==> {
            &&& apply_overrides(settings, overrides).contains_key(name)
            &&& apply_overrides(settings, overrides)[name] == overrides[j].1
        },
    decreases overrides.len(),
{
    if overrides.len() > 0 {
        let first = overrides[0];
        let rest = overrides.drop_first();
        let next = settings.insert(first.0, first.1);
        lemma_overrides_last_wins(next, rest, name);
        assert(apply_overrides(settings, overrides) == apply_overrides(next, rest));
        assert forall|j: int| #[trigger] is_last_named(overrides, name, j) implies {
            &&& apply_overrides(settings, overrides).contains_key(name)
            &&& apply_overrides(settings, overrides)[name] == overrides[j].1
        } by {
            if j == 0 {
                assert forall|i: int| 0 <= i < rest.len() implies rest[i].0 != name by {
                    assert(rest[i] == overrides[i + 1]);
                }
                assert(next.contains_key(name) && next[name] == first.1);
            } else {
                assert(rest[j - 1] == overrides[j]);
                assert forall|i: int| j - 1 < i < rest.len() implies rest[i].0 != name by {
                    assert(rest[i] == overrides[i + 1]);
                }
                assert(is_last_named(rest, name, j - 1));
            }
        }
        if forall|i: int| 0 <= i < overrides.len() ==> overrides[i].0 != name {
            assert(first.0 != name);
            assert forall|i: int| 0 <= i < rest.len() implies rest[i].0 != name by {
                assert(rest[i] == overrides[i + 1]);
            }
        }
    }
}

/// The pairs of strings, as text.
pub open spec fn pairs_view(pairs: Seq<(String, String)>) -> Seq<(Seq<char>, Seq<char>)> {
    pairs.map_values(|p: (String, String)| (p.0@, p.1@))
}

/// Copies each `(name, value)` pair of a configuration section into the Kafka
/// client configuration, later pairs replacing earlier values.
pub fn merge_kafka_settings(config: &mut ClientConfig, section: &Vec<(String, String)>)
    ensures
        kafka_client_settings(*final(config)) == apply_overrides(
            kafka_client_settings(*old(config)),
            pairs_view(section@),
        ),
{
    let ghost all = pairs_view(section@);
    let ghost start = kafka_client_settings(*config);
    let mut i: usize = 0;
    assert(all.skip(0) =~= all);
    while i < section.len()
        invariant
            i <= section.len(),
            all == pairs_view(section@),
            apply_overrides(start, all) == apply_overrides(
                kafka_client_settings(*config),
                all.skip(i as int),
            ),
        decreases section.len() - i,
    {
        let name = section[i].0.clone();
        let value = section[i].1.clone();
        assert(all.skip(i as int).drop_first() =~= all.skip(i + 1));
        set_client_config(config, name, value);
        i = i + 1;
    }
    assert(all.skip(i as int) =~= Seq::<(Seq<char>, Seq<char>)>::empty());
}

} // verus!

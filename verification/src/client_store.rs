//! The backend registry: profile names resolved to adapter factories.
//! Resolution is a pure lookup; building a factory has no side effects until
//! a connection is opened.

use vstd::prelude::*;

use crate::config_store::lookup_pairs;
use crate::config_store::wf_pairs;
use crate::config_store::ConfigFile;
use crate::paraformer_config::ParaformerV2ClientFactory;
use crate::profile_config::ProfileConfig;
use crate::qwen_config::QwenV3ClientFactory;

verus! {

/// The adapter factory of one profile, one variant per backend kind.
pub enum ClientFactory {
    ParaformerV2(ParaformerV2ClientFactory),
    QwenV3(QwenV3ClientFactory),
}

impl Clone for ClientFactory {
    fn clone(&self) -> (r: Self)
        ensures
            self matches ClientFactory::ParaformerV2(f) ==> (r matches ClientFactory::ParaformerV2(
                g,
            ) && g.options.dashscope_api_key == f.options.dashscope_api_key
                && g.options.language_hints@ == f.options.language_hints@),
            self matches ClientFactory::QwenV3(f) ==> (r matches ClientFactory::QwenV3(g)
                && g.options.dashscope_api_key == f.options.dashscope_api_key && g.options.language
                == f.options.language && g.options.turn_detection == f.options.turn_detection),
    {
        match self {
            ClientFactory::ParaformerV2(f) => ClientFactory::ParaformerV2(f.clone()),
            ClientFactory::QwenV3(f) => ClientFactory::QwenV3(f.clone()),
        }
    }
}

/// The factory a profile's configuration resolves to.
pub open spec fn factory_of(config: ProfileConfig) -> ClientFactory {
    match config {
        ProfileConfig::ParaformerV2(c) => ClientFactory::ParaformerV2(
            ParaformerV2ClientFactory { options: c },
        ),
        ProfileConfig::QwenV3(c) => ClientFactory::QwenV3(QwenV3ClientFactory { options: c }),
    }
}

/// Each named profile resolved to its factory, names kept.
pub open spec fn factories_of(profiles: Seq<(String, ProfileConfig)>) -> Seq<(
    String,
    ClientFactory,
)> {
    profiles.map_values(|p: (String, ProfileConfig)| (p.0, factory_of(p.1)))
}

/// Resolving after mapping is mapping the resolution: looking a name up
/// among the factories gives exactly the factory of the profile of that
/// name.
proof fn lemma_lookup_factories(profiles: Seq<(String, ProfileConfig)>, name: Seq<char>)
    ensures
        lookup_pairs(factories_of(profiles), name) == match lookup_pairs(profiles, name) {
            Some(c) => Some(factory_of(c)),
            None => None,
        },
    decreases profiles.len(),
{
    let mapped = factories_of(profiles);
    if profiles.len() == 0 {
    } else {
        assert(mapped[0] == (profiles[0].0, factory_of(profiles[0].1)));
        assert(mapped.drop_first() =~= factories_of(profiles.drop_first()));
        lemma_lookup_factories(profiles.drop_first(), name);
    }
}

/// The loaded registry.
pub struct ClientStore {
    pub clients: Vec<(String, ClientFactory)>,
}

impl ClientStore {
    /// The names stay unique, as in the configuration they came from.
    pub open spec fn wf(&self) -> bool {
        wf_pairs(self.clients@)
    }

    /// Builds the registry from the loaded configuration: every profile
    /// resolves to the factory of its backend kind, under its own name.
    pub fn load(config_file: ConfigFile) -> (r: Self)
        ensures
            r.clients@ == factories_of(config_file.profiles@),
            config_file.wf() ==> r.wf(),
            forall|name: Seq<char>|
                lookup_pairs(r.clients@, name) == match lookup_pairs(
                    config_file.profiles@,
                    name,
                ) {
                    Some(c) => Some(factory_of(c)),
                    None => None,
                },
    {
        let ghost orig = config_file.profiles@;
        let ConfigFile { pulseaudio: _, profiles } = config_file;
        let mut profiles = profiles;
        let mut clients: Vec<(String, ClientFactory)> = Vec::new();
        let ghost mut done: int = 0;
        while profiles.len() > 0
            invariant
                0 <= done <= orig.len(),
                profiles@ =~= orig.skip(done),
                clients@ =~= factories_of(orig.take(done)),
            decreases profiles@.len(),
        {
            let (name, config) = profiles.remove(0);
            let factory = match config {
                ProfileConfig::ParaformerV2(c) => ClientFactory::ParaformerV2(
                    ParaformerV2ClientFactory { options: c },
                ),
                ProfileConfig::QwenV3(c) => ClientFactory::QwenV3(
                    QwenV3ClientFactory { options: c },
                ),
            };
            clients.push((name, factory));
            proof {
                assert(orig.skip(done)[0] == orig[done]);
                assert(orig.skip(done).remove(0) =~= orig.skip(done + 1));
                assert(orig.take(done + 1) =~= orig.take(done).push(orig[done]));
                assert(factories_of(orig.take(done + 1)) =~= factories_of(orig.take(done)).push(
                    (orig[done].0, factory_of(orig[done].1)),
                ));
                done = done + 1;
            }
        }
        proof {
            assert(orig.take(done) =~= orig);
            assert forall|name: Seq<char>| true implies lookup_pairs(
                factories_of(orig),
                name,
            ) == match lookup_pairs(orig, name) {
                Some(c) => Some(factory_of(c)),
                None => None,
            } by {
                lemma_lookup_factories(orig, name);
            }
            assert forall|i: int, j: int|
                0 <= i < j < factories_of(orig).len() && wf_pairs(orig) implies factories_of(
                orig,
            )[i].0@ != factories_of(orig)[j].0@ by {
                assert(factories_of(orig)[i] == (orig[i].0, factory_of(orig[i].1)));
                assert(factories_of(orig)[j] == (orig[j].0, factory_of(orig[j].1)));
            }
        }
        ClientStore { clients }
    }

    /// Pure lookup of the factory registered under `profile_name`.
    pub fn get_client_for_profile(&self, profile_name: &str) -> (r: Option<&ClientFactory>)
        ensures
            match r {
                Some(f) => lookup_pairs(self.clients@, profile_name@) == Some(*f),
                None => lookup_pairs(self.clients@, profile_name@) is None,
            },
    {
        let key = profile_name.to_owned();
        let n = self.clients.len();
        let mut i: usize = 0;
        proof {
            assert(self.clients@.skip(0) =~= self.clients@);
        }
        while i < n
            invariant
                n == self.clients@.len(),
                i <= n,
                key@ == profile_name@,
                lookup_pairs(self.clients@.skip(i as int), profile_name@) == lookup_pairs(
                    self.clients@,
                    profile_name@,
                ),
            decreases n - i,
        {
            proof {
                assert(self.clients@.skip(i as int)[0] == self.clients@[i as int]);
                assert(self.clients@.skip(i as int).drop_first() =~= self.clients@.skip(
                    i as int + 1,
                ));
            }
            if self.clients[i].0.eq(&key) {
                return Some(&self.clients[i].1);
            }
            i = i + 1;
        }
        proof {
            assert(self.clients@.skip(n as int) =~= Seq::<(String, ClientFactory)>::empty());
        }
        None
    }
}

} // verus!

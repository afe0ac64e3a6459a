//! Configuration records read by the library.
use vstd::prelude::*;

verus! {

/// The characters of each string of a list.
pub open spec fn strings_view(v: Seq<String>) -> Seq<Seq<char>> {
    v.map_values(|s: String| s@)
}

/// `list` with `id` appended unless it is already there.
pub open spec fn with_app(list: Seq<Seq<char>>, id: Seq<char>) -> Seq<Seq<char>> {
    if list.contains(id) {
        list
    } else {
        list.push(id)
    }
}

/// Text cleanup settings.
#[derive(Debug)]
pub struct CleanupConfig {
    pub enabled: bool,
    /// Regular expressions whose matches are removed from track metadata.
    pub patterns: Vec<String>,
}

/// Which media applications are scrobbled.
#[derive(Debug)]
pub struct AppFilteringConfig {
    /// Scrobble playback whose application is not known.
    pub scrobble_unknown: bool,
    /// Bundle identifiers that are always scrobbled.
    pub allowed_apps: Vec<String>,
    /// Bundle identifiers that are never scrobbled.
    pub ignored_apps: Vec<String>,
    /// Ask the user about applications in neither list.
    pub prompt_for_new_apps: bool,
}

/// Last.fm account settings.
#[derive(Debug)]
pub struct LastFmConfig {
    pub enabled: bool,
    pub api_key: String,
    pub api_secret: String,
    pub session_key: String,
}

/// One ListenBrainz instance.
#[derive(Debug)]
pub struct ListenBrainzConfig {
    pub enabled: bool,
    pub name: String,
    pub token: String,
    pub api_url: String,
}

/// The whole application configuration.
#[derive(Debug)]
pub struct Config {
    /// Percentage of a track that must be played before it is scrobbled.
    pub scrobble_threshold: u8,
    pub lastfm: Option<LastFmConfig>,
    pub listenbrainz: Vec<ListenBrainzConfig>,
    pub cleanup: CleanupConfig,
    pub app_filtering: AppFilteringConfig,
}

/// Whether `id` is one of `list`.
pub fn contains_string(list: &Vec<String>, id: &String) -> (r: bool)
    ensures
        r == strings_view(list@).contains(id@),
{
    let mut i: usize = 0;
    while i < list.len()
        invariant
            i <= list.len(),
            forall|j: int| 0 <= j < i ==> list@[j]@ != id@,
        decreases list.len() - i,
    {
        if list[i].eq(id) {
            assert(strings_view(list@)[i as int] == id@);
            return true;
        }
        i = i + 1;
    }
    assert forall|j: int| 0 <= j < strings_view(list@).len() implies strings_view(list@)[j]
        != id@ by {
        assert(strings_view(list@)[j] == list@[j]@);
    }
    false
}

/// Appends `id` to `list` unless it is already there.
fn add_once(list: &mut Vec<String>, id: &String)
    ensures
        strings_view(old(list)@).contains(id@) ==> final(list)@ == old(list)@,
        !strings_view(old(list)@).contains(id@) ==> final(list)@ == old(list)@.push(*id),
{
    if !contains_string(list, id) {
        list.push(id.clone());
    }
}

impl AppFilteringConfig {
    /// Records the user's choice to scrobble the application `id`.
    pub fn allow_app(&mut self, id: &String)
        ensures
            strings_view(final(self).allowed_apps@) == with_app(strings_view(old(self).allowed_apps@), id@),
            final(self).ignored_apps@ == old(self).ignored_apps@,
            final(self).scrobble_unknown == old(self).scrobble_unknown,
            final(self).prompt_for_new_apps == old(self).prompt_for_new_apps,
    {
        add_once(&mut self.allowed_apps, id);
        proof {
            if !strings_view(old(self).allowed_apps@).contains(id@) {
                assert(strings_view(self.allowed_apps@) =~= strings_view(
                    old(self).allowed_apps@,
                ).push(id@));
            }
        }
    }

    /// Records the user's choice never to scrobble the application `id`.
    pub fn ignore_app(&mut self, id: &String)
        ensures
            strings_view(final(self).ignored_apps@) == with_app(strings_view(old(self).ignored_apps@), id@),
            final(self).allowed_apps@ == old(self).allowed_apps@,
            final(self).scrobble_unknown == old(self).scrobble_unknown,
            final(self).prompt_for_new_apps == old(self).prompt_for_new_apps,
    {
        add_once(&mut self.ignored_apps, id);
        proof {
            if !strings_view(old(self).ignored_apps@).contains(id@) {
                assert(strings_view(self.ignored_apps@) =~= strings_view(
                    old(self).ignored_apps@,
                ).push(id@));
            }
        }
    }
}

/// Why Last.fm authentication cannot start.
#[derive(Debug, Clone, Copy, PartialEq, Eq, Structural)]
pub enum LastFmSetupError {
    /// The configuration has no Last.fm section.
    NotConfigured,
    /// The API key or the API secret is empty.
    MissingCredentials,
}

/// Whether Last.fm authentication can start: the configuration has a Last.fm
/// section with a non-empty API key and secret.
pub fn check_lastfm_auth_setup(config: &Config) -> (r: Result<(), LastFmSetupError>)
    ensures
        match config.lastfm {
            None => r == Err::<(), LastFmSetupError>(LastFmSetupError::NotConfigured),
            Some(l) => if l.api_key@.len() == 0 || l.api_secret@.len() == 0 {
                r == Err::<(), LastFmSetupError>(LastFmSetupError::MissingCredentials)
            } else {
                r is Ok
            },
        },
{
    match &config.lastfm {
        None => Err(LastFmSetupError::NotConfigured),
        Some(l) => if l.api_key.as_str().is_empty() || l.api_secret.as_str().is_empty() {
            Err(LastFmSetupError::MissingCredentials)
        } else {
            Ok(())
        },
    }
}

/// Stores the session key obtained by authentication and enables Last.fm.
pub fn record_lastfm_session(config: &mut Config, session_key: String)
    ensures
        final(config).lastfm == match old(config).lastfm {
            Some(l) => Some(LastFmConfig { session_key: session_key, enabled: true, ..l }),
            None => None,
        },
        final(config).scrobble_threshold == old(config).scrobble_threshold,
        final(config).listenbrainz == old(config).listenbrainz,
        final(config).cleanup == old(config).cleanup,
        final(config).app_filtering == old(config).app_filtering,
{
    match &mut config.lastfm {
        Some(l) => {
            l.session_key = session_key;
            l.enabled = true;
        },
        None => {},
    }
}

/// Last.fm scrobbles: it is configured, enabled and has a session key.
pub open spec fn lastfm_active(config: Config) -> bool {
    config.lastfm matches Some(l) && l.enabled && l.session_key@.len() > 0
}

/// Whether Last.fm is configured, enabled and authenticated.
pub fn lastfm_scrobbling_enabled(config: &Config) -> (r: bool)
    ensures
        r == lastfm_active(*config),
{
    match &config.lastfm {
        Some(l) => l.enabled && !l.session_key.as_str().is_empty(),
        None => false,
    }
}

/// Positions of the enabled ListenBrainz instances, in order.
pub fn enabled_listenbrainz(config: &Config) -> (r: Vec<usize>)
    ensures
        forall|k: int| 0 <= k < r.len() ==> r[k] < config.listenbrainz.len() && config.listenbrainz[r[k] as int].enabled,
        forall|k: int, m: int| 0 <= k < m < r.len() ==> r[k] < r[m],
        forall|j: int| 0 <= j < config.listenbrainz.len() && config.listenbrainz[j].enabled ==> r@.contains(j as usize),
{
    let mut r: Vec<usize> = Vec::new();
    let mut i: usize = 0;
    while i < config.listenbrainz.len()
        invariant
            i <= config.listenbrainz.len(),
            forall|k: int| 0 <= k < r.len() ==> r[k] < i && config.listenbrainz[r[k] as int].enabled,
            forall|k: int, m: int| 0 <= k < m < r.len() ==> r[k] < r[m],
            forall|j: int| 0 <= j < i && config.listenbrainz[j].enabled ==> r@.contains(j as usize),
        decreases config.listenbrainz.len() - i,
    {
        if config.listenbrainz[i].enabled {
            let ghost before = r@;
            r.push(i);
            assert forall|j: int| 0 <= j < i + 1 && config.listenbrainz[j].enabled implies r@.contains(j as usize) by {
                if j < i {
                    let k = choose|k: int| 0 <= k < before.len() && before[k] == j as usize;
                    assert(r@[k] == j as usize);
                } else {
                    assert(r@[before.len() as int] == i);
                }
            }
        }
        i = i + 1;
    }
    r
}

/// Recording an application is idempotent: afterwards the list holds it,
/// recording it again changes nothing, and no other entry is added or lost.
pub proof fn lemma_with_app_idempotent(list: Seq<Seq<char>>, id: Seq<char>)
    ensures
        with_app(list, id).contains(id),
        with_app(with_app(list, id), id) == with_app(list, id),
        forall|x: Seq<char>| x != id ==> (#[trigger] with_app(list, id).contains(x) <==> list.contains(x)),
{
    assert(list.push(id)[list.len() as int] == id);
    assert forall|x: Seq<char>| x != id implies (#[trigger] with_app(list, id).contains(x) <==> list.contains(x)) by {
        if !list.contains(id) {
            if list.push(id).contains(x) {
                let k = choose|k: int| 0 <= k < list.push(id).len() && list.push(id)[k] == x;
                assert(list[k] == x);
            }
            if list.contains(x) {
                let k = choose|k: int| 0 <= k < list.len() && list[k] == x;
                assert(list.push(id)[k] == x);
            }
        }
    }
}

/// Last.fm scrobbles exactly when its section is present, switched on and
/// authenticated: a disabled section is never active, whatever its session
/// key. Recording a session makes it active when the key is non-empty.
pub proof fn lemma_lastfm_active_needs_enabled_session(config: Config, after: Config, key: String)
    ensures
        lastfm_active(config) ==> (config.lastfm matches Some(l) && l.enabled),
        lastfm_active(config) ==> (config.lastfm matches Some(l) && l.session_key@.len() > 0),
        (config.lastfm matches Some(l) && l.enabled && l.session_key@.len() > 0) ==> lastfm_active(config),
        (config.lastfm matches Some(l) && !l.enabled) ==> !lastfm_active(config),
        config.lastfm is None ==> !lastfm_active(config),
        (after.lastfm == match config.lastfm {
            Some(l) => Some(LastFmConfig { session_key: key, enabled: true, ..l }),
            None => None,
        } && config.lastfm is Some) ==> (lastfm_active(after) <==> key@.len() > 0),
{
}

} // verus!

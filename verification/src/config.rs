//! Site configuration: the settings a Cynthia site is started with, their
//! defaults, and lookups among the configured scenes.

use vstd::prelude::*;
use vstd::string::*;
use crate::text::str_eq;

verus! {

/// The external JavaScript runtime, named by the command that starts it
/// (or `disabled`).
pub type ExternalJavascriptRuntime = String;

/// Runtimes Cynthia hands work to.
pub struct Runtimes {
    pub ext_js_rt: ExternalJavascriptRuntime,
}

/// A plugin named in the configuration.
pub enum Plugin {
    JsPlugin { plugin_name: String, plugin_enabled: bool },
}

/// How long cached items live, per kind of item.
pub struct Lifetimes {
    pub stylesheets: u64,
    pub javascript: u64,
    pub forwarded: u64,
    pub assets: u64,
    pub served: u64,
}

/// Cache settings.
pub struct Cache {
    pub lifetimes: Lifetimes,
    /// Maximum cache size in bytes (default 512 MiB).
    pub max_cache_size: usize,
}

/// Meta settings for generation.
pub struct Meta {
    pub enable_tags: bool,
}

/// Site-wide settings.
pub struct Site {
    pub notfound_page: String,
    pub site_baseurl: String,
    pub og_sitename: String,
    pub meta: Meta,
}

/// The `pages` section of configurations that keep it apart from the rest
/// of the site settings.
pub struct Pages {
    pub notfound_page: String,
}

/// The `generator` section of configurations that keep it apart from the
/// page settings.
pub struct Generator {
    pub site_baseurl: String,
    pub og_sitename: String,
    pub meta: Meta,
}

/// Logging settings.
pub struct Logging {
    pub file_loglevel: Option<u16>,
    pub term_loglevel: Option<u16>,
    pub logfile: Option<String>,
}

/// Templates of a scene, one per kind of publication.
pub struct Templates {
    pub post: String,
    pub page: String,
    pub postlist: String,
}

/// A scene: a named set of templates, style and script.
pub struct Scene {
    pub name: String,
    pub sitename: Option<String>,
    pub stylefile: Option<String>,
    pub script: Option<String>,
    pub templates: Templates,
}

/// The scenes of a configuration.
pub type SceneCollection = Vec<Scene>;

/// The configuration of a Cynthia site.
pub struct CynthiaConf {
    pub port: u16,
    pub cache: Cache,
    pub site: Site,
    pub logs: Option<Logging>,
    pub runtimes: Runtimes,
    pub scenes: SceneCollection,
    pub plugins: Vec<Plugin>,
}

/// A second handle on a configuration, handed around where the first
/// must stay put.
pub struct CynthiaConfClone {
    pub port: u16,
    pub cache: Cache,
    pub site: Site,
    pub logs: Option<Logging>,
    pub scenes: SceneCollection,
    pub runtimes: Runtimes,
    pub plugins: Vec<Plugin>,
}

// ---------------------------------------------------------------------------
// Copies
// ---------------------------------------------------------------------------

/// A copy of an optional string.
pub fn copy_opt_string(o: &Option<String>) -> (r: Option<String>)
    ensures
        r == *o,
{
    match o {
        Some(s) => Some(s.clone()),
        None => None,
    }
}

impl Runtimes {
    /// A copy of these runtime settings.
    pub fn copy(&self) -> (r: Runtimes)
        ensures
            r == *self,
    {
        Runtimes { ext_js_rt: self.ext_js_rt.clone() }
    }
}

impl Plugin {
    /// A copy of this plugin entry.
    pub fn copy(&self) -> (r: Plugin)
        ensures
            r == *self,
    {
        match self {
            Plugin::JsPlugin { plugin_name, plugin_enabled } => Plugin::JsPlugin {
                plugin_name: plugin_name.clone(),
                plugin_enabled: *plugin_enabled,
            },
        }
    }
}

/// A copy of a list of plugins.
pub fn copy_plugins(v: &Vec<Plugin>) -> (r: Vec<Plugin>)
    ensures
        r@ == v@,
{
    let mut r: Vec<Plugin> = Vec::new();
    let mut i: usize = 0;
    while i < v.len()
        invariant
            i <= v@.len(),
            r@ == v@.subrange(0, i as int),
        decreases v@.len() - i,
    {
        r.push(v[i].copy());
        i = i + 1;
        assert(r@ =~= v@.subrange(0, i as int));
    }
    assert(r@ =~= v@);
    r
}

impl Lifetimes {
    /// A copy of these lifetimes.
    pub fn copy(&self) -> (r: Lifetimes)
        ensures
            r == *self,
    {
        Lifetimes {
            stylesheets: self.stylesheets,
            javascript: self.javascript,
            forwarded: self.forwarded,
            assets: self.assets,
            served: self.served,
        }
    }
}

impl Cache {
    /// A copy of these cache settings.
    pub fn copy(&self) -> (r: Cache)
        ensures
            r == *self,
    {
        Cache { lifetimes: self.lifetimes.copy(), max_cache_size: self.max_cache_size }
    }
}

impl Meta {
    /// A copy of these meta settings.
    pub fn copy(&self) -> (r: Meta)
        ensures
            r == *self,
    {
        Meta { enable_tags: self.enable_tags }
    }
}

impl Site {
    /// A copy of these site settings.
    pub fn copy(&self) -> (r: Site)
        ensures
            r == *self,
    {
        Site {
            notfound_page: self.notfound_page.clone(),
            site_baseurl: self.site_baseurl.clone(),
            og_sitename: self.og_sitename.clone(),
            meta: self.meta.copy(),
        }
    }

    /// The site settings of a configuration that keeps its `pages` and
    /// `generator` sections apart.
    pub fn from_sections(pages: Pages, generator: Generator) -> (r: Site)
        ensures
            r.notfound_page == pages.notfound_page,
            r.site_baseurl == generator.site_baseurl,
            r.og_sitename == generator.og_sitename,
            r.meta == generator.meta,
    {
        Site {
            notfound_page: pages.notfound_page,
            site_baseurl: generator.site_baseurl,
            og_sitename: generator.og_sitename,
            meta: generator.meta,
        }
    }
}

impl Logging {
    /// A copy of these logging settings.
    pub fn copy(&self) -> (r: Logging)
        ensures
            r == *self,
    {
        Logging {
            file_loglevel: self.file_loglevel,
            term_loglevel: self.term_loglevel,
            logfile: copy_opt_string(&self.logfile),
        }
    }
}

/// A copy of optional logging settings.
pub fn copy_opt_logging(o: &Option<Logging>) -> (r: Option<Logging>)
    ensures
        r == *o,
{
    match o {
        Some(l) => Some(l.copy()),
        None => None,
    }
}

impl Templates {
    /// A copy of these templates.
    pub fn copy(&self) -> (r: Templates)
        ensures
            r == *self,
    {
        Templates {
            post: self.post.clone(),
            page: self.page.clone(),
            postlist: self.postlist.clone(),
        }
    }
}

impl Scene {
    /// A copy of this scene.
    pub fn copy(&self) -> (r: Scene)
        ensures
            r == *self,
    {
        Scene {
            name: self.name.clone(),
            sitename: copy_opt_string(&self.sitename),
            stylefile: copy_opt_string(&self.stylefile),
            script: copy_opt_string(&self.script),
            templates: self.templates.copy(),
        }
    }

    /// The scene's name.
    pub fn get_name(&self) -> (r: String)
        ensures
            r@ == self.name@,
    {
        self.name.clone()
    }

    /// The scene used when the configuration names none: the `default`
    /// scene with the stock templates.
    pub fn default() -> (r: Scene)
        ensures
            r.name@ == "default"@,
            r.sitename matches Some(s) && s@ == "My Cynthia Site"@,
            r.stylefile matches Some(s) && s@ == "/styles/default.css"@,
            r.script matches Some(s) && s@ == "/scripts/client.js"@,
            r.templates.post@ == "../default"@,
            r.templates.page@ == "../default"@,
            r.templates.postlist@ == "default"@,
    {
        Scene {
            name: String::from_str("default"),
            sitename: Some(String::from_str("My Cynthia Site")),
            stylefile: Some(String::from_str("/styles/default.css")),
            script: Some(String::from_str("/scripts/client.js")),
            templates: Templates {
                post: String::from_str("../default"),
                page: String::from_str("../default"),
                postlist: String::from_str("default"),
            },
        }
    }
}

/// The stock default scene: named `default`, site name `My Cynthia Site`,
/// the default stylesheet and client script, and the stock templates.
pub open spec fn is_default_scene(s: Scene) -> bool {
    &&& s.name@ == "default"@
    &&& s.sitename matches Some(n) && n@ == "My Cynthia Site"@
    &&& s.stylefile matches Some(f) && f@ == "/styles/default.css"@
    &&& s.script matches Some(f) && f@ == "/scripts/client.js"@
    &&& s.templates.post@ == "../default"@
    &&& s.templates.page@ == "../default"@
    &&& s.templates.postlist@ == "default"@
}

/// A copy of a scene collection.
pub fn copy_scenes(v: &Vec<Scene>) -> (r: Vec<Scene>)
    ensures
        r@ == v@,
{
    let mut r: Vec<Scene> = Vec::new();
    let mut i: usize = 0;
    while i < v.len()
        invariant
            i <= v@.len(),
            r@ == v@.subrange(0, i as int),
        decreases v@.len() - i,
    {
        r.push(v[i].copy());
        i = i + 1;
        assert(r@ =~= v@.subrange(0, i as int));
    }
    assert(r@ =~= v@);
    r
}

// ---------------------------------------------------------------------------
// Scene lookups
// ---------------------------------------------------------------------------

/// Index of the first scene named `name`, if any.
pub open spec fn first_named(scenes: Seq<Scene>, name: Seq<char>) -> Option<int>
    decreases scenes.len(),
{
    if scenes.len() == 0 {
        None
    } else if scenes[0].name@ == name {
        Some(0)
    } else {
        match first_named(scenes.skip(1), name) {
            Some(i) => Some(i + 1),
            None => None,
        }
    }
}

proof fn lemma_first_named_step(scenes: Seq<Scene>, name: Seq<char>, i: int)
    requires
        0 <= i < scenes.len(),
        forall|j: int| 0 <= j < i ==> scenes[j].name@ != name,
    ensures
        scenes[i].name@ == name ==> first_named(scenes, name) == Some(i),
    decreases i,
{
    if i > 0 {
        lemma_first_named_step(scenes.skip(1), name, i - 1);
    }
}

proof fn lemma_first_named_none(scenes: Seq<Scene>, name: Seq<char>)
    requires
        forall|j: int| 0 <= j < scenes.len() ==> scenes[j].name@ != name,
    ensures
        first_named(scenes, name) is None,
    decreases scenes.len(),
{
    if scenes.len() > 0 {
        lemma_first_named_none(scenes.skip(1), name);
    }
}

proof fn lemma_first_named_bounds(scenes: Seq<Scene>, name: Seq<char>)
    ensures
        first_named(scenes, name) matches Some(i) ==> 0 <= i < scenes.len() && scenes[i].name@
            == name,
    decreases scenes.len(),
{
    if scenes.len() > 0 {
        lemma_first_named_bounds(scenes.skip(1), name);
    }
}

/// The scene that `get_default` picks: the first one named `default`, else
/// a made-up default scene when there are none, else the first one.
pub open spec fn default_scene_spec(scenes: Seq<Scene>, made_up: Scene) -> Scene {
    match first_named(scenes, "default"@) {
        Some(i) => scenes[i],
        None => if scenes.len() == 0 {
            made_up
        } else {
            scenes[0]
        },
    }
}

/// Lookups among the scenes of a configuration.
pub trait SceneCollectionTrait {
    fn get_by_name(&self, name: &str) -> Option<Scene>;

    fn get_default(&self) -> Scene;

    fn validate(&self) -> bool;
}

impl SceneCollectionTrait for Vec<Scene> {
    /// The first scene with the given name.
    fn get_by_name(&self, name: &str) -> (r: Option<Scene>)
        ensures
            r == (match first_named(self@, name@) {
                Some(i) => Some(self@[i]),
                None => None,
            }),
    {
        let mut i: usize = 0;
        while i < self.len()
            invariant
                i <= self@.len(),
                forall|j: int| 0 <= j < i ==> self@[j].name@ != name@,
            decreases self@.len() - i,
        {
            if str_eq(self[i].name.as_str(), name) {
                proof {
                    lemma_first_named_step(self@, name@, i as int);
                }
                return Some(self[i].copy());
            }
            i = i + 1;
        }
        proof {
            lemma_first_named_none(self@, name@);
        }
        None
    }

    /// The first scene named `default`; failing that a made-up default
    /// scene if there are no scenes at all, or else the first scene.
    fn get_default(&self) -> (r: Scene)
        ensures
            (first_named(self@, "default"@) matches Some(i) ==> r == self@[i]),
            (first_named(self@, "default"@) is None && self@.len() > 0 ==> r == self@[0]),
            (self@.len() == 0 ==> is_default_scene(r)),
    {
        let found = self.get_by_name("default");
        proof {
            lemma_first_named_bounds(self@, "default"@);
        }
        match found {
            Some(s) => s,
            None => {
                if self.len() == 0 {
                    Scene::default()
                } else {
                    self[0].copy()
                }
            },
        }
    }

    /// A scene collection is valid when it holds at least one scene.
    fn validate(&self) -> (r: bool)
        ensures
            r == (self@.len() > 0),
    {
        self.len() != 0
    }
}


// ---------------------------------------------------------------------------
// Defaults
// ---------------------------------------------------------------------------

/// Default port: 3000.
pub fn c_port() -> (r: u16)
    ensures
        r == 3000,
{
    3000
}

/// Default for boolean switches: off.
pub fn c_bool_false() -> (r: bool)
    ensures
        !r,
{
    false
}

/// Default for free-text settings: the empty string.
pub fn c_emptystring() -> (r: String)
    ensures
        r@ == Seq::<char>::empty(),
{
    String::new()
}

/// Default stylesheet cache lifetime: 72000.
pub fn c_cache_lifetime_stylesheets() -> (r: u64)
    ensures
        r == 72000,
{
    72000
}

/// Default script cache lifetime: 1200.
pub fn c_cache_lifetime_js() -> (r: u64)
    ensures
        r == 1200,
{
    1200
}

/// Default lifetime of forwarded content and assets: 1600.
pub fn c_cache_lifetime_external() -> (r: u64)
    ensures
        r == 1600,
{
    1600
}

/// Default lifetime of served pages: 50.
pub fn c_cache_lifetime_served() -> (r: u64)
    ensures
        r == 50,
{
    50
}

/// Default id of the not-found page: `404`.
pub fn c_404() -> (r: String)
    ensures
        r@ == "404"@,
{
    String::from_str("404")
}

/// Default maximum cache size: 512 MiB.
pub fn c_max_cache_size() -> (r: usize)
    ensures
        r == 536870912,
{
    536870912
}

/// Default scene list: just the default scene.
pub fn c_emptyscenelist() -> (r: Vec<Scene>)
    ensures
        r@.len() == 1,
        r@[0].name@ == "default"@,
        is_default_scene(r@[0]),
{
    let mut v: Vec<Scene> = Vec::new();
    v.push(Scene::default());
    v
}

/// The default logging settings: file level 3, terminal level 2, file
/// `cynthia.log`.
pub open spec fn is_default_logging(o: Option<Logging>) -> bool {
    match o {
        Some(l) => {
            &&& l.file_loglevel == Some(3u16)
            &&& l.term_loglevel == Some(2u16)
            &&& l.logfile is Some
            &&& l.logfile->0@ == "cynthia.log"@
        },
        None => false,
    }
}

/// Default logging: file level 3, terminal level 2, file `cynthia.log`.
pub fn c_logs() -> (r: Option<Logging>)
    ensures
        is_default_logging(r),
{
    Some(
        Logging {
            file_loglevel: Some(3),
            term_loglevel: Some(2),
            logfile: Some(String::from_str("cynthia.log")),
        },
    )
}

/// Default plugin list: the disabled `test` plugin.
pub fn c_plugins() -> (r: Vec<Plugin>)
    ensures
        r@.len() == 1,
        r@[0] matches Plugin::JsPlugin { plugin_name, plugin_enabled } && plugin_name@
            == "test"@ && !plugin_enabled,
{
    let mut v: Vec<Plugin> = Vec::new();
    v.push(Plugin::JsPlugin { plugin_name: String::from_str("test"), plugin_enabled: false });
    v
}

/// The default lifetimes: stylesheets 72000, javascript 1200, forwarded and
/// assets 1600, served 50.
pub open spec fn default_lifetimes() -> Lifetimes {
    Lifetimes { stylesheets: 72000, javascript: 1200, forwarded: 1600, assets: 1600, served: 50 }
}

impl Lifetimes {
    /// Default lifetimes: stylesheets 72000, javascript 1200, forwarded and
    /// assets 1600, served 50.
    pub fn default() -> (r: Lifetimes)
        ensures
            r.stylesheets == 72000,
            r.javascript == 1200,
            r.forwarded == 1600,
            r.assets == 1600,
            r.served == 50,
    {
        Lifetimes {
            stylesheets: c_cache_lifetime_stylesheets(),
            javascript: c_cache_lifetime_js(),
            forwarded: c_cache_lifetime_external(),
            served: c_cache_lifetime_served(),
            assets: c_cache_lifetime_external(),
        }
    }
}

/// Cache settings used when the configuration has no cache section: default
/// lifetimes and a 512 MiB limit.
pub fn c_cache() -> (r: Cache)
    ensures
        r.lifetimes == default_lifetimes(),
        r.max_cache_size == 536870912,
{
    Cache { max_cache_size: c_max_cache_size(), lifetimes: Lifetimes::default() }
}

impl Cache {
    /// Cache settings of a default configuration: default lifetimes and the
    /// default size limit of 512 MiB.
    pub fn default() -> (r: Cache)
        ensures
            r.lifetimes == default_lifetimes(),
            r.max_cache_size == 536870912,
    {
        Cache { lifetimes: Lifetimes::default(), max_cache_size: c_max_cache_size() }
    }
}

impl Site {
    /// Site settings of a default configuration: all texts empty, tags off.
    pub fn default() -> (r: Site)
        ensures
            r.notfound_page@ == Seq::<char>::empty(),
            r.site_baseurl@ == Seq::<char>::empty(),
            r.og_sitename@ == Seq::<char>::empty(),
            !r.meta.enable_tags,
    {
        Site {
            notfound_page: String::new(),
            site_baseurl: String::new(),
            og_sitename: String::new(),
            meta: Meta { enable_tags: false },
        }
    }
}

/// Names under which an external JavaScript runtime is looked for, in order
/// of preference.
pub fn js_runtime_candidates() -> (r: Vec<String>)
    ensures
        r@.len() == 3,
        r@[0]@ == "bun"@,
        r@[1]@ == "deno"@,
        r@[2]@ == "node"@,
{
    let mut v: Vec<String> = Vec::new();
    v.push(String::from_str("bun"));
    v.push(String::from_str("deno"));
    v.push(String::from_str("node"));
    v
}

/// Index of the first candidate that answered, if any.
pub open spec fn first_working(works: Seq<bool>) -> Option<int>
    decreases works.len(),
{
    if works.len() == 0 {
        None
    } else if works[0] {
        Some(0)
    } else {
        match first_working(works.skip(1)) {
            Some(i) => Some(i + 1),
            None => None,
        }
    }
}

pub(crate) proof fn lemma_first_working(works: Seq<bool>, i: int)
    requires
        0 <= i < works.len(),
        forall|j: int| 0 <= j < i ==> !works[j],
    ensures
        works[i] ==> first_working(works) == Some(i),
        first_working(works) matches Some(k) ==> i <= k < works.len() && works[k],
    decreases i,
{
    if i > 0 {
        lemma_first_working(works.skip(1), i - 1);
    } else if works.len() > 0 {
        lemma_first_working_bounds(works);
    }
}

pub(crate) proof fn lemma_first_working_bounds(works: Seq<bool>)
    ensures
        first_working(works) matches Some(k) ==> 0 <= k < works.len() && works[k],
        first_working(works) is None ==> forall|j: int| 0 <= j < works.len() ==> !works[j],
    decreases works.len(),
{
    if works.len() > 0 {
        lemma_first_working_bounds(works.skip(1));
        assert forall|j: int| 1 <= j < works.len() implies works.skip(1)[j - 1] == works[j] by {}
    }
}

/// The runtime to use: the first candidate that answered when probed, or
/// `disabled` when none did.
pub fn choose_js_runtime(candidates: &Vec<String>, works: &Vec<bool>) -> (r: String)
    requires
        candidates@.len() == works@.len(),
    ensures
        first_working(works@) matches Some(i) ==> r@ == candidates@[i]@,
        first_working(works@) is None ==> r@ == "disabled"@,
{
    let mut i: usize = 0;
    while i < works.len()
        invariant
            candidates@.len() == works@.len(),
            i <= works@.len(),
            forall|j: int| 0 <= j < i ==> !works@[j],
        decreases works@.len() - i,
    {
        if works[i] {
            proof {
                lemma_first_working(works@, i as int);
            }
            return candidates[i].clone();
        }
        i = i + 1;
    }
    proof {
        lemma_first_working_bounds(works@);
    }
    String::from_str("disabled")
}

/// Whether a configured runtime passes validation: `disabled` always does
/// (nothing is run); any other passes exactly when running it with `-v`
/// succeeded (`probe` is `None` when it could not be run at all).
pub fn validate_js_runtime(rt: &str, probe: Option<bool>) -> (r: Result<(), ()>)
    ensures
        rt@ == "disabled"@ ==> r is Ok,
        rt@ != "disabled"@ ==> (r is Ok <==> probe == Some(true)),
{
    if str_eq(rt, "disabled") {
        return Ok(());
    }
    match probe {
        Some(true) => Ok(()),
        _ => Err(()),
    }
}

/// Whether validating `rt` needs the runtime to be run at all.
pub fn js_runtime_needs_probe(rt: &str) -> (r: bool)
    ensures
        r == (rt@ != "disabled"@),
{
    !str_eq(rt, "disabled")
}

impl CynthiaConf {
    /// A default configuration around the given runtime settings: port 3000,
    /// default cache, site, logging, scenes and plugins.
    pub fn default_with_runtimes(runtimes: Runtimes) -> (r: CynthiaConf)
        ensures
            r.port == 3000,
            r.cache.max_cache_size == 536870912,
            r.cache.lifetimes == default_lifetimes(),
            r.site.notfound_page@ == Seq::<char>::empty(),
            r.site.site_baseurl@ == Seq::<char>::empty(),
            r.site.og_sitename@ == Seq::<char>::empty(),
            !r.site.meta.enable_tags,
            is_default_logging(r.logs),
            r.runtimes == runtimes,
            r.scenes@.len() == 1 && r.scenes@[0].name@ == "default"@,
            is_default_scene(r.scenes@[0]),
            r.plugins@.len() == 1,
            r.plugins@[0] matches Plugin::JsPlugin { plugin_name, plugin_enabled } && plugin_name@
                == "test"@ && !plugin_enabled,
    {
        CynthiaConf {
            port: c_port(),
            cache: Cache::default(),
            site: Site::default(),
            logs: c_logs(),
            scenes: c_emptyscenelist(),
            runtimes,
            plugins: c_plugins(),
        }
    }

    /// A second handle on this configuration.
    pub fn clone(&self) -> (r: CynthiaConfClone)
        ensures
            r.port == self.port,
            r.cache == self.cache,
            r.site == self.site,
            r.logs == self.logs,
            r.scenes@ == self.scenes@,
            r.runtimes == self.runtimes,
            r.plugins@ == self.plugins@,
    {
        CynthiaConfClone {
            port: self.port,
            cache: self.cache.copy(),
            site: self.site.copy(),
            logs: copy_opt_logging(&self.logs),
            scenes: copy_scenes(&self.scenes),
            runtimes: self.runtimes.copy(),
            plugins: copy_plugins(&self.plugins),
        }
    }
}

/// The configuration that the interactive initialiser starts from: a
/// default configuration whose site name is `site_name`, with a single
/// default scene that carries that name.
pub fn initial_config(runtimes: Runtimes, site_name: &str) -> (r: CynthiaConf)
    ensures
        r.port == 3000,
        r.site.og_sitename@ == site_name@,
        r.site.notfound_page@ == Seq::<char>::empty(),
        r.site.site_baseurl@ == Seq::<char>::empty(),
        !r.site.meta.enable_tags,
        r.scenes@.len() == 1,
        r.scenes@[0].name@ == "default"@,
        r.scenes@[0].sitename matches Some(s) && s@ == site_name@,
        r.runtimes == runtimes,
        r.cache.max_cache_size == 536870912,
        r.cache.lifetimes == default_lifetimes(),
        is_default_logging(r.logs),
        r.scenes@[0].stylefile matches Some(f) && f@ == "/styles/default.css"@,
        r.scenes@[0].script matches Some(f) && f@ == "/scripts/client.js"@,
        r.scenes@[0].templates.post@ == "../default"@,
        r.scenes@[0].templates.page@ == "../default"@,
        r.scenes@[0].templates.postlist@ == "default"@,
        r.plugins@.len() == 1,
        r.plugins@[0] matches Plugin::JsPlugin { plugin_name, plugin_enabled } && plugin_name@
            == "test"@ && !plugin_enabled,
{
    let mut c = CynthiaConf::default_with_runtimes(runtimes);
    c.site.og_sitename = site_name.to_owned();
    let mut scene = Scene::default();
    scene.sitename = Some(site_name.to_owned());
    let mut v: Vec<Scene> = Vec::new();
    v.push(scene);
    c.scenes = v;
    c
}

/// Copies between the two handles on a configuration.
pub trait CynthiaConfig {
    fn hard_clone(&self) -> CynthiaConf;

    fn clone(&self) -> CynthiaConfClone;
}

impl CynthiaConfig for CynthiaConfClone {
    /// An owned configuration with the same settings.
    fn hard_clone(&self) -> (r: CynthiaConf)
        ensures
            r.port == self.port,
            r.cache == self.cache,
            r.site == self.site,
            r.logs == self.logs,
            r.scenes@ == self.scenes@,
            r.runtimes == self.runtimes,
            r.plugins@ == self.plugins@,
    {
        CynthiaConf {
            port: self.port,
            cache: self.cache.copy(),
            site: self.site.copy(),
            logs: copy_opt_logging(&self.logs),
            scenes: copy_scenes(&self.scenes),
            runtimes: self.runtimes.copy(),
            plugins: copy_plugins(&self.plugins),
        }
    }

    /// Another handle with the same settings.
    fn clone(&self) -> (r: CynthiaConfClone)
        ensures
            r.port == self.port,
            r.cache == self.cache,
            r.site == self.site,
            r.logs == self.logs,
            r.scenes@ == self.scenes@,
            r.runtimes == self.runtimes,
            r.plugins@ == self.plugins@,
    {
        CynthiaConfClone {
            port: self.port,
            cache: self.cache.copy(),
            site: self.site.copy(),
            logs: copy_opt_logging(&self.logs),
            scenes: copy_scenes(&self.scenes),
            runtimes: self.runtimes.copy(),
            plugins: copy_plugins(&self.plugins),
        }
    }
}

impl CynthiaConfig for CynthiaConf {
    /// An owned copy of this configuration.
    fn hard_clone(&self) -> (r: CynthiaConf)
        ensures
            r.port == self.port,
            r.cache == self.cache,
            r.site == self.site,
            r.logs == self.logs,
            r.scenes@ == self.scenes@,
            r.runtimes == self.runtimes,
            r.plugins@ == self.plugins@,
    {
        CynthiaConf {
            port: self.port,
            cache: self.cache.copy(),
            site: self.site.copy(),
            logs: copy_opt_logging(&self.logs),
            scenes: copy_scenes(&self.scenes),
            runtimes: self.runtimes.copy(),
            plugins: copy_plugins(&self.plugins),
        }
    }

    /// A second handle on this configuration.
    fn clone(&self) -> (r: CynthiaConfClone)
        ensures
            r.port == self.port,
            r.cache == self.cache,
            r.site == self.site,
            r.logs == self.logs,
            r.scenes@ == self.scenes@,
            r.runtimes == self.runtimes,
            r.plugins@ == self.plugins@,
    {
        CynthiaConf::clone(self)
    }
}

/// Two configurations hold the same settings.
pub open spec fn same_settings(a: CynthiaConf, b: CynthiaConf) -> bool {
    &&& a.port == b.port
    &&& a.cache == b.cache
    &&& a.site == b.site
    &&& a.logs == b.logs
    &&& a.scenes@ == b.scenes@
    &&& a.runtimes == b.runtimes
    &&& a.plugins@ == b.plugins@
}

/// Taking a second handle on a configuration and an owned copy back from it
/// gives the same settings.
pub proof fn law_clone_round_trip(conf: CynthiaConf, handle: CynthiaConfClone, back: CynthiaConf)
    requires
        handle.port == conf.port,
        handle.cache == conf.cache,
        handle.site == conf.site,
        handle.logs == conf.logs,
        handle.scenes@ == conf.scenes@,
        handle.runtimes == conf.runtimes,
        handle.plugins@ == conf.plugins@,
        back.port == handle.port,
        back.cache == handle.cache,
        back.site == handle.site,
        back.logs == handle.logs,
        back.scenes@ == handle.scenes@,
        back.runtimes == handle.runtimes,
        back.plugins@ == handle.plugins@,
    ensures
        same_settings(conf, back),
{
}

} // verus!

//! Where the configuration file lives, and how the configuration is written
//! out in each of its languages (JavaScript, Dhall, TOML, JSONC) with a
//! comment above each setting.

use vstd::prelude::*;
use vstd::string::*;
use crate::text::{concat2, concat3, str_eq, replace_str, replace_all, contains, str_contains};
use crate::config::first_working;
use crate::startup::ascii_lower;
use crate::tell::{colored, CynthiaColors};

verus! {

/// A language a configuration file can be written in.
#[derive(PartialEq, Eq, Structural, Clone, Copy, Debug)]
pub enum ConfigFormat {
    Js,
    Dhall,
    Toml,
    JsonC,
}

/// The configuration file found, with its path.
pub enum ConfigLocations {
    Js(String),
    Dhall(String),
    Toml(String),
    JsonC(String),
}

impl ConfigLocations {
    /// The language of the file.
    pub open spec fn format_spec(&self) -> ConfigFormat {
        match self {
            ConfigLocations::Js(_) => ConfigFormat::Js,
            ConfigLocations::Dhall(_) => ConfigFormat::Dhall,
            ConfigLocations::Toml(_) => ConfigFormat::Toml,
            ConfigLocations::JsonC(_) => ConfigFormat::JsonC,
        }
    }

    /// The path of the file.
    pub open spec fn path_spec(&self) -> Seq<char> {
        match self {
            ConfigLocations::Js(p) => p@,
            ConfigLocations::Dhall(p) => p@,
            ConfigLocations::Toml(p) => p@,
            ConfigLocations::JsonC(p) => p@,
        }
    }

    /// A location of the given language at `path`.
    pub fn at(format: ConfigFormat, path: String) -> (r: ConfigLocations)
        ensures
            r.format_spec() == format,
            r.path_spec() == path@,
    {
        match format {
            ConfigFormat::Js => ConfigLocations::Js(path),
            ConfigFormat::Dhall => ConfigLocations::Dhall(path),
            ConfigFormat::Toml => ConfigLocations::Toml(path),
            ConfigFormat::JsonC => ConfigLocations::JsonC(path),
        }
    }

    /// The language of the file.
    pub fn format(&self) -> (r: ConfigFormat)
        ensures
            r == self.format_spec(),
    {
        match self {
            ConfigLocations::Js(_) => ConfigFormat::Js,
            ConfigLocations::Dhall(_) => ConfigFormat::Dhall,
            ConfigLocations::Toml(_) => ConfigFormat::Toml,
            ConfigLocations::JsonC(_) => ConfigFormat::JsonC,
        }
    }

    /// The path of the file.
    pub fn path(&self) -> (r: &str)
        ensures
            r@ == self.path_spec(),
    {
        match self {
            ConfigLocations::Js(p) => p.as_str(),
            ConfigLocations::Dhall(p) => p.as_str(),
            ConfigLocations::Toml(p) => p.as_str(),
            ConfigLocations::JsonC(p) => p.as_str(),
        }
    }

    /// A copy of the location.
    pub fn clone(&self) -> (r: ConfigLocations)
        ensures
            r.format_spec() == self.format_spec(),
            r.path_spec() == self.path_spec(),
    {
        match self {
            ConfigLocations::Js(p) => ConfigLocations::Js(p.clone()),
            ConfigLocations::Dhall(p) => ConfigLocations::Dhall(p.clone()),
            ConfigLocations::Toml(p) => ConfigLocations::Toml(p.clone()),
            ConfigLocations::JsonC(p) => ConfigLocations::JsonC(p.clone()),
        }
    }
}

/// The languages in the order of preference in which their files are
/// looked for.
pub open spec fn formats_in_order() -> Seq<ConfigFormat> {
    seq![ConfigFormat::Js, ConfigFormat::Dhall, ConfigFormat::Toml, ConfigFormat::JsonC]
}

/// The languages in the order of preference in which their files are
/// looked for: JavaScript, Dhall, TOML, JSONC.
pub fn config_formats() -> (r: Vec<ConfigFormat>)
    ensures
        r@ == formats_in_order(),
{
    let r = vec![ConfigFormat::Js, ConfigFormat::Dhall, ConfigFormat::Toml, ConfigFormat::JsonC];
    assert(r@ =~= formats_in_order());
    r
}

/// The short name of a language, as given on the command line.
pub open spec fn format_name_spec(f: ConfigFormat) -> Seq<char> {
    match f {
        ConfigFormat::Js => "js"@,
        ConfigFormat::Dhall => "dhall"@,
        ConfigFormat::Toml => "toml"@,
        ConfigFormat::JsonC => "jsonc"@,
    }
}

/// The short name of a language.
pub fn format_name(f: ConfigFormat) -> (r: &'static str)
    ensures
        r@ == format_name_spec(f),
{
    match f {
        ConfigFormat::Js => "js",
        ConfigFormat::Dhall => "dhall",
        ConfigFormat::Toml => "toml",
        ConfigFormat::JsonC => "jsonc",
    }
}

/// The name of the configuration file in a language.
pub open spec fn config_file_name_spec(f: ConfigFormat) -> Seq<char> {
    match f {
        ConfigFormat::Js => "CynthiaConfig.js"@,
        ConfigFormat::Dhall => "Cynthia.dhall"@,
        ConfigFormat::Toml => "Cynthia.toml"@,
        ConfigFormat::JsonC => "Cynthia.jsonc"@,
    }
}

/// The name of the configuration file in a language (also the file a
/// conversion to that language writes).
pub fn config_file_name(f: ConfigFormat) -> (r: &'static str)
    ensures
        r@ == config_file_name_spec(f),
{
    match f {
        ConfigFormat::Js => "CynthiaConfig.js",
        ConfigFormat::Dhall => "Cynthia.dhall",
        ConfigFormat::Toml => "Cynthia.toml",
        ConfigFormat::JsonC => "Cynthia.jsonc",
    }
}

/// Picks the configuration file: of the candidate paths (one per language,
/// in the order of `config_formats`), the first that exists.
pub fn choose_config_location_option(paths: &Vec<String>, exists: &Vec<bool>) -> (r: Option<
    ConfigLocations,
>)
    requires
        paths@.len() == 4,
        exists@.len() == 4,
    ensures
        match first_working(exists@) {
            Some(i) => r matches Some(l) && l.format_spec() == formats_in_order()[i]
                && l.path_spec() == paths@[i]@,
            None => r is None,
        },
{
    let formats = config_formats();
    let mut i: usize = 0;
    while i < 4
        invariant
            i <= 4,
            exists@.len() == 4,
            paths@.len() == 4,
            formats@ == formats_in_order(),
            forall|j: int| 0 <= j < i ==> !exists@[j],
        decreases 4 - i,
    {
        if exists[i] {
            proof {
                crate::config::lemma_first_working(exists@, i as int);
            }
            return Some(ConfigLocations::at(formats[i], paths[i].clone()));
        }
        i = i + 1;
    }
    proof {
        crate::config::lemma_first_working_bounds(exists@);
    }
    None
}

/// Lower-case form of a string (`str::to_lowercase`), named, not stated.
pub uninterp spec fn lowercase(s: Seq<char>) -> Seq<char>;

/// Lower-cases a string with `str::to_lowercase`; the result is named
/// `lowercase` of the input. On ASCII text the Unicode lower-case mapping
/// turns `A` to `Z` into `a` to `z` and keeps every other character.
#[verifier::external_body]
pub(crate) fn to_lower(s: &str) -> (r: String)
    ensures
        r@ == lowercase(s@),
        (forall|i: int| 0 <= i < s@.len() ==> #[trigger] (s@[i] as u32) < 128) ==> r@
            == ascii_lower(s@),
{
    s.to_lowercase()
}

/// The language name asked for, lower-cased, with `javascript` shortened to
/// `js`.
pub open spec fn normalized_format(to: Seq<char>) -> Seq<char> {
    if lowercase(to) == "js"@ || lowercase(to) == "javascript"@ {
        "js"@
    } else {
        lowercase(to)
    }
}

/// The language name asked for, lower-cased, with `javascript` shortened to
/// `js`.
pub fn normalize_format(to_ex: &str) -> (r: String)
    ensures
        r@ == normalized_format(to_ex@),
{
    let l = to_lower(to_ex);
    if str_eq(l.as_str(), "js") || str_eq(l.as_str(), "javascript") {
        String::from_str("js")
    } else {
        l
    }
}

/// The language a (normalised) name stands for.
pub open spec fn parsed_format(to: Seq<char>) -> Option<ConfigFormat> {
    if to == "js"@ || to == "javascript"@ {
        Some(ConfigFormat::Js)
    } else if to == "dhall"@ {
        Some(ConfigFormat::Dhall)
    } else if to == "toml"@ {
        Some(ConfigFormat::Toml)
    } else if to == "jsonc"@ {
        Some(ConfigFormat::JsonC)
    } else {
        None
    }
}

/// Each language is read back from its short name, `javascript` also
/// names JavaScript, and a name reads as a language only when it is that
/// language's short name (or `javascript`): so two languages never share a
/// name.
pub proof fn law_format_names(f: ConfigFormat, name: Seq<char>)
    ensures
        parsed_format(format_name_spec(f)) == Some(f),
        parsed_format("javascript"@) == Some(ConfigFormat::Js),
        parsed_format(name) == Some(f) ==> name == format_name_spec(f) || (f == ConfigFormat::Js
            && name == "javascript"@),
        forall|g: ConfigFormat| #[trigger] format_name_spec(g) == format_name_spec(f) ==> g == f,
{
    reveal_strlit("js");
    reveal_strlit("javascript");
    reveal_strlit("dhall");
    reveal_strlit("toml");
    reveal_strlit("jsonc");
    assert("js"@.len() == 2 && "javascript"@.len() == 10 && "dhall"@.len() == 5 && "toml"@.len() == 4
        && "jsonc"@.len() == 5);
    assert("dhall"@[0] != "jsonc"@[0]);
}

/// The language a (normalised) name stands for.
pub fn parse_format(to: &str) -> (r: Option<ConfigFormat>)
    ensures
        r == parsed_format(to@),
{
    if str_eq(to, "js") || str_eq(to, "javascript") {
        Some(ConfigFormat::Js)
    } else if str_eq(to, "dhall") {
        Some(ConfigFormat::Dhall)
    } else if str_eq(to, "toml") {
        Some(ConfigFormat::Toml)
    } else if str_eq(to, "jsonc") {
        Some(ConfigFormat::JsonC)
    } else {
        None
    }
}

/// Why a conversion of the configuration cannot be made.
pub enum ConvertError {
    /// The configuration is already in this language.
    SameFormat(ConfigFormat),
    /// The language asked for (normalised) is not known.
    UnknownFormat(String),
}

/// The message of a refused conversion.
pub open spec fn convert_error_message(e: ConvertError) -> Seq<char> {
    match e {
        ConvertError::SameFormat(ConfigFormat::Js) => "You are trying to convert a JavaScript configuration to JavaScript. This is not possible."@,
        ConvertError::SameFormat(ConfigFormat::Dhall) => "You are trying to convert a Dhall configuration to Dhall. This is not possible."@,
        ConvertError::SameFormat(ConfigFormat::Toml) => "You are trying to convert a TOML configuration to TOML. This is not possible."@,
        ConvertError::SameFormat(ConfigFormat::JsonC) => "You are trying to convert a JSONC configuration to JSONC. This is not possible."@,
        ConvertError::UnknownFormat(to) => "Could not interpret format `"@ + to@ + "`! Please use `jsonc`, `dhall` or `toml`."@,
    }
}

impl ConvertError {
    /// The message of a refused conversion.
    pub fn message(&self) -> (r: String)
        ensures
            r@ == convert_error_message(*self),
    {
        match self {
            ConvertError::SameFormat(ConfigFormat::Js) => String::from_str("You are trying to convert a JavaScript configuration to JavaScript. This is not possible."),
            ConvertError::SameFormat(ConfigFormat::Dhall) => String::from_str("You are trying to convert a Dhall configuration to Dhall. This is not possible."),
            ConvertError::SameFormat(ConfigFormat::Toml) => String::from_str("You are trying to convert a TOML configuration to TOML. This is not possible."),
            ConvertError::SameFormat(ConfigFormat::JsonC) => String::from_str("You are trying to convert a JSONC configuration to JSONC. This is not possible."),
            ConvertError::UnknownFormat(to) => concat3("Could not interpret format `", to.as_str(), "`! Please use `jsonc`, `dhall` or `toml`."),
        }
    }

    /// The line printed for a refused conversion: a red `error:` and the
    /// message.
    pub fn error_line(&self) -> (r: String)
        ensures
            r@ == colored(255, 0, 0, "error:"@) + " "@ + convert_error_message(*self),
    {
        let tag = "error:".color_red();
        let m = self.message();
        concat3(tag.as_str(), " ", m.as_str())
    }
}

/// The language a conversion writes, asked for as `to_ex`, from a
/// configuration currently in `current` (if any file was found): refused
/// when it is the current language or not a known one.
pub fn target_format(current: Option<ConfigFormat>, to_ex: &str) -> (r: Result<ConfigFormat, ConvertError>)
    ensures
        ({
            let to = normalized_format(to_ex@);
            if current is Some && to == format_name_spec(current.unwrap()) {
                r == Err::<ConfigFormat, ConvertError>(ConvertError::SameFormat(current.unwrap()))
            } else {
                match parsed_format(to) {
                    Some(f) => r == Ok::<ConfigFormat, ConvertError>(f),
                    None => r matches Err(ConvertError::UnknownFormat(n)) && n@ == to,
                }
            }
        }),
{
    let to = normalize_format(to_ex);
    match current {
        Some(f) => {
            if str_eq(to.as_str(), format_name(f)) {
                return Err(ConvertError::SameFormat(f));
            }
        },
        None => {},
    }
    match parse_format(to.as_str()) {
        Some(f) => Ok(f),
        None => Err(ConvertError::UnknownFormat(to)),
    }
}

/// The comments written above the settings: the setting's name, the
/// comment, and the setting's path in the configuration.
pub open spec fn comment_table() -> Seq<(&'static str, &'static str, &'static str)> {
    seq![
        ("port", "The port on which Cynthia hosts, since Cynthia was designed to be reverse-proxied, this port is usually higher than 1000.", "port"),
        ("cache", "The cache configuration for Cynthia.", "cache"),
        ("lifetimes", "These rules are set for a reason: The higher they are set, the less requests we have to do to Node, external servers, etc.\nHigher caching might consume a lot of memory or storage and crash the system.\nCaching can speed up Cynthia a whole lot, so think wisely before you change any of these numbers!", "cache.lifetimes"),
        ("stylesheets", "How long (in seconds) to cache a CSS file after having minified and served it.", "cache.lifetimes.stylesheets"),
        ("javascript", "How long (in seconds) to cache a JS file after having minified and served it.", "cache.lifetimes.javascript"),
        ("forwarded", "How long (in seconds) to cache an external output after having used it.", "cache.lifetimes.forwarded"),
        ("served", "How long should a fully-ready-to-be-served page be cached?", "cache.lifetimes.served"),
        ("runtimes", "These are the runtimes that Cynthia uses to run its scripts.\nTo run Cynthia with selected runtimes, point them to the correct binaries.", "runtimes"),
        ("ext_js_rt", "The path to the external JS runtime binary, used for running JavaScript code. Recommended runtime to use is Bun. Also see <https://bun.sh/>.", "runtimes.ext_js_rt"),
        ("site", "The site configuration for Cynthia. This is used to generate the site itself. And set things like metatags, etc.", "site"),
        ("notfound_page", "The id of a 404 page, which is then served when a page is not found.", "site.notfound_page"),
        ("meta", "Meta settings for generation, not setting 'how', but 'what' to generate.", "site.meta"),
        ("enable_tags", "Enables or disables pagetags in HTML metatags,\nthese are officially supposed to be good for\nfinding a website, but have been known to\nget nerfed by Google, considering them spam.", "site.meta.enable_tags"),
        ("enable_search", "Whether to enable search or not. If enabled, search will be used to generate pages.", "site.meta.enable_search"),
        ("enable_sitemap", "Whether to enable sitemap or not. If enabled, sitemap will be used to generate pages.", "site.meta.enable_sitemap"),
        ("enable_rss", "Whether to enable RSS or not. If enabled, RSS will be used to generate pages.", "site.meta.enable_rss"),
        ("enable_atom", "Whether to enable Atom or not. If enabled, Atom will be used to generate pages.", "site.meta.enable_atom"),
        ("site_baseurl", "The base URL of the site, used for generating links.", "site.site_baseurl"),
        ("og_sitename", "Site name for the site, this is different than the site name set in scenes, as it is mostly used for embeds, and so get's cached on url.", "site.og_sitename"),
        ("logs", "The log configuration for Cynthia.", "logs"),
        ("term_loglevel", "The minimum level of importance (1-5) before Cynthia logs to the terminal.", "logs.term_loglevel"),
        ("file_loglevel", "The minimum level of importance (1-5) before Cynthia logs to a file.", "logs.file_loglevel"),
        ("log_file", "The file Cynthia logs to.", "logs.log_file"),
        ("scenes", "Scenes allow Cynthia to switch it's behaviour and themes completely for certain pages.", "scenes"),
        ("name", "The id of the scene, used for linking. Set to `default` for the default scene.", "scenes.name"),
        ("sitename", "The name Cynthia uses for presenting the site when using this scene.", "scenes.sitename"),
        ("script", "(Optional) A script that is served on pages using this scene.", "scenes.script"),
        ("stylefile", "(Optional) A CSS file that is served on pages using this scene.", "scenes.stylefile"),
        ("templates", "The template of the scene, used for display.", "scenes.templates"),
        ("page", "The handlebars template for serving pages using this sceme", "scenes.templates.page"),
        ("post", "The handlebars template for serving posts using this sceme", "scenes.templates.post"),
        ("postlist", "The handlebars template for serving postlist pages using this sceme", "scenes.templates.postlist")
    ]
}

/// The comments written above the settings.
pub fn comments() -> (r: Vec<(&'static str, &'static str, &'static str)>)
    ensures
        r@ == comment_table(),
{
    let r = vec![
        ("port", "The port on which Cynthia hosts, since Cynthia was designed to be reverse-proxied, this port is usually higher than 1000.", "port"),
        ("cache", "The cache configuration for Cynthia.", "cache"),
        ("lifetimes", "These rules are set for a reason: The higher they are set, the less requests we have to do to Node, external servers, etc.\nHigher caching might consume a lot of memory or storage and crash the system.\nCaching can speed up Cynthia a whole lot, so think wisely before you change any of these numbers!", "cache.lifetimes"),
        ("stylesheets", "How long (in seconds) to cache a CSS file after having minified and served it.", "cache.lifetimes.stylesheets"),
        ("javascript", "How long (in seconds) to cache a JS file after having minified and served it.", "cache.lifetimes.javascript"),
        ("forwarded", "How long (in seconds) to cache an external output after having used it.", "cache.lifetimes.forwarded"),
        ("served", "How long should a fully-ready-to-be-served page be cached?", "cache.lifetimes.served"),
        ("runtimes", "These are the runtimes that Cynthia uses to run its scripts.\nTo run Cynthia with selected runtimes, point them to the correct binaries.", "runtimes"),
        ("ext_js_rt", "The path to the external JS runtime binary, used for running JavaScript code. Recommended runtime to use is Bun. Also see <https://bun.sh/>.", "runtimes.ext_js_rt"),
        ("site", "The site configuration for Cynthia. This is used to generate the site itself. And set things like metatags, etc.", "site"),
        ("notfound_page", "The id of a 404 page, which is then served when a page is not found.", "site.notfound_page"),
        ("meta", "Meta settings for generation, not setting 'how', but 'what' to generate.", "site.meta"),
        ("enable_tags", "Enables or disables pagetags in HTML metatags,\nthese are officially supposed to be good for\nfinding a website, but have been known to\nget nerfed by Google, considering them spam.", "site.meta.enable_tags"),
        ("enable_search", "Whether to enable search or not. If enabled, search will be used to generate pages.", "site.meta.enable_search"),
        ("enable_sitemap", "Whether to enable sitemap or not. If enabled, sitemap will be used to generate pages.", "site.meta.enable_sitemap"),
        ("enable_rss", "Whether to enable RSS or not. If enabled, RSS will be used to generate pages.", "site.meta.enable_rss"),
        ("enable_atom", "Whether to enable Atom or not. If enabled, Atom will be used to generate pages.", "site.meta.enable_atom"),
        ("site_baseurl", "The base URL of the site, used for generating links.", "site.site_baseurl"),
        ("og_sitename", "Site name for the site, this is different than the site name set in scenes, as it is mostly used for embeds, and so get's cached on url.", "site.og_sitename"),
        ("logs", "The log configuration for Cynthia.", "logs"),
        ("term_loglevel", "The minimum level of importance (1-5) before Cynthia logs to the terminal.", "logs.term_loglevel"),
        ("file_loglevel", "The minimum level of importance (1-5) before Cynthia logs to a file.", "logs.file_loglevel"),
        ("log_file", "The file Cynthia logs to.", "logs.log_file"),
        ("scenes", "Scenes allow Cynthia to switch it's behaviour and themes completely for certain pages.", "scenes"),
        ("name", "The id of the scene, used for linking. Set to `default` for the default scene.", "scenes.name"),
        ("sitename", "The name Cynthia uses for presenting the site when using this scene.", "scenes.sitename"),
        ("script", "(Optional) A script that is served on pages using this scene.", "scenes.script"),
        ("stylefile", "(Optional) A CSS file that is served on pages using this scene.", "scenes.stylefile"),
        ("templates", "The template of the scene, used for display.", "scenes.templates"),
        ("page", "The handlebars template for serving pages using this sceme", "scenes.templates.page"),
        ("post", "The handlebars template for serving posts using this sceme", "scenes.templates.post"),
        ("postlist", "The handlebars template for serving postlist pages using this sceme", "scenes.templates.postlist")
    ];
    assert(r@ =~= comment_table());
    r
}

/// The last entry of a table whose setting path is `item`.
pub open spec fn last_comment(t: Seq<(&'static str, &'static str, &'static str)>, item: Seq<char>) -> Option<int>
    decreases t.len(),
{
    if t.len() == 0 {
        None
    } else if t.last().2@ == item {
        Some(t.len() - 1)
    } else {
        last_comment(t.drop_last(), item)
    }
}

proof fn lemma_last_comment_bounds(t: Seq<(&'static str, &'static str, &'static str)>, item: Seq<char>)
    ensures
        last_comment(t, item) matches Some(i) ==> 0 <= i < t.len() && t[i].2@ == item,
    decreases t.len(),
{
    if t.len() > 0 && t.last().2@ != item {
        lemma_last_comment_bounds(t.drop_last(), item);
    }
}

/// The comment syntax of a configuration language.
#[derive(PartialEq, Eq, Structural, Clone, Copy, Debug)]
pub enum CommentStyle {
    /// `//` and `/* */`, keys in double quotes followed by `:`.
    Json,
    /// `--` and `{- -}`, keys followed by ` =`.
    Dhall,
    /// `#`, keys followed by ` = `.
    Toml,
}

/// The commented key that stands in place of the key of the setting at path
/// `item`: its comment above it (a block comment for a comment of several
/// lines; TOML prefixes each line), or a reminder to write one.
pub open spec fn commented(style: CommentStyle, item: Seq<char>) -> Seq<char> {
    match last_comment(comment_table(), item) {
        Some(i) => {
            let x = comment_table()[i].0@;
            let y = comment_table()[i].1@;
            match style {
                CommentStyle::Json => if contains(y, "\n"@) {
                    "/*\n"@ + y + "\n*/\n\""@ + x + "\":"@
                } else {
                    "// "@ + y + "\n\""@ + x + "\":"@
                },
                CommentStyle::Dhall => if contains(y, "\n"@) {
                    "{-\n"@ + y + "\n-}\n "@ + x + " ="@
                } else {
                    "-- "@ + y + "\n  "@ + x + " ="@
                },
                CommentStyle::Toml => if contains(y, "\n"@) {
                    "# "@ + replace_all(y, "\n"@, "\n# "@) + "\n"@ + x + " = "@
                } else {
                    "# "@ + y + "\n"@ + x + " = "@
                },
            }
        },
        None => match style {
            CommentStyle::Json => "// todo: Comment this:\n\""@ + item + "\":"@,
            CommentStyle::Dhall => "-- todo: Comment this:\n  "@ + item + " ="@,
            CommentStyle::Toml => "# todo: Comment this:\n"@ + item + " = "@,
        },
    }
}

/// The commented key for the setting at path `item`; see `commented`.
pub fn comment_this(style: CommentStyle, item: &str) -> (r: String)
    ensures
        r@ == commented(style, item@),
{
    let table = comments();
    let mut found: Option<usize> = None;
    let mut k: usize = 0;
    while k < table.len()
        invariant
            table@ == comment_table(),
            k <= table@.len(),
            match last_comment(table@.take(k as int), item@) {
                Some(i) => found == Some(i as usize),
                None => found is None,
            },
        decreases table@.len() - k,
    {
        assert(table@.take(k + 1).drop_last() =~= table@.take(k as int));
        if str_eq(table[k].2, item) {
            found = Some(k);
        }
        k = k + 1;
    }
    assert(table@.take(k as int) =~= table@);
    proof {
        lemma_last_comment_bounds(table@, item@);
    }
    match found {
        Some(i) => {
            let x = table[i].0;
            let y = table[i].1;
            let multiline = str_contains(y, "\n");
            match style {
                CommentStyle::Json => {
                    if multiline {
                        let mut o = concat3("/*\n", y, "\n*/\n\"");
                        o.append(x);
                        o.append("\":");
                        o
                    } else {
                        let mut o = concat3("// ", y, "\n\"");
                        o.append(x);
                        o.append("\":");
                        o
                    }
                },
                CommentStyle::Dhall => {
                    if multiline {
                        let mut o = concat3("{-\n", y, "\n-}\n ");
                        o.append(x);
                        o.append(" =");
                        o
                    } else {
                        let mut o = concat3("-- ", y, "\n  ");
                        o.append(x);
                        o.append(" =");
                        o
                    }
                },
                CommentStyle::Toml => {
                    if multiline {
                        proof {
                            reveal_strlit("\n");
                        }
                        let lines = replace_str(y, "\n", "\n# ");
                        let mut o = concat3("# ", lines.as_str(), "\n");
                        o.append(x);
                        o.append(" = ");
                        o
                    } else {
                        let mut o = concat3("# ", y, "\n");
                        o.append(x);
                        o.append(" = ");
                        o
                    }
                },
            }
        },
        None => match style {
            CommentStyle::Json => concat3("// todo: Comment this:\n\"", item, "\":"),
            CommentStyle::Dhall => concat3("-- todo: Comment this:\n  ", item, " ="),
            CommentStyle::Toml => concat3("# todo: Comment this:\n", item, " = "),
        },
    }
}

/// A rule of the commenting pass: the text to find, the path of the setting
/// whose commented key replaces it, and, for a TOML table header, the text
/// in that commented key to be swapped for the header.
pub type CommentRule = (&'static str, &'static str, Option<(&'static str, &'static str)>);

/// What a rule puts in place of the text it finds.
pub open spec fn rule_replacement(style: CommentStyle, rule: CommentRule) -> Seq<char> {
    match rule.2 {
        None => commented(style, rule.1@),
        Some(swap) => replace_all(commented(style, rule.1@), swap.0@, swap.1@),
    }
}

/// The text after applying the rules one by one, each replacing every
/// occurrence of its text.
pub open spec fn apply_rules(s: Seq<char>, rules: Seq<CommentRule>, style: CommentStyle) -> Seq<char>
    decreases rules.len(),
{
    if rules.len() == 0 {
        s
    } else {
        replace_all(
            apply_rules(s, rules.drop_last(), style),
            rules.last().0@,
            rule_replacement(style, rules.last()),
        )
    }
}

/// `replace_all` for any pattern (an empty one changes nothing).
fn replace_any(s: &str, p: &str, r: &str) -> (out: String)
    ensures
        out@ == replace_all(s@, p@, r@),
{
    if p.unicode_len() == 0 {
        s.to_owned()
    } else {
        replace_str(s, p, r)
    }
}

/// Applies the rules one by one.
fn apply_rule_table(s: &str, rules: &Vec<CommentRule>, style: CommentStyle) -> (r: String)
    ensures
        r@ == apply_rules(s@, rules@, style),
{
    let mut cur = s.to_owned();
    let mut k: usize = 0;
    while k < rules.len()
        invariant
            k <= rules@.len(),
            cur@ == apply_rules(s@, rules@.take(k as int), style),
        decreases rules@.len() - k,
    {
        assert(rules@.take(k + 1).drop_last() =~= rules@.take(k as int));
        let rule = rules[k];
        let c = comment_this(style, rule.1);
        let rep = match rule.2 {
            None => c,
            Some(swap) => replace_any(c.as_str(), swap.0, swap.1),
        };
        cur = replace_any(cur.as_str(), rule.0, rep.as_str());
        k = k + 1;
    }
    assert(rules@.take(k as int) =~= rules@);
    cur
}

/// The commenting rules for JSON-like text.
pub open spec fn jsonc_rules() -> Seq<CommentRule> {
    seq![
        ("\"port\":", "port", None),
        ("\"cache\":", "cache", None),
        ("\"lifetimes\":", "cache.lifetimes", None),
        ("\"forwarded\":", "cache.lifetimes.forwarded", None),
        ("\"javascript\":", "cache.lifetimes.javascript", None),
        ("\"served\":", "cache.lifetimes.served", None),
        ("\"stylesheets\":", "cache.lifetimes.stylesheets", None),
        ("\"runtimes\":", "runtimes", None),
        ("\"ext_js_rt\":", "runtimes.ext_js_rt", None),
        ("\"pages\":", "pages", None),
        ("\"notfound_page\":", "site.notfound_page", None),
        ("\"site\":", "site", None),
        ("\"meta\":", "site.meta", None),
        ("\"enable_tags\":", "site.meta.enable_tags", None),
        ("\"enable_search\":", "site.meta.enable_search", None),
        ("\"enable_sitemap\":", "site.meta.enable_sitemap", None),
        ("\"enable_rss\":", "site.meta.enable_rss", None),
        ("\"enable_atom\":", "site.meta.enable_atom", None),
        ("\"site_baseurl\":", "site.site_baseurl", None),
        ("\"og_sitename\":", "site.og_sitename", None),
        ("\"logs\":", "logs", None),
        ("\"term_loglevel\":", "logs.term_loglevel", None),
        ("\"file_loglevel\":", "logs.file_loglevel", None),
        ("\"log_file\":", "logs.log_file", None),
        ("\"scenes\":", "scenes", None),
        ("\"name\":", "scenes.name", None),
        ("\"sitename\":", "scenes.sitename", None),
        ("\"script\":", "scenes.script", None),
        ("\"stylefile\":", "scenes.stylefile", None),
        ("\"templates\":", "scenes.templates", None),
        ("\"page\":", "scenes.templates.page", None),
        ("\"post\":", "scenes.templates.post", None),
        ("\"postlist\":", "scenes.templates.postlist", None)
    ]
}

/// The commenting rules for Dhall text.
pub open spec fn dhall_rules() -> Seq<CommentRule> {
    seq![
        (" port =", "port", None),
        (" cache =", "cache", None),
        (" lifetimes =", "cache.lifetimes", None),
        (" forwarded =", "cache.lifetimes.forwarded", None),
        (" javascript =", "cache.lifetimes.javascript", None),
        (" served =", "cache.lifetimes.served", None),
        (" stylesheets =", "cache.lifetimes.stylesheets", None),
        (" runtimes =", "runtimes", None),
        (" node =", "runtimes.ext_js_rt", None),
        (" pages =", "pages", None),
        (" notfound_page =", "site.notfound_page", None),
        (" site =", "site", None),
        (" meta =", "site.meta", None),
        (" enable_tags =", "site.meta.enable_tags", None),
        (" enable_search =", "site.meta.enable_search", None),
        (" enable_sitemap =", "site.meta.enable_sitemap", None),
        (" enable_rss =", "site.meta.enable_rss", None),
        (" enable_atom =", "site.meta.enable_atom", None),
        (" site_baseurl =", "site.site_baseurl", None),
        (" og_sitename =", "site.og_sitename", None),
        (" logs =", "logs", None),
        (" term_loglevel =", "logs.term_loglevel", None),
        (" file_loglevel =", "logs.file_loglevel", None),
        (" log_file =", "logs.log_file", None),
        (" scenes =", "scenes", None),
        (" name =", "scenes.name", None),
        (" sitename =", "scenes.sitename", None),
        (" script =", "scenes.script", None),
        (" stylefile =", "scenes.stylefile", None),
        (" templates =", "scenes.templates", None),
        (" page =", "scenes.templates.page", None),
        (" post =", "scenes.templates.post", None),
        (" postlist =", "scenes.templates.postlist", None)
    ]
}

/// The commenting rules for TOML text.
pub open spec fn toml_rules() -> Seq<CommentRule> {
    seq![
        (" port = ", "port", None),
        (" [cache.lifetimes]", "cache.lifetimes", Some(("lifetimes = ", "[cache.lifetimes]"))),
        (" forwarded = ", "cache.lifetimes.forwarded", None),
        (" javascript = ", "cache.lifetimes.javascript", None),
        (" served = ", "cache.lifetimes.served", None),
        (" stylesheets = ", "cache.lifetimes.stylesheets", None),
        (" [runtimes]", "runtimes", Some(("runtimes = ", "[runtimes]"))),
        (" node = ", "runtimes.ext_js_rt", None),
        (" [pages]", "pages", Some(("pages = ", "[pages]"))),
        (" notfound_page = ", "site.notfound_page", None),
        (" [site]", "site", Some(("site = ", "[site]"))),
        (" [site.meta]", "site.meta", Some(("meta = ", "[site.meta]"))),
        (" enable_tags = ", "site.meta.enable_tags", None),
        (" enable_search = ", "site.meta.enable_search", None),
        (" enable_sitemap = ", "site.meta.enable_sitemap", None),
        (" enable_rss = ", "site.meta.enable_rss", None),
        (" enable_atom = ", "site.meta.enable_atom", None),
        (" site_baseurl = ", "site.site_baseurl", None),
        (" og_sitename = ", "site.og_sitename", None),
        (" [logs]", "logs", Some(("logs = ", "[logs]"))),
        (" term_loglevel = ", "logs.term_loglevel", None),
        (" file_loglevel = ", "logs.file_loglevel", None),
        (" log_file = ", "logs.log_file", None),
        (" [[scenes]]", "scenes", Some(("scenes = ", "[[scenes]]"))),
        (" name = ", "scenes.name", None),
        (" sitename = ", "scenes.sitename", None),
        (" script = ", "scenes.script", None),
        (" stylefile = ", "scenes.stylefile", None),
        (" [scenes.templates]", "scenes.templates", Some(("templates = ", "[scenes.templates]"))),
        (" page = ", "scenes.templates.page", None),
        (" post = ", "scenes.templates.post", None),
        (" postlist = ", "scenes.templates.postlist", None)
    ]
}

fn jsonc_rule_table() -> (r: Vec<CommentRule>)
    ensures
        r@ == jsonc_rules(),
{
    let r: Vec<CommentRule> = vec![
        ("\"port\":", "port", None),
        ("\"cache\":", "cache", None),
        ("\"lifetimes\":", "cache.lifetimes", None),
        ("\"forwarded\":", "cache.lifetimes.forwarded", None),
        ("\"javascript\":", "cache.lifetimes.javascript", None),
        ("\"served\":", "cache.lifetimes.served", None),
        ("\"stylesheets\":", "cache.lifetimes.stylesheets", None),
        ("\"runtimes\":", "runtimes", None),
        ("\"ext_js_rt\":", "runtimes.ext_js_rt", None),
        ("\"pages\":", "pages", None),
        ("\"notfound_page\":", "site.notfound_page", None),
        ("\"site\":", "site", None),
        ("\"meta\":", "site.meta", None),
        ("\"enable_tags\":", "site.meta.enable_tags", None),
        ("\"enable_search\":", "site.meta.enable_search", None),
        ("\"enable_sitemap\":", "site.meta.enable_sitemap", None),
        ("\"enable_rss\":", "site.meta.enable_rss", None),
        ("\"enable_atom\":", "site.meta.enable_atom", None),
        ("\"site_baseurl\":", "site.site_baseurl", None),
        ("\"og_sitename\":", "site.og_sitename", None),
        ("\"logs\":", "logs", None),
        ("\"term_loglevel\":", "logs.term_loglevel", None),
        ("\"file_loglevel\":", "logs.file_loglevel", None),
        ("\"log_file\":", "logs.log_file", None),
        ("\"scenes\":", "scenes", None),
        ("\"name\":", "scenes.name", None),
        ("\"sitename\":", "scenes.sitename", None),
        ("\"script\":", "scenes.script", None),
        ("\"stylefile\":", "scenes.stylefile", None),
        ("\"templates\":", "scenes.templates", None),
        ("\"page\":", "scenes.templates.page", None),
        ("\"post\":", "scenes.templates.post", None),
        ("\"postlist\":", "scenes.templates.postlist", None)
    ];
    assert(r@ =~= jsonc_rules());
    r
}

fn dhall_rule_table() -> (r: Vec<CommentRule>)
    ensures
        r@ == dhall_rules(),
{
    let r: Vec<CommentRule> = vec![
        (" port =", "port", None),
        (" cache =", "cache", None),
        (" lifetimes =", "cache.lifetimes", None),
        (" forwarded =", "cache.lifetimes.forwarded", None),
        (" javascript =", "cache.lifetimes.javascript", None),
        (" served =", "cache.lifetimes.served", None),
        (" stylesheets =", "cache.lifetimes.stylesheets", None),
        (" runtimes =", "runtimes", None),
        (" node =", "runtimes.ext_js_rt", None),
        (" pages =", "pages", None),
        (" notfound_page =", "site.notfound_page", None),
        (" site =", "site", None),
        (" meta =", "site.meta", None),
        (" enable_tags =", "site.meta.enable_tags", None),
        (" enable_search =", "site.meta.enable_search", None),
        (" enable_sitemap =", "site.meta.enable_sitemap", None),
        (" enable_rss =", "site.meta.enable_rss", None),
        (" enable_atom =", "site.meta.enable_atom", None),
        (" site_baseurl =", "site.site_baseurl", None),
        (" og_sitename =", "site.og_sitename", None),
        (" logs =", "logs", None),
        (" term_loglevel =", "logs.term_loglevel", None),
        (" file_loglevel =", "logs.file_loglevel", None),
        (" log_file =", "logs.log_file", None),
        (" scenes =", "scenes", None),
        (" name =", "scenes.name", None),
        (" sitename =", "scenes.sitename", None),
        (" script =", "scenes.script", None),
        (" stylefile =", "scenes.stylefile", None),
        (" templates =", "scenes.templates", None),
        (" page =", "scenes.templates.page", None),
        (" post =", "scenes.templates.post", None),
        (" postlist =", "scenes.templates.postlist", None)
    ];
    assert(r@ =~= dhall_rules());
    r
}

fn toml_rule_table() -> (r: Vec<CommentRule>)
    ensures
        r@ == toml_rules(),
{
    let r: Vec<CommentRule> = vec![
        (" port = ", "port", None),
        (" [cache.lifetimes]", "cache.lifetimes", Some(("lifetimes = ", "[cache.lifetimes]"))),
        (" forwarded = ", "cache.lifetimes.forwarded", None),
        (" javascript = ", "cache.lifetimes.javascript", None),
        (" served = ", "cache.lifetimes.served", None),
        (" stylesheets = ", "cache.lifetimes.stylesheets", None),
        (" [runtimes]", "runtimes", Some(("runtimes = ", "[runtimes]"))),
        (" node = ", "runtimes.ext_js_rt", None),
        (" [pages]", "pages", Some(("pages = ", "[pages]"))),
        (" notfound_page = ", "site.notfound_page", None),
        (" [site]", "site", Some(("site = ", "[site]"))),
        (" [site.meta]", "site.meta", Some(("meta = ", "[site.meta]"))),
        (" enable_tags = ", "site.meta.enable_tags", None),
        (" enable_search = ", "site.meta.enable_search", None),
        (" enable_sitemap = ", "site.meta.enable_sitemap", None),
        (" enable_rss = ", "site.meta.enable_rss", None),
        (" enable_atom = ", "site.meta.enable_atom", None),
        (" site_baseurl = ", "site.site_baseurl", None),
        (" og_sitename = ", "site.og_sitename", None),
        (" [logs]", "logs", Some(("logs = ", "[logs]"))),
        (" term_loglevel = ", "logs.term_loglevel", None),
        (" file_loglevel = ", "logs.file_loglevel", None),
        (" log_file = ", "logs.log_file", None),
        (" [[scenes]]", "scenes", Some(("scenes = ", "[[scenes]]"))),
        (" name = ", "scenes.name", None),
        (" sitename = ", "scenes.sitename", None),
        (" script = ", "scenes.script", None),
        (" stylefile = ", "scenes.stylefile", None),
        (" [scenes.templates]", "scenes.templates", Some(("templates = ", "[scenes.templates]"))),
        (" page = ", "scenes.templates.page", None),
        (" post = ", "scenes.templates.post", None),
        (" postlist = ", "scenes.templates.postlist", None)
    ];
    assert(r@ =~= toml_rules());
    r
}

/// Pretty JSON of the configuration with a comment above each setting.
pub open spec fn jsonc_body(json: Seq<char>) -> Seq<char> {
    apply_rules(json, jsonc_rules(), CommentStyle::Json)
}

/// `s` without its first character.
pub open spec fn drop_first(s: Seq<char>) -> Seq<char> {
    if s.len() == 0 {
        s
    } else {
        s.skip(1)
    }
}

/// Dhall of the configuration, its opening brace dropped, laid out one
/// field per line, with a comment above each setting.
pub open spec fn dhall_body(dhall: Seq<char>) -> Seq<char> {
    let a = replace_all(drop_first(dhall), ","@, "\n,"@);
    let b = replace_all(a, "{"@, "{\n"@);
    let c = replace_all(b, "}"@, "\n}\n"@);
    let d = replace_all(c, "\n"@, "\n "@);
    apply_rules(d, dhall_rules(), CommentStyle::Dhall)
}

/// TOML of the configuration, indented by one space, with a comment above
/// each setting and table.
pub open spec fn toml_body(toml: Seq<char>) -> Seq<char> {
    apply_rules(replace_all(toml, "\n"@, "\n "@), toml_rules(), CommentStyle::Toml)
}

/// Pretty JSON of the configuration with a comment above each setting.
pub fn annotate_jsonc(json: &str) -> (r: String)
    ensures
        r@ == jsonc_body(json@),
{
    let rules = jsonc_rule_table();
    apply_rule_table(json, &rules, CommentStyle::Json)
}

/// Dhall of the configuration laid out and commented; see `dhall_body`.
pub fn annotate_dhall(dhall: &str) -> (r: String)
    ensures
        r@ == dhall_body(dhall@),
{
    let n = dhall.unicode_len();
    let rest = if n == 0 {
        String::new()
    } else {
        dhall.substring_char(1, n).to_owned()
    };
    proof {
        if n > 0 {
            assert(rest@ =~= drop_first(dhall@));
        } else {
            assert(rest@ =~= drop_first(dhall@));
        }
    }
    let a = replace_any(rest.as_str(), ",", "\n,");
    let b = replace_any(a.as_str(), "{", "{\n");
    let c = replace_any(b.as_str(), "}", "\n}\n");
    let d = replace_any(c.as_str(), "\n", "\n ");
    let rules = dhall_rule_table();
    apply_rule_table(d.as_str(), &rules, CommentStyle::Dhall)
}

/// TOML of the configuration indented and commented; see `toml_body`.
pub fn annotate_toml(toml: &str) -> (r: String)
    ensures
        r@ == toml_body(toml@),
{
    let indented = replace_any(toml, "\n", "\n ");
    let rules = toml_rule_table();
    apply_rule_table(indented.as_str(), &rules, CommentStyle::Toml)
}

/// The header of a JavaScript configuration, up to the object.
pub open spec fn js_head() -> Seq<char> {
    "/*\n\tCynthiaConfig.js\n\n\n\tThis is the configuration file for Cynthia. It is written in Javascript, a scripting language.\n\tThis kind of CynthiaConfig is the most powerful and flexible,\n\tbut also the most complex. It is recommended for advanced users\n\twho want to take full control of Cynthia's behavior.\n\n\n\tMore info about this config can be found on <https://strawmelonjuice.github.io/CynthiaWebsiteEngine/Admins/configuration/CynthiaConf.html>\n\n\n\tTo convert it to another config language, use the `cynthiaweb convert` command.\n*/\nlet myCynthiaConfig = "@
}

/// What follows the object in a JavaScript configuration.
pub open spec fn js_tail() -> Seq<char> {
    ";\n\n// We must return the configuration object at the end of the file.\nreturn myCynthiaConfig;\n"@
}

/// The header of a JSONC configuration.
pub open spec fn jsonc_head() -> Seq<char> {
    "/*\n\tCynthia.jsonc\n\n\tThis is the configuration file for Cynthia. It is written in JSONC, a JSON-like language that is focused on user readability.\n\tMore info about this config can be found on <https://strawmelonjuice.github.io/CynthiaWebsiteEngine/Admins/configuration/CynthiaConf.html>\n\n\tTo convert it to another config language, use the `cynthiaweb convert` command.\n*/\n\n"@
}

/// The header of a Dhall configuration.
pub open spec fn dhall_head() -> Seq<char> {
    "{\n{-\n\tThis is the configuration file for Cynthia. It is written in Dhall, a Haskell-like language that is able to contain functions and types.\n\tMore info about this config can be found on <https://strawmelonjuice.github.io/CynthiaWebsiteEngine/Admins/configuration/CynthiaConf.html>\n\n\tTo convert it to another config language, use the `cynthiaweb convert` command.\n-}\n"@
}

/// The header of a TOML configuration.
pub open spec fn toml_head() -> Seq<char> {
    "# Cynthia.toml\n# \n# This is the configuration file for Cynthia. It is written in TOML, a YAML-like language that is focused on user readability.\n# More info about this config can be found on <https://strawmelonjuice.github.io/CynthiaWebsiteEngine/Admins/configuration/CynthiaConf.html>\n# \n# \n# To convert it to another config language, use the `cynthiaweb convert` command.\n\n\n"@
}

/// A JavaScript configuration around an object literal `object`.
pub fn js_config_text(object: &str) -> (r: String)
    ensures
        r@ == js_head() + object@ + js_tail(),
{
    concat3(
        "/*\n\tCynthiaConfig.js\n\n\n\tThis is the configuration file for Cynthia. It is written in Javascript, a scripting language.\n\tThis kind of CynthiaConfig is the most powerful and flexible,\n\tbut also the most complex. It is recommended for advanced users\n\twho want to take full control of Cynthia's behavior.\n\n\n\tMore info about this config can be found on <https://strawmelonjuice.github.io/CynthiaWebsiteEngine/Admins/configuration/CynthiaConf.html>\n\n\n\tTo convert it to another config language, use the `cynthiaweb convert` command.\n*/\nlet myCynthiaConfig = ",
        object,
        ";\n\n// We must return the configuration object at the end of the file.\nreturn myCynthiaConfig;\n",
    )
}

/// The regular expression that takes the quotes off the keys of JSON text.
pub open spec fn quoted_key_pattern() -> Seq<char> {
    "\"([^\"]*)\":"@
}

/// The position of the first `"` in `t` at or after `k`.
pub open spec fn next_quote(t: Seq<char>, k: int) -> Option<int>
    decreases t.len() - k,
{
    if k < 0 || k >= t.len() {
        None
    } else if t[k] == '"' {
        Some(k)
    } else {
        next_quote(t, k + 1)
    }
}

/// `t` with every quoted key that a colon follows written as a tab, the
/// key and the colon, scanning from the left without overlap: what
/// `replace_all` with the pattern `quoted_key_pattern()` and the
/// replacement `\t$1:` gives. A `"` starts a match exactly when the next
/// `"` after it is followed by `:`.
pub open spec fn keys_unquoted(t: Seq<char>) -> Seq<char>
    decreases t.len(),
{
    if t.len() == 0 {
        t
    } else if t[0] == '"' && (next_quote(t, 1) matches Some(j) && 1 <= j && j + 1 < t.len()
        && t[j + 1] == ':') {
        let j = next_quote(t, 1)->0;
        "\t"@ + t.subrange(1, j) + ":"@ + keys_unquoted(t.skip(j + 2))
    } else {
        seq![t[0]] + keys_unquoted(t.skip(1))
    }
}

/// The result of `regex::Regex::new(pattern)` then `replace_all(text,
/// replacement)`, or `None` where the pattern does not compile. Named, not
/// stated.
pub uninterp spec fn regex_replaced(pattern: Seq<char>, text: Seq<char>, replacement: Seq<char>) -> Option<Seq<char>>;

/// Replaces every match of `pattern` in `text` with `replacement`
/// (`regex::Regex::new` and `Regex::replace_all`); `None` where the pattern
/// does not compile. The result is named `regex_replaced` of the arguments.
/// For the quoted-key pattern and the replacement `\t$1:` it is stated:
/// matches are found leftmost first and without overlap, `[^"]*` cannot pass
/// a quote, and `$1` stands for the key.
#[verifier::external_body]
fn regex_replace_all(pattern: &str, text: &str, replacement: &str) -> (r: Option<String>)
    ensures
        match r {
            Some(s) => regex_replaced(pattern@, text@, replacement@) == Some(s@),
            None => regex_replaced(pattern@, text@, replacement@) is None,
        },
        pattern@ == quoted_key_pattern() && replacement@ == "\t$1:"@ ==> r is Some && r->0@
            == keys_unquoted(text@),
{
    match regex::Regex::new(pattern) {
        Ok(re) => Some(re.replace_all(text, replacement).into_owned()),
        Err(_) => None,
    }
}

/// The file written for a conversion to `to`, from the configuration
/// serialised by that language's serialiser (pretty JSON for JavaScript and
/// JSONC). A JavaScript file takes the commented JSON with its keys
/// unquoted. Every language gives a file.
pub fn render_config_file(to: ConfigFormat, serialized: &str) -> (r: Option<String>)
    ensures
        to == ConfigFormat::Js ==> (r matches Some(t) && t@ == js_head() + keys_unquoted(
            jsonc_body(serialized@),
        ) + js_tail()),
        to == ConfigFormat::JsonC ==> (r matches Some(t) && t@ == jsonc_head() + jsonc_body(
            serialized@,
        )),
        to == ConfigFormat::Dhall ==> (r matches Some(t) && t@ == dhall_head() + dhall_body(
            serialized@,
        )),
        to == ConfigFormat::Toml ==> (r matches Some(t) && t@ == toml_head() + toml_body(
            serialized@,
        )),
{
    match to {
        ConfigFormat::Js => {
            let j = annotate_jsonc(serialized);
            match regex_replace_all("\"([^\"]*)\":", j.as_str(), "\t$1:") {
                Some(u) => Some(js_config_text(u.as_str())),
                None => None,
            }
        },
        ConfigFormat::JsonC => {
            let j = annotate_jsonc(serialized);
            Some(concat2("/*\n\tCynthia.jsonc\n\n\tThis is the configuration file for Cynthia. It is written in JSONC, a JSON-like language that is focused on user readability.\n\tMore info about this config can be found on <https://strawmelonjuice.github.io/CynthiaWebsiteEngine/Admins/configuration/CynthiaConf.html>\n\n\tTo convert it to another config language, use the `cynthiaweb convert` command.\n*/\n\n", j.as_str()))
        },
        ConfigFormat::Dhall => {
            let d = annotate_dhall(serialized);
            Some(concat2("{\n{-\n\tThis is the configuration file for Cynthia. It is written in Dhall, a Haskell-like language that is able to contain functions and types.\n\tMore info about this config can be found on <https://strawmelonjuice.github.io/CynthiaWebsiteEngine/Admins/configuration/CynthiaConf.html>\n\n\tTo convert it to another config language, use the `cynthiaweb convert` command.\n-}\n", d.as_str()))
        },
        ConfigFormat::Toml => {
            let t = annotate_toml(serialized);
            Some(concat2("# Cynthia.toml\n# \n# This is the configuration file for Cynthia. It is written in TOML, a YAML-like language that is focused on user readability.\n# More info about this config can be found on <https://strawmelonjuice.github.io/CynthiaWebsiteEngine/Admins/configuration/CynthiaConf.html>\n# \n# \n# To convert it to another config language, use the `cynthiaweb convert` command.\n\n\n", t.as_str()))
        },
    }
}

/// The configuration files to delete after a conversion: those found
/// (`existing`) other than the one just written.
pub fn stale_config_files(existing: &Vec<String>, written: &str) -> (r: Vec<String>)
    ensures
        r@.map_values(|s: String| s@) == existing@.map_values(|s: String| s@).filter(
            |p: Seq<char>| p != written@,
        ),
{
    let mut r: Vec<String> = Vec::new();
    let mut k: usize = 0;
    while k < existing.len()
        invariant
            k <= existing@.len(),
            r@.map_values(|s: String| s@) == existing@.take(k as int).map_values(|s: String| s@).filter(
                |p: Seq<char>| p != written@,
            ),
        decreases existing@.len() - k,
    {
        proof {
            let e = existing@.take(k + 1).map_values(|s: String| s@);
            assert(e.drop_last() =~= existing@.take(k as int).map_values(|s: String| s@));
            assert(e.last() == existing@[k as int]@);
            reveal(Seq::filter);
        }
        if !str_eq(existing[k].as_str(), written) {
            r.push(existing[k].clone());
            assert(r@.map_values(|s: String| s@) =~= r@.drop_last().map_values(|s: String| s@).push(existing@[k as int]@));
        }
        k = k + 1;
    }
    assert(existing@.take(k as int) =~= existing@);
    r
}

/// What happens once the converted configuration is written.
pub enum AfterWrite {
    /// Not run as `convert`: hand the written path back.
    ReturnPath,
    /// `convert ... -k`: stop, keeping the old files.
    ExitKeepingOld,
    /// `convert`: delete the old files, then stop.
    RemoveOld,
}

/// The argument at `i`, if there is one.
pub open spec fn arg_is(args: Seq<String>, i: int, s: Seq<char>) -> bool {
    0 <= i < args.len() && args[i]@ == s
}

/// What happens once the converted configuration is written, by the
/// program's arguments: run as `convert` (second argument), the old files
/// are deleted unless the fourth argument is `-k`.
pub fn after_write(args: &Vec<String>) -> (r: AfterWrite)
    ensures
        !arg_is(args@, 1, "convert"@) ==> r is ReturnPath,
        arg_is(args@, 1, "convert"@) && arg_is(args@, 3, "-k"@) ==> r is ExitKeepingOld,
        arg_is(args@, 1, "convert"@) && !arg_is(args@, 3, "-k"@) ==> r is RemoveOld,
{
    if args.len() > 1 && str_eq(args[1].as_str(), "convert") {
        if args.len() > 3 && str_eq(args[3].as_str(), "-k") {
            AfterWrite::ExitKeepingOld
        } else {
            AfterWrite::RemoveOld
        }
    } else {
        AfterWrite::ReturnPath
    }
}

/// A path as shown to the user: without the `\\?\` prefix of verbatim
/// Windows paths.
pub open spec fn display_path_spec(p: Seq<char>) -> Seq<char> {
    replace_all(p, "\\\\?\\"@, ""@)
}

/// A path as shown to the user.
pub fn display_path(p: &str) -> (r: String)
    ensures
        r@ == display_path_spec(p@),
{
    replace_any(p, "\\\\?\\", "")
}

/// The line printed when the configuration file at `path` is loaded.
pub fn loading_line(path: &str) -> (r: String)
    ensures
        r@ == colored(66, 245, 78, "[Config]"@) + " Loading: "@ + colored(
            0,
            255,
            255,
            display_path_spec(path@),
        ),
{
    let tag = "[Config]".color_lime();
    let shown = display_path(path).color_bright_cyan();
    concat3(tag.as_str(), " Loading: ", shown.as_str())
}

/// The message printed when the configuration file at `path` cannot be read
/// or understood.
pub fn interpret_error(path: &str) -> (r: String)
    ensures
        r@ == "Could not interpret cynthia-configuration at `"@ + display_path_spec(path@)
            + "`!"@,
{
    let shown = display_path(path);
    concat3("Could not interpret cynthia-configuration at `", shown.as_str(), "`!")
}

} // verus!

//! Inlining a scene's script and stylesheet into a page, minified by the
//! external JavaScript runtime when it can: the command to run, the cache id
//! the minified text is kept under, and the tags the text ends up in.

use vstd::prelude::*;
use vstd::string::*;
use crate::text::{concat2, concat3, str_contains, contains};

verus! {

/// Whether the configured runtime is Bun (its command mentions `bun`).
pub fn runtime_is_bun(rt: &str) -> (r: bool)
    ensures
        r == contains(rt@, "bun"@),
{
    str_contains(rt, "bun")
}

/// The cache id of a minified script: `script:` and the file's stem.
pub fn script_embed_id(stem: &str) -> (r: String)
    ensures
        r@ == "script:"@ + stem@,
{
    concat2("script:", stem)
}

/// The cache id of a minified stylesheet: `css:` and the file's stem.
pub fn css_embed_id(stem: &str) -> (r: String)
    ensures
        r@ == "css:"@ + stem@,
{
    concat2("css:", stem)
}

/// The runner and arguments that minify a script with Terser: `bunx` under
/// Bun, `npx --yes` otherwise.
pub fn terser_command(rt: &str, file: &str) -> (r: (String, Vec<String>))
    ensures
        contains(rt@, "bun"@) ==> r.0@ == "bunx"@ && r.1@.len() == 5 && r.1@[0]@ == "terser"@
            && r.1@[1]@ == file@ && r.1@[2]@ == "--compress"@ && r.1@[3]@ == "--keep-fnames"@
            && r.1@[4]@ == "--keep-classnames"@,
        !contains(rt@, "bun"@) ==> r.0@ == "npx"@ && r.1@.len() == 6 && r.1@[0]@ == "--yes"@
            && r.1@[1]@ == "terser"@ && r.1@[2]@ == file@ && r.1@[3]@ == "--compress"@ && r.1@[4]@
            == "--keep-fnames"@ && r.1@[5]@ == "--keep-classnames"@,
{
    let bun = runtime_is_bun(rt);
    let mut args: Vec<String> = Vec::new();
    if !bun {
        args.push(String::from_str("--yes"));
    }
    args.push(String::from_str("terser"));
    args.push(file.to_owned());
    args.push(String::from_str("--compress"));
    args.push(String::from_str("--keep-fnames"));
    args.push(String::from_str("--keep-classnames"));
    if bun {
        (String::from_str("bunx"), args)
    } else {
        (String::from_str("npx"), args)
    }
}

/// The runner and arguments that minify a stylesheet with clean-css:
/// `bunx` under Bun, `npx --yes` otherwise.
pub fn clean_css_command(rt: &str, file: &str) -> (r: (String, Vec<String>))
    ensures
        contains(rt@, "bun"@) ==> r.0@ == "bunx"@ && r.1@.len() == 5 && r.1@[0]@
            == "clean-css-cli@4"@ && r.1@[1]@ == "-O2"@ && r.1@[2]@ == "--inline"@ && r.1@[3]@
            == "none"@ && r.1@[4]@ == file@,
        !contains(rt@, "bun"@) ==> r.0@ == "npx"@ && r.1@.len() == 6 && r.1@[0]@ == "--yes"@
            && r.1@[1]@ == "clean-css-cli@4"@ && r.1@[2]@ == "-O2"@ && r.1@[3]@ == "--inline"@
            && r.1@[4]@ == "none"@ && r.1@[5]@ == file@,
{
    let bun = runtime_is_bun(rt);
    let mut args: Vec<String> = Vec::new();
    if !bun {
        args.push(String::from_str("--yes"));
    }
    args.push(String::from_str("clean-css-cli@4"));
    args.push(String::from_str("-O2"));
    args.push(String::from_str("--inline"));
    args.push(String::from_str("none"));
    args.push(file.to_owned());
    if bun {
        (String::from_str("bunx"), args)
    } else {
        (String::from_str("npx"), args)
    }
}

/// A minified script, inlined.
pub fn minified_script_tag(d: &str) -> (r: String)
    ensures
        r@ == "<script>\n\r// Minified internally by Cynthia using Terser\n\n"@ + d@
            + "\n\n\r// Cached after minifying, so might be somewhat behind.\n\r</script>"@,
{
    concat3(
        "<script>\n\r// Minified internally by Cynthia using Terser\n\n",
        d,
        "\n\n\r// Cached after minifying, so might be somewhat behind.\n\r</script>",
    )
}

/// A script that could not be minified, inlined as it is.
pub fn unminified_script_tag(content: &str) -> (r: String)
    ensures
        r@ == "<script>\n// Scriptfile could not be minified, so was instead inlined 1:1. \n\n"@
            + content@ + "</script>"@,
{
    concat3(
        "<script>\n// Scriptfile could not be minified, so was instead inlined 1:1. \n\n",
        content,
        "</script>",
    )
}

/// A minified stylesheet, inlined.
pub fn minified_style_tag(d: &str) -> (r: String)
    ensures
        r@ == "\n\t\t<style>\n\n\t\t\t/* Minified internally by Cynthia using clean-css */\n\n\t\t\t"@
            + d@ + "\n\n\t\t\t/* Cached after minifying, so might be somewhat behind. */\n\t\t</style>"@,
{
    concat3(
        "\n\t\t<style>\n\n\t\t\t/* Minified internally by Cynthia using clean-css */\n\n\t\t\t",
        d,
        "\n\n\t\t\t/* Cached after minifying, so might be somewhat behind. */\n\t\t</style>",
    )
}

/// A stylesheet that could not be minified, inlined as it is.
pub fn unminified_style_tag(content: &str) -> (r: String)
    ensures
        r@ == "<style>\n/* Stylefile could not be minified, so was instead inlined 1:1. */\n\n"@
            + content@ + "</style>"@,
{
    concat3(
        "<style>\n/* Stylefile could not be minified, so was instead inlined 1:1. */\n\n",
        content,
        "</style>",
    )
}

} // verus!

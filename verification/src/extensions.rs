//! The tables of tags that file names, extensions and interpreters map to.
//!
//! Each table holds one row per (key, tag) pair: the tags of a key are the
//! tags of all its rows.

use vstd::prelude::*;

use crate::tags::{TagSet, BINARY, TEXT};
use crate::text::str_eq;

verus! {

/// The tags that the rows of `table` give to `key`.
pub open spec fn table_tags(table: Seq<(&'static str, &'static str)>, key: Seq<char>) -> Set<Seq<char>> {
    Set::new(
        |t: Seq<char>|
            exists|i: int| 0 <= i < table.len() && (#[trigger] table[i]).0@ == key && table[i].1@ == t,
    )
}

/// Whether some row of `table` has `key`.
pub open spec fn table_has_key(table: Seq<(&'static str, &'static str)>, key: Seq<char>) -> bool {
    exists|i: int| 0 <= i < table.len() && (#[trigger] table[i]).0@ == key
}

/// Every tag that some row of `table` gives.
pub open spec fn table_values(table: Seq<(&'static str, &'static str)>) -> Set<Seq<char>> {
    Set::new(|t: Seq<char>| exists|i: int| 0 <= i < table.len() && (#[trigger] table[i]).1@ == t)
}

/// Adds every tag that some row of `table` gives.
pub fn insert_table_values(tags: &mut TagSet, table: &[(&'static str, &'static str)])
    ensures
        final(tags)@ == old(tags)@.union(table_values(table@)),
{
    let mut i: usize = 0;
    while i < table.len()
        invariant
            0 <= i <= table@.len(),
            tags@ == old(tags)@.union(table_values(table@.take(i as int))),
        decreases table@.len() - i,
    {
        let ghost before = tags@;
        tags.insert(table[i].1);
        proof {
            let prev = table@.take(i as int);
            let next = table@.take(i + 1);
            assert forall|t: Seq<char>| table_values(next).contains(t) <==> table_values(prev).insert(table@[i as int].1@).contains(t) by {
                if table_values(next).contains(t) {
                    let j = choose|j: int| 0 <= j < next.len() && (#[trigger] next[j]).1@ == t;
                    if j < i {
                        assert(prev[j] == next[j]);
                    }
                }
                if table_values(prev).contains(t) {
                    let j = choose|j: int| 0 <= j < prev.len() && (#[trigger] prev[j]).1@ == t;
                    assert(prev[j] == next[j]);
                }
                if t == table@[i as int].1@ {
                    assert(next[i as int] == table@[i as int]);
                }
            }
            assert(table_values(next) =~= table_values(prev).insert(table@[i as int].1@));
            assert(tags@ =~= old(tags)@.union(table_values(next)));
        }
        i = i + 1;
    }
    assert(table@.take(table@.len() as int) =~= table@);
}

/// Whether a set of tags names exactly one of the two encodings.
pub open spec fn has_one_encoding(tags: Set<Seq<char>>) -> bool {
    tags.contains(TEXT@) != tags.contains(BINARY@)
}

/// Whether every key of `table` has exactly one of the tags `text` and `binary`.
pub open spec fn keys_have_one_encoding(table: Seq<(&'static str, &'static str)>) -> bool {
    forall|i: int| 0 <= i < table.len() ==> has_one_encoding(table_tags(table, (#[trigger] table[i]).0@))
}

/// Whether no row of `table` gives the tag `text` or `binary`.
pub open spec fn rows_have_no_encoding(table: Seq<(&'static str, &'static str)>) -> bool {
    forall|i: int|
        0 <= i < table.len() ==> (#[trigger] table[i]).1@ != TEXT@ && table[i].1@ != BINARY@
}

/// Whether the two tables share no key.
pub open spec fn keys_disjoint(
    a: Seq<(&'static str, &'static str)>,
    b: Seq<(&'static str, &'static str)>,
) -> bool {
    forall|i: int, j: int| 0 <= i < a.len() && 0 <= j < b.len() ==> (#[trigger] a[i]).0@ != (#[trigger] b[j]).0@
}

/// Checks that every key of `table` has exactly one of `text` and `binary`.
pub fn check_keys_have_one_encoding(table: &[(&'static str, &'static str)]) -> (r: bool)
    ensures
        r == keys_have_one_encoding(table@),
{
    let mut i: usize = 0;
    while i < table.len()
        invariant
            0 <= i <= table@.len(),
            forall|j: int| 0 <= j < i ==> has_one_encoding(table_tags(table@, (#[trigger] table@[j]).0@)),
        decreases table@.len() - i,
    {
        let tags = lookup_tags(table, table[i].0);
        if tags.contains(TEXT) == tags.contains(BINARY) {
            return false;
        }
        i = i + 1;
    }
    true
}

/// Checks that no row of `table` gives `text` or `binary`.
pub fn check_rows_have_no_encoding(table: &[(&'static str, &'static str)]) -> (r: bool)
    ensures
        r == rows_have_no_encoding(table@),
{
    let mut i: usize = 0;
    while i < table.len()
        invariant
            0 <= i <= table@.len(),
            forall|j: int| 0 <= j < i ==> (#[trigger] table@[j]).1@ != TEXT@ && table@[j].1@ != BINARY@,
        decreases table@.len() - i,
    {
        if str_eq(table[i].1, TEXT) || str_eq(table[i].1, BINARY) {
            return false;
        }
        i = i + 1;
    }
    true
}

/// Checks that the two tables share no key.
pub fn check_keys_disjoint(
    a: &[(&'static str, &'static str)],
    b: &[(&'static str, &'static str)],
) -> (r: bool)
    ensures
        r == keys_disjoint(a@, b@),
{
    let mut i: usize = 0;
    while i < a.len()
        invariant
            0 <= i <= a@.len(),
            forall|x: int, y: int| 0 <= x < i && 0 <= y < b@.len() ==> (#[trigger] a@[x]).0@ != (#[trigger] b@[y]).0@,
        decreases a@.len() - i,
    {
        let mut j: usize = 0;
        while j < b.len()
            invariant
                0 <= i < a@.len(),
                0 <= j <= b@.len(),
                forall|x: int, y: int| 0 <= x < i && 0 <= y < b@.len() ==> (#[trigger] a@[x]).0@ != (#[trigger] b@[y]).0@,
                forall|y: int| 0 <= y < j ==> a@[i as int].0@ != (#[trigger] b@[y]).0@,
            decreases b@.len() - j,
        {
            if str_eq(a[i].0, b[j].0) {
                return false;
            }
            j = j + 1;
        }
        i = i + 1;
    }
    true
}

/// Looks `key` up in `table`.
pub fn lookup_tags(table: &[(&'static str, &'static str)], key: &str) -> (r: TagSet)
    ensures
        r@ == table_tags(table@, key@),
{
    let mut r = TagSet::new();
    let mut i: usize = 0;
    while i < table.len()
        invariant
            0 <= i <= table@.len(),
            r@ == table_tags(table@.take(i as int), key@),
        decreases table@.len() - i,
    {
        let ghost before = r@;
        let (k, tag) = table[i];
        if str_eq(k, key) {
            r.insert(tag);
        }
        proof {
            let prev = table@.take(i as int);
            let next = table@.take(i + 1);
            assert forall|t: Seq<char>| table_tags(next, key@).contains(t) <==> r@.contains(t) by {
                if table_tags(next, key@).contains(t) {
                    let j = choose|j: int| 0 <= j < next.len() && (#[trigger] next[j]).0@ == key@ && next[j].1@ == t;
                    if j < i {
                        assert(prev[j] == next[j]);
                        assert(table_tags(prev, key@).contains(t));
                    }
                }
                if before.contains(t) {
                    let j = choose|j: int| 0 <= j < prev.len() && (#[trigger] prev[j]).0@ == key@ && prev[j].1@ == t;
                    assert(prev[j] == next[j]);
                }
                if k@ == key@ && t == tag@ {
                    assert(next[i as int] == table@[i as int]);
                }
            }
            assert(r@ =~= table_tags(next, key@));
        }
        i = i + 1;
    }
    assert(table@.take(table@.len() as int) =~= table@);
    r
}

/// The tags of each recognized file extension (written in lower case), sorted by
/// extension. Every extension here has exactly one of the tags `text` and
/// `binary` (`lemma_extension_table_is_sound`).
pub const EXTENSION_TAGS: [(&'static str, &'static str); 695] = [
    ("adoc", "text"), ("adoc", "asciidoc"),
    ("ai", "binary"), ("ai", "adobe-illustrator"),
    ("aj", "text"), ("aj", "aspectj"),
    ("apinotes", "text"), ("apinotes", "apinotes"),
    ("asar", "binary"), ("asar", "asar"),
    ("asciidoc", "text"), ("asciidoc", "asciidoc"),
    ("astro", "text"), ("astro", "astro"),
    ("avif", "binary"), ("avif", "image"), ("avif", "avif"),
    ("avsc", "text"), ("avsc", "avro-schema"),
    ("bash", "text"), ("bash", "shell"), ("bash", "bash"),
    ("bat", "text"), ("bat", "batch"),
    ("bats", "text"), ("bats", "shell"), ("bats", "bash"), ("bats", "bats"),
    ("bazel", "text"), ("bazel", "bazel"),
    ("bb", "text"), ("bb", "bitbake"),
    ("bbappend", "text"), ("bbappend", "bitbake"),
    ("bbclass", "text"), ("bbclass", "bitbake"),
    ("beancount", "text"), ("beancount", "beancount"),
    ("bib", "text"), ("bib", "bib"),
    ("bmp", "binary"), ("bmp", "image"), ("bmp", "bitmap"),
    ("bz2", "binary"), ("bz2", "bzip2"),
    ("bz3", "binary"), ("bz3", "bzip3"),
    ("bzl", "text"), ("bzl", "bazel"),
    ("c", "text"), ("c", "c"),
    ("c++", "text"), ("c++", "c++"),
    ("c++m", "text"), ("c++m", "c++"),
    ("cc", "text"), ("cc", "c++"),
    ("ccm", "text"), ("ccm", "c++"),
    ("cfg", "text"),
    ("chs", "text"), ("chs", "c2hs"),
    ("cjs", "text"), ("cjs", "javascript"),
    ("clj", "text"), ("clj", "clojure"),
    ("cljc", "text"), ("cljc", "clojure"),
    ("cljs", "text"), ("cljs", "clojure"), ("cljs", "clojurescript"),
    ("cmake", "text"), ("cmake", "cmake"),
    ("cnf", "text"),
    ("coffee", "text"), ("coffee", "coffee"),
    ("conf", "text"),
    ("cpp", "text"), ("cpp", "c++"),
    ("cppm", "text"), ("cppm", "c++"),
    ("cr", "text"), ("cr", "crystal"),
    ("crt", "text"), ("crt", "pem"),
    ("cs", "text"), ("cs", "c#"),
    ("csh", "text"), ("csh", "shell"), ("csh", "csh"),
    ("cson", "text"), ("cson", "cson"),
    ("csproj", "text"), ("csproj", "xml"), ("csproj", "csproj"), ("csproj", "msbuild"),
    ("css", "text"), ("css", "css"),
    ("csv", "text"), ("csv", "csv"),
    ("cu", "text"), ("cu", "cuda"),
    ("cue", "text"), ("cue", "cue"),
    ("cuh", "text"), ("cuh", "cuda"),
    ("cxx", "text"), ("cxx", "c++"),
    ("cxxm", "text"), ("cxxm", "c++"),
    ("cylc", "text"), ("cylc", "cylc"),
    ("dart", "text"), ("dart", "dart"),
    ("dbc", "text"), ("dbc", "dbc"),
    ("def", "text"), ("def", "def"),
    ("dll", "binary"),
    ("dtd", "text"), ("dtd", "dtd"),
    ("ear", "binary"), ("ear", "zip"), ("ear", "jar"),
    ("edn", "text"), ("edn", "clojure"), ("edn", "edn"),
    ("ejs", "text"), ("ejs", "ejs"),
    ("ejson", "text"), ("ejson", "json"), ("ejson", "ejson"),
    ("elm", "text"), ("elm", "elm"),
    ("env", "text"), ("env", "dotenv"),
    ("eot", "binary"), ("eot", "eot"),
    ("eps", "binary"), ("eps", "eps"),
    ("erb", "text"), ("erb", "erb"),
    ("erl", "text"), ("erl", "erlang"),
    ("ex", "text"), ("ex", "elixir"),
    ("exe", "binary"),
    ("exs", "text"), ("exs", "elixir"),
    ("eyaml", "text"), ("eyaml", "yaml"),
    ("f03", "text"), ("f03", "fortran"),
    ("f08", "text"), ("f08", "fortran"),
    ("f90", "text"), ("f90", "fortran"),
    ("f95", "text"), ("f95", "fortran"),
    ("feature", "text"), ("feature", "gherkin"),
    ("fish", "text"), ("fish", "fish"),
    ("fits", "binary"), ("fits", "fits"),
    ("fs", "text"), ("fs", "f#"),
    ("fsproj", "text"), ("fsproj", "xml"), ("fsproj", "fsproj"), ("fsproj", "msbuild"),
    ("fsx", "text"), ("fsx", "f#"), ("fsx", "f#script"),
    ("gd", "text"), ("gd", "gdscript"),
    ("gemspec", "text"), ("gemspec", "ruby"),
    ("geojson", "text"), ("geojson", "geojson"), ("geojson", "json"),
    ("ggb", "binary"), ("ggb", "zip"), ("ggb", "ggb"),
    ("gif", "binary"), ("gif", "image"), ("gif", "gif"),
    ("gleam", "text"), ("gleam", "gleam"),
    ("go", "text"), ("go", "go"),
    ("gotmpl", "text"), ("gotmpl", "gotmpl"),
    ("gpx", "text"), ("gpx", "gpx"), ("gpx", "xml"),
    ("gradle", "text"), ("gradle", "groovy"),
    ("graphql", "text"), ("graphql", "graphql"),
    ("groovy", "text"), ("groovy", "groovy"),
    ("gyb", "text"), ("gyb", "gyb"),
    ("gyp", "text"), ("gyp", "gyp"), ("gyp", "python"),
    ("gypi", "text"), ("gypi", "gyp"), ("gypi", "python"),
    ("gz", "binary"), ("gz", "gzip"),
    ("h", "text"), ("h", "header"), ("h", "c"), ("h", "c++"),
    ("hbs", "text"), ("hbs", "handlebars"),
    ("hcl", "text"), ("hcl", "hcl"),
    ("hh", "text"), ("hh", "header"), ("hh", "c++"),
    ("hpp", "text"), ("hpp", "header"), ("hpp", "c++"),
    ("hrl", "text"), ("hrl", "erlang"),
    ("hs", "text"), ("hs", "haskell"),
    ("htm", "text"), ("htm", "html"),
    ("html", "text"), ("html", "html"),
    ("hxx", "text"), ("hxx", "header"), ("hxx", "c++"),
    ("icns", "binary"), ("icns", "icns"),
    ("ico", "binary"), ("ico", "icon"),
    ("ics", "text"), ("ics", "icalendar"),
    ("idl", "text"), ("idl", "idl"),
    ("idr", "text"), ("idr", "idris"),
    ("inc", "text"), ("inc", "inc"),
    ("ini", "text"), ("ini", "ini"),
    ("inl", "text"), ("inl", "inl"), ("inl", "c++"),
    ("ino", "text"), ("ino", "ino"), ("ino", "c++"),
    ("inx", "text"), ("inx", "xml"), ("inx", "inx"),
    ("ipynb", "text"), ("ipynb", "jupyter"), ("ipynb", "json"),
    ("ixx", "text"), ("ixx", "c++"),
    ("j2", "text"), ("j2", "jinja"),
    ("jade", "text"), ("jade", "jade"),
    ("jar", "binary"), ("jar", "zip"), ("jar", "jar"),
    ("java", "text"), ("java", "java"),
    ("jenkins", "text"), ("jenkins", "groovy"), ("jenkins", "jenkins"),
    ("jenkinsfile", "text"), ("jenkinsfile", "groovy"), ("jenkinsfile", "jenkins"),
    ("jinja", "text"), ("jinja", "jinja"),
    ("jinja2", "text"), ("jinja2", "jinja"),
    ("jl", "text"), ("jl", "julia"),
    ("jpeg", "binary"), ("jpeg", "image"), ("jpeg", "jpeg"),
    ("jpg", "binary"), ("jpg", "image"), ("jpg", "jpeg"),
    ("js", "text"), ("js", "javascript"),
    ("json", "text"), ("json", "json"),
    ("json5", "text"), ("json5", "json5"),
    ("jsonld", "text"), ("jsonld", "json"), ("jsonld", "jsonld"),
    ("jsonnet", "text"), ("jsonnet", "jsonnet"),
    ("jsx", "text"), ("jsx", "jsx"),
    ("key", "text"), ("key", "pem"),
    ("kml", "text"), ("kml", "kml"), ("kml", "xml"),
    ("kt", "text"), ("kt", "kotlin"),
    ("kts", "text"), ("kts", "kotlin"),
    ("lean", "text"), ("lean", "lean"),
    ("lektorproject", "text"), ("lektorproject", "ini"), ("lektorproject", "lektorproject"),
    ("less", "text"), ("less", "less"),
    ("lfm", "text"), ("lfm", "lazarus"), ("lfm", "lazarus-form"),
    ("lhs", "text"), ("lhs", "literate-haskell"),
    ("libsonnet", "text"), ("libsonnet", "jsonnet"),
    ("lidr", "text"), ("lidr", "idris"),
    ("liquid", "text"), ("liquid", "liquid"),
    ("lpi", "text"), ("lpi", "lazarus"), ("lpi", "xml"),
    ("lpr", "text"), ("lpr", "lazarus"), ("lpr", "pascal"),
    ("lr", "text"), ("lr", "lektor"),
    ("lua", "text"), ("lua", "lua"),
    ("m", "text"), ("m", "objective-c"),
    ("m4", "text"), ("m4", "m4"),
    ("magik", "text"), ("magik", "magik"),
    ("make", "text"), ("make", "makefile"),
    ("manifest", "text"), ("manifest", "manifest"),
    ("map", "text"), ("map", "map"),
    ("markdown", "text"), ("markdown", "markdown"),
    ("md", "text"), ("md", "markdown"),
    ("mdx", "text"), ("mdx", "mdx"),
    ("meson", "text"), ("meson", "meson"),
    ("metal", "text"), ("metal", "metal"),
    ("mib", "text"), ("mib", "mib"),
    ("mjs", "text"), ("mjs", "javascript"),
    ("mk", "text"), ("mk", "makefile"),
    ("ml", "text"), ("ml", "ocaml"),
    ("mli", "text"), ("mli", "ocaml"),
    ("mm", "text"), ("mm", "c++"), ("mm", "objective-c++"),
    ("modulemap", "text"), ("modulemap", "modulemap"),
    ("mscx", "text"), ("mscx", "xml"), ("mscx", "musescore"),
    ("mscz", "binary"), ("mscz", "zip"), ("mscz", "musescore"),
    ("mustache", "text"), ("mustache", "mustache"),
    ("myst", "text"), ("myst", "myst"),
    ("ngdoc", "text"), ("ngdoc", "ngdoc"),
    ("nim", "text"), ("nim", "nim"),
    ("nimble", "text"), ("nimble", "nimble"),
    ("nims", "text"), ("nims", "nim"),
    ("nix", "text"), ("nix", "nix"),
    ("njk", "text"), ("njk", "nunjucks"),
    ("otf", "binary"), ("otf", "otf"),
    ("p12", "binary"), ("p12", "p12"),
    ("pas", "text"), ("pas", "pascal"),
    ("patch", "text"), ("patch", "diff"),
    ("pdf", "binary"), ("pdf", "pdf"),
    ("pem", "text"), ("pem", "pem"),
    ("php", "text"), ("php", "php"),
    ("php4", "text"), ("php4", "php"),
    ("php5", "text"), ("php5", "php"),
    ("phtml", "text"), ("phtml", "php"),
    ("pl", "text"), ("pl", "perl"),
    ("plantuml", "text"), ("plantuml", "plantuml"),
    ("pm", "text"), ("pm", "perl"),
    ("png", "binary"), ("png", "image"), ("png", "png"),
    ("po", "text"), ("po", "pofile"),
    ("pom", "text"), ("pom", "pom"), ("pom", "xml"),
    ("pp", "text"), ("pp", "puppet"),
    ("prisma", "text"), ("prisma", "prisma"),
    ("properties", "text"), ("properties", "java-properties"),
    ("props", "text"), ("props", "xml"), ("props", "msbuild"),
    ("proto", "text"), ("proto", "proto"),
    ("ps1", "text"), ("ps1", "powershell"),
    ("psd1", "text"), ("psd1", "powershell"),
    ("psm1", "text"), ("psm1", "powershell"),
    ("pug", "text"), ("pug", "pug"),
    ("puml", "text"), ("puml", "plantuml"),
    ("purs", "text"), ("purs", "purescript"),
    ("pxd", "text"), ("pxd", "cython"),
    ("pxi", "text"), ("pxi", "cython"),
    ("py", "text"), ("py", "python"),
    ("pyi", "text"), ("pyi", "pyi"),
    ("pyproj", "text"), ("pyproj", "xml"), ("pyproj", "pyproj"), ("pyproj", "msbuild"),
    ("pyt", "text"), ("pyt", "python"),
    ("pyx", "text"), ("pyx", "cython"),
    ("pyz", "binary"), ("pyz", "pyz"),
    ("pyzw", "binary"), ("pyzw", "pyz"),
    ("qml", "text"), ("qml", "qml"),
    ("r", "text"), ("r", "r"),
    ("rake", "text"), ("rake", "ruby"),
    ("rb", "text"), ("rb", "ruby"),
    ("resx", "text"), ("resx", "resx"), ("resx", "xml"),
    ("rng", "text"), ("rng", "xml"), ("rng", "relax-ng"),
    ("rs", "text"), ("rs", "rust"),
    ("rst", "text"), ("rst", "rst"),
    ("s", "text"), ("s", "asm"),
    ("sas", "text"), ("sas", "sas"),
    ("sass", "text"), ("sass", "sass"),
    ("sbt", "text"), ("sbt", "sbt"), ("sbt", "scala"),
    ("sc", "text"), ("sc", "scala"),
    ("scala", "text"), ("scala", "scala"),
    ("scm", "text"), ("scm", "scheme"),
    ("scss", "text"), ("scss", "scss"),
    ("sh", "text"), ("sh", "shell"),
    ("sln", "text"), ("sln", "sln"),
    ("sls", "text"), ("sls", "salt"),
    ("so", "binary"),
    ("sol", "text"), ("sol", "solidity"),
    ("spec", "text"), ("spec", "spec"),
    ("sql", "text"), ("sql", "sql"),
    ("ss", "text"), ("ss", "scheme"),
    ("sty", "text"), ("sty", "tex"),
    ("styl", "text"), ("styl", "stylus"),
    ("sv", "text"), ("sv", "system-verilog"),
    ("svelte", "text"), ("svelte", "svelte"),
    ("svg", "text"), ("svg", "image"), ("svg", "svg"), ("svg", "xml"),
    ("svh", "text"), ("svh", "system-verilog"),
    ("swf", "binary"), ("swf", "swf"),
    ("swift", "text"), ("swift", "swift"),
    ("swiftdeps", "text"), ("swiftdeps", "swiftdeps"),
    ("tac", "text"), ("tac", "twisted"), ("tac", "python"),
    ("tar", "binary"), ("tar", "tar"),
    ("tex", "text"), ("tex", "tex"),
    ("textproto", "text"), ("textproto", "textproto"),
    ("tf", "text"), ("tf", "terraform"),
    ("tfvars", "text"), ("tfvars", "terraform"),
    ("tgz", "binary"), ("tgz", "gzip"),
    ("thrift", "text"), ("thrift", "thrift"),
    ("tiff", "binary"), ("tiff", "image"), ("tiff", "tiff"),
    ("toml", "text"), ("toml", "toml"),
    ("ts", "text"), ("ts", "ts"),
    ("tsv", "text"), ("tsv", "tsv"),
    ("tsx", "text"), ("tsx", "tsx"),
    ("ttf", "binary"), ("ttf", "ttf"),
    ("twig", "text"), ("twig", "twig"),
    ("txsprofile", "text"), ("txsprofile", "ini"), ("txsprofile", "txsprofile"),
    ("txt", "text"), ("txt", "plain-text"),
    ("txtpb", "text"), ("txtpb", "textproto"),
    ("urdf", "text"), ("urdf", "xml"), ("urdf", "urdf"),
    ("v", "text"), ("v", "verilog"),
    ("vb", "text"), ("vb", "vb"),
    ("vbproj", "text"), ("vbproj", "xml"), ("vbproj", "vbproj"), ("vbproj", "msbuild"),
    ("vcxproj", "text"), ("vcxproj", "xml"), ("vcxproj", "vcxproj"), ("vcxproj", "msbuild"),
    ("vdx", "text"), ("vdx", "vdx"),
    ("vh", "text"), ("vh", "verilog"),
    ("vhd", "text"), ("vhd", "vhdl"),
    ("vim", "text"), ("vim", "vim"),
    ("vtl", "text"), ("vtl", "vtl"),
    ("vue", "text"), ("vue", "vue"),
    ("war", "binary"), ("war", "zip"), ("war", "jar"),
    ("wav", "binary"), ("wav", "audio"), ("wav", "wav"),
    ("webp", "binary"), ("webp", "image"), ("webp", "webp"),
    ("whl", "binary"), ("whl", "wheel"), ("whl", "zip"),
    ("wkt", "text"), ("wkt", "wkt"),
    ("woff", "binary"), ("woff", "woff"),
    ("woff2", "binary"), ("woff2", "woff2"),
    ("wsdl", "text"), ("wsdl", "xml"), ("wsdl", "wsdl"),
    ("wsgi", "text"), ("wsgi", "wsgi"), ("wsgi", "python"),
    ("xacro", "text"), ("xacro", "xml"), ("xacro", "urdf"), ("xacro", "xacro"),
    ("xctestplan", "text"), ("xctestplan", "json"),
    ("xhtml", "text"), ("xhtml", "xml"), ("xhtml", "html"), ("xhtml", "xhtml"),
    ("xml", "text"), ("xml", "xml"),
    ("xq", "text"), ("xq", "xquery"),
    ("xql", "text"), ("xql", "xquery"),
    ("xqm", "text"), ("xqm", "xquery"),
    ("xqu", "text"), ("xqu", "xquery"),
    ("xquery", "text"), ("xquery", "xquery"),
    ("xqy", "text"), ("xqy", "xquery"),
    ("xsd", "text"), ("xsd", "xml"), ("xsd", "xsd"),
    ("xsl", "text"), ("xsl", "xml"), ("xsl", "xsl"),
    ("xslt", "text"), ("xslt", "xml"), ("xslt", "xsl"),
    ("yaml", "text"), ("yaml", "yaml"),
    ("yamlld", "text"), ("yamlld", "yaml"), ("yamlld", "yamlld"),
    ("yang", "text"), ("yang", "yang"),
    ("yin", "text"), ("yin", "xml"), ("yin", "yin"),
    ("yml", "text"), ("yml", "yaml"),
    ("zcml", "text"), ("zcml", "xml"), ("zcml", "zcml"),
    ("zig", "text"), ("zig", "zig"),
    ("zip", "binary"), ("zip", "zip"),
    ("zpt", "text"), ("zpt", "zpt"),
    ("zsh", "text"), ("zsh", "shell"), ("zsh", "zsh"),
];

/// The tags of each extension whose files may hold text or binary data: the
/// encoding of such a file is read from its content.
pub const EXTENSIONS_NEED_BINARY_CHECK_TAGS: [(&'static str, &'static str); 3] = [
    ("plist", "plist"),
    ("ppm", "image"), ("ppm", "ppm"),
];

/// The tags of each recognized file name.
/// The rows are sorted by name, and every name here has exactly one of the tags
/// `text` and `binary` (`lemma_name_table_is_sound`).
pub const NAME_TAGS: [(&'static str, &'static str); 205] = [
    (".babelrc", "text"), (".babelrc", "json"), (".babelrc", "babelrc"),
    (".bash_aliases", "text"), (".bash_aliases", "shell"), (".bash_aliases", "bash"),
    (".bash_profile", "text"), (".bash_profile", "shell"), (".bash_profile", "bash"),
    (".bashrc", "text"), (".bashrc", "shell"), (".bashrc", "bash"),
    (".bazelrc", "text"), (".bazelrc", "bazelrc"),
    (".bowerrc", "text"), (".bowerrc", "json"), (".bowerrc", "bowerrc"),
    (".browserslistrc", "text"), (".browserslistrc", "browserslistrc"),
    (".clang-format", "text"), (".clang-format", "yaml"),
    (".clang-tidy", "text"), (".clang-tidy", "yaml"),
    (".codespellrc", "text"), (".codespellrc", "ini"), (".codespellrc", "codespellrc"),
    (".coveragerc", "text"), (".coveragerc", "ini"), (".coveragerc", "coveragerc"),
    (".cshrc", "text"), (".cshrc", "shell"), (".cshrc", "csh"),
    (".csslintrc", "text"), (".csslintrc", "json"), (".csslintrc", "csslintrc"),
    (".dockerignore", "text"), (".dockerignore", "dockerignore"),
    (".editorconfig", "text"), (".editorconfig", "editorconfig"),
    (".envrc", "text"), (".envrc", "shell"), (".envrc", "bash"),
    (".flake8", "text"), (".flake8", "ini"), (".flake8", "flake8"),
    (".gitattributes", "text"), (".gitattributes", "gitattributes"),
    (".gitconfig", "text"), (".gitconfig", "ini"), (".gitconfig", "gitconfig"),
    (".gitignore", "text"), (".gitignore", "gitignore"),
    (".gitlint", "text"), (".gitlint", "ini"), (".gitlint", "gitlint"),
    (".gitmodules", "text"), (".gitmodules", "gitmodules"),
    (".hgrc", "text"), (".hgrc", "ini"), (".hgrc", "hgrc"),
    (".isort.cfg", "text"), (".isort.cfg", "ini"), (".isort.cfg", "isort"),
    (".jshintrc", "text"), (".jshintrc", "json"), (".jshintrc", "jshintrc"),
    (".mailmap", "text"), (".mailmap", "mailmap"),
    (".mention-bot", "text"), (".mention-bot", "json"), (".mention-bot", "mention-bot"),
    (".npmignore", "text"), (".npmignore", "npmignore"),
    (".pdbrc", "text"), (".pdbrc", "python"), (".pdbrc", "pdbrc"),
    (".prettierignore", "text"), (".prettierignore", "gitignore"), (".prettierignore", "prettierignore"),
    (".pypirc", "text"), (".pypirc", "ini"), (".pypirc", "pypirc"),
    (".rstcheck.cfg", "text"), (".rstcheck.cfg", "ini"),
    (".salt-lint", "text"), (".salt-lint", "yaml"), (".salt-lint", "salt-lint"),
    (".sqlfluff", "text"), (".sqlfluff", "ini"),
    (".yamllint", "text"), (".yamllint", "yaml"), (".yamllint", "yamllint"),
    (".zlogin", "text"), (".zlogin", "shell"), (".zlogin", "zsh"),
    (".zlogout", "text"), (".zlogout", "shell"), (".zlogout", "zsh"),
    (".zprofile", "text"), (".zprofile", "shell"), (".zprofile", "zsh"),
    (".zshenv", "text"), (".zshenv", "shell"), (".zshenv", "zsh"),
    (".zshrc", "text"), (".zshrc", "shell"), (".zshrc", "zsh"),
    ("AUTHORS", "text"), ("AUTHORS", "plain-text"),
    ("BUILD", "text"), ("BUILD", "bazel"),
    ("CHANGELOG", "text"), ("CHANGELOG", "plain-text"),
    ("CMakeLists.txt", "text"), ("CMakeLists.txt", "cmake"),
    ("CONTRIBUTING", "text"), ("CONTRIBUTING", "plain-text"),
    ("COPYING", "text"), ("COPYING", "plain-text"),
    ("Cargo.lock", "text"), ("Cargo.lock", "toml"), ("Cargo.lock", "cargo-lock"),
    ("Cargo.toml", "text"), ("Cargo.toml", "toml"), ("Cargo.toml", "cargo"),
    ("Containerfile", "text"), ("Containerfile", "dockerfile"),
    ("Dockerfile", "text"), ("Dockerfile", "dockerfile"),
    ("GNUmakefile", "text"), ("GNUmakefile", "makefile"),
    ("Gemfile", "text"), ("Gemfile", "ruby"),
    ("Gemfile.lock", "text"),
    ("Jakefile", "text"), ("Jakefile", "javascript"),
    ("Jenkinsfile", "text"), ("Jenkinsfile", "groovy"), ("Jenkinsfile", "jenkins"),
    ("LICENSE", "text"), ("LICENSE", "plain-text"),
    ("MAINTAINERS", "text"), ("MAINTAINERS", "plain-text"),
    ("Makefile", "text"), ("Makefile", "makefile"),
    ("NEWS", "text"), ("NEWS", "plain-text"),
    ("NOTICE", "text"), ("NOTICE", "plain-text"),
    ("PATENTS", "text"), ("PATENTS", "plain-text"),
    ("PKGBUILD", "text"), ("PKGBUILD", "bash"), ("PKGBUILD", "pkgbuild"), ("PKGBUILD", "alpm"),
    ("Pipfile", "text"), ("Pipfile", "toml"),
    ("Pipfile.lock", "text"), ("Pipfile.lock", "json"),
    ("README", "text"), ("README", "plain-text"),
    ("Rakefile", "text"), ("Rakefile", "ruby"),
    ("Tiltfile", "text"), ("Tiltfile", "tiltfile"),
    ("Vagrantfile", "text"), ("Vagrantfile", "ruby"),
    ("WORKSPACE", "text"), ("WORKSPACE", "bazel"),
    ("bblayers.conf", "text"), ("bblayers.conf", "bitbake"),
    ("bitbake.conf", "text"), ("bitbake.conf", "bitbake"),
    ("config.ru", "text"), ("config.ru", "ruby"),
    ("copy.bara.sky", "text"), ("copy.bara.sky", "bazel"),
    ("go.mod", "text"), ("go.mod", "go-mod"),
    ("go.sum", "text"), ("go.sum", "go-sum"),
    ("makefile", "text"), ("makefile", "makefile"),
    ("meson.build", "text"), ("meson.build", "meson"),
    ("meson_options.txt", "text"), ("meson_options.txt", "meson"),
    ("poetry.lock", "text"), ("poetry.lock", "toml"),
    ("pom.xml", "text"), ("pom.xml", "pom"), ("pom.xml", "xml"),
    ("pylintrc", "text"), ("pylintrc", "ini"), ("pylintrc", "pylintrc"),
    ("rebar.config", "text"), ("rebar.config", "erlang"),
    ("setup.cfg", "text"), ("setup.cfg", "ini"),
    ("sys.config", "text"), ("sys.config", "erlang"),
    ("sys.config.src", "text"), ("sys.config.src", "erlang"),
    ("wscript", "text"), ("wscript", "python"),
];

/// The tags of a recognized extension.
pub open spec fn extension_tags(ext: Seq<char>) -> Set<Seq<char>> {
    table_tags(EXTENSION_TAGS@, ext)
}

/// The tags of an extension whose encoding is read from content.
pub open spec fn binary_check_tags(ext: Seq<char>) -> Set<Seq<char>> {
    table_tags(EXTENSIONS_NEED_BINARY_CHECK_TAGS@, ext)
}

/// The tags of a recognized file name.
pub open spec fn name_tags(name: Seq<char>) -> Set<Seq<char>> {
    table_tags(NAME_TAGS@, name)
}

/// The tags of an extension (empty when it is not recognized).
pub fn get_extension_tags(ext: &str) -> (r: TagSet)
    ensures
        r@ == extension_tags(ext@),
{
    lookup_tags(&EXTENSION_TAGS, ext)
}

/// The tags of an extension whose encoding is read from content (empty when
/// it is not one).
pub fn get_extensions_need_binary_check_tags(ext: &str) -> (r: TagSet)
    ensures
        r@ == binary_check_tags(ext@),
{
    lookup_tags(&EXTENSIONS_NEED_BINARY_CHECK_TAGS, ext)
}

/// The tags of a file name (empty when it is not recognized).
pub fn get_name_tags(name: &str) -> (r: TagSet)
    ensures
        r@ == name_tags(name@),
{
    lookup_tags(&NAME_TAGS, name)
}

/// No extension whose encoding is read from content gives `text` or `binary`.
pub proof fn lemma_binary_check_rows_have_no_encoding()
    ensures
        rows_have_no_encoding(EXTENSIONS_NEED_BINARY_CHECK_TAGS@),
{
    reveal_strlit("text");
    reveal_strlit("binary");
    reveal_strlit("plist");
    reveal_strlit("image");
    reveal_strlit("ppm");
    let t = EXTENSIONS_NEED_BINARY_CHECK_TAGS@;
    assert(t[0].1@ == "plist"@);
    assert(t[1].1@ == "image"@);
    assert(t[2].1@ == "ppm"@);
}

/// When every key of a table has exactly one encoding tag, so does every key it
/// recognizes.
pub proof fn lemma_recognized_key_has_one_encoding(table: Seq<(&'static str, &'static str)>, key: Seq<char>)
    requires
        keys_have_one_encoding(table),
        table_tags(table, key) != Set::<Seq<char>>::empty(),
    ensures
        has_one_encoding(table_tags(table, key)),
{
    let s = table_tags(table, key);
    if !(exists|x: Seq<char>| s.contains(x)) {
        assert(s =~= Set::<Seq<char>>::empty());
    }
    let t = s.choose();
    assert(s.contains(t));
    let i = choose|i: int| 0 <= i < table.len() && (#[trigger] table[i]).0@ == key && table[i].1@ == t;
    assert(has_one_encoding(table_tags(table, table[i].0@)));
}

} // verus!

//! The lookup tables' own rules, proved row by row: each table is sorted by key,
//! every key has exactly one of the tags `text` and `binary`, and no extension
//! whose encoding is read from content is also an ordinary extension.

use vstd::prelude::*;

use crate::extensions::{
    extension_tags, has_one_encoding, keys_disjoint, keys_have_one_encoding,
    lemma_recognized_key_has_one_encoding, name_tags, EXTENSIONS_NEED_BINARY_CHECK_TAGS,
    EXTENSION_TAGS, NAME_TAGS,
};
use crate::table_order::{
    keys_sorted, lemma_key_between_rows_absent, lemma_scan_end, lemma_scan_first, lemma_scan_new,
    lemma_scan_same, lex_lt, scanned,
};

verus! {

proof fn lemma_extension_rows_0_to_40()
    ensures
        scanned(EXTENSION_TAGS@, 40, true, false),
{
    reveal_strlit("adobe-illustrator");
    reveal_strlit("adoc");
    reveal_strlit("ai");
    reveal_strlit("aj");
    reveal_strlit("apinotes");
    reveal_strlit("asar");
    reveal_strlit("asciidoc");
    reveal_strlit("aspectj");
    reveal_strlit("astro");
    reveal_strlit("avif");
    reveal_strlit("avro-schema");
    reveal_strlit("avsc");
    reveal_strlit("bash");
    reveal_strlit("bat");
    reveal_strlit("batch");
    reveal_strlit("bats");
    reveal_strlit("bazel");
    reveal_strlit("bb");
    reveal_strlit("bbappend");
    reveal_strlit("bbclass");
    reveal_strlit("beancount");
    reveal_strlit("bib");
    reveal_strlit("binary");
    reveal_strlit("bitbake");
    reveal_strlit("image");
    reveal_strlit("shell");
    reveal_strlit("text");
    assert("text"@.len() == 4);
    assert("binary"@.len() == 6);
    assert("adobe-illustrator"@.len() == 17);
    assert("apinotes"@.len() == 8);
    assert("asar"@.len() == 4);
    assert("asar"@[0] == 'a' && "text"@[0] == 't');
    assert("asciidoc"@.len() == 8);
    assert("aspectj"@.len() == 7);
    assert("astro"@.len() == 5);
    assert("avif"@.len() == 4);
    assert("avif"@[0] == 'a' && "text"@[0] == 't');
    assert("avro-schema"@.len() == 11);
    assert("bash"@.len() == 4);
    assert("bash"@[0] == 'b' && "text"@[0] == 't');
    assert("batch"@.len() == 5);
    assert("bats"@.len() == 4);
    assert("bats"@[0] == 'b' && "text"@[0] == 't');
    assert("bazel"@.len() == 5);
    assert("beancount"@.len() == 9);
    assert("bib"@.len() == 3);
    assert("bitbake"@.len() == 7);
    assert("image"@.len() == 5);
    assert("shell"@.len() == 5);
    reveal_with_fuel(lex_lt, 5);
    let t = EXTENSION_TAGS@;
    lemma_scan_first(t);
    lemma_scan_same(t, 1, true, false);
    lemma_scan_new(t, 2, true, false);
    lemma_scan_same(t, 3, false, true);
    lemma_scan_new(t, 4, false, true);
    lemma_scan_same(t, 5, true, false);
    lemma_scan_new(t, 6, true, false);
    lemma_scan_same(t, 7, true, false);
    lemma_scan_new(t, 8, true, false);
    lemma_scan_same(t, 9, false, true);
    lemma_scan_new(t, 10, false, true);
    lemma_scan_same(t, 11, true, false);
    lemma_scan_new(t, 12, true, false);
    lemma_scan_same(t, 13, true, false);
    lemma_scan_new(t, 14, true, false);
    lemma_scan_same(t, 15, false, true);
    lemma_scan_same(t, 16, false, true);
    lemma_scan_new(t, 17, false, true);
    lemma_scan_same(t, 18, true, false);
    lemma_scan_new(t, 19, true, false);
    lemma_scan_same(t, 20, true, false);
    lemma_scan_same(t, 21, true, false);
    lemma_scan_new(t, 22, true, false);
    lemma_scan_same(t, 23, true, false);
    lemma_scan_new(t, 24, true, false);
    lemma_scan_same(t, 25, true, false);
    lemma_scan_same(t, 26, true, false);
    lemma_scan_same(t, 27, true, false);
    lemma_scan_new(t, 28, true, false);
    lemma_scan_same(t, 29, true, false);
    lemma_scan_new(t, 30, true, false);
    lemma_scan_same(t, 31, true, false);
    lemma_scan_new(t, 32, true, false);
    lemma_scan_same(t, 33, true, false);
    lemma_scan_new(t, 34, true, false);
    lemma_scan_same(t, 35, true, false);
    lemma_scan_new(t, 36, true, false);
    lemma_scan_same(t, 37, true, false);
    lemma_scan_new(t, 38, true, false);
    lemma_scan_same(t, 39, true, false);
}

proof fn lemma_extension_rows_40_to_80()
    requires
        scanned(EXTENSION_TAGS@, 40, true, false),
    ensures
        scanned(EXTENSION_TAGS@, 80, true, false),
{
    reveal_strlit("bazel");
    reveal_strlit("bib");
    reveal_strlit("binary");
    reveal_strlit("bitmap");
    reveal_strlit("bmp");
    reveal_strlit("bz2");
    reveal_strlit("bz3");
    reveal_strlit("bzip2");
    reveal_strlit("bzip3");
    reveal_strlit("bzl");
    reveal_strlit("c");
    reveal_strlit("c++");
    reveal_strlit("c++m");
    reveal_strlit("c2hs");
    reveal_strlit("cc");
    reveal_strlit("ccm");
    reveal_strlit("cfg");
    reveal_strlit("chs");
    reveal_strlit("cjs");
    reveal_strlit("clj");
    reveal_strlit("cljc");
    reveal_strlit("cljs");
    reveal_strlit("clojure");
    reveal_strlit("clojurescript");
    reveal_strlit("cmake");
    reveal_strlit("cnf");
    reveal_strlit("coffee");
    reveal_strlit("conf");
    reveal_strlit("cpp");
    reveal_strlit("cppm");
    reveal_strlit("image");
    reveal_strlit("javascript");
    reveal_strlit("text");
    assert("text"@.len() == 4);
    assert("binary"@.len() == 6);
    assert("bazel"@.len() == 5);
    assert("bitmap"@.len() == 6);
    assert("bitmap"@[2] == 't' && "binary"@[2] == 'n');
    assert("bzip2"@.len() == 5);
    assert("bzip3"@.len() == 5);
    assert("c"@.len() == 1);
    assert("c++"@.len() == 3);
    assert("c2hs"@.len() == 4);
    assert("c2hs"@[0] == 'c' && "text"@[0] == 't');
    assert("clojure"@.len() == 7);
    assert("clojurescript"@.len() == 13);
    assert("cmake"@.len() == 5);
    assert("coffee"@.len() == 6);
    assert("coffee"@[0] == 'c' && "binary"@[0] == 'b');
    assert("image"@.len() == 5);
    assert("javascript"@.len() == 10);
    reveal_with_fuel(lex_lt, 5);
    let t = EXTENSION_TAGS@;
    lemma_scan_new(t, 40, true, false);
    lemma_scan_same(t, 41, false, true);
    lemma_scan_same(t, 42, false, true);
    lemma_scan_new(t, 43, false, true);
    lemma_scan_same(t, 44, false, true);
    lemma_scan_new(t, 45, false, true);
    lemma_scan_same(t, 46, false, true);
    lemma_scan_new(t, 47, false, true);
    lemma_scan_same(t, 48, true, false);
    lemma_scan_new(t, 49, true, false);
    lemma_scan_same(t, 50, true, false);
    lemma_scan_new(t, 51, true, false);
    lemma_scan_same(t, 52, true, false);
    lemma_scan_new(t, 53, true, false);
    lemma_scan_same(t, 54, true, false);
    lemma_scan_new(t, 55, true, false);
    lemma_scan_same(t, 56, true, false);
    lemma_scan_new(t, 57, true, false);
    lemma_scan_same(t, 58, true, false);
    lemma_scan_new(t, 59, true, false);
    lemma_scan_new(t, 60, true, false);
    lemma_scan_same(t, 61, true, false);
    lemma_scan_new(t, 62, true, false);
    lemma_scan_same(t, 63, true, false);
    lemma_scan_new(t, 64, true, false);
    lemma_scan_same(t, 65, true, false);
    lemma_scan_new(t, 66, true, false);
    lemma_scan_same(t, 67, true, false);
    lemma_scan_new(t, 68, true, false);
    lemma_scan_same(t, 69, true, false);
    lemma_scan_same(t, 70, true, false);
    lemma_scan_new(t, 71, true, false);
    lemma_scan_same(t, 72, true, false);
    lemma_scan_new(t, 73, true, false);
    lemma_scan_new(t, 74, true, false);
    lemma_scan_same(t, 75, true, false);
    lemma_scan_new(t, 76, true, false);
    lemma_scan_new(t, 77, true, false);
    lemma_scan_same(t, 78, true, false);
    lemma_scan_new(t, 79, true, false);
}

proof fn lemma_extension_rows_80_to_120()
    requires
        scanned(EXTENSION_TAGS@, 80, true, false),
    ensures
        scanned(EXTENSION_TAGS@, 120, true, false),
{
    reveal_strlit("binary");
    reveal_strlit("c#");
    reveal_strlit("c++");
    reveal_strlit("cppm");
    reveal_strlit("cr");
    reveal_strlit("crt");
    reveal_strlit("crystal");
    reveal_strlit("cs");
    reveal_strlit("csh");
    reveal_strlit("cson");
    reveal_strlit("csproj");
    reveal_strlit("css");
    reveal_strlit("csv");
    reveal_strlit("cu");
    reveal_strlit("cuda");
    reveal_strlit("cue");
    reveal_strlit("cuh");
    reveal_strlit("cxx");
    reveal_strlit("cxxm");
    reveal_strlit("cylc");
    reveal_strlit("dart");
    reveal_strlit("dbc");
    reveal_strlit("def");
    reveal_strlit("dll");
    reveal_strlit("dtd");
    reveal_strlit("msbuild");
    reveal_strlit("pem");
    reveal_strlit("shell");
    reveal_strlit("text");
    reveal_strlit("xml");
    assert("text"@.len() == 4);
    assert("binary"@.len() == 6);
    assert("c#"@.len() == 2);
    assert("c++"@.len() == 3);
    assert("crystal"@.len() == 7);
    assert("csh"@.len() == 3);
    assert("cson"@.len() == 4);
    assert("cson"@[0] == 'c' && "text"@[0] == 't');
    assert("csproj"@.len() == 6);
    assert("csproj"@[0] == 'c' && "binary"@[0] == 'b');
    assert("css"@.len() == 3);
    assert("csv"@.len() == 3);
    assert("cuda"@.len() == 4);
    assert("cuda"@[0] == 'c' && "text"@[0] == 't');
    assert("cue"@.len() == 3);
    assert("cylc"@.len() == 4);
    assert("cylc"@[0] == 'c' && "text"@[0] == 't');
    assert("dart"@.len() == 4);
    assert("dart"@[0] == 'd' && "text"@[0] == 't');
    assert("dbc"@.len() == 3);
    assert("def"@.len() == 3);
    assert("msbuild"@.len() == 7);
    assert("pem"@.len() == 3);
    assert("shell"@.len() == 5);
    assert("xml"@.len() == 3);
    reveal_with_fuel(lex_lt, 5);
    let t = EXTENSION_TAGS@;
    lemma_scan_same(t, 80, true, false);
    lemma_scan_new(t, 81, true, false);
    lemma_scan_same(t, 82, true, false);
    lemma_scan_new(t, 83, true, false);
    lemma_scan_same(t, 84, true, false);
    lemma_scan_new(t, 85, true, false);
    lemma_scan_same(t, 86, true, false);
    lemma_scan_new(t, 87, true, false);
    lemma_scan_same(t, 88, true, false);
    lemma_scan_same(t, 89, true, false);
    lemma_scan_new(t, 90, true, false);
    lemma_scan_same(t, 91, true, false);
    lemma_scan_new(t, 92, true, false);
    lemma_scan_same(t, 93, true, false);
    lemma_scan_same(t, 94, true, false);
    lemma_scan_same(t, 95, true, false);
    lemma_scan_new(t, 96, true, false);
    lemma_scan_same(t, 97, true, false);
    lemma_scan_new(t, 98, true, false);
    lemma_scan_same(t, 99, true, false);
    lemma_scan_new(t, 100, true, false);
    lemma_scan_same(t, 101, true, false);
    lemma_scan_new(t, 102, true, false);
    lemma_scan_same(t, 103, true, false);
    lemma_scan_new(t, 104, true, false);
    lemma_scan_same(t, 105, true, false);
    lemma_scan_new(t, 106, true, false);
    lemma_scan_same(t, 107, true, false);
    lemma_scan_new(t, 108, true, false);
    lemma_scan_same(t, 109, true, false);
    lemma_scan_new(t, 110, true, false);
    lemma_scan_same(t, 111, true, false);
    lemma_scan_new(t, 112, true, false);
    lemma_scan_same(t, 113, true, false);
    lemma_scan_new(t, 114, true, false);
    lemma_scan_same(t, 115, true, false);
    lemma_scan_new(t, 116, true, false);
    lemma_scan_same(t, 117, true, false);
    lemma_scan_new(t, 118, true, false);
    lemma_scan_new(t, 119, false, true);
}

proof fn lemma_extension_rows_120_to_160()
    requires
        scanned(EXTENSION_TAGS@, 120, true, false),
    ensures
        scanned(EXTENSION_TAGS@, 160, true, false),
{
    reveal_strlit("binary");
    reveal_strlit("clojure");
    reveal_strlit("dotenv");
    reveal_strlit("dtd");
    reveal_strlit("ear");
    reveal_strlit("edn");
    reveal_strlit("ejs");
    reveal_strlit("ejson");
    reveal_strlit("elixir");
    reveal_strlit("elm");
    reveal_strlit("env");
    reveal_strlit("eot");
    reveal_strlit("eps");
    reveal_strlit("erb");
    reveal_strlit("erl");
    reveal_strlit("erlang");
    reveal_strlit("ex");
    reveal_strlit("exe");
    reveal_strlit("exs");
    reveal_strlit("eyaml");
    reveal_strlit("f03");
    reveal_strlit("f08");
    reveal_strlit("f90");
    reveal_strlit("f95");
    reveal_strlit("feature");
    reveal_strlit("fortran");
    reveal_strlit("jar");
    reveal_strlit("json");
    reveal_strlit("text");
    reveal_strlit("yaml");
    reveal_strlit("zip");
    assert("text"@.len() == 4);
    assert("binary"@.len() == 6);
    assert("clojure"@.len() == 7);
    assert("dotenv"@.len() == 6);
    assert("dotenv"@[0] == 'd' && "binary"@[0] == 'b');
    assert("dtd"@.len() == 3);
    assert("edn"@.len() == 3);
    assert("ejs"@.len() == 3);
    assert("ejson"@.len() == 5);
    assert("elixir"@.len() == 6);
    assert("elixir"@[0] == 'e' && "binary"@[0] == 'b');
    assert("elm"@.len() == 3);
    assert("eot"@.len() == 3);
    assert("eps"@.len() == 3);
    assert("erb"@.len() == 3);
    assert("erlang"@.len() == 6);
    assert("erlang"@[0] == 'e' && "binary"@[0] == 'b');
    assert("fortran"@.len() == 7);
    assert("jar"@.len() == 3);
    assert("json"@.len() == 4);
    assert("json"@[0] == 'j' && "text"@[0] == 't');
    assert("yaml"@.len() == 4);
    assert("yaml"@[0] == 'y' && "text"@[0] == 't');
    assert("zip"@.len() == 3);
    reveal_with_fuel(lex_lt, 5);
    let t = EXTENSION_TAGS@;
    lemma_scan_same(t, 120, true, false);
    lemma_scan_new(t, 121, true, false);
    lemma_scan_same(t, 122, false, true);
    lemma_scan_same(t, 123, false, true);
    lemma_scan_new(t, 124, false, true);
    lemma_scan_same(t, 125, true, false);
    lemma_scan_same(t, 126, true, false);
    lemma_scan_new(t, 127, true, false);
    lemma_scan_same(t, 128, true, false);
    lemma_scan_new(t, 129, true, false);
    lemma_scan_same(t, 130, true, false);
    lemma_scan_same(t, 131, true, false);
    lemma_scan_new(t, 132, true, false);
    lemma_scan_same(t, 133, true, false);
    lemma_scan_new(t, 134, true, false);
    lemma_scan_same(t, 135, true, false);
    lemma_scan_new(t, 136, true, false);
    lemma_scan_same(t, 137, false, true);
    lemma_scan_new(t, 138, false, true);
    lemma_scan_same(t, 139, false, true);
    lemma_scan_new(t, 140, false, true);
    lemma_scan_same(t, 141, true, false);
    lemma_scan_new(t, 142, true, false);
    lemma_scan_same(t, 143, true, false);
    lemma_scan_new(t, 144, true, false);
    lemma_scan_same(t, 145, true, false);
    lemma_scan_new(t, 146, true, false);
    lemma_scan_new(t, 147, false, true);
    lemma_scan_same(t, 148, true, false);
    lemma_scan_new(t, 149, true, false);
    lemma_scan_same(t, 150, true, false);
    lemma_scan_new(t, 151, true, false);
    lemma_scan_same(t, 152, true, false);
    lemma_scan_new(t, 153, true, false);
    lemma_scan_same(t, 154, true, false);
    lemma_scan_new(t, 155, true, false);
    lemma_scan_same(t, 156, true, false);
    lemma_scan_new(t, 157, true, false);
    lemma_scan_same(t, 158, true, false);
    lemma_scan_new(t, 159, true, false);
}

proof fn lemma_extension_rows_160_to_200()
    requires
        scanned(EXTENSION_TAGS@, 160, true, false),
    ensures
        scanned(EXTENSION_TAGS@, 200, true, false),
{
    reveal_strlit("binary");
    reveal_strlit("f#");
    reveal_strlit("f#script");
    reveal_strlit("feature");
    reveal_strlit("fish");
    reveal_strlit("fits");
    reveal_strlit("fs");
    reveal_strlit("fsproj");
    reveal_strlit("fsx");
    reveal_strlit("gd");
    reveal_strlit("gdscript");
    reveal_strlit("gemspec");
    reveal_strlit("geojson");
    reveal_strlit("ggb");
    reveal_strlit("gherkin");
    reveal_strlit("gif");
    reveal_strlit("gleam");
    reveal_strlit("go");
    reveal_strlit("gotmpl");
    reveal_strlit("gpx");
    reveal_strlit("gradle");
    reveal_strlit("graphql");
    reveal_strlit("groovy");
    reveal_strlit("image");
    reveal_strlit("json");
    reveal_strlit("msbuild");
    reveal_strlit("ruby");
    reveal_strlit("text");
    reveal_strlit("xml");
    reveal_strlit("zip");
    assert("text"@.len() == 4);
    assert("binary"@.len() == 6);
    assert("f#"@.len() == 2);
    assert("f#script"@.len() == 8);
    assert("fish"@.len() == 4);
    assert("fish"@[0] == 'f' && "text"@[0] == 't');
    assert("fits"@.len() == 4);
    assert("fits"@[0] == 'f' && "text"@[0] == 't');
    assert("fsproj"@.len() == 6);
    assert("fsproj"@[0] == 'f' && "binary"@[0] == 'b');
    assert("gdscript"@.len() == 8);
    assert("geojson"@.len() == 7);
    assert("ggb"@.len() == 3);
    assert("gherkin"@.len() == 7);
    assert("gif"@.len() == 3);
    assert("gleam"@.len() == 5);
    assert("go"@.len() == 2);
    assert("gotmpl"@.len() == 6);
    assert("gotmpl"@[0] == 'g' && "binary"@[0] == 'b');
    assert("gpx"@.len() == 3);
    assert("graphql"@.len() == 7);
    assert("groovy"@.len() == 6);
    assert("groovy"@[0] == 'g' && "binary"@[0] == 'b');
    assert("image"@.len() == 5);
    assert("json"@.len() == 4);
    assert("json"@[0] == 'j' && "text"@[0] == 't');
    assert("msbuild"@.len() == 7);
    assert("ruby"@.len() == 4);
    assert("ruby"@[0] == 'r' && "text"@[0] == 't');
    assert("xml"@.len() == 3);
    assert("zip"@.len() == 3);
    reveal_with_fuel(lex_lt, 5);
    let t = EXTENSION_TAGS@;
    lemma_scan_same(t, 160, true, false);
    lemma_scan_new(t, 161, true, false);
    lemma_scan_same(t, 162, true, false);
    lemma_scan_new(t, 163, true, false);
    lemma_scan_same(t, 164, false, true);
    lemma_scan_new(t, 165, false, true);
    lemma_scan_same(t, 166, true, false);
    lemma_scan_new(t, 167, true, false);
    lemma_scan_same(t, 168, true, false);
    lemma_scan_same(t, 169, true, false);
    lemma_scan_same(t, 170, true, false);
    lemma_scan_new(t, 171, true, false);
    lemma_scan_same(t, 172, true, false);
    lemma_scan_same(t, 173, true, false);
    lemma_scan_new(t, 174, true, false);
    lemma_scan_same(t, 175, true, false);
    lemma_scan_new(t, 176, true, false);
    lemma_scan_same(t, 177, true, false);
    lemma_scan_new(t, 178, true, false);
    lemma_scan_same(t, 179, true, false);
    lemma_scan_same(t, 180, true, false);
    lemma_scan_new(t, 181, true, false);
    lemma_scan_same(t, 182, false, true);
    lemma_scan_same(t, 183, false, true);
    lemma_scan_new(t, 184, false, true);
    lemma_scan_same(t, 185, false, true);
    lemma_scan_same(t, 186, false, true);
    lemma_scan_new(t, 187, false, true);
    lemma_scan_same(t, 188, true, false);
    lemma_scan_new(t, 189, true, false);
    lemma_scan_same(t, 190, true, false);
    lemma_scan_new(t, 191, true, false);
    lemma_scan_same(t, 192, true, false);
    lemma_scan_new(t, 193, true, false);
    lemma_scan_same(t, 194, true, false);
    lemma_scan_same(t, 195, true, false);
    lemma_scan_new(t, 196, true, false);
    lemma_scan_same(t, 197, true, false);
    lemma_scan_new(t, 198, true, false);
    lemma_scan_same(t, 199, true, false);
}

proof fn lemma_extension_rows_200_to_240()
    requires
        scanned(EXTENSION_TAGS@, 200, true, false),
    ensures
        scanned(EXTENSION_TAGS@, 240, false, true),
{
    reveal_strlit("binary");
    reveal_strlit("c");
    reveal_strlit("c++");
    reveal_strlit("erlang");
    reveal_strlit("graphql");
    reveal_strlit("groovy");
    reveal_strlit("gyb");
    reveal_strlit("gyp");
    reveal_strlit("gypi");
    reveal_strlit("gz");
    reveal_strlit("gzip");
    reveal_strlit("h");
    reveal_strlit("handlebars");
    reveal_strlit("haskell");
    reveal_strlit("hbs");
    reveal_strlit("hcl");
    reveal_strlit("header");
    reveal_strlit("hh");
    reveal_strlit("hpp");
    reveal_strlit("hrl");
    reveal_strlit("hs");
    reveal_strlit("htm");
    reveal_strlit("html");
    reveal_strlit("hxx");
    reveal_strlit("icns");
    reveal_strlit("ico");
    reveal_strlit("python");
    reveal_strlit("text");
    assert("text"@.len() == 4);
    assert("binary"@.len() == 6);
    assert("c"@.len() == 1);
    assert("c++"@.len() == 3);
    assert("erlang"@.len() == 6);
    assert("erlang"@[0] == 'e' && "binary"@[0] == 'b');
    assert("groovy"@.len() == 6);
    assert("groovy"@[0] == 'g' && "binary"@[0] == 'b');
    assert("gyb"@.len() == 3);
    assert("gyp"@.len() == 3);
    assert("gzip"@.len() == 4);
    assert("gzip"@[0] == 'g' && "text"@[0] == 't');
    assert("handlebars"@.len() == 10);
    assert("haskell"@.len() == 7);
    assert("hcl"@.len() == 3);
    assert("header"@.len() == 6);
    assert("header"@[0] == 'h' && "binary"@[0] == 'b');
    assert("html"@.len() == 4);
    assert("html"@[0] == 'h' && "text"@[0] == 't');
    assert("icns"@.len() == 4);
    assert("icns"@[0] == 'i' && "text"@[0] == 't');
    assert("python"@.len() == 6);
    assert("python"@[0] == 'p' && "binary"@[0] == 'b');
    reveal_with_fuel(lex_lt, 5);
    let t = EXTENSION_TAGS@;
    lemma_scan_new(t, 200, true, false);
    lemma_scan_same(t, 201, true, false);
    lemma_scan_new(t, 202, true, false);
    lemma_scan_same(t, 203, true, false);
    lemma_scan_new(t, 204, true, false);
    lemma_scan_same(t, 205, true, false);
    lemma_scan_same(t, 206, true, false);
    lemma_scan_new(t, 207, true, false);
    lemma_scan_same(t, 208, true, false);
    lemma_scan_same(t, 209, true, false);
    lemma_scan_new(t, 210, true, false);
    lemma_scan_same(t, 211, false, true);
    lemma_scan_new(t, 212, false, true);
    lemma_scan_same(t, 213, true, false);
    lemma_scan_same(t, 214, true, false);
    lemma_scan_same(t, 215, true, false);
    lemma_scan_new(t, 216, true, false);
    lemma_scan_same(t, 217, true, false);
    lemma_scan_new(t, 218, true, false);
    lemma_scan_same(t, 219, true, false);
    lemma_scan_new(t, 220, true, false);
    lemma_scan_same(t, 221, true, false);
    lemma_scan_same(t, 222, true, false);
    lemma_scan_new(t, 223, true, false);
    lemma_scan_same(t, 224, true, false);
    lemma_scan_same(t, 225, true, false);
    lemma_scan_new(t, 226, true, false);
    lemma_scan_same(t, 227, true, false);
    lemma_scan_new(t, 228, true, false);
    lemma_scan_same(t, 229, true, false);
    lemma_scan_new(t, 230, true, false);
    lemma_scan_same(t, 231, true, false);
    lemma_scan_new(t, 232, true, false);
    lemma_scan_same(t, 233, true, false);
    lemma_scan_new(t, 234, true, false);
    lemma_scan_same(t, 235, true, false);
    lemma_scan_same(t, 236, true, false);
    lemma_scan_new(t, 237, true, false);
    lemma_scan_same(t, 238, false, true);
    lemma_scan_new(t, 239, false, true);
}

proof fn lemma_extension_rows_240_to_280()
    requires
        scanned(EXTENSION_TAGS@, 240, false, true),
    ensures
        scanned(EXTENSION_TAGS@, 280, true, false),
{
    reveal_strlit("binary");
    reveal_strlit("c++");
    reveal_strlit("groovy");
    reveal_strlit("icalendar");
    reveal_strlit("ico");
    reveal_strlit("icon");
    reveal_strlit("ics");
    reveal_strlit("idl");
    reveal_strlit("idr");
    reveal_strlit("idris");
    reveal_strlit("inc");
    reveal_strlit("ini");
    reveal_strlit("inl");
    reveal_strlit("ino");
    reveal_strlit("inx");
    reveal_strlit("ipynb");
    reveal_strlit("ixx");
    reveal_strlit("j2");
    reveal_strlit("jade");
    reveal_strlit("jar");
    reveal_strlit("java");
    reveal_strlit("jenkins");
    reveal_strlit("jenkinsfile");
    reveal_strlit("jinja");
    reveal_strlit("json");
    reveal_strlit("jupyter");
    reveal_strlit("text");
    reveal_strlit("xml");
    reveal_strlit("zip");
    assert("text"@.len() == 4);
    assert("binary"@.len() == 6);
    assert("c++"@.len() == 3);
    assert("groovy"@.len() == 6);
    assert("groovy"@[0] == 'g' && "binary"@[0] == 'b');
    assert("icalendar"@.len() == 9);
    assert("icon"@.len() == 4);
    assert("icon"@[0] == 'i' && "text"@[0] == 't');
    assert("idl"@.len() == 3);
    assert("idris"@.len() == 5);
    assert("inc"@.len() == 3);
    assert("ini"@.len() == 3);
    assert("inl"@.len() == 3);
    assert("ino"@.len() == 3);
    assert("inx"@.len() == 3);
    assert("jade"@.len() == 4);
    assert("jade"@[0] == 'j' && "text"@[0] == 't');
    assert("jar"@.len() == 3);
    assert("java"@.len() == 4);
    assert("java"@[0] == 'j' && "text"@[0] == 't');
    assert("jenkins"@.len() == 7);
    assert("jinja"@.len() == 5);
    assert("json"@.len() == 4);
    assert("json"@[0] == 'j' && "text"@[0] == 't');
    assert("jupyter"@.len() == 7);
    assert("xml"@.len() == 3);
    assert("zip"@.len() == 3);
    reveal_with_fuel(lex_lt, 9);
    let t = EXTENSION_TAGS@;
    lemma_scan_same(t, 240, false, true);
    lemma_scan_new(t, 241, false, true);
    lemma_scan_same(t, 242, true, false);
    lemma_scan_new(t, 243, true, false);
    lemma_scan_same(t, 244, true, false);
    lemma_scan_new(t, 245, true, false);
    lemma_scan_same(t, 246, true, false);
    lemma_scan_new(t, 247, true, false);
    lemma_scan_same(t, 248, true, false);
    lemma_scan_new(t, 249, true, false);
    lemma_scan_same(t, 250, true, false);
    lemma_scan_new(t, 251, true, false);
    lemma_scan_same(t, 252, true, false);
    lemma_scan_same(t, 253, true, false);
    lemma_scan_new(t, 254, true, false);
    lemma_scan_same(t, 255, true, false);
    lemma_scan_same(t, 256, true, false);
    lemma_scan_new(t, 257, true, false);
    lemma_scan_same(t, 258, true, false);
    lemma_scan_same(t, 259, true, false);
    lemma_scan_new(t, 260, true, false);
    lemma_scan_same(t, 261, true, false);
    lemma_scan_same(t, 262, true, false);
    lemma_scan_new(t, 263, true, false);
    lemma_scan_same(t, 264, true, false);
    lemma_scan_new(t, 265, true, false);
    lemma_scan_same(t, 266, true, false);
    lemma_scan_new(t, 267, true, false);
    lemma_scan_same(t, 268, true, false);
    lemma_scan_new(t, 269, true, false);
    lemma_scan_same(t, 270, false, true);
    lemma_scan_same(t, 271, false, true);
    lemma_scan_new(t, 272, false, true);
    lemma_scan_same(t, 273, true, false);
    lemma_scan_new(t, 274, true, false);
    lemma_scan_same(t, 275, true, false);
    lemma_scan_same(t, 276, true, false);
    lemma_scan_new(t, 277, true, false);
    lemma_scan_same(t, 278, true, false);
    lemma_scan_same(t, 279, true, false);
}

proof fn lemma_extension_rows_280_to_320()
    requires
        scanned(EXTENSION_TAGS@, 280, true, false),
    ensures
        scanned(EXTENSION_TAGS@, 320, true, false),
{
    reveal_strlit("binary");
    reveal_strlit("image");
    reveal_strlit("ini");
    reveal_strlit("javascript");
    reveal_strlit("jenkinsfile");
    reveal_strlit("jinja");
    reveal_strlit("jinja2");
    reveal_strlit("jl");
    reveal_strlit("jpeg");
    reveal_strlit("jpg");
    reveal_strlit("js");
    reveal_strlit("json");
    reveal_strlit("json5");
    reveal_strlit("jsonld");
    reveal_strlit("jsonnet");
    reveal_strlit("jsx");
    reveal_strlit("julia");
    reveal_strlit("key");
    reveal_strlit("kml");
    reveal_strlit("kotlin");
    reveal_strlit("kt");
    reveal_strlit("kts");
    reveal_strlit("lean");
    reveal_strlit("lektorproject");
    reveal_strlit("less");
    reveal_strlit("pem");
    reveal_strlit("text");
    reveal_strlit("xml");
    assert("text"@.len() == 4);
    assert("binary"@.len() == 6);
    assert("image"@.len() == 5);
    assert("ini"@.len() == 3);
    assert("javascript"@.len() == 10);
    assert("jinja"@.len() == 5);
    assert("jpeg"@.len() == 4);
    assert("jpeg"@[0] == 'j' && "text"@[0] == 't');
    assert("json"@.len() == 4);
    assert("json"@[0] == 'j' && "text"@[0] == 't');
    assert("json5"@.len() == 5);
    assert("jsonld"@.len() == 6);
    assert("jsonld"@[0] == 'j' && "binary"@[0] == 'b');
    assert("jsonnet"@.len() == 7);
    assert("jsx"@.len() == 3);
    assert("julia"@.len() == 5);
    assert("kml"@.len() == 3);
    assert("kotlin"@.len() == 6);
    assert("kotlin"@[0] == 'k' && "binary"@[0] == 'b');
    assert("lean"@.len() == 4);
    assert("lean"@[0] == 'l' && "text"@[0] == 't');
    assert("lektorproject"@.len() == 13);
    assert("pem"@.len() == 3);
    assert("xml"@.len() == 3);
    reveal_with_fuel(lex_lt, 7);
    let t = EXTENSION_TAGS@;
    lemma_scan_new(t, 280, true, false);
    lemma_scan_same(t, 281, true, false);
    lemma_scan_new(t, 282, true, false);
    lemma_scan_same(t, 283, true, false);
    lemma_scan_new(t, 284, true, false);
    lemma_scan_same(t, 285, true, false);
    lemma_scan_new(t, 286, true, false);
    lemma_scan_same(t, 287, false, true);
    lemma_scan_same(t, 288, false, true);
    lemma_scan_new(t, 289, false, true);
    lemma_scan_same(t, 290, false, true);
    lemma_scan_same(t, 291, false, true);
    lemma_scan_new(t, 292, false, true);
    lemma_scan_same(t, 293, true, false);
    lemma_scan_new(t, 294, true, false);
    lemma_scan_same(t, 295, true, false);
    lemma_scan_new(t, 296, true, false);
    lemma_scan_same(t, 297, true, false);
    lemma_scan_new(t, 298, true, false);
    lemma_scan_same(t, 299, true, false);
    lemma_scan_same(t, 300, true, false);
    lemma_scan_new(t, 301, true, false);
    lemma_scan_same(t, 302, true, false);
    lemma_scan_new(t, 303, true, false);
    lemma_scan_same(t, 304, true, false);
    lemma_scan_new(t, 305, true, false);
    lemma_scan_same(t, 306, true, false);
    lemma_scan_new(t, 307, true, false);
    lemma_scan_same(t, 308, true, false);
    lemma_scan_same(t, 309, true, false);
    lemma_scan_new(t, 310, true, false);
    lemma_scan_same(t, 311, true, false);
    lemma_scan_new(t, 312, true, false);
    lemma_scan_same(t, 313, true, false);
    lemma_scan_new(t, 314, true, false);
    lemma_scan_same(t, 315, true, false);
    lemma_scan_new(t, 316, true, false);
    lemma_scan_same(t, 317, true, false);
    lemma_scan_same(t, 318, true, false);
    lemma_scan_new(t, 319, true, false);
}

proof fn lemma_extension_rows_320_to_360()
    requires
        scanned(EXTENSION_TAGS@, 320, true, false),
    ensures
        scanned(EXTENSION_TAGS@, 360, true, false),
{
    reveal_strlit("binary");
    reveal_strlit("idris");
    reveal_strlit("jsonnet");
    reveal_strlit("lazarus");
    reveal_strlit("lazarus-form");
    reveal_strlit("lektor");
    reveal_strlit("less");
    reveal_strlit("lfm");
    reveal_strlit("lhs");
    reveal_strlit("libsonnet");
    reveal_strlit("lidr");
    reveal_strlit("liquid");
    reveal_strlit("literate-haskell");
    reveal_strlit("lpi");
    reveal_strlit("lpr");
    reveal_strlit("lr");
    reveal_strlit("lua");
    reveal_strlit("m");
    reveal_strlit("m4");
    reveal_strlit("magik");
    reveal_strlit("make");
    reveal_strlit("makefile");
    reveal_strlit("manifest");
    reveal_strlit("map");
    reveal_strlit("markdown");
    reveal_strlit("md");
    reveal_strlit("mdx");
    reveal_strlit("objective-c");
    reveal_strlit("pascal");
    reveal_strlit("text");
    reveal_strlit("xml");
    assert("text"@.len() == 4);
    assert("binary"@.len() == 6);
    assert("idris"@.len() == 5);
    assert("jsonnet"@.len() == 7);
    assert("lazarus"@.len() == 7);
    assert("lazarus-form"@.len() == 12);
    assert("lektor"@.len() == 6);
    assert("lektor"@[0] == 'l' && "binary"@[0] == 'b');
    assert("less"@.len() == 4);
    assert("less"@[0] == 'l' && "text"@[0] == 't');
    assert("liquid"@.len() == 6);
    assert("liquid"@[0] == 'l' && "binary"@[0] == 'b');
    assert("literate-haskell"@.len() == 16);
    assert("lua"@.len() == 3);
    assert("m4"@.len() == 2);
    assert("magik"@.len() == 5);
    assert("makefile"@.len() == 8);
    assert("manifest"@.len() == 8);
    assert("map"@.len() == 3);
    assert("markdown"@.len() == 8);
    assert("mdx"@.len() == 3);
    assert("objective-c"@.len() == 11);
    assert("pascal"@.len() == 6);
    assert("pascal"@[0] == 'p' && "binary"@[0] == 'b');
    assert("xml"@.len() == 3);
    reveal_with_fuel(lex_lt, 4);
    let t = EXTENSION_TAGS@;
    lemma_scan_same(t, 320, true, false);
    lemma_scan_new(t, 321, true, false);
    lemma_scan_same(t, 322, true, false);
    lemma_scan_same(t, 323, true, false);
    lemma_scan_new(t, 324, true, false);
    lemma_scan_same(t, 325, true, false);
    lemma_scan_new(t, 326, true, false);
    lemma_scan_same(t, 327, true, false);
    lemma_scan_new(t, 328, true, false);
    lemma_scan_same(t, 329, true, false);
    lemma_scan_new(t, 330, true, false);
    lemma_scan_same(t, 331, true, false);
    lemma_scan_new(t, 332, true, false);
    lemma_scan_same(t, 333, true, false);
    lemma_scan_same(t, 334, true, false);
    lemma_scan_new(t, 335, true, false);
    lemma_scan_same(t, 336, true, false);
    lemma_scan_same(t, 337, true, false);
    lemma_scan_new(t, 338, true, false);
    lemma_scan_same(t, 339, true, false);
    lemma_scan_new(t, 340, true, false);
    lemma_scan_same(t, 341, true, false);
    lemma_scan_new(t, 342, true, false);
    lemma_scan_same(t, 343, true, false);
    lemma_scan_new(t, 344, true, false);
    lemma_scan_same(t, 345, true, false);
    lemma_scan_new(t, 346, true, false);
    lemma_scan_same(t, 347, true, false);
    lemma_scan_new(t, 348, true, false);
    lemma_scan_same(t, 349, true, false);
    lemma_scan_new(t, 350, true, false);
    lemma_scan_same(t, 351, true, false);
    lemma_scan_new(t, 352, true, false);
    lemma_scan_same(t, 353, true, false);
    lemma_scan_new(t, 354, true, false);
    lemma_scan_same(t, 355, true, false);
    lemma_scan_new(t, 356, true, false);
    lemma_scan_same(t, 357, true, false);
    lemma_scan_new(t, 358, true, false);
    lemma_scan_same(t, 359, true, false);
}

proof fn lemma_extension_rows_360_to_400()
    requires
        scanned(EXTENSION_TAGS@, 360, true, false),
    ensures
        scanned(EXTENSION_TAGS@, 400, true, false),
{
    reveal_strlit("binary");
    reveal_strlit("c++");
    reveal_strlit("javascript");
    reveal_strlit("makefile");
    reveal_strlit("mdx");
    reveal_strlit("meson");
    reveal_strlit("metal");
    reveal_strlit("mib");
    reveal_strlit("mjs");
    reveal_strlit("mk");
    reveal_strlit("ml");
    reveal_strlit("mli");
    reveal_strlit("mm");
    reveal_strlit("modulemap");
    reveal_strlit("mscx");
    reveal_strlit("mscz");
    reveal_strlit("musescore");
    reveal_strlit("mustache");
    reveal_strlit("myst");
    reveal_strlit("ngdoc");
    reveal_strlit("nim");
    reveal_strlit("nimble");
    reveal_strlit("nims");
    reveal_strlit("nix");
    reveal_strlit("njk");
    reveal_strlit("objective-c++");
    reveal_strlit("ocaml");
    reveal_strlit("text");
    reveal_strlit("xml");
    reveal_strlit("zip");
    assert("text"@.len() == 4);
    assert("binary"@.len() == 6);
    assert("c++"@.len() == 3);
    assert("javascript"@.len() == 10);
    assert("makefile"@.len() == 8);
    assert("meson"@.len() == 5);
    assert("metal"@.len() == 5);
    assert("mib"@.len() == 3);
    assert("modulemap"@.len() == 9);
    assert("musescore"@.len() == 9);
    assert("mustache"@.len() == 8);
    assert("myst"@.len() == 4);
    assert("myst"@[0] == 'm' && "text"@[0] == 't');
    assert("ngdoc"@.len() == 5);
    assert("nim"@.len() == 3);
    assert("nimble"@.len() == 6);
    assert("nimble"@[0] == 'n' && "binary"@[0] == 'b');
    assert("nix"@.len() == 3);
    assert("objective-c++"@.len() == 13);
    assert("ocaml"@.len() == 5);
    assert("xml"@.len() == 3);
    assert("zip"@.len() == 3);
    reveal_with_fuel(lex_lt, 5);
    let t = EXTENSION_TAGS@;
    lemma_scan_new(t, 360, true, false);
    lemma_scan_same(t, 361, true, false);
    lemma_scan_new(t, 362, true, false);
    lemma_scan_same(t, 363, true, false);
    lemma_scan_new(t, 364, true, false);
    lemma_scan_same(t, 365, true, false);
    lemma_scan_new(t, 366, true, false);
    lemma_scan_same(t, 367, true, false);
    lemma_scan_new(t, 368, true, false);
    lemma_scan_same(t, 369, true, false);
    lemma_scan_new(t, 370, true, false);
    lemma_scan_same(t, 371, true, false);
    lemma_scan_new(t, 372, true, false);
    lemma_scan_same(t, 373, true, false);
    lemma_scan_new(t, 374, true, false);
    lemma_scan_same(t, 375, true, false);
    lemma_scan_same(t, 376, true, false);
    lemma_scan_new(t, 377, true, false);
    lemma_scan_same(t, 378, true, false);
    lemma_scan_new(t, 379, true, false);
    lemma_scan_same(t, 380, true, false);
    lemma_scan_same(t, 381, true, false);
    lemma_scan_new(t, 382, true, false);
    lemma_scan_same(t, 383, false, true);
    lemma_scan_same(t, 384, false, true);
    lemma_scan_new(t, 385, false, true);
    lemma_scan_same(t, 386, true, false);
    lemma_scan_new(t, 387, true, false);
    lemma_scan_same(t, 388, true, false);
    lemma_scan_new(t, 389, true, false);
    lemma_scan_same(t, 390, true, false);
    lemma_scan_new(t, 391, true, false);
    lemma_scan_same(t, 392, true, false);
    lemma_scan_new(t, 393, true, false);
    lemma_scan_same(t, 394, true, false);
    lemma_scan_new(t, 395, true, false);
    lemma_scan_same(t, 396, true, false);
    lemma_scan_new(t, 397, true, false);
    lemma_scan_same(t, 398, true, false);
    lemma_scan_new(t, 399, true, false);
}

proof fn lemma_extension_rows_400_to_440()
    requires
        scanned(EXTENSION_TAGS@, 400, true, false),
    ensures
        scanned(EXTENSION_TAGS@, 440, true, false),
{
    reveal_strlit("binary");
    reveal_strlit("diff");
    reveal_strlit("image");
    reveal_strlit("njk");
    reveal_strlit("nunjucks");
    reveal_strlit("otf");
    reveal_strlit("p12");
    reveal_strlit("pas");
    reveal_strlit("pascal");
    reveal_strlit("patch");
    reveal_strlit("pdf");
    reveal_strlit("pem");
    reveal_strlit("perl");
    reveal_strlit("php");
    reveal_strlit("php4");
    reveal_strlit("php5");
    reveal_strlit("phtml");
    reveal_strlit("pl");
    reveal_strlit("plantuml");
    reveal_strlit("pm");
    reveal_strlit("png");
    reveal_strlit("po");
    reveal_strlit("pofile");
    reveal_strlit("pom");
    reveal_strlit("pp");
    reveal_strlit("prisma");
    reveal_strlit("properties");
    reveal_strlit("puppet");
    reveal_strlit("text");
    reveal_strlit("xml");
    assert("text"@.len() == 4);
    assert("binary"@.len() == 6);
    assert("diff"@.len() == 4);
    assert("diff"@[0] == 'd' && "text"@[0] == 't');
    assert("image"@.len() == 5);
    assert("nunjucks"@.len() == 8);
    assert("otf"@.len() == 3);
    assert("p12"@.len() == 3);
    assert("pascal"@.len() == 6);
    assert("pascal"@[0] == 'p' && "binary"@[0] == 'b');
    assert("pdf"@.len() == 3);
    assert("pem"@.len() == 3);
    assert("perl"@.len() == 4);
    assert("perl"@[0] == 'p' && "text"@[0] == 't');
    assert("php"@.len() == 3);
    assert("plantuml"@.len() == 8);
    assert("png"@.len() == 3);
    assert("pofile"@.len() == 6);
    assert("pofile"@[0] == 'p' && "binary"@[0] == 'b');
    assert("pom"@.len() == 3);
    assert("prisma"@.len() == 6);
    assert("prisma"@[0] == 'p' && "binary"@[0] == 'b');
    assert("puppet"@.len() == 6);
    assert("puppet"@[0] == 'p' && "binary"@[0] == 'b');
    assert("xml"@.len() == 3);
    reveal_with_fuel(lex_lt, 5);
    let t = EXTENSION_TAGS@;
    lemma_scan_same(t, 400, true, false);
    lemma_scan_new(t, 401, true, false);
    lemma_scan_same(t, 402, false, true);
    lemma_scan_new(t, 403, false, true);
    lemma_scan_same(t, 404, false, true);
    lemma_scan_new(t, 405, false, true);
    lemma_scan_same(t, 406, true, false);
    lemma_scan_new(t, 407, true, false);
    lemma_scan_same(t, 408, true, false);
    lemma_scan_new(t, 409, true, false);
    lemma_scan_same(t, 410, false, true);
    lemma_scan_new(t, 411, false, true);
    lemma_scan_same(t, 412, true, false);
    lemma_scan_new(t, 413, true, false);
    lemma_scan_same(t, 414, true, false);
    lemma_scan_new(t, 415, true, false);
    lemma_scan_same(t, 416, true, false);
    lemma_scan_new(t, 417, true, false);
    lemma_scan_same(t, 418, true, false);
    lemma_scan_new(t, 419, true, false);
    lemma_scan_same(t, 420, true, false);
    lemma_scan_new(t, 421, true, false);
    lemma_scan_same(t, 422, true, false);
    lemma_scan_new(t, 423, true, false);
    lemma_scan_same(t, 424, true, false);
    lemma_scan_new(t, 425, true, false);
    lemma_scan_same(t, 426, true, false);
    lemma_scan_new(t, 427, true, false);
    lemma_scan_same(t, 428, false, true);
    lemma_scan_same(t, 429, false, true);
    lemma_scan_new(t, 430, false, true);
    lemma_scan_same(t, 431, true, false);
    lemma_scan_new(t, 432, true, false);
    lemma_scan_same(t, 433, true, false);
    lemma_scan_same(t, 434, true, false);
    lemma_scan_new(t, 435, true, false);
    lemma_scan_same(t, 436, true, false);
    lemma_scan_new(t, 437, true, false);
    lemma_scan_same(t, 438, true, false);
    lemma_scan_new(t, 439, true, false);
}

proof fn lemma_extension_rows_440_to_480()
    requires
        scanned(EXTENSION_TAGS@, 440, true, false),
    ensures
        scanned(EXTENSION_TAGS@, 480, true, false),
{
    reveal_strlit("binary");
    reveal_strlit("cython");
    reveal_strlit("java-properties");
    reveal_strlit("msbuild");
    reveal_strlit("plantuml");
    reveal_strlit("powershell");
    reveal_strlit("properties");
    reveal_strlit("props");
    reveal_strlit("proto");
    reveal_strlit("ps1");
    reveal_strlit("psd1");
    reveal_strlit("psm1");
    reveal_strlit("pug");
    reveal_strlit("puml");
    reveal_strlit("purescript");
    reveal_strlit("purs");
    reveal_strlit("pxd");
    reveal_strlit("pxi");
    reveal_strlit("py");
    reveal_strlit("pyi");
    reveal_strlit("pyproj");
    reveal_strlit("pyt");
    reveal_strlit("python");
    reveal_strlit("pyx");
    reveal_strlit("pyz");
    reveal_strlit("pyzw");
    reveal_strlit("qml");
    reveal_strlit("text");
    reveal_strlit("xml");
    assert("text"@.len() == 4);
    assert("binary"@.len() == 6);
    assert("cython"@.len() == 6);
    assert("cython"@[0] == 'c' && "binary"@[0] == 'b');
    assert("java-properties"@.len() == 15);
    assert("msbuild"@.len() == 7);
    assert("plantuml"@.len() == 8);
    assert("powershell"@.len() == 10);
    assert("proto"@.len() == 5);
    assert("pug"@.len() == 3);
    assert("purescript"@.len() == 10);
    assert("pyi"@.len() == 3);
    assert("pyproj"@.len() == 6);
    assert("pyproj"@[0] == 'p' && "binary"@[0] == 'b');
    assert("python"@.len() == 6);
    assert("python"@[0] == 'p' && "binary"@[0] == 'b');
    assert("pyz"@.len() == 3);
    assert("qml"@.len() == 3);
    assert("xml"@.len() == 3);
    reveal_with_fuel(lex_lt, 6);
    let t = EXTENSION_TAGS@;
    lemma_scan_same(t, 440, true, false);
    lemma_scan_new(t, 441, true, false);
    lemma_scan_same(t, 442, true, false);
    lemma_scan_same(t, 443, true, false);
    lemma_scan_new(t, 444, true, false);
    lemma_scan_same(t, 445, true, false);
    lemma_scan_new(t, 446, true, false);
    lemma_scan_same(t, 447, true, false);
    lemma_scan_new(t, 448, true, false);
    lemma_scan_same(t, 449, true, false);
    lemma_scan_new(t, 450, true, false);
    lemma_scan_same(t, 451, true, false);
    lemma_scan_new(t, 452, true, false);
    lemma_scan_same(t, 453, true, false);
    lemma_scan_new(t, 454, true, false);
    lemma_scan_same(t, 455, true, false);
    lemma_scan_new(t, 456, true, false);
    lemma_scan_same(t, 457, true, false);
    lemma_scan_new(t, 458, true, false);
    lemma_scan_same(t, 459, true, false);
    lemma_scan_new(t, 460, true, false);
    lemma_scan_same(t, 461, true, false);
    lemma_scan_new(t, 462, true, false);
    lemma_scan_same(t, 463, true, false);
    lemma_scan_new(t, 464, true, false);
    lemma_scan_same(t, 465, true, false);
    lemma_scan_new(t, 466, true, false);
    lemma_scan_same(t, 467, true, false);
    lemma_scan_same(t, 468, true, false);
    lemma_scan_same(t, 469, true, false);
    lemma_scan_new(t, 470, true, false);
    lemma_scan_same(t, 471, true, false);
    lemma_scan_new(t, 472, true, false);
    lemma_scan_same(t, 473, true, false);
    lemma_scan_new(t, 474, true, false);
    lemma_scan_same(t, 475, false, true);
    lemma_scan_new(t, 476, false, true);
    lemma_scan_same(t, 477, false, true);
    lemma_scan_new(t, 478, false, true);
    lemma_scan_same(t, 479, true, false);
}

proof fn lemma_extension_rows_480_to_520()
    requires
        scanned(EXTENSION_TAGS@, 480, true, false),
    ensures
        scanned(EXTENSION_TAGS@, 520, false, true),
{
    reveal_strlit("asm");
    reveal_strlit("binary");
    reveal_strlit("qml");
    reveal_strlit("r");
    reveal_strlit("rake");
    reveal_strlit("rb");
    reveal_strlit("relax-ng");
    reveal_strlit("resx");
    reveal_strlit("rng");
    reveal_strlit("rs");
    reveal_strlit("rst");
    reveal_strlit("ruby");
    reveal_strlit("rust");
    reveal_strlit("s");
    reveal_strlit("salt");
    reveal_strlit("sas");
    reveal_strlit("sass");
    reveal_strlit("sbt");
    reveal_strlit("sc");
    reveal_strlit("scala");
    reveal_strlit("scheme");
    reveal_strlit("scm");
    reveal_strlit("scss");
    reveal_strlit("sh");
    reveal_strlit("shell");
    reveal_strlit("sln");
    reveal_strlit("sls");
    reveal_strlit("so");
    reveal_strlit("text");
    reveal_strlit("xml");
    assert("text"@.len() == 4);
    assert("binary"@.len() == 6);
    assert("asm"@.len() == 3);
    assert("r"@.len() == 1);
    assert("relax-ng"@.len() == 8);
    assert("resx"@.len() == 4);
    assert("resx"@[0] == 'r' && "text"@[0] == 't');
    assert("rst"@.len() == 3);
    assert("ruby"@.len() == 4);
    assert("ruby"@[0] == 'r' && "text"@[0] == 't');
    assert("rust"@.len() == 4);
    assert("rust"@[0] == 'r' && "text"@[0] == 't');
    assert("salt"@.len() == 4);
    assert("salt"@[0] == 's' && "text"@[0] == 't');
    assert("sas"@.len() == 3);
    assert("sass"@.len() == 4);
    assert("sass"@[0] == 's' && "text"@[0] == 't');
    assert("sbt"@.len() == 3);
    assert("scala"@.len() == 5);
    assert("scheme"@.len() == 6);
    assert("scheme"@[0] == 's' && "binary"@[0] == 'b');
    assert("scss"@.len() == 4);
    assert("scss"@[0] == 's' && "text"@[0] == 't');
    assert("shell"@.len() == 5);
    assert("sln"@.len() == 3);
    assert("xml"@.len() == 3);
    reveal_with_fuel(lex_lt, 5);
    let t = EXTENSION_TAGS@;
    lemma_scan_new(t, 480, true, false);
    lemma_scan_same(t, 481, true, false);
    lemma_scan_new(t, 482, true, false);
    lemma_scan_same(t, 483, true, false);
    lemma_scan_new(t, 484, true, false);
    lemma_scan_same(t, 485, true, false);
    lemma_scan_new(t, 486, true, false);
    lemma_scan_same(t, 487, true, false);
    lemma_scan_same(t, 488, true, false);
    lemma_scan_new(t, 489, true, false);
    lemma_scan_same(t, 490, true, false);
    lemma_scan_same(t, 491, true, false);
    lemma_scan_new(t, 492, true, false);
    lemma_scan_same(t, 493, true, false);
    lemma_scan_new(t, 494, true, false);
    lemma_scan_same(t, 495, true, false);
    lemma_scan_new(t, 496, true, false);
    lemma_scan_same(t, 497, true, false);
    lemma_scan_new(t, 498, true, false);
    lemma_scan_same(t, 499, true, false);
    lemma_scan_new(t, 500, true, false);
    lemma_scan_same(t, 501, true, false);
    lemma_scan_new(t, 502, true, false);
    lemma_scan_same(t, 503, true, false);
    lemma_scan_same(t, 504, true, false);
    lemma_scan_new(t, 505, true, false);
    lemma_scan_same(t, 506, true, false);
    lemma_scan_new(t, 507, true, false);
    lemma_scan_same(t, 508, true, false);
    lemma_scan_new(t, 509, true, false);
    lemma_scan_same(t, 510, true, false);
    lemma_scan_new(t, 511, true, false);
    lemma_scan_same(t, 512, true, false);
    lemma_scan_new(t, 513, true, false);
    lemma_scan_same(t, 514, true, false);
    lemma_scan_new(t, 515, true, false);
    lemma_scan_same(t, 516, true, false);
    lemma_scan_new(t, 517, true, false);
    lemma_scan_same(t, 518, true, false);
    lemma_scan_new(t, 519, true, false);
}

proof fn lemma_extension_rows_520_to_560()
    requires
        scanned(EXTENSION_TAGS@, 520, false, true),
    ensures
        scanned(EXTENSION_TAGS@, 560, true, false),
{
    reveal_strlit("binary");
    reveal_strlit("image");
    reveal_strlit("python");
    reveal_strlit("scheme");
    reveal_strlit("so");
    reveal_strlit("sol");
    reveal_strlit("solidity");
    reveal_strlit("spec");
    reveal_strlit("sql");
    reveal_strlit("ss");
    reveal_strlit("sty");
    reveal_strlit("styl");
    reveal_strlit("stylus");
    reveal_strlit("sv");
    reveal_strlit("svelte");
    reveal_strlit("svg");
    reveal_strlit("svh");
    reveal_strlit("swf");
    reveal_strlit("swift");
    reveal_strlit("swiftdeps");
    reveal_strlit("system-verilog");
    reveal_strlit("tac");
    reveal_strlit("tar");
    reveal_strlit("terraform");
    reveal_strlit("tex");
    reveal_strlit("text");
    reveal_strlit("textproto");
    reveal_strlit("tf");
    reveal_strlit("tfvars");
    reveal_strlit("twisted");
    reveal_strlit("xml");
    assert("text"@.len() == 4);
    assert("binary"@.len() == 6);
    assert("image"@.len() == 5);
    assert("python"@.len() == 6);
    assert("python"@[0] == 'p' && "binary"@[0] == 'b');
    assert("scheme"@.len() == 6);
    assert("scheme"@[0] == 's' && "binary"@[0] == 'b');
    assert("solidity"@.len() == 8);
    assert("spec"@.len() == 4);
    assert("spec"@[0] == 's' && "text"@[0] == 't');
    assert("sql"@.len() == 3);
    assert("stylus"@.len() == 6);
    assert("stylus"@[0] == 's' && "binary"@[0] == 'b');
    assert("svelte"@.len() == 6);
    assert("svelte"@[0] == 's' && "binary"@[0] == 'b');
    assert("svg"@.len() == 3);
    assert("swf"@.len() == 3);
    assert("swift"@.len() == 5);
    assert("swiftdeps"@.len() == 9);
    assert("system-verilog"@.len() == 14);
    assert("tar"@.len() == 3);
    assert("terraform"@.len() == 9);
    assert("tex"@.len() == 3);
    assert("textproto"@.len() == 9);
    assert("twisted"@.len() == 7);
    assert("xml"@.len() == 3);
    reveal_with_fuel(lex_lt, 7);
    let t = EXTENSION_TAGS@;
    lemma_scan_new(t, 520, false, true);
    lemma_scan_same(t, 521, true, false);
    lemma_scan_new(t, 522, true, false);
    lemma_scan_same(t, 523, true, false);
    lemma_scan_new(t, 524, true, false);
    lemma_scan_same(t, 525, true, false);
    lemma_scan_new(t, 526, true, false);
    lemma_scan_same(t, 527, true, false);
    lemma_scan_new(t, 528, true, false);
    lemma_scan_same(t, 529, true, false);
    lemma_scan_new(t, 530, true, false);
    lemma_scan_same(t, 531, true, false);
    lemma_scan_new(t, 532, true, false);
    lemma_scan_same(t, 533, true, false);
    lemma_scan_new(t, 534, true, false);
    lemma_scan_same(t, 535, true, false);
    lemma_scan_new(t, 536, true, false);
    lemma_scan_same(t, 537, true, false);
    lemma_scan_same(t, 538, true, false);
    lemma_scan_same(t, 539, true, false);
    lemma_scan_new(t, 540, true, false);
    lemma_scan_same(t, 541, true, false);
    lemma_scan_new(t, 542, true, false);
    lemma_scan_same(t, 543, false, true);
    lemma_scan_new(t, 544, false, true);
    lemma_scan_same(t, 545, true, false);
    lemma_scan_new(t, 546, true, false);
    lemma_scan_same(t, 547, true, false);
    lemma_scan_new(t, 548, true, false);
    lemma_scan_same(t, 549, true, false);
    lemma_scan_same(t, 550, true, false);
    lemma_scan_new(t, 551, true, false);
    lemma_scan_same(t, 552, false, true);
    lemma_scan_new(t, 553, false, true);
    lemma_scan_same(t, 554, true, false);
    lemma_scan_new(t, 555, true, false);
    lemma_scan_same(t, 556, true, false);
    lemma_scan_new(t, 557, true, false);
    lemma_scan_same(t, 558, true, false);
    lemma_scan_new(t, 559, true, false);
}

proof fn lemma_extension_rows_560_to_600()
    requires
        scanned(EXTENSION_TAGS@, 560, true, false),
    ensures
        scanned(EXTENSION_TAGS@, 600, true, false),
{
    reveal_strlit("binary");
    reveal_strlit("gzip");
    reveal_strlit("image");
    reveal_strlit("ini");
    reveal_strlit("msbuild");
    reveal_strlit("plain-text");
    reveal_strlit("terraform");
    reveal_strlit("text");
    reveal_strlit("textproto");
    reveal_strlit("tfvars");
    reveal_strlit("tgz");
    reveal_strlit("thrift");
    reveal_strlit("tiff");
    reveal_strlit("toml");
    reveal_strlit("ts");
    reveal_strlit("tsv");
    reveal_strlit("tsx");
    reveal_strlit("ttf");
    reveal_strlit("twig");
    reveal_strlit("txsprofile");
    reveal_strlit("txt");
    reveal_strlit("txtpb");
    reveal_strlit("urdf");
    reveal_strlit("v");
    reveal_strlit("vb");
    reveal_strlit("vbproj");
    reveal_strlit("vcxproj");
    reveal_strlit("verilog");
    reveal_strlit("xml");
    assert("text"@.len() == 4);
    assert("binary"@.len() == 6);
    assert("gzip"@.len() == 4);
    assert("gzip"@[0] == 'g' && "text"@[0] == 't');
    assert("image"@.len() == 5);
    assert("ini"@.len() == 3);
    assert("msbuild"@.len() == 7);
    assert("plain-text"@.len() == 10);
    assert("terraform"@.len() == 9);
    assert("textproto"@.len() == 9);
    assert("thrift"@.len() == 6);
    assert("thrift"@[0] == 't' && "binary"@[0] == 'b');
    assert("tiff"@.len() == 4);
    assert("tiff"@[1] == 'i' && "text"@[1] == 'e');
    assert("toml"@.len() == 4);
    assert("toml"@[1] == 'o' && "text"@[1] == 'e');
    assert("ts"@.len() == 2);
    assert("tsv"@.len() == 3);
    assert("tsx"@.len() == 3);
    assert("ttf"@.len() == 3);
    assert("twig"@.len() == 4);
    assert("twig"@[1] == 'w' && "text"@[1] == 'e');
    assert("txsprofile"@.len() == 10);
    assert("urdf"@.len() == 4);
    assert("urdf"@[0] == 'u' && "text"@[0] == 't');
    assert("vb"@.len() == 2);
    assert("vbproj"@.len() == 6);
    assert("vbproj"@[0] == 'v' && "binary"@[0] == 'b');
    assert("verilog"@.len() == 7);
    assert("xml"@.len() == 3);
    reveal_with_fuel(lex_lt, 5);
    let t = EXTENSION_TAGS@;
    lemma_scan_same(t, 560, true, false);
    lemma_scan_new(t, 561, true, false);
    lemma_scan_same(t, 562, false, true);
    lemma_scan_new(t, 563, false, true);
    lemma_scan_same(t, 564, true, false);
    lemma_scan_new(t, 565, true, false);
    lemma_scan_same(t, 566, false, true);
    lemma_scan_same(t, 567, false, true);
    lemma_scan_new(t, 568, false, true);
    lemma_scan_same(t, 569, true, false);
    lemma_scan_new(t, 570, true, false);
    lemma_scan_same(t, 571, true, false);
    lemma_scan_new(t, 572, true, false);
    lemma_scan_same(t, 573, true, false);
    lemma_scan_new(t, 574, true, false);
    lemma_scan_same(t, 575, true, false);
    lemma_scan_new(t, 576, true, false);
    lemma_scan_same(t, 577, false, true);
    lemma_scan_new(t, 578, false, true);
    lemma_scan_same(t, 579, true, false);
    lemma_scan_new(t, 580, true, false);
    lemma_scan_same(t, 581, true, false);
    lemma_scan_same(t, 582, true, false);
    lemma_scan_new(t, 583, true, false);
    lemma_scan_same(t, 584, true, false);
    lemma_scan_new(t, 585, true, false);
    lemma_scan_same(t, 586, true, false);
    lemma_scan_new(t, 587, true, false);
    lemma_scan_same(t, 588, true, false);
    lemma_scan_same(t, 589, true, false);
    lemma_scan_new(t, 590, true, false);
    lemma_scan_same(t, 591, true, false);
    lemma_scan_new(t, 592, true, false);
    lemma_scan_same(t, 593, true, false);
    lemma_scan_new(t, 594, true, false);
    lemma_scan_same(t, 595, true, false);
    lemma_scan_same(t, 596, true, false);
    lemma_scan_same(t, 597, true, false);
    lemma_scan_new(t, 598, true, false);
    lemma_scan_same(t, 599, true, false);
}

proof fn lemma_extension_rows_600_to_640()
    requires
        scanned(EXTENSION_TAGS@, 600, true, false),
    ensures
        scanned(EXTENSION_TAGS@, 640, true, false),
{
    reveal_strlit("audio");
    reveal_strlit("binary");
    reveal_strlit("image");
    reveal_strlit("jar");
    reveal_strlit("msbuild");
    reveal_strlit("python");
    reveal_strlit("text");
    reveal_strlit("vcxproj");
    reveal_strlit("vdx");
    reveal_strlit("verilog");
    reveal_strlit("vh");
    reveal_strlit("vhd");
    reveal_strlit("vhdl");
    reveal_strlit("vim");
    reveal_strlit("vtl");
    reveal_strlit("vue");
    reveal_strlit("war");
    reveal_strlit("wav");
    reveal_strlit("webp");
    reveal_strlit("wheel");
    reveal_strlit("whl");
    reveal_strlit("wkt");
    reveal_strlit("woff");
    reveal_strlit("woff2");
    reveal_strlit("wsdl");
    reveal_strlit("wsgi");
    reveal_strlit("xacro");
    reveal_strlit("xml");
    reveal_strlit("zip");
    assert("text"@.len() == 4);
    assert("binary"@.len() == 6);
    assert("audio"@.len() == 5);
    assert("image"@.len() == 5);
    assert("jar"@.len() == 3);
    assert("msbuild"@.len() == 7);
    assert("python"@.len() == 6);
    assert("python"@[0] == 'p' && "binary"@[0] == 'b');
    assert("vcxproj"@.len() == 7);
    assert("vdx"@.len() == 3);
    assert("verilog"@.len() == 7);
    assert("vhdl"@.len() == 4);
    assert("vhdl"@[0] == 'v' && "text"@[0] == 't');
    assert("vim"@.len() == 3);
    assert("vtl"@.len() == 3);
    assert("vue"@.len() == 3);
    assert("wav"@.len() == 3);
    assert("webp"@.len() == 4);
    assert("webp"@[0] == 'w' && "text"@[0] == 't');
    assert("wheel"@.len() == 5);
    assert("wkt"@.len() == 3);
    assert("woff"@.len() == 4);
    assert("woff"@[0] == 'w' && "text"@[0] == 't');
    assert("woff2"@.len() == 5);
    assert("wsdl"@.len() == 4);
    assert("wsdl"@[0] == 'w' && "text"@[0] == 't');
    assert("wsgi"@.len() == 4);
    assert("wsgi"@[0] == 'w' && "text"@[0] == 't');
    assert("xml"@.len() == 3);
    assert("zip"@.len() == 3);
    reveal_with_fuel(lex_lt, 6);
    let t = EXTENSION_TAGS@;
    lemma_scan_same(t, 600, true, false);
    lemma_scan_same(t, 601, true, false);
    lemma_scan_new(t, 602, true, false);
    lemma_scan_same(t, 603, true, false);
    lemma_scan_new(t, 604, true, false);
    lemma_scan_same(t, 605, true, false);
    lemma_scan_new(t, 606, true, false);
    lemma_scan_same(t, 607, true, false);
    lemma_scan_new(t, 608, true, false);
    lemma_scan_same(t, 609, true, false);
    lemma_scan_new(t, 610, true, false);
    lemma_scan_same(t, 611, true, false);
    lemma_scan_new(t, 612, true, false);
    lemma_scan_same(t, 613, true, false);
    lemma_scan_new(t, 614, true, false);
    lemma_scan_same(t, 615, false, true);
    lemma_scan_same(t, 616, false, true);
    lemma_scan_new(t, 617, false, true);
    lemma_scan_same(t, 618, false, true);
    lemma_scan_same(t, 619, false, true);
    lemma_scan_new(t, 620, false, true);
    lemma_scan_same(t, 621, false, true);
    lemma_scan_same(t, 622, false, true);
    lemma_scan_new(t, 623, false, true);
    lemma_scan_same(t, 624, false, true);
    lemma_scan_same(t, 625, false, true);
    lemma_scan_new(t, 626, false, true);
    lemma_scan_same(t, 627, true, false);
    lemma_scan_new(t, 628, true, false);
    lemma_scan_same(t, 629, false, true);
    lemma_scan_new(t, 630, false, true);
    lemma_scan_same(t, 631, false, true);
    lemma_scan_new(t, 632, false, true);
    lemma_scan_same(t, 633, true, false);
    lemma_scan_same(t, 634, true, false);
    lemma_scan_new(t, 635, true, false);
    lemma_scan_same(t, 636, true, false);
    lemma_scan_same(t, 637, true, false);
    lemma_scan_new(t, 638, true, false);
    lemma_scan_same(t, 639, true, false);
}

proof fn lemma_extension_rows_640_to_680()
    requires
        scanned(EXTENSION_TAGS@, 640, true, false),
    ensures
        scanned(EXTENSION_TAGS@, 680, true, false),
{
    reveal_strlit("binary");
    reveal_strlit("html");
    reveal_strlit("json");
    reveal_strlit("text");
    reveal_strlit("urdf");
    reveal_strlit("xacro");
    reveal_strlit("xctestplan");
    reveal_strlit("xhtml");
    reveal_strlit("xml");
    reveal_strlit("xq");
    reveal_strlit("xql");
    reveal_strlit("xqm");
    reveal_strlit("xqu");
    reveal_strlit("xquery");
    reveal_strlit("xqy");
    reveal_strlit("xsd");
    reveal_strlit("xsl");
    reveal_strlit("xslt");
    reveal_strlit("yaml");
    reveal_strlit("yamlld");
    reveal_strlit("yang");
    reveal_strlit("yin");
    assert("text"@.len() == 4);
    assert("binary"@.len() == 6);
    assert("html"@.len() == 4);
    assert("html"@[0] == 'h' && "text"@[0] == 't');
    assert("json"@.len() == 4);
    assert("json"@[0] == 'j' && "text"@[0] == 't');
    assert("urdf"@.len() == 4);
    assert("urdf"@[0] == 'u' && "text"@[0] == 't');
    assert("xacro"@.len() == 5);
    assert("xhtml"@.len() == 5);
    assert("xml"@.len() == 3);
    assert("xquery"@.len() == 6);
    assert("xquery"@[0] == 'x' && "binary"@[0] == 'b');
    assert("xsd"@.len() == 3);
    assert("xsl"@.len() == 3);
    assert("yaml"@.len() == 4);
    assert("yaml"@[0] == 'y' && "text"@[0] == 't');
    assert("yamlld"@.len() == 6);
    assert("yamlld"@[0] == 'y' && "binary"@[0] == 'b');
    assert("yang"@.len() == 4);
    assert("yang"@[0] == 'y' && "text"@[0] == 't');
    reveal_with_fuel(lex_lt, 6);
    let t = EXTENSION_TAGS@;
    lemma_scan_same(t, 640, true, false);
    lemma_scan_same(t, 641, true, false);
    lemma_scan_new(t, 642, true, false);
    lemma_scan_same(t, 643, true, false);
    lemma_scan_new(t, 644, true, false);
    lemma_scan_same(t, 645, true, false);
    lemma_scan_same(t, 646, true, false);
    lemma_scan_same(t, 647, true, false);
    lemma_scan_new(t, 648, true, false);
    lemma_scan_same(t, 649, true, false);
    lemma_scan_new(t, 650, true, false);
    lemma_scan_same(t, 651, true, false);
    lemma_scan_new(t, 652, true, false);
    lemma_scan_same(t, 653, true, false);
    lemma_scan_new(t, 654, true, false);
    lemma_scan_same(t, 655, true, false);
    lemma_scan_new(t, 656, true, false);
    lemma_scan_same(t, 657, true, false);
    lemma_scan_new(t, 658, true, false);
    lemma_scan_same(t, 659, true, false);
    lemma_scan_new(t, 660, true, false);
    lemma_scan_same(t, 661, true, false);
    lemma_scan_new(t, 662, true, false);
    lemma_scan_same(t, 663, true, false);
    lemma_scan_same(t, 664, true, false);
    lemma_scan_new(t, 665, true, false);
    lemma_scan_same(t, 666, true, false);
    lemma_scan_same(t, 667, true, false);
    lemma_scan_new(t, 668, true, false);
    lemma_scan_same(t, 669, true, false);
    lemma_scan_same(t, 670, true, false);
    lemma_scan_new(t, 671, true, false);
    lemma_scan_same(t, 672, true, false);
    lemma_scan_new(t, 673, true, false);
    lemma_scan_same(t, 674, true, false);
    lemma_scan_same(t, 675, true, false);
    lemma_scan_new(t, 676, true, false);
    lemma_scan_same(t, 677, true, false);
    lemma_scan_new(t, 678, true, false);
    lemma_scan_same(t, 679, true, false);
}

proof fn lemma_extension_rows_680_to_695()
    requires
        scanned(EXTENSION_TAGS@, 680, true, false),
    ensures
        scanned(EXTENSION_TAGS@, 695, true, false),
{
    reveal_strlit("binary");
    reveal_strlit("shell");
    reveal_strlit("text");
    reveal_strlit("xml");
    reveal_strlit("yaml");
    reveal_strlit("yin");
    reveal_strlit("yml");
    reveal_strlit("zcml");
    reveal_strlit("zig");
    reveal_strlit("zip");
    reveal_strlit("zpt");
    reveal_strlit("zsh");
    assert("text"@.len() == 4);
    assert("binary"@.len() == 6);
    assert("shell"@.len() == 5);
    assert("xml"@.len() == 3);
    assert("yaml"@.len() == 4);
    assert("yaml"@[0] == 'y' && "text"@[0] == 't');
    assert("yin"@.len() == 3);
    assert("zcml"@.len() == 4);
    assert("zcml"@[0] == 'z' && "text"@[0] == 't');
    assert("zig"@.len() == 3);
    assert("zip"@.len() == 3);
    assert("zpt"@.len() == 3);
    assert("zsh"@.len() == 3);
    reveal_with_fuel(lex_lt, 4);
    let t = EXTENSION_TAGS@;
    lemma_scan_same(t, 680, true, false);
    lemma_scan_new(t, 681, true, false);
    lemma_scan_same(t, 682, true, false);
    lemma_scan_new(t, 683, true, false);
    lemma_scan_same(t, 684, true, false);
    lemma_scan_same(t, 685, true, false);
    lemma_scan_new(t, 686, true, false);
    lemma_scan_same(t, 687, true, false);
    lemma_scan_new(t, 688, true, false);
    lemma_scan_same(t, 689, false, true);
    lemma_scan_new(t, 690, false, true);
    lemma_scan_same(t, 691, true, false);
    lemma_scan_new(t, 692, true, false);
    lemma_scan_same(t, 693, true, false);
    lemma_scan_same(t, 694, true, false);
}

/// The extension table is sorted by extension, and every extension in it has
/// exactly one of the tags `text` and `binary`.
pub proof fn lemma_extension_table_is_sound()
    ensures
        keys_sorted(EXTENSION_TAGS@),
        keys_have_one_encoding(EXTENSION_TAGS@),
{
    lemma_extension_rows_0_to_40();
    lemma_extension_rows_40_to_80();
    lemma_extension_rows_80_to_120();
    lemma_extension_rows_120_to_160();
    lemma_extension_rows_160_to_200();
    lemma_extension_rows_200_to_240();
    lemma_extension_rows_240_to_280();
    lemma_extension_rows_280_to_320();
    lemma_extension_rows_320_to_360();
    lemma_extension_rows_360_to_400();
    lemma_extension_rows_400_to_440();
    lemma_extension_rows_440_to_480();
    lemma_extension_rows_480_to_520();
    lemma_extension_rows_520_to_560();
    lemma_extension_rows_560_to_600();
    lemma_extension_rows_600_to_640();
    lemma_extension_rows_640_to_680();
    lemma_extension_rows_680_to_695();
    lemma_scan_end(EXTENSION_TAGS@, true, false);
}

proof fn lemma_name_rows_0_to_40()
    ensures
        scanned(NAME_TAGS@, 40, true, false),
{
    reveal_strlit(".babelrc");
    reveal_strlit(".bash_aliases");
    reveal_strlit(".bash_profile");
    reveal_strlit(".bashrc");
    reveal_strlit(".bazelrc");
    reveal_strlit(".bowerrc");
    reveal_strlit(".browserslistrc");
    reveal_strlit(".clang-format");
    reveal_strlit(".clang-tidy");
    reveal_strlit(".codespellrc");
    reveal_strlit(".coveragerc");
    reveal_strlit(".cshrc");
    reveal_strlit(".csslintrc");
    reveal_strlit(".dockerignore");
    reveal_strlit(".editorconfig");
    reveal_strlit(".envrc");
    reveal_strlit("babelrc");
    reveal_strlit("bash");
    reveal_strlit("bazelrc");
    reveal_strlit("binary");
    reveal_strlit("bowerrc");
    reveal_strlit("browserslistrc");
    reveal_strlit("codespellrc");
    reveal_strlit("coveragerc");
    reveal_strlit("csh");
    reveal_strlit("csslintrc");
    reveal_strlit("dockerignore");
    reveal_strlit("editorconfig");
    reveal_strlit("ini");
    reveal_strlit("json");
    reveal_strlit("shell");
    reveal_strlit("text");
    reveal_strlit("yaml");
    assert("text"@.len() == 4);
    assert("binary"@.len() == 6);
    assert("babelrc"@.len() == 7);
    assert("bash"@.len() == 4);
    assert("bash"@[0] == 'b' && "text"@[0] == 't');
    assert("bazelrc"@.len() == 7);
    assert("bowerrc"@.len() == 7);
    assert("browserslistrc"@.len() == 14);
    assert("codespellrc"@.len() == 11);
    assert("coveragerc"@.len() == 10);
    assert("csh"@.len() == 3);
    assert("csslintrc"@.len() == 9);
    assert("dockerignore"@.len() == 12);
    assert("editorconfig"@.len() == 12);
    assert("ini"@.len() == 3);
    assert("json"@.len() == 4);
    assert("json"@[0] == 'j' && "text"@[0] == 't');
    assert("shell"@.len() == 5);
    assert("yaml"@.len() == 4);
    assert("yaml"@[0] == 'y' && "text"@[0] == 't');
    reveal_with_fuel(lex_lt, 9);
    let t = NAME_TAGS@;
    lemma_scan_first(t);
    lemma_scan_same(t, 1, true, false);
    lemma_scan_same(t, 2, true, false);
    lemma_scan_new(t, 3, true, false);
    lemma_scan_same(t, 4, true, false);
    lemma_scan_same(t, 5, true, false);
    lemma_scan_new(t, 6, true, false);
    lemma_scan_same(t, 7, true, false);
    lemma_scan_same(t, 8, true, false);
    lemma_scan_new(t, 9, true, false);
    lemma_scan_same(t, 10, true, false);
    lemma_scan_same(t, 11, true, false);
    lemma_scan_new(t, 12, true, false);
    lemma_scan_same(t, 13, true, false);
    lemma_scan_new(t, 14, true, false);
    lemma_scan_same(t, 15, true, false);
    lemma_scan_same(t, 16, true, false);
    lemma_scan_new(t, 17, true, false);
    lemma_scan_same(t, 18, true, false);
    lemma_scan_new(t, 19, true, false);
    lemma_scan_same(t, 20, true, false);
    lemma_scan_new(t, 21, true, false);
    lemma_scan_same(t, 22, true, false);
    lemma_scan_new(t, 23, true, false);
    lemma_scan_same(t, 24, true, false);
    lemma_scan_same(t, 25, true, false);
    lemma_scan_new(t, 26, true, false);
    lemma_scan_same(t, 27, true, false);
    lemma_scan_same(t, 28, true, false);
    lemma_scan_new(t, 29, true, false);
    lemma_scan_same(t, 30, true, false);
    lemma_scan_same(t, 31, true, false);
    lemma_scan_new(t, 32, true, false);
    lemma_scan_same(t, 33, true, false);
    lemma_scan_same(t, 34, true, false);
    lemma_scan_new(t, 35, true, false);
    lemma_scan_same(t, 36, true, false);
    lemma_scan_new(t, 37, true, false);
    lemma_scan_same(t, 38, true, false);
    lemma_scan_new(t, 39, true, false);
}

proof fn lemma_name_rows_40_to_80()
    requires
        scanned(NAME_TAGS@, 40, true, false),
    ensures
        scanned(NAME_TAGS@, 80, true, false),
{
    reveal_strlit(".envrc");
    reveal_strlit(".flake8");
    reveal_strlit(".gitattributes");
    reveal_strlit(".gitconfig");
    reveal_strlit(".gitignore");
    reveal_strlit(".gitlint");
    reveal_strlit(".gitmodules");
    reveal_strlit(".hgrc");
    reveal_strlit(".isort.cfg");
    reveal_strlit(".jshintrc");
    reveal_strlit(".mailmap");
    reveal_strlit(".mention-bot");
    reveal_strlit(".npmignore");
    reveal_strlit(".pdbrc");
    reveal_strlit(".prettierignore");
    reveal_strlit(".pypirc");
    reveal_strlit("bash");
    reveal_strlit("binary");
    reveal_strlit("flake8");
    reveal_strlit("gitattributes");
    reveal_strlit("gitconfig");
    reveal_strlit("gitignore");
    reveal_strlit("gitlint");
    reveal_strlit("gitmodules");
    reveal_strlit("hgrc");
    reveal_strlit("ini");
    reveal_strlit("isort");
    reveal_strlit("jshintrc");
    reveal_strlit("json");
    reveal_strlit("mailmap");
    reveal_strlit("mention-bot");
    reveal_strlit("npmignore");
    reveal_strlit("pdbrc");
    reveal_strlit("prettierignore");
    reveal_strlit("python");
    reveal_strlit("shell");
    reveal_strlit("text");
    assert("text"@.len() == 4);
    assert("binary"@.len() == 6);
    assert("bash"@.len() == 4);
    assert("bash"@[0] == 'b' && "text"@[0] == 't');
    assert("flake8"@.len() == 6);
    assert("flake8"@[0] == 'f' && "binary"@[0] == 'b');
    assert("gitattributes"@.len() == 13);
    assert("gitconfig"@.len() == 9);
    assert("gitignore"@.len() == 9);
    assert("gitlint"@.len() == 7);
    assert("gitmodules"@.len() == 10);
    assert("hgrc"@.len() == 4);
    assert("hgrc"@[0] == 'h' && "text"@[0] == 't');
    assert("ini"@.len() == 3);
    assert("isort"@.len() == 5);
    assert("jshintrc"@.len() == 8);
    assert("json"@.len() == 4);
    assert("json"@[0] == 'j' && "text"@[0] == 't');
    assert("mailmap"@.len() == 7);
    assert("mention-bot"@.len() == 11);
    assert("npmignore"@.len() == 9);
    assert("pdbrc"@.len() == 5);
    assert("prettierignore"@.len() == 14);
    assert("python"@.len() == 6);
    assert("python"@[0] == 'p' && "binary"@[0] == 'b');
    assert("shell"@.len() == 5);
    reveal_with_fuel(lex_lt, 6);
    let t = NAME_TAGS@;
    lemma_scan_same(t, 40, true, false);
    lemma_scan_same(t, 41, true, false);
    lemma_scan_new(t, 42, true, false);
    lemma_scan_same(t, 43, true, false);
    lemma_scan_same(t, 44, true, false);
    lemma_scan_new(t, 45, true, false);
    lemma_scan_same(t, 46, true, false);
    lemma_scan_new(t, 47, true, false);
    lemma_scan_same(t, 48, true, false);
    lemma_scan_same(t, 49, true, false);
    lemma_scan_new(t, 50, true, false);
    lemma_scan_same(t, 51, true, false);
    lemma_scan_new(t, 52, true, false);
    lemma_scan_same(t, 53, true, false);
    lemma_scan_same(t, 54, true, false);
    lemma_scan_new(t, 55, true, false);
    lemma_scan_same(t, 56, true, false);
    lemma_scan_new(t, 57, true, false);
    lemma_scan_same(t, 58, true, false);
    lemma_scan_same(t, 59, true, false);
    lemma_scan_new(t, 60, true, false);
    lemma_scan_same(t, 61, true, false);
    lemma_scan_same(t, 62, true, false);
    lemma_scan_new(t, 63, true, false);
    lemma_scan_same(t, 64, true, false);
    lemma_scan_same(t, 65, true, false);
    lemma_scan_new(t, 66, true, false);
    lemma_scan_same(t, 67, true, false);
    lemma_scan_new(t, 68, true, false);
    lemma_scan_same(t, 69, true, false);
    lemma_scan_same(t, 70, true, false);
    lemma_scan_new(t, 71, true, false);
    lemma_scan_same(t, 72, true, false);
    lemma_scan_new(t, 73, true, false);
    lemma_scan_same(t, 74, true, false);
    lemma_scan_same(t, 75, true, false);
    lemma_scan_new(t, 76, true, false);
    lemma_scan_same(t, 77, true, false);
    lemma_scan_same(t, 78, true, false);
    lemma_scan_new(t, 79, true, false);
}

proof fn lemma_name_rows_80_to_120()
    requires
        scanned(NAME_TAGS@, 80, true, false),
    ensures
        scanned(NAME_TAGS@, 120, true, false),
{
    reveal_strlit(".pypirc");
    reveal_strlit(".rstcheck.cfg");
    reveal_strlit(".salt-lint");
    reveal_strlit(".sqlfluff");
    reveal_strlit(".yamllint");
    reveal_strlit(".zlogin");
    reveal_strlit(".zlogout");
    reveal_strlit(".zprofile");
    reveal_strlit(".zshenv");
    reveal_strlit(".zshrc");
    reveal_strlit("AUTHORS");
    reveal_strlit("BUILD");
    reveal_strlit("CHANGELOG");
    reveal_strlit("CMakeLists.txt");
    reveal_strlit("CONTRIBUTING");
    reveal_strlit("COPYING");
    reveal_strlit("Cargo.lock");
    reveal_strlit("bazel");
    reveal_strlit("binary");
    reveal_strlit("cmake");
    reveal_strlit("ini");
    reveal_strlit("plain-text");
    reveal_strlit("pypirc");
    reveal_strlit("salt-lint");
    reveal_strlit("shell");
    reveal_strlit("text");
    reveal_strlit("yaml");
    reveal_strlit("yamllint");
    reveal_strlit("zsh");
    assert("text"@.len() == 4);
    assert("binary"@.len() == 6);
    assert("bazel"@.len() == 5);
    assert("cmake"@.len() == 5);
    assert("ini"@.len() == 3);
    assert("plain-text"@.len() == 10);
    assert("pypirc"@.len() == 6);
    assert("pypirc"@[0] == 'p' && "binary"@[0] == 'b');
    assert("salt-lint"@.len() == 9);
    assert("shell"@.len() == 5);
    assert("yaml"@.len() == 4);
    assert("yaml"@[0] == 'y' && "text"@[0] == 't');
    assert("yamllint"@.len() == 8);
    assert("zsh"@.len() == 3);
    reveal_with_fuel(lex_lt, 7);
    let t = NAME_TAGS@;
    lemma_scan_same(t, 80, true, false);
    lemma_scan_same(t, 81, true, false);
    lemma_scan_new(t, 82, true, false);
    lemma_scan_same(t, 83, true, false);
    lemma_scan_new(t, 84, true, false);
    lemma_scan_same(t, 85, true, false);
    lemma_scan_same(t, 86, true, false);
    lemma_scan_new(t, 87, true, false);
    lemma_scan_same(t, 88, true, false);
    lemma_scan_new(t, 89, true, false);
    lemma_scan_same(t, 90, true, false);
    lemma_scan_same(t, 91, true, false);
    lemma_scan_new(t, 92, true, false);
    lemma_scan_same(t, 93, true, false);
    lemma_scan_same(t, 94, true, false);
    lemma_scan_new(t, 95, true, false);
    lemma_scan_same(t, 96, true, false);
    lemma_scan_same(t, 97, true, false);
    lemma_scan_new(t, 98, true, false);
    lemma_scan_same(t, 99, true, false);
    lemma_scan_same(t, 100, true, false);
    lemma_scan_new(t, 101, true, false);
    lemma_scan_same(t, 102, true, false);
    lemma_scan_same(t, 103, true, false);
    lemma_scan_new(t, 104, true, false);
    lemma_scan_same(t, 105, true, false);
    lemma_scan_same(t, 106, true, false);
    lemma_scan_new(t, 107, true, false);
    lemma_scan_same(t, 108, true, false);
    lemma_scan_new(t, 109, true, false);
    lemma_scan_same(t, 110, true, false);
    lemma_scan_new(t, 111, true, false);
    lemma_scan_same(t, 112, true, false);
    lemma_scan_new(t, 113, true, false);
    lemma_scan_same(t, 114, true, false);
    lemma_scan_new(t, 115, true, false);
    lemma_scan_same(t, 116, true, false);
    lemma_scan_new(t, 117, true, false);
    lemma_scan_same(t, 118, true, false);
    lemma_scan_new(t, 119, true, false);
}

proof fn lemma_name_rows_120_to_160()
    requires
        scanned(NAME_TAGS@, 120, true, false),
    ensures
        scanned(NAME_TAGS@, 160, true, false),
{
    reveal_strlit("Cargo.lock");
    reveal_strlit("Cargo.toml");
    reveal_strlit("Containerfile");
    reveal_strlit("Dockerfile");
    reveal_strlit("GNUmakefile");
    reveal_strlit("Gemfile");
    reveal_strlit("Gemfile.lock");
    reveal_strlit("Jakefile");
    reveal_strlit("Jenkinsfile");
    reveal_strlit("LICENSE");
    reveal_strlit("MAINTAINERS");
    reveal_strlit("Makefile");
    reveal_strlit("NEWS");
    reveal_strlit("NOTICE");
    reveal_strlit("PATENTS");
    reveal_strlit("PKGBUILD");
    reveal_strlit("Pipfile");
    reveal_strlit("Pipfile.lock");
    reveal_strlit("README");
    reveal_strlit("alpm");
    reveal_strlit("bash");
    reveal_strlit("binary");
    reveal_strlit("cargo");
    reveal_strlit("cargo-lock");
    reveal_strlit("dockerfile");
    reveal_strlit("groovy");
    reveal_strlit("javascript");
    reveal_strlit("jenkins");
    reveal_strlit("json");
    reveal_strlit("makefile");
    reveal_strlit("pkgbuild");
    reveal_strlit("plain-text");
    reveal_strlit("ruby");
    reveal_strlit("text");
    reveal_strlit("toml");
    assert("text"@.len() == 4);
    assert("binary"@.len() == 6);
    assert("alpm"@.len() == 4);
    assert("alpm"@[0] == 'a' && "text"@[0] == 't');
    assert("bash"@.len() == 4);
    assert("bash"@[0] == 'b' && "text"@[0] == 't');
    assert("cargo"@.len() == 5);
    assert("cargo-lock"@.len() == 10);
    assert("dockerfile"@.len() == 10);
    assert("groovy"@.len() == 6);
    assert("groovy"@[0] == 'g' && "binary"@[0] == 'b');
    assert("javascript"@.len() == 10);
    assert("jenkins"@.len() == 7);
    assert("json"@.len() == 4);
    assert("json"@[0] == 'j' && "text"@[0] == 't');
    assert("makefile"@.len() == 8);
    assert("pkgbuild"@.len() == 8);
    assert("plain-text"@.len() == 10);
    assert("ruby"@.len() == 4);
    assert("ruby"@[0] == 'r' && "text"@[0] == 't');
    assert("toml"@.len() == 4);
    assert("toml"@[1] == 'o' && "text"@[1] == 'e');
    reveal_with_fuel(lex_lt, 9);
    let t = NAME_TAGS@;
    lemma_scan_same(t, 120, true, false);
    lemma_scan_same(t, 121, true, false);
    lemma_scan_new(t, 122, true, false);
    lemma_scan_same(t, 123, true, false);
    lemma_scan_same(t, 124, true, false);
    lemma_scan_new(t, 125, true, false);
    lemma_scan_same(t, 126, true, false);
    lemma_scan_new(t, 127, true, false);
    lemma_scan_same(t, 128, true, false);
    lemma_scan_new(t, 129, true, false);
    lemma_scan_same(t, 130, true, false);
    lemma_scan_new(t, 131, true, false);
    lemma_scan_same(t, 132, true, false);
    lemma_scan_new(t, 133, true, false);
    lemma_scan_new(t, 134, true, false);
    lemma_scan_same(t, 135, true, false);
    lemma_scan_new(t, 136, true, false);
    lemma_scan_same(t, 137, true, false);
    lemma_scan_same(t, 138, true, false);
    lemma_scan_new(t, 139, true, false);
    lemma_scan_same(t, 140, true, false);
    lemma_scan_new(t, 141, true, false);
    lemma_scan_same(t, 142, true, false);
    lemma_scan_new(t, 143, true, false);
    lemma_scan_same(t, 144, true, false);
    lemma_scan_new(t, 145, true, false);
    lemma_scan_same(t, 146, true, false);
    lemma_scan_new(t, 147, true, false);
    lemma_scan_same(t, 148, true, false);
    lemma_scan_new(t, 149, true, false);
    lemma_scan_same(t, 150, true, false);
    lemma_scan_new(t, 151, true, false);
    lemma_scan_same(t, 152, true, false);
    lemma_scan_same(t, 153, true, false);
    lemma_scan_same(t, 154, true, false);
    lemma_scan_new(t, 155, true, false);
    lemma_scan_same(t, 156, true, false);
    lemma_scan_new(t, 157, true, false);
    lemma_scan_same(t, 158, true, false);
    lemma_scan_new(t, 159, true, false);
}

proof fn lemma_name_rows_160_to_200()
    requires
        scanned(NAME_TAGS@, 160, true, false),
    ensures
        scanned(NAME_TAGS@, 200, true, false),
{
    reveal_strlit("README");
    reveal_strlit("Rakefile");
    reveal_strlit("Tiltfile");
    reveal_strlit("Vagrantfile");
    reveal_strlit("WORKSPACE");
    reveal_strlit("bazel");
    reveal_strlit("bblayers.conf");
    reveal_strlit("binary");
    reveal_strlit("bitbake");
    reveal_strlit("bitbake.conf");
    reveal_strlit("config.ru");
    reveal_strlit("copy.bara.sky");
    reveal_strlit("erlang");
    reveal_strlit("go-mod");
    reveal_strlit("go-sum");
    reveal_strlit("go.mod");
    reveal_strlit("go.sum");
    reveal_strlit("ini");
    reveal_strlit("makefile");
    reveal_strlit("meson");
    reveal_strlit("meson.build");
    reveal_strlit("meson_options.txt");
    reveal_strlit("plain-text");
    reveal_strlit("poetry.lock");
    reveal_strlit("pom");
    reveal_strlit("pom.xml");
    reveal_strlit("pylintrc");
    reveal_strlit("rebar.config");
    reveal_strlit("ruby");
    reveal_strlit("setup.cfg");
    reveal_strlit("sys.config");
    reveal_strlit("text");
    reveal_strlit("tiltfile");
    reveal_strlit("toml");
    reveal_strlit("xml");
    assert("text"@.len() == 4);
    assert("binary"@.len() == 6);
    assert("bazel"@.len() == 5);
    assert("bitbake"@.len() == 7);
    assert("erlang"@.len() == 6);
    assert("erlang"@[0] == 'e' && "binary"@[0] == 'b');
    assert("go-mod"@.len() == 6);
    assert("go-mod"@[0] == 'g' && "binary"@[0] == 'b');
    assert("go-sum"@.len() == 6);
    assert("go-sum"@[0] == 'g' && "binary"@[0] == 'b');
    assert("ini"@.len() == 3);
    assert("makefile"@.len() == 8);
    assert("meson"@.len() == 5);
    assert("plain-text"@.len() == 10);
    assert("pom"@.len() == 3);
    assert("pylintrc"@.len() == 8);
    assert("ruby"@.len() == 4);
    assert("ruby"@[0] == 'r' && "text"@[0] == 't');
    assert("tiltfile"@.len() == 8);
    assert("toml"@.len() == 4);
    assert("toml"@[1] == 'o' && "text"@[1] == 'e');
    assert("xml"@.len() == 3);
    reveal_with_fuel(lex_lt, 7);
    let t = NAME_TAGS@;
    lemma_scan_same(t, 160, true, false);
    lemma_scan_new(t, 161, true, false);
    lemma_scan_same(t, 162, true, false);
    lemma_scan_new(t, 163, true, false);
    lemma_scan_same(t, 164, true, false);
    lemma_scan_new(t, 165, true, false);
    lemma_scan_same(t, 166, true, false);
    lemma_scan_new(t, 167, true, false);
    lemma_scan_same(t, 168, true, false);
    lemma_scan_new(t, 169, true, false);
    lemma_scan_same(t, 170, true, false);
    lemma_scan_new(t, 171, true, false);
    lemma_scan_same(t, 172, true, false);
    lemma_scan_new(t, 173, true, false);
    lemma_scan_same(t, 174, true, false);
    lemma_scan_new(t, 175, true, false);
    lemma_scan_same(t, 176, true, false);
    lemma_scan_new(t, 177, true, false);
    lemma_scan_same(t, 178, true, false);
    lemma_scan_new(t, 179, true, false);
    lemma_scan_same(t, 180, true, false);
    lemma_scan_new(t, 181, true, false);
    lemma_scan_same(t, 182, true, false);
    lemma_scan_new(t, 183, true, false);
    lemma_scan_same(t, 184, true, false);
    lemma_scan_new(t, 185, true, false);
    lemma_scan_same(t, 186, true, false);
    lemma_scan_new(t, 187, true, false);
    lemma_scan_same(t, 188, true, false);
    lemma_scan_new(t, 189, true, false);
    lemma_scan_same(t, 190, true, false);
    lemma_scan_same(t, 191, true, false);
    lemma_scan_new(t, 192, true, false);
    lemma_scan_same(t, 193, true, false);
    lemma_scan_same(t, 194, true, false);
    lemma_scan_new(t, 195, true, false);
    lemma_scan_same(t, 196, true, false);
    lemma_scan_new(t, 197, true, false);
    lemma_scan_same(t, 198, true, false);
    lemma_scan_new(t, 199, true, false);
}

proof fn lemma_name_rows_200_to_205()
    requires
        scanned(NAME_TAGS@, 200, true, false),
    ensures
        scanned(NAME_TAGS@, 205, true, false),
{
    reveal_strlit("binary");
    reveal_strlit("erlang");
    reveal_strlit("python");
    reveal_strlit("sys.config");
    reveal_strlit("sys.config.src");
    reveal_strlit("text");
    reveal_strlit("wscript");
    assert("text"@.len() == 4);
    assert("binary"@.len() == 6);
    assert("erlang"@.len() == 6);
    assert("erlang"@[0] == 'e' && "binary"@[0] == 'b');
    assert("python"@.len() == 6);
    assert("python"@[0] == 'p' && "binary"@[0] == 'b');
    reveal_with_fuel(lex_lt, 12);
    let t = NAME_TAGS@;
    lemma_scan_same(t, 200, true, false);
    lemma_scan_new(t, 201, true, false);
    lemma_scan_same(t, 202, true, false);
    lemma_scan_new(t, 203, true, false);
    lemma_scan_same(t, 204, true, false);
}

/// The file-name table is sorted by name, and every name in it has exactly one
/// of the tags `text` and `binary`.
pub proof fn lemma_name_table_is_sound()
    ensures
        keys_sorted(NAME_TAGS@),
        keys_have_one_encoding(NAME_TAGS@),
{
    lemma_name_rows_0_to_40();
    lemma_name_rows_40_to_80();
    lemma_name_rows_80_to_120();
    lemma_name_rows_120_to_160();
    lemma_name_rows_160_to_200();
    lemma_name_rows_200_to_205();
    lemma_scan_end(NAME_TAGS@, true, false);
}

/// `plist` is the key of no row of the extension table.
proof fn lemma_plist_is_not_an_extension()
    ensures
        forall|j: int| 0 <= j < EXTENSION_TAGS@.len() ==> (#[trigger] EXTENSION_TAGS@[j]).0@ != "plist"@,
{
    assert(keys_sorted(EXTENSION_TAGS@)) by {
        lemma_extension_table_is_sound();
    }
    let prev = EXTENSION_TAGS@[424].0@;
    let next = EXTENSION_TAGS@[425].0@;
    reveal_strlit("plantuml");
    reveal_strlit("plist");
    reveal_strlit("pm");
    assert(prev == "plantuml"@ && next == "pm"@);
    assert(lex_lt(prev, "plist"@) && lex_lt("plist"@, next)) by {
        reveal_with_fuel(lex_lt, 4);
    }
    lemma_key_between_rows_absent(EXTENSION_TAGS@, 425, "plist"@);
}

/// `ppm` is the key of no row of the extension table.
proof fn lemma_ppm_is_not_an_extension()
    ensures
        forall|j: int| 0 <= j < EXTENSION_TAGS@.len() ==> (#[trigger] EXTENSION_TAGS@[j]).0@ != "ppm"@,
{
    assert(keys_sorted(EXTENSION_TAGS@)) by {
        lemma_extension_table_is_sound();
    }
    let prev = EXTENSION_TAGS@[436].0@;
    let next = EXTENSION_TAGS@[437].0@;
    reveal_strlit("pp");
    reveal_strlit("ppm");
    reveal_strlit("prisma");
    assert(prev == "pp"@ && next == "prisma"@);
    assert(lex_lt(prev, "ppm"@) && lex_lt("ppm"@, next)) by {
        reveal_with_fuel(lex_lt, 4);
    }
    lemma_key_between_rows_absent(EXTENSION_TAGS@, 437, "ppm"@);
}

/// No extension whose encoding is read from content is an ordinary extension.
pub proof fn lemma_binary_check_keys_are_not_extensions()
    ensures
        keys_disjoint(EXTENSION_TAGS@, EXTENSIONS_NEED_BINARY_CHECK_TAGS@),
{
    lemma_plist_is_not_an_extension();
    lemma_ppm_is_not_an_extension();
    let t = EXTENSION_TAGS@;
    let b = EXTENSIONS_NEED_BINARY_CHECK_TAGS@;
    assert(b[0].0@ == "plist"@);
    assert(b[1].0@ == "ppm"@);
    assert(b[2].0@ == "ppm"@);
    assert forall|i: int, j: int| 0 <= i < t.len() && 0 <= j < b.len() implies (#[trigger] t[i]).0@
        != (#[trigger] b[j]).0@ by {
        assert(j == 0 || j == 1 || j == 2);
    }
}

/// Every recognized extension has exactly one of the tags `text` and `binary`.
pub proof fn lemma_extension_has_one_encoding(ext: Seq<char>)
    requires
        extension_tags(ext) != Set::<Seq<char>>::empty(),
    ensures
        has_one_encoding(extension_tags(ext)),
{
    lemma_extension_table_is_sound();
    lemma_recognized_key_has_one_encoding(EXTENSION_TAGS@, ext);
}

/// Every recognized file name has exactly one of the tags `text` and `binary`.
pub proof fn lemma_name_has_one_encoding(name: Seq<char>)
    requires
        name_tags(name) != Set::<Seq<char>>::empty(),
    ensures
        has_one_encoding(name_tags(name)),
{
    lemma_name_table_is_sound();
    lemma_recognized_key_has_one_encoding(NAME_TAGS@, name);
}

} // verus!

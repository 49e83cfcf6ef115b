//! Language descriptors: the fixed, data-driven mapping from a language tag
//! to its container image, container name, project file layout and
//! executable-suffix rule.

use vstd::prelude::*;

verus! {

use vstd::string::StringExecFns;

/// A language the engine can build and test in its own container.
#[derive(Clone, Copy, PartialEq, Eq, Structural, Debug)]
pub enum Lang {
    Rust,
    Java,
    Scala,
    Swift,
    Kotlin,
    Python,
    JavaScript,
    TypeScript,
    Php,
}

/// Lower-case identifier of a language, the word that image and container
/// names are built from.
pub open spec fn lang_name_spec(l: Lang) -> Seq<char> {
    match l {
        Lang::Rust => "rust"@,
        Lang::Java => "java"@,
        Lang::Scala => "scala"@,
        Lang::Swift => "swift"@,
        Lang::Kotlin => "kotlin"@,
        Lang::Python => "python"@,
        Lang::JavaScript => "javascript"@,
        Lang::TypeScript => "typescript"@,
        Lang::Php => "php"@,
    }
}

/// The deterministic name of the one long-lived container of a language.
pub open spec fn container_name_spec(l: Lang) -> Seq<char> {
    "rustsn_"@ + lang_name_spec(l) + "_container"@
}

/// The image a language's container is created from.
pub open spec fn image_name_spec(l: Lang) -> Seq<char> {
    match l {
        Lang::Rust => "rust"@,
        Lang::Java => "maven"@,
        Lang::Scala => "sbtscala/scala-sbt"@,
        Lang::Swift => "swift"@,
        Lang::Kotlin => "gradle"@,
        Lang::Python => "python"@,
        Lang::JavaScript => "node"@,
        Lang::TypeScript => "node"@,
        Lang::Php => "composer"@,
    }
}

/// The suffix the command program takes on Windows hosts; empty when the
/// program name is used as is.
pub open spec fn exec_suffix_spec(l: Lang) -> Seq<char> {
    match l {
        Lang::Rust => ""@,
        Lang::Java => ".cmd"@,
        Lang::Scala => ".cmd"@,
        Lang::Swift => ""@,
        Lang::Kotlin => ".bat"@,
        Lang::Python => ""@,
        Lang::JavaScript => ".cmd"@,
        Lang::TypeScript => ".cmd"@,
        Lang::Php => ".cmd"@,
    }
}

/// The fixed relative paths, under the sandbox directory, of a language's
/// project files, in the order the cache key concatenates them:
/// dependency manifest, solution source, test source, extra config.
pub open spec fn project_paths_spec(l: Lang) -> Seq<Seq<char>> {
    match l {
        Lang::Rust => seq!["Cargo.toml"@, "src/lib.rs"@],
        Lang::Java => seq![
            "pom.xml"@,
            "src/main/java/com/example/solution/Solution.java"@,
            "src/test/java/com/example/solution/SolutionTest.java"@,
        ],
        Lang::Scala => seq![
            "build.sbt"@,
            "src/main/scala/Solution.scala"@,
            "src/test/scala/SolutionTest.scala"@,
        ],
        Lang::Swift => seq![
            "Package.swift"@,
            "Sources/Solution/Solution.swift"@,
            "Tests/SolutionTests/SolutionTests.swift"@,
        ],
        Lang::Kotlin => seq![
            "build.gradle"@,
            "src/main/kotlin/Solution.kt"@,
            "src/test/kotlin/SolutionTest.kt"@,
        ],
        Lang::Python => seq!["requirements.txt"@, "solution.py"@, "test.py"@],
        Lang::JavaScript => seq![
            "package.json"@,
            "src/solution.js"@,
            "src/solution.test.js"@,
        ],
        Lang::TypeScript => seq![
            "package.json"@,
            "src/solution.ts"@,
            "src/solution.test.ts"@,
            "tsconfig.json"@,
        ],
        Lang::Php => seq![
            "composer.json"@,
            "src/Solution.php"@,
            "tests/SolutionTest.php"@,
        ],
    }
}

/// Lower-case identifier of the language.
pub fn lang_name(l: Lang) -> (r: String)
    ensures
        r@ == lang_name_spec(l),
{
    match l {
        Lang::Rust => "rust".to_owned(),
        Lang::Java => "java".to_owned(),
        Lang::Scala => "scala".to_owned(),
        Lang::Swift => "swift".to_owned(),
        Lang::Kotlin => "kotlin".to_owned(),
        Lang::Python => "python".to_owned(),
        Lang::JavaScript => "javascript".to_owned(),
        Lang::TypeScript => "typescript".to_owned(),
        Lang::Php => "php".to_owned(),
    }
}

/// The container of a language: `rustsn_<lang>_container`.
pub fn container_name(l: Lang) -> (r: String)
    ensures
        r@ == container_name_spec(l),
{
    let mut s = "rustsn_".to_owned();
    let name = lang_name(l);
    s.append(name.as_str());
    s.append("_container");
    s
}

/// The image the language's container is created from.
pub fn image_name(l: Lang) -> (r: String)
    ensures
        r@ == image_name_spec(l),
{
    match l {
        Lang::Rust => "rust".to_owned(),
        Lang::Java => "maven".to_owned(),
        Lang::Scala => "sbtscala/scala-sbt".to_owned(),
        Lang::Swift => "swift".to_owned(),
        Lang::Kotlin => "gradle".to_owned(),
        Lang::Python => "python".to_owned(),
        Lang::JavaScript => "node".to_owned(),
        Lang::TypeScript => "node".to_owned(),
        Lang::Php => "composer".to_owned(),
    }
}

/// The suffix the command program takes on Windows hosts.
pub fn exec_suffix(l: Lang) -> (r: String)
    ensures
        r@ == exec_suffix_spec(l),
{
    match l {
        Lang::Rust => "".to_owned(),
        Lang::Java => ".cmd".to_owned(),
        Lang::Scala => ".cmd".to_owned(),
        Lang::Swift => "".to_owned(),
        Lang::Kotlin => ".bat".to_owned(),
        Lang::Python => "".to_owned(),
        Lang::JavaScript => ".cmd".to_owned(),
        Lang::TypeScript => ".cmd".to_owned(),
        Lang::Php => ".cmd".to_owned(),
    }
}

/// The name under which a command program is invoked: on Windows hosts the
/// language's suffix is appended, elsewhere the program name is kept as is.
pub fn command_program(l: Lang, program: &str, on_windows: bool) -> (r: String)
    ensures
        on_windows ==> r@ == program@ + exec_suffix_spec(l),
        !on_windows ==> r@ == program@,
{
    let mut s = program.to_owned();
    if on_windows {
        let suffix = exec_suffix(l);
        s.append(suffix.as_str());
    }
    s
}

/// The relative paths of the language's project files, in cache-key order.
pub fn project_file_paths(l: Lang) -> (r: Vec<String>)
    ensures
        r.deep_view() == project_paths_spec(l),
{
    let mut v: Vec<String> = Vec::new();
    match l {
        Lang::Rust => {
            v.push("Cargo.toml".to_owned());
            v.push("src/lib.rs".to_owned());
        },
        Lang::Java => {
            v.push("pom.xml".to_owned());
            v.push("src/main/java/com/example/solution/Solution.java".to_owned());
            v.push("src/test/java/com/example/solution/SolutionTest.java".to_owned());
        },
        Lang::Scala => {
            v.push("build.sbt".to_owned());
            v.push("src/main/scala/Solution.scala".to_owned());
            v.push("src/test/scala/SolutionTest.scala".to_owned());
        },
        Lang::Swift => {
            v.push("Package.swift".to_owned());
            v.push("Sources/Solution/Solution.swift".to_owned());
            v.push("Tests/SolutionTests/SolutionTests.swift".to_owned());
        },
        Lang::Kotlin => {
            v.push("build.gradle".to_owned());
            v.push("src/main/kotlin/Solution.kt".to_owned());
            v.push("src/test/kotlin/SolutionTest.kt".to_owned());
        },
        Lang::Python => {
            v.push("requirements.txt".to_owned());
            v.push("solution.py".to_owned());
            v.push("test.py".to_owned());
        },
        Lang::JavaScript => {
            v.push("package.json".to_owned());
            v.push("src/solution.js".to_owned());
            v.push("src/solution.test.js".to_owned());
        },
        Lang::TypeScript => {
            v.push("package.json".to_owned());
            v.push("src/solution.ts".to_owned());
            v.push("src/solution.test.ts".to_owned());
            v.push("tsconfig.json".to_owned());
        },
        Lang::Php => {
            v.push("composer.json".to_owned());
            v.push("src/Solution.php".to_owned());
            v.push("tests/SolutionTest.php".to_owned());
        },
    }
    proof {
        assert(v.deep_view() =~= project_paths_spec(l));
    }
    v
}

} // verus!

//! The curated prompt-gallery dataset and the decisions of a reseed: which
//! stored projects and files change, and which stored files are removed. The
//! database work (the transaction, the queries, the counts) is done by the
//! caller with these decisions.

use vstd::prelude::*;
use vstd::string::*;
use vstd::utf8::*;
use crate::gallery::{is_kebab_slug, is_known_phase, PUBLISHED};
use crate::text::same_text;

verus! {

/// A curated file of a seed project.
#[derive(Debug)]
pub struct SeedFile {
    pub phase: &'static str,
    pub path: &'static str,
    pub language: Option<&'static str>,
    pub content: &'static str,
    pub display_order: i64,
}

/// A curated project of the gallery dataset.
#[derive(Debug)]
pub struct SeedProject {
    pub slug: &'static str,
    pub title: &'static str,
    pub summary: &'static str,
    pub prompt: &'static str,
    pub display_order: i64,
    pub files: Vec<SeedFile>,
}

/// The title of `random-password-gen`.
pub const RANDOM_PASSWORD_GEN_TITLE: &'static str = "Random Password Generator";

/// The summary of `random-password-gen`.
pub const RANDOM_PASSWORD_GEN_SUMMARY: &'static str = "Create a Rust CLI that generates cryptographically random passwords of a configurable length.";

/// The prompt of `random-password-gen`.
pub const RANDOM_PASSWORD_GEN_PROMPT: &'static str = "Create a Rust command-line tool that generates a random password. Accept an optional length argument (default 16) and print the password to stdout. Use only the standard library and the rand crate. The password should contain a mix of uppercase, lowercase, digits, and symbols.";

/// The result `Cargo.toml` of `random-password-gen`.
pub const RANDOM_PASSWORD_GEN_RESULT_CARGO_TOML: &'static str = "[package]\nname = \"random-password-gen\"\nversion = \"0.1.0\"\nedition = \"2021\"\n\n[dependencies]\nrand = \"0.8\"\n";

/// The result `src/main.rs` of `random-password-gen`.
pub const RANDOM_PASSWORD_GEN_RESULT_SRC_MAIN_RS: &'static str = "use rand::seq::SliceRandom;\nuse std::{env, process};\n\nconst LOWERCASE: &[u8] = b\"abcdefghijklmnopqrstuvwxyz\";\nconst UPPERCASE: &[u8] = b\"ABCDEFGHIJKLMNOPQRSTUVWXYZ\";\nconst DIGITS: &[u8] = b\"0123456789\";\nconst SYMBOLS: &[u8] = b\"!@#$%^&*\";\nconst ALL: &[u8] = b\"abcdefghijklmnopqrstuvwxyzABCDEFGHIJKLMNOPQRSTUVWXYZ0123456789!@#$%^&*\";\n\nfn main() {\n    let len: usize = env::args()\n        .nth(1)\n        .and_then(|a| a.parse().ok())\n        .unwrap_or(16);\n\n    if len < 4 {\n        eprintln!(\"Password length must be at least 4.\");\n        process::exit(2);\n    }\n\n    let mut rng = rand::thread_rng();\n    let mut password = vec![\n        *LOWERCASE.choose(&mut rng).unwrap(),\n        *UPPERCASE.choose(&mut rng).unwrap(),\n        *DIGITS.choose(&mut rng).unwrap(),\n        *SYMBOLS.choose(&mut rng).unwrap(),\n    ];\n\n    password.extend((password.len()..len).map(|_| *ALL.choose(&mut rng).unwrap()));\n    password.shuffle(&mut rng);\n\n    let password: String = password.into_iter().map(char::from).collect();\n    println!(\"{password}\");\n}\n";

/// The title of `hello-rust-cli`.
pub const HELLO_RUST_CLI_TITLE: &'static str = "Hello Rust CLI";

/// The summary of `hello-rust-cli`.
pub const HELLO_RUST_CLI_SUMMARY: &'static str = "A minimal command-line program that prints a greeting using clap for argument parsing.";

/// The prompt of `hello-rust-cli`.
pub const HELLO_RUST_CLI_PROMPT: &'static str = "Create a minimal Rust CLI application that accepts an optional name argument and prints \"Hello, <name>!\" defaulting to \"Hello, world!\" when no argument is provided. Use clap for argument parsing.";

/// The initial `Cargo.toml` of `hello-rust-cli`.
pub const HELLO_RUST_CLI_INITIAL_CARGO_TOML: &'static str = "[package]\nname = \"hello-cli\"\nversion = \"0.1.0\"\nedition = \"2021\"\n";

/// The initial `src/main.rs` of `hello-rust-cli`.
pub const HELLO_RUST_CLI_INITIAL_SRC_MAIN_RS: &'static str = "fn main() {\n    // TODO: implement CLI\n}\n";

/// The result `Cargo.toml` of `hello-rust-cli`.
pub const HELLO_RUST_CLI_RESULT_CARGO_TOML: &'static str = "[package]\nname = \"hello-cli\"\nversion = \"0.1.0\"\nedition = \"2021\"\n\n[dependencies]\nclap = { version = \"4\", features = [\"derive\"] }\n";

/// The result `src/main.rs` of `hello-rust-cli`.
pub const HELLO_RUST_CLI_RESULT_SRC_MAIN_RS: &'static str = "use clap::Parser;\n\n#[derive(Parser)]\n#[command(name = \"hello-cli\")]\nstruct Args {\n    /// Name to greet\n    #[arg(default_value = \"world\")]\n    name: String,\n}\n\nfn main() {\n    let args = Args::parse();\n    println!(\"Hello, {}!\", args.name);\n}\n";

/// The title of `html-landing-page`.
pub const HTML_LANDING_PAGE_TITLE: &'static str = "HTML Landing Page";

/// The summary of `html-landing-page`.
pub const HTML_LANDING_PAGE_SUMMARY: &'static str = "Build a responsive landing page from scratch with semantic HTML and modern CSS.";

/// The prompt of `html-landing-page`.
pub const HTML_LANDING_PAGE_PROMPT: &'static str = "Create a responsive landing page for a fictional open-source project called \"Prompt Together\". Use only HTML and CSS with no JavaScript frameworks. The page should include a hero section, a features grid, and a footer. Make it mobile-first and accessible.";

/// The initial `index.html` of `html-landing-page`.
pub const HTML_LANDING_PAGE_INITIAL_INDEX_HTML: &'static str = "<!DOCTYPE html>\n<html lang=\"en\">\n<head>\n    <meta charset=\"UTF-8\">\n    <meta name=\"viewport\" content=\"width=device-width, initial-scale=1.0\">\n    <title>Prompt Together</title>\n    <link rel=\"stylesheet\" href=\"style.css\">\n</head>\n<body>\n    <!-- TODO: build the page -->\n</body>\n</html>\n";

/// The initial `style.css` of `html-landing-page`.
pub const HTML_LANDING_PAGE_INITIAL_STYLE_CSS: &'static str = "/* TODO: add styles */\n";

/// The result `index.html` of `html-landing-page`.
pub const HTML_LANDING_PAGE_RESULT_INDEX_HTML: &'static str = "<!DOCTYPE html>\n<html lang=\"en\">\n<head>\n    <meta charset=\"UTF-8\">\n    <meta name=\"viewport\" content=\"width=device-width, initial-scale=1.0\">\n    <title>Prompt Together</title>\n    <link rel=\"stylesheet\" href=\"style.css\">\n</head>\n<body>\n    <header class=\"hero\">\n        <h1>Prompt Together</h1>\n        <p>An inclusive platform for learning to build software with coding agents.</p>\n        <a href=\"#features\" class=\"cta\">Explore Features</a>\n    </header>\n    <main id=\"features\" class=\"features\">\n        <h2>Features</h2>\n        <div class=\"grid\">\n            <article>\n                <h3>Curated Prompts</h3>\n                <p>Browse a gallery of prompt examples for common tasks.</p>\n            </article>\n            <article>\n                <h3>Side-by-Side View</h3>\n                <p>Compare starting files with the agent-generated result.</p>\n            </article>\n            <article>\n                <h3>Open Source</h3>\n                <p>Explore, learn from, and contribute to the codebase.</p>\n            </article>\n        </div>\n    </main>\n    <footer>\n        <p>&copy; 2026 Prompt Together. Open source under the MIT license.</p>\n    </footer>\n</body>\n</html>\n";

/// The result `style.css` of `html-landing-page`.
pub const HTML_LANDING_PAGE_RESULT_STYLE_CSS: &'static str = "* { box-sizing: border-box; margin: 0; padding: 0; }\nbody { font-family: system-ui, sans-serif; line-height: 1.6; color: #222; }\n.hero { text-align: center; padding: 4rem 1rem; background: #0d1117; color: #fff; }\n.hero h1 { font-size: 2.5rem; }\n.hero p { margin: 1rem 0 2rem; font-size: 1.125rem; }\n.cta { display: inline-block; padding: 0.75rem 1.5rem; background: #2563eb; color: #fff; text-decoration: none; border-radius: 0.375rem; }\n.features { padding: 3rem 1rem; max-width: 64rem; margin: 0 auto; }\n.features h2 { text-align: center; margin-bottom: 2rem; }\n.grid { display: grid; gap: 1.5rem; grid-template-columns: 1fr; }\n@media (min-width: 48rem) { .grid { grid-template-columns: repeat(3, 1fr); } }\narticle { padding: 1.5rem; border: 1px solid #e5e7eb; border-radius: 0.5rem; }\narticle h3 { margin-bottom: 0.5rem; }\nfooter { text-align: center; padding: 2rem 1rem; font-size: 0.875rem; color: #6b7280; }\n";

/// The title of `python-word-counter`.
pub const PYTHON_WORD_COUNTER_TITLE: &'static str = "Python Word Counter";

/// The summary of `python-word-counter`.
pub const PYTHON_WORD_COUNTER_SUMMARY: &'static str = "A small Python script that reads text and counts word frequencies, sorted by count.";

/// The prompt of `python-word-counter`.
pub const PYTHON_WORD_COUNTER_PROMPT: &'static str = "Write a Python script that reads a block of text, counts how often each word appears (case-insensitive, ignoring punctuation), and prints the results sorted by frequency descending. Include a sample text inline so the script works standalone.";

/// The initial `word_counter.py` of `python-word-counter`.
pub const PYTHON_WORD_COUNTER_INITIAL_WORD_COUNTER_PY: &'static str = "# TODO: implement word counter\n";

/// The result `word_counter.py` of `python-word-counter`.
pub const PYTHON_WORD_COUNTER_RESULT_WORD_COUNTER_PY: &'static str = "import re\nfrom collections import Counter\n\nSAMPLE_TEXT = \"\"\"\nPrompt Together is an inclusive platform for learning to build software\nwith coding agents. Together we explore prompts, compare outputs, and\nlearn best practices for working with AI coding tools.\n\"\"\"\n\ndef count_words(text: str) -> list[tuple[str, int]]:\n    words = re.findall(r\"[a-z0-9]+\", text.lower())\n    return Counter(words).most_common()\n\nif __name__ == \"__main__\":\n    for word, count in count_words(SAMPLE_TEXT):\n        print(f\"{word:>12}  {count}\")\n";

/// The title of `readme-template`.
pub const README_TEMPLATE_TITLE: &'static str = "README Template";

/// The summary of `readme-template`.
pub const README_TEMPLATE_SUMMARY: &'static str = "Transform a bare-bones README into a polished open-source project README with badges and sections.";

/// The prompt of `readme-template`.
pub const README_TEMPLATE_PROMPT: &'static str = "Given a minimal README with just a project title, expand it into a complete open-source README with a description, installation instructions, usage examples, a contributing section, and a license badge. Keep it concise and suitable for a small CLI tool.";

/// The initial `README.md` of `readme-template`.
pub const README_TEMPLATE_INITIAL_README_MD: &'static str = "# hello-cli\n";

/// The result `README.md` of `readme-template`.
pub const README_TEMPLATE_RESULT_README_MD: &'static str = "# hello-cli\n\n[![License: MIT](https://img.shields.io/badge/License-MIT-blue.svg)](LICENSE)\n\nA minimal command-line tool that prints a friendly greeting.\n\n## Installation\n\n```sh\ncargo install --path .\n```\n\n## Usage\n\n```sh\n# Default greeting\nhello-cli\n# Output: Hello, world!\n\n# Custom greeting\nhello-cli Alice\n# Output: Hello, Alice!\n```\n\n## Contributing\n\nContributions are welcome! Please open an issue or pull request.\n\n## License\n\nThis project is licensed under the MIT License.\n";

/// A curated file as plain values: its phase, path, language, content and
/// display order.
pub type SeedFileView = (Seq<char>, Seq<char>, Option<Seq<char>>, Seq<char>, i64);

/// A curated project as plain values: its slug, title, summary, prompt,
/// display order and files.
pub type SeedProjectView = (Seq<char>, Seq<char>, Seq<char>, Seq<char>, i64, Seq<SeedFileView>);

impl View for SeedFile {
    type V = SeedFileView;

    open spec fn view(&self) -> SeedFileView {
        (
            self.phase@,
            self.path@,
            match self.language {
                Some(l) => Some(l@),
                None => None,
            },
            self.content@,
            self.display_order,
        )
    }
}

impl View for SeedProject {
    type V = SeedProjectView;

    open spec fn view(&self) -> SeedProjectView {
        (
            self.slug@,
            self.title@,
            self.summary@,
            self.prompt@,
            self.display_order,
            self.files@.map_values(|f: SeedFile| f@),
        )
    }
}

/// The curated dataset as plain values, in display order.
pub open spec fn curated_data() -> Seq<SeedProjectView> {
    seq![
        (
            "random-password-gen"@,
            RANDOM_PASSWORD_GEN_TITLE@,
            RANDOM_PASSWORD_GEN_SUMMARY@,
            RANDOM_PASSWORD_GEN_PROMPT@,
            1,
            seq![
                ("result"@, "Cargo.toml"@, Some("toml"@), RANDOM_PASSWORD_GEN_RESULT_CARGO_TOML@, 1),
                ("result"@, "src/main.rs"@, Some("rust"@), RANDOM_PASSWORD_GEN_RESULT_SRC_MAIN_RS@, 1),
            ],
        ),
        (
            "hello-rust-cli"@,
            HELLO_RUST_CLI_TITLE@,
            HELLO_RUST_CLI_SUMMARY@,
            HELLO_RUST_CLI_PROMPT@,
            2,
            seq![
                ("initial"@, "Cargo.toml"@, Some("toml"@), HELLO_RUST_CLI_INITIAL_CARGO_TOML@, 1),
                ("initial"@, "src/main.rs"@, Some("rust"@), HELLO_RUST_CLI_INITIAL_SRC_MAIN_RS@, 2),
                ("result"@, "Cargo.toml"@, Some("toml"@), HELLO_RUST_CLI_RESULT_CARGO_TOML@, 1),
                ("result"@, "src/main.rs"@, Some("rust"@), HELLO_RUST_CLI_RESULT_SRC_MAIN_RS@, 2),
            ],
        ),
        (
            "html-landing-page"@,
            HTML_LANDING_PAGE_TITLE@,
            HTML_LANDING_PAGE_SUMMARY@,
            HTML_LANDING_PAGE_PROMPT@,
            3,
            seq![
                ("initial"@, "index.html"@, Some("html"@), HTML_LANDING_PAGE_INITIAL_INDEX_HTML@, 1),
                ("initial"@, "style.css"@, Some("css"@), HTML_LANDING_PAGE_INITIAL_STYLE_CSS@, 2),
                ("result"@, "index.html"@, Some("html"@), HTML_LANDING_PAGE_RESULT_INDEX_HTML@, 1),
                ("result"@, "style.css"@, Some("css"@), HTML_LANDING_PAGE_RESULT_STYLE_CSS@, 2),
            ],
        ),
        (
            "python-word-counter"@,
            PYTHON_WORD_COUNTER_TITLE@,
            PYTHON_WORD_COUNTER_SUMMARY@,
            PYTHON_WORD_COUNTER_PROMPT@,
            4,
            seq![
                ("initial"@, "word_counter.py"@, Some("python"@), PYTHON_WORD_COUNTER_INITIAL_WORD_COUNTER_PY@, 1),
                ("result"@, "word_counter.py"@, Some("python"@), PYTHON_WORD_COUNTER_RESULT_WORD_COUNTER_PY@, 1),
            ],
        ),
        (
            "readme-template"@,
            README_TEMPLATE_TITLE@,
            README_TEMPLATE_SUMMARY@,
            README_TEMPLATE_PROMPT@,
            5,
            seq![
                ("initial"@, "README.md"@, Some("markdown"@), README_TEMPLATE_INITIAL_README_MD@, 1),
                ("result"@, "README.md"@, Some("markdown"@), README_TEMPLATE_RESULT_README_MD@, 1),
            ],
        ),
    ]
}

/// The slugs of the curated projects, in order.
pub open spec fn curated_slugs() -> Seq<Seq<char>> {
    seq![
        "random-password-gen"@,
        "hello-rust-cli"@,
        "html-landing-page"@,
        "python-word-counter"@,
        "readme-template"@,
    ]
}

/// No two files share a phase and a path.
pub open spec fn seed_keys_distinct(files: Seq<SeedFile>) -> bool {
    forall|i: int, j: int|
        0 <= i < j < files.len() ==> !(files[i].phase@ == files[j].phase@ && files[i].path@
            == files[j].path@)
}

/// Whether a project starts from existing files (has an `initial` file).
pub open spec fn has_initial_files(files: Seq<SeedFile>) -> bool {
    exists|i: int| 0 <= i < files.len() && files[i].phase@ == "initial"@
}

/// Whether a project shows resulting files (has a `result` file).
pub open spec fn has_result_files(files: Seq<SeedFile>) -> bool {
    exists|i: int| 0 <= i < files.len() && files[i].phase@ == "result"@
}

/// A relative path in normal form: not empty, not starting or ending with
/// `/`, no `\\`, no empty component (`//`), and no `.` or `..` component.
pub open spec fn is_normalized_relative_path(p: Seq<char>) -> bool {
    &&& p.len() > 0
    &&& p[0] != '/'
    &&& p.last() != '/'
    &&& forall|i: int| 0 <= i < p.len() ==> #[trigger] p[i] != '\\'
    &&& forall|i: int| 0 <= i < p.len() - 1 ==> !(#[trigger] p[i] == '/' && p[i + 1] == '/')
    &&& forall|i: int|
        0 <= i < p.len() && #[trigger] p[i] == '.' && (i == 0 || p[i - 1] == '/') ==> !(i + 1
            == p.len() || p[i + 1] == '/' || (p[i + 1] == '.' && (i + 2 == p.len() || p[i + 2]
            == '/')))
}

/// The shape every curated dataset keeps: valid, distinct slugs; known file
/// phases; relative, normalized file paths; one file per phase and path
/// within a project.
pub open spec fn is_well_formed_dataset(projects: Seq<SeedProject>) -> bool {
    &&& forall|i: int|
        0 <= i < projects.len() ==> is_kebab_slug(
            (#[trigger] projects[i]).slug@,
            projects[i].slug.spec_bytes().len() as int,
        )
    &&& forall|i: int, j: int|
        0 <= i < j < projects.len() ==> (#[trigger] projects[i]).slug@ != (#[trigger] projects[j]).slug@
    &&& forall|i: int, k: int|
        #![trigger projects[i].files@[k]]
        0 <= i < projects.len() && 0 <= k < projects[i].files@.len() ==> is_known_phase(
            projects[i].files@[k].phase@,
        )
    &&& forall|i: int, k: int|
        #![trigger projects[i].files@[k]]
        0 <= i < projects.len() && 0 <= k < projects[i].files@.len() ==> is_normalized_relative_path(
            projects[i].files@[k].path@,
        )
    &&& forall|i: int| 0 <= i < projects.len() ==> seed_keys_distinct((#[trigger] projects[i]).files@)
}

/// The curated projects of the gallery, in display order: exactly
/// [`curated_data`]. The dataset holds a project created from an empty
/// initial state (the first) and projects that modify existing files (the
/// others, which each show initial and result files).
pub fn curated_projects() -> (projects: Vec<SeedProject>)
    ensures
        projects@.map_values(|p: SeedProject| p@) == curated_data(),
        projects@.len() == 5,
        forall|i: int|
            0 <= i < 5 ==> (#[trigger] projects@[i]).files@.len() == seq![2int, 4, 4, 2, 2][i],
        forall|i: int|
            0 <= i < 5 ==> (#[trigger] projects@[i]).slug@ == curated_slugs()[i]
                && projects@[i].display_order == i + 1,
        is_well_formed_dataset(projects@),
        !has_initial_files(projects@[0].files@),
        forall|i: int|
            1 <= i < 5 ==> has_initial_files((#[trigger] projects@[i]).files@) && has_result_files(
                projects@[i].files@,
            ),
{
    let projects = vec![
        SeedProject {
            slug: "random-password-gen",
            title: RANDOM_PASSWORD_GEN_TITLE,
            summary: RANDOM_PASSWORD_GEN_SUMMARY,
            prompt: RANDOM_PASSWORD_GEN_PROMPT,
            display_order: 1,
            files: vec![
                SeedFile {
                    phase: "result",
                    path: "Cargo.toml",
                    language: Some("toml"),
                    content: RANDOM_PASSWORD_GEN_RESULT_CARGO_TOML,
                    display_order: 1,
                },
                SeedFile {
                    phase: "result",
                    path: "src/main.rs",
                    language: Some("rust"),
                    content: RANDOM_PASSWORD_GEN_RESULT_SRC_MAIN_RS,
                    display_order: 1,
                },
            ],
        },
        SeedProject {
            slug: "hello-rust-cli",
            title: HELLO_RUST_CLI_TITLE,
            summary: HELLO_RUST_CLI_SUMMARY,
            prompt: HELLO_RUST_CLI_PROMPT,
            display_order: 2,
            files: vec![
                SeedFile {
                    phase: "initial",
                    path: "Cargo.toml",
                    language: Some("toml"),
                    content: HELLO_RUST_CLI_INITIAL_CARGO_TOML,
                    display_order: 1,
                },
                SeedFile {
                    phase: "initial",
                    path: "src/main.rs",
                    language: Some("rust"),
                    content: HELLO_RUST_CLI_INITIAL_SRC_MAIN_RS,
                    display_order: 2,
                },
                SeedFile {
                    phase: "result",
                    path: "Cargo.toml",
                    language: Some("toml"),
                    content: HELLO_RUST_CLI_RESULT_CARGO_TOML,
                    display_order: 1,
                },
                SeedFile {
                    phase: "result",
                    path: "src/main.rs",
                    language: Some("rust"),
                    content: HELLO_RUST_CLI_RESULT_SRC_MAIN_RS,
                    display_order: 2,
                },
            ],
        },
        SeedProject {
            slug: "html-landing-page",
            title: HTML_LANDING_PAGE_TITLE,
            summary: HTML_LANDING_PAGE_SUMMARY,
            prompt: HTML_LANDING_PAGE_PROMPT,
            display_order: 3,
            files: vec![
                SeedFile {
                    phase: "initial",
                    path: "index.html",
                    language: Some("html"),
                    content: HTML_LANDING_PAGE_INITIAL_INDEX_HTML,
                    display_order: 1,
                },
                SeedFile {
                    phase: "initial",
                    path: "style.css",
                    language: Some("css"),
                    content: HTML_LANDING_PAGE_INITIAL_STYLE_CSS,
                    display_order: 2,
                },
                SeedFile {
                    phase: "result",
                    path: "index.html",
                    language: Some("html"),
                    content: HTML_LANDING_PAGE_RESULT_INDEX_HTML,
                    display_order: 1,
                },
                SeedFile {
                    phase: "result",
                    path: "style.css",
                    language: Some("css"),
                    content: HTML_LANDING_PAGE_RESULT_STYLE_CSS,
                    display_order: 2,
                },
            ],
        },
        SeedProject {
            slug: "python-word-counter",
            title: PYTHON_WORD_COUNTER_TITLE,
            summary: PYTHON_WORD_COUNTER_SUMMARY,
            prompt: PYTHON_WORD_COUNTER_PROMPT,
            display_order: 4,
            files: vec![
                SeedFile {
                    phase: "initial",
                    path: "word_counter.py",
                    language: Some("python"),
                    content: PYTHON_WORD_COUNTER_INITIAL_WORD_COUNTER_PY,
                    display_order: 1,
                },
                SeedFile {
                    phase: "result",
                    path: "word_counter.py",
                    language: Some("python"),
                    content: PYTHON_WORD_COUNTER_RESULT_WORD_COUNTER_PY,
                    display_order: 1,
                },
            ],
        },
        SeedProject {
            slug: "readme-template",
            title: README_TEMPLATE_TITLE,
            summary: README_TEMPLATE_SUMMARY,
            prompt: README_TEMPLATE_PROMPT,
            display_order: 5,
            files: vec![
                SeedFile {
                    phase: "initial",
                    path: "README.md",
                    language: Some("markdown"),
                    content: README_TEMPLATE_INITIAL_README_MD,
                    display_order: 1,
                },
                SeedFile {
                    phase: "result",
                    path: "README.md",
                    language: Some("markdown"),
                    content: README_TEMPLATE_RESULT_README_MD,
                    display_order: 1,
                },
            ],
        },
    ];
    proof {
        reveal_strlit("random-password-gen");
        reveal_strlit("hello-rust-cli");
        reveal_strlit("html-landing-page");
        reveal_strlit("python-word-counter");
        reveal_strlit("readme-template");
        reveal_strlit("initial");
        reveal_strlit("result");
        reveal_strlit("Cargo.toml");
        reveal_strlit("src/main.rs");
        reveal_strlit("index.html");
        reveal_strlit("style.css");
        reveal_strlit("word_counter.py");
        reveal_strlit("README.md");
        let ps = projects@;
        assert(ps.len() == 5);
        assert forall|i: int| 0 <= i < 5 implies is_ascii_chars((#[trigger] ps[i]).slug@) by {}
        assert forall|i: int| 0 <= i < 5 implies (#[trigger] ps[i]).slug.spec_bytes().len()
            == ps[i].slug@.len() by {
            is_ascii_chars_encode_utf8(ps[i].slug@);
        }
        assert("initial"@ != "result"@) by {
            assert("initial"@.len() != "result"@.len());
        }
        assert forall|i: int| 0 <= i < 5 implies is_kebab_slug(
            (#[trigger] ps[i]).slug@,
            ps[i].slug.spec_bytes().len() as int,
        ) by {
            let sl = ps[i].slug@;
            assert(forall|k: int| 0 <= k < sl.len() ==> crate::gallery::is_slug_alnum(#[trigger] sl[k]) || sl[k] == '-');
        }
        assert forall|i: int, j: int| 0 <= i < j < 5 implies (#[trigger] ps[i]).slug@ != (#[trigger] ps[j]).slug@ by {
            assert(ps[i].slug@.len() != ps[j].slug@.len() || ps[i].slug@[0] != ps[j].slug@[0]);
        }
        assert forall|i: int| 0 <= i < 5 implies seed_keys_distinct((#[trigger] ps[i]).files@) by {
            let fs = ps[i].files@;
            assert forall|a: int, b: int| 0 <= a < b < fs.len() implies !(fs[a].phase@ == fs[b].phase@ && fs[a].path@ == fs[b].path@) by {
                assert(fs[a].phase@.len() != fs[b].phase@.len() || fs[a].path@.len() != fs[b].path@.len());
            }
        }
        assert forall|i: int, k: int| 0 <= i < 5 && 0 <= k < ps[i].files@.len() implies is_known_phase(#[trigger] ps[i].files@[k].phase@) by {}
        assert(!has_initial_files(ps[0].files@));
        assert(has_initial_files(ps[1].files@)) by { assert(ps[1].files@[0].phase@ == "initial"@); }
        assert(has_initial_files(ps[2].files@)) by { assert(ps[2].files@[0].phase@ == "initial"@); }
        assert(has_initial_files(ps[3].files@)) by { assert(ps[3].files@[0].phase@ == "initial"@); }
        assert(has_initial_files(ps[4].files@)) by { assert(ps[4].files@[0].phase@ == "initial"@); }
        let data = curated_data();
        assert forall|i: int| 0 <= i < 5 implies (#[trigger] ps[i])@ == data[i] by {
            assert(ps[i].files@.map_values(|f: SeedFile| f@) =~= data[i].5);
        }
        assert(ps.map_values(|p: SeedProject| p@) =~= data);
    }
    projects
}


/// The stored fields of a project that the curated data decides.
#[derive(Debug)]
pub struct StoredProject {
    pub title: String,
    pub summary: String,
    pub prompt: String,
    pub display_order: i64,
    pub publication_state: String,
}

/// Whether the stored project already holds the curated fields and is published.
pub open spec fn project_is_current(current: StoredProject, project: SeedProject) -> bool {
    &&& current.title@ == project.title@
    &&& current.summary@ == project.summary@
    &&& current.prompt@ == project.prompt@
    &&& current.display_order == project.display_order
    &&& current.publication_state@ == PUBLISHED@
}

/// Whether a stored project must be updated to the curated fields (and
/// published) by a reseed.
pub fn project_needs_update(current: &StoredProject, project: &SeedProject) -> (r: bool)
    ensures
        r == !project_is_current(*current, *project),
{
    !(same_text(current.title.as_str(), project.title) && same_text(
        current.summary.as_str(),
        project.summary,
    ) && same_text(current.prompt.as_str(), project.prompt) && current.display_order
        == project.display_order && same_text(current.publication_state.as_str(), PUBLISHED))
}

/// The stored fields of a file that the curated data decides.
#[derive(Debug)]
pub struct StoredFile {
    pub content: String,
    pub language: Option<String>,
    pub display_order: i64,
}

/// Whether the stored file already holds the curated content, language and order.
pub open spec fn file_is_current(current: StoredFile, file: SeedFile) -> bool {
    &&& current.content@ == file.content@
    &&& match (current.language, file.language) {
        (Some(a), Some(b)) => a@ == b@,
        (None, None) => true,
        _ => false,
    }
    &&& current.display_order == file.display_order
}

/// Whether a stored file must be updated to the curated content by a reseed.
pub fn file_needs_update(current: &StoredFile, file: &SeedFile) -> (r: bool)
    ensures
        r == !file_is_current(*current, *file),
{
    let same_language = match (&current.language, &file.language) {
        (Some(a), Some(b)) => same_text(a.as_str(), b),
        (None, None) => true,
        _ => false,
    };
    !(same_text(current.content.as_str(), file.content) && same_language && current.display_order
        == file.display_order)
}

/// Whether the curated files hold a file with this phase and path.
pub open spec fn has_key(files: Seq<SeedFile>, phase: Seq<char>, path: Seq<char>) -> bool {
    exists|k: int| 0 <= k < files.len() && files[k].phase@ == phase && files[k].path@ == path
}

/// The stored (phase, path) keys that the curated files no longer hold, in
/// stored order: the files a reseed removes.
pub open spec fn stale_keys(files: Seq<SeedFile>, existing: Seq<(String, String)>) -> Seq<
    (String, String),
>
    decreases existing.len(),
{
    if existing.len() == 0 {
        Seq::empty()
    } else {
        let earlier = stale_keys(files, existing.drop_last());
        let key = existing.last();
        if has_key(files, key.0@, key.1@) {
            earlier
        } else {
            earlier.push(key)
        }
    }
}

fn curated_has_key(files: &Vec<SeedFile>, phase: &str, path: &str) -> (r: bool)
    ensures
        r == has_key(files@, phase@, path@),
{
    let mut k: usize = 0;
    while k < files.len()
        invariant
            k <= files.len(),
            forall|j: int| 0 <= j < k ==> !(files@[j].phase@ == phase@ && files@[j].path@ == path@),
        decreases files.len() - k,
    {
        if same_text(files[k].phase, phase) && same_text(files[k].path, path) {
            return true;
        }
        k = k + 1;
    }
    false
}

/// The stored files of a project that a reseed removes: those whose phase and
/// path the curated definition no longer holds (removed or renamed files).
pub fn stale_file_keys(project: &SeedProject, existing: &Vec<(String, String)>) -> (stale: Vec<
    (String, String),
>)
    ensures
        stale@ == stale_keys(project.files@, existing@),
{
    let mut stale: Vec<(String, String)> = Vec::new();
    let mut i: usize = 0;
    while i < existing.len()
        invariant
            i <= existing.len(),
            stale@ == stale_keys(project.files@, existing@.take(i as int)),
        decreases existing.len() - i,
    {
        assert(existing@.take(i + 1).drop_last() == existing@.take(i as int));
        let (phase, path) = &existing[i];
        if !curated_has_key(&project.files, phase.as_str(), path.as_str()) {
            stale.push((phase.clone(), path.clone()));
        }
        i = i + 1;
    }
    assert(existing@.take(existing.len() as int) == existing@);
    stale
}

/// The counts of a seed run.
#[derive(Debug)]
pub struct SeedSummary {
    pub projects_upserted: u64,
    pub files_upserted: u64,
    pub files_removed: u64,
}

/// A reseed is convergent: once a project's stored files are exactly keyed
/// by the curated definition, nothing is removed; and a project already
/// holding the curated fields is not updated again.
pub proof fn lemma_reseed_is_stable(
    project: SeedProject,
    current: StoredProject,
    existing: Seq<(String, String)>,
)
    requires
        project_is_current(current, project),
        forall|i: int|
            0 <= i < existing.len() ==> has_key(project.files@, (#[trigger] existing[i]).0@, existing[i].1@),
    ensures
        stale_keys(project.files@, existing).len() == 0,
    decreases existing.len(),
{
    if existing.len() > 0 {
        let d = existing.drop_last();
        assert forall|i: int| 0 <= i < d.len() implies has_key(project.files@, (#[trigger] d[i]).0@, d[i].1@) by {
            assert(d[i] == existing[i]);
        }
        lemma_reseed_is_stable(project, current, d);
        assert(has_key(project.files@, existing[existing.len() - 1].0@, existing[existing.len() - 1].1@));
    }
}

/// Every removed key is a stored key the curated definition does not hold,
/// and every stored key it does not hold is removed.
pub proof fn lemma_stale_keys_exact(files: Seq<SeedFile>, existing: Seq<(String, String)>)
    ensures
        forall|i: int|
            0 <= i < stale_keys(files, existing).len() ==> existing.contains(
                #[trigger] stale_keys(files, existing)[i],
            ) && !has_key(files, stale_keys(files, existing)[i].0@, stale_keys(files, existing)[i].1@),
        forall|i: int|
            0 <= i < existing.len() && !has_key(files, (#[trigger] existing[i]).0@, existing[i].1@)
                ==> stale_keys(files, existing).contains(existing[i]),
    decreases existing.len(),
{
    if existing.len() > 0 {
        let d = existing.drop_last();
        lemma_stale_keys_exact(files, d);
        let st = stale_keys(files, existing);
        let sd = stale_keys(files, d);
        assert forall|i: int| 0 <= i < st.len() implies existing.contains(#[trigger] st[i]) && !has_key(files, st[i].0@, st[i].1@) by {
            if i < sd.len() {
                assert(st[i] == sd[i]);
                let j = choose|j: int| 0 <= j < d.len() && d[j] == sd[i];
                assert(existing[j] == d[j]);
            } else {
                assert(st[i] == existing.last());
                assert(existing[existing.len() - 1] == existing.last());
            }
        }
        assert forall|i: int| 0 <= i < existing.len() && !has_key(files, (#[trigger] existing[i]).0@, existing[i].1@) implies st.contains(existing[i]) by {
            if i < d.len() {
                assert(d[i] == existing[i]);
                let j = choose|j: int| 0 <= j < sd.len() && sd[j] == d[i];
                assert(st[j] == sd[j]);
            } else {
                assert(st[st.len() - 1] == existing[i]);
            }
        }
    }
}

/// The key a stored file is upserted by: its phase and path.
pub type FileKey = (Seq<char>, Seq<char>);

/// What a stored file holds besides its key: language, content and display
/// order.
pub type FileValue = (Option<Seq<char>>, Seq<char>, i64);

/// The key of a curated file.
pub open spec fn seed_file_key(f: SeedFile) -> FileKey {
    (f.phase@, f.path@)
}

/// The stored value a curated file asks for.
pub open spec fn seed_file_value(f: SeedFile) -> FileValue {
    (
        match f.language {
            Some(l) => Some(l@),
            None => None,
        },
        f.content@,
        f.display_order,
    )
}

/// The value a stored file holds.
pub open spec fn stored_file_value(current: StoredFile) -> FileValue {
    (
        match current.language {
            Some(l) => Some(l@),
            None => None,
        },
        current.content@,
        current.display_order,
    )
}

/// The stored files after each curated file, in order, is updated or
/// inserted by its key.
pub open spec fn upsert_files(stored: Map<FileKey, FileValue>, files: Seq<SeedFile>) -> Map<
    FileKey,
    FileValue,
>
    decreases files.len(),
{
    if files.len() == 0 {
        stored
    } else {
        upsert_files(stored, files.drop_last()).insert(
            seed_file_key(files.last()),
            seed_file_value(files.last()),
        )
    }
}

/// The stored files of a project that hold exactly the curated files.
pub open spec fn curated_file_map(files: Seq<SeedFile>) -> Map<FileKey, FileValue> {
    upsert_files(Map::empty(), files)
}

/// One reseed pass over the stored files of a project: the files whose key
/// the curated definition no longer holds are removed, then every curated
/// file is updated or inserted by its key.
pub open spec fn reseed_files(stored: Map<FileKey, FileValue>, files: Seq<SeedFile>) -> Map<
    FileKey,
    FileValue,
> {
    upsert_files(stored.restrict(Set::new(|k: FileKey| has_key(files, k.0, k.1))), files)
}

proof fn lemma_has_key_push(files: Seq<SeedFile>, k: FileKey)
    requires
        files.len() > 0,
    ensures
        has_key(files, k.0, k.1) <==> (has_key(files.drop_last(), k.0, k.1) || seed_file_key(
            files.last(),
        ) == k),
{
    let d = files.drop_last();
    if has_key(files, k.0, k.1) {
        let j = choose|j: int| 0 <= j < files.len() && files[j].phase@ == k.0 && files[j].path@ == k.1;
        if j < d.len() {
            assert(d[j] == files[j]);
        }
    }
    if has_key(d, k.0, k.1) {
        let j = choose|j: int| 0 <= j < d.len() && d[j].phase@ == k.0 && d[j].path@ == k.1;
        assert(files[j] == d[j]);
    }
    if seed_file_key(files.last()) == k {
        assert(files[files.len() - 1].phase@ == k.0 && files[files.len() - 1].path@ == k.1);
    }
}

/// Upserting leaves the keys the curated files do not hold as they were, and
/// gives the keys they hold the same value whatever was stored before.
pub(crate) proof fn lemma_upsert_files(m1: Map<FileKey, FileValue>, m2: Map<FileKey, FileValue>, files: Seq<SeedFile>)
    ensures
        forall|k: FileKey|
            !has_key(files, k.0, k.1) ==> (#[trigger] upsert_files(m1, files).dom().contains(k)
                <==> m1.dom().contains(k)) && (m1.dom().contains(k) ==> upsert_files(m1, files)[k]
                == m1[k]),
        forall|k: FileKey|
            has_key(files, k.0, k.1) ==> #[trigger] upsert_files(m1, files).dom().contains(k)
                && upsert_files(m2, files).dom().contains(k) && upsert_files(m1, files)[k]
                == upsert_files(m2, files)[k],
    decreases files.len(),
{
    if files.len() > 0 {
        let d = files.drop_last();
        lemma_upsert_files(m1, m2, d);
        assert forall|k: FileKey| !has_key(files, k.0, k.1) implies (#[trigger] upsert_files(
            m1,
            files,
        ).dom().contains(k) <==> m1.dom().contains(k)) && (m1.dom().contains(k) ==> upsert_files(
            m1,
            files,
        )[k] == m1[k]) by {
            lemma_has_key_push(files, k);
            assert(!has_key(d, k.0, k.1));
            assert(upsert_files(m1, d).dom().contains(k) <==> m1.dom().contains(k));
        }
        assert forall|k: FileKey| has_key(files, k.0, k.1) implies #[trigger] upsert_files(
            m1,
            files,
        ).dom().contains(k) && upsert_files(m2, files).dom().contains(k) && upsert_files(m1, files)[k]
            == upsert_files(m2, files)[k] by {
            lemma_has_key_push(files, k);
            if seed_file_key(files.last()) != k {
                assert(has_key(d, k.0, k.1));
                assert(upsert_files(m1, d).dom().contains(k));
            }
        }
    }
}

/// With distinct keys, the map of the curated files gives each curated file
/// its own value.
proof fn lemma_curated_file_map_values(files: Seq<SeedFile>, i: int)
    requires
        seed_keys_distinct(files),
        0 <= i < files.len(),
    ensures
        curated_file_map(files).dom().contains(seed_file_key(files[i])),
        curated_file_map(files)[seed_file_key(files[i])] == seed_file_value(files[i]),
    decreases files.len(),
{
    let d = files.drop_last();
    if i < files.len() - 1 {
        assert forall|a: int, b: int| 0 <= a < b < d.len() implies !(d[a].phase@ == d[b].phase@
            && d[a].path@ == d[b].path@) by {
            assert(d[a] == files[a] && d[b] == files[b]);
        }
        lemma_curated_file_map_values(d, i);
        assert(d[i] == files[i]);
        assert(seed_file_key(files.last()) != seed_file_key(files[i]));
    }
}

/// One reseed pass leaves exactly the curated files, whatever was stored.
proof fn lemma_reseed_is_curated(stored: Map<FileKey, FileValue>, files: Seq<SeedFile>)
    ensures
        reseed_files(stored, files) == curated_file_map(files),
{
    let keys = Set::new(|k: FileKey| has_key(files, k.0, k.1));
    let kept = stored.restrict(keys);
    let empty = Map::<FileKey, FileValue>::empty();
    lemma_upsert_files(kept, empty, files);
    lemma_upsert_files(empty, kept, files);
    let a = upsert_files(kept, files);
    let b = upsert_files(empty, files);
    assert forall|k: FileKey| #[trigger] a.dom().contains(k) <==> b.dom().contains(k) by {
        if !has_key(files, k.0, k.1) {
            assert(!keys.contains(k));
            assert(!kept.dom().contains(k));
        }
    }
    assert forall|k: FileKey| a.dom().contains(k) implies #[trigger] a[k] == b[k] by {
        if !has_key(files, k.0, k.1) {
            assert(!keys.contains(k));
        }
    }
    assert(a =~= b);
}

/// Reseeding converges in one pass: whatever a project's stored files were,
/// after one reseed pass they are exactly the curated files, keyed by phase
/// and path, each holding its curated language, content and display order.
/// So a second pass finds no stale file and no file to update, and leaves
/// the stored files as they are.
pub proof fn lemma_reseed_converges(files: Seq<SeedFile>, stored: Map<FileKey, FileValue>)
    requires
        seed_keys_distinct(files),
    ensures
        reseed_files(stored, files) == curated_file_map(files),
        forall|k: FileKey|
            #[trigger] reseed_files(stored, files).dom().contains(k) <==> has_key(files, k.0, k.1),
        forall|i: int|
            0 <= i < files.len() ==> reseed_files(stored, files)[seed_file_key(#[trigger] files[i])]
                == seed_file_value(files[i]),
        forall|i: int, current: StoredFile|
            0 <= i < files.len() && stored_file_value(current) == reseed_files(stored, files)[
                seed_file_key(files[i])] ==> #[trigger] file_is_current(current, files[i]),
        reseed_files(reseed_files(stored, files), files) == reseed_files(stored, files),
{
    lemma_reseed_is_curated(stored, files);
    let once = reseed_files(stored, files);
    lemma_reseed_is_curated(once, files);
    let empty = Map::<FileKey, FileValue>::empty();
    lemma_upsert_files(empty, empty, files);
    assert forall|k: FileKey| #[trigger] once.dom().contains(k) <==> has_key(files, k.0, k.1) by {
        if !has_key(files, k.0, k.1) {
            assert(!empty.dom().contains(k));
        }
    }
    assert forall|i: int| 0 <= i < files.len() implies once[seed_file_key(#[trigger] files[i])]
        == seed_file_value(files[i]) by {
        lemma_curated_file_map_values(files, i);
    }
    assert forall|i: int, current: StoredFile|
        0 <= i < files.len() && stored_file_value(current) == once[seed_file_key(files[i])] implies #[trigger] file_is_current(current, files[i]) by {
        lemma_curated_file_map_values(files, i);
    }
}

} // verus!

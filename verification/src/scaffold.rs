//! The files of a new project.

use crate::memory::compare_bytes;
use vstd::prelude::*;
use vstd::string::StringExecFns;
use vstd::utf8::encode_utf8_decode_utf8;

verus! {

/// The source of the basic template.
pub const BASIC_TEMPLATE: &'static str = "use pino_core::prelude::*;\n\n#[pino_program]\npub mod program {\n    use super::*;\n\n    #[instruction]\n    pub fn initialize(ctx: Context<Initialize>) -> ProgramResult {\n        msg!(\"Hello from Pino!\");\n        Ok(())\n    }\n}\n\n#[derive(Accounts)]\npub struct Initialize {}\n";

/// The source of the token template.
pub const TOKEN_TEMPLATE: &'static str = "use pino_core::prelude::*;\n\n#[pino_program]\npub mod token_program {\n    use super::*;\n\n    #[instruction]\n    pub fn initialize_mint(ctx: Context<InitializeMint>) -> ProgramResult {\n        msg!(\"Initializing mint\");\n        Ok(())\n    }\n\n    #[instruction]\n    pub fn mint_to(ctx: Context<MintTo>, amount: u64) -> ProgramResult {\n        msg!(\"Minting {} tokens\", amount);\n        Ok(())\n    }\n}\n\n#[derive(Accounts)]\npub struct InitializeMint {}\n\n#[derive(Accounts)]\npub struct MintTo {}\n";

/// What stands before the name in the package manifest of a new project.
pub const MANIFEST_HEAD: &'static str = "[package]\nname = \"";

/// What stands behind the name in the package manifest of a new project.
pub const MANIFEST_TAIL: &'static str = "\"\nversion = \"0.1.0\"\nedition = \"2021\"\n\n[dependencies]\npino-core = { path = \"../../crates/pino-core\" }\npino-macros = { path = \"../../crates/pino-macros\" }\npinocchio = { path = \"../../pinocchio/sdk/pinocchio\" }\nborsh = \"1.0\"\nbytemuck = \"1.20\"\n\n[lib]\ncrate-type = [\"cdylib\", \"lib\"]\n";

/// What stands before the name in the introduction of a new project.
pub const README_HEAD: &'static str = "# ";

/// What stands behind the name in the introduction of a new project.
pub const README_TAIL: &'static str = "\n\nA Pino Solana program.\n\n## Building\n\n```bash\npino build\n```\n\n## Testing\n\n```bash\npino test\n```\n\n## Deploying\n\n```bash\npino deploy\n```\n";

/// The source that a new project starts from.
#[derive(Debug, Clone, Copy, PartialEq, Eq, Structural)]
pub enum Template {
    /// One instruction that says hello
    Basic,
    /// The outline of a token program
    Token,
}

/// Tells whether two texts are the same.
pub fn text_equal(a: &str, b: &str) -> (r: bool)
    ensures
        r == (a@ == b@),
{
    proof {
        encode_utf8_decode_utf8(a@);
        encode_utf8_decode_utf8(b@);
    }
    compare_bytes(a.as_bytes(), b.as_bytes())
}

/// The template of the given name: `token` names the token template, and
/// every other name the basic one.
pub fn select_template(name: &str) -> (r: Template)
    ensures
        r == if name@ == "token"@ {
            Template::Token
        } else {
            Template::Basic
        },
{
    if text_equal(name, "token") {
        Template::Token
    } else {
        Template::Basic
    }
}

/// The source of the basic template.
pub fn create_basic_template() -> (r: String)
    ensures
        r@ == BASIC_TEMPLATE@,
{
    String::from_str(BASIC_TEMPLATE)
}

/// The source of the token template.
pub fn create_token_template() -> (r: String)
    ensures
        r@ == TOKEN_TEMPLATE@,
{
    String::from_str(TOKEN_TEMPLATE)
}

/// The source of a template.
pub fn template_source(template: Template) -> (r: String)
    ensures
        r@ == match template {
            Template::Basic => BASIC_TEMPLATE@,
            Template::Token => TOKEN_TEMPLATE@,
        },
{
    match template {
        Template::Basic => create_basic_template(),
        Template::Token => create_token_template(),
    }
}

/// The package manifest of a new project called `name`.
pub fn manifest_text(name: &str) -> (r: String)
    ensures
        r@ == MANIFEST_HEAD@ + name@ + MANIFEST_TAIL@,
{
    String::from_str(MANIFEST_HEAD).concat(name).concat(MANIFEST_TAIL)
}

/// The introduction of a new project called `name`.
pub fn readme_text(name: &str) -> (r: String)
    ensures
        r@ == README_HEAD@ + name@ + README_TAIL@,
{
    String::from_str(README_HEAD).concat(name).concat(README_TAIL)
}

} // verus!
